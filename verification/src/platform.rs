//! The static platform table: which runtime artifact each supported
//! host platform uses, where it lives under the data directory, and
//! how it is installed (archive vs. bare executable, executable bit).

use vstd::prelude::*;
use crate::errors::ConfigError;

verus! {

/// A host platform the launcher can provision a runtime for.
#[derive(Clone, Copy, PartialEq, Eq, Structural, Debug)]
pub enum Platform {
    Windows,
    Mac,
    Linux,
}

/// How the platform's runtime artifact is distributed.
#[derive(Clone, Copy, PartialEq, Eq, Structural, Debug)]
pub enum ArtifactFormat {
    /// An archive that must be unpacked after download.
    Archive,
    /// A bare executable used as downloaded.
    BareExecutable,
}

/// The platform a host OS identifier maps to, if any.
pub open spec fn spec_platform_of_os(os: Seq<char>) -> Option<Platform> {
    if os == "windows"@ {
        Some(Platform::Windows)
    } else if os == "macos"@ || os == "darwin"@ {
        Some(Platform::Mac)
    } else if os == "linux"@ {
        Some(Platform::Linux)
    } else {
        None
    }
}

/// Where the runtime lives, relative to the data directory.
pub open spec fn spec_relative_path(p: Platform) -> Seq<char> {
    match p {
        Platform::Windows => "runtime/win/flashplayer.exe"@,
        Platform::Mac => "runtime/mac/flashplayer"@,
        Platform::Linux => "runtime/linux/flashplayer"@,
    }
}

/// The file name of the runtime interpreter to invoke.
pub open spec fn spec_executable_name(p: Platform) -> Seq<char> {
    match p {
        Platform::Windows => "flashplayer.exe"@,
        Platform::Mac => "flashplayer"@,
        Platform::Linux => "flashplayer"@,
    }
}

/// How the platform's artifact is distributed.
pub open spec fn spec_artifact_format(p: Platform) -> ArtifactFormat {
    match p {
        Platform::Windows => ArtifactFormat::Archive,
        Platform::Mac => ArtifactFormat::Archive,
        Platform::Linux => ArtifactFormat::BareExecutable,
    }
}

/// Whether the installed runtime needs the executable bit set.
pub open spec fn spec_needs_exec_bit(p: Platform) -> bool {
    match p {
        Platform::Windows => false,
        Platform::Mac => true,
        Platform::Linux => true,
    }
}

/// The full expected path of the runtime: the data directory, a path
/// separator, and the platform's relative path.
pub open spec fn spec_runtime_path(data_dir: Seq<char>, p: Platform) -> Seq<char> {
    data_dir + "/"@ + spec_relative_path(p)
}

/// True when two string slices hold the same characters.
fn str_eq(a: &str, b: &str) -> (r: bool)
    ensures
        r == (a@ == b@),
{
    let sa = a.to_owned();
    let sb = b.to_owned();
    sa == sb
}

/// Maps a host OS identifier (as `std::env::consts::OS` spells it, with
/// `darwin` accepted as well) to the platform table's key.
pub fn platform_of_os(os_id: &str) -> (r: Option<Platform>)
    ensures
        r == spec_platform_of_os(os_id@),
{
    if str_eq(os_id, "windows") {
        Some(Platform::Windows)
    } else if str_eq(os_id, "macos") {
        Some(Platform::Mac)
    } else if str_eq(os_id, "darwin") {
        Some(Platform::Mac)
    } else if str_eq(os_id, "linux") {
        Some(Platform::Linux)
    } else {
        None
    }
}

/// The platform's relative runtime path, as the table states it.
pub fn relative_path(p: Platform) -> (r: &'static str)
    ensures
        r@ == spec_relative_path(p),
{
    match p {
        Platform::Windows => "runtime/win/flashplayer.exe",
        Platform::Mac => "runtime/mac/flashplayer",
        Platform::Linux => "runtime/linux/flashplayer",
    }
}

/// The platform's runtime executable name, as the table states it.
pub fn executable_name(p: Platform) -> (r: &'static str)
    ensures
        r@ == spec_executable_name(p),
{
    match p {
        Platform::Windows => "flashplayer.exe",
        Platform::Mac => "flashplayer",
        Platform::Linux => "flashplayer",
    }
}

/// The platform's artifact format, as the table states it.
pub fn artifact_format(p: Platform) -> (r: ArtifactFormat)
    ensures
        r == spec_artifact_format(p),
{
    match p {
        Platform::Windows => ArtifactFormat::Archive,
        Platform::Mac => ArtifactFormat::Archive,
        Platform::Linux => ArtifactFormat::BareExecutable,
    }
}

/// Whether the platform's runtime needs the executable bit, as the
/// table states it.
pub fn needs_exec_bit(p: Platform) -> (r: bool)
    ensures
        r == spec_needs_exec_bit(p),
{
    match p {
        Platform::Windows => false,
        Platform::Mac => true,
        Platform::Linux => true,
    }
}

/// Resolves the expected on-disk location and executable name of the
/// host's runtime interpreter. Pure: the result depends only on the
/// two arguments. An unsupported OS identifier is a hard error, never
/// a silent default.
pub fn locate(os_id: &str, data_dir: &str) -> (r: Result<(String, String), ConfigError>)
    ensures
        match spec_platform_of_os(os_id@) {
            Some(p) => {
                &&& r matches Ok(pair)
                &&& pair.0@ == spec_runtime_path(data_dir@, p)
                &&& pair.1@ == spec_executable_name(p)
            },
            None => r == Err::<(String, String), ConfigError>(ConfigError::UnsupportedPlatform),
        },
{
    match platform_of_os(os_id) {
        Some(p) => {
            let mut path = data_dir.to_owned();
            path.append("/");
            path.append(relative_path(p));
            let exe = executable_name(p).to_owned();
            Ok((path, exe))
        },
        None => Err(ConfigError::UnsupportedPlatform),
    }
}

/// Every supported platform's runtime path and executable name are
/// non-empty: `locate` never hands back an empty location.
pub proof fn lemma_locate_nonempty(os: Seq<char>, data_dir: Seq<char>, p: Platform)
    requires
        spec_platform_of_os(os) == Some(p),
    ensures
        spec_runtime_path(data_dir, p).len() > 0,
        spec_relative_path(p).len() > 0,
        spec_executable_name(p).len() > 0,
{
    reveal_strlit("/");
    reveal_strlit("runtime/win/flashplayer.exe");
    reveal_strlit("runtime/mac/flashplayer");
    reveal_strlit("runtime/linux/flashplayer");
    reveal_strlit("flashplayer.exe");
    reveal_strlit("flashplayer");
}

} // verus!
