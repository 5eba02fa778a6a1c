//! Acquiring the runtime artifact: download to a temporary file,
//! unpack or mark executable as the platform requires, then move into
//! place as the last step.
//!
//! The installer is a state machine. The caller asks
//! [`Installer::pending_action`] what to do next — download, extract,
//! set the executable bit, rename into place, or remove the temporary
//! file — performs that action, and reports whether it succeeded
//! through [`Installer::advance`]. Every run works exclusively on the
//! temporary path until the final rename, and every failed run ends by
//! removing the temporary file, so an interrupted or failed install
//! never leaves anything at the target path. The disk model below
//! states that as a proved invariant over arbitrary runs.

use vstd::prelude::*;
use crate::errors::{ConfigError, InstallError, InstallStage};
use crate::fetch::{spec_scheme, scheme_str, spec_server_host};
use crate::platform::{
    ArtifactFormat, Platform, artifact_format, locate, needs_exec_bit, platform_of_os,
    spec_artifact_format, spec_executable_name, spec_needs_exec_bit, spec_platform_of_os,
    spec_runtime_path,
};

verus! {

/// The artifact file the distribution server offers for a platform.
pub open spec fn spec_artifact_file(p: Platform) -> Seq<char> {
    match p {
        Platform::Windows => "flashplayer-win.zip"@,
        Platform::Mac => "flashplayer-mac.zip"@,
        Platform::Linux => "flashplayer-linux"@,
    }
}

/// The platform artifact's download URL over the given transport.
pub open spec fn spec_artifact_url(secure: bool, p: Platform) -> Seq<char> {
    spec_scheme(secure) + "://"@ + spec_server_host() + "/launcher/runtimes/"@
        + spec_artifact_file(p)
}

/// The artifact file name, as the table states it.
pub fn artifact_file(p: Platform) -> (r: &'static str)
    ensures
        r@ == spec_artifact_file(p),
{
    match p {
        Platform::Windows => "flashplayer-win.zip",
        Platform::Mac => "flashplayer-mac.zip",
        Platform::Linux => "flashplayer-linux",
    }
}

/// Builds the platform artifact's download URL over the given
/// transport.
pub fn artifact_url(secure: bool, p: Platform) -> (r: String)
    ensures
        r@ == spec_artifact_url(secure, p),
{
    let mut url = scheme_str(secure).to_owned();
    url.append("://");
    url.append("bymrefitted.com");
    url.append("/launcher/runtimes/");
    url.append(artifact_file(p));
    url
}

/// An action the caller performs on the installer's behalf. All paths
/// are handed out explicitly; the installer itself touches nothing.
pub enum InstallAction {
    /// Stream the artifact at `url` to the temporary file at `dest`.
    Download { url: String, dest: String },
    /// Unpack the archive at `archive` in place, leaving the finished
    /// artifact at the same temporary path.
    Extract { archive: String },
    /// Set the executable permission on the file at `path`.
    SetExecutable { path: String },
    /// Atomically rename the finished artifact at `from` to `to`.
    Finalize { from: String, to: String },
    /// Remove the temporary file at `path`, if any; best effort.
    RemoveTemp { path: String },
}

/// Where an install run stands.
#[derive(Clone, Copy, PartialEq, Eq, Structural, Debug)]
pub enum InstallPhase {
    /// The download to the temporary file is pending.
    Downloading,
    /// The archive at the temporary path awaits unpacking.
    Extracting,
    /// The artifact awaits its executable bit.
    Permitting,
    /// The finished artifact awaits the atomic rename into place.
    Finalizing,
    /// A step failed at the named stage; the temporary file awaits
    /// removal.
    CleaningUp(InstallStage),
    /// The artifact is in place; the run succeeded.
    Complete,
    /// The run failed at the named stage; nothing was left behind.
    Failed(InstallStage),
}

/// The phase that follows a successful download: archives are
/// unpacked first, POSIX targets then take the executable bit, and
/// the rename into place always comes last.
pub open spec fn spec_after_download(fmt: ArtifactFormat, exec_bit: bool) -> InstallPhase {
    if fmt is Archive {
        InstallPhase::Extracting
    } else if exec_bit {
        InstallPhase::Permitting
    } else {
        InstallPhase::Finalizing
    }
}

/// The installer's transition function: where one reported outcome
/// takes a run that stands in phase `p`.
pub open spec fn spec_advance(
    p: InstallPhase,
    fmt: ArtifactFormat,
    exec_bit: bool,
    ok: bool,
) -> InstallPhase {
    match p {
        InstallPhase::Downloading => if ok {
            spec_after_download(fmt, exec_bit)
        } else {
            InstallPhase::CleaningUp(InstallStage::Download)
        },
        InstallPhase::Extracting => if ok {
            if exec_bit {
                InstallPhase::Permitting
            } else {
                InstallPhase::Finalizing
            }
        } else {
            InstallPhase::CleaningUp(InstallStage::Extract)
        },
        InstallPhase::Permitting => if ok {
            InstallPhase::Finalizing
        } else {
            InstallPhase::CleaningUp(InstallStage::Permission)
        },
        InstallPhase::Finalizing => if ok {
            InstallPhase::Complete
        } else {
            InstallPhase::CleaningUp(InstallStage::Placement)
        },
        InstallPhase::CleaningUp(s) => InstallPhase::Failed(s),
        InstallPhase::Complete => InstallPhase::Complete,
        InstallPhase::Failed(s) => InstallPhase::Failed(s),
    }
}

/// The disk model: the set of paths at which a file exists. One step
/// of the run changes it as the phase's action does. A download leaves
/// a file at the temporary path whether or not it succeeded — a
/// failed stream may leave a partial file. Unpacking in place and
/// setting a permission create nothing. The final rename moves the
/// temporary file onto the target, atomically: on failure it creates
/// nothing. Cleanup removes the temporary file.
pub open spec fn spec_phase_effect(
    disk: Set<Seq<char>>,
    p: InstallPhase,
    temp: Seq<char>,
    target: Seq<char>,
    ok: bool,
) -> Set<Seq<char>> {
    match p {
        InstallPhase::Downloading => disk.insert(temp),
        InstallPhase::Extracting => disk,
        InstallPhase::Permitting => disk,
        InstallPhase::Finalizing => if ok {
            disk.remove(temp).insert(target)
        } else {
            disk
        },
        InstallPhase::CleaningUp(_) => disk.remove(temp),
        InstallPhase::Complete => disk,
        InstallPhase::Failed(_) => disk,
    }
}

/// A whole run: the phase it ends in and the disk it leaves, after
/// the given sequence of reported outcomes.
pub open spec fn spec_run(
    p: InstallPhase,
    fmt: ArtifactFormat,
    exec_bit: bool,
    disk: Set<Seq<char>>,
    temp: Seq<char>,
    target: Seq<char>,
    events: Seq<bool>,
) -> (InstallPhase, Set<Seq<char>>)
    decreases events.len(),
{
    if events.len() == 0 {
        (p, disk)
    } else {
        spec_run(
            spec_advance(p, fmt, exec_bit, events[0]),
            fmt,
            exec_bit,
            spec_phase_effect(disk, p, temp, target, events[0]),
            temp,
            target,
            events.subrange(1, events.len() as int),
        )
    }
}

/// The state-consistency invariant tying a run's phase to the disk:
/// the target path holds a file exactly when the run has completed,
/// and a failed run has also removed its temporary file.
pub open spec fn spec_install_inv(
    p: InstallPhase,
    disk: Set<Seq<char>>,
    temp: Seq<char>,
    target: Seq<char>,
) -> bool {
    &&& p is Complete ==> disk.contains(target) && !disk.contains(temp)
    &&& !(p is Complete) ==> !disk.contains(target)
    &&& p is Failed ==> !disk.contains(temp)
}

/// Every step of a run preserves the state-consistency invariant, and
/// therefore so does any sequence of reported outcomes.
pub proof fn lemma_run_preserves_inv(
    p: InstallPhase,
    fmt: ArtifactFormat,
    exec_bit: bool,
    disk: Set<Seq<char>>,
    temp: Seq<char>,
    target: Seq<char>,
    events: Seq<bool>,
)
    requires
        temp != target,
        spec_install_inv(p, disk, temp, target),
    ensures
        ({
            let (p2, d2) = spec_run(p, fmt, exec_bit, disk, temp, target, events);
            spec_install_inv(p2, d2, temp, target)
        }),
    decreases events.len(),
{
    if events.len() > 0 {
        let p1 = spec_advance(p, fmt, exec_bit, events[0]);
        let d1 = spec_phase_effect(disk, p, temp, target, events[0]);
        assert(spec_install_inv(p1, d1, temp, target));
        lemma_run_preserves_inv(
            p1,
            fmt,
            exec_bit,
            d1,
            temp,
            target,
            events.subrange(1, events.len() as int),
        );
    }
}

/// Atomicity of the install. A run starts downloading onto a disk
/// that holds nothing at the target path. However the reported
/// outcomes fall: no file stands at the target path unless the run
/// completed, and a failed run leaves no temporary file behind
/// either.
pub proof fn lemma_install_atomic(
    fmt: ArtifactFormat,
    exec_bit: bool,
    disk: Set<Seq<char>>,
    temp: Seq<char>,
    target: Seq<char>,
    events: Seq<bool>,
)
    requires
        temp != target,
        !disk.contains(target),
    ensures
        ({
            let (p2, d2) = spec_run(
                InstallPhase::Downloading,
                fmt,
                exec_bit,
                disk,
                temp,
                target,
                events,
            );
            &&& !(p2 is Complete) ==> !d2.contains(target)
            &&& p2 is Complete ==> d2.contains(target) && !d2.contains(temp)
            &&& p2 is Failed ==> !d2.contains(target) && !d2.contains(temp)
        }),
{
    lemma_run_preserves_inv(InstallPhase::Downloading, fmt, exec_bit, disk, temp, target, events);
}

/// The disk a whole provisioning pass leaves. The caller first asks
/// `locate` for the target path and checks for a file there; when one
/// is present the install is skipped outright and no action is
/// issued.
pub open spec fn spec_provision_disk(
    present: bool,
    fmt: ArtifactFormat,
    exec_bit: bool,
    disk: Set<Seq<char>>,
    temp: Seq<char>,
    target: Seq<char>,
    events: Seq<bool>,
) -> Set<Seq<char>> {
    if present {
        disk
    } else {
        spec_run(InstallPhase::Downloading, fmt, exec_bit, disk, temp, target, events).1
    }
}

/// Skipping the install when the artifact is already present is a
/// no-op: the disk — the existing valid install included — is left
/// exactly as it was.
pub proof fn lemma_present_install_skipped(
    fmt: ArtifactFormat,
    exec_bit: bool,
    disk: Set<Seq<char>>,
    temp: Seq<char>,
    target: Seq<char>,
    events: Seq<bool>,
)
    requires
        disk.contains(target),
    ensures
        spec_provision_disk(true, fmt, exec_bit, disk, temp, target, events) == disk,
        spec_provision_disk(true, fmt, exec_bit, disk, temp, target, events).contains(target),
{
}

/// One install run: the paths and URL it works with, and where it
/// stands.
pub struct Installer {
    /// The platform artifact's download URL.
    pub url: String,
    /// The temporary path every step before the last works on.
    pub temp_path: String,
    /// The final path; written only by the last step's atomic rename.
    pub target_path: String,
    /// How the downloaded artifact is distributed.
    pub format: ArtifactFormat,
    /// Whether the artifact needs the executable bit before the
    /// rename.
    pub needs_exec_bit: bool,
    /// Where the run stands.
    pub phase: InstallPhase,
}

impl Installer {
    /// The temporary path is the target path with a marker appended,
    /// so the two never collide.
    pub open spec fn wf(self) -> bool {
        &&& self.temp_path@ == self.target_path@ + ".part"@
        &&& self.temp_path@ != self.target_path@
    }

    /// A fresh run for the given target and platform, about to
    /// download over the transport the manifest fetch negotiated.
    pub fn new(target_path: &str, p: Platform, use_secure: bool) -> (s: Self)
        ensures
            s.wf(),
            s.phase == InstallPhase::Downloading,
            s.target_path@ == target_path@,
            s.url@ == spec_artifact_url(use_secure, p),
            s.format == spec_artifact_format(p),
            s.needs_exec_bit == spec_needs_exec_bit(p),
    {
        let mut temp = target_path.to_owned();
        temp.append(".part");
        proof {
            reveal_strlit(".part");
        }
        Installer {
            url: artifact_url(use_secure, p),
            temp_path: temp,
            target_path: target_path.to_owned(),
            format: artifact_format(p),
            needs_exec_bit: needs_exec_bit(p),
            phase: InstallPhase::Downloading,
        }
    }

    /// The action the caller must perform next, if any. A finished
    /// run — complete or failed — asks for nothing more.
    pub fn pending_action(&self) -> (r: Option<InstallAction>)
        ensures
            self.phase is Downloading ==> (r matches Some(a) && a matches InstallAction::Download {
                url,
                dest,
            } && url@ == self.url@ && dest@ == self.temp_path@),
            self.phase is Extracting ==> (r matches Some(a) && a matches InstallAction::Extract {
                archive,
            } && archive@ == self.temp_path@),
            self.phase is Permitting ==> (r matches Some(a) && a
                matches InstallAction::SetExecutable { path } && path@ == self.temp_path@),
            self.phase is Finalizing ==> (r matches Some(a) && a matches InstallAction::Finalize {
                from,
                to,
            } && from@ == self.temp_path@ && to@ == self.target_path@),
            self.phase is CleaningUp ==> (r matches Some(a) && a matches InstallAction::RemoveTemp {
                path,
            } && path@ == self.temp_path@),
            self.phase is Complete || self.phase is Failed ==> r is None,
    {
        match self.phase {
            InstallPhase::Downloading => Some(
                InstallAction::Download { url: self.url.clone(), dest: self.temp_path.clone() },
            ),
            InstallPhase::Extracting => Some(
                InstallAction::Extract { archive: self.temp_path.clone() },
            ),
            InstallPhase::Permitting => Some(
                InstallAction::SetExecutable { path: self.temp_path.clone() },
            ),
            InstallPhase::Finalizing => Some(
                InstallAction::Finalize {
                    from: self.temp_path.clone(),
                    to: self.target_path.clone(),
                },
            ),
            InstallPhase::CleaningUp(_) => Some(
                InstallAction::RemoveTemp { path: self.temp_path.clone() },
            ),
            InstallPhase::Complete => None,
            InstallPhase::Failed(_) => None,
        }
    }

    /// Reports the pending action's outcome and moves the run along,
    /// exactly as the transition function states. Removal of the
    /// temporary file is best effort: its reported outcome does not
    /// change the run's failure.
    pub fn advance(&mut self, ok: bool)
        requires
            !(old(self).phase is Complete),
            !(old(self).phase is Failed),
        ensures
            final(self).phase == spec_advance(
                old(self).phase,
                old(self).format,
                old(self).needs_exec_bit,
                ok,
            ),
            final(self).url == old(self).url,
            final(self).temp_path == old(self).temp_path,
            final(self).target_path == old(self).target_path,
            final(self).format == old(self).format,
            final(self).needs_exec_bit == old(self).needs_exec_bit,
    {
        let next = match self.phase {
            InstallPhase::Downloading => if ok {
                match self.format {
                    ArtifactFormat::Archive => InstallPhase::Extracting,
                    ArtifactFormat::BareExecutable => if self.needs_exec_bit {
                        InstallPhase::Permitting
                    } else {
                        InstallPhase::Finalizing
                    },
                }
            } else {
                InstallPhase::CleaningUp(InstallStage::Download)
            },
            InstallPhase::Extracting => if ok {
                if self.needs_exec_bit {
                    InstallPhase::Permitting
                } else {
                    InstallPhase::Finalizing
                }
            } else {
                InstallPhase::CleaningUp(InstallStage::Extract)
            },
            InstallPhase::Permitting => if ok {
                InstallPhase::Finalizing
            } else {
                InstallPhase::CleaningUp(InstallStage::Permission)
            },
            InstallPhase::Finalizing => if ok {
                InstallPhase::Complete
            } else {
                InstallPhase::CleaningUp(InstallStage::Placement)
            },
            InstallPhase::CleaningUp(s) => InstallPhase::Failed(s),
            InstallPhase::Complete => InstallPhase::Complete,
            InstallPhase::Failed(s) => InstallPhase::Failed(s),
        };
        self.phase = next;
    }

    /// The run's result, once it has one: success, or the stage that
    /// failed.
    pub fn result(&self) -> (r: Option<Result<(), InstallError>>)
        ensures
            self.phase is Complete ==> r == Some(Ok::<(), InstallError>(())),
            self.phase matches InstallPhase::Failed(s) ==> r == Some(
                Err::<(), InstallError>(InstallError { stage: s }),
            ),
            !(self.phase is Complete) && !(self.phase is Failed) ==> r is None,
    {
        match self.phase {
            InstallPhase::Complete => Some(Ok(())),
            InstallPhase::Failed(s) => Some(Err(InstallError { stage: s })),
            _ => None,
        }
    }
}

/// The provisioning decision after `locate`: when a file already
/// stands at the target path the install is skipped and no action is
/// ever issued; otherwise a fresh run is set up for the negotiated
/// transport.
pub fn plan_provision(target_path: &str, p: Platform, artifact_present: bool, use_secure: bool) -> (r:
    Option<Installer>)
    ensures
        artifact_present ==> r is None,
        !artifact_present ==> (r matches Some(inst) && inst.wf() && inst.phase
            == InstallPhase::Downloading && inst.target_path@ == target_path@ && inst.url@
            == spec_artifact_url(use_secure, p) && inst.format == spec_artifact_format(p)
            && inst.needs_exec_bit == spec_needs_exec_bit(p)),
{
    if artifact_present {
        None
    } else {
        Some(Installer::new(target_path, p, use_secure))
    }
}

/// The whole provisioning step the orchestrator consumes: resolve
/// where the host's runtime must live, and — the caller having
/// checked for a file there — either leave a present install
/// untouched or set up one fresh run over the negotiated transport.
/// An unsupported platform is a hard error and nothing is planned.
pub fn ensure_runtime(
    os_id: &str,
    data_dir: &str,
    artifact_present: bool,
    use_secure: bool,
) -> (r: Result<(String, String, Option<Installer>), ConfigError>)
    ensures
        match spec_platform_of_os(os_id@) {
            Some(p) => {
                &&& r matches Ok(plan)
                &&& plan.0@ == spec_runtime_path(data_dir@, p)
                &&& plan.1@ == spec_executable_name(p)
                &&& artifact_present ==> plan.2 is None
                &&& !artifact_present ==> (plan.2 matches Some(inst) && inst.wf() && inst.phase
                    == InstallPhase::Downloading && inst.target_path@ == spec_runtime_path(
                    data_dir@,
                    p,
                ) && inst.url@ == spec_artifact_url(use_secure, p) && inst.format
                    == spec_artifact_format(p) && inst.needs_exec_bit == spec_needs_exec_bit(p))
            },
            None => r == Err::<(String, String, Option<Installer>), ConfigError>(
                ConfigError::UnsupportedPlatform,
            ),
        },
{
    match platform_of_os(os_id) {
        Some(p) => {
            let located = locate(os_id, data_dir);
            match located {
                Ok((path, exe)) => {
                    let plan = plan_provision(path.as_str(), p, artifact_present, use_secure);
                    Ok((path, exe, plan))
                },
                Err(_) => {
                    proof {
                        assert(false);
                    }
                    Err(ConfigError::UnsupportedPlatform)
                },
            }
        },
        None => Err(ConfigError::UnsupportedPlatform),
    }
}

} // verus!
