//! Resolving the version manifest: one secure attempt, then at most
//! one insecure fallback.
//!
//! The session is a small state machine. The caller asks
//! [`FetchSession::current_request`] which request to perform, performs
//! it, and hands the outcome back through
//! [`FetchSession::on_response`]. A readable body over the secure
//! transport finishes the session at once — the fallback is never
//! consulted. Any secure failure (transport error or malformed body)
//! buys exactly one retry over the insecure transport; if that fails
//! too, the session ends with the last failure and the caller degrades
//! gracefully.

use vstd::prelude::*;
use crate::errors::NetworkError;
use crate::manifest::{ManifestView, VersionManifest, parse_manifest, spec_extract_version};

verus! {

/// The transport a request goes over.
#[derive(Clone, Copy, PartialEq, Eq, Structural, Debug)]
pub enum Transport {
    Secure,
    Insecure,
}

/// The scheme of the given transport.
pub open spec fn spec_scheme(secure: bool) -> Seq<char> {
    if secure {
        "https"@
    } else {
        "http"@
    }
}

/// The well-known host of the version-distribution server.
pub open spec fn spec_server_host() -> Seq<char> {
    "bymrefitted.com"@
}

/// The well-known path of the manifest endpoint.
pub open spec fn spec_manifest_path() -> Seq<char> {
    "/launcher/manifest"@
}

/// The manifest endpoint's URL over the given transport.
pub open spec fn spec_manifest_url(secure: bool) -> Seq<char> {
    spec_scheme(secure) + "://"@ + spec_server_host() + spec_manifest_path()
}

/// The scheme of the given transport, as a string.
pub fn scheme_str(secure: bool) -> (r: &'static str)
    ensures
        r@ == spec_scheme(secure),
{
    if secure {
        "https"
    } else {
        "http"
    }
}

/// Builds the manifest endpoint's URL over the given transport.
pub fn manifest_url(secure: bool) -> (r: String)
    ensures
        r@ == spec_manifest_url(secure),
{
    let mut url = scheme_str(secure).to_owned();
    url.append("://");
    url.append("bymrefitted.com");
    url.append("/launcher/manifest");
    url
}

/// One transport attempt's outcome, seen mathematically: the body it
/// delivered, or the failure it ended in.
pub open spec fn spec_outcome_view(o: Result<String, NetworkError>) -> Result<
    Seq<char>,
    NetworkError,
> {
    match o {
        Ok(body) => Ok(body@),
        Err(e) => Err(e),
    }
}

/// Whether an attempt delivered a readable manifest body.
pub open spec fn spec_attempt_ok(o: Result<Seq<char>, NetworkError>) -> bool {
    match o {
        Ok(body) => spec_extract_version(body) is Some,
        Err(_) => false,
    }
}

/// The version string a successful attempt delivered.
pub open spec fn spec_attempt_version(o: Result<Seq<char>, NetworkError>) -> Seq<char>
    recommends
        spec_attempt_ok(o),
{
    match o {
        Ok(body) => match spec_extract_version(body) {
            Some(v) => v,
            None => Seq::empty(),
        },
        Err(_) => Seq::empty(),
    }
}

/// The failure a failed attempt ended in: its transport error, or a
/// malformed body.
pub open spec fn spec_attempt_error(o: Result<Seq<char>, NetworkError>) -> NetworkError
    recommends
        !spec_attempt_ok(o),
{
    match o {
        Ok(_) => NetworkError::MalformedBody,
        Err(e) => e,
    }
}

/// The fetch policy as one function of both attempts' outcomes: the
/// secure attempt decides alone when it succeeds; otherwise the
/// insecure attempt is consulted, and its failure is the session's.
pub open spec fn spec_fetch_result(
    secure: Result<Seq<char>, NetworkError>,
    insecure: Result<Seq<char>, NetworkError>,
) -> Result<ManifestView, NetworkError> {
    if spec_attempt_ok(secure) {
        Ok(
            ManifestView {
                current_game_version: spec_attempt_version(secure),
                transport_secure: true,
            },
        )
    } else if spec_attempt_ok(insecure) {
        Ok(
            ManifestView {
                current_game_version: spec_attempt_version(insecure),
                transport_secure: false,
            },
        )
    } else {
        Err(spec_attempt_error(insecure))
    }
}

/// The view of a fetch result as the caller holds it.
pub open spec fn spec_result_view(r: Result<VersionManifest, NetworkError>) -> Result<
    ManifestView,
    NetworkError,
> {
    match r {
        Ok(m) => Ok(m@),
        Err(e) => Err(e),
    }
}

/// Which transport the later runtime download must use: the one the
/// manifest fetch negotiated, and the insecure one when the session
/// proceeds without a manifest.
pub open spec fn spec_transport_for_download(r: Result<ManifestView, NetworkError>) -> bool {
    match r {
        Ok(m) => m.transport_secure,
        Err(_) => false,
    }
}

/// Where a fetch session stands.
pub enum FetchState {
    /// The secure attempt is pending.
    TrySecure,
    /// The secure attempt failed; the insecure attempt is pending.
    TryInsecure,
    /// An attempt delivered this manifest.
    Succeeded(VersionManifest),
    /// Both attempts failed; this was the last failure.
    Failed(NetworkError),
}

/// One manifest-fetch session. Created fresh each app session; never
/// cached across sessions.
pub struct FetchSession {
    pub state: FetchState,
}

impl FetchSession {
    /// Whether the session has reached a result.
    pub open spec fn is_terminal(self) -> bool {
        self.state is Succeeded || self.state is Failed
    }

    /// A fresh session, about to make the secure attempt.
    pub fn new() -> (s: Self)
        ensures
            s.state is TrySecure,
    {
        FetchSession { state: FetchState::TrySecure }
    }

    /// The request the caller must perform next, if any: the transport
    /// to use and the URL to fetch. A terminal session requests
    /// nothing more.
    pub fn current_request(&self) -> (r: Option<(Transport, String)>)
        ensures
            self.state is TrySecure ==> (r matches Some(req) && req.0 == Transport::Secure
                && req.1@ == spec_manifest_url(true)),
            self.state is TryInsecure ==> (r matches Some(req) && req.0 == Transport::Insecure
                && req.1@ == spec_manifest_url(false)),
            self.is_terminal() ==> r is None,
    {
        match &self.state {
            FetchState::TrySecure => Some((Transport::Secure, manifest_url(true))),
            FetchState::TryInsecure => Some((Transport::Insecure, manifest_url(false))),
            FetchState::Succeeded(_) => None,
            FetchState::Failed(_) => None,
        }
    }

    /// Feeds the pending attempt's outcome back into the session. A
    /// readable body finishes the session with a manifest that records
    /// the transport that delivered it; a secure failure of any kind
    /// falls back to the insecure attempt; an insecure failure ends
    /// the session with that failure.
    pub fn on_response(&mut self, outcome: Result<String, NetworkError>)
        requires
            !old(self).is_terminal(),
        ensures
            ({
                let oc = spec_outcome_view(outcome);
                let now = final(self).state;
                &&& old(self).state is TrySecure && spec_attempt_ok(oc)
                    ==> (now matches FetchState::Succeeded(m) && m@ == (ManifestView {
                        current_game_version: spec_attempt_version(oc),
                        transport_secure: true,
                    }))
                &&& old(self).state is TrySecure && !spec_attempt_ok(oc) ==> now is TryInsecure
                &&& old(self).state is TryInsecure && spec_attempt_ok(oc)
                    ==> (now matches FetchState::Succeeded(m) && m@ == (ManifestView {
                        current_game_version: spec_attempt_version(oc),
                        transport_secure: false,
                    }))
                &&& old(self).state is TryInsecure && !spec_attempt_ok(oc)
                    ==> now == FetchState::Failed(spec_attempt_error(oc))
            }),
    {
        let was_secure = match &self.state {
            FetchState::TrySecure => true,
            _ => false,
        };
        match outcome {
            Ok(body) => {
                match parse_manifest(body.as_str(), was_secure) {
                    Some(m) => {
                        self.state = FetchState::Succeeded(m);
                    },
                    None => {
                        if was_secure {
                            self.state = FetchState::TryInsecure;
                        } else {
                            self.state = FetchState::Failed(NetworkError::MalformedBody);
                        }
                    },
                }
            },
            Err(e) => {
                if was_secure {
                    self.state = FetchState::TryInsecure;
                } else {
                    self.state = FetchState::Failed(e);
                }
            },
        }
    }

    /// The session's result: the manifest, or the last failure.
    pub fn take_result(self) -> (r: Result<VersionManifest, NetworkError>)
        requires
            self.is_terminal(),
        ensures
            self.state matches FetchState::Succeeded(m) ==> (r matches Ok(got) && got == m),
            self.state matches FetchState::Failed(e) ==> r == Err::<VersionManifest, NetworkError>(
                e,
            ),
    {
        match self.state {
            FetchState::Succeeded(m) => Ok(m),
            FetchState::Failed(e) => Err(e),
            FetchState::TrySecure => {
                proof {
                    assert(false);
                }
                Err(NetworkError::MalformedBody)
            },
            FetchState::TryInsecure => {
                proof {
                    assert(false);
                }
                Err(NetworkError::MalformedBody)
            },
        }
    }
}

/// Which transport the runtime download must use, given the fetch's
/// result: never the secure one after the manifest step already proved
/// it unreachable.
pub fn transport_for_download(r: &Result<VersionManifest, NetworkError>) -> (b: bool)
    ensures
        b == spec_transport_for_download(spec_result_view(*r)),
{
    match r {
        Ok(m) => m.transport_secure,
        Err(_) => false,
    }
}

/// If the secure endpoint delivers a readable manifest, the fetch
/// records the secure transport, hands back that manifest's version,
/// and its result does not depend on the insecure endpoint at all:
/// the fallback is never consulted.
pub proof fn lemma_secure_success_no_fallback(
    secure: Result<Seq<char>, NetworkError>,
    fallback_a: Result<Seq<char>, NetworkError>,
    fallback_b: Result<Seq<char>, NetworkError>,
)
    requires
        spec_attempt_ok(secure),
    ensures
        spec_fetch_result(secure, fallback_a) == spec_fetch_result(secure, fallback_b),
        spec_fetch_result(secure, fallback_a) matches Ok(m) && m.transport_secure
            && m.current_game_version == spec_attempt_version(secure),
{
}

/// If the secure attempt fails — a transport error or a malformed
/// body — and the insecure attempt delivers a readable manifest, the
/// fetch hands back that manifest and records the degraded transport.
pub proof fn lemma_degraded_fallback(
    secure: Result<Seq<char>, NetworkError>,
    insecure: Result<Seq<char>, NetworkError>,
)
    requires
        !spec_attempt_ok(secure),
        spec_attempt_ok(insecure),
    ensures
        spec_fetch_result(secure, insecure) matches Ok(m) && !m.transport_secure
            && m.current_game_version == spec_attempt_version(insecure),
{
}

/// If both attempts fail, the fetch reports the last failure, and the
/// session proceeds without a manifest: the later runtime download
/// must then use the insecure transport.
pub proof fn lemma_both_fail_degrades(
    secure: Result<Seq<char>, NetworkError>,
    insecure: Result<Seq<char>, NetworkError>,
)
    requires
        !spec_attempt_ok(secure),
        !spec_attempt_ok(insecure),
    ensures
        spec_fetch_result(secure, insecure) == Err::<ManifestView, NetworkError>(
            spec_attempt_error(insecure),
        ),
        !spec_transport_for_download(spec_fetch_result(secure, insecure)),
{
}

} // verus!
