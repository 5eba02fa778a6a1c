//! Core logic of a game launcher: resolving the version manifest over a
//! secure-first transport with an insecure fallback, mapping the host
//! platform to its runtime artifact, and planning an atomic install of
//! that artifact. All decisions are made here; the surrounding binary
//! performs the network and filesystem actions this library asks for.

pub mod errors;
pub mod fetch;
pub mod install;
pub mod manifest;
pub mod platform;
