//! A supervisor for a sidecar service: a background process that the host
//! application needs on a fixed local port. The decisions (probe, spawn or
//! not, which verdict to report) are a state machine proved here; the host
//! performs the probe and the spawn and feeds the results back.

pub mod greeting;
pub mod target;
pub mod supervisor;
pub mod laws;
