use vstd::prelude::*;
use vstd::string::StringExecFns;

verus! {

/// The port the bundled API server listens on.
pub const API_PORT: u16 = 8008;

/// How long the bundled API server is given to come up, in milliseconds.
pub const API_STARTUP_TIMEOUT_MS: u64 = 10000;

/// Why a service descriptor was refused.
#[derive(Clone, Copy, Debug, PartialEq, Eq, Structural)]
pub enum TargetError {
    /// The executable path is empty.
    EmptyPath,
    /// Port 0 is not a port a service can listen on.
    PortZero,
}

/// What is known of a sidecar service before it runs: where its executable
/// lies (relative to the application's runtime directory, or absolute), the
/// TCP port it serves on, and how long it may take to come up.
/// Built once and never changed.
pub struct ServiceTarget {
    path: String,
    port: u16,
    startup_timeout_ms: u64,
}

impl ServiceTarget {
    pub closed spec fn path_view(&self) -> Seq<char> {
        self.path@
    }

    pub closed spec fn port_view(&self) -> u16 {
        self.port
    }

    pub closed spec fn timeout_view(&self) -> u64 {
        self.startup_timeout_ms
    }

    /// A descriptor names an executable and a port a listener can bind.
    pub open spec fn wf(&self) -> bool {
        &&& self.path_view().len() > 0
        &&& self.port_view() != 0
    }

    /// Builds a descriptor; an empty path or port 0 is refused, the path
    /// first.
    pub fn new(path: String, port: u16, startup_timeout_ms: u64) -> (r: Result<ServiceTarget, TargetError>)
        ensures
            path@.len() == 0 ==> r == Err::<ServiceTarget, TargetError>(TargetError::EmptyPath),
            path@.len() > 0 && port == 0 ==> r == Err::<ServiceTarget, TargetError>(TargetError::PortZero),
            path@.len() > 0 && port != 0 ==> (r matches Ok(t) && t.wf() && t.path_view() == path@
                && t.port_view() == port && t.timeout_view() == startup_timeout_ms),
    {
        if path.as_str().is_empty() {
            Err(TargetError::EmptyPath)
        } else if port == 0 {
            Err(TargetError::PortZero)
        } else {
            Ok(ServiceTarget { path, port, startup_timeout_ms })
        }
    }

    /// The executable's path as given.
    pub fn path(&self) -> (r: &str)
        ensures
            r@ == self.path_view(),
    {
        self.path.as_str()
    }

    pub fn port(&self) -> (r: u16)
        ensures
            r == self.port_view(),
    {
        self.port
    }

    pub fn startup_timeout_ms(&self) -> (r: u64)
        ensures
            r == self.timeout_view(),
    {
        self.startup_timeout_ms
    }
}

/// The bundled API server: `bin/api/main` under the runtime directory,
/// serving on `API_PORT`.
pub fn api_server_target() -> (r: ServiceTarget)
    ensures
        r.wf(),
        r.path_view() == "bin/api/main"@,
        r.port_view() == API_PORT,
        r.timeout_view() == API_STARTUP_TIMEOUT_MS,
{
    let path = String::from_str("bin/api/main");
    proof {
        reveal_strlit("bin/api/main");
    }
    ServiceTarget { path, port: API_PORT, startup_timeout_ms: API_STARTUP_TIMEOUT_MS }
}

} // verus!
