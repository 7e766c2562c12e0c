//! The host's configuration.
use vstd::prelude::*;
use crate::vmid::VmId;

verus! {

/// Where the host's display server listens.
#[derive(Clone, Debug)]
pub struct X11Config {
    /// Address and port of the display server.
    pub display: String,
}

/// The host's configuration.
#[derive(Clone, Debug)]
pub struct Config {
    /// Follow the guest across restarts instead of serving one identity.
    pub daemon: bool,
    /// The tunnel port to listen on.
    pub service_port: u32,
    /// The guest to serve; looked up once at startup when absent.
    pub vmid: Option<VmId>,
    pub x11: X11Config,
}

/// The tunnel port the host listens on by default.
pub fn default_host_service_port() -> (r: u32)
    ensures
        r == 6000,
{
    6000
}

impl Default for X11Config {
    /// The display server on the local loopback, port 6000.
    fn default() -> (r: X11Config)
        ensures
            r.display@ == "127.0.0.1:6000"@,
    {
        X11Config { display: String::from_str("127.0.0.1:6000") }
    }
}

} // verus!
