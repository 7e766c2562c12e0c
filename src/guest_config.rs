//! The guest's configuration: which services to forward, and how. It is
//! built once at startup and handed to each service.
use vstd::prelude::*;

verus! {

/// The tunnel port on the host.
pub fn default_service_port() -> (r: u32)
    ensures
        r == 6000,
{
    6000
}

/// Clock synchronisation runs every ten minutes.
pub fn default_interval() -> (r: u64)
    ensures
        r == 600_000,
{
    600_000
}

/// Display `:0`.
pub fn default_display() -> (r: u32)
    ensures
        r == 0,
{
    0
}

/// The local port that redirected TCP connections arrive at; not 6000,
/// which the display server uses.
pub fn default_tcp_service_port() -> (r: u16)
    ensures
        r == 6001,
{
    6001
}

/// The command that edits packet-filter rules.
pub fn default_iptables_cmd() -> (r: String)
    ensures
        r@ == "sudo iptables-legacy"@,
{
    String::from_str("sudo iptables-legacy")
}

/// Where the agent socket is offered.
pub fn default_ssh_auth_sock() -> (r: String)
    ensures
        r@ == "/tmp/.wsld/ssh_auth_sock"@,
{
    String::from_str("/tmp/.wsld/ssh_auth_sock")
}

/// Clock synchronisation.
#[derive(Clone, Copy, Debug, PartialEq, Eq, Structural)]
pub struct TimeConfig {
    /// Milliseconds between two rounds.
    pub interval_millis: u64,
}

/// Display forwarding.
#[derive(Clone, Copy, Debug, PartialEq, Eq, Structural)]
pub struct X11Config {
    /// The display number to own.
    pub display: u32,
    /// Take the display over even from a live holder.
    pub force: bool,
}

/// Transparent TCP forwarding.
#[derive(Clone, Debug)]
pub struct TcpForwardConfig {
    /// The local port that redirected connections arrive at.
    pub service_port: u16,
    /// The command, with any prefix, that edits packet-filter rules.
    pub iptables_cmd: String,
    /// The ports whose outgoing connections are forwarded to the host.
    pub ports: Vec<u16>,
}

/// Agent-socket forwarding.
#[derive(Clone, Debug)]
pub struct SshAgentConfig {
    pub ssh_auth_sock: String,
}

/// The whole configuration: the tunnel port and the services to run.
#[derive(Clone, Debug)]
pub struct Config {
    pub service_port: u32,
    pub time: Option<TimeConfig>,
    pub x11: Option<X11Config>,
    pub tcp_forward: Option<TcpForwardConfig>,
    pub ssh_agent: Option<SshAgentConfig>,
}

impl Default for X11Config {
    fn default() -> (r: X11Config)
        ensures
            r == (X11Config { display: 0, force: false }),
    {
        X11Config { display: default_display(), force: false }
    }
}

impl Default for Config {
    /// The default port and no service.
    fn default() -> (r: Config)
        ensures
            r.service_port == 6000,
            r.time is None,
            r.x11 is None,
            r.tcp_forward is None,
            r.ssh_agent is None,
    {
        Config {
            service_port: default_service_port(),
            time: None,
            x11: None,
            tcp_forward: None,
            ssh_agent: None,
        }
    }
}

impl Config {
    /// The configuration used when the user has no configuration file:
    /// the default port, and display forwarding with its defaults.
    pub fn without_file() -> (r: Config)
        ensures
            r.service_port == 6000,
            r.time is None,
            r.x11 == Some(X11Config { display: 0, force: false }),
            r.tcp_forward is None,
            r.ssh_agent is None,
    {
        Config {
            service_port: default_service_port(),
            time: None,
            x11: Some(X11Config::default()),
            tcp_forward: None,
            ssh_agent: None,
        }
    }
}

} // verus!
