use wsld::guest_config::{
    default_display, default_interval, default_iptables_cmd, default_service_port,
    default_ssh_auth_sock, default_tcp_service_port, Config, X11Config,
};
use wsld::host_config;

#[test]
fn guest_defaults() {
    assert_eq!(default_service_port(), 6000);
    assert_eq!(default_interval(), 600_000);
    assert_eq!(default_display(), 0);
    assert_eq!(default_tcp_service_port(), 6001);
    assert_eq!(default_iptables_cmd(), "sudo iptables-legacy");
    assert_eq!(default_ssh_auth_sock(), "/tmp/.wsld/ssh_auth_sock");
    assert_eq!(X11Config::default(), X11Config { display: 0, force: false });
}

#[test]
fn default_config_runs_no_service() {
    let c = Config::default();
    assert_eq!(c.service_port, 6000);
    assert!(c.time.is_none() && c.x11.is_none() && c.tcp_forward.is_none() && c.ssh_agent.is_none());
}

#[test]
fn missing_file_forwards_the_display() {
    let c = Config::without_file();
    assert_eq!(c.service_port, 6000);
    assert_eq!(c.x11, Some(X11Config { display: 0, force: false }));
    assert!(c.time.is_none() && c.tcp_forward.is_none() && c.ssh_agent.is_none());
}

#[test]
fn host_defaults() {
    assert_eq!(host_config::default_host_service_port(), 6000);
    assert_eq!(host_config::X11Config::default().display, "127.0.0.1:6000");
}
