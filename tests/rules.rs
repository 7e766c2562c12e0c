use wsld::guest_config::{default_iptables_cmd, TcpForwardConfig};
use wsld::rules::{accepts_destination, command_line, rule_plan, NatOp, NatStep};

fn config(ports: Vec<u16>) -> TcpForwardConfig {
    TcpForwardConfig { service_port: 6001, iptables_cmd: default_iptables_cmd(), ports }
}

#[test]
fn plan_flushes_then_rebuilds() {
    let plan = rule_plan(&config(vec![80, 443]));
    assert_eq!(
        plan,
        vec![
            NatStep { op: NatOp::CreateChain, required: false },
            NatStep { op: NatOp::FlushChain, required: true },
            NatStep { op: NatOp::Unhook, required: false },
            NatStep { op: NatOp::Hook, required: true },
            NatStep { op: NatOp::Redirect { port: 80, to_port: 6001 }, required: true },
            NatStep { op: NatOp::Redirect { port: 443, to_port: 6001 }, required: true },
            NatStep { op: NatOp::Return, required: true },
        ]
    );
}

#[test]
fn plan_has_one_redirect_per_port() {
    let c = config(vec![22, 80, 8080]);
    let plan = rule_plan(&c);
    assert_eq!(plan, rule_plan(&c));
    for p in [22u16, 80, 8080] {
        let n = plan
            .iter()
            .filter(|s| s.op == NatOp::Redirect { port: p, to_port: 6001 })
            .count();
        assert_eq!(n, 1);
    }
    assert_eq!(plan.len(), 4 + 3 + 1);
}

#[test]
fn plan_without_ports() {
    assert_eq!(rule_plan(&config(vec![])).len(), 5);
}

#[test]
fn command_lines() {
    let prefix = "sudo iptables-legacy";
    assert_eq!(command_line(prefix, NatOp::CreateChain), "sudo iptables-legacy -t nat -N wsld");
    assert_eq!(command_line(prefix, NatOp::FlushChain), "sudo iptables-legacy -t nat -F wsld");
    assert_eq!(command_line(prefix, NatOp::Unhook), "sudo iptables-legacy -t nat -D OUTPUT -j wsld");
    assert_eq!(command_line(prefix, NatOp::Hook), "sudo iptables-legacy -t nat -I OUTPUT -j wsld");
    assert_eq!(
        command_line(prefix, NatOp::Redirect { port: 80, to_port: 6001 }),
        "sudo iptables-legacy -t nat -A wsld -p tcp --dport 80 -j REDIRECT --to-port 6001"
    );
    assert_eq!(command_line(prefix, NatOp::Return), "sudo iptables-legacy -t nat -A wsld -j RETURN");
    assert_eq!(command_line("iptables", NatOp::FlushChain), "iptables -t nat -F wsld");
}

#[test]
fn connections_to_the_service_port_are_dropped() {
    assert!(!accepts_destination(6001, 6001));
    assert!(accepts_destination(80, 6001));
    assert!(accepts_destination(6000, 6001));
}
