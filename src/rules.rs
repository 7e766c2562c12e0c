//! Packet-filter rules for transparent TCP forwarding.
//!
//! The guest redirects each watched port to its local forwarding port with
//! NAT rules in a chain of its own. Setting up flushes that chain and
//! rebuilds it, so running the setup again leaves the same rules. The
//! commands are planned here; the caller runs them and stops at the first
//! failure of a step marked required.
use vstd::prelude::*;
use crate::guest_config::TcpForwardConfig;
use crate::text::{decimal, push_decimal};

verus! {

/// One packet-filter command.
#[derive(Clone, Copy, Debug, PartialEq, Eq, Structural)]
pub enum NatOp {
    /// Create the tool's chain.
    CreateChain,
    /// Empty the tool's chain.
    FlushChain,
    /// Remove the jump from the output chain to the tool's chain.
    Unhook,
    /// Insert a jump from the output chain to the tool's chain, first.
    Hook,
    /// Append: redirect TCP to `port` to the local `to_port`.
    Redirect { port: u16, to_port: u16 },
    /// Append: return to the calling chain.
    Return,
}

/// A command and whether setup fails when it does.
#[derive(Clone, Copy, Debug, PartialEq, Eq, Structural)]
pub struct NatStep {
    pub op: NatOp,
    pub required: bool,
}

pub open spec fn redirect_steps(ports: Seq<u16>, to_port: u16) -> Seq<NatStep> {
    ports.map_values(|p: u16| NatStep { op: NatOp::Redirect { port: p, to_port }, required: true })
}

/// The setup: create the chain (it may exist), flush it, move the jump to
/// it to the front of the output chain (there may be none), then one
/// redirect per watched port, in order, and a return.
pub open spec fn plan_of(ports: Seq<u16>, to_port: u16) -> Seq<NatStep> {
    seq![
        NatStep { op: NatOp::CreateChain, required: false },
        NatStep { op: NatOp::FlushChain, required: true },
        NatStep { op: NatOp::Unhook, required: false },
        NatStep { op: NatOp::Hook, required: true },
    ] + redirect_steps(ports, to_port) + seq![NatStep { op: NatOp::Return, required: true }]
}

/// The arguments of a command, after the table selection.
pub open spec fn args_of(op: NatOp) -> Seq<char> {
    match op {
        NatOp::CreateChain => "-N wsld"@,
        NatOp::FlushChain => "-F wsld"@,
        NatOp::Unhook => "-D OUTPUT -j wsld"@,
        NatOp::Hook => "-I OUTPUT -j wsld"@,
        NatOp::Redirect { port, to_port } => "-A wsld -p tcp --dport "@ + decimal(port as nat)
            + " -j REDIRECT --to-port "@ + decimal(to_port as nat),
        NatOp::Return => "-A wsld -j RETURN"@,
    }
}

/// The shell command line that runs `op` with the command `prefix` on the
/// NAT table.
pub open spec fn command_line_of(prefix: Seq<char>, op: NatOp) -> Seq<char> {
    prefix + " -t nat "@ + args_of(op)
}

/// Plans the setup for `config`.
pub fn rule_plan(config: &TcpForwardConfig) -> (r: Vec<NatStep>)
    ensures
        r@ == plan_of(config.ports@, config.service_port),
{
    let mut r: Vec<NatStep> = Vec::new();
    r.push(NatStep { op: NatOp::CreateChain, required: false });
    r.push(NatStep { op: NatOp::FlushChain, required: true });
    r.push(NatStep { op: NatOp::Unhook, required: false });
    r.push(NatStep { op: NatOp::Hook, required: true });
    let ghost head = r@;
    let to_port = config.service_port;
    let mut i: usize = 0;
    while i < config.ports.len()
        invariant
            i <= config.ports@.len(),
            to_port == config.service_port,
            r@ == head + redirect_steps(config.ports@.subrange(0, i as int), to_port),
        decreases config.ports.len() - i,
    {
        r.push(NatStep { op: NatOp::Redirect { port: config.ports[i], to_port }, required: true });
        proof {
            assert(redirect_steps(config.ports@.subrange(0, i + 1), to_port) =~= redirect_steps(
                config.ports@.subrange(0, i as int),
                to_port,
            ).push(NatStep { op: NatOp::Redirect { port: config.ports@[i as int], to_port }, required: true }));
            assert(r@ =~= head + redirect_steps(config.ports@.subrange(0, i + 1), to_port));
        }
        i = i + 1;
    }
    r.push(NatStep { op: NatOp::Return, required: true });
    proof {
        assert(config.ports@.subrange(0, i as int) =~= config.ports@);
        assert(r@ =~= plan_of(config.ports@, config.service_port));
    }
    r
}

/// The command line that runs `op`.
pub fn command_line(prefix: &str, op: NatOp) -> (r: String)
    ensures
        r@ == command_line_of(prefix@, op),
{
    let mut s = String::from_str(prefix);
    s.append(" -t nat ");
    match op {
        NatOp::CreateChain => s.append("-N wsld"),
        NatOp::FlushChain => s.append("-F wsld"),
        NatOp::Unhook => s.append("-D OUTPUT -j wsld"),
        NatOp::Hook => s.append("-I OUTPUT -j wsld"),
        NatOp::Redirect { port, to_port } => {
            s.append("-A wsld -p tcp --dport ");
            push_decimal(&mut s, port as u64);
            s.append(" -j REDIRECT --to-port ");
            push_decimal(&mut s, to_port as u64);
        },
        NatOp::Return => s.append("-A wsld -j RETURN"),
    }
    proof {
        assert(s@ =~= command_line_of(prefix@, op));
    }
    s
}

/// Whether a redirected connection is forwarded, given the port it was
/// addressed to before redirection: one addressed to the forwarding port
/// itself would loop back into the tunnel, and is dropped.
pub fn accepts_destination(destination_port: u16, service_port: u16) -> (r: bool)
    ensures
        r == (destination_port != service_port),
{
    destination_port != service_port
}

/// A rule of the tool's chain.
#[derive(Clone, Copy, Debug, PartialEq, Eq, Structural)]
pub enum ChainRule {
    Redirect { port: u16, to_port: u16 },
    Return,
}

/// The part of the NAT table the tool touches: its chain, if it exists,
/// and how many jumps to it the output chain holds.
pub struct NatTable {
    pub chain: Option<Seq<ChainRule>>,
    pub hooks: nat,
}

/// The table after `op`, or `None` where the command fails and changes
/// nothing.
pub open spec fn apply_op(t: NatTable, op: NatOp) -> Option<NatTable> {
    match op {
        NatOp::CreateChain => if t.chain is Some {
            None
        } else {
            Some(NatTable { chain: Some(Seq::empty()), ..t })
        },
        NatOp::FlushChain => if t.chain is Some {
            Some(NatTable { chain: Some(Seq::empty()), ..t })
        } else {
            None
        },
        NatOp::Unhook => if t.chain is Some && t.hooks > 0 {
            Some(NatTable { hooks: (t.hooks - 1) as nat, ..t })
        } else {
            None
        },
        NatOp::Hook => if t.chain is Some {
            Some(NatTable { hooks: t.hooks + 1, ..t })
        } else {
            None
        },
        NatOp::Redirect { port, to_port } => match t.chain {
            Some(c) => Some(NatTable { chain: Some(c.push(ChainRule::Redirect { port, to_port })), ..t }),
            None => None,
        },
        NatOp::Return => match t.chain {
            Some(c) => Some(NatTable { chain: Some(c.push(ChainRule::Return)), ..t }),
            None => None,
        },
    }
}

/// The table after running `steps` in order, or `None` where a required
/// step failed; a failed optional step is passed over.
pub open spec fn run_steps(t: NatTable, steps: Seq<NatStep>) -> Option<NatTable>
    decreases steps.len(),
{
    if steps.len() == 0 {
        Some(t)
    } else {
        match apply_op(t, steps[0].op) {
            Some(t2) => run_steps(t2, steps.drop_first()),
            None => if steps[0].required {
                None
            } else {
                run_steps(t, steps.drop_first())
            },
        }
    }
}

/// The chain that setup builds.
pub open spec fn expected_chain(ports: Seq<u16>, to_port: u16) -> Seq<ChainRule> {
    ports.map_values(|p: u16| ChainRule::Redirect { port: p, to_port }).push(ChainRule::Return)
}

proof fn lemma_run_redirects(c: Seq<ChainRule>, hooks: nat, ports: Seq<u16>, to_port: u16, rest: Seq<NatStep>)
    ensures
        run_steps(NatTable { chain: Some(c), hooks }, redirect_steps(ports, to_port) + rest)
            == run_steps(
            NatTable {
                chain: Some(c + ports.map_values(|p: u16| ChainRule::Redirect { port: p, to_port })),
                hooks,
            },
            rest,
        ),
    decreases ports.len(),
{
    let rules = ports.map_values(|p: u16| ChainRule::Redirect { port: p, to_port });
    if ports.len() == 0 {
        assert(redirect_steps(ports, to_port) + rest =~= rest);
        assert(c + rules =~= c);
    } else {
        let s = redirect_steps(ports, to_port) + rest;
        let r0 = ChainRule::Redirect { port: ports[0], to_port };
        assert(s[0] == NatStep { op: NatOp::Redirect { port: ports[0], to_port }, required: true });
        assert(s.drop_first() =~= redirect_steps(ports.drop_first(), to_port) + rest);
        lemma_run_redirects(c.push(r0), hooks, ports.drop_first(), to_port, rest);
        assert(c.push(r0) + ports.drop_first().map_values(
            |p: u16| ChainRule::Redirect { port: p, to_port },
        ) =~= c + rules);
    }
}

proof fn lemma_run_plan(t: NatTable, ports: Seq<u16>, to_port: u16)
    ensures
        run_steps(t, plan_of(ports, to_port)) == Some(
            NatTable {
                chain: Some(expected_chain(ports, to_port)),
                hooks: if t.hooks > 0 { t.hooks } else { 1 },
            },
        ),
{
    let p = plan_of(ports, to_port);
    let tail = redirect_steps(ports, to_port) + seq![NatStep { op: NatOp::Return, required: true }];
    let t1 = NatTable { chain: Some(Seq::<ChainRule>::empty()), hooks: t.hooks };
    let p1 = p.drop_first();
    let p2 = p1.drop_first();
    let p3 = p2.drop_first();
    let p4 = p3.drop_first();
    assert(p4 =~= tail);
    assert(p[0] == NatStep { op: NatOp::CreateChain, required: false });
    assert(p1[0] == NatStep { op: NatOp::FlushChain, required: true });
    assert(p2[0] == NatStep { op: NatOp::Unhook, required: false });
    assert(p3[0] == NatStep { op: NatOp::Hook, required: true });
    // create the chain, or find it there already
    if t.chain is Some {
        assert(run_steps(t, p) == run_steps(t, p1));
        assert(run_steps(t, p1) == run_steps(t1, p2));
    } else {
        let tc = NatTable { chain: Some(Seq::<ChainRule>::empty()), hooks: t.hooks };
        assert(run_steps(t, p) == run_steps(tc, p1));
        assert(run_steps(tc, p1) == run_steps(t1, p2));
    }
    let h = if t.hooks > 0 { t.hooks } else { 1 };
    let t2 = NatTable { chain: Some(Seq::<ChainRule>::empty()), hooks: h };
    // move the jump to the front of the output chain
    if t.hooks > 0 {
        let tu = NatTable { chain: Some(Seq::<ChainRule>::empty()), hooks: (t.hooks - 1) as nat };
        assert(run_steps(t1, p2) == run_steps(tu, p3));
        assert(run_steps(tu, p3) == run_steps(t2, p4));
    } else {
        assert(run_steps(t1, p2) == run_steps(t1, p3));
        assert(run_steps(t1, p3) == run_steps(t2, p4));
    }
    assert(run_steps(t, p) == run_steps(t2, tail));
    lemma_run_redirects(Seq::empty(), h, ports, to_port, seq![NatStep { op: NatOp::Return, required: true }]);
    let rules = ports.map_values(|q: u16| ChainRule::Redirect { port: q, to_port });
    let t3 = NatTable { chain: Some(Seq::<ChainRule>::empty() + rules), hooks: h };
    let last = seq![NatStep { op: NatOp::Return, required: true }];
    assert(last.drop_first() =~= Seq::<NatStep>::empty());
    assert(last[0] == NatStep { op: NatOp::Return, required: true });
    let t4 = NatTable { chain: Some((Seq::<ChainRule>::empty() + rules).push(ChainRule::Return)), hooks: h };
    assert(run_steps(t3, last) == run_steps(t4, last.drop_first()));
    assert(run_steps(t4, Seq::<NatStep>::empty()) == Some(t4));
    assert(run_steps(t3, last) == Some(NatTable { chain: Some((Seq::<ChainRule>::empty() + rules).push(ChainRule::Return)), hooks: h }));
    assert((Seq::<ChainRule>::empty() + rules).push(ChainRule::Return) =~= expected_chain(ports, to_port));
}

/// Rebuilding the rules is idempotent. From any state of the table, setup
/// leaves the tool's chain holding exactly one redirect per watched port,
/// in order, and a return, with at least one jump to it (exactly one where
/// there was at most one before); running setup again changes nothing.
/// Distinct watched ports give pairwise distinct rules.
pub proof fn rule_rebuild_idempotent(t: NatTable, ports: Seq<u16>, to_port: u16)
    ensures
        ({
            let once = run_steps(t, plan_of(ports, to_port));
            &&& once is Some
            &&& once.unwrap().chain == Some(expected_chain(ports, to_port))
            &&& once.unwrap().hooks >= 1
            &&& t.hooks <= 1 ==> once.unwrap().hooks == 1
            &&& run_steps(once.unwrap(), plan_of(ports, to_port)) == once
        }),
        expected_chain(ports, to_port).len() == ports.len() + 1,
        forall|i: int|
            0 <= i < ports.len() ==> #[trigger] expected_chain(ports, to_port)[i]
                == (ChainRule::Redirect { port: ports[i], to_port }),
        ports.no_duplicates() ==> expected_chain(ports, to_port).no_duplicates(),
{
    lemma_run_plan(t, ports, to_port);
    let once = run_steps(t, plan_of(ports, to_port)).unwrap();
    lemma_run_plan(once, ports, to_port);
    let e = expected_chain(ports, to_port);
    if ports.no_duplicates() {
        assert forall|i: int, j: int| 0 <= i < e.len() && 0 <= j < e.len() && i != j implies e[i] != e[j] by {
            if i < ports.len() && j < ports.len() {
                assert(ports[i] != ports[j]);
            }
        }
    }
}

} // verus!
