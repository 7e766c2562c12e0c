//! Service tags: the four bytes at the start of every tunnel connection,
//! which select the service that handles the rest of the stream.
use vstd::prelude::*;

verus! {

/// Length in bytes of a service tag on the wire.
pub const TAG_LEN: usize = 4;

/// The closed set of services that share one tunnel port.
#[derive(Clone, Copy, Debug, PartialEq, Eq, Structural)]
pub enum ServiceTag {
    /// Display-server traffic, relayed to the host's X server.
    X11,
    /// Clock query: the host answers with its current time.
    Time,
    /// Transparent TCP: a two-byte destination port follows the tag.
    Tcp,
    /// Agent-socket traffic, relayed to the host's agent.
    SshAgent,
    /// Liveness probe: no payload, no reply.
    Noop,
}

/// The wire form of each tag: ASCII, padded with NUL to four bytes.
pub open spec fn tag_wire(t: ServiceTag) -> Seq<u8> {
    match t {
        ServiceTag::X11 => seq![0x78u8, 0x31u8, 0x31u8, 0x00u8],
        ServiceTag::Time => seq![0x74u8, 0x69u8, 0x6du8, 0x65u8],
        ServiceTag::Tcp => seq![0x74u8, 0x63u8, 0x70u8, 0x00u8],
        ServiceTag::SshAgent => seq![0x73u8, 0x73u8, 0x68u8, 0x61u8],
        ServiceTag::Noop => seq![0x6eu8, 0x6fu8, 0x6fu8, 0x70u8],
    }
}

/// The tag whose wire form is `b`, if there is one.
pub open spec fn tag_of(b: Seq<u8>) -> Option<ServiceTag> {
    if b == tag_wire(ServiceTag::X11) {
        Some(ServiceTag::X11)
    } else if b == tag_wire(ServiceTag::Time) {
        Some(ServiceTag::Time)
    } else if b == tag_wire(ServiceTag::Tcp) {
        Some(ServiceTag::Tcp)
    } else if b == tag_wire(ServiceTag::SshAgent) {
        Some(ServiceTag::SshAgent)
    } else if b == tag_wire(ServiceTag::Noop) {
        Some(ServiceTag::Noop)
    } else {
        None
    }
}

/// A connection whose first four bytes name no service.
#[derive(Clone, Copy, Debug, PartialEq, Eq)]
pub struct UnknownTag {
    /// The bytes that were read.
    pub bytes: [u8; 4],
}

impl ServiceTag {
    /// The four bytes that open a connection for this service.
    pub fn to_bytes(self) -> (r: [u8; 4])
        ensures
            r@ == tag_wire(self),
    {
        let r: [u8; 4] = match self {
            ServiceTag::X11 => [0x78u8, 0x31u8, 0x31u8, 0x00u8],
            ServiceTag::Time => [0x74u8, 0x69u8, 0x6du8, 0x65u8],
            ServiceTag::Tcp => [0x74u8, 0x63u8, 0x70u8, 0x00u8],
            ServiceTag::SshAgent => [0x73u8, 0x73u8, 0x68u8, 0x61u8],
            ServiceTag::Noop => [0x6eu8, 0x6fu8, 0x6fu8, 0x70u8],
        };
        assert(r@ =~= tag_wire(self));
        r
    }

    /// Maps the four bytes read from a fresh connection to the service they
    /// select. Anything but one of the five tags is refused; nothing is
    /// guessed.
    pub fn from_bytes(b: [u8; 4]) -> (r: Result<ServiceTag, UnknownTag>)
        ensures
            r matches Ok(t) ==> tag_of(b@) == Some(t),
            r is Err <==> tag_of(b@) is None,
            r matches Err(e) ==> e.bytes == b,
    {
        let x11 = ServiceTag::X11.to_bytes();
        let time = ServiceTag::Time.to_bytes();
        let tcp = ServiceTag::Tcp.to_bytes();
        let ssha = ServiceTag::SshAgent.to_bytes();
        let noop = ServiceTag::Noop.to_bytes();
        if bytes_eq(&b, &x11) {
            Ok(ServiceTag::X11)
        } else if bytes_eq(&b, &time) {
            Ok(ServiceTag::Time)
        } else if bytes_eq(&b, &tcp) {
            Ok(ServiceTag::Tcp)
        } else if bytes_eq(&b, &ssha) {
            Ok(ServiceTag::SshAgent)
        } else if bytes_eq(&b, &noop) {
            Ok(ServiceTag::Noop)
        } else {
            Err(UnknownTag { bytes: b })
        }
    }
}

fn bytes_eq(a: &[u8; 4], b: &[u8; 4]) -> (r: bool)
    ensures
        r <==> a@ == b@,
{
    let r = a[0] == b[0] && a[1] == b[1] && a[2] == b[2] && a[3] == b[3];
    if r {
        assert(a@ =~= b@);
    } else {
        assert(a@ != b@ ==> exists|i: int| 0 <= i < 4 && a@[i] != b@[i]);
        assert(!(a@ =~= b@));
    }
    r
}

/// Each tag reads back as itself, and bytes are dispatched to a service
/// exactly when they are that service's wire form: no two services share
/// a tag, and every other four-byte value selects none.
pub proof fn tag_dispatch(b: Seq<u8>, t: ServiceTag)
    ensures
        tag_of(tag_wire(t)) == Some(t),
        tag_wire(t).len() == 4,
        tag_of(b) == Some(t) <==> b == tag_wire(t),
        tag_of(b) is None <==> (forall|u: ServiceTag| b != #[trigger] tag_wire(u)),
{
    assert(tag_wire(ServiceTag::X11) != tag_wire(ServiceTag::Time)) by {
        assert(tag_wire(ServiceTag::X11)[0] != tag_wire(ServiceTag::Time)[0]);
    }
    assert(tag_wire(ServiceTag::X11) != tag_wire(ServiceTag::Tcp)) by {
        assert(tag_wire(ServiceTag::X11)[0] != tag_wire(ServiceTag::Tcp)[0]);
    }
    assert(tag_wire(ServiceTag::X11) != tag_wire(ServiceTag::SshAgent)) by {
        assert(tag_wire(ServiceTag::X11)[0] != tag_wire(ServiceTag::SshAgent)[0]);
    }
    assert(tag_wire(ServiceTag::X11) != tag_wire(ServiceTag::Noop)) by {
        assert(tag_wire(ServiceTag::X11)[0] != tag_wire(ServiceTag::Noop)[0]);
    }
    assert(tag_wire(ServiceTag::Time) != tag_wire(ServiceTag::Tcp)) by {
        assert(tag_wire(ServiceTag::Time)[1] != tag_wire(ServiceTag::Tcp)[1]);
    }
    assert(tag_wire(ServiceTag::Time) != tag_wire(ServiceTag::SshAgent)) by {
        assert(tag_wire(ServiceTag::Time)[0] != tag_wire(ServiceTag::SshAgent)[0]);
    }
    assert(tag_wire(ServiceTag::Time) != tag_wire(ServiceTag::Noop)) by {
        assert(tag_wire(ServiceTag::Time)[0] != tag_wire(ServiceTag::Noop)[0]);
    }
    assert(tag_wire(ServiceTag::Tcp) != tag_wire(ServiceTag::SshAgent)) by {
        assert(tag_wire(ServiceTag::Tcp)[0] != tag_wire(ServiceTag::SshAgent)[0]);
    }
    assert(tag_wire(ServiceTag::Tcp) != tag_wire(ServiceTag::Noop)) by {
        assert(tag_wire(ServiceTag::Tcp)[0] != tag_wire(ServiceTag::Noop)[0]);
    }
    assert(tag_wire(ServiceTag::SshAgent) != tag_wire(ServiceTag::Noop)) by {
        assert(tag_wire(ServiceTag::SshAgent)[0] != tag_wire(ServiceTag::Noop)[0]);
    }
    if tag_of(b) is None {
        assert forall|u: ServiceTag| b != #[trigger] tag_wire(u) by {
            match u {
                ServiceTag::X11 => {},
                ServiceTag::Time => {},
                ServiceTag::Tcp => {},
                ServiceTag::SshAgent => {},
                ServiceTag::Noop => {},
            }
        }
    }
    if forall|u: ServiceTag| b != #[trigger] tag_wire(u) {
        assert(b != tag_wire(ServiceTag::X11));
        assert(b != tag_wire(ServiceTag::Time));
        assert(b != tag_wire(ServiceTag::Tcp));
        assert(b != tag_wire(ServiceTag::SshAgent));
        assert(b != tag_wire(ServiceTag::Noop));
    }
}

} // verus!
