use wsld::relay::{
    CopyAction, CopyLoop, Direction, JoinVerdict, LoopEnd, RelayJoin, RELAY_BUFFER_SIZE,
};
use wsld::tag::ServiceTag;
use wsld::wire::{decode_port, tcp_request};

/// An in-memory stream end: the bytes its peer sent, and how far they have
/// been read.
struct Pipe {
    data: Vec<u8>,
    pos: usize,
}

impl Pipe {
    fn new(data: &[u8]) -> Pipe {
        Pipe { data: data.to_vec(), pos: 0 }
    }

    fn read(&mut self, buf: &mut [u8]) -> usize {
        let n = buf.len().min(self.data.len() - self.pos);
        buf[..n].copy_from_slice(&self.data[self.pos..self.pos + n]);
        self.pos += n;
        n
    }
}

/// Runs one direction to its end, as the relay's copy loop would.
fn copy(src: &mut Pipe, dst: &mut Vec<u8>, dst_shut: &mut bool) -> LoopEnd {
    let mut state = CopyLoop::new();
    let mut buf = vec![0u8; RELAY_BUFFER_SIZE];
    loop {
        let n = src.read(&mut buf);
        match state.on_read(&buf[..n]) {
            CopyAction::Write { len } => {
                dst.extend_from_slice(&buf[..len]);
                assert_eq!(state.on_written(), CopyAction::Read);
            }
            CopyAction::ShutdownWrite => {
                *dst_shut = true;
                assert_eq!(state.on_shutdown(), CopyAction::Done);
                return LoopEnd::Finished;
            }
            _ => return LoopEnd::Failed,
        }
    }
}

#[test]
fn noop_probe_completes_without_data() {
    let wire = b"noop";
    let mut tag = [0u8; 4];
    tag.copy_from_slice(&wire[..4]);
    assert_eq!(ServiceTag::from_bytes(tag), Ok(ServiceTag::Noop));
    assert_eq!(wire.len(), 4);
}

#[test]
fn tcp_request_reaches_port_and_round_trips_bytes() {
    // The guest opens the tunnel with the tcp tag and port 8080, then sends
    // a request and shuts its write side.
    let mut from_guest = tcp_request(8080);
    from_guest.extend_from_slice(b"GET / HTTP/1.0\r\n\r\n");
    let mut client = Pipe::new(&from_guest);

    // The host reads the tag, then the port.
    let mut tag = [0u8; 4];
    assert_eq!(client.read(&mut tag), 4);
    assert_eq!(ServiceTag::from_bytes(tag), Ok(ServiceTag::Tcp));
    let mut port = [0u8; 2];
    assert_eq!(client.read(&mut port), 2);
    assert_eq!(decode_port(port), 8080);

    // Relay to the loopback listener on that port, which answers.
    let mut at_listener = Vec::new();
    let mut listener_write_shut = false;
    let mut join = RelayJoin::new();
    let end = copy(&mut client, &mut at_listener, &mut listener_write_shut);
    assert_eq!(join.on_end(Direction::ClientToUpstream, end), JoinVerdict::Wait);
    assert_eq!(at_listener, b"GET / HTTP/1.0\r\n\r\n".to_vec());
    assert!(listener_write_shut);

    let reply: Vec<u8> = (0..10_000u32).map(|i| (i % 251) as u8).collect();
    let mut upstream = Pipe::new(&reply);
    let mut at_guest = Vec::new();
    let mut guest_write_shut = false;
    let end = copy(&mut upstream, &mut at_guest, &mut guest_write_shut);
    assert_eq!(join.on_end(Direction::UpstreamToClient, end), JoinVerdict::Complete);
    assert_eq!(at_guest, reply);
    assert!(guest_write_shut);
}

#[test]
fn half_close_lets_the_reply_drain() {
    // The client sends and shuts its side at once; the upstream's reply,
    // larger than one buffer, still flows in full afterwards.
    let mut client = Pipe::new(b"request");
    let mut upstream_in = Vec::new();
    let mut upstream_shut = false;
    let mut join = RelayJoin::new();
    let end = copy(&mut client, &mut upstream_in, &mut upstream_shut);
    assert_eq!(end, LoopEnd::Finished);
    assert_eq!(upstream_in, b"request".to_vec());
    assert!(upstream_shut);
    assert_eq!(join.on_end(Direction::ClientToUpstream, end), JoinVerdict::Wait);

    let reply = vec![7u8; 3 * RELAY_BUFFER_SIZE + 5];
    let mut upstream = Pipe::new(&reply);
    let mut client_in = Vec::new();
    let mut client_shut = false;
    // the reverse direction has not shut the client down yet
    assert!(!client_shut);
    let end = copy(&mut upstream, &mut client_in, &mut client_shut);
    assert_eq!(client_in, reply);
    assert!(client_shut);
    assert_eq!(join.on_end(Direction::UpstreamToClient, end), JoinVerdict::Complete);
}
