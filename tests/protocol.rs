use wsld::tag::{ServiceTag, UnknownTag};
use wsld::wire::{decode_port, decode_timestamp, encode_port, encode_timestamp, tcp_request};

#[test]
fn each_tag_has_its_wire_form() {
    assert_eq!(ServiceTag::X11.to_bytes(), *b"x11\0");
    assert_eq!(ServiceTag::Time.to_bytes(), *b"time");
    assert_eq!(ServiceTag::Tcp.to_bytes(), *b"tcp\0");
    assert_eq!(ServiceTag::SshAgent.to_bytes(), *b"ssha");
    assert_eq!(ServiceTag::Noop.to_bytes(), *b"noop");
}

#[test]
fn known_tags_dispatch_to_their_service() {
    let all = [
        ServiceTag::X11,
        ServiceTag::Time,
        ServiceTag::Tcp,
        ServiceTag::SshAgent,
        ServiceTag::Noop,
    ];
    for t in all {
        assert_eq!(ServiceTag::from_bytes(t.to_bytes()), Ok(t));
    }
    assert_eq!(ServiceTag::from_bytes(*b"noop"), Ok(ServiceTag::Noop));
    assert_eq!(ServiceTag::from_bytes(*b"tcp\0"), Ok(ServiceTag::Tcp));
}

#[test]
fn unknown_tags_are_refused() {
    for b in [*b"abcd", *b"x11 ", *b"tcp ", *b"TIME", *b"\0\0\0\0", *b"noo\0", *b"sshA"] {
        assert_eq!(ServiceTag::from_bytes(b), Err(UnknownTag { bytes: b }));
    }
}

#[test]
fn port_is_big_endian() {
    assert_eq!(encode_port(8080), [0x1f, 0x90]);
    assert_eq!(decode_port([0x1f, 0x90]), 8080);
    assert_eq!(encode_port(0), [0, 0]);
    assert_eq!(encode_port(65535), [0xff, 0xff]);
    assert_eq!(decode_port([0x01, 0x00]), 256);
}

#[test]
fn port_round_trip() {
    for p in [0u16, 1, 22, 255, 256, 6000, 8080, 65535] {
        assert_eq!(decode_port(encode_port(p)), p);
    }
}

#[test]
fn tcp_request_is_tag_then_port() {
    assert_eq!(tcp_request(8080), b"tcp\0\x1f\x90".to_vec());
    let req = tcp_request(8080);
    let mut tag = [0u8; 4];
    tag.copy_from_slice(&req[0..4]);
    assert_eq!(ServiceTag::from_bytes(tag), Ok(ServiceTag::Tcp));
    assert_eq!(decode_port([req[4], req[5]]), 8080);
}

#[test]
fn timestamp_is_big_endian() {
    assert_eq!(
        encode_timestamp(0x0102_0304_0506_0708),
        [1, 2, 3, 4, 5, 6, 7, 8]
    );
    assert_eq!(decode_timestamp([0, 0, 0, 0, 0, 0, 1, 0]), 256);
    for t in [0u64, 1, 1_600_000_000_000_000, u64::MAX] {
        assert_eq!(decode_timestamp(encode_timestamp(t)), t);
    }
}
