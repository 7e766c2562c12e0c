use wsld::relay::{
    CopyAction, CopyLoop, CopyPhase, Direction, JoinVerdict, LoopEnd, RelayJoin, RELAY_BUFFER_SIZE,
};

#[test]
fn copy_loop_forwards_then_half_closes() {
    let mut c = CopyLoop::new();
    assert_eq!(c.on_read(b"hello"), CopyAction::Write { len: 5 });
    assert_eq!(c.phase, CopyPhase::Writing);
    assert_eq!(c.on_written(), CopyAction::Read);
    assert_eq!(c.on_read(b" world"), CopyAction::Write { len: 6 });
    assert_eq!(c.on_written(), CopyAction::Read);
    assert!(!c.is_finished());
    assert_eq!(c.on_read(b""), CopyAction::ShutdownWrite);
    assert_eq!(c.on_shutdown(), CopyAction::Done);
    assert!(c.is_finished());
}

#[test]
fn copy_loop_empty_stream_shuts_at_once() {
    let mut c = CopyLoop::new();
    assert_eq!(c.on_read(&[]), CopyAction::ShutdownWrite);
    assert_eq!(c.on_shutdown(), CopyAction::Done);
}

#[test]
fn copy_loop_error_stops() {
    let mut c = CopyLoop::new();
    assert_eq!(c.on_read(b"x"), CopyAction::Write { len: 1 });
    assert_eq!(c.on_error(), CopyAction::Stop);
    assert_eq!(c.phase, CopyPhase::Failed);
    assert!(!c.is_finished());
}

#[test]
fn copy_loop_out_of_order_fails() {
    let mut c = CopyLoop::new();
    assert_eq!(c.on_written(), CopyAction::Stop);
    assert_eq!(c.phase, CopyPhase::Failed);
    let mut d = CopyLoop::new();
    assert_eq!(d.on_shutdown(), CopyAction::Stop);
}

#[test]
fn one_direction_ending_leaves_the_other_running() {
    let mut j = RelayJoin::new();
    assert_eq!(j.on_end(Direction::ClientToUpstream, LoopEnd::Finished), JoinVerdict::Wait);
    assert_eq!(j.upstream_to_client, None);
    assert_eq!(j.on_end(Direction::UpstreamToClient, LoopEnd::Finished), JoinVerdict::Complete);
}

#[test]
fn first_failure_is_reported() {
    let mut j = RelayJoin::new();
    assert_eq!(
        j.on_end(Direction::UpstreamToClient, LoopEnd::Failed),
        JoinVerdict::Fail(Direction::UpstreamToClient)
    );
    assert_eq!(
        j.on_end(Direction::ClientToUpstream, LoopEnd::Failed),
        JoinVerdict::Fail(Direction::UpstreamToClient)
    );

    let mut k = RelayJoin::new();
    assert_eq!(k.on_end(Direction::ClientToUpstream, LoopEnd::Finished), JoinVerdict::Wait);
    assert_eq!(
        k.on_end(Direction::UpstreamToClient, LoopEnd::Failed),
        JoinVerdict::Fail(Direction::UpstreamToClient)
    );
}

#[test]
fn relay_buffer_is_fixed() {
    assert_eq!(RELAY_BUFFER_SIZE, 4096);
}
