use socks_relay::error::Direction;
use socks_relay::relay::{forward_chunk, pump_step, PumpStep, ReadEvent, CLIENT_TO_UPSTREAM_BUF,
    UPSTREAM_TO_CLIENT_BUF};

#[test]
fn data_is_forwarded_unmodified_and_in_order() {
    assert_eq!(
        pump_step(ReadEvent::Data(5), Direction::ClientToUpstream),
        PumpStep::Forward(5)
    );
    let buf: Vec<u8> = vec![9, 8, 7, 6, 5, 4];
    assert_eq!(forward_chunk(&buf, 5), vec![9, 8, 7, 6, 5]);
    assert_eq!(forward_chunk(&buf, 0), Vec::<u8>::new());
    assert_eq!(forward_chunk(&buf, 6), buf);
}

#[test]
fn zero_length_read_finishes_the_direction() {
    assert_eq!(
        pump_step(ReadEvent::Data(0), Direction::UpstreamToClient),
        PumpStep::Finished
    );
}

#[test]
fn would_block_is_retried() {
    assert_eq!(
        pump_step(ReadEvent::WouldBlock, Direction::ClientToUpstream),
        PumpStep::Retry
    );
}

#[test]
fn read_error_aborts_with_its_direction() {
    assert_eq!(
        pump_step(ReadEvent::Failed, Direction::ClientToUpstream),
        PumpStep::Abort(Direction::ClientToUpstream)
    );
    assert_eq!(
        pump_step(ReadEvent::Failed, Direction::UpstreamToClient),
        PumpStep::Abort(Direction::UpstreamToClient)
    );
}

#[test]
fn buffer_sizes_match_the_design() {
    assert_eq!(CLIENT_TO_UPSTREAM_BUF, 512 * 1024);
    assert_eq!(UPSTREAM_TO_CLIENT_BUF, 1024 * 1024);
}
