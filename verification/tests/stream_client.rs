use sep_data::client::ClientCall;
use sep_data::client::ClientPhase;
use sep_data::client::client_step;
use sep_data::output_data::SEOutputData;
use sep_data::stream::PollOutcome;
use sep_data::stream::StreamBuffer;

const PACKET_FRAME_NUMBER: &[u8] = &[
    0x53, 0x45, 0x50, 0x44, // Sync Id
    0x00, 0x04, // Packet type
    0x00, 0x08, // Packet length
    0x00, 0x01, // Id (0x0001 = SEFrameNumber)
    0x00, 0x04, // Length
    0x00, 0x00, 0x45, 0x9B,
];

#[test]
fn test_stream_buffer_peek_consume_read() {
    let mut buffer = StreamBuffer::new();
    assert_eq!(buffer.available(), 0);
    buffer.feed(&[1, 2, 3, 4, 5]);
    assert_eq!(buffer.available(), 5);
    assert_eq!(buffer.peek(3).unwrap(), &[1, 2, 3]);
    assert_eq!(buffer.available(), 5);
    assert!(buffer.peek(6).is_none());
    buffer.consume(2);
    assert_eq!(buffer.available(), 3);
    assert_eq!(buffer.read(2).unwrap(), vec![3, 4]);
    assert_eq!(buffer.available(), 1);
    buffer.feed(&[6]);
    assert_eq!(buffer.read(2).unwrap(), vec![5, 6]);
    assert_eq!(buffer.available(), 0);
    assert!(buffer.read(1).is_none());
}

#[test]
fn test_poll_whole_packet() {
    let mut buffer = StreamBuffer::new();
    buffer.feed(PACKET_FRAME_NUMBER);
    match buffer.poll_packet() {
        PollOutcome::Ready(packet) => {
            assert_eq!(packet, vec![SEOutputData::SEFrameNumber(17819)]);
        }
        _ => panic!("expected a packet"),
    }
    assert_eq!(buffer.available(), 0);
}

#[test]
fn test_poll_resyncs_past_garbage() {
    // Three garbage bytes, then a valid packet: polling slides past
    // exactly those three bytes and yields the packet.
    let mut bytes: Vec<u8> = vec![0xDE, 0xAD, 0xBE];
    bytes.extend_from_slice(PACKET_FRAME_NUMBER);
    let mut buffer = StreamBuffer::new();
    buffer.feed(&bytes);
    match buffer.poll_packet() {
        PollOutcome::Ready(packet) => {
            assert_eq!(packet, vec![SEOutputData::SEFrameNumber(17819)]);
        }
        _ => panic!("expected a packet"),
    }
    assert_eq!(buffer.available(), 0);
}

#[test]
fn test_poll_garbage_only_consumes_to_window() {
    // Garbage with no header in it: the poll keeps the last 7 bytes,
    // which could still begin a header once more bytes arrive.
    let mut buffer = StreamBuffer::new();
    buffer.feed(&[0xAA; 20]);
    match buffer.poll_packet() {
        PollOutcome::NeedMore(n) => assert_eq!(n, 1),
        _ => panic!("expected to need more bytes"),
    }
    assert_eq!(buffer.available(), 7);
}

#[test]
fn test_poll_would_block_idempotent() {
    // Polling an empty buffer asks for a header's worth of bytes and
    // changes nothing, however often it is repeated.
    let mut buffer = StreamBuffer::new();
    for _ in 0..3 {
        match buffer.poll_packet() {
            PollOutcome::NeedMore(n) => assert_eq!(n, 8),
            _ => panic!("expected to need more bytes"),
        }
        assert_eq!(buffer.available(), 0);
    }
}

#[test]
fn test_poll_partial_packet_keeps_bytes() {
    // A header is buffered but its body is not whole: nothing is
    // consumed, and the missing count is exact.
    let mut buffer = StreamBuffer::new();
    buffer.feed(&PACKET_FRAME_NUMBER[..12]);
    match buffer.poll_packet() {
        PollOutcome::NeedMore(n) => assert_eq!(n, 4),
        _ => panic!("expected to need more bytes"),
    }
    assert_eq!(buffer.available(), 12);
    buffer.feed(&PACKET_FRAME_NUMBER[12..]);
    match buffer.poll_packet() {
        PollOutcome::Ready(packet) => {
            assert_eq!(packet, vec![SEOutputData::SEFrameNumber(17819)]);
        }
        _ => panic!("expected a packet"),
    }
}

#[test]
fn test_poll_invalid_body_is_reported() {
    // A valid header framing a body that does not decode is a hard
    // error: the packet's bytes are consumed, and polling goes on.
    let bad_body: &[u8] = &[
        0x53, 0x45, 0x50, 0x44, 0x00, 0x04, 0x00, 0x04, // header, length 4
        0x00, 0xC8, 0x00, 0x00, // unknown field id 200
    ];
    let mut buffer = StreamBuffer::new();
    buffer.feed(bad_body);
    buffer.feed(PACKET_FRAME_NUMBER);
    match buffer.poll_packet() {
        PollOutcome::Invalid(_) => {}
        _ => panic!("expected an invalid packet"),
    }
    match buffer.poll_packet() {
        PollOutcome::Ready(packet) => {
            assert_eq!(packet, vec![SEOutputData::SEFrameNumber(17819)]);
        }
        _ => panic!("expected a packet"),
    }
}

#[test]
fn test_client_state_machine() {
    // next() before connect(), and connect() twice, are rejected as
    // state-machine violations, never attempted as I/O.
    assert_eq!(client_step(ClientPhase::Pending, ClientCall::Next), None);
    assert_eq!(client_step(ClientPhase::Pending, ClientCall::Disconnect), None);
    let connected = client_step(ClientPhase::Pending, ClientCall::Connect).unwrap();
    assert_eq!(connected, ClientPhase::Connected);
    assert_eq!(client_step(connected, ClientCall::Connect), None);
    assert_eq!(
        client_step(connected, ClientCall::Next),
        Some(ClientPhase::Connected)
    );
    let done = client_step(connected, ClientCall::Disconnect).unwrap();
    assert_eq!(done, ClientPhase::Disconnected);
    assert_eq!(client_step(done, ClientCall::Next), None);
    assert_eq!(client_step(done, ClientCall::Connect), None);
    assert_eq!(client_step(done, ClientCall::Disconnect), None);
}
