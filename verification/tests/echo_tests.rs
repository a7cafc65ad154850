use echo_service::client::EchoClient;
use echo_service::echo::chunk_of;
use echo_service::echo::handler_step;
use echo_service::echo::HandlerAction;
use echo_service::echo::ReadOutcome;
use echo_service::echo::WriteProgress;

fn echo_of(buf: &Vec<u8>, n: usize) -> Vec<u8> {
    match handler_step(buf, &ReadOutcome::Data(n)) {
        HandlerAction::Echo(chunk) => chunk,
        HandlerAction::Stop => panic!("a data read must be echoed"),
    }
}

#[test]
fn round_trip_hello_from_client() {
    // One connection: the message arrives in a single read, is echoed, and
    // the client reads it back whole.
    let message: Vec<u8> = b"hello from client".to_vec();

    let mut client = EchoClient::new(message.clone());
    client.on_connected();
    client.on_half_closed();

    let echoed = echo_of(&message, message.len());
    assert_eq!(echoed, message);

    client.on_chunk(&echoed);
    client.on_eof();
    assert_eq!(client.response(), Some(&b"hello from client".to_vec()));
}

#[test]
fn data_read_echoes_prefix_exactly() {
    let buf: Vec<u8> = b"abcdef\0\0".to_vec();
    let echoed = echo_of(&buf, 6);
    assert_eq!(echoed, b"abcdef".to_vec());
}

#[test]
fn split_reads_echo_in_order() {
    // The same bytes split across reads come back unaltered and in order.
    let first: Vec<u8> = b"hello ".to_vec();
    let second: Vec<u8> = b"from client".to_vec();

    let mut response = echo_of(&first, first.len());
    response.extend_from_slice(&echo_of(&second, second.len()));
    assert_eq!(response, b"hello from client".to_vec());
}

#[test]
fn zero_bytes_sent_yields_empty_response() {
    // The client half-closes without sending: the handler sees only the
    // orderly close and stops, and the client reads end-of-stream at once.
    let buf: Vec<u8> = vec![0; 16];
    assert!(matches!(
        handler_step(&buf, &ReadOutcome::Data(0)),
        HandlerAction::Stop
    ));

    let mut client = EchoClient::new(Vec::new());
    client.on_connected();
    client.on_half_closed();
    client.on_eof();
    assert_eq!(client.response(), Some(&Vec::new()));
}

#[test]
fn closed_and_failed_reads_stop_the_handler() {
    let buf: Vec<u8> = vec![0; 16];
    assert!(matches!(
        handler_step(&buf, &ReadOutcome::Closed),
        HandlerAction::Stop
    ));
    assert!(matches!(
        handler_step(&buf, &ReadOutcome::Failed),
        HandlerAction::Stop
    ));
}

#[test]
fn concurrent_clients_get_their_own_bytes() {
    // Two independent connections: each handler answers with exactly the
    // chunks read from its own connection.
    let message_a: Vec<u8> = b"first client".to_vec();
    let message_b: Vec<u8> = b"second client".to_vec();

    let echoed_a = echo_of(&message_a, message_a.len());
    let echoed_b = echo_of(&message_b, message_b.len());

    assert_eq!(echoed_a, message_a);
    assert_eq!(echoed_b, message_b);
    assert_ne!(echoed_a, echoed_b);
}

#[test]
fn connect_failure_leaves_no_response() {
    // The server is not listening: the attempt fails and nothing is ever
    // printed, because no response exists.
    let mut client = EchoClient::new(b"hello from client".to_vec());
    client.on_connect_failed();
    assert_eq!(client.response(), None);
}

#[test]
fn receiving_continues_after_half_close() {
    // The send side is already closed, yet the remainder of the echoed
    // stream still arrives and accumulates, untruncated.
    let mut client = EchoClient::new(b"hello from client".to_vec());
    client.on_connected();
    client.on_half_closed();
    client.on_chunk(&b"hello ".to_vec());
    client.on_chunk(&b"from ".to_vec());
    client.on_chunk(&b"client".to_vec());
    client.on_eof();
    assert_eq!(client.response(), Some(&b"hello from client".to_vec()));
}

#[test]
fn unfinished_or_failed_reads_leave_no_response() {
    let mut client = EchoClient::new(b"abc".to_vec());
    client.on_connected();
    assert_eq!(client.response(), None);
    client.on_half_closed();
    client.on_chunk(&b"ab".to_vec());
    assert_eq!(client.response(), None);
    client.on_recv_failed();
    assert_eq!(client.response(), None);
}

#[test]
fn send_failure_is_terminal() {
    let mut client = EchoClient::new(b"abc".to_vec());
    client.on_connected();
    client.on_send_failed();
    assert_eq!(client.response(), None);
}

#[test]
fn chunk_of_copies_the_filled_prefix() {
    let buf: Vec<u8> = b"wxyz".to_vec();
    assert_eq!(chunk_of(&buf, 0), Vec::new());
    assert_eq!(chunk_of(&buf, 3), b"wxy".to_vec());
    assert_eq!(chunk_of(&buf, 4), b"wxyz".to_vec());
}

#[test]
fn partial_writes_transmit_the_whole_chunk_in_order() {
    let mut progress = WriteProgress::new(b"echo these bytes".to_vec());
    let mut wire: Vec<u8> = Vec::new();

    // The transport accepts a few bytes at a time; the handler keeps
    // offering the pending suffix until nothing is owed.
    let accepted = [4usize, 1, 7, 4];
    let mut step = 0usize;
    while !progress.done() {
        let pending = progress.pending();
        let n = accepted[step].min(pending.len());
        wire.extend_from_slice(&pending[..n]);
        progress.advance(n);
        step += 1;
    }
    assert_eq!(wire, b"echo these bytes".to_vec());
}

#[test]
fn write_progress_tracks_pending_suffix() {
    let mut progress = WriteProgress::new(b"abcdef".to_vec());
    assert!(!progress.done());
    assert_eq!(progress.pending(), b"abcdef".to_vec());
    progress.advance(2);
    assert_eq!(progress.pending(), b"cdef".to_vec());
    progress.advance(4);
    assert_eq!(progress.pending(), Vec::new());
    assert!(progress.done());
}
