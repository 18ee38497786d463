use ipc_server::client::{client_on_read, ClientEvent, ClientOutcome};
use ipc_server::errors::{IoErrorKind, IpcError};
use ipc_server::server::{IpcServer, ServerEvent, ServerPhase, READ_BUF_LEN};
use ipc_server::tally::{TallyCommand, TallyContext, TallyResponse};
use ipc_server::wire::Wire;

/// Drives one freshly polled, freshly accepted connection carrying `frame`
/// through the engine and returns the response frame it asks to write.
fn serve_one(engine: &mut IpcServer<TallyCommand>, context: &mut TallyContext, frame: Vec<u8>) -> Vec<u8> {
    engine.begin_drain();
    engine.handle_event(ServerEvent::Polled, context);
    assert!(matches!(engine.current(), ServerPhase::NeedAccept));
    engine.handle_event(ServerEvent::AcceptOk, context);
    assert!(matches!(engine.current(), ServerPhase::NeedRead));
    engine.handle_event(ServerEvent::ReadOk(frame), context);
    match engine.current() {
        ServerPhase::NeedWrite(out) => out.clone(),
        other => panic!("expected a response to write, engine is at {:?}", other),
    }
}

#[test]
fn round_trip_applies_the_command_once() {
    let (mut engine, _plan) = IpcServer::<TallyCommand>::new(false);
    let mut context = TallyContext { total: 10, appended: 0 };
    let out = serve_one(&mut engine, &mut context, TallyCommand::Add(5).encode());
    assert_eq!(out, TallyResponse::Total(15).encode());
    assert_eq!(context, TallyContext { total: 15, appended: 0 });
    // The client decodes that exact frame back to the response.
    match client_on_read::<TallyCommand>(ClientEvent::ReadOk(out)) {
        ClientOutcome::Reply(response) => assert_eq!(response, TallyResponse::Total(15)),
        other => panic!("expected a reply, got {:?}", other),
    }
}

#[test]
fn drain_serves_connections_strictly_in_turn() {
    let (mut engine, _plan) = IpcServer::<TallyCommand>::new(false);
    let mut context = TallyContext { total: 10, appended: 0 };
    engine.begin_drain();
    engine.handle_event(ServerEvent::Polled, &mut context);
    // First connection.
    engine.handle_event(ServerEvent::AcceptOk, &mut context);
    engine.handle_event(ServerEvent::ReadOk(TallyCommand::Add(5).encode()), &mut context);
    let first = match engine.current() {
        ServerPhase::NeedWrite(out) => out.clone(),
        other => panic!("engine is at {:?}", other),
    };
    engine.handle_event(ServerEvent::WriteOk, &mut context);
    assert!(matches!(engine.current(), ServerPhase::NeedAccept));
    // Second connection, a fresh accept in the same drain.
    engine.handle_event(ServerEvent::AcceptOk, &mut context);
    engine.handle_event(ServerEvent::ReadOk(TallyCommand::Add(7).encode()), &mut context);
    let second = match engine.current() {
        ServerPhase::NeedWrite(out) => out.clone(),
        other => panic!("engine is at {:?}", other),
    };
    engine.handle_event(ServerEvent::WriteOk, &mut context);
    // No more pending connections: the drain ends cleanly.
    engine.handle_event(ServerEvent::AcceptErr(IoErrorKind::WouldBlock), &mut context);
    assert!(matches!(engine.current(), ServerPhase::Done(Ok(()))));
    // Each connection got its own command's response, in order.
    assert_eq!(first, TallyResponse::Total(15).encode());
    assert_eq!(second, TallyResponse::Total(22).encode());
    assert_eq!(context.total, 22);
}

#[test]
fn oversized_frame_is_a_decode_error_not_another_command() {
    let command = TallyCommand::Append(vec![0x5a; 2000]);
    let frame = command.encode();
    assert!(frame.len() > READ_BUF_LEN);
    // The operating system hands the server only the first buffer's worth.
    let truncated = frame[..READ_BUF_LEN].to_vec();
    assert!(TallyCommand::decode(&truncated).is_none());
    let (mut engine, _plan) = IpcServer::<TallyCommand>::new(false);
    let mut context = TallyContext { total: 0, appended: 0 };
    engine.handle_event(ServerEvent::Polled, &mut context);
    engine.handle_event(ServerEvent::AcceptOk, &mut context);
    engine.handle_event(ServerEvent::ReadOk(truncated), &mut context);
    assert!(matches!(
        engine.current(),
        ServerPhase::Done(Err(IpcError::Decode))
    ));
    // The context was never touched.
    assert_eq!(context, TallyContext { total: 0, appended: 0 });
}

#[test]
fn read_only_command_twice_gives_identical_responses() {
    let (mut engine, _plan) = IpcServer::<TallyCommand>::new(false);
    let mut context = TallyContext { total: 42, appended: 7 };
    let first = serve_one(&mut engine, &mut context, TallyCommand::Get.encode());
    let second = serve_one(&mut engine, &mut context, TallyCommand::Get.encode());
    assert_eq!(first, second);
    assert_eq!(first, TallyResponse::Total(42).encode());
    assert_eq!(context, TallyContext { total: 42, appended: 7 });
}

#[test]
fn empty_read_is_a_fatal_decode_error() {
    let (mut engine, _plan) = IpcServer::<TallyCommand>::new(false);
    let mut context = TallyContext { total: 0, appended: 0 };
    engine.handle_event(ServerEvent::Polled, &mut context);
    engine.handle_event(ServerEvent::AcceptOk, &mut context);
    engine.handle_event(ServerEvent::ReadOk(Vec::new()), &mut context);
    assert!(matches!(
        engine.current(),
        ServerPhase::Done(Err(IpcError::Decode))
    ));
}

#[test]
fn would_block_on_write_retries_the_same_frame() {
    let (mut engine, _plan) = IpcServer::<TallyCommand>::new(false);
    let mut context = TallyContext { total: 1, appended: 0 };
    let expected = serve_one(&mut engine, &mut context, TallyCommand::Add(1).encode());
    engine.handle_event(ServerEvent::WriteErr(IoErrorKind::WouldBlock), &mut context);
    match engine.current() {
        ServerPhase::NeedWrite(out) => assert_eq!(*out, expected),
        other => panic!("engine gave up the frame, it is at {:?}", other),
    }
    // A non-retryable write failure is fatal to the drain.
    engine.handle_event(ServerEvent::WriteErr(IoErrorKind::BrokenPipe), &mut context);
    assert!(matches!(
        engine.current(),
        ServerPhase::Done(Err(IpcError::Write(IoErrorKind::BrokenPipe)))
    ));
}

#[test]
fn failed_read_abandons_the_connection_and_ends_cleanly() {
    let (mut engine, _plan) = IpcServer::<TallyCommand>::new(false);
    let mut context = TallyContext { total: 3, appended: 0 };
    engine.handle_event(ServerEvent::Polled, &mut context);
    engine.handle_event(ServerEvent::AcceptOk, &mut context);
    engine.handle_event(ServerEvent::ReadErr(IoErrorKind::Other), &mut context);
    assert!(matches!(engine.current(), ServerPhase::Done(Ok(()))));
    assert_eq!(context.total, 3);
}

#[test]
fn failed_accept_ends_the_cycle_cleanly() {
    let (mut engine, _plan) = IpcServer::<TallyCommand>::new(false);
    let mut context = TallyContext { total: 0, appended: 0 };
    engine.handle_event(ServerEvent::Polled, &mut context);
    engine.handle_event(ServerEvent::AcceptErr(IoErrorKind::Other), &mut context);
    assert!(matches!(engine.current(), ServerPhase::Done(Ok(()))));
}

#[test]
fn append_counts_bytes_and_acknowledges() {
    let (mut engine, _plan) = IpcServer::<TallyCommand>::new(false);
    let mut context = TallyContext { total: 0, appended: 10 };
    let out = serve_one(&mut engine, &mut context, TallyCommand::Append(vec![1, 2, 3]).encode());
    assert_eq!(out, TallyResponse::Ack.encode());
    assert_eq!(context, TallyContext { total: 0, appended: 13 });
}

#[test]
fn totals_wrap_on_overflow() {
    let (mut engine, _plan) = IpcServer::<TallyCommand>::new(false);
    let mut context = TallyContext { total: u64::MAX, appended: 0 };
    let out = serve_one(&mut engine, &mut context, TallyCommand::Add(1).encode());
    assert_eq!(out, TallyResponse::Total(0).encode());
    assert_eq!(context.total, 0);
}

#[test]
fn client_retries_on_would_block_and_gives_up_otherwise() {
    assert!(matches!(
        client_on_read::<TallyCommand>(ClientEvent::ReadErr(IoErrorKind::WouldBlock)),
        ClientOutcome::RetryLater
    ));
    assert!(matches!(
        client_on_read::<TallyCommand>(ClientEvent::ReadErr(IoErrorKind::Other)),
        ClientOutcome::NoResponse
    ));
    // A frame that decodes to no response is discarded silently.
    assert!(matches!(
        client_on_read::<TallyCommand>(ClientEvent::ReadOk(vec![9, 9, 9])),
        ClientOutcome::NoResponse
    ));
}
