use dbus_futures::command::Command;
use dbus_futures::dispatch::Dispatched;
use dbus_futures::error::Error;
use dbus_futures::handle::{ConnHandle, Transport};
use dbus_futures::message::{Message, MessageKind};
use dbus_futures::reply::PollResult;

fn transport_at(serial: u32) -> Transport {
    Transport { next_serial: serial, healthy: true, unique_name: None, outgoing: Vec::new() }
}

fn reply_with(serial: u32, arg: &str) -> Message {
    let mut m = Message::method_return(serial);
    m.append_arg(arg.to_string());
    m
}

#[test]
fn send_reply_resolves_to_pong() {
    let (handle, mut dispatch) = ConnHandle::new();
    let mut transport = transport_at(7);
    let path = handle.with_path("org.example.Svc".to_string(), "/org/example".to_string());
    let mut fut = path.method_call_with_args(
        &mut transport,
        "org.example.Iface".to_string(),
        "Ping".to_string(),
        |m| m,
    );
    assert_eq!(transport.next_serial, 8);
    dispatch.pump_commands(16);
    assert_eq!(dispatch.pending_count(), 1);
    let outcome = dispatch.handle_incoming(reply_with(7, "pong"));
    assert!(matches!(outcome, Dispatched::Matched));
    assert_eq!(dispatch.pending_count(), 0);
    match fut.try_poll() {
        PollResult::Ready(Ok(m)) => assert_eq!(m.args[0], "pong"),
        other => panic!("expected the pong reply, got {:?}", other),
    }
}

#[test]
fn second_reply_has_no_effect() {
    let (handle, mut dispatch) = ConnHandle::new();
    let mut fut = handle.register_reply(4);
    dispatch.pump_commands(16);
    assert!(matches!(dispatch.handle_incoming(reply_with(4, "one")), Dispatched::Matched));
    assert!(matches!(dispatch.handle_incoming(reply_with(4, "two")), Dispatched::Unmatched));
    assert_eq!(dispatch.pending_count(), 0);
    match fut.try_poll() {
        PollResult::Ready(Ok(m)) => assert_eq!(m.args[0], "one"),
        other => panic!("expected the first reply, got {:?}", other),
    }
}

#[test]
fn dropped_future_frees_slot_without_crash() {
    let (handle, mut dispatch) = ConnHandle::new();
    let fut = handle.register_reply(3);
    dispatch.pump_commands(16);
    drop(fut);
    let outcome = dispatch.handle_incoming(reply_with(3, "late"));
    assert!(matches!(outcome, Dispatched::Matched));
    assert_eq!(dispatch.pending_count(), 0);
    assert!(dispatch.is_running());
}

#[test]
fn reply_nobody_registered_is_discarded() {
    let (_handle, mut dispatch) = ConnHandle::new();
    let outcome = dispatch.handle_incoming(reply_with(3, "stray"));
    assert!(matches!(outcome, Dispatched::Unmatched));
    assert!(dispatch.is_running());
}

#[test]
fn non_reply_is_passed_back() {
    let (_handle, mut dispatch) = ConnHandle::new();
    let sig = Message::signal(
        "/org/example".to_string(),
        "org.example.Iface".to_string(),
        "Changed".to_string(),
    );
    match dispatch.handle_incoming(sig.clone()) {
        Dispatched::Passed(m) => assert_eq!(m, sig),
        other => panic!("expected the signal back, got {:?}", other),
    }
}

#[test]
fn registration_after_shutdown_fails_without_suspension() {
    let (handle, mut dispatch) = ConnHandle::new();
    dispatch.shutdown();
    let mut fut = handle.register_reply(5);
    match fut.try_poll() {
        PollResult::Ready(Err(e)) => assert_eq!(e, Error::DispatchUnavailable),
        other => panic!("expected an immediate failure, got {:?}", other),
    }
}

#[test]
fn shutdown_resolves_all_pending_with_closed() {
    let (handle, mut dispatch) = ConnHandle::new();
    let mut one = handle.register_reply(1);
    let mut two = handle.register_reply(2);
    dispatch.pump_commands(16);
    assert_eq!(dispatch.pending_count(), 2);
    assert!(handle.quit().is_ok());
    dispatch.pump_commands(16);
    assert!(!dispatch.is_running());
    assert_eq!(dispatch.pending_count(), 0);
    for fut in [&mut one, &mut two] {
        match fut.try_poll() {
            PollResult::Ready(Err(e)) => assert_eq!(e, Error::ClosedWithoutReply),
            other => panic!("expected closed-without-reply, got {:?}", other),
        }
    }
    assert_eq!(handle.quit(), Err(()));
}

#[test]
fn duplicate_registration_overwrites_earlier_sink() {
    let (handle, mut dispatch) = ConnHandle::new();
    let mut first = handle.register_reply(7);
    let mut second = handle.register_reply(7);
    dispatch.pump_commands(16);
    assert_eq!(dispatch.pending_count(), 1);
    match first.try_poll() {
        PollResult::Ready(Err(e)) => assert_eq!(e, Error::ClosedWithoutReply),
        other => panic!("expected the abandoned sink to close, got {:?}", other),
    }
    assert!(matches!(dispatch.handle_incoming(reply_with(7, "pong")), Dispatched::Matched));
    match second.try_poll() {
        PollResult::Ready(Ok(m)) => assert_eq!(m.args[0], "pong"),
        other => panic!("expected the reply, got {:?}", other),
    }
}

#[test]
fn pending_future_suspends_until_delivery() {
    let (handle, mut dispatch) = ConnHandle::new();
    let mut fut = handle.register_reply(9);
    dispatch.pump_commands(16);
    assert!(matches!(fut.try_poll(), PollResult::Pending));
    assert!(matches!(fut.try_poll(), PollResult::Pending));
    dispatch.handle_incoming(reply_with(9, "done"));
    match fut.try_poll() {
        PollResult::Ready(Ok(m)) => assert_eq!(m.args[0], "done"),
        other => panic!("expected the reply, got {:?}", other),
    }
    assert!(fut.resolved());
}

#[test]
fn error_reply_converts_to_remote_error() {
    let (handle, mut dispatch) = ConnHandle::new();
    let mut fut = handle.register_reply(6);
    dispatch.pump_commands(16);
    let mut err = Message::error_reply(6, "org.example.Error.Failed".to_string());
    err.append_arg("boom".to_string());
    dispatch.handle_incoming(err);
    match fut.try_poll() {
        PollResult::Ready(Err(e)) => assert_eq!(
            e,
            Error::RemoteError {
                name: "org.example.Error.Failed".to_string(),
                text: "boom".to_string(),
            },
        ),
        other => panic!("expected the remote error, got {:?}", other),
    }
}

#[test]
fn error_reply_without_text_has_empty_text() {
    let err = Message::error_reply(2, "org.example.Error.NoText".to_string());
    match err.into_result() {
        Err(Error::RemoteError { name, text }) => {
            assert_eq!(name, "org.example.Error.NoText");
            assert_eq!(text, "");
        },
        other => panic!("expected a remote error, got {:?}", other),
    }
}

#[test]
fn direct_command_delivers_through_real_channel() {
    let (_handle, mut dispatch) = ConnHandle::new();
    let (tx, mut rx) = futures::channel::oneshot::channel::<Message>();
    dispatch.handle_command(Command::AddReply(11, tx));
    assert_eq!(dispatch.pending_count(), 1);
    assert!(matches!(dispatch.handle_incoming(reply_with(11, "direct")), Dispatched::Matched));
    match rx.try_recv() {
        Ok(Some(m)) => assert_eq!(m.args[0], "direct"),
        other => panic!("expected the delivered message, got {:?}", other),
    }
}

#[test]
fn pump_handles_at_most_its_budget() {
    let (handle, mut dispatch) = ConnHandle::new();
    let _one = handle.register_reply(1);
    let _two = handle.register_reply(2);
    let _three = handle.register_reply(3);
    dispatch.pump_commands(2);
    assert_eq!(dispatch.pending_count(), 2);
    dispatch.pump_commands(2);
    assert_eq!(dispatch.pending_count(), 3);
}

#[test]
fn reply_to_reads_correlation_identifier() {
    assert_eq!(Message::method_return(5).reply_to(), Some(5));
    assert_eq!(Message::error_reply(8, "e".to_string()).reply_to(), Some(8));
    let sig = Message::signal("/p".to_string(), "i".to_string(), "m".to_string());
    assert_eq!(sig.reply_to(), None);
    let call = Message::method_call("d".to_string(), "/p".to_string(), "i".to_string(), "m".to_string());
    assert_eq!(call.reply_to(), None);
}

#[test]
fn message_kinds_carry_their_fields() {
    let call = Message::method_call("d".to_string(), "/p".to_string(), "i".to_string(), "m".to_string());
    assert_eq!(
        call.kind,
        MessageKind::MethodCall {
            dest: "d".to_string(),
            path: "/p".to_string(),
            interface: "i".to_string(),
            member: "m".to_string(),
        },
    );
    assert!(call.args.is_empty());
}
