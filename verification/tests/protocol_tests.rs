use prefork::client::{
    display_error, error_message, prepare_request, suggest_fix, verbosity_filter, Cli, ClientError,
};
use prefork::codec::{deserialize, CodecError, MAX_PAYLOAD};
use prefork::context::ExecutionContext;
use prefork::daemon::{Daemon, DaemonAction, DaemonEvent, DaemonPhase, SessionOutcome, StartupStep, handle_session};
use prefork::discovery::LocalFileStrategy;
use prefork::transport::{IoErrorKind, Message, TransportError, MAX_DESCRIPTORS};

#[test]
fn test_descriptor_bound() {
    let payload = vec![1u8, 2, 3];
    let at_max: Vec<i32> = (0..MAX_DESCRIPTORS as i32).collect();
    let msg = Message::new(payload.clone(), at_max.clone()).unwrap();
    assert_eq!(msg.payload(), &payload);
    assert_eq!(msg.descriptors(), &at_max);

    let over: Vec<i32> = (0..(MAX_DESCRIPTORS as i32 + 1)).collect();
    match Message::new(payload, over) {
        Err(TransportError::TooManyDescriptors) => {}
        _ => panic!("one descriptor over the bound must be refused whole"),
    }
}

#[test]
fn test_message_atomicity() {
    // A message is taken apart only as the pair it was built from.
    let msg = Message::new(vec![9u8, 8], vec![0, 1, 2]).unwrap();
    let (payload, fds) = msg.into_parts();
    assert_eq!(payload, vec![9u8, 8]);
    assert_eq!(fds, vec![0, 1, 2]);
}

#[test]
fn test_session_well_formed() {
    let ctx = ExecutionContext::new("/tmp".to_string(), "echo".to_string())
        .with_arg("hi".to_string());
    let payload = ctx.serialize().unwrap();
    match handle_session(payload, vec![0, 1, 2]) {
        SessionOutcome::Execute(back, fds) => {
            assert_eq!(back.command, "echo");
            assert_eq!(back.args, vec!["hi".to_string()]);
            assert_eq!(fds, vec![0, 1, 2]);
        }
        SessionOutcome::Rejected(_) => panic!("well-formed payload must yield a request"),
    }
}

#[test]
fn test_session_zero_descriptors_tolerated() {
    let ctx = ExecutionContext::new("/tmp".to_string(), "echo".to_string());
    let payload = ctx.serialize().unwrap();
    match handle_session(payload, Vec::new()) {
        SessionOutcome::Execute(_, fds) => assert!(fds.is_empty()),
        SessionOutcome::Rejected(_) => panic!("missing descriptors are not a transport error"),
    }
}

#[test]
fn test_session_isolation() {
    let mut daemon = Daemon::new(&LocalFileStrategy::default());
    assert_eq!(daemon.phase, DaemonPhase::Listening);

    // A deliberately corrupted payload: rejected, logged, isolated.
    let corrupt = vec![0xffu8, 0xff, 0xff, 0xff, 1, 2, 3];
    match daemon.on_event(DaemonEvent::Datagram(corrupt, vec![0, 1, 2])) {
        DaemonAction::Dispatch(SessionOutcome::Rejected(CodecError::Malformed)) => {}
        _ => panic!("a corrupted payload must be rejected in its own session"),
    }
    assert_eq!(daemon.phase, DaemonPhase::Listening);

    // A concurrently active, well-formed session is unaffected.
    let good = ExecutionContext::new("/tmp".to_string(), "ls".to_string())
        .serialize()
        .unwrap();
    match daemon.on_event(DaemonEvent::Datagram(good, vec![0, 1, 2])) {
        DaemonAction::Dispatch(SessionOutcome::Execute(ctx, fds)) => {
            assert_eq!(ctx.command, "ls");
            assert_eq!(fds, vec![0, 1, 2]);
        }
        _ => panic!("the well-formed session must still yield its request"),
    }
    assert_eq!(daemon.phase, DaemonPhase::Listening);
}

#[test]
fn test_receive_error_not_fatal() {
    let mut daemon = Daemon::new(&LocalFileStrategy::default());
    match daemon.on_event(DaemonEvent::ReceiveError) {
        DaemonAction::LogReceiveError => {}
        _ => panic!("a failed receive is logged, never fatal"),
    }
    assert_eq!(daemon.phase, DaemonPhase::Listening);
}

#[test]
fn test_shutdown_cleanup() {
    let mut daemon = Daemon::new(&LocalFileStrategy::default());
    assert_eq!(daemon.endpoint, "./.pfd.sock");
    match daemon.on_event(DaemonEvent::Interrupt) {
        DaemonAction::RemoveEndpoint(path) => assert_eq!(path, "./.pfd.sock"),
        _ => panic!("the interrupt must order the endpoint removed"),
    }
    assert_eq!(daemon.phase, DaemonPhase::Stopped);
}

#[test]
fn test_startup_clears_stale_endpoint() {
    let daemon = Daemon::new(&LocalFileStrategy::default());
    let steps = daemon.startup_steps();
    assert_eq!(steps.len(), 2);
    match &steps[0] {
        StartupStep::RemoveStale(path) => assert_eq!(path, "./.pfd.sock"),
        _ => panic!("startup must clear a stale endpoint first"),
    }
    match &steps[1] {
        StartupStep::Bind(path) => assert_eq!(path, "./.pfd.sock"),
        _ => panic!("startup binds after clearing"),
    }
}

#[test]
fn test_verbosity_filter() {
    assert_eq!(verbosity_filter(0), "warn");
    assert_eq!(verbosity_filter(1), "info");
    assert_eq!(verbosity_filter(2), "debug");
    assert_eq!(verbosity_filter(7), "debug");
}

#[test]
fn test_display_error_with_suggestion() {
    let report = display_error(&ClientError::EndpointNotFound);
    assert_eq!(
        report,
        "Error: No pfd socket found\n\nSuggestion: Start the pfd daemon first with 'pfd' command\n"
    );
}

#[test]
fn test_display_error_without_suggestion() {
    let report = display_error(&ClientError::Codec(CodecError::TooLarge));
    assert_eq!(report, "Error: Execution context exceeds the message capacity\n");
}

#[test]
fn test_suggest_fix_categories() {
    assert_eq!(
        suggest_fix(&ClientError::Transport(TransportError::Io(
            IoErrorKind::ConnectionRefused
        ))),
        Some("The pfd daemon may not be running. Try starting it first")
    );
    assert_eq!(
        suggest_fix(&ClientError::Transport(TransportError::Io(
            IoErrorKind::PermissionDenied
        ))),
        Some("Check file permissions and try running with appropriate access")
    );
    assert_eq!(
        suggest_fix(&ClientError::Transport(TransportError::TooManyDescriptors)),
        None
    );
    assert_eq!(
        error_message(&ClientError::Transport(TransportError::Io(IoErrorKind::BrokenPipe))),
        "Broken pipe"
    );
}

#[test]
fn test_prepare_request_override_and_payload() {
    let cli = Cli {
        command: "echo".to_string(),
        args: vec!["hello".to_string()],
        socket: Some("/tmp/pfd.sock".to_string()),
        verbose: 0,
        quiet: false,
    };
    let req = prepare_request(cli, "/work".to_string(), None, None).unwrap();
    assert_eq!(req.socket_path, "/tmp/pfd.sock");
    let back = deserialize(&req.payload).unwrap();
    assert_eq!(back.working_dir, "/work");
    assert_eq!(back.command, "echo");
    assert_eq!(back.args, vec!["hello".to_string()]);
    assert!(back.env.is_empty());
}

#[test]
fn test_prepare_request_env_chain() {
    let cli = Cli {
        command: "echo".to_string(),
        args: Vec::new(),
        socket: None,
        verbose: 0,
        quiet: false,
    };
    let req = prepare_request(
        cli,
        "/work".to_string(),
        Some("B".to_string()),
        Some("C".to_string()),
    )
    .unwrap();
    assert_eq!(req.socket_path, "B");

    let cli = Cli {
        command: "echo".to_string(),
        args: Vec::new(),
        socket: None,
        verbose: 0,
        quiet: false,
    };
    let req = prepare_request(cli, "/work".to_string(), None, Some("C".to_string())).unwrap();
    assert_eq!(req.socket_path, "C");
}

#[test]
fn test_prepare_request_endpoint_not_found() {
    // No override, no environment values, and no well-known file in the
    // test's working directory: discovery comes up empty.
    let cli = Cli {
        command: "echo".to_string(),
        args: Vec::new(),
        socket: None,
        verbose: 0,
        quiet: false,
    };
    match prepare_request(cli, "/work".to_string(), None, None) {
        Err(e) => assert_eq!(e, ClientError::EndpointNotFound),
        Ok(_) => panic!("discovery must fail with no endpoint anywhere"),
    }
}

#[test]
fn test_prepare_request_too_large() {
    let cli = Cli {
        command: "x".repeat(MAX_PAYLOAD),
        args: Vec::new(),
        socket: Some("/tmp/pfd.sock".to_string()),
        verbose: 0,
        quiet: false,
    };
    match prepare_request(cli, "/work".to_string(), None, None) {
        Err(e) => assert_eq!(e, ClientError::Codec(CodecError::TooLarge)),
        Ok(_) => panic!("an oversized context must fail serialization, not truncate"),
    }
}
