use articwake::services::ssh::{
    failure_stage, next_stage, Action, SshError, Stage, StepResult, UnlockSession,
    CONNECT_TIMEOUT_MS, DELIVERY_GRACE_MS, PROMPT_GRACE_MS, PTY_COLS, PTY_ROWS, PTY_TERM, SSH_USER,
};

/// A transport that does nothing but count what it is asked to do. The
/// step numbered `fail_at` fails, or is declined where `decline` is set.
struct StubTransport {
    key_loads: usize,
    connects: usize,
    authentications: usize,
    channel_opens: usize,
    pty_requests: usize,
    shell_requests: usize,
    waits: Vec<u64>,
    sent: Vec<Vec<u8>>,
    eofs: usize,
    steps: usize,
    fail_at: Option<usize>,
    decline: bool,
}

fn stub(fail_at: Option<usize>, decline: bool) -> StubTransport {
    StubTransport {
        key_loads: 0,
        connects: 0,
        authentications: 0,
        channel_opens: 0,
        pty_requests: 0,
        shell_requests: 0,
        waits: Vec::new(),
        sent: Vec::new(),
        eofs: 0,
        steps: 0,
        fail_at,
        decline,
    }
}

fn perform(transport: &mut StubTransport, action: &Action) -> StepResult {
    match action {
        Action::LoadKey { .. } => transport.key_loads += 1,
        Action::Connect { .. } => transport.connects += 1,
        Action::Authenticate { .. } => transport.authentications += 1,
        Action::OpenChannel => transport.channel_opens += 1,
        Action::RequestPty { .. } => transport.pty_requests += 1,
        Action::RequestShell => transport.shell_requests += 1,
        Action::Wait { millis } => transport.waits.push(*millis),
        Action::Send { data } => transport.sent.push(data.clone()),
        Action::SendEof => transport.eofs += 1,
        Action::Finish { .. } => unreachable!(),
    }
    let step = transport.steps;
    transport.steps += 1;
    if transport.fail_at == Some(step) {
        if transport.decline {
            StepResult::Declined
        } else {
            StepResult::Failed(format!("step {} failed", step))
        }
    } else {
        StepResult::Completed
    }
}

fn drive(transport: &mut StubTransport, passphrase: &str) -> Result<(), SshError> {
    let mut session = UnlockSession::new("192.168.1.100", 2222, "/etc/key", passphrase);
    for _ in 0..20 {
        match session.action() {
            Action::Finish { outcome } => return outcome,
            action => {
                let result = perform(transport, &action);
                session.advance(result);
            }
        }
    }
    panic!("the delivery did not end");
}

#[test]
fn full_delivery_runs_every_step_once_in_order() {
    let mut session = UnlockSession::new("host", 22, "/k", "secret");
    let mut stages = Vec::new();
    while !session.is_done() {
        stages.push(session.stage());
        session.advance(StepResult::Completed);
    }
    assert_eq!(
        stages,
        vec![
            Stage::LoadKey,
            Stage::Connect,
            Stage::Authenticate,
            Stage::OpenChannel,
            Stage::RequestPty,
            Stage::RequestShell,
            Stage::AwaitPrompt,
            Stage::SendPassphrase,
            Stage::AwaitDelivery,
            Stage::SendEof,
        ]
    );
    assert!(matches!(session.outcome(), Some(Ok(()))));
}

#[test]
fn delivery_against_a_willing_host() {
    let mut transport = stub(None, false);
    assert!(drive(&mut transport, "open sesame").is_ok());
    assert_eq!(transport.key_loads, 1);
    assert_eq!(transport.connects, 1);
    assert_eq!(transport.authentications, 1);
    assert_eq!(transport.channel_opens, 1);
    assert_eq!(transport.pty_requests, 1);
    assert_eq!(transport.shell_requests, 1);
    assert_eq!(transport.waits, vec![1000, 500]);
    assert_eq!(transport.sent, vec![b"open sesame\n".to_vec()]);
    assert_eq!(transport.eofs, 1);
}

#[test]
fn unreadable_key_fails_before_any_connection() {
    let mut transport = stub(Some(0), false);
    match drive(&mut transport, "secret") {
        Err(SshError::KeyLoadFailed(why)) => assert_eq!(why, "step 0 failed"),
        other => panic!("unexpected: {:?}", other),
    }
    assert_eq!(transport.key_loads, 1);
    assert_eq!(transport.connects, 0);
    assert_eq!(transport.authentications, 0);
    assert!(transport.sent.is_empty());
}

#[test]
fn connection_failure_is_told_apart() {
    let mut transport = stub(Some(1), false);
    assert!(matches!(
        drive(&mut transport, "secret"),
        Err(SshError::ConnectionFailed(_))
    ));
    assert_eq!(transport.authentications, 0);
}

#[test]
fn rejected_authentication_asks_for_no_channel() {
    let mut transport = stub(Some(2), true);
    assert!(matches!(drive(&mut transport, "secret"), Err(SshError::AuthFailed)));
    assert_eq!(transport.connects, 1);
    assert_eq!(transport.authentications, 1);
    assert_eq!(transport.channel_opens, 0);
    assert_eq!(transport.pty_requests, 0);
    assert_eq!(transport.shell_requests, 0);
    assert!(transport.waits.is_empty());
    assert!(transport.sent.is_empty());
    assert_eq!(transport.eofs, 0);
}

#[test]
fn transport_failure_during_authentication_is_a_connection_failure() {
    let mut transport = stub(Some(2), false);
    assert!(matches!(
        drive(&mut transport, "secret"),
        Err(SshError::ConnectionFailed(_))
    ));
    assert_eq!(transport.channel_opens, 0);
}

#[test]
fn channel_setup_failures() {
    for (step, opens, ptys, shells, eofs) in [(3, 1, 0, 0, 0), (4, 1, 1, 0, 1), (5, 1, 1, 1, 1)] {
        let mut transport = stub(Some(step), false);
        match drive(&mut transport, "secret") {
            Err(SshError::ChannelFailed(why)) => assert_eq!(why, format!("step {} failed", step)),
            other => panic!("unexpected: {:?}", other),
        }
        assert_eq!(transport.channel_opens, opens);
        assert_eq!(transport.pty_requests, ptys);
        assert_eq!(transport.shell_requests, shells);
        assert!(transport.waits.is_empty());
        assert!(transport.sent.is_empty());
        assert_eq!(transport.eofs, eofs);
    }
}

#[test]
fn failed_write_is_reported_after_end_of_input() {
    let mut transport = stub(Some(7), false);
    assert!(matches!(drive(&mut transport, "secret"), Err(SshError::SendFailed(_))));
    assert_eq!(transport.waits, vec![1000]);
    assert_eq!(transport.eofs, 1);
}

#[test]
fn failure_on_the_open_channel_leaves_only_the_end_of_input() {
    let mut session = UnlockSession::new("h", 1, "/k", "p");
    for _ in 0..4 {
        session.advance(StepResult::Completed);
    }
    assert_eq!(session.stage(), Stage::RequestPty);
    session.advance(StepResult::Failed("no terminal".to_string()));
    assert_eq!(session.stage(), Stage::SendEof);
    assert!(matches!(session.action(), Action::SendEof));
    assert!(session.outcome().is_none());
    session.advance(StepResult::Failed("gone".to_string()));
    assert!(session.is_done());
    match session.action() {
        Action::Finish { outcome: Err(SshError::ChannelFailed(why)) } => {
            assert_eq!(why, "no terminal")
        }
        _ => panic!("another action was named"),
    }
    match session.outcome() {
        Some(Err(SshError::ChannelFailed(why))) => assert_eq!(why, "no terminal"),
        other => panic!("unexpected: {:?}", other),
    }
}

#[test]
fn failure_before_the_channel_signals_nothing() {
    for step in 0..4 {
        let mut transport = stub(Some(step), false);
        assert!(drive(&mut transport, "secret").is_err());
        assert_eq!(transport.eofs, 0);
        assert_eq!(transport.steps, step + 1);
    }
}

#[test]
fn failed_end_of_input_is_swallowed() {
    let mut transport = stub(Some(9), false);
    assert!(drive(&mut transport, "secret").is_ok());
    assert_eq!(transport.eofs, 1);
}

#[test]
fn declined_steps_other_than_authentication_go_on() {
    let mut transport = stub(Some(4), true);
    assert!(drive(&mut transport, "secret").is_ok());
}

#[test]
fn actions_carry_the_request() {
    let mut session = UnlockSession::new("10.1.2.3", 2222, "/etc/secrets/key", "pässword");
    match session.action() {
        Action::LoadKey { path } => assert_eq!(path, "/etc/secrets/key"),
        _ => panic!("another action was named"),
    }
    session.advance(StepResult::Completed);
    match session.action() {
        Action::Connect { host, port, timeout_millis, accept_any_host_key } => {
            assert_eq!(host, "10.1.2.3");
            assert_eq!(port, 2222);
            assert_eq!(timeout_millis, 5000);
            assert!(accept_any_host_key);
        }
        _ => panic!("another action was named"),
    }
    session.advance(StepResult::Completed);
    match session.action() {
        Action::Authenticate { user } => assert_eq!(user, "root"),
        _ => panic!("another action was named"),
    }
    session.advance(StepResult::Completed);
    assert!(matches!(session.action(), Action::OpenChannel));
    session.advance(StepResult::Completed);
    match session.action() {
        Action::RequestPty { term, cols, rows } => {
            assert_eq!(term, "xterm");
            assert_eq!(cols, 80);
            assert_eq!(rows, 24);
        }
        _ => panic!("another action was named"),
    }
    session.advance(StepResult::Completed);
    assert!(matches!(session.action(), Action::RequestShell));
    session.advance(StepResult::Completed);
    assert!(matches!(session.action(), Action::Wait { millis: 1000 }));
    session.advance(StepResult::Completed);
    match session.action() {
        Action::Send { data } => assert_eq!(data, "pässword\n".as_bytes().to_vec()),
        _ => panic!("another action was named"),
    }
    session.advance(StepResult::Completed);
    assert!(matches!(session.action(), Action::Wait { millis: 500 }));
    session.advance(StepResult::Completed);
    assert!(matches!(session.action(), Action::SendEof));
    session.advance(StepResult::Completed);
    assert!(matches!(session.action(), Action::Finish { outcome: Ok(()) }));
}

#[test]
fn asking_for_the_action_changes_nothing() {
    let session = UnlockSession::new("h", 1, "/k", "p");
    assert!(matches!(session.action(), Action::LoadKey { .. }));
    assert!(matches!(session.action(), Action::LoadKey { .. }));
    assert_eq!(session.stage(), Stage::LoadKey);
    assert!(session.outcome().is_none());
}

#[test]
fn ended_delivery_ignores_further_reports() {
    let mut session = UnlockSession::new("h", 1, "/k", "p");
    session.advance(StepResult::Failed("no key".to_string()));
    assert!(session.is_done());
    session.advance(StepResult::Completed);
    session.advance(StepResult::Failed("later".to_string()));
    match session.outcome() {
        Some(Err(SshError::KeyLoadFailed(why))) => assert_eq!(why, "no key"),
        other => panic!("unexpected: {:?}", other),
    }
}

#[test]
fn waits_cannot_fail() {
    let mut session = UnlockSession::new("h", 1, "/k", "p");
    for _ in 0..6 {
        session.advance(StepResult::Completed);
    }
    assert_eq!(session.stage(), Stage::AwaitPrompt);
    session.advance(StepResult::Failed("timer".to_string()));
    assert_eq!(session.stage(), Stage::SendPassphrase);
}

#[test]
fn stage_order_and_constants() {
    assert_eq!(next_stage(Stage::LoadKey), Stage::Connect);
    assert_eq!(next_stage(Stage::SendEof), Stage::Done);
    assert_eq!(next_stage(Stage::Done), Stage::Done);
    assert_eq!(failure_stage(Stage::LoadKey), Stage::Done);
    assert_eq!(failure_stage(Stage::Authenticate), Stage::Done);
    assert_eq!(failure_stage(Stage::OpenChannel), Stage::Done);
    assert_eq!(failure_stage(Stage::RequestPty), Stage::SendEof);
    assert_eq!(failure_stage(Stage::SendPassphrase), Stage::SendEof);
    assert_eq!(CONNECT_TIMEOUT_MS, 5000);
    assert_eq!(SSH_USER, "root");
    assert_eq!(PTY_TERM, "xterm");
    assert_eq!((PTY_COLS, PTY_ROWS), (80, 24));
    assert_eq!((PROMPT_GRACE_MS, DELIVERY_GRACE_MS), (1000, 500));
}

#[test]
fn ssh_error_messages() {
    assert_eq!(
        SshError::KeyLoadFailed("a".to_string()).message(),
        "Failed to load SSH key: a"
    );
    assert_eq!(
        SshError::ConnectionFailed("b".to_string()).message(),
        "SSH connection failed: b"
    );
    assert_eq!(SshError::AuthFailed.message(), "SSH authentication failed");
    assert_eq!(
        SshError::ChannelFailed("c".to_string()).message(),
        "Failed to open channel: c"
    );
    assert_eq!(
        SshError::SendFailed("d".to_string()).message(),
        "Failed to send passphrase: d"
    );
    let copy = SshError::SendFailed("d".to_string()).duplicate();
    assert!(matches!(copy, SshError::SendFailed(ref m) if m == "d"));
}
