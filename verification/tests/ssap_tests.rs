use lgtv_service::tv::turn_off;
use lgtv_service::tv::websocket::{
    endpoint, fresh_turn_off_request, on_command_reply, on_pairing_reply, on_register_reply,
    register_request, turn_off_request, AckStep, Incoming, PairSession, PairStep, RegisterPayload,
    RegisterStep, SessionAction, SessionEvent, SsapError, SsapResponse, TurnOffSession,
    PAIR_CONNECT_SECS,
};

fn reply(msg_type: &str, id: Option<&str>, return_value: Option<bool>, key: Option<&str>) -> Incoming {
    Incoming::Text(Some(SsapResponse {
        msg_type: msg_type.to_string(),
        id: id.map(|s| s.to_string()),
        return_value,
        client_key: key.map(|s| s.to_string()),
        payload: key.map(|k| format!("{{\"client-key\":\"{}\"}}", k)),
    }))
}

#[test]
fn endpoint_is_secure_port_3001() {
    assert_eq!(endpoint("192.168.1.50"), "wss://192.168.1.50:3001");
}

#[test]
fn register_request_carries_the_key() {
    let r = register_request(Some("k1".to_string()));
    assert_eq!(r.msg_type, "register");
    assert_eq!(r.id, "register_0");
    assert_eq!(r.uri, None);
    assert_eq!(r.payload, Some(RegisterPayload { client_key: Some("k1".to_string()) }));
    let p = register_request(None);
    assert_eq!(p.payload, Some(RegisterPayload { client_key: None }));
}

#[test]
fn turn_off_request_names_the_command() {
    let r = turn_off_request("abc".to_string());
    assert_eq!(r.msg_type, "request");
    assert_eq!(r.id, "abc");
    assert_eq!(r.uri.as_deref(), Some("ssap://system/turnOff"));
    assert_eq!(r.payload, None);
}

#[test]
fn fresh_turn_off_request_has_a_v4_uuid_id() {
    let a = fresh_turn_off_request();
    let b = fresh_turn_off_request();
    assert_eq!(a.id.len(), 36);
    let chars: Vec<char> = a.id.chars().collect();
    for (i, c) in chars.iter().enumerate() {
        if [8, 13, 18, 23].contains(&i) {
            assert_eq!(*c, '-');
        } else {
            assert!(c.is_ascii_hexdigit() && !c.is_ascii_uppercase());
        }
    }
    assert_eq!(chars[14], '4');
    assert!(['8', '9', 'a', 'b'].contains(&chars[19]));
    assert_ne!(a.id, b.id);
    assert_eq!(a.uri.as_deref(), Some("ssap://system/turnOff"));
}

#[test]
fn register_replies() {
    assert!(matches!(on_register_reply(reply("registered", None, None, Some("k"))),
        RegisterStep::Registered(Some(k)) if k == "k"));
    assert!(matches!(on_register_reply(reply("registered", None, None, None)),
        RegisterStep::Registered(None)));
    assert!(matches!(on_register_reply(reply("error", None, None, None)),
        RegisterStep::Failed(SsapError::Rejected(None))));
    assert!(matches!(on_register_reply(reply("hello", None, None, None)), RegisterStep::KeepWaiting));
    assert!(matches!(on_register_reply(Incoming::Other), RegisterStep::KeepWaiting));
    assert!(matches!(on_register_reply(Incoming::Text(None)),
        RegisterStep::Failed(SsapError::MalformedResponse)));
    assert!(matches!(on_register_reply(Incoming::Failed("reset".to_string())),
        RegisterStep::Failed(SsapError::Transport(e)) if e == "reset"));
    assert!(matches!(on_register_reply(Incoming::Closed), RegisterStep::Failed(SsapError::ClosedEarly)));
}

#[test]
fn pairing_replies() {
    assert!(matches!(on_pairing_reply(reply("registered", None, None, Some("new"))),
        PairStep::Paired(k) if k == "new"));
    assert!(matches!(on_pairing_reply(reply("registered", None, None, None)),
        PairStep::Failed(SsapError::MissingClientKey)));
    assert!(matches!(on_pairing_reply(reply("error", None, None, None)),
        PairStep::Failed(SsapError::Rejected(_))));
    assert!(matches!(on_pairing_reply(reply("response", None, None, None)), PairStep::KeepWaiting));
    assert!(matches!(on_pairing_reply(Incoming::Closed), PairStep::Failed(SsapError::ClosedEarly)));
}

#[test]
fn command_replies() {
    let id = "cmd-1";
    assert_eq!(on_command_reply(&reply("response", Some(id), Some(true), None), id),
        AckStep::Acknowledged { accepted: true });
    assert_eq!(on_command_reply(&reply("response", Some(id), None, None), id),
        AckStep::Acknowledged { accepted: true });
    assert_eq!(on_command_reply(&reply("response", Some(id), Some(false), None), id),
        AckStep::Acknowledged { accepted: false });
    assert_eq!(on_command_reply(&reply("response", Some("other"), Some(true), None), id),
        AckStep::KeepWaiting);
    assert_eq!(on_command_reply(&reply("response", None, Some(true), None), id), AckStep::KeepWaiting);
    assert_eq!(on_command_reply(&Incoming::Text(None), id), AckStep::KeepWaiting);
    assert_eq!(on_command_reply(&Incoming::Other, id), AckStep::StopWaiting);
    assert_eq!(on_command_reply(&Incoming::Closed, id), AckStep::StopWaiting);
    assert_eq!(on_command_reply(&Incoming::Failed("x".to_string()), id), AckStep::StopWaiting);
}

#[test]
fn turn_off_session_happy_path() {
    let mut s = TurnOffSession::new("10.0.0.5".to_string(), "key".to_string(), 3, 2);
    match s.start() {
        SessionAction::Connect { url, timeout_secs } => {
            assert_eq!(url, "wss://10.0.0.5:3001");
            assert_eq!(timeout_secs, 3);
        }
        other => panic!("unexpected {:?}", other),
    }
    let reg = match s.step(SessionEvent::Connected) {
        SessionAction::Send(r) => r,
        other => panic!("unexpected {:?}", other),
    };
    assert_eq!(reg.msg_type, "register");
    assert_eq!(reg.payload, Some(RegisterPayload { client_key: Some("key".to_string()) }));
    assert!(matches!(s.step(SessionEvent::Sent), SessionAction::ReadReply { restart_wait_secs: Some(2) }));
    assert!(matches!(s.step(SessionEvent::Reply(reply("hello", None, None, None))),
        SessionAction::ReadReply { restart_wait_secs: None }));
    let cmd = match s.step(SessionEvent::Reply(reply("registered", Some("register_0"), None, Some("key")))) {
        SessionAction::Send(r) => r,
        other => panic!("unexpected {:?}", other),
    };
    assert_eq!(cmd.uri.as_deref(), Some("ssap://system/turnOff"));
    assert!(matches!(s.step(SessionEvent::Sent), SessionAction::ReadReply { restart_wait_secs: Some(2) }));
    assert!(matches!(s.step(SessionEvent::Reply(reply("response", Some("zzz"), Some(true), None))),
        SessionAction::ReadReply { restart_wait_secs: None }));
    assert!(matches!(s.step(SessionEvent::Reply(reply("response", Some(&cmd.id), Some(true), None))),
        SessionAction::Close { acknowledged: Some(true) }));
    assert!(matches!(s.step(SessionEvent::Closed), SessionAction::Finish(Ok(()))));
    assert!(s.is_finished());
}

#[test]
fn turn_off_session_without_ack_still_succeeds() {
    let mut s = TurnOffSession::new("tv".to_string(), "key".to_string(), 3, 2);
    s.start();
    s.step(SessionEvent::Connected);
    s.step(SessionEvent::Sent);
    s.step(SessionEvent::Reply(reply("registered", None, None, None)));
    s.step(SessionEvent::Sent);
    assert!(matches!(s.step(SessionEvent::Reply(Incoming::Closed)), SessionAction::Close { acknowledged: None }));
    assert!(matches!(s.step(SessionEvent::Closed), SessionAction::Finish(Ok(()))));
}

#[test]
fn turn_off_session_ack_timeout_closes() {
    let mut s = TurnOffSession::new("tv".to_string(), "key".to_string(), 3, 2);
    s.start();
    s.step(SessionEvent::Connected);
    s.step(SessionEvent::Sent);
    s.step(SessionEvent::Reply(reply("registered", None, None, None)));
    s.step(SessionEvent::Sent);
    assert!(matches!(s.step(SessionEvent::WaitExpired), SessionAction::Close { acknowledged: None }));
}

#[test]
fn turn_off_session_failures() {
    let mut s = TurnOffSession::new("tv".to_string(), "key".to_string(), 3, 2);
    s.start();
    assert!(matches!(s.step(SessionEvent::ConnectFailed("timed out".to_string())),
        SessionAction::Finish(Err(SsapError::ConnectFailed(m))) if m == "timed out"));
    assert!(s.is_finished());

    let mut s = TurnOffSession::new("tv".to_string(), "key".to_string(), 3, 2);
    s.start();
    s.step(SessionEvent::Connected);
    assert!(matches!(s.step(SessionEvent::SendFailed("broken".to_string())),
        SessionAction::Finish(Err(SsapError::SendFailed(_)))));

    let mut s = TurnOffSession::new("tv".to_string(), "key".to_string(), 3, 2);
    s.start();
    s.step(SessionEvent::Connected);
    s.step(SessionEvent::Sent);
    assert!(matches!(s.step(SessionEvent::WaitExpired), SessionAction::Finish(Err(SsapError::TimedOut))));

    let mut s = TurnOffSession::new("tv".to_string(), "key".to_string(), 3, 2);
    s.start();
    s.step(SessionEvent::Connected);
    s.step(SessionEvent::Sent);
    assert!(matches!(s.step(SessionEvent::Reply(reply("error", None, None, None))),
        SessionAction::Finish(Err(SsapError::Rejected(None)))));

    let mut s = TurnOffSession::new("tv".to_string(), "key".to_string(), 3, 2);
    s.start();
    s.step(SessionEvent::Connected);
    s.step(SessionEvent::Sent);
    s.step(SessionEvent::Reply(reply("registered", None, None, None)));
    assert!(matches!(s.step(SessionEvent::SendFailed("gone".to_string())),
        SessionAction::Finish(Err(SsapError::SendFailed(_)))));
}

#[test]
fn failed_turn_off_is_not_an_error() {
    assert_eq!(turn_off(Err(SsapError::TimedOut)), Ok(()));
    assert_eq!(turn_off(Err(SsapError::ConnectFailed("x".to_string()))), Ok(()));
    assert_eq!(turn_off(Ok(())), Ok(()));
}

#[test]
fn pair_session_happy_path() {
    let mut s = PairSession::new("10.0.0.9".to_string(), 60);
    match s.start() {
        SessionAction::Connect { url, timeout_secs } => {
            assert_eq!(url, "wss://10.0.0.9:3001");
            assert_eq!(timeout_secs, PAIR_CONNECT_SECS);
            assert_eq!(timeout_secs, 10);
        }
        other => panic!("unexpected {:?}", other),
    }
    match s.step(SessionEvent::Connected) {
        SessionAction::Send(r) => {
            assert_eq!(r.msg_type, "register");
            assert_eq!(r.payload, Some(RegisterPayload { client_key: None }));
        }
        other => panic!("unexpected {:?}", other),
    }
    assert!(matches!(s.step(SessionEvent::Sent), SessionAction::ReadReply { restart_wait_secs: Some(60) }));
    assert!(matches!(s.step(SessionEvent::Reply(reply("response", None, None, None))),
        SessionAction::ReadReply { restart_wait_secs: None }));
    assert!(matches!(s.step(SessionEvent::Reply(reply("registered", None, None, Some("granted")))),
        SessionAction::Close { acknowledged: None }));
    assert!(matches!(s.step(SessionEvent::Closed), SessionAction::Finish(Ok(k)) if k == "granted"));
    assert!(s.is_finished());
}

#[test]
fn pair_session_failures() {
    let mut s = PairSession::new("tv".to_string(), 60);
    s.start();
    s.step(SessionEvent::Connected);
    s.step(SessionEvent::Sent);
    assert!(matches!(s.step(SessionEvent::WaitExpired), SessionAction::Finish(Err(SsapError::TimedOut))));

    let mut s = PairSession::new("tv".to_string(), 60);
    s.start();
    s.step(SessionEvent::Connected);
    s.step(SessionEvent::Sent);
    assert!(matches!(s.step(SessionEvent::Reply(reply("registered", None, None, None))),
        SessionAction::Finish(Err(SsapError::MissingClientKey))));

    let mut s = PairSession::new("tv".to_string(), 60);
    s.start();
    assert!(matches!(s.step(SessionEvent::ConnectFailed("refused".to_string())),
        SessionAction::Finish(Err(SsapError::ConnectFailed(_)))));
}
