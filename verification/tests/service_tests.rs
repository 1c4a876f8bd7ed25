use lgtv_service::cli::{parse_command, probe_target, Command};
use lgtv_service::config::FileRead;
use lgtv_service::power::{is_reboot, power_event, utf16le_decode, AppEvent, ShutdownQuery};
use lgtv_service::probe::{classify_response, upgrade_request, ProbeVerdict};
use lgtv_service::service::{
    on_event, plan_control, running_status, shutdown_event, start_pending_status, startup,
    stopped_status, Action, ControlPlan, RunState, ServiceControlKind, SessionChangeKind, SERVICE_DISPLAY_NAME,
    SERVICE_NAME,
};

fn utf16le(s: &str) -> Vec<u8> {
    s.encode_utf16().flat_map(|u| u.to_le_bytes()).collect()
}

#[test]
fn power_notifications_map_to_events() {
    assert_eq!(power_event(0x0004), Some(AppEvent::Sleep));
    assert_eq!(power_event(0x0012), Some(AppEvent::Wake));
    assert_eq!(power_event(0x0007), None);
    assert_eq!(power_event(0x000A), None);
}

#[test]
fn restart_event_means_reboot() {
    let xml = "<Event><EventData><Data Name=\"param5\">restart</Data></EventData></Event>";
    assert!(is_reboot(&ShutdownQuery::Rendered(utf16le(xml))));
}

#[test]
fn shutdown_event_means_no_reboot() {
    let xml = "<Event><EventData><Data Name=\"param5\">power off</Data></EventData></Event>";
    assert!(!is_reboot(&ShutdownQuery::Rendered(utf16le(xml))));
}

#[test]
fn unknown_shutdown_kind_is_treated_as_shutdown() {
    assert!(!is_reboot(&ShutdownQuery::NoEvent));
    assert!(!is_reboot(&ShutdownQuery::Failed("EvtQuery failed".to_string())));
    assert!(!is_reboot(&ShutdownQuery::Rendered(Vec::new())));
}

#[test]
fn restart_marker_with_odd_trailing_byte() {
    let mut b = utf16le("x>restart<y");
    b.push(0x41);
    assert!(is_reboot(&ShutdownQuery::Rendered(b)));
}

#[test]
fn restart_marker_must_be_aligned() {
    let mut b = vec![0u8];
    b.extend(utf16le(">restart<"));
    assert!(!is_reboot(&ShutdownQuery::Rendered(b)));
}

#[test]
fn utf16_decoding() {
    assert_eq!(utf16le_decode(&[0x41, 0x00, 0x3E, 0x26, 0x01]), vec![0x0041, 0x263E]);
}

#[test]
fn startup_after_clean_shutdown_wakes_tv_once() {
    let a = startup(&FileRead::Contents("shutdown\n".to_string()));
    assert_eq!(a, vec![Action::ClearShutdownState, Action::SendWakeOnLan]);
    assert!(startup(&FileRead::NotFound).is_empty());
    assert!(startup(&FileRead::Contents("running".to_string())).is_empty());
    assert!(startup(&FileRead::Failed("denied".to_string())).is_empty());
}

#[test]
fn sleep_turns_tv_off_and_keeps_running() {
    let r = on_event(AppEvent::Sleep);
    assert_eq!(r.actions, vec![Action::TurnOffTv]);
    assert!(r.keep_running);
}

#[test]
fn wake_sends_three_delayed_packets() {
    let r = on_event(AppEvent::Wake);
    let p = Action::Pause { secs: 5 };
    assert_eq!(r.actions, vec![p, Action::SendWakeOnLan, p, Action::SendWakeOnLan, p, Action::SendWakeOnLan]);
    assert!(r.keep_running);
}

#[test]
fn shutdown_turns_tv_off_records_and_stops() {
    let r = on_event(AppEvent::Shutdown { reboot: false });
    assert_eq!(r.actions, vec![Action::TurnOffTv, Action::WriteShutdownState]);
    assert!(!r.keep_running);
}

#[test]
fn reboot_leaves_tv_on_and_stops() {
    let r = on_event(AppEvent::Shutdown { reboot: true });
    assert!(r.actions.is_empty());
    assert!(!r.keep_running);
}

#[test]
fn stop_request_stops() {
    let r = on_event(AppEvent::Stop);
    assert!(r.actions.is_empty());
    assert!(!r.keep_running);
}

#[test]
fn control_requests() {
    assert_eq!(plan_control(ServiceControlKind::Stop), ControlPlan::Forward(AppEvent::Stop));
    assert_eq!(plan_control(ServiceControlKind::Shutdown), ControlPlan::ForwardShutdown);
    assert_eq!(plan_control(ServiceControlKind::SessionChange(SessionChangeKind::Lock)),
        ControlPlan::Forward(AppEvent::Lock));
    assert_eq!(plan_control(ServiceControlKind::SessionChange(SessionChangeKind::Unlock)),
        ControlPlan::Forward(AppEvent::Unlock));
    assert_eq!(plan_control(ServiceControlKind::SessionChange(SessionChangeKind::Other)),
        ControlPlan::Acknowledge);
    assert_eq!(plan_control(ServiceControlKind::Interrogate), ControlPlan::Acknowledge);
    assert_eq!(plan_control(ServiceControlKind::Other), ControlPlan::NotImplemented);
}

#[test]
fn shutdown_control_event() {
    let xml = utf16le("<Data Name=\"param5\">restart</Data>");
    assert_eq!(shutdown_event(&ShutdownQuery::Rendered(xml)), AppEvent::Shutdown { reboot: true });
    assert_eq!(shutdown_event(&ShutdownQuery::NoEvent), AppEvent::Shutdown { reboot: false });
}

#[test]
fn status_reports() {
    let s = start_pending_status();
    assert_eq!(s.state, RunState::StartPending);
    assert!(!s.accepts_stop && !s.accepts_shutdown && !s.accepts_session_change);
    assert_eq!(s.wait_hint_secs, 5);
    let r = running_status();
    assert_eq!(r.state, RunState::Running);
    assert!(r.accepts_stop && r.accepts_shutdown && r.accepts_session_change);
    assert_eq!(r.wait_hint_secs, 0);
    let t = stopped_status();
    assert_eq!(t.state, RunState::Stopped);
    assert!(!t.accepts_stop);
}

#[test]
fn service_names() {
    assert_eq!(SERVICE_NAME, "lgtv-service");
    assert_eq!(SERVICE_DISPLAY_NAME, "LG TV Sleep/Wake Service");
}

#[test]
fn upgrade_request_text() {
    assert_eq!(
        upgrade_request("10.0.0.144", 3001),
        "GET / HTTP/1.1\r\nHost: 10.0.0.144:3001\r\nUpgrade: websocket\r\nConnection: Upgrade\r\n\
         Sec-WebSocket-Key: dGhlIHNhbXBsZSBub25jZQ==\r\nSec-WebSocket-Version: 13\r\n\
         Origin: http://10.0.0.144\r\n\r\n"
    );
}

#[test]
fn probe_answers() {
    assert_eq!(classify_response(b"HTTP/1.1 101 Switching Protocols\r\n"), ProbeVerdict::Switched);
    assert_eq!(classify_response(b"HTTP/1.1 400 Bad Request\r\n"), ProbeVerdict::BadRequest);
    assert_eq!(classify_response(b"HTTP/1.1 403 Forbidden\r\n"), ProbeVerdict::Forbidden);
    assert_eq!(classify_response(b"HTTP/1.0 101 x"), ProbeVerdict::Unexpected);
    assert_eq!(classify_response(b"HTTP/1.1 10"), ProbeVerdict::Unexpected);
    assert_eq!(classify_response(b""), ProbeVerdict::Unexpected);
}

#[test]
fn commands() {
    assert_eq!(parse_command(Some("install")), Command::Install);
    assert_eq!(parse_command(Some("uninstall")), Command::Uninstall);
    assert_eq!(parse_command(Some("run")), Command::Run);
    assert_eq!(parse_command(Some("pair")), Command::Pair);
    assert_eq!(parse_command(Some("test")), Command::Test);
    assert_eq!(parse_command(Some("turn-off")), Command::TurnOff);
    assert_eq!(parse_command(Some("turn-on")), Command::TurnOn);
    assert_eq!(parse_command(Some("test-power")), Command::TestPower);
    assert_eq!(parse_command(Some("Install")), Command::Usage);
    assert_eq!(parse_command(Some("")), Command::Usage);
    assert_eq!(parse_command(None), Command::Usage);
}

#[test]
fn probe_target_choice() {
    assert_eq!(probe_target(Some("1.2.3.4".to_string()), Some("5.6.7.8".to_string())), "1.2.3.4");
    assert_eq!(probe_target(None, Some("5.6.7.8".to_string())), "5.6.7.8");
    assert_eq!(probe_target(None, None), "10.0.0.144");
}

#[test]
fn lock_turns_tv_off_and_unlock_wakes_it() {
    let l = on_event(AppEvent::Lock);
    assert_eq!(l.actions, vec![Action::TurnOffTv]);
    assert!(l.keep_running);
    let u = on_event(AppEvent::Unlock);
    assert_eq!(u.actions, vec![Action::SendWakeOnLan]);
    assert!(u.keep_running);
}
