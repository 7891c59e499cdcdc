use dl44::controller::{
    feed_override_byte, rapid_override_byte, spindle_override_byte, CommandError,
    ConnectionState, ControllerError, ControllerState, OverrideAdjust, RapidOverride, WorkerCall,
};
use dl44::protocol::Units;
use dl44::status::{MachineState, MachineStatus};
use dl44::worker::{StatusQueryResult, WorkerError};

fn connected() -> ControllerState {
    let mut s = ControllerState::new();
    s.connection = ConnectionState::Connected { port: "/dev/ttyUSB0".into(), baud: 115200 };
    s
}

fn alarm_poll(code: u32) -> StatusQueryResult {
    StatusQueryResult {
        status: MachineStatus::parse("<Alarm|MPos:0,0,0>"),
        alarm: Some(code),
        error: None,
        is_fresh: true,
    }
}

#[test]
fn alarm_id_stable_for_same_code_and_grows_for_new() {
    let mut s = connected();
    s.apply_poll(Ok(alarm_poll(1))).unwrap();
    let (code, id1) = s.pending_alarm.unwrap();
    assert_eq!(code, 1);
    assert_eq!(s.last_error.as_deref(), Some("ALARM:1"));
    s.apply_poll(Ok(alarm_poll(1))).unwrap();
    assert_eq!(s.pending_alarm, Some((1, id1)));
    s.apply_poll(Ok(alarm_poll(2))).unwrap();
    let (code2, id2) = s.pending_alarm.unwrap();
    assert_eq!(code2, 2);
    assert!(id2 > id1);
}

#[test]
fn fresh_idle_poll_clears_alarm_but_stale_does_not() {
    let mut s = connected();
    s.apply_poll(Ok(alarm_poll(9))).unwrap();
    let stale = StatusQueryResult { status: None, alarm: None, error: None, is_fresh: false };
    s.apply_poll(Ok(stale)).unwrap();
    assert!(s.pending_alarm.is_some());
    assert!(!s.status_is_fresh);
    let idle = StatusQueryResult {
        status: MachineStatus::parse("<Idle|MPos:0,0,0>"),
        alarm: None,
        error: Some(4),
        is_fresh: true,
    };
    let st = s.apply_poll(Ok(idle)).unwrap();
    assert_eq!(st.state, MachineState::Idle);
    assert!(s.pending_alarm.is_none());
    assert_eq!(s.last_error.as_deref(), Some("error:4"));
}

#[test]
fn poll_failure_marks_stale() {
    let mut s = connected();
    s.status_is_fresh = true;
    let r = s.apply_poll(Err(WorkerError::WorkerDead));
    assert_eq!(r, Err(ControllerError::Internal("Worker thread not responding".into())));
    assert!(!s.status_is_fresh);
    assert_eq!(s.last_error.as_deref(), Some("Worker thread not responding"));
}

#[test]
fn frame_with_zero_width_is_refused() {
    let s = connected();
    let r = s.plan_frame(1_000, 1_000, 0, 5_000, 100_000, 10, Units::Millimeters);
    assert!(matches!(r, Err(ControllerError::InvalidState(_))));
    let r = s.plan_frame(0, 5_000, 2_000, 2_000, 100_000, 10, Units::Millimeters);
    assert!(matches!(r, Err(ControllerError::InvalidState(_))));
}

#[test]
fn frame_checks_in_order() {
    let s = ControllerState::new();
    let r = s.plan_frame(1_000, 1_000, 0, 5_000, 100_000, 10, Units::Millimeters);
    assert_eq!(r, Err(ControllerError::NotConnected));
    let mut busy = connected();
    busy.status = MachineStatus::parse("<Run|MPos:0,0,0>").unwrap();
    let r = busy.plan_frame(0, 1_000, 0, 1_000, 100_000, 10, Units::Millimeters);
    assert!(matches!(r, Err(ControllerError::InvalidState(_))));
    let ok = connected().plan_frame(1_000, 0, 0, 1_000, 100_000, 10, Units::Millimeters).unwrap();
    assert_eq!(ok.len(), 8);
    assert_eq!(
        ok[1],
        WorkerCall::Command { text: "G0 X0.000 Y0.000\n".into(), retries: 2, timeout_ms: 500 }
    );
}

#[test]
fn connect_lifecycle() {
    let mut s = ControllerState::new();
    let call = s.plan_connect("COM3", 9600).unwrap();
    assert_eq!(call, WorkerCall::Connect { port: "COM3".into(), baud: 9600 });
    assert_eq!(s.connection, ConnectionState::Connecting);
    s.finish_connect("COM3", 9600, Ok("Grbl 1.1h".into())).unwrap();
    assert_eq!(s.connection, ConnectionState::Connected { port: "COM3".into(), baud: 9600 });
    assert_eq!(s.welcome_message.as_deref(), Some("Grbl 1.1h"));
    assert_eq!(s.plan_connect("COM3", 9600), Err(ControllerError::AlreadyConnected));
    assert_eq!(s.plan_disconnect(), Ok(WorkerCall::Disconnect));
    s.finish_disconnect(Ok(())).unwrap();
    assert_eq!(s.connection, ConnectionState::Disconnected);
    assert!(s.welcome_message.is_none());
    assert_eq!(s.plan_disconnect(), Err(ControllerError::NotConnected));
}

#[test]
fn connect_failure_sets_error_state() {
    let mut s = ControllerState::new();
    s.plan_connect("/dev/x", 115200).unwrap();
    let r = s.finish_connect("/dev/x", 115200, Err(WorkerError::OpenFailed("no such port".into())));
    assert_eq!(r, Err(ControllerError::Serial("no such port".into())));
    assert_eq!(s.connection, ConnectionState::Error("Failed to open port: no such port".into()));
    assert_eq!(s.last_error.as_deref(), Some("Failed to open port: no such port"));
}

#[test]
fn jog_needs_idle_or_jog() {
    let mut s = connected();
    let call = s.plan_jog(Some(10_000), None, None, 1_000_000, true).unwrap();
    assert_eq!(
        call,
        WorkerCall::Command {
            text: "$J=G91 X10.000 F1000.000\n".into(),
            retries: 2,
            timeout_ms: 500
        }
    );
    s.status = MachineStatus::parse("<Alarm|MPos:0,0,0>").unwrap();
    assert!(matches!(
        s.plan_jog(Some(1), None, None, 1, true),
        Err(ControllerError::InvalidState(_))
    ));
    assert_eq!(
        ControllerState::new().plan_jog(Some(1), None, None, 1, true),
        Err(ControllerError::NotConnected)
    );
}

#[test]
fn home_unlock_and_realtime() {
    let mut s = connected();
    assert_eq!(
        s.plan_home(),
        Ok(WorkerCall::Command { text: "$H".into(), retries: 0, timeout_ms: 60_000 })
    );
    s.pending_alarm = Some((1, 1));
    s.alarm_id_counter = 1;
    assert_eq!(
        s.plan_unlock(),
        Ok(WorkerCall::Command { text: "$X".into(), retries: 2, timeout_ms: 500 })
    );
    assert!(s.pending_alarm.is_none());
    assert_eq!(s.plan_realtime(0x85), Ok(WorkerCall::Realtime(0x85)));
    let mut off = ControllerState::new();
    off.pending_alarm = Some((3, 1));
    assert_eq!(off.plan_unlock(), Err(ControllerError::NotConnected));
    assert!(off.pending_alarm.is_none());
}

#[test]
fn soft_reset_clears_cache() {
    let mut s = connected();
    s.apply_poll(Ok(alarm_poll(1))).unwrap();
    s.finish_soft_reset(Ok(())).unwrap();
    assert!(s.pending_alarm.is_none());
    assert!(!s.status_is_fresh);
    assert_eq!(s.status.state, MachineState::Idle);
    let r = s.finish_soft_reset(Err(WorkerError::Io("broken pipe".into())));
    assert_eq!(r, Err(ControllerError::Serial("broken pipe".into())));
    assert_eq!(s.last_error.as_deref(), Some("I/O error: broken pipe"));
}

#[test]
fn command_failures_recorded() {
    let mut s = connected();
    let r = s.finish_command(Err(WorkerError::Timeout { attempts: 3 }));
    assert_eq!(r, Err(ControllerError::Timeout(3)));
    assert_eq!(s.last_error.as_deref(), Some("Command timeout after 3 attempts"));
    assert_eq!(s.finish_command(Err(WorkerError::Alarm(7))), Err(ControllerError::Alarm(7)));
}

#[test]
fn override_bytes() {
    assert_eq!(feed_override_byte(OverrideAdjust::Reset), 0x90);
    assert_eq!(feed_override_byte(OverrideAdjust::FineMinus), 0x94);
    assert_eq!(spindle_override_byte(OverrideAdjust::CoarsePlus), 0x9A);
    assert_eq!(spindle_override_byte(OverrideAdjust::FineMinus), 0x9D);
    assert_eq!(rapid_override_byte(RapidOverride::Quarter), 0x97);
    assert_eq!(rapid_override_byte(RapidOverride::Full), 0x95);
}

#[test]
fn error_mapping_and_codes() {
    assert_eq!(ControllerError::from_worker(WorkerError::NotConnected), ControllerError::NotConnected);
    assert_eq!(
        ControllerError::from_worker(WorkerError::Cancelled),
        ControllerError::Internal("Request cancelled".into())
    );
    let e = CommandError::from_controller(ControllerError::Timeout(3));
    assert_eq!(e.code, "TIMEOUT");
    assert_eq!(e.details.as_deref(), Some("3 attempts"));
    assert_eq!(e.message, "Command timeout after 3 attempts");
    let a = CommandError::from_controller(ControllerError::Alarm(2));
    assert_eq!(a.message, "Device in alarm state (code 2)");
    assert_eq!(a.details.as_deref(), Some("code 2"));
    let n = CommandError::from_controller(ControllerError::NotConnected);
    assert_eq!((n.code.as_str(), n.details), ("NOT_CONNECTED", None));
}

#[test]
fn snapshot_copies_state() {
    let mut s = connected();
    s.apply_poll(Ok(alarm_poll(5))).unwrap();
    let snap = s.snapshot();
    assert_eq!(snap.connection, s.connection);
    assert_eq!(snap.status, s.status);
    assert_eq!(snap.pending_alarm, s.pending_alarm);
    assert_eq!(snap.last_error.as_deref(), Some("ALARM:5"));
    assert!(snap.status_is_fresh);
}
