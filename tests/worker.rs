use dl44::status::MachineState;
use dl44::worker::{
    command_reply, framed_command, reply_wait_ms, welcome_banner, CommandExchange, CommandStep,
    StatusQueryResult, WorkerError,
};

#[test]
fn silent_device_gets_retries_plus_one_writes() {
    let mut ex = CommandExchange::new(2);
    let mut writes = 1;
    let outcome = loop {
        match ex.on_timeout() {
            CommandStep::Transmit => writes += 1,
            CommandStep::Finished(r) => break r,
        }
    };
    assert_eq!(writes, 3);
    assert_eq!(outcome, Err(WorkerError::Timeout { attempts: 3 }));
}

#[test]
fn no_retries_means_one_write() {
    let mut ex = CommandExchange::new(0);
    assert_eq!(
        ex.on_timeout(),
        CommandStep::Finished(Err(WorkerError::Timeout { attempts: 1 }))
    );
}

#[test]
fn command_replies() {
    assert_eq!(command_reply("ok"), Some(Ok(())));
    assert_eq!(command_reply("error:9"), Some(Err(WorkerError::GrblError(9))));
    assert_eq!(command_reply("ALARM:2"), Some(Err(WorkerError::Alarm(2))));
    assert_eq!(command_reply("<Idle|MPos:0,0,0>"), None);
    assert_eq!(command_reply("[MSG:hi]"), None);
}

#[test]
fn poll_keeps_alarm_and_error_until_report() {
    let mut q = StatusQueryResult::empty();
    assert!(!q.take_line("ALARM:3"));
    assert!(!q.take_line("error:5"));
    assert!(!q.take_line("[MSG:Reset to continue]"));
    assert!(!q.take_line("<bad"));
    assert!(q.take_line("<Alarm|MPos:1,2,3>"));
    assert_eq!(q.alarm, Some(3));
    assert_eq!(q.error, Some(5));
    assert!(q.is_fresh);
    assert_eq!(q.status.unwrap().state, MachineState::Alarm);
}

#[test]
fn poll_timeout_is_stale() {
    let q = StatusQueryResult::empty();
    assert!(q.status.is_none() && !q.is_fresh && q.alarm.is_none() && q.error.is_none());
}

#[test]
fn banner_and_framing() {
    assert_eq!(welcome_banner("Grbl 1.1f ['$' for help]\r"), Some("Grbl 1.1f ['$' for help]".to_string()));
    assert_eq!(welcome_banner("ok"), None);
    assert_eq!(framed_command("$H"), "$H\n");
    assert_eq!(framed_command("G0 X1\n"), "G0 X1\n");
    assert_eq!(framed_command(""), "\n");
}

#[test]
fn reply_wait_covers_all_attempts() {
    assert_eq!(reply_wait_ms(500, 2), 6500);
    assert_eq!(reply_wait_ms(60_000, 0), 65_000);
    assert_eq!(reply_wait_ms(u64::MAX / 2, 2), u64::MAX);
}

#[test]
fn worker_error_messages() {
    assert_eq!(
        WorkerError::Timeout { attempts: 3 }.message(),
        "Command timeout after 3 attempts"
    );
    assert_eq!(WorkerError::GrblError(20).message(), "GRBL error code 20");
    assert_eq!(WorkerError::OpenFailed("busy".into()).message(), "Failed to open port: busy");
    assert_eq!(WorkerError::WorkerDead.message(), "Worker thread not responding");
}
