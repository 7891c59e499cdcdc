use dl44::status::{parse_accessories, parse_state, MachineState, MachineStatus, Position};

/// A length in thousandths of a unit, as the library holds it.
fn milli(v: f64) -> i64 {
    (v * 1000.0).round() as i64
}

#[test]
fn test_parse_idle_status() {
    let status = MachineStatus::parse("<Idle|MPos:0.000,0.000,0.000|FS:0,0>").unwrap();
    assert_eq!(status.state, MachineState::Idle);
    assert_eq!(status.machine_pos.x, milli(0.0));
    assert_eq!(status.feed_rate, Some(milli(0.0)));
}

#[test]
fn test_parse_run_status() {
    let status =
        MachineStatus::parse("<Run|MPos:10.500,20.300,0.000|FS:1000,255|Ov:100,100,100>")
            .unwrap();
    assert_eq!(status.state, MachineState::Run);
    assert_eq!(status.machine_pos.x, milli(10.5));
    assert_eq!(status.feed_rate, Some(milli(1000.0)));
    assert_eq!(status.spindle_speed, Some(milli(255.0)));
    assert!(status.overrides.is_some());
}

#[test]
fn test_parse_with_wco() {
    let status =
        MachineStatus::parse("<Idle|MPos:100.000,50.000,0.000|WCO:10.000,5.000,0.000>").unwrap();
    let work = status.work_pos.unwrap();
    assert_eq!(work.x, milli(90.0));
    assert_eq!(work.y, milli(45.0));
}

#[test]
fn test_machine_state_parsing() {
    assert_eq!("Idle".parse::<MachineState>().unwrap(), MachineState::Idle);
    assert_eq!(
        "Hold:0".parse::<MachineState>().unwrap(),
        MachineState::Hold
    );
    assert_eq!(
        "Door:1".parse::<MachineState>().unwrap(),
        MachineState::Door
    );
}

#[test]
fn idle_status_fields() {
    let s = MachineStatus::parse("<Idle|MPos:0.000,0.000,0.000|FS:0,0>").unwrap();
    assert_eq!(s.machine_pos, Position::new(0, 0, 0));
    assert_eq!(s.spindle_speed, Some(0));
    assert_eq!(s.work_pos, None);
}

#[test]
fn work_position_derived_from_offset() {
    let s = MachineStatus::parse("<Idle|MPos:100.000,50.000,0.000|WCO:10.000,5.000,0.000>")
        .unwrap();
    assert_eq!(s.work_pos, Some(Position::new(90_000, 45_000, 0)));
    assert_eq!(s.work_offset, Some(Position::new(10_000, 5_000, 0)));
    let r = MachineStatus::parse("<Idle|MPos:1,1,1|WPos:7,7,7|WCO:1,1,1>").unwrap();
    assert_eq!(r.work_pos, Some(Position::new(7_000, 7_000, 7_000)));
}

#[test]
fn status_permissive_fields() {
    let s = MachineStatus::parse(
        "<Hold:0|MPos:x,1,2|FS:abc|Ov:90,,120|Pn:XYZ|A:SFM|Bf:15,128|Ln:42|Zz:1|junk>",
    )
    .unwrap();
    assert_eq!(s.state, MachineState::Hold);
    assert_eq!(s.machine_pos, Position::new(0, 0, 0));
    assert_eq!(s.feed_rate, None);
    let ov = s.overrides.unwrap();
    assert_eq!((ov.feed, ov.rapid, ov.spindle), (90, 100, 120));
    assert_eq!(s.input_pins.as_deref(), Some("XYZ"));
    let a = s.accessories.unwrap();
    assert!(a.spindle_cw && !a.spindle_ccw && a.flood_coolant && a.mist_coolant);
    assert_eq!(s.buffer, Some((15, 128)));
    assert_eq!(s.line_number, Some(42));
}

#[test]
fn status_unknown_state_and_rejections() {
    assert_eq!(MachineStatus::parse("<Foo>").unwrap().state, MachineState::Unknown);
    assert_eq!(MachineStatus::parse("<>").unwrap().state, MachineState::Unknown);
    assert!(MachineStatus::parse("<").is_none());
    assert!(MachineStatus::parse("Idle|MPos:0,0,0").is_none());
    assert!(MachineStatus::parse("<Idle").is_none());
}

#[test]
fn status_decimals() {
    let s = MachineStatus::parse("<Jog|MPos:-1.2345,.5,7.|F:12.5>").unwrap();
    assert_eq!(s.machine_pos, Position::new(-1_234, 500, 7_000));
    assert_eq!(s.feed_rate, Some(12_500));
    assert_eq!(s.state, MachineState::Jog);
}

#[test]
fn state_names() {
    assert_eq!(parse_state("Alarm"), MachineState::Alarm);
    assert_eq!(parse_state("Sleep"), MachineState::Sleep);
    assert_eq!(parse_state("idle"), MachineState::Unknown);
    assert_eq!(parse_state(""), MachineState::Unknown);
}

#[test]
fn position_parse() {
    assert_eq!(Position::parse("1,2,3,4"), Some(Position::new(1_000, 2_000, 3_000)));
    assert_eq!(Position::parse("1,2"), None);
    assert_eq!(Position::parse("1,2,."), None);
}

#[test]
fn accessories_by_letter() {
    let a = parse_accessories("CM");
    assert!(!a.spindle_cw && a.spindle_ccw && !a.flood_coolant && a.mist_coolant);
}
