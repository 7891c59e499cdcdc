use dl44::protocol::{
    build_frame_gcode, build_frame_lines, build_jog_command, parse_response, supported_baud_rates,
    Response, Units,
};

/// A length in thousandths of a unit, as the library holds it.
fn milli(v: f64) -> i64 {
    (v * 1000.0).round() as i64
}

#[test]
fn test_jog_command() {
    let cmd = build_jog_command(Some(milli(10.0)), None, None, milli(1000.0), true);
    assert_eq!(cmd, "$J=G91 X10.000 F1000.000\n");

    let cmd = build_jog_command(Some(milli(-5.0)), Some(milli(5.0)), None, milli(500.0), false);
    assert_eq!(cmd, "$J=G90 X-5.000 Y5.000 F500.000\n");
}

#[test]
fn test_parse_response() {
    assert_eq!(parse_response("ok"), Response::Ack);
    assert_eq!(parse_response("error:20"), Response::Error(20));
    assert_eq!(parse_response("ALARM:1"), Response::Alarm(1));
    assert!(matches!(
        parse_response("<Idle|MPos:0.000,0.000,0.000>"),
        Response::Status(_)
    ));
}

#[test]
fn jog_axes_omitted_exactly_when_absent() {
    let x = Some(1500);
    let y = Some(-250);
    let z = Some(3);
    let cases = [
        (None, None, None, "$J=G91 F100.000\n"),
        (x, None, None, "$J=G91 X1.500 F100.000\n"),
        (None, y, None, "$J=G91 Y-0.250 F100.000\n"),
        (None, None, z, "$J=G91 Z0.003 F100.000\n"),
        (x, y, None, "$J=G91 X1.500 Y-0.250 F100.000\n"),
        (x, None, z, "$J=G91 X1.500 Z0.003 F100.000\n"),
        (None, y, z, "$J=G91 Y-0.250 Z0.003 F100.000\n"),
        (x, y, z, "$J=G91 X1.500 Y-0.250 Z0.003 F100.000\n"),
    ];
    for (x, y, z, want) in cases {
        assert_eq!(build_jog_command(x, y, z, 100_000, true), want);
    }
}

#[test]
fn jog_extreme_values_print_exactly() {
    assert_eq!(
        build_jog_command(Some(i64::MIN), None, None, i64::MAX, false),
        "$J=G90 X-9223372036854775.808 F9223372036854775.807\n"
    );
    assert_eq!(build_jog_command(Some(0), None, None, 1, true), "$J=G91 X0.000 F0.001\n");
}

#[test]
fn parse_response_shapes() {
    assert_eq!(parse_response("  ok \r\n"), Response::Ack);
    assert_eq!(parse_response("error:abc"), Response::Other("error:abc".to_string()));
    assert_eq!(parse_response("ALARM:"), Response::Other("ALARM:".to_string()));
    assert_eq!(
        parse_response("error:99999999999"),
        Response::Other("error:99999999999".to_string())
    );
    assert_eq!(parse_response("error:+7"), Response::Error(7));
    assert_eq!(
        parse_response("<Run|MPos:1,2,3>\n"),
        Response::Status("<Run|MPos:1,2,3>".to_string())
    );
    assert_eq!(parse_response("<"), Response::Other("<".to_string()));
    assert_eq!(
        parse_response("[MSG:Caution: Unlocked]"),
        Response::Message("Caution: Unlocked".to_string())
    );
    assert_eq!(parse_response("[MSG:"), Response::Other("[MSG:".to_string()));
    assert_eq!(
        parse_response("Grbl 1.1h ['$' for help]"),
        Response::Welcome("Grbl 1.1h ['$' for help]".to_string())
    );
    assert_eq!(
        parse_response("$100=250.000"),
        Response::Setting(100, "250.000".to_string())
    );
    assert_eq!(parse_response("$N0="), Response::Other("$N0=".to_string()));
    assert_eq!(parse_response(""), Response::Other(String::new()));
    assert_eq!(parse_response("okay"), Response::Other("okay".to_string()));
}

#[test]
fn frame_gcode_exact_text() {
    let text = build_frame_gcode(0, 10_000, 0, 5_500, 1_000_000, 10, Units::Millimeters);
    assert_eq!(
        text,
        "G90 G21\nG0 X0.000 Y0.000\nM4 S10 F1000.000\nG1 X10.000 Y0.000\n\
         G1 X10.000 Y5.500\nG1 X0.000 Y5.500\nG1 X0.000 Y0.000\nM5 S0\n"
    );
    let inches = build_frame_gcode(0, 1_000, 0, 1_000, 20_000, 0, Units::Inches);
    assert!(inches.starts_with("G90 G20\n"));
}

#[test]
fn frame_gcode_same_for_swapped_bounds() {
    let a = build_frame_gcode(-2_000, 8_000, 3_000, 1_000, 500_000, 5, Units::Millimeters);
    let b = build_frame_gcode(8_000, -2_000, 3_000, 1_000, 500_000, 5, Units::Millimeters);
    let c = build_frame_gcode(-2_000, 8_000, 1_000, 3_000, 500_000, 5, Units::Millimeters);
    let d = build_frame_gcode(8_000, -2_000, 1_000, 3_000, 500_000, 5, Units::Millimeters);
    assert_eq!(a, b);
    assert_eq!(a, c);
    assert_eq!(a, d);
    assert!(a.contains("G0 X-2.000 Y1.000\n"));
}

#[test]
fn frame_lines_join_to_gcode() {
    let lines = build_frame_lines(5_000, 1_000, 0, 2_000, 300_000, 1, Units::Millimeters);
    assert_eq!(lines.len(), 8);
    assert!(lines.iter().all(|l| l.ends_with('\n') && l.len() > 1));
    let joined: String = lines.concat();
    assert_eq!(joined, build_frame_gcode(5_000, 1_000, 0, 2_000, 300_000, 1, Units::Millimeters));
}

#[test]
fn baud_rates_offered() {
    assert_eq!(supported_baud_rates(), vec![9600, 19200, 38400, 57600, 115200, 230400]);
}
