//! Wire codec: command builders and the classifier for lines the device sends.

use vstd::prelude::*;
use crate::text::{
    chars_of, find, find_char, fixed3_text, nat_text, parse_u32, prefix_at, push_fixed3, push_nat,
    starts_with, string_of, text_is, trim, trim_range, u32_text,
};

verus! {

/// Default baud rate of GRBL controllers.
pub const DEFAULT_BAUD_RATE: u32 = 115200;

/// The baud rates offered to the user.
pub fn supported_baud_rates() -> (r: Vec<u32>)
    ensures
        r@ == seq![9600u32, 19200, 38400, 57600, 115200, 230400],
{
    let r = vec![9600u32, 19200, 38400, 57600, 115200, 230400];
    assert(r@ =~= seq![9600u32, 19200, 38400, 57600, 115200, 230400]);
    r
}

/// A line from the device, classified.
#[derive(Debug, Clone, PartialEq)]
pub enum Response {
    /// Command accepted.
    Ack,
    /// Command rejected, with the error code.
    Error(u32),
    /// Alarm, with the alarm code.
    Alarm(u32),
    /// Status report, the whole `<...>` line.
    Status(String),
    /// Feedback message: what stands between `[MSG:` and `]`.
    Message(String),
    /// Welcome banner, the whole line.
    Welcome(String),
    /// Setting `$<n>=<value>`.
    Setting(u32, String),
    /// Anything else, trimmed.
    Other(String),
}

/// [`Response`] with its text as character sequences.
pub enum ResponseModel {
    Ack,
    Error(u32),
    Alarm(u32),
    Status(Seq<char>),
    Message(Seq<char>),
    Welcome(Seq<char>),
    Setting(u32, Seq<char>),
    Other(Seq<char>),
}

impl View for Response {
    type V = ResponseModel;

    open spec fn view(&self) -> ResponseModel {
        match self {
            Response::Ack => ResponseModel::Ack,
            Response::Error(c) => ResponseModel::Error(*c),
            Response::Alarm(c) => ResponseModel::Alarm(*c),
            Response::Status(s) => ResponseModel::Status(s@),
            Response::Message(s) => ResponseModel::Message(s@),
            Response::Welcome(s) => ResponseModel::Welcome(s@),
            Response::Setting(n, s) => ResponseModel::Setting(*n, s@),
            Response::Other(s) => ResponseModel::Other(s@),
        }
    }
}

/// How a line is classified, once trimmed, in this order: exactly `ok`;
/// `error:<u32>`; `ALARM:<u32>`; wrapped in `<` `>`; `[MSG:...]`; starting
/// with `Grbl `; `$<u32>=<value>`; anything else.
pub open spec fn response_of(line: Seq<char>) -> ResponseModel {
    let t = trim(line);
    let e = t.skip("error:"@.len() as int);
    let a = t.skip("ALARM:"@.len() as int);
    let m = t.skip("[MSG:"@.len() as int);
    let st = t.skip(1);
    let eq = find(st, '=');
    if t == "ok"@ {
        ResponseModel::Ack
    } else if starts_with(t, "error:"@) && u32_text(e) is Some {
        ResponseModel::Error(u32_text(e)->0)
    } else if starts_with(t, "ALARM:"@) && u32_text(a) is Some {
        ResponseModel::Alarm(u32_text(a)->0)
    } else if t.len() > 0 && t[0] == '<' && t.last() == '>' {
        ResponseModel::Status(t)
    } else if starts_with(t, "[MSG:"@) && m.len() > 0 && m.last() == ']' {
        ResponseModel::Message(m.drop_last())
    } else if starts_with(t, "Grbl "@) {
        ResponseModel::Welcome(t)
    } else if t.len() > 0 && t[0] == '$' && eq < st.len() && u32_text(st.take(eq)) is Some {
        ResponseModel::Setting(u32_text(st.take(eq))->0, st.skip(eq + 1))
    } else {
        ResponseModel::Other(t)
    }
}

/// Classifies one line from the device. Never fails: what matches no known
/// shape comes back as `Other`.
pub fn parse_response(line: &str) -> (r: Response)
    ensures
        r@ == response_of(line@),
{
    let v = chars_of(line);
    let (lo, hi) = trim_range(&v, 0, v.len());
    assert(v@.subrange(0, v@.len() as int) =~= line@);
    let ghost t = v@.subrange(lo as int, hi as int);
    if text_is(&v, lo, hi, "ok") {
        return Response::Ack;
    }
    if prefix_at(&v, lo, hi, "error:") {
        let n = "error:".unicode_len();
        assert(t.skip(n as int) =~= v@.subrange(lo + n, hi as int));
        if let Some(c) = parse_u32(&v, lo + n, hi) {
            return Response::Error(c);
        }
    }
    if prefix_at(&v, lo, hi, "ALARM:") {
        let n = "ALARM:".unicode_len();
        assert(t.skip(n as int) =~= v@.subrange(lo + n, hi as int));
        if let Some(c) = parse_u32(&v, lo + n, hi) {
            return Response::Alarm(c);
        }
    }
    if hi > lo && v[lo] == '<' && v[hi - 1] == '>' {
        return Response::Status(string_of(&v, lo, hi));
    }
    if prefix_at(&v, lo, hi, "[MSG:") {
        let n = "[MSG:".unicode_len();
        assert(t.skip(n as int) =~= v@.subrange(lo + n, hi as int));
        if hi > lo + n && v[hi - 1] == ']' {
            assert(t.skip(n as int).drop_last() =~= v@.subrange(lo + n, hi - 1));
            return Response::Message(string_of(&v, lo + n, hi - 1));
        }
    }
    if prefix_at(&v, lo, hi, "Grbl ") {
        return Response::Welcome(string_of(&v, lo, hi));
    }
    if hi > lo && v[lo] == '$' {
        let eq = find_char(&v, lo + 1, hi, '=');
        assert(t.skip(1) =~= v@.subrange(lo + 1, hi as int));
        if eq < hi {
            assert(t.skip(1).take(eq - lo - 1) =~= v@.subrange(lo + 1, eq as int));
            assert(t.skip(1).skip(eq - lo) =~= v@.subrange(eq + 1, hi as int));
            if let Some(n) = parse_u32(&v, lo + 1, eq) {
                return Response::Setting(n, string_of(&v, eq + 1, hi));
            }
        }
    }
    Response::Other(string_of(&v, lo, hi))
}

/// ` <axis><value>` for a given axis, nothing for an omitted one.
pub open spec fn axis_text(axis: char, v: Option<i64>) -> Seq<char> {
    match v {
        Some(d) => seq![' ', axis] + fixed3_text(d as int),
        None => Seq::<char>::empty(),
    }
}

/// A jog line: `$J=`, `G91` (incremental) or `G90` (absolute), each given
/// axis in X, Y, Z order, the feed, and a newline. Values are thousandths
/// and print with three decimals.
pub open spec fn jog_text(
    x: Option<i64>,
    y: Option<i64>,
    z: Option<i64>,
    feed: i64,
    incremental: bool,
) -> Seq<char> {
    "$J="@ + (if incremental {
        "G91"@
    } else {
        "G90"@
    }) + axis_text('X', x) + axis_text('Y', y) + axis_text('Z', z) + " F"@ + fixed3_text(
        feed as int,
    ) + "\n"@
}

fn push_axis(out: &mut String, axis: char, v: Option<i64>)
    ensures
        final(out)@ == old(out)@ + axis_text(axis, v),
{
    if let Some(d) = v {
        crate::text::push_char(out, ' ');
        crate::text::push_char(out, axis);
        push_fixed3(out, d);
        assert(final(out)@ =~= old(out)@ + axis_text(axis, v));
    } else {
        assert(final(out)@ =~= old(out)@ + axis_text(axis, v));
    }
}

/// Builds a jog command. Axis values and feed are in thousandths of a unit.
pub fn build_jog_command(
    x: Option<i64>,
    y: Option<i64>,
    z: Option<i64>,
    feed: i64,
    incremental: bool,
) -> (r: String)
    ensures
        r@ == jog_text(x, y, z, feed, incremental),
{
    let mut cmd = String::from_str("$J=");
    if incremental {
        cmd.append("G91");
    } else {
        cmd.append("G90");
    }
    push_axis(&mut cmd, 'X', x);
    push_axis(&mut cmd, 'Y', y);
    push_axis(&mut cmd, 'Z', z);
    cmd.append(" F");
    push_fixed3(&mut cmd, feed);
    cmd.append("\n");
    assert(cmd@ =~= jog_text(x, y, z, feed, incremental));
    cmd
}

/// Units a frame's coordinates are given in.
#[derive(Debug, Clone, Copy, PartialEq, Eq, Structural)]
pub enum Units {
    Millimeters,
    Inches,
}

/// `<cmd> X<x> Y<y>` and a newline.
pub open spec fn move_text(cmd: Seq<char>, x: i64, y: i64) -> Seq<char> {
    cmd + " X"@ + fixed3_text(x as int) + " Y"@ + fixed3_text(y as int) + "\n"@
}

/// The lines that trace the rectangle `[x0, x1] x [y0, y1]`, in order:
/// absolute mode with the units, a rapid move to the start corner `(x0, y0)`,
/// laser on in dynamic mode at `power` with the feed, four feed moves round
/// the perimeter back to the start corner, and the laser off.
pub open spec fn frame_lines(
    x0: i64,
    x1: i64,
    y0: i64,
    y1: i64,
    feed: i64,
    power: u32,
    units: Units,
) -> Seq<Seq<char>> {
    seq![
        "G90 "@ + (if units == Units::Inches {
            "G20"@
        } else {
            "G21"@
        }) + "\n"@,
        move_text("G0"@, x0, y0),
        "M4 S"@ + nat_text(power as nat) + " F"@ + fixed3_text(feed as int) + "\n"@,
        move_text("G1"@, x1, y0),
        move_text("G1"@, x1, y1),
        move_text("G1"@, x0, y1),
        move_text("G1"@, x0, y0),
        "M5 S0\n"@,
    ]
}

pub open spec fn min_i64(a: i64, b: i64) -> i64 {
    if a <= b {
        a
    } else {
        b
    }
}

pub open spec fn max_i64(a: i64, b: i64) -> i64 {
    if a <= b {
        b
    } else {
        a
    }
}

/// The frame lines for bounds given in either order.
pub open spec fn frame_lines_for(
    x_min: i64,
    x_max: i64,
    y_min: i64,
    y_max: i64,
    feed: i64,
    power: u32,
    units: Units,
) -> Seq<Seq<char>> {
    frame_lines(
        min_i64(x_min, x_max),
        max_i64(x_min, x_max),
        min_i64(y_min, y_max),
        max_i64(y_min, y_max),
        feed,
        power,
        units,
    )
}

/// The lines joined into one text.
pub open spec fn joined(lines: Seq<Seq<char>>) -> Seq<char>
    decreases lines.len(),
{
    if lines.len() == 0 {
        Seq::<char>::empty()
    } else {
        joined(lines.drop_last()) + lines.last()
    }
}

fn move_line(cmd: &str, x: i64, y: i64) -> (r: String)
    ensures
        r@ == move_text(cmd@, x, y),
{
    let mut s = String::from_str(cmd);
    s.append(" X");
    push_fixed3(&mut s, x);
    s.append(" Y");
    push_fixed3(&mut s, y);
    s.append("\n");
    assert(s@ =~= move_text(cmd@, x, y));
    s
}

/// The frame trace as separate lines, each ending in a newline. Bounds may
/// come in either order: the trace always starts at the lower corner.
pub fn build_frame_lines(
    x_min: i64,
    x_max: i64,
    y_min: i64,
    y_max: i64,
    feed: i64,
    power: u32,
    units: Units,
) -> (r: Vec<String>)
    ensures
        r@.len() == 8,
        forall|i: int|
            0 <= i < 8 ==> (#[trigger] r@[i])@ == frame_lines_for(
                x_min,
                x_max,
                y_min,
                y_max,
                feed,
                power,
                units,
            )[i],
{
    let (x0, x1) = if x_min <= x_max {
        (x_min, x_max)
    } else {
        (x_max, x_min)
    };
    let (y0, y1) = if y_min <= y_max {
        (y_min, y_max)
    } else {
        (y_max, y_min)
    };
    let ghost l = frame_lines_for(x_min, x_max, y_min, y_max, feed, power, units);
    assert(l == frame_lines(x0, x1, y0, y1, feed, power, units));
    let mut first = String::from_str("G90 ");
    match units {
        Units::Inches => first.append("G20"),
        Units::Millimeters => first.append("G21"),
    }
    first.append("\n");
    let mut laser = String::from_str("M4 S");
    push_nat(&mut laser, power as u64);
    laser.append(" F");
    push_fixed3(&mut laser, feed);
    laser.append("\n");
    let mut r: Vec<String> = Vec::new();
    r.push(first);
    r.push(move_line("G0", x0, y0));
    r.push(laser);
    r.push(move_line("G1", x1, y0));
    r.push(move_line("G1", x1, y1));
    r.push(move_line("G1", x0, y1));
    r.push(move_line("G1", x0, y0));
    r.push(String::from_str("M5 S0\n"));
    assert(r@[0]@ =~= l[0]);
    assert(r@[2]@ =~= l[2]);
    r
}

/// The frame trace as one multi-line text: the lines of
/// [`build_frame_lines`] joined.
pub fn build_frame_gcode(
    x_min: i64,
    x_max: i64,
    y_min: i64,
    y_max: i64,
    feed: i64,
    power: u32,
    units: Units,
) -> (r: String)
    ensures
        r@ == joined(frame_lines_for(x_min, x_max, y_min, y_max, feed, power, units)),
{
    let lines = build_frame_lines(x_min, x_max, y_min, y_max, feed, power, units);
    let ghost l = frame_lines_for(x_min, x_max, y_min, y_max, feed, power, units);
    let mut out = String::new();
    let mut i: usize = 0;
    while i < lines.len()
        invariant
            lines@.len() == 8,
            l.len() == 8,
            forall|k: int| 0 <= k < 8 ==> (#[trigger] lines@[k])@ == l[k],
            i <= 8,
            out@ == joined(l.take(i as int)),
        decreases 8 - i,
    {
        out.append(lines[i].as_str());
        assert(l.take(i + 1).drop_last() =~= l.take(i as int));
        i = i + 1;
    }
    assert(l.take(8) =~= l);
    out
}

/// The trace does not depend on the order in which either pair of bounds is
/// given: swapping `x_min` with `x_max`, or `y_min` with `y_max`, yields the
/// same text.
pub proof fn lemma_frame_bounds_order(
    x_min: i64,
    x_max: i64,
    y_min: i64,
    y_max: i64,
    feed: i64,
    power: u32,
    units: Units,
)
    ensures
        joined(frame_lines_for(x_min, x_max, y_min, y_max, feed, power, units)) == joined(
            frame_lines_for(x_max, x_min, y_min, y_max, feed, power, units),
        ),
        joined(frame_lines_for(x_min, x_max, y_min, y_max, feed, power, units)) == joined(
            frame_lines_for(x_min, x_max, y_max, y_min, feed, power, units),
        ),
        frame_lines_for(x_min, x_max, y_min, y_max, feed, power, units) == frame_lines(
            min_i64(x_min, x_max),
            max_i64(x_min, x_max),
            min_i64(y_min, y_max),
            max_i64(y_min, y_max),
            feed,
            power,
            units,
        ),
{
    assert(min_i64(x_min, x_max) == min_i64(x_max, x_min));
    assert(max_i64(x_min, x_max) == max_i64(x_max, x_min));
    assert(min_i64(y_min, y_max) == min_i64(y_max, y_min));
    assert(max_i64(y_min, y_max) == max_i64(y_max, y_min));
}

/// Every line that, once trimmed, is wrapped in `<` and `>` is a status report.
pub proof fn lemma_bracketed_is_status(line: Seq<char>)
    requires
        trim(line).len() > 0,
        trim(line)[0] == '<',
        trim(line).last() == '>',
    ensures
        response_of(line) == ResponseModel::Status(trim(line)),
{
    let t = trim(line);
    reveal_strlit("ok");
    reveal_strlit("error:");
    reveal_strlit("ALARM:");
    assert(t != "ok"@) by {
        assert(t[0] != "ok"@[0]);
    }
    assert(!starts_with(t, "error:"@)) by {
        if starts_with(t, "error:"@) {
            assert(t.take(6)[0] == t[0]);
        }
    }
    assert(!starts_with(t, "ALARM:"@)) by {
        if starts_with(t, "ALARM:"@) {
            assert(t.take(6)[0] == t[0]);
        }
    }
}

/// `error:` or `ALARM:` followed by anything that is not a `u32` is no error
/// and no alarm: the trimmed line comes back as `Other`.
pub proof fn lemma_bad_code_is_other(line: Seq<char>)
    requires
        starts_with(trim(line), "error:"@) || starts_with(trim(line), "ALARM:"@),
        u32_text(trim(line).skip(6)) is None,
    ensures
        response_of(line) == ResponseModel::Other(trim(line)),
{
    let t = trim(line);
    reveal_strlit("ok");
    reveal_strlit("error:");
    reveal_strlit("ALARM:");
    reveal_strlit("[MSG:");
    reveal_strlit("Grbl ");
    assert(t.take(6)[0] == t[0]);
    assert(t != "ok"@) by {
        if t == "ok"@ {
            assert(t.len() == 2);
        }
    }
    if starts_with(t, "error:"@) {
        assert(t[0] == 'e');
        assert(!starts_with(t, "ALARM:"@));
    } else {
        assert(t[0] == 'A');
    }
    assert(!starts_with(t, "[MSG:"@)) by {
        if starts_with(t, "[MSG:"@) {
            assert(t.take(5)[0] == t[0]);
        }
    }
    assert(!starts_with(t, "Grbl "@)) by {
        if starts_with(t, "Grbl "@) {
            assert(t.take(5)[0] == t[0]);
        }
    }
}

} // verus!
