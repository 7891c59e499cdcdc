//! Telemetry model: one bracketed status report parsed into a snapshot.
//!
//! Report shape: `<State|MPos:x,y,z|WPos:x,y,z|FS:f,s|Ov:f,r,s|...>`.
//! Lengths, feeds and speeds are held in thousandths of a unit.

use vstd::prelude::*;
use crate::text::{
    chars_of, find, find_char, milli_text, parse_milli, parse_u32, split, split_ranges, text_is,
    u32_text, string_of, MAX_WHOLE,
};

verus! {

/// Operating state reported by the device.
#[derive(Debug, Clone, Copy, PartialEq, Eq, Structural)]
pub enum MachineState {
    /// Stationary and ready.
    Idle,
    /// Running a program.
    Run,
    /// Feed hold active (paused).
    Hold,
    /// Jogging.
    Jog,
    /// Alarm: needs an unlock or a reset.
    Alarm,
    /// Safety door open.
    Door,
    /// Check (dry run) mode.
    Check,
    /// Homing cycle in progress.
    Home,
    /// Sleeping.
    Sleep,
    /// A state name this library does not know.
    Unknown,
}

impl Default for MachineState {
    fn default() -> (r: Self)
        ensures
            r == MachineState::Idle,
    {
        MachineState::Idle
    }
}

/// The state that a state field names; a sub-state after `:` is ignored.
pub open spec fn state_of(field: Seq<char>) -> MachineState {
    let name = field.take(find(field, ':'));
    if name == "Idle"@ {
        MachineState::Idle
    } else if name == "Run"@ {
        MachineState::Run
    } else if name == "Hold"@ {
        MachineState::Hold
    } else if name == "Jog"@ {
        MachineState::Jog
    } else if name == "Alarm"@ {
        MachineState::Alarm
    } else if name == "Door"@ {
        MachineState::Door
    } else if name == "Check"@ {
        MachineState::Check
    } else if name == "Home"@ {
        MachineState::Home
    } else if name == "Sleep"@ {
        MachineState::Sleep
    } else {
        MachineState::Unknown
    }
}

fn state_in(v: &Vec<char>, lo: usize, hi: usize) -> (r: MachineState)
    requires
        lo <= hi <= v@.len(),
    ensures
        r == state_of(v@.subrange(lo as int, hi as int)),
{
    let c = find_char(v, lo, hi, ':');
    assert(v@.subrange(lo as int, hi as int).take(c - lo) =~= v@.subrange(lo as int, c as int));
    if text_is(v, lo, c, "Idle") {
        MachineState::Idle
    } else if text_is(v, lo, c, "Run") {
        MachineState::Run
    } else if text_is(v, lo, c, "Hold") {
        MachineState::Hold
    } else if text_is(v, lo, c, "Jog") {
        MachineState::Jog
    } else if text_is(v, lo, c, "Alarm") {
        MachineState::Alarm
    } else if text_is(v, lo, c, "Door") {
        MachineState::Door
    } else if text_is(v, lo, c, "Check") {
        MachineState::Check
    } else if text_is(v, lo, c, "Home") {
        MachineState::Home
    } else if text_is(v, lo, c, "Sleep") {
        MachineState::Sleep
    } else {
        MachineState::Unknown
    }
}

/// Reads a state name such as `Idle` or `Hold:0`. Never fails: an unknown
/// name gives `Unknown`.
pub fn parse_state(s: &str) -> (r: MachineState)
    ensures
        r == state_of(s@),
{
    let v = chars_of(s);
    assert(v@.subrange(0, v@.len() as int) =~= s@);
    state_in(&v, 0, v.len())
}

impl core::str::FromStr for MachineState {
    type Err = ();

    fn from_str(s: &str) -> Result<Self, Self::Err> {
        Ok(parse_state(s))
    }
}

/// A point (X, Y, Z), each in thousandths of a unit.
#[derive(Debug, Clone, Copy, PartialEq, Eq, Structural)]
pub struct Position {
    pub x: i64,
    pub y: i64,
    pub z: i64,
}

pub open spec fn origin() -> Position {
    Position { x: 0, y: 0, z: 0 }
}

/// `x,y,z`: the first three comma-separated decimals; more fields are ignored.
pub open spec fn position_text(s: Seq<char>) -> Option<Position> {
    let p = split(s, ',');
    if p.len() >= 3 && milli_text(p[0]) is Some && milli_text(p[1]) is Some && milli_text(
        p[2],
    ) is Some {
        Some(
            Position {
                x: milli_text(p[0])->0,
                y: milli_text(p[1])->0,
                z: milli_text(p[2])->0,
            },
        )
    } else {
        None
    }
}

impl Default for Position {
    fn default() -> (r: Self)
        ensures
            r == origin(),
    {
        Position { x: 0, y: 0, z: 0 }
    }
}

fn position_in(v: &Vec<char>, lo: usize, hi: usize) -> (r: Option<Position>)
    requires
        lo <= hi <= v@.len(),
    ensures
        r == position_text(v@.subrange(lo as int, hi as int)),
{
    let p = split_ranges(v, lo, hi, ',');
    if p.len() < 3 {
        return None;
    }
    let x = parse_milli(v, p[0].0, p[0].1);
    let y = parse_milli(v, p[1].0, p[1].1);
    let z = parse_milli(v, p[2].0, p[2].1);
    match (x, y, z) {
        (Some(x), Some(y), Some(z)) => Some(Position { x, y, z }),
        _ => None,
    }
}

impl Position {
    pub fn new(x: i64, y: i64, z: i64) -> (r: Self)
        ensures
            r == (Position { x, y, z }),
    {
        Position { x, y, z }
    }

    /// Reads `x,y,z`; `None` when fewer than three fields are there or one of
    /// the first three is not a decimal.
    pub fn parse(s: &str) -> (r: Option<Self>)
        ensures
            r == position_text(s@),
    {
        let v = chars_of(s);
        assert(v@.subrange(0, v@.len() as int) =~= s@);
        position_in(&v, 0, v.len())
    }
}

/// Override percentages (100 is normal).
#[derive(Debug, Clone, Copy, PartialEq, Eq, Structural)]
pub struct Overrides {
    pub feed: u32,
    pub rapid: u32,
    pub spindle: u32,
}

/// Accessory flags.
#[derive(Debug, Clone, Copy, PartialEq, Eq, Structural)]
pub struct Accessories {
    pub spindle_cw: bool,
    pub spindle_ccw: bool,
    pub flood_coolant: bool,
    pub mist_coolant: bool,
}

pub open spec fn has_char(s: Seq<char>, c: char) -> bool {
    find(s, c) < s.len()
}

/// Each flag is set when its letter occurs anywhere: `S` spindle clockwise,
/// `C` counter-clockwise, `F` flood, `M` mist.
pub open spec fn accessories_of(s: Seq<char>) -> Accessories {
    Accessories {
        spindle_cw: has_char(s, 'S'),
        spindle_ccw: has_char(s, 'C'),
        flood_coolant: has_char(s, 'F'),
        mist_coolant: has_char(s, 'M'),
    }
}

fn accessories_in(v: &Vec<char>, lo: usize, hi: usize) -> (r: Accessories)
    requires
        lo <= hi <= v@.len(),
    ensures
        r == accessories_of(v@.subrange(lo as int, hi as int)),
{
    Accessories {
        spindle_cw: find_char(v, lo, hi, 'S') < hi,
        spindle_ccw: find_char(v, lo, hi, 'C') < hi,
        flood_coolant: find_char(v, lo, hi, 'F') < hi,
        mist_coolant: find_char(v, lo, hi, 'M') < hi,
    }
}

/// Reads the accessory letters of an `A:` field.
pub fn parse_accessories(s: &str) -> (r: Accessories)
    ensures
        r == accessories_of(s@),
{
    let v = chars_of(s);
    assert(v@.subrange(0, v@.len() as int) =~= s@);
    accessories_in(&v, 0, v.len())
}

/// A status snapshot.
#[derive(Debug, Clone, PartialEq)]
pub struct MachineStatus {
    pub state: MachineState,
    /// Machine (absolute) position.
    pub machine_pos: Position,
    /// Work position, reported or derived from the work offset.
    pub work_pos: Option<Position>,
    /// Work coordinate offset.
    pub work_offset: Option<Position>,
    /// Feed rate, thousandths of a unit per minute.
    pub feed_rate: Option<i64>,
    /// Spindle speed or laser power, in thousandths.
    pub spindle_speed: Option<i64>,
    pub overrides: Option<Overrides>,
    /// Input pin letters as reported.
    pub input_pins: Option<String>,
    pub accessories: Option<Accessories>,
    /// (planner blocks available, receive buffer bytes available).
    pub buffer: Option<(u32, u32)>,
    /// Line number being executed.
    pub line_number: Option<u32>,
}

/// [`MachineStatus`] with its text as a character sequence.
pub struct StatusModel {
    pub state: MachineState,
    pub machine_pos: Position,
    pub work_pos: Option<Position>,
    pub work_offset: Option<Position>,
    pub feed_rate: Option<i64>,
    pub spindle_speed: Option<i64>,
    pub overrides: Option<Overrides>,
    pub input_pins: Option<Seq<char>>,
    pub accessories: Option<Accessories>,
    pub buffer: Option<(u32, u32)>,
    pub line_number: Option<u32>,
}

impl View for MachineStatus {
    type V = StatusModel;

    open spec fn view(&self) -> StatusModel {
        StatusModel {
            state: self.state,
            machine_pos: self.machine_pos,
            work_pos: self.work_pos,
            work_offset: self.work_offset,
            feed_rate: self.feed_rate,
            spindle_speed: self.spindle_speed,
            overrides: self.overrides,
            input_pins: match self.input_pins {
                Some(s) => Some(s@),
                None => None,
            },
            accessories: self.accessories,
            buffer: self.buffer,
            line_number: self.line_number,
        }
    }
}

/// The snapshot before any report: `Idle` at the origin, nothing else known.
pub open spec fn blank_status(state: MachineState) -> StatusModel {
    StatusModel {
        state,
        machine_pos: origin(),
        work_pos: None,
        work_offset: None,
        feed_rate: None,
        spindle_speed: None,
        overrides: None,
        input_pins: None,
        accessories: None,
        buffer: None,
        line_number: None,
    }
}

pub open spec fn u32_or_100(s: Seq<char>) -> u32 {
    match u32_text(s) {
        Some(n) => n,
        None => 100,
    }
}

/// The effect of one `KEY:value` field. A field without `:`, with an unknown
/// key, or with too few sub-fields changes nothing; a sub-field that does not
/// parse leaves its value unset.
pub open spec fn apply_field(st: StatusModel, part: Seq<char>) -> StatusModel {
    let c = find(part, ':');
    let key = part.take(c);
    let val = part.skip(c + 1);
    let vals = split(val, ',');
    if c >= part.len() {
        st
    } else if key == "MPos"@ {
        StatusModel {
            machine_pos: match position_text(val) {
                Some(p) => p,
                None => origin(),
            },
            ..st
        }
    } else if key == "WPos"@ {
        StatusModel { work_pos: position_text(val), ..st }
    } else if key == "WCO"@ {
        StatusModel { work_offset: position_text(val), ..st }
    } else if key == "FS"@ {
        StatusModel {
            feed_rate: milli_text(vals[0]),
            spindle_speed: if vals.len() > 1 {
                milli_text(vals[1])
            } else {
                st.spindle_speed
            },
            ..st
        }
    } else if key == "F"@ {
        StatusModel { feed_rate: milli_text(val), ..st }
    } else if key == "Ov"@ {
        if vals.len() >= 3 {
            StatusModel {
                overrides: Some(
                    Overrides {
                        feed: u32_or_100(vals[0]),
                        rapid: u32_or_100(vals[1]),
                        spindle: u32_or_100(vals[2]),
                    },
                ),
                ..st
            }
        } else {
            st
        }
    } else if key == "Pn"@ {
        StatusModel { input_pins: Some(val), ..st }
    } else if key == "A"@ {
        StatusModel { accessories: Some(accessories_of(val)), ..st }
    } else if key == "Bf"@ {
        if vals.len() >= 2 && u32_text(vals[0]) is Some && u32_text(vals[1]) is Some {
            StatusModel { buffer: Some((u32_text(vals[0])->0, u32_text(vals[1])->0)), ..st }
        } else {
            st
        }
    } else if key == "Ln"@ {
        StatusModel { line_number: u32_text(val), ..st }
    } else {
        st
    }
}

/// The fields applied one after another, first to last.
pub open spec fn apply_fields(st: StatusModel, parts: Seq<Seq<char>>) -> StatusModel
    decreases parts.len(),
{
    if parts.len() == 0 {
        st
    } else {
        apply_fields(apply_field(st, parts[0]), parts.drop_first())
    }
}

/// Work position filled in as machine position minus work offset, when it
/// was not reported and the offset was.
pub open spec fn with_work_pos(st: StatusModel) -> StatusModel {
    match (st.work_pos, st.work_offset) {
        (None, Some(w)) => StatusModel {
            work_pos: Some(
                Position {
                    x: (st.machine_pos.x - w.x) as i64,
                    y: (st.machine_pos.y - w.y) as i64,
                    z: (st.machine_pos.z - w.z) as i64,
                },
            ),
            ..st
        },
        _ => st,
    }
}

/// A whole report: `<`, then `|`-separated fields, then `>`. The first field
/// is the state; the others are applied in order.
pub open spec fn status_text(report: Seq<char>) -> Option<StatusModel> {
    if report.len() >= 2 && report[0] == '<' && report.last() == '>' {
        let parts = split(report.subrange(1, report.len() - 1), '|');
        Some(
            with_work_pos(apply_fields(blank_status(state_of(parts[0])), parts.drop_first())),
        )
    } else {
        None
    }
}

pub open spec fn status_view(o: Option<MachineStatus>) -> Option<StatusModel> {
    match o {
        Some(m) => Some(m@),
        None => None,
    }
}

/// Largest magnitude a parsed decimal can have, in thousandths.
pub open spec fn milli_bound() -> int {
    MAX_WHOLE * 1000 + 999
}

pub open spec fn small(p: Position) -> bool {
    -milli_bound() <= p.x <= milli_bound() && -milli_bound() <= p.y <= milli_bound()
        && -milli_bound() <= p.z <= milli_bound()
}

pub open spec fn positions_small(st: StatusModel) -> bool {
    small(st.machine_pos) && match st.work_offset {
        Some(w) => small(w),
        None => true,
    }
}

proof fn lemma_milli_small(s: Seq<char>)
    ensures
        milli_text(s) matches Some(v) ==> -milli_bound() <= v <= milli_bound(),
{
    let signed = s.len() > 0 && (s[0] == '-' || s[0] == '+');
    let body = if signed {
        s.drop_first()
    } else {
        s
    };
    let dot = find(body, '.');
    let whole = body.take(dot);
    let frac = if dot < body.len() {
        body.skip(dot + 1)
    } else {
        Seq::<char>::empty()
    };
    if milli_text(s) is Some {
        crate::text::lemma_digits_value_bounds(whole);
        if frac.len() > 0 {
            assert(crate::text::is_digit(frac[0]));
        }
        if frac.len() > 1 {
            assert(crate::text::is_digit(frac[1]));
        }
        if frac.len() > 2 {
            assert(crate::text::is_digit(frac[2]));
        }
    }
}

proof fn lemma_position_small(s: Seq<char>)
    ensures
        position_text(s) matches Some(p) ==> small(p),
{
    let p = split(s, ',');
    if p.len() >= 3 {
        lemma_milli_small(p[0]);
        lemma_milli_small(p[1]);
        lemma_milli_small(p[2]);
    }
}

proof fn lemma_apply_field_small(st: StatusModel, part: Seq<char>)
    requires
        positions_small(st),
    ensures
        positions_small(apply_field(st, part)),
{
    let c = find(part, ':');
    lemma_position_small(part.skip(c + 1));
}

fn field_into(st: &mut MachineStatus, v: &Vec<char>, lo: usize, hi: usize)
    requires
        lo <= hi <= v@.len(),
    ensures
        final(st)@ == apply_field(old(st)@, v@.subrange(lo as int, hi as int)),
{
    let ghost part = v@.subrange(lo as int, hi as int);
    let c = find_char(v, lo, hi, ':');
    if c >= hi {
        return;
    }
    let vlo = c + 1;
    assert(part.take(c - lo) =~= v@.subrange(lo as int, c as int));
    assert(part.skip(c - lo + 1) =~= v@.subrange(vlo as int, hi as int));
    let ghost old_st = st@;
    if text_is(v, lo, c, "MPos") {
        st.machine_pos = match position_in(v, vlo, hi) {
            Some(p) => p,
            None => Position { x: 0, y: 0, z: 0 },
        };
    } else if text_is(v, lo, c, "WPos") {
        st.work_pos = position_in(v, vlo, hi);
    } else if text_is(v, lo, c, "WCO") {
        st.work_offset = position_in(v, vlo, hi);
    } else if text_is(v, lo, c, "FS") {
        let vals = split_ranges(v, vlo, hi, ',');
        proof {
            crate::text::lemma_split_nonempty(v@.subrange(vlo as int, hi as int), ',');
        }
        st.feed_rate = parse_milli(v, vals[0].0, vals[0].1);
        if vals.len() > 1 {
            st.spindle_speed = parse_milli(v, vals[1].0, vals[1].1);
        }
    } else if text_is(v, lo, c, "F") {
        st.feed_rate = parse_milli(v, vlo, hi);
    } else if text_is(v, lo, c, "Ov") {
        let vals = split_ranges(v, vlo, hi, ',');
        if vals.len() >= 3 {
            let f = parse_u32(v, vals[0].0, vals[0].1);
            let r = parse_u32(v, vals[1].0, vals[1].1);
            let s = parse_u32(v, vals[2].0, vals[2].1);
            st.overrides = Some(
                Overrides {
                    feed: match f {
                        Some(n) => n,
                        None => 100,
                    },
                    rapid: match r {
                        Some(n) => n,
                        None => 100,
                    },
                    spindle: match s {
                        Some(n) => n,
                        None => 100,
                    },
                },
            );
        }
    } else if text_is(v, lo, c, "Pn") {
        st.input_pins = Some(string_of(v, vlo, hi));
    } else if text_is(v, lo, c, "A") {
        st.accessories = Some(accessories_in(v, vlo, hi));
    } else if text_is(v, lo, c, "Bf") {
        let vals = split_ranges(v, vlo, hi, ',');
        if vals.len() >= 2 {
            let a = parse_u32(v, vals[0].0, vals[0].1);
            let b = parse_u32(v, vals[1].0, vals[1].1);
            if let (Some(a), Some(b)) = (a, b) {
                st.buffer = Some((a, b));
            }
        }
    } else if text_is(v, lo, c, "Ln") {
        st.line_number = parse_u32(v, vlo, hi);
    }
    assert(st@ == apply_field(old_st, part));
}

impl Default for MachineStatus {
    fn default() -> (r: Self)
        ensures
            r@ == blank_status(MachineState::Idle),
    {
        MachineStatus {
            state: MachineState::Idle,
            machine_pos: Position { x: 0, y: 0, z: 0 },
            work_pos: None,
            work_offset: None,
            feed_rate: None,
            spindle_speed: None,
            overrides: None,
            input_pins: None,
            accessories: None,
            buffer: None,
            line_number: None,
        }
    }
}

impl MachineStatus {
    /// A copy with every field equal.
    pub fn copied(&self) -> (r: Self)
        ensures
            r@ == self@,
    {
        MachineStatus {
            state: self.state,
            machine_pos: self.machine_pos,
            work_pos: self.work_pos,
            work_offset: self.work_offset,
            feed_rate: self.feed_rate,
            spindle_speed: self.spindle_speed,
            overrides: self.overrides,
            input_pins: match &self.input_pins {
                Some(s) => Some(s.clone()),
                None => None,
            },
            accessories: self.accessories,
            buffer: self.buffer,
            line_number: self.line_number,
        }
    }

    /// Parses a status report. `None` when the line is not wrapped in `<` and
    /// `>`; otherwise a snapshot, whatever the fields hold: an unknown state
    /// gives `Unknown`, and a field that does not parse is left unset.
    pub fn parse(report: &str) -> (r: Option<Self>)
        ensures
            status_view(r) == status_text(report@),
    {
        let v = chars_of(report);
        let n = v.len();
        if n < 2 || v[0] != '<' || v[n - 1] != '>' {
            return None;
        }
        let parts = split_ranges(&v, 1, n - 1, '|');
        let ghost ps = split(v@.subrange(1, n - 1), '|');
        proof {
            crate::text::lemma_split_nonempty(v@.subrange(1, n - 1), '|');
        }
        let mut st = MachineStatus::default();
        st.state = state_in(&v, parts[0].0, parts[0].1);
        let ghost start = st@;
        assert(start == blank_status(state_of(ps[0])));
        let mut i: usize = 1;
        while i < parts.len()
            invariant
                1 <= i <= parts@.len(),
                parts@.len() == ps.len(),
                forall|k: int|
                    0 <= k < parts@.len() ==> (#[trigger] parts@[k]).0 <= parts@[k].1 <= n - 1
                        && v@.subrange(parts@[k].0 as int, parts@[k].1 as int) == ps[k],
                n == v@.len(),
                positions_small(st@),
                apply_fields(st@, ps.skip(i as int)) == apply_fields(start, ps.drop_first()),
            decreases parts@.len() - i,
        {
            let ghost before = st@;
            proof {
                lemma_apply_field_small(before, ps[i as int]);
                assert(ps.skip(i as int)[0] == ps[i as int]);
                assert(ps.skip(i as int).drop_first() =~= ps.skip(i + 1));
            }
            field_into(&mut st, &v, parts[i].0, parts[i].1);
            i = i + 1;
        }
        assert(ps.skip(i as int).len() == 0);
        assert(v@ == report@);
        if st.work_pos.is_none() {
            if let Some(w) = st.work_offset {
                st.work_pos = Some(
                    Position {
                        x: st.machine_pos.x - w.x,
                        y: st.machine_pos.y - w.y,
                        z: st.machine_pos.z - w.z,
                    },
                );
            }
        }
        Some(st)
    }
}

} // verus!
