//! The controller's cached state and the decisions of each operation.
//!
//! Every operation comes in two halves around one worker request: a `plan_*`
//! method checks the cached state, may update it, and names the request to
//! make ([`WorkerCall`]); a `finish_*` method (or [`ControllerState::apply_poll`])
//! takes the worker's outcome and updates the cache. The caller holds the
//! state's lock for each half alone, never across the worker request.

use vstd::prelude::*;
use crate::protocol::{build_frame_lines, build_jog_command, frame_lines_for, jog_text, Units};
use crate::realtime;
use crate::status::{blank_status, MachineState, MachineStatus};
use crate::system;
use crate::text::nat_text;
use crate::worker::{
    worker_error_text, StatusQueryResult, WorkerError, DEFAULT_RETRIES, DEFAULT_TIMEOUT_MS,
    HOMING_TIMEOUT_MS, STATUS_TIMEOUT_MS,
};

verus! {

/// Failures reported to the user interface.
#[derive(Debug, Clone, PartialEq)]
pub enum ControllerError {
    /// The port could not be opened, read or written.
    Serial(String),
    NotConnected,
    AlreadyConnected,
    /// No reply after this many attempts.
    Timeout(u32),
    /// The device answered `error:<code>`.
    GrblError(u32),
    /// The device answered `ALARM:<code>`.
    Alarm(u32),
    /// The operation is not allowed in the current state; the reason.
    InvalidState(String),
    /// The worker failed; the reason.
    Internal(String),
}

/// How a worker failure maps to a controller failure: codes and attempt
/// counts carry over unchanged.
pub open spec fn maps_worker_error(e: WorkerError, r: ControllerError) -> bool {
    match e {
        WorkerError::OpenFailed(m) => r matches ControllerError::Serial(s) && s@ == m@,
        WorkerError::Io(m) => r matches ControllerError::Serial(s) && s@ == m@,
        WorkerError::NotConnected => r is NotConnected,
        WorkerError::Timeout { attempts } => r == ControllerError::Timeout(attempts),
        WorkerError::GrblError(c) => r == ControllerError::GrblError(c),
        WorkerError::Alarm(c) => r == ControllerError::Alarm(c),
        WorkerError::WorkerDead => r matches ControllerError::Internal(s) && s@
            == "Worker thread not responding"@,
        WorkerError::Cancelled => r matches ControllerError::Internal(s) && s@
            == "Request cancelled"@,
    }
}

/// The human-readable text of each failure.
pub open spec fn controller_error_text(e: ControllerError) -> Seq<char> {
    match e {
        ControllerError::Serial(m) => "Serial error: "@ + m@,
        ControllerError::NotConnected => "Not connected to device"@,
        ControllerError::AlreadyConnected => "Already connected"@,
        ControllerError::Timeout(n) => "Command timeout after "@ + nat_text(n as nat)
            + " attempts"@,
        ControllerError::GrblError(c) => "GRBL error code "@ + nat_text(c as nat),
        ControllerError::Alarm(c) => "Device in alarm state (code "@ + nat_text(c as nat) + ")"@,
        ControllerError::InvalidState(m) => "Invalid state for operation: "@ + m@,
        ControllerError::Internal(m) => "Internal error: "@ + m@,
    }
}

impl ControllerError {
    pub fn from_worker(e: WorkerError) -> (r: Self)
        ensures
            maps_worker_error(e, r),
    {
        match e {
            WorkerError::OpenFailed(m) => ControllerError::Serial(m),
            WorkerError::Io(m) => ControllerError::Serial(m),
            WorkerError::NotConnected => ControllerError::NotConnected,
            WorkerError::Timeout { attempts } => ControllerError::Timeout(attempts),
            WorkerError::GrblError(c) => ControllerError::GrblError(c),
            WorkerError::Alarm(c) => ControllerError::Alarm(c),
            WorkerError::WorkerDead => ControllerError::Internal(
                String::from_str("Worker thread not responding"),
            ),
            WorkerError::Cancelled => ControllerError::Internal(
                String::from_str("Request cancelled"),
            ),
        }
    }

    /// The failure as text for display.
    pub fn message(&self) -> (r: String)
        ensures
            r@ == controller_error_text(*self),
    {
        let mut s: String;
        match self {
            ControllerError::Serial(m) => {
                s = String::from_str("Serial error: ");
                s.append(m.as_str());
            },
            ControllerError::NotConnected => {
                s = String::from_str("Not connected to device");
            },
            ControllerError::AlreadyConnected => {
                s = String::from_str("Already connected");
            },
            ControllerError::Timeout(n) => {
                s = String::from_str("Command timeout after ");
                crate::text::push_nat(&mut s, *n as u64);
                s.append(" attempts");
            },
            ControllerError::GrblError(c) => {
                s = String::from_str("GRBL error code ");
                crate::text::push_nat(&mut s, *c as u64);
            },
            ControllerError::Alarm(c) => {
                s = String::from_str("Device in alarm state (code ");
                crate::text::push_nat(&mut s, *c as u64);
                s.append(")");
            },
            ControllerError::InvalidState(m) => {
                s = String::from_str("Invalid state for operation: ");
                s.append(m.as_str());
            },
            ControllerError::Internal(m) => {
                s = String::from_str("Internal error: ");
                s.append(m.as_str());
            },
        }
        s
    }
}

/// A failure as the host application receives it: the message, a stable
/// code, and the attempt count or device code where there is one.
#[derive(Debug, Clone, PartialEq)]
pub struct CommandError {
    pub message: String,
    pub code: String,
    pub details: Option<String>,
}

pub open spec fn error_code_text(e: ControllerError) -> Seq<char> {
    match e {
        ControllerError::Serial(_) => "SERIAL_ERROR"@,
        ControllerError::NotConnected => "NOT_CONNECTED"@,
        ControllerError::AlreadyConnected => "ALREADY_CONNECTED"@,
        ControllerError::Timeout(_) => "TIMEOUT"@,
        ControllerError::GrblError(_) => "GRBL_ERROR"@,
        ControllerError::Alarm(_) => "ALARM"@,
        ControllerError::InvalidState(_) => "INVALID_STATE"@,
        ControllerError::Internal(_) => "INTERNAL_ERROR"@,
    }
}

pub open spec fn error_details_text(e: ControllerError) -> Option<Seq<char>> {
    match e {
        ControllerError::Timeout(n) => Some(nat_text(n as nat) + " attempts"@),
        ControllerError::GrblError(c) => Some("code "@ + nat_text(c as nat)),
        ControllerError::Alarm(c) => Some("code "@ + nat_text(c as nat)),
        _ => None,
    }
}

impl CommandError {
    pub fn from_controller(e: ControllerError) -> (r: Self)
        ensures
            r.message@ == controller_error_text(e),
            r.code@ == error_code_text(e),
            match error_details_text(e) {
                Some(d) => r.details matches Some(s) && s@ == d,
                None => r.details is None,
            },
    {
        let message = e.message();
        let (code, details) = match e {
            ControllerError::Serial(_) => (String::from_str("SERIAL_ERROR"), None),
            ControllerError::NotConnected => (String::from_str("NOT_CONNECTED"), None),
            ControllerError::AlreadyConnected => (String::from_str("ALREADY_CONNECTED"), None),
            ControllerError::Timeout(n) => {
                let mut d = String::new();
                crate::text::push_nat(&mut d, n as u64);
                d.append(" attempts");
                (String::from_str("TIMEOUT"), Some(d))
            },
            ControllerError::GrblError(c) => {
                let mut d = String::from_str("code ");
                crate::text::push_nat(&mut d, c as u64);
                (String::from_str("GRBL_ERROR"), Some(d))
            },
            ControllerError::Alarm(c) => {
                let mut d = String::from_str("code ");
                crate::text::push_nat(&mut d, c as u64);
                (String::from_str("ALARM"), Some(d))
            },
            ControllerError::InvalidState(_) => (String::from_str("INVALID_STATE"), None),
            ControllerError::Internal(_) => (String::from_str("INTERNAL_ERROR"), None),
        };
        CommandError { message, code, details }
    }
}

/// The link to the device as the controller sees it.
#[derive(Debug, Clone, PartialEq)]
pub enum ConnectionState {
    Disconnected,
    Connecting,
    Connected { port: String, baud: u32 },
    /// The last connection attempt failed; the reason.
    Error(String),
}

impl Default for ConnectionState {
    fn default() -> (r: Self)
        ensures
            r is Disconnected,
    {
        ConnectionState::Disconnected
    }
}

impl ConnectionState {
    /// A copy with every field equal.
    pub fn copied(&self) -> (r: Self)
        ensures
            r == *self,
    {
        match self {
            ConnectionState::Disconnected => ConnectionState::Disconnected,
            ConnectionState::Connecting => ConnectionState::Connecting,
            ConnectionState::Connected { port, baud } => ConnectionState::Connected {
                port: port.clone(),
                baud: *baud,
            },
            ConnectionState::Error(m) => ConnectionState::Error(m.clone()),
        }
    }
}

fn copy_text(o: &Option<String>) -> (r: Option<String>)
    ensures
        r == *o,
{
    match o {
        Some(s) => Some(s.clone()),
        None => None,
    }
}

/// Feed and spindle override steps.
#[derive(Debug, Clone, Copy, PartialEq, Eq, Structural)]
pub enum OverrideAdjust {
    /// Back to 100%.
    Reset,
    /// +10%.
    CoarsePlus,
    /// -10%.
    CoarseMinus,
    /// +1%.
    FinePlus,
    /// -1%.
    FineMinus,
}

/// Rapid override presets.
#[derive(Debug, Clone, Copy, PartialEq, Eq, Structural)]
pub enum RapidOverride {
    /// 100%.
    Full,
    /// 50%.
    Half,
    /// 25%.
    Quarter,
}

pub open spec fn feed_override_spec(a: OverrideAdjust) -> u8 {
    match a {
        OverrideAdjust::Reset => realtime::FEED_OVR_RESET,
        OverrideAdjust::CoarsePlus => realtime::FEED_OVR_COARSE_PLUS,
        OverrideAdjust::CoarseMinus => realtime::FEED_OVR_COARSE_MINUS,
        OverrideAdjust::FinePlus => realtime::FEED_OVR_FINE_PLUS,
        OverrideAdjust::FineMinus => realtime::FEED_OVR_FINE_MINUS,
    }
}

pub open spec fn spindle_override_spec(a: OverrideAdjust) -> u8 {
    match a {
        OverrideAdjust::Reset => realtime::SPINDLE_OVR_RESET,
        OverrideAdjust::CoarsePlus => realtime::SPINDLE_OVR_COARSE_PLUS,
        OverrideAdjust::CoarseMinus => realtime::SPINDLE_OVR_COARSE_MINUS,
        OverrideAdjust::FinePlus => realtime::SPINDLE_OVR_FINE_PLUS,
        OverrideAdjust::FineMinus => realtime::SPINDLE_OVR_FINE_MINUS,
    }
}

pub open spec fn rapid_override_spec(p: RapidOverride) -> u8 {
    match p {
        RapidOverride::Full => realtime::RAPID_OVR_RESET,
        RapidOverride::Half => realtime::RAPID_OVR_HALF,
        RapidOverride::Quarter => realtime::RAPID_OVR_QUARTER,
    }
}

/// The real-time byte of a feed override step.
pub fn feed_override_byte(a: OverrideAdjust) -> (r: u8)
    ensures
        r == feed_override_spec(a),
{
    match a {
        OverrideAdjust::Reset => realtime::FEED_OVR_RESET,
        OverrideAdjust::CoarsePlus => realtime::FEED_OVR_COARSE_PLUS,
        OverrideAdjust::CoarseMinus => realtime::FEED_OVR_COARSE_MINUS,
        OverrideAdjust::FinePlus => realtime::FEED_OVR_FINE_PLUS,
        OverrideAdjust::FineMinus => realtime::FEED_OVR_FINE_MINUS,
    }
}

/// The real-time byte of a spindle override step.
pub fn spindle_override_byte(a: OverrideAdjust) -> (r: u8)
    ensures
        r == spindle_override_spec(a),
{
    match a {
        OverrideAdjust::Reset => realtime::SPINDLE_OVR_RESET,
        OverrideAdjust::CoarsePlus => realtime::SPINDLE_OVR_COARSE_PLUS,
        OverrideAdjust::CoarseMinus => realtime::SPINDLE_OVR_COARSE_MINUS,
        OverrideAdjust::FinePlus => realtime::SPINDLE_OVR_FINE_PLUS,
        OverrideAdjust::FineMinus => realtime::SPINDLE_OVR_FINE_MINUS,
    }
}

/// The real-time byte of a rapid override preset.
pub fn rapid_override_byte(p: RapidOverride) -> (r: u8)
    ensures
        r == rapid_override_spec(p),
{
    match p {
        RapidOverride::Full => realtime::RAPID_OVR_RESET,
        RapidOverride::Half => realtime::RAPID_OVR_HALF,
        RapidOverride::Quarter => realtime::RAPID_OVR_QUARTER,
    }
}

/// A request for the serial worker.
#[derive(Debug, Clone, PartialEq)]
pub enum WorkerCall {
    /// Open the port and collect the welcome banner.
    Connect { port: String, baud: u32 },
    /// Close the port.
    Disconnect,
    /// Send a line and wait for `ok`, retrying on timeout.
    Command { text: String, retries: u32, timeout_ms: u64 },
    /// Send one real-time byte.
    Realtime(u8),
    /// Poll for a status report.
    Query { timeout_ms: u64 },
}

/// A command with the default retry policy.
pub open spec fn default_command(c: WorkerCall, text: Seq<char>) -> bool {
    c matches WorkerCall::Command { text: t, retries, timeout_ms } && t@ == text && retries
        == DEFAULT_RETRIES && timeout_ms == DEFAULT_TIMEOUT_MS
}

/// Each line of a frame, in order, as a command with the default policy.
pub open spec fn frame_calls(calls: Seq<WorkerCall>, lines: Seq<Seq<char>>) -> bool {
    calls.len() == lines.len() && forall|i: int|
        0 <= i < calls.len() ==> default_command(#[trigger] calls[i], lines[i])
}

/// Snapshot of the controller's state for display.
#[derive(Debug, Clone, PartialEq)]
pub struct ControllerSnapshot {
    pub connection: ConnectionState,
    pub status: MachineStatus,
    pub welcome_message: Option<String>,
    pub last_error: Option<String>,
    /// (alarm code, id); a new id marks a new alarm occurrence.
    pub pending_alarm: Option<(u32, u64)>,
    /// Whether the last poll brought a report (`false`: stale).
    pub status_is_fresh: bool,
}

/// Everything the controller caches.
#[derive(Debug)]
pub struct ControllerState {
    pub connection: ConnectionState,
    /// Last status report received.
    pub status: MachineStatus,
    pub last_error: Option<String>,
    pub welcome_message: Option<String>,
    /// Alarm seen while polling: (code, id).
    pub pending_alarm: Option<(u32, u64)>,
    /// Last alarm id handed out.
    pub alarm_id_counter: u64,
    pub status_is_fresh: bool,
}

/// Whether a poll result clears the pending alarm: a fresh report of a state
/// other than `Alarm`.
pub open spec fn poll_clears_alarm(q: StatusQueryResult) -> bool {
    q.is_fresh && (q.status matches Some(s) && s.state != MachineState::Alarm)
}

/// The pending alarm and id counter after a poll. A reported alarm takes a
/// new id only when its code differs from the pending one.
pub open spec fn alarm_after_poll(
    pending: Option<(u32, u64)>,
    counter: u64,
    q: StatusQueryResult,
) -> (Option<(u32, u64)>, u64) {
    let p = if poll_clears_alarm(q) {
        None
    } else {
        pending
    };
    match q.alarm {
        Some(c) => if p matches Some(e) && e.0 == c {
            (p, counter)
        } else {
            (Some((c, (counter + 1) as u64)), (counter + 1) as u64)
        },
        None => (p, counter),
    }
}

/// Whether a poll result records a new alarm.
pub open spec fn poll_mints_alarm(pending: Option<(u32, u64)>, q: StatusQueryResult) -> bool {
    let p = if poll_clears_alarm(q) {
        None
    } else {
        pending
    };
    q.alarm is Some && !(p matches Some(e) && e.0 == q.alarm->0)
}

impl ControllerState {
    pub open spec fn connected(&self) -> bool {
        self.connection is Connected
    }

    /// Every alarm id was handed out by the counter: none exceeds it.
    pub open spec fn wf(&self) -> bool {
        self.pending_alarm matches Some(a) ==> a.1 <= self.alarm_id_counter
    }

    /// The state a new controller starts in.
    pub open spec fn is_initial(&self) -> bool {
        &&& self.connection is Disconnected
        &&& self.status@ == blank_status(MachineState::Idle)
        &&& self.last_error is None
        &&& self.welcome_message is None
        &&& self.pending_alarm is None
        &&& self.alarm_id_counter == 0
        &&& !self.status_is_fresh
    }

    pub fn new() -> (r: Self)
        ensures
            r.is_initial(),
    {
        ControllerState {
            connection: ConnectionState::Disconnected,
            status: MachineStatus::default(),
            last_error: None,
            welcome_message: None,
            pending_alarm: None,
            alarm_id_counter: 0,
            status_is_fresh: false,
        }
    }

    pub fn is_connected(&self) -> (r: bool)
        ensures
            r == self.connected(),
    {
        match self.connection {
            ConnectionState::Connected { .. } => true,
            _ => false,
        }
    }

    fn require_connected(&self) -> (r: Result<(), ControllerError>)
        ensures
            self.connected() ==> r is Ok,
            !self.connected() ==> (r matches Err(e) && e is NotConnected),
    {
        if self.is_connected() {
            Ok(())
        } else {
            Err(ControllerError::NotConnected)
        }
    }

    /// Records a worker failure as the last error and maps it.
    fn record(&mut self, e: WorkerError) -> (r: ControllerError)
        ensures
            maps_worker_error(e, r),
            final(self).last_error matches Some(s) && s@ == worker_error_text(e),
            final(self).connection == old(self).connection,
            final(self).status == old(self).status,
            final(self).welcome_message == old(self).welcome_message,
            final(self).pending_alarm == old(self).pending_alarm,
            final(self).alarm_id_counter == old(self).alarm_id_counter,
            final(self).status_is_fresh == old(self).status_is_fresh,
    {
        self.last_error = Some(e.message());
        ControllerError::from_worker(e)
    }

    /// Connecting: refused with `AlreadyConnected` while connected; else the
    /// state becomes `Connecting`, the last error and the pending alarm are
    /// cleared, and the worker is asked to open the port.
    pub fn plan_connect(&mut self, port: &str, baud: u32) -> (r: Result<WorkerCall, ControllerError>)
        ensures
            old(self).connected() ==> (r matches Err(e) && e is AlreadyConnected && *final(self)
                == *old(self)),
            !old(self).connected() ==> (r matches Ok(WorkerCall::Connect { port: p, baud: b })
                && p@ == port@ && b == baud),
            !old(self).connected() ==> *final(self) == (ControllerState {
                connection: ConnectionState::Connecting,
                last_error: None,
                pending_alarm: None,
                ..*old(self)
            }),
    {
        if self.is_connected() {
            return Err(ControllerError::AlreadyConnected);
        }
        self.connection = ConnectionState::Connecting;
        self.last_error = None;
        self.pending_alarm = None;
        Ok(WorkerCall::Connect { port: String::from_str(port), baud })
    }

    /// Connected on success, with the banner kept when not empty. On failure
    /// the state becomes `Error` with the failure's text, which is also the
    /// last error.
    pub fn finish_connect(
        &mut self,
        port: &str,
        baud: u32,
        outcome: Result<String, WorkerError>,
    ) -> (r: Result<(), ControllerError>)
        ensures
            final(self).status == old(self).status,
            final(self).pending_alarm == old(self).pending_alarm,
            final(self).alarm_id_counter == old(self).alarm_id_counter,
            final(self).status_is_fresh == old(self).status_is_fresh,
            match outcome {
                Ok(banner) => {
                    &&& r is Ok
                    &&& final(self).connection matches ConnectionState::Connected { port: p, baud: b }
                        && p@ == port@ && b == baud
                    &&& final(self).last_error == old(self).last_error
                    &&& final(self).welcome_message == if banner@.len() > 0 {
                        Some(banner)
                    } else {
                        old(self).welcome_message
                    }
                },
                Err(e) => {
                    &&& r matches Err(ce) && maps_worker_error(e, ce)
                    &&& final(self).connection matches ConnectionState::Error(m) && m@
                        == worker_error_text(e)
                    &&& final(self).last_error matches Some(m) && m@ == worker_error_text(e)
                    &&& final(self).welcome_message == old(self).welcome_message
                },
            },
    {
        match outcome {
            Ok(banner) => {
                self.connection = ConnectionState::Connected { port: String::from_str(port), baud };
                if banner.unicode_len() > 0 {
                    self.welcome_message = Some(banner);
                }
                Ok(())
            },
            Err(e) => {
                let msg = e.message();
                self.connection = ConnectionState::Error(msg.clone());
                self.last_error = Some(msg);
                Err(ControllerError::from_worker(e))
            },
        }
    }

    /// Disconnecting needs a connection.
    pub fn plan_disconnect(&self) -> (r: Result<WorkerCall, ControllerError>)
        ensures
            self.connected() ==> (r matches Ok(c) && c is Disconnect),
            !self.connected() ==> (r matches Err(e) && e is NotConnected),
    {
        self.require_connected()?;
        Ok(WorkerCall::Disconnect)
    }

    /// On success the connection, status, banner, pending alarm and freshness
    /// return to their defaults; a failure is recorded and returned.
    pub fn finish_disconnect(&mut self, outcome: Result<(), WorkerError>) -> (r: Result<
        (),
        ControllerError,
    >)
        ensures
            final(self).alarm_id_counter == old(self).alarm_id_counter,
            match outcome {
                Ok(()) => {
                    &&& r is Ok
                    &&& final(self).connection is Disconnected
                    &&& final(self).status@ == blank_status(MachineState::Idle)
                    &&& final(self).welcome_message is None
                    &&& final(self).pending_alarm is None
                    &&& !final(self).status_is_fresh
                    &&& final(self).last_error == old(self).last_error
                },
                Err(e) => {
                    &&& r matches Err(ce) && maps_worker_error(e, ce)
                    &&& final(self).last_error matches Some(m) && m@ == worker_error_text(e)
                    &&& final(self).connection == old(self).connection
                    &&& final(self).status == old(self).status
                    &&& final(self).welcome_message == old(self).welcome_message
                    &&& final(self).pending_alarm == old(self).pending_alarm
                    &&& final(self).status_is_fresh == old(self).status_is_fresh
                },
            },
    {
        match outcome {
            Ok(()) => {
                self.connection = ConnectionState::Disconnected;
                self.status = MachineStatus::default();
                self.welcome_message = None;
                self.pending_alarm = None;
                self.status_is_fresh = false;
                Ok(())
            },
            Err(e) => Err(self.record(e)),
        }
    }

    /// Polling needs a connection; it asks for a status report.
    pub fn plan_poll(&self) -> (r: Result<WorkerCall, ControllerError>)
        ensures
            self.connected() ==> r == Ok::<WorkerCall, ControllerError>(
                WorkerCall::Query { timeout_ms: STATUS_TIMEOUT_MS },
            ),
            !self.connected() ==> (r matches Err(e) && e is NotConnected),
    {
        self.require_connected()?;
        Ok(WorkerCall::Query { timeout_ms: STATUS_TIMEOUT_MS })
    }

    /// Takes a poll's outcome. On success: freshness follows the result; a
    /// report replaces the cached status; a fresh report of a state other
    /// than `Alarm` clears the pending alarm; an alarm whose code differs
    /// from the pending one becomes pending under a new id and is the last
    /// error (`ALARM:<code>`); an error code, if any, is the last error
    /// (`error:<code>`). Returns the cached status. On failure: the failure is
    /// recorded, freshness is lost, and the mapped failure is returned.
    pub fn apply_poll(&mut self, outcome: Result<StatusQueryResult, WorkerError>) -> (r: Result<
        MachineStatus,
        ControllerError,
    >)
        requires
            old(self).alarm_id_counter < u64::MAX,
        ensures
            old(self).wf() ==> final(self).wf(),
            old(self).alarm_id_counter <= final(self).alarm_id_counter,
            final(self).connection == old(self).connection,
            final(self).welcome_message == old(self).welcome_message,
            match outcome {
                Ok(q) => {
                    &&& r matches Ok(m) && m@ == final(self).status@
                    &&& final(self).status_is_fresh == q.is_fresh
                    &&& final(self).status == match q.status {
                        Some(s) => s,
                        None => old(self).status,
                    }
                    &&& (final(self).pending_alarm, final(self).alarm_id_counter)
                        == alarm_after_poll(old(self).pending_alarm, old(self).alarm_id_counter, q)
                    &&& match q.error {
                        Some(c) => final(self).last_error matches Some(m) && m@ == "error:"@
                            + nat_text(c as nat),
                        None => if poll_mints_alarm(old(self).pending_alarm, q) {
                            final(self).last_error matches Some(m) && m@ == "ALARM:"@ + nat_text(
                                q.alarm->0 as nat,
                            )
                        } else {
                            final(self).last_error == old(self).last_error
                        },
                    }
                },
                Err(e) => {
                    &&& r matches Err(ce) && maps_worker_error(e, ce)
                    &&& final(self).last_error matches Some(m) && m@ == worker_error_text(e)
                    &&& !final(self).status_is_fresh
                    &&& final(self).status == old(self).status
                    &&& final(self).pending_alarm == old(self).pending_alarm
                    &&& final(self).alarm_id_counter == old(self).alarm_id_counter
                },
            },
    {
        match outcome {
            Ok(q) => {
                let ghost q0 = q;
                let StatusQueryResult { status, alarm, error, is_fresh } = q;
                self.status_is_fresh = is_fresh;
                if let Some(s) = status {
                    let clears = is_fresh && s.state != MachineState::Alarm;
                    self.status = s;
                    if clears {
                        self.pending_alarm = None;
                    }
                }
                if let Some(code) = alarm {
                    let is_new = match self.pending_alarm {
                        Some((existing, _)) => existing != code,
                        None => true,
                    };
                    if is_new {
                        self.alarm_id_counter = self.alarm_id_counter + 1;
                        self.pending_alarm = Some((code, self.alarm_id_counter));
                        let mut m = String::from_str("ALARM:");
                        crate::text::push_nat(&mut m, code as u64);
                        self.last_error = Some(m);
                    }
                }
                if let Some(code) = error {
                    let mut m = String::from_str("error:");
                    crate::text::push_nat(&mut m, code as u64);
                    self.last_error = Some(m);
                }
                Ok(self.status.copied())
            },
            Err(e) => {
                let ce = self.record(e);
                self.status_is_fresh = false;
                Err(ce)
            },
        }
    }

    /// Records the failure of a sent command, if it failed.
    pub fn finish_command(&mut self, outcome: Result<(), WorkerError>) -> (r: Result<
        (),
        ControllerError,
    >)
        ensures
            final(self).connection == old(self).connection,
            final(self).status == old(self).status,
            final(self).welcome_message == old(self).welcome_message,
            final(self).pending_alarm == old(self).pending_alarm,
            final(self).alarm_id_counter == old(self).alarm_id_counter,
            final(self).status_is_fresh == old(self).status_is_fresh,
            match outcome {
                Ok(()) => r is Ok && final(self).last_error == old(self).last_error,
                Err(e) => {
                    &&& r matches Err(ce) && maps_worker_error(e, ce)
                    &&& final(self).last_error matches Some(m) && m@ == worker_error_text(e)
                },
            },
    {
        match outcome {
            Ok(()) => Ok(()),
            Err(e) => Err(self.record(e)),
        }
    }

    /// Homing needs a connection; it is sent once, never retried, with the
    /// long homing timeout.
    pub fn plan_home(&self) -> (r: Result<WorkerCall, ControllerError>)
        ensures
            self.connected() ==> (r matches Ok(WorkerCall::Command { text, retries, timeout_ms })
                && text@ == system::HOME@ && retries == 0 && timeout_ms == HOMING_TIMEOUT_MS),
            !self.connected() ==> (r matches Err(e) && e is NotConnected),
    {
        self.require_connected()?;
        Ok(
            WorkerCall::Command {
                text: String::from_str(system::HOME),
                retries: 0,
                timeout_ms: HOMING_TIMEOUT_MS,
            },
        )
    }

    /// Unlocking clears the pending alarm first, connected or not; then,
    /// given a connection, it sends the unlock command.
    pub fn plan_unlock(&mut self) -> (r: Result<WorkerCall, ControllerError>)
        ensures
            *final(self) == (ControllerState { pending_alarm: None, ..*old(self) }),
            old(self).connected() ==> (r matches Ok(c) && default_command(c, system::UNLOCK@)),
            !old(self).connected() ==> (r matches Err(e) && e is NotConnected),
    {
        self.pending_alarm = None;
        self.require_connected()?;
        Ok(
            WorkerCall::Command {
                text: String::from_str(system::UNLOCK),
                retries: DEFAULT_RETRIES,
                timeout_ms: DEFAULT_TIMEOUT_MS,
            },
        )
    }

    /// Jogging needs a connection and a cached state of `Idle` or `Jog`.
    pub fn plan_jog(
        &self,
        x: Option<i64>,
        y: Option<i64>,
        z: Option<i64>,
        feed: i64,
        incremental: bool,
    ) -> (r: Result<WorkerCall, ControllerError>)
        ensures
            !self.connected() ==> (r matches Err(e) && e is NotConnected),
            self.connected() && !(self.status.state == MachineState::Idle || self.status.state
                == MachineState::Jog) ==> (r matches Err(e) && e is InvalidState),
            self.connected() && (self.status.state == MachineState::Idle || self.status.state
                == MachineState::Jog) ==> (r matches Ok(c) && default_command(
                c,
                jog_text(x, y, z, feed, incremental),
            )),
    {
        self.require_connected()?;
        match self.status.state {
            MachineState::Idle | MachineState::Jog => {},
            _ => {
                return Err(ControllerError::InvalidState(String::from_str("Cannot jog in this state")));
            },
        }
        Ok(
            WorkerCall::Command {
                text: build_jog_command(x, y, z, feed, incremental),
                retries: DEFAULT_RETRIES,
                timeout_ms: DEFAULT_TIMEOUT_MS,
            },
        )
    }

    /// A real-time byte needs a connection.
    pub fn plan_realtime(&self, byte: u8) -> (r: Result<WorkerCall, ControllerError>)
        ensures
            self.connected() ==> r == Ok::<WorkerCall, ControllerError>(WorkerCall::Realtime(byte)),
            !self.connected() ==> (r matches Err(e) && e is NotConnected),
    {
        self.require_connected()?;
        Ok(WorkerCall::Realtime(byte))
    }

    /// After a soft reset was sent the device has forgotten its state, and so
    /// does the cache: status, pending alarm and freshness are reset. A
    /// failure is recorded instead.
    pub fn finish_soft_reset(&mut self, outcome: Result<(), WorkerError>) -> (r: Result<
        (),
        ControllerError,
    >)
        ensures
            final(self).connection == old(self).connection,
            final(self).welcome_message == old(self).welcome_message,
            final(self).alarm_id_counter == old(self).alarm_id_counter,
            match outcome {
                Ok(()) => {
                    &&& r is Ok
                    &&& final(self).status@ == blank_status(MachineState::Idle)
                    &&& final(self).pending_alarm is None
                    &&& !final(self).status_is_fresh
                    &&& final(self).last_error == old(self).last_error
                },
                Err(e) => {
                    &&& r matches Err(ce) && maps_worker_error(e, ce)
                    &&& final(self).last_error matches Some(m) && m@ == worker_error_text(e)
                    &&& final(self).status == old(self).status
                    &&& final(self).pending_alarm == old(self).pending_alarm
                    &&& final(self).status_is_fresh == old(self).status_is_fresh
                },
            },
    {
        match outcome {
            Ok(()) => {
                self.status = MachineStatus::default();
                self.pending_alarm = None;
                self.status_is_fresh = false;
                Ok(())
            },
            Err(e) => Err(self.record(e)),
        }
    }

    /// A frame trace needs a connection, a non-zero width and height (bounds
    /// may be given in either order), and a cached state of `Idle`, checked
    /// in that order. It is the frame's lines, each sent as a command with
    /// the default policy; the caller stops at the first failure.
    pub fn plan_frame(
        &self,
        x_min: i64,
        x_max: i64,
        y_min: i64,
        y_max: i64,
        feed: i64,
        power: u32,
        units: Units,
    ) -> (r: Result<Vec<WorkerCall>, ControllerError>)
        ensures
            !self.connected() ==> (r matches Err(e) && e is NotConnected),
            self.connected() && (x_min == x_max || y_min == y_max) ==> (r matches Err(e)
                && e is InvalidState),
            self.connected() && x_min != x_max && y_min != y_max && self.status.state
                != MachineState::Idle ==> (r matches Err(e) && e is InvalidState),
            self.connected() && x_min != x_max && y_min != y_max && self.status.state
                == MachineState::Idle ==> (r matches Ok(calls) && frame_calls(
                calls@,
                frame_lines_for(x_min, x_max, y_min, y_max, feed, power, units),
            )),
    {
        self.require_connected()?;
        if x_min == x_max || y_min == y_max {
            return Err(
                ControllerError::InvalidState(
                    String::from_str("Frame must have non-zero width and height"),
                ),
            );
        }
        if self.status.state != MachineState::Idle {
            return Err(
                ControllerError::InvalidState(String::from_str("Cannot run frame unless idle")),
            );
        }
        let lines = build_frame_lines(x_min, x_max, y_min, y_max, feed, power, units);
        let ghost l = frame_lines_for(x_min, x_max, y_min, y_max, feed, power, units);
        let mut calls: Vec<WorkerCall> = Vec::new();
        let mut i: usize = 0;
        while i < lines.len()
            invariant
                lines@.len() == 8,
                forall|k: int| 0 <= k < 8 ==> (#[trigger] lines@[k])@ == l[k],
                i <= 8,
                calls@.len() == i,
                forall|k: int| 0 <= k < i ==> default_command(#[trigger] calls@[k], l[k]),
            decreases 8 - i,
        {
            calls.push(
                WorkerCall::Command {
                    text: lines[i].clone(),
                    retries: DEFAULT_RETRIES,
                    timeout_ms: DEFAULT_TIMEOUT_MS,
                },
            );
            i = i + 1;
        }
        Ok(calls)
    }

    /// A copy of the whole cached state.
    pub fn snapshot(&self) -> (r: ControllerSnapshot)
        ensures
            r.connection == self.connection,
            r.status@ == self.status@,
            r.welcome_message == self.welcome_message,
            r.last_error == self.last_error,
            r.pending_alarm == self.pending_alarm,
            r.status_is_fresh == self.status_is_fresh,
    {
        ControllerSnapshot {
            connection: self.connection.copied(),
            status: self.status.copied(),
            welcome_message: copy_text(&self.welcome_message),
            last_error: copy_text(&self.last_error),
            pending_alarm: self.pending_alarm,
            status_is_fresh: self.status_is_fresh,
        }
    }
}

/// Alarm ids across two polls in a row (from a state where no pending id
/// exceeds the counter, as every id comes from it), the second of which does not clear
/// the pending alarm (its report is stale, absent, or in the `Alarm` state):
/// reporting the same alarm code again keeps the pending alarm and its id;
/// reporting a different code makes it pending under a strictly larger id.
pub proof fn lemma_alarm_ids(
    pending: Option<(u32, u64)>,
    counter: u64,
    first: StatusQueryResult,
    second: StatusQueryResult,
)
    requires
        first.alarm is Some,
        second.alarm is Some,
        !poll_clears_alarm(second),
        counter + 2 <= u64::MAX,
        pending matches Some(a) ==> a.1 <= counter,
    ensures
        ({
            let (p1, c1) = alarm_after_poll(pending, counter, first);
            let (p2, c2) = alarm_after_poll(p1, c1, second);
            &&& p1 matches Some(a) && a.0 == first.alarm->0 && (second.alarm != first.alarm
                ==> (p2 matches Some(b) && b.0 == second.alarm->0 && b.1 > a.1))
            &&& second.alarm == first.alarm ==> p2 == p1
        }),
{
    let (p1, c1) = alarm_after_poll(pending, counter, first);
    if let Some(a) = p1 {
        assert(a.1 <= c1);
    }
}

} // verus!
