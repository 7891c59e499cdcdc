//! The serial worker's decisions: how a reply line ends a command exchange,
//! when a timed-out command is sent again, what a status poll keeps, and how
//! long a caller waits for the worker at most. The thread that owns the port
//! performs the reads and writes and hands each line and timeout to these
//! functions.

use vstd::prelude::*;
use crate::protocol::{parse_response, response_of, Response, ResponseModel};
use crate::status::{status_text, status_view, MachineStatus, StatusModel};
use crate::text::nat_text;

verus! {

/// Retries after the first attempt, for ordinary commands.
pub const DEFAULT_RETRIES: u32 = 2;

/// How long one attempt waits for `ok` or `error`, in milliseconds.
pub const DEFAULT_TIMEOUT_MS: u64 = 500;

/// How long a status poll waits for the report, in milliseconds.
pub const STATUS_TIMEOUT_MS: u64 = 300;

/// How long a homing cycle may take, in milliseconds.
pub const HOMING_TIMEOUT_MS: u64 = 60_000;

/// How long a new connection waits for the welcome banner, in milliseconds.
pub const BANNER_TIMEOUT_MS: u64 = 1000;

/// Margin that the caller's wait for a reply adds to the worker's own
/// timeouts, in milliseconds.
pub const REPLY_MARGIN_MS: u64 = 5000;

/// Failures of a worker request.
#[derive(Debug, Clone, PartialEq)]
pub enum WorkerError {
    /// The port could not be opened.
    OpenFailed(String),
    /// Reading or writing the port failed.
    Io(String),
    /// No connection is open.
    NotConnected,
    /// No reply within the timeout, on every attempt.
    Timeout { attempts: u32 },
    /// The device answered `error:<code>`.
    GrblError(u32),
    /// The device answered `ALARM:<code>`.
    Alarm(u32),
    /// The worker did not answer within the caller's bound.
    WorkerDead,
    /// The worker dropped the request without answering.
    Cancelled,
}

/// The human-readable text of each failure.
pub open spec fn worker_error_text(e: WorkerError) -> Seq<char> {
    match e {
        WorkerError::OpenFailed(m) => "Failed to open port: "@ + m@,
        WorkerError::Io(m) => "I/O error: "@ + m@,
        WorkerError::NotConnected => "Not connected"@,
        WorkerError::Timeout { attempts } => "Command timeout after "@ + nat_text(
            attempts as nat,
        ) + " attempts"@,
        WorkerError::GrblError(c) => "GRBL error code "@ + nat_text(c as nat),
        WorkerError::Alarm(c) => "GRBL alarm code "@ + nat_text(c as nat),
        WorkerError::WorkerDead => "Worker thread not responding"@,
        WorkerError::Cancelled => "Request cancelled"@,
    }
}

impl WorkerError {
    /// The failure as text for display.
    pub fn message(&self) -> (r: String)
        ensures
            r@ == worker_error_text(*self),
    {
        let mut s: String;
        match self {
            WorkerError::OpenFailed(m) => {
                s = String::from_str("Failed to open port: ");
                s.append(m.as_str());
            },
            WorkerError::Io(m) => {
                s = String::from_str("I/O error: ");
                s.append(m.as_str());
            },
            WorkerError::NotConnected => {
                s = String::from_str("Not connected");
            },
            WorkerError::Timeout { attempts } => {
                s = String::from_str("Command timeout after ");
                crate::text::push_nat(&mut s, *attempts as u64);
                s.append(" attempts");
            },
            WorkerError::GrblError(c) => {
                s = String::from_str("GRBL error code ");
                crate::text::push_nat(&mut s, *c as u64);
            },
            WorkerError::Alarm(c) => {
                s = String::from_str("GRBL alarm code ");
                crate::text::push_nat(&mut s, *c as u64);
            },
            WorkerError::WorkerDead => {
                s = String::from_str("Worker thread not responding");
            },
            WorkerError::Cancelled => {
                s = String::from_str("Request cancelled");
            },
        }
        s
    }
}

/// The text written for a command: as given when it already ends in a
/// newline, else with one appended.
pub open spec fn framed_text(cmd: Seq<char>) -> Seq<char> {
    if cmd.len() > 0 && cmd.last() == '\n' {
        cmd
    } else {
        cmd.push('\n')
    }
}

/// Frames a command for writing.
pub fn framed_command(cmd: &str) -> (r: String)
    ensures
        r@ == framed_text(cmd@),
{
    let mut s = String::from_str(cmd);
    let n = cmd.unicode_len();
    if n == 0 || cmd.get_char(n - 1) != '\n' {
        crate::text::push_char(&mut s, '\n');
    }
    s
}

/// How a reply line bears on a pending command: `ok` ends it with success,
/// `error:<n>` and `ALARM:<n>` end it with that failure, anything else is
/// passed over.
pub open spec fn command_reply_spec(line: Seq<char>) -> Option<Result<(), WorkerError>> {
    match response_of(line) {
        ResponseModel::Ack => Some(Ok(())),
        ResponseModel::Error(c) => Some(Err(WorkerError::GrblError(c))),
        ResponseModel::Alarm(c) => Some(Err(WorkerError::Alarm(c))),
        _ => None,
    }
}

/// Reads one line received while a command waits for its reply.
pub fn command_reply(line: &str) -> (r: Option<Result<(), WorkerError>>)
    ensures
        r == command_reply_spec(line@),
{
    match parse_response(line) {
        Response::Ack => Some(Ok(())),
        Response::Error(c) => Some(Err(WorkerError::GrblError(c))),
        Response::Alarm(c) => Some(Err(WorkerError::Alarm(c))),
        _ => None,
    }
}

/// What the worker does next in a command exchange.
#[derive(Debug, PartialEq)]
pub enum CommandStep {
    /// Drain and discard buffered lines, write the command, and wait for a
    /// reply until the timeout.
    Transmit,
    /// The exchange is over, with this outcome.
    Finished(Result<(), WorkerError>),
}

/// Retry bookkeeping of one command: how many attempts were made, out of at
/// most `max_retries + 1`.
#[derive(Debug, Clone, Copy, PartialEq, Eq, Structural)]
pub struct CommandExchange {
    pub attempts: u32,
    pub max_retries: u32,
}

/// The exchange right after its first transmission.
pub open spec fn fresh_exchange(max_retries: u32) -> CommandExchange {
    CommandExchange { attempts: 1, max_retries }
}

/// The effect of a timeout: another transmission while retries are left,
/// else the end with `Timeout` carrying the attempt count.
pub open spec fn timeout_next(ex: CommandExchange) -> (CommandExchange, CommandStep) {
    if ex.attempts > ex.max_retries {
        (ex, CommandStep::Finished(Err(WorkerError::Timeout { attempts: ex.attempts })))
    } else {
        (CommandExchange { attempts: (ex.attempts + 1) as u32, ..ex }, CommandStep::Transmit)
    }
}

/// `timeout_next` applied `k` times, when every wait times out.
pub open spec fn after_timeouts(ex: CommandExchange, k: nat) -> CommandExchange
    decreases k,
{
    if k == 0 {
        ex
    } else {
        timeout_next(after_timeouts(ex, (k - 1) as nat)).0
    }
}

impl CommandExchange {
    pub open spec fn wf(&self) -> bool {
        1 <= self.attempts <= self.max_retries + 1 && self.max_retries < u32::MAX
    }

    /// Starts an exchange; the caller transmits the command once now.
    pub fn new(max_retries: u32) -> (r: Self)
        requires
            max_retries < u32::MAX,
        ensures
            r == fresh_exchange(max_retries),
            r.wf(),
    {
        CommandExchange { attempts: 1, max_retries }
    }

    /// The wait for a reply to the last transmission timed out.
    pub fn on_timeout(&mut self) -> (r: CommandStep)
        requires
            old(self).wf(),
        ensures
            (*final(self), r) == timeout_next(*old(self)),
            final(self).wf(),
    {
        if self.attempts > self.max_retries {
            CommandStep::Finished(Err(WorkerError::Timeout { attempts: self.attempts }))
        } else {
            self.attempts = self.attempts + 1;
            CommandStep::Transmit
        }
    }
}

/// Against a device that never answers, a command with `retries` retries is
/// transmitted `retries + 1` times: once at the start and once after each of
/// the first `retries` timeouts. The next timeout ends the exchange with a
/// `Timeout` whose attempt count is `retries + 1`.
pub proof fn lemma_silent_device(retries: u32)
    requires
        retries < u32::MAX,
    ensures
        forall|k: nat|
            k < retries ==> (#[trigger] timeout_next(after_timeouts(fresh_exchange(retries), k))).1
                == CommandStep::Transmit,
        timeout_next(after_timeouts(fresh_exchange(retries), retries as nat)).1
            == CommandStep::Finished(Err(WorkerError::Timeout { attempts: (retries + 1) as u32 })),
{
    assert forall|k: nat| k < retries implies (#[trigger] timeout_next(
        after_timeouts(fresh_exchange(retries), k),
    )).1 == CommandStep::Transmit by {
        lemma_attempts_grow(retries, k);
    }
    lemma_attempts_grow(retries, retries as nat);
}

proof fn lemma_attempts_grow(retries: u32, k: nat)
    requires
        retries < u32::MAX,
        k <= retries,
    ensures
        after_timeouts(fresh_exchange(retries), k) == (CommandExchange {
            attempts: (k + 1) as u32,
            max_retries: retries,
        }),
    decreases k,
{
    if k > 0 {
        lemma_attempts_grow(retries, (k - 1) as nat);
    }
}

/// Result of a status poll: the report if one came, and any alarm or error
/// seen while waiting for it.
#[derive(Debug, Clone, PartialEq)]
pub struct StatusQueryResult {
    pub status: Option<MachineStatus>,
    pub alarm: Option<u32>,
    pub error: Option<u32>,
    /// Whether a report came before the timeout.
    pub is_fresh: bool,
}

pub struct StatusQueryModel {
    pub status: Option<StatusModel>,
    pub alarm: Option<u32>,
    pub error: Option<u32>,
    pub is_fresh: bool,
}

impl View for StatusQueryResult {
    type V = StatusQueryModel;

    open spec fn view(&self) -> StatusQueryModel {
        StatusQueryModel {
            status: status_view(self.status),
            alarm: self.alarm,
            error: self.error,
            is_fresh: self.is_fresh,
        }
    }
}

/// The effect of one line on a poll in progress, and whether the poll is over.
/// A report that parses ends it; alarms and errors are kept and the wait goes
/// on; anything else is passed over.
pub open spec fn poll_line_spec(q: StatusQueryModel, line: Seq<char>) -> (StatusQueryModel, bool) {
    match response_of(line) {
        ResponseModel::Status(raw) => match status_text(raw) {
            Some(m) => (StatusQueryModel { status: Some(m), is_fresh: true, ..q }, true),
            None => (q, false),
        },
        ResponseModel::Alarm(c) => (StatusQueryModel { alarm: Some(c), ..q }, false),
        ResponseModel::Error(c) => (StatusQueryModel { error: Some(c), ..q }, false),
        _ => (q, false),
    }
}

impl StatusQueryResult {
    /// A poll before any line: nothing seen, not fresh. It is also the result
    /// when the timeout passes with nothing received.
    pub fn empty() -> (r: Self)
        ensures
            r@ == (StatusQueryModel { status: None, alarm: None, error: None, is_fresh: false }),
    {
        StatusQueryResult { status: None, alarm: None, error: None, is_fresh: false }
    }

    /// Takes one line received during the poll; `true` when the poll is over.
    pub fn take_line(&mut self, line: &str) -> (done: bool)
        ensures
            (final(self)@, done) == poll_line_spec(old(self)@, line@),
    {
        match parse_response(line) {
            Response::Status(raw) => {
                match MachineStatus::parse(raw.as_str()) {
                    Some(m) => {
                        self.status = Some(m);
                        self.is_fresh = true;
                        true
                    },
                    None => false,
                }
            },
            Response::Alarm(c) => {
                self.alarm = Some(c);
                false
            },
            Response::Error(c) => {
                self.error = Some(c);
                false
            },
            _ => false,
        }
    }
}

/// The welcome banner that a line carries, if it is one.
pub fn welcome_banner(line: &str) -> (r: Option<String>)
    ensures
        match response_of(line@) {
            ResponseModel::Welcome(m) => r matches Some(s) && s@ == m,
            _ => r is None,
        },
{
    match parse_response(line) {
        Response::Welcome(m) => Some(m),
        _ => None,
    }
}

/// How long a caller waits for the worker's reply to a request whose
/// attempts each wait `timeout_ms`: all attempts plus a margin, so that the
/// worker's own retries always finish first (saturating at `u64::MAX`).
pub fn reply_wait_ms(timeout_ms: u64, retries: u32) -> (r: u64)
    ensures
        r == if (retries + 1) * timeout_ms + REPLY_MARGIN_MS <= u64::MAX {
            (retries + 1) * timeout_ms + REPLY_MARGIN_MS
        } else {
            u64::MAX as int
        },
{
    let n = retries as u64 + 1;
    match timeout_ms.checked_mul(n) {
        Some(t) => match t.checked_add(REPLY_MARGIN_MS) {
            Some(w) => w,
            None => u64::MAX,
        },
        None => {
            proof {
                assert((retries + 1) * timeout_ms + REPLY_MARGIN_MS > u64::MAX) by (nonlinear_arith)
                    requires
                        n * timeout_ms > u64::MAX,
                        n == retries + 1,
                ;
            }
            u64::MAX
        },
    }
}

} // verus!
