//! The durable artifact store's own logic: where each artifact lives, how a
//! log line reads, how failures are classified, and when an operation is
//! retried. The file operations themselves run in the host program.
use vstd::prelude::*;
use crate::text::{decimal, push_decimal};

verus! {

/// The kind of an operating-system I/O failure, as far as the store tells
/// kinds apart.
#[derive(Debug, Clone, Copy, PartialEq, Eq, Structural)]
pub enum IoErrorKind {
    NotFound,
    PermissionDenied,
    AlreadyExists,
    WouldBlock,
    Interrupted,
    Other,
}

/// Failures of the store's operations.
#[derive(Debug)]
pub enum FileSystemError {
    /// Any other I/O failure.
    Io(IoErrorKind),
    /// The operation ran out of its time budget.
    Timeout,
    PermissionDenied,
    /// Another process holds the file: the operation would block.
    ConcurrentAccess,
}

/// The store's error for an I/O failure of kind `k`.
pub open spec fn classify(k: IoErrorKind) -> FileSystemError {
    match k {
        IoErrorKind::PermissionDenied => FileSystemError::PermissionDenied,
        IoErrorKind::WouldBlock => FileSystemError::ConcurrentAccess,
        _ => FileSystemError::Io(k),
    }
}

impl From<IoErrorKind> for FileSystemError {
    fn from(k: IoErrorKind) -> (r: FileSystemError)
        ensures
            r == classify(k),
    {
        match k {
            IoErrorKind::PermissionDenied => FileSystemError::PermissionDenied,
            IoErrorKind::WouldBlock => FileSystemError::ConcurrentAccess,
            _ => FileSystemError::Io(k),
        }
    }
}

impl vstd::std_specs::convert::FromSpecImpl<IoErrorKind> for FileSystemError {
    open spec fn obeys_from_spec() -> bool {
        true
    }

    open spec fn from_spec(k: IoErrorKind) -> FileSystemError {
        classify(k)
    }
}

/// A failure that may go away when the operation is tried again: the file
/// is held by another process, or the call was interrupted.
pub open spec fn is_transient(e: FileSystemError) -> bool {
    e is ConcurrentAccess || e == FileSystemError::Io(IoErrorKind::Interrupted)
}

/// Root of all task directories.
pub open spec fn root_text() -> Seq<char> {
    "/host/.zzz"@
}

pub open spec fn task_dir_text(task_id: u32) -> Seq<char> {
    root_text() + "/task-"@ + decimal(task_id as nat)
}

pub open spec fn logs_dir_text(task_id: u32) -> Seq<char> {
    task_dir_text(task_id) + "/logs"@
}

/// A log line: the time in seconds in brackets, the message, a line break.
pub open spec fn log_line_text(timestamp: u64, message: Seq<char>) -> Seq<char> {
    "["@ + decimal(timestamp as nat) + "] "@ + message + "\n"@
}

/// Delay before retry number `attempt + 1`: grows linearly.
pub open spec fn retry_delay(attempt: u32) -> nat {
    (FileSystem::RETRY_DELAY_MS * (attempt + 1)) as nat
}

/// The decision after a failed attempt when `attempt` retries have been
/// made: the delay before the next attempt, or `None` when the failure ends
/// the operation.
pub open spec fn retry_decision(attempt: u32, e: FileSystemError) -> Option<nat> {
    if is_transient(e) && attempt < FileSystem::MAX_RETRIES {
        Some(retry_delay(attempt))
    } else {
        None
    }
}

/// The waits of an operation, from `attempt` retries on, whose attempts fail
/// with `errors` in turn: the run stops at the first failure not retried.
pub open spec fn run_waits(attempt: u32, errors: Seq<FileSystemError>) -> Seq<nat>
    decreases errors.len(),
{
    if errors.len() == 0 {
        Seq::empty()
    } else {
        match retry_decision(attempt, errors[0]) {
            Some(d) => seq![d] + run_waits((attempt + 1) as u32, errors.subrange(1, errors.len() as int)),
            None => Seq::empty(),
        }
    }
}

/// Sum of the delays before the first `n` retries.
pub open spec fn total_delay(n: nat) -> nat
    decreases n,
{
    if n == 0 {
        0
    } else {
        (total_delay((n - 1) as nat) + FileSystem::RETRY_DELAY_MS * n) as nat
    }
}

/// The store's paths and fixed parameters.
pub struct FileSystem;

/// The next move of an operation under the retry policy.
#[derive(Debug)]
pub enum RetryStep<T> {
    /// The operation is over with this result.
    Done(Result<T, FileSystemError>),
    /// Sleep this many milliseconds, then try again.
    Wait(u64),
}

/// Where an operation stands under the retry policy: how many retries it
/// has made and when (in milliseconds) its first attempt began.
#[derive(Debug, Clone, Copy)]
pub struct RetryState {
    pub attempt: u32,
    pub started_ms: u64,
}

impl FileSystem {
    /// Most retries after the first attempt.
    pub const MAX_RETRIES: u32 = 3;

    /// Base delay between attempts, in milliseconds.
    pub const RETRY_DELAY_MS: u64 = 50;

    /// Time budget of an operation, in milliseconds.
    pub const OPERATION_TIMEOUT_MS: u64 = 5000;

    fn push_root(out: &mut String, task_id: u32)
        ensures
            final(out)@ == old(out)@ + task_dir_text(task_id),
    {
        let ghost start = out@;
        out.append("/host/.zzz");
        out.append("/task-");
        push_decimal(out, task_id as u64);
        assert(out@ =~= start + task_dir_text(task_id));
    }

    /// `/host/.zzz/task-<id>`.
    pub fn get_task_directory_path(task_id: u32) -> (r: String)
        ensures
            r@ == task_dir_text(task_id),
    {
        let mut out = String::new();
        Self::push_root(&mut out, task_id);
        assert(out@ =~= task_dir_text(task_id));
        out
    }

    fn child_of_task(task_id: u32, name: &str) -> (r: String)
        ensures
            r@ == task_dir_text(task_id) + name@,
    {
        let mut out = String::new();
        Self::push_root(&mut out, task_id);
        out.append(name);
        assert(out@ =~= task_dir_text(task_id) + name@);
        out
    }

    /// The task list: `<task dir>/todo-list.md`.
    pub fn get_todo_list_path(task_id: u32) -> (r: String)
        ensures
            r@ == task_dir_text(task_id) + "/todo-list.md"@,
    {
        Self::child_of_task(task_id, "/todo-list.md")
    }

    /// The review: `<task dir>/review.md`.
    pub fn get_review_path(task_id: u32) -> (r: String)
        ensures
            r@ == task_dir_text(task_id) + "/review.md"@,
    {
        Self::child_of_task(task_id, "/review.md")
    }

    /// The plan: `<task dir>/plan.md`.
    pub fn get_plan_path(task_id: u32) -> (r: String)
        ensures
            r@ == task_dir_text(task_id) + "/plan.md"@,
    {
        Self::child_of_task(task_id, "/plan.md")
    }

    /// The logs directory: `<task dir>/logs`.
    pub fn get_logs_dir_path(task_id: u32) -> (r: String)
        ensures
            r@ == logs_dir_text(task_id),
    {
        Self::child_of_task(task_id, "/logs")
    }

    fn log_of_task(task_id: u32, name: &str) -> (r: String)
        ensures
            r@ == logs_dir_text(task_id) + name@,
    {
        let mut out = Self::get_logs_dir_path(task_id);
        out.append(name);
        out
    }

    /// `<logs dir>/overseer.log`.
    pub fn get_overseer_log_path(task_id: u32) -> (r: String)
        ensures
            r@ == logs_dir_text(task_id) + "/overseer.log"@,
    {
        Self::log_of_task(task_id, "/overseer.log")
    }

    /// `<logs dir>/commander.log`.
    pub fn get_commander_log_path(task_id: u32) -> (r: String)
        ensures
            r@ == logs_dir_text(task_id) + "/commander.log"@,
    {
        Self::log_of_task(task_id, "/commander.log")
    }

    /// `<logs dir>/coordinator.log`.
    pub fn get_coordinator_log_path(task_id: u32) -> (r: String)
        ensures
            r@ == logs_dir_text(task_id) + "/coordinator.log"@,
    {
        Self::log_of_task(task_id, "/coordinator.log")
    }

    /// The line that logging `message` at `timestamp` appends.
    pub fn log_entry(timestamp: u64, message: &str) -> (r: String)
        ensures
            r@ == log_line_text(timestamp, message@),
    {
        let mut out = String::new();
        out.append("[");
        push_decimal(&mut out, timestamp);
        out.append("] ");
        out.append(message);
        out.append("\n");
        assert(out@ =~= log_line_text(timestamp, message@));
        out
    }

    /// Whether another attempt may cure `e`.
    pub fn is_retryable(e: &FileSystemError) -> (r: bool)
        ensures
            r == is_transient(*e),
    {
        match e {
            FileSystemError::ConcurrentAccess => true,
            FileSystemError::Io(IoErrorKind::Interrupted) => true,
            _ => false,
        }
    }
}

impl RetryState {
    /// An operation whose first attempt begins at `now_ms`.
    pub fn start(now_ms: u64) -> (r: RetryState)
        ensures
            r.attempt == 0,
            r.started_ms == now_ms,
    {
        RetryState { attempt: 0, started_ms: now_ms }
    }

    /// Checked before every attempt: the operation is over with `Timeout`
    /// once more than the time budget has passed since its first attempt.
    pub fn deadline_passed(&self, now_ms: u64) -> (r: bool)
        ensures
            r == (now_ms > self.started_ms && now_ms - self.started_ms
                > FileSystem::OPERATION_TIMEOUT_MS),
    {
        now_ms > self.started_ms && now_ms - self.started_ms > FileSystem::OPERATION_TIMEOUT_MS
    }

    /// The decision after an attempt ended with `result`: a success or a
    /// lasting failure ends the operation; a transient failure is retried
    /// after a linearly growing delay, until the retries are used up, when
    /// that failure ends the operation.
    pub fn on_result<T>(&mut self, result: Result<T, FileSystemError>) -> (r: RetryStep<T>)
        requires
            old(self).attempt <= FileSystem::MAX_RETRIES,
        ensures
            final(self).started_ms == old(self).started_ms,
            final(self).attempt <= FileSystem::MAX_RETRIES,
            match result {
                Err(e) => if let Some(delay) = retry_decision(old(self).attempt, e) {
                    &&& r matches RetryStep::Wait(d) && d == delay
                    &&& final(self).attempt == old(self).attempt + 1
                } else {
                    r == RetryStep::Done(Err::<T, FileSystemError>(e)) && final(self).attempt
                        == old(self).attempt
                },
                Ok(v) => r == RetryStep::Done(Ok::<T, FileSystemError>(v))
                    && final(self).attempt == old(self).attempt,
            },
    {
        match result {
            Ok(v) => RetryStep::Done(Ok(v)),
            Err(e) => {
                if FileSystem::is_retryable(&e) && self.attempt < FileSystem::MAX_RETRIES {
                    self.attempt = self.attempt + 1;
                    RetryStep::Wait(FileSystem::RETRY_DELAY_MS * (self.attempt as u64))
                } else {
                    RetryStep::Done(Err(e))
                }
            },
        }
    }
}

/// The delays before the first `n` retries add up to d · n · (n + 1) / 2
/// milliseconds, d being the base delay: the backoff is linear.
pub proof fn law_linear_backoff(n: nat)
    requires
        n <= FileSystem::MAX_RETRIES,
    ensures
        total_delay(n) * 2 == FileSystem::RETRY_DELAY_MS * n * (n + 1),
        n > 0 ==> total_delay(n) == total_delay((n - 1) as nat) + retry_delay((n - 1) as u32),
    decreases n,
{
    if n > 0 {
        law_linear_backoff((n - 1) as nat);
        assert(FileSystem::RETRY_DELAY_MS == 50);
        let m = (n - 1) as nat;
        assert(total_delay(n) == total_delay(m) + 50 * n);
        assert(total_delay(m) * 2 == 50 * m * (m + 1));
        assert(50 * n * (n + 1) == 50 * m * (m + 1) + 100 * n) by (nonlinear_arith)
            requires
                m + 1 == n,
        ;
        assert(FileSystem::RETRY_DELAY_MS * n * (n + 1) == 50 * n * (n + 1));
        assert(total_delay(n) * 2 == total_delay(m) * 2 + 100 * n);
    } else {
        assert(FileSystem::RETRY_DELAY_MS * n * (n + 1) == 0) by (nonlinear_arith)
            requires
                n == 0,
        ;
    }
}

/// Attempts that keep failing transiently, within the retry budget, are
/// retried after 50, 100, 150, ... milliseconds: the wait before retry
/// number j + 1 is the base delay times j + 1.
pub proof fn law_retry_schedule(attempt: u32, errors: Seq<FileSystemError>)
    requires
        attempt + errors.len() <= FileSystem::MAX_RETRIES,
        forall|i: int| 0 <= i < errors.len() ==> is_transient(#[trigger] errors[i]),
    ensures
        run_waits(attempt, errors) == Seq::new(
            errors.len(),
            |j: int| retry_delay((attempt + j) as u32),
        ),
    decreases errors.len(),
{
    if errors.len() > 0 {
        let rest = errors.subrange(1, errors.len() as int);
        assert forall|i: int| 0 <= i < rest.len() implies is_transient(#[trigger] rest[i]) by {
            assert(rest[i] == errors[i + 1]);
        }
        assert(is_transient(errors[0]));
        law_retry_schedule((attempt + 1) as u32, rest);
        assert(run_waits(attempt, errors) =~= Seq::new(
            errors.len(),
            |j: int| retry_delay((attempt + j) as u32),
        ));
    } else {
        assert(run_waits(attempt, errors) =~= Seq::new(
            errors.len(),
            |j: int| retry_delay((attempt + j) as u32),
        ));
    }
}

/// A failure that is not transient, such as a denied permission, ends the
/// operation at once: no wait and no further attempt follow it.
pub proof fn law_lasting_failure_ends_run(attempt: u32, errors: Seq<FileSystemError>)
    requires
        errors.len() > 0,
        !is_transient(errors[0]),
    ensures
        run_waits(attempt, errors) == Seq::<nat>::empty(),
{
}

} // verus!
