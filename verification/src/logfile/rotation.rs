//! A log that is cut into generations as it is written.
//!
//! Where a write would make the log too large, it is closed, moved aside, the older
//! generations are moved on by one, and it becomes the first of them. Any of these moves
//! can fail. Then the rest waits, and is taken up later where it stopped: what was moved
//! already is not moved again, and nothing is overwritten. Meanwhile a new log is written.

use crate::logfile::names::LOG_ROTATE_GENERATIONS;
use vstd::prelude::*;

verus! {

/// How large a log may become.
pub const LOG_ROTATE_MAX_BYTES: u64 = 16_777_216;

/// How much a log grows before a rotation that failed is tried again.
pub const ROTATE_RETRY_STEP_BYTES: u64 = 1_048_576;

/// How long a log that could not be opened is left alone.
pub const REOPEN_RETRY_MS: u64 = 30_000;

/// A file of a run.
#[derive(Clone, Copy, Debug, PartialEq, Eq, Structural)]
pub enum LogFile {
    /// The log itself.
    Body,
    /// The log that is being made an older generation.
    Staged,
    Generation { number: usize },
}

/// What a rotation does next. A rotation that has not begun has no such step.
#[derive(Clone, Copy, Debug, PartialEq, Eq, Structural)]
pub enum RotationStep {
    RemoveOldest,
    /// Fill the place of a generation.
    MoveTo(usize),
}

/// One thing that is done to files.
#[derive(Clone, Copy, Debug, PartialEq, Eq, Structural)]
pub enum FileOp {
    /// Succeeds only where there is no file `to` yet. `optional`: succeeds also where there
    /// is no file `from`.
    Rename { from: LogFile, to: LogFile, optional: bool },
    /// Succeeds also where there is no such file.
    Remove { file: LogFile },
}

/// How a rotation goes on.
#[derive(Clone, Copy, Debug, PartialEq, Eq, Structural)]
pub enum Shift {
    Again,
    Done { rotated: bool },
}

/// The steps that occur.
pub open spec fn step_wf(pending: Option<RotationStep>) -> bool {
    pending matches Some(RotationStep::MoveTo(g)) ==> 1 <= g <= LOG_ROTATE_GENERATIONS
}

/// What is done in a step.
pub open spec fn op_of(pending: Option<RotationStep>) -> FileOp {
    match pending {
        None => FileOp::Rename { from: LogFile::Body, to: LogFile::Staged, optional: false },
        Some(RotationStep::RemoveOldest) => FileOp::Remove {
            file: LogFile::Generation { number: LOG_ROTATE_GENERATIONS },
        },
        Some(RotationStep::MoveTo(g)) => if g <= 1 {
            FileOp::Rename {
                from: LogFile::Staged,
                to: LogFile::Generation { number: 1 },
                optional: false,
            }
        } else {
            FileOp::Rename {
                from: LogFile::Generation { number: (g - 1) as usize },
                to: LogFile::Generation { number: g },
                optional: true,
            }
        },
    }
}

/// What is done in a step.
pub fn next_op(pending: Option<RotationStep>) -> (r: FileOp)
    ensures
        r == op_of(pending),
{
    match pending {
        None => FileOp::Rename { from: LogFile::Body, to: LogFile::Staged, optional: false },
        Some(RotationStep::RemoveOldest) => FileOp::Remove {
            file: LogFile::Generation { number: LOG_ROTATE_GENERATIONS },
        },
        Some(RotationStep::MoveTo(g)) => if g <= 1 {
            FileOp::Rename {
                from: LogFile::Staged,
                to: LogFile::Generation { number: 1 },
                optional: false,
            }
        } else {
            FileOp::Rename {
                from: LogFile::Generation { number: g - 1 },
                to: LogFile::Generation { number: g },
                optional: true,
            }
        },
    }
}

/// What is left after a step that succeeded.
pub open spec fn step_after(pending: Option<RotationStep>) -> Option<RotationStep> {
    match pending {
        None => Some(RotationStep::RemoveOldest),
        Some(RotationStep::RemoveOldest) => Some(RotationStep::MoveTo(LOG_ROTATE_GENERATIONS)),
        Some(RotationStep::MoveTo(g)) => if g <= 1 {
            None
        } else {
            Some(RotationStep::MoveTo((g - 1) as usize))
        },
    }
}

/// Whether a step is the last.
pub open spec fn is_last(pending: Option<RotationStep>) -> bool {
    pending matches Some(RotationStep::MoveTo(g)) && g <= 1
}

/// Takes over how a step came out: where it failed, it stays to be done.
pub fn shift_generations(pending: &mut Option<RotationStep>, ok: bool) -> (r: Shift)
    ensures
        !ok ==> *final(pending) == *old(pending) && r == (Shift::Done { rotated: false }),
        ok ==> *final(pending) == step_after(*old(pending)),
        ok && is_last(*old(pending)) ==> r == (Shift::Done { rotated: true }),
        ok && !is_last(*old(pending)) ==> r is Again,
        step_wf(*old(pending)) ==> step_wf(*final(pending)),
{
    if !ok {
        return Shift::Done { rotated: false };
    }
    match *pending {
        None => {
            *pending = Some(RotationStep::RemoveOldest);
            Shift::Again
        },
        Some(RotationStep::RemoveOldest) => {
            *pending = Some(RotationStep::MoveTo(LOG_ROTATE_GENERATIONS));
            Shift::Again
        },
        Some(RotationStep::MoveTo(g)) => {
            if g <= 1 {
                *pending = None;
                Shift::Done { rotated: true }
            } else {
                *pending = Some(RotationStep::MoveTo(g - 1));
                Shift::Again
            }
        },
    }
}

/// Whether files are such that `op` can succeed.
pub open spec fn can_do<T>(fs: Map<LogFile, T>, op: FileOp) -> bool {
    match op {
        FileOp::Rename { from, to, optional } => if fs.contains_key(from) {
            !fs.contains_key(to)
        } else {
            optional
        },
        FileOp::Remove { .. } => true,
    }
}

/// The files after `op` has succeeded.
pub open spec fn done<T>(fs: Map<LogFile, T>, op: FileOp) -> Map<LogFile, T> {
    match op {
        FileOp::Rename { from, to, .. } => if fs.contains_key(from) {
            fs.remove(from).insert(to, fs[from])
        } else {
            fs
        },
        FileOp::Remove { file } => fs.remove(file),
    }
}

/// Whether `f` in `fs` is what `g` is in `start`, be it a file or none.
pub open spec fn holds<T>(
    fs: Map<LogFile, T>,
    f: LogFile,
    start: Map<LogFile, T>,
    g: LogFile,
) -> bool {
    &&& fs.contains_key(f) == start.contains_key(g)
    &&& fs.contains_key(f) ==> fs[f] == start[g]
}

/// A generation.
pub open spec fn gen(number: int) -> LogFile {
    LogFile::Generation { number: number as usize }
}

/// Where a rotation that began with the files `start` has got to: the log is aside, and the
/// generations behind the place to be filled have been moved on.
pub open spec fn in_progress<T>(
    start: Map<LogFile, T>,
    fs: Map<LogFile, T>,
    step: RotationStep,
) -> bool {
    &&& holds(fs, LogFile::Staged, start, LogFile::Body)
    &&& start.contains_key(LogFile::Body)
    &&& match step {
        RotationStep::RemoveOldest => forall|g: int|
            1 <= g <= LOG_ROTATE_GENERATIONS ==> holds(fs, #[trigger] gen(g), start, gen(g)),
        RotationStep::MoveTo(k) => {
            &&& !fs.contains_key(gen(k as int))
            &&& forall|g: int| 1 <= g < k ==> holds(fs, #[trigger] gen(g), start, gen(g))
            &&& forall|g: int|
                k < g <= LOG_ROTATE_GENERATIONS ==> holds(
                    fs,
                    #[trigger] gen(g),
                    start,
                    gen(g - 1),
                )
        },
    }
}

/// What a rotation that began with the files `start` comes to: the log is the first
/// generation, and every generation but the oldest has moved on by one.
pub open spec fn rotated<T>(start: Map<LogFile, T>, fs: Map<LogFile, T>) -> bool {
    &&& holds(fs, gen(1), start, LogFile::Body)
    &&& !fs.contains_key(LogFile::Staged)
    &&& forall|g: int|
        1 < g <= LOG_ROTATE_GENERATIONS ==> holds(fs, #[trigger] gen(g), start, gen(g - 1))
}

/// A log is moved aside only where nothing is there yet, and before anything else is
/// touched: where that fails all files are as they were.
pub proof fn rotation_begins_with_log<T>(start: Map<LogFile, T>)
    requires
        can_do(start, op_of(None)),
    ensures
        in_progress(start, done(start, op_of(None)), RotationStep::RemoveOldest),
        step_after(None) == Some(RotationStep::RemoveOldest),
        !start.contains_key(LogFile::Staged),
{
    let fs = done(start, op_of(None));
    assert forall|g: int| 1 <= g <= LOG_ROTATE_GENERATIONS implies holds(
        fs,
        #[trigger] gen(g),
        start,
        gen(g),
    ) by {
        assert(gen(g) != LogFile::Body && gen(g) != LogFile::Staged);
    }
}

/// No step loses a generation but the oldest, whichever steps fail in between: what has been
/// moved stays where it is, and the last step finishes the rotation.
pub proof fn rotation_keeps_history<T>(
    start: Map<LogFile, T>,
    fs: Map<LogFile, T>,
    step: RotationStep,
)
    requires
        step_wf(Some(step)),
        in_progress(start, fs, step),
        can_do(fs, op_of(Some(step))),
    ensures
        ({
            let after = done(fs, op_of(Some(step)));
            if is_last(Some(step)) {
                rotated(start, after)
            } else {
                step_after(Some(step)) matches Some(next) && in_progress(start, after, next)
            }
        }),
{
    let after = done(fs, op_of(Some(step)));
    match step {
        RotationStep::RemoveOldest => {
            let k = LOG_ROTATE_GENERATIONS as int;
            assert forall|g: int| 1 <= g < k implies holds(
                after,
                #[trigger] gen(g),
                start,
                gen(g),
            ) by {
                assert(gen(g) != gen(k));
                assert(holds(fs, gen(g), start, gen(g)));
            }
        },
        RotationStep::MoveTo(k) => {
            if k > 1 {
                let from = gen(k - 1);
                assert(from != gen(k as int));
                assert(holds(fs, gen(k - 1), start, gen(k - 1)));
                assert forall|g: int| 1 <= g < k - 1 implies holds(
                    after,
                    #[trigger] gen(g),
                    start,
                    gen(g),
                ) by {
                    assert(gen(g) != from && gen(g) != gen(k as int));
                    assert(holds(fs, gen(g), start, gen(g)));
                }
                assert forall|g: int| k - 1 < g <= LOG_ROTATE_GENERATIONS implies holds(
                    after,
                    #[trigger] gen(g),
                    start,
                    gen(g - 1),
                ) by {
                    if g > k {
                        assert(gen(g) != from && gen(g) != gen(k as int));
                        assert(holds(fs, gen(g), start, gen(g - 1)));
                    }
                }
                assert(!after.contains_key(from));
            } else {
                assert(k == 1);
                assert forall|g: int| 1 < g <= LOG_ROTATE_GENERATIONS implies holds(
                    after,
                    #[trigger] gen(g),
                    start,
                    gen(g - 1),
                ) by {
                    assert(gen(g) != gen(1));
                    assert(holds(fs, gen(g), start, gen(g - 1)));
                }
            }
        },
    }
}

/// What is written to a new log while a rotation waits does not disturb it.
pub proof fn writing_keeps_progress<T>(
    start: Map<LogFile, T>,
    fs: Map<LogFile, T>,
    step: RotationStep,
    body: T,
)
    requires
        in_progress(start, fs, step),
    ensures
        in_progress(start, fs.insert(LogFile::Body, body), step),
{
    let after = fs.insert(LogFile::Body, body);
    assert forall|g: int, h: int| holds(fs, #[trigger] gen(g), start, gen(h)) implies holds(
        after,
        gen(g),
        start,
        #[trigger] gen(h),
    ) by {
        assert(gen(g) != LogFile::Body);
    }
    match step {
        RotationStep::RemoveOldest => {
            assert forall|g: int| 1 <= g <= LOG_ROTATE_GENERATIONS implies holds(
                after,
                #[trigger] gen(g),
                start,
                gen(g),
            ) by {
                assert(holds(fs, gen(g), start, gen(g)));
            }
        },
        RotationStep::MoveTo(k) => {
            assert(gen(k as int) != LogFile::Body);
            assert forall|g: int| 1 <= g < k implies holds(after, #[trigger] gen(g), start, gen(g)) by {
                assert(holds(fs, gen(g), start, gen(g)));
            }
            assert forall|g: int| k < g <= LOG_ROTATE_GENERATIONS implies holds(
                after,
                #[trigger] gen(g),
                start,
                gen(g - 1),
            ) by {
                assert(holds(fs, gen(g), start, gen(g - 1)));
            }
        },
    }
}

/// What a write is waiting for.
#[derive(Clone, Copy, Debug, PartialEq, Eq, Structural)]
pub enum LogPoint {
    Idle,
    Rotating,
    /// The log is opened after a rotation.
    Reopening { rotated: bool },
    /// The log is opened because it was not open.
    Opening,
    Writing,
}

/// What is to be done for a write.
#[derive(Clone, Copy, Debug, PartialEq, Eq, Structural)]
pub enum LogAction {
    /// Do something to the files; `close`: close the log before.
    File { op: FileOp, close: bool },
    /// Open the log, to write at its end.
    Reopen,
    /// Write.
    Write,
    /// Throw away what was to be written.
    Drop,
    Finished,
}

/// What came of it.
#[derive(Clone, Copy, Debug, PartialEq, Eq, Structural)]
pub enum LogEvent {
    FileDone { ok: bool },
    /// How large the log is, nothing where it could not be opened.
    Opened { size: Option<u64> },
    /// How much was written, nothing where that failed.
    Wrote { bytes: Option<u64> },
}

/// A log.
#[derive(Clone, Copy, Debug, PartialEq, Eq, Structural)]
pub struct RotatingLog {
    pub open: bool,
    /// Size of the log.
    pub written: u64,
    pub max_bytes: u64,
    /// Where a rotation has stopped.
    pub rotation_step: Option<RotationStep>,
    /// Size from which on a rotation that failed is tried again.
    pub rotate_retry_at: Option<u64>,
    /// Time from which on opening is tried again.
    pub reopen_retry_at: Option<u64>,
    pub reopen_retry_ms: u64,
    pub point: LogPoint,
}

/// `a + b`, or the largest number where that is too large.
pub open spec fn sum(a: u64, b: u64) -> u64 {
    if a + b > u64::MAX {
        u64::MAX
    } else {
        (a + b) as u64
    }
}

/// Whether `event` can come of what was being done.
pub open spec fn event_fits(point: LogPoint, event: LogEvent) -> bool {
    match point {
        LogPoint::Idle => false,
        LogPoint::Rotating => event is FileDone,
        LogPoint::Reopening { .. } | LogPoint::Opening => event is Opened,
        LogPoint::Writing => event is Wrote,
    }
}

impl RotatingLog {
    /// The log is closed while its files are moved.
    pub open spec fn wf(self) -> bool {
        &&& step_wf(self.rotation_step)
        &&& self.point is Rotating ==> !self.open
        &&& self.point is Reopening ==> !self.open
        &&& self.point is Opening ==> !self.open
        &&& self.point is Writing ==> self.open
    }

    /// The log after it was opened, or that was tried.
    pub open spec fn reopened(self, size: Option<u64>) -> RotatingLog {
        RotatingLog {
            open: size is Some,
            reopen_retry_at: if size is Some {
                None
            } else {
                self.reopen_retry_at
            },
            written: match size {
                Some(n) => n,
                None => 0,
            },
            ..self
        }
    }

    /// A log of any size up to `max_bytes`, after it was opened or that was tried.
    pub fn open_with_cap(max_bytes: u64, size: Option<u64>) -> (r: RotatingLog)
        ensures
            r.wf(),
            r == (RotatingLog {
                open: size is Some,
                written: match size {
                    Some(n) => n,
                    None => 0,
                },
                max_bytes,
                rotation_step: None,
                rotate_retry_at: None,
                reopen_retry_at: None,
                reopen_retry_ms: REOPEN_RETRY_MS,
                point: LogPoint::Idle,
            }),
    {
        let written: u64 = match size {
            Some(n) => n,
            None => 0,
        };
        RotatingLog {
            open: size.is_some(),
            written,
            max_bytes,
            rotation_step: None,
            rotate_retry_at: None,
            reopen_retry_at: None,
            reopen_retry_ms: REOPEN_RETRY_MS,
            point: LogPoint::Idle,
        }
    }

    /// Whether a write of that many bytes is preceded by a rotation: where it would make the
    /// log too large, unless there is nothing in it yet or a rotation failed a short while
    /// ago.
    pub open spec fn rotates_for(self, incoming: u64) -> bool {
        &&& self.written != 0
        &&& sum(self.written, incoming) > self.max_bytes
        &&& self.rotate_retry_at matches Some(next) ==> self.written >= next
    }

    /// Whether a write of that many bytes is preceded by a rotation.
    pub fn should_rotate(&self, incoming: usize) -> (r: bool)
        ensures
            r == self.rotates_for(incoming as u64),
    {
        if self.written == 0 {
            return false;
        }
        if self.written.saturating_add(incoming as u64) <= self.max_bytes {
            return false;
        }
        match self.rotate_retry_at {
            Some(next) => self.written >= next,
            None => true,
        }
    }

    /// The log is open, or will be tried to be opened, or the write comes to nothing.
    pub open spec fn settled(self, now_ms: u64) -> (RotatingLog, LogAction) {
        if self.open {
            (RotatingLog { point: LogPoint::Writing, ..self }, LogAction::Write)
        } else if self.reopen_retry_at matches Some(at) && now_ms < at {
            (RotatingLog { point: LogPoint::Idle, ..self }, LogAction::Drop)
        } else {
            (RotatingLog { point: LogPoint::Opening, ..self }, LogAction::Reopen)
        }
    }

    fn ensure_open(&mut self, now_ms: u64) -> (r: LogAction)
        ensures
            (*final(self), r) == old(self).settled(now_ms),
    {
        if self.open {
            self.point = LogPoint::Writing;
            return LogAction::Write;
        }
        if let Some(at) = self.reopen_retry_at {
            if now_ms < at {
                self.point = LogPoint::Idle;
                return LogAction::Drop;
            }
        }
        self.point = LogPoint::Opening;
        LogAction::Reopen
    }

    /// A write begins.
    pub open spec fn begun(self, incoming: u64, now_ms: u64) -> (RotatingLog, LogAction) {
        if self.rotates_for(incoming) {
            (
                RotatingLog { open: false, point: LogPoint::Rotating, ..self },
                LogAction::File { op: op_of(self.rotation_step), close: true },
            )
        } else {
            self.settled(now_ms)
        }
    }

    /// A write begins.
    pub fn write(&mut self, incoming: usize, now_ms: u64) -> (r: LogAction)
        requires
            old(self).wf(),
            old(self).point is Idle,
        ensures
            final(self).wf(),
            (*final(self), r) == old(self).begun(incoming as u64, now_ms),
    {
        if self.should_rotate(incoming) {
            self.rotate()
        } else {
            self.ensure_open(now_ms)
        }
    }

    /// A rotation begins, or goes on where it had stopped.
    pub fn rotate(&mut self) -> (r: LogAction)
        requires
            old(self).wf(),
        ensures
            final(self).wf(),
            *final(self) == (RotatingLog { open: false, point: LogPoint::Rotating, ..*old(self) }),
            r == (LogAction::File { op: op_of(old(self).rotation_step), close: true }),
    {
        self.open = false;
        self.point = LogPoint::Rotating;
        LogAction::File { op: next_op(self.rotation_step), close: true }
    }

    fn reopen(&mut self, size: Option<u64>)
        ensures
            *final(self) == old(self).reopened(size),
    {
        match size {
            Some(n) => {
                self.open = true;
                self.reopen_retry_at = None;
                self.written = n;
            },
            None => {
                self.open = false;
                self.written = 0;
            },
        }
    }

    /// One step of a write: what came of the last action at the time `now_ms`, and what is
    /// done next.
    pub open spec fn after(self, event: LogEvent, now_ms: u64) -> (RotatingLog, LogAction) {
        match (self.point, event) {
            (LogPoint::Rotating, LogEvent::FileDone { ok }) => {
                let next = if ok {
                    step_after(self.rotation_step)
                } else {
                    self.rotation_step
                };
                let moved = RotatingLog { rotation_step: next, ..self };
                if ok && !is_last(self.rotation_step) {
                    (moved, LogAction::File { op: op_of(next), close: false })
                } else {
                    (
                        RotatingLog { point: LogPoint::Reopening { rotated: ok }, ..moved },
                        LogAction::Reopen,
                    )
                }
            },
            (LogPoint::Reopening { rotated }, LogEvent::Opened { size }) => {
                let opened = self.reopened(size);
                RotatingLog {
                    rotate_retry_at: if rotated {
                        None
                    } else {
                        Some(sum(opened.written, ROTATE_RETRY_STEP_BYTES))
                    },
                    ..opened
                }.settled(now_ms)
            },
            (LogPoint::Opening, LogEvent::Opened { size }) => {
                let opened = self.reopened(size);
                if opened.open {
                    (RotatingLog { point: LogPoint::Writing, ..opened }, LogAction::Write)
                } else {
                    (
                        RotatingLog {
                            point: LogPoint::Idle,
                            reopen_retry_at: Some(sum(now_ms, self.reopen_retry_ms)),
                            ..opened
                        },
                        LogAction::Drop,
                    )
                }
            },
            (LogPoint::Writing, LogEvent::Wrote { bytes }) => (
                RotatingLog {
                    written: match bytes {
                        Some(n) => sum(self.written, n),
                        None => self.written,
                    },
                    point: LogPoint::Idle,
                    ..self
                },
                LogAction::Finished,
            ),
            _ => (self, LogAction::Finished),
        }
    }

    /// One step of a write.
    pub fn resume(&mut self, event: LogEvent, now_ms: u64) -> (r: LogAction)
        requires
            old(self).wf(),
            event_fits(old(self).point, event),
        ensures
            final(self).wf(),
            (*final(self), r) == old(self).after(event, now_ms),
    {
        match event {
            LogEvent::FileDone { ok } => {
                match shift_generations(&mut self.rotation_step, ok) {
                    Shift::Again => LogAction::File {
                        op: next_op(self.rotation_step),
                        close: false,
                    },
                    Shift::Done { rotated } => {
                        self.point = LogPoint::Reopening { rotated };
                        LogAction::Reopen
                    },
                }
            },
            LogEvent::Opened { size } => {
                let point = self.point;
                self.reopen(size);
                if let LogPoint::Reopening { rotated } = point {
                    if rotated {
                        self.rotate_retry_at = None;
                    } else {
                        self.rotate_retry_at = Some(
                            self.written.saturating_add(ROTATE_RETRY_STEP_BYTES),
                        );
                    }
                    return self.ensure_open(now_ms);
                }
                if self.open {
                    self.point = LogPoint::Writing;
                    LogAction::Write
                } else {
                    self.reopen_retry_at = Some(now_ms.saturating_add(self.reopen_retry_ms));
                    self.point = LogPoint::Idle;
                    LogAction::Drop
                }
            },
            LogEvent::Wrote { bytes } => {
                if let Some(n) = bytes {
                    self.written = self.written.saturating_add(n);
                }
                self.point = LogPoint::Idle;
                LogAction::Finished
            },
        }
    }
}

/// A write that leaves the log within its size moves no file.
pub proof fn small_write_moves_nothing(log: RotatingLog, incoming: u64, now_ms: u64)
    requires
        sum(log.written, incoming) <= log.max_bytes,
    ensures
        !(log.begun(incoming, now_ms).1 is File),
{
}

/// A rotation that failed is not tried again until the log has grown, and then goes on with
/// the step that failed.
pub proof fn failed_rotation_is_put_off(
    log: RotatingLog,
    size: u64,
    incoming: u64,
    now_ms: u64,
    later_ms: u64,
)
    requires
        log.wf(),
        log.point is Rotating,
        size + ROTATE_RETRY_STEP_BYTES <= u64::MAX,
        incoming < ROTATE_RETRY_STEP_BYTES,
    ensures
        ({
            let failed = log.after(LogEvent::FileDone { ok: false }, now_ms).0;
            let open = failed.after(LogEvent::Opened { size: Some(size) }, now_ms).0;
            let written = open.after(LogEvent::Wrote { bytes: Some(incoming) }, now_ms).0;
            &&& written.rotation_step == log.rotation_step
            &&& !(written.begun(incoming, later_ms).1 is File)
        }),
{
}

/// A rotation that succeeded leaves no trace in the log that is begun then.
pub proof fn finished_rotation_starts_afresh(log: RotatingLog, now_ms: u64)
    requires
        log.wf(),
        log.point is Rotating,
        is_last(log.rotation_step),
    ensures
        ({
            let finished = log.after(LogEvent::FileDone { ok: true }, now_ms).0;
            let (open, action) = finished.after(LogEvent::Opened { size: Some(0) }, now_ms);
            &&& open.rotation_step is None
            &&& open.rotate_retry_at is None
            &&& open.written == 0
            &&& action is Write
        }),
{
}

/// A log that cannot be opened swallows what is written and is tried again after a while.
pub proof fn lost_log_is_tried_again(log: RotatingLog, incoming: u64, now_ms: u64, later_ms: u64)
    requires
        log.wf(),
        log.point is Opening,
    ensures
        ({
            let (lost, action) = log.after(LogEvent::Opened { size: None }, now_ms);
            &&& action is Drop
            &&& later_ms >= sum(now_ms, log.reopen_retry_ms) ==> lost.begun(
                incoming,
                later_ms,
            ).1 is Reopen
            &&& later_ms < sum(now_ms, log.reopen_retry_ms) ==> lost.begun(
                incoming,
                later_ms,
            ).1 is Drop
        }),
{
}

/// A write that would make the log too large is preceded by a rotation, unless the log is empty
/// or the rotation failed a short while ago; every other write goes to the log as it is.
pub proof fn large_write_rotates_first(log: RotatingLog, incoming: u64, now_ms: u64)
    requires
        log.point is Idle,
        log.written + incoming <= u64::MAX,
    ensures
        ({
            let (then, action) = log.begun(incoming, now_ms);
            let too_large = log.written > 0 && log.written + incoming > log.max_bytes;
            let put_off = log.rotate_retry_at is Some && log.written < log.rotate_retry_at->0;
            &&& action is File <==> too_large && !put_off
            &&& action is File ==> then == (RotatingLog {
                open: false,
                point: LogPoint::Rotating,
                ..log
            }) && action->close && action->op == op_of(log.rotation_step)
            &&& !(action is File) && log.open ==> action is Write && then == (RotatingLog {
                point: LogPoint::Writing,
                ..log
            })
            &&& !(action is File) && !log.open ==> action is Reopen || action is Drop
            &&& action is Drop ==> log.reopen_retry_at is Some && now_ms < log.reopen_retry_at->0
        }),
{
}

/// While a rotation has steps left and none fails, the next step follows; after the last, or
/// after one that fails, the log is opened again.
pub proof fn rotation_goes_step_by_step(log: RotatingLog, now_ms: u64)
    requires
        log.point is Rotating,
    ensures
        ({
            let (then, action) = log.after(LogEvent::FileDone { ok: true }, now_ms);
            &&& then.rotation_step == step_after(log.rotation_step)
            &&& then.rotation_step is Some ==> then.point is Rotating && action == (
            LogAction::File { op: op_of(then.rotation_step), close: false })
            &&& then.rotation_step is None ==> action is Reopen
        }),
        ({
            let (then, action) = log.after(LogEvent::FileDone { ok: false }, now_ms);
            &&& action is Reopen
            &&& then.rotation_step == log.rotation_step
            &&& then.written == log.written
        }),
{
}

/// The size of the log is what it had when it was opened and what was written since; a write
/// that fails adds nothing.
pub proof fn size_is_kept_in_mind(log: RotatingLog, size: u64, n: u64, now_ms: u64)
    requires
        log.point is Opening,
        size + n <= u64::MAX,
    ensures
        ({
            let (open, action) = log.after(LogEvent::Opened { size: Some(size) }, now_ms);
            let wrote = open.after(LogEvent::Wrote { bytes: Some(n) }, now_ms);
            let failed = open.after(LogEvent::Wrote { bytes: None }, now_ms);
            &&& action is Write
            &&& open.open && open.written == size && open.reopen_retry_at is None
            &&& wrote.1 is Finished && wrote.0.written == size + n && wrote.0.point is Idle
            &&& failed.1 is Finished && failed.0.written == size && failed.0.point is Idle
            &&& wrote.0.open && failed.0.open
        }),
{
}

/// A rotation that failed is tried again once the log has grown by the step, and goes on where
/// it had stopped.
pub proof fn failed_rotation_is_tried_again(
    log: RotatingLog,
    size: u64,
    n: u64,
    incoming: u64,
    now_ms: u64,
)
    requires
        log.point is Rotating,
        n >= ROTATE_RETRY_STEP_BYTES,
        size + n + incoming <= u64::MAX,
        size + n + incoming > log.max_bytes,
    ensures
        ({
            let failed = log.after(LogEvent::FileDone { ok: false }, now_ms).0;
            let open = failed.after(LogEvent::Opened { size: Some(size) }, now_ms).0;
            let grown = open.after(LogEvent::Wrote { bytes: Some(n) }, now_ms).0;
            grown.begun(incoming, now_ms).1 == (LogAction::File {
                op: op_of(log.rotation_step),
                close: true,
            })
        }),
{
}

} // verus!
