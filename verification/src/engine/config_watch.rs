//! Finding out that the settings file has changed.
//!
//! Three things wake the watch: an event that says that settings were saved, a request
//! from the input method itself, and a notice that something in the directory changed.
//! None of them is sure to arrive, so the file is read from time to time as well, and
//! where one of the three could not be set up, that is tried again on those occasions.
//! Notices that come in quick succession are answered by one read.

use vstd::prelude::*;

verus! {

/// How long it must have been quiet after a notice.
pub const DEBOUNCE_MS: u64 = 300;

/// How long notices can put a read off, from the first one on.
pub const MAX_BURST_MS: u64 = 2_000;

/// How long after a read the file is read again without a notice.
pub const PERIODIC_MS: u64 = 30_000;

/// `a + b`, or the largest number where that is too large.
pub open spec fn later(a: u64, b: u64) -> u64 {
    if a + b > u64::MAX {
        u64::MAX
    } else {
        (a + b) as u64
    }
}

/// The smaller number.
pub open spec fn earlier(a: u64, b: u64) -> u64 {
    if a <= b {
        a
    } else {
        b
    }
}

/// When to read.
#[derive(Clone, Copy, Debug, PartialEq, Eq, Structural)]
pub struct WatchScheduler {
    pub periodic_ms: u64,
    /// When the file is read without a notice.
    pub next_periodic_at: u64,
    /// When the first notice came that no read has answered.
    pub burst_start_at: Option<u64>,
    /// When the last one came.
    pub last_notify_at: Option<u64>,
    /// Whether settings were saved since the last read.
    pub save_event: bool,
}

/// A read that is due.
#[derive(Clone, Copy, Debug, PartialEq, Eq)]
pub struct ReadJob {
    /// Whether settings were saved, so that the engine is to be told afterwards.
    pub save_event: bool,
    /// What the read is due to.
    pub reason: &'static str,
}

/// The name of what a read is due to.
pub open spec fn reason_name(notified: bool) -> Seq<char> {
    if notified {
        "notify"@
    } else {
        "periodic"@
    }
}

/// The name of what a read is due to.
pub fn read_reason(notified: bool) -> (r: &'static str)
    ensures
        r@ == reason_name(notified),
{
    if notified {
        "notify"
    } else {
        "periodic"
    }
}

impl WatchScheduler {
    /// Starts at `now_ms` with the usual interval.
    pub fn new(now_ms: u64) -> (r: Self)
        ensures
            r == Self::starting(now_ms, PERIODIC_MS),
    {
        Self::with_periodic(now_ms, PERIODIC_MS)
    }

    /// The state at the start.
    pub open spec fn starting(now_ms: u64, periodic_ms: u64) -> WatchScheduler {
        WatchScheduler {
            periodic_ms,
            next_periodic_at: later(now_ms, periodic_ms),
            burst_start_at: None,
            last_notify_at: None,
            save_event: false,
        }
    }

    /// Starts at `now_ms` with an interval.
    pub fn with_periodic(now_ms: u64, periodic_ms: u64) -> (r: Self)
        ensures
            r == Self::starting(now_ms, periodic_ms),
    {
        WatchScheduler {
            periodic_ms,
            next_periodic_at: now_ms.saturating_add(periodic_ms),
            burst_start_at: None,
            last_notify_at: None,
            save_event: false,
        }
    }

    /// The state after a notice.
    pub open spec fn notified(self, now_ms: u64) -> WatchScheduler {
        WatchScheduler {
            burst_start_at: match self.burst_start_at {
                Some(t) => Some(t),
                None => Some(now_ms),
            },
            last_notify_at: Some(now_ms),
            ..self
        }
    }

    /// A notice came.
    pub fn on_notify(&mut self, now_ms: u64)
        ensures
            *final(self) == old(self).notified(now_ms),
    {
        if self.burst_start_at.is_none() {
            self.burst_start_at = Some(now_ms);
        }
        self.last_notify_at = Some(now_ms);
    }

    /// Settings were saved.
    pub fn on_save_event(&mut self, now_ms: u64)
        ensures
            *final(self) == (WatchScheduler { save_event: true, ..old(self).notified(now_ms) }),
    {
        self.save_event = true;
        self.on_notify(now_ms);
    }

    /// When notices want a read: when it has been quiet, but not too long after the first.
    pub open spec fn wanted_at(self) -> Option<u64> {
        match (self.burst_start_at, self.last_notify_at) {
            (Some(first), Some(last)) => Some(
                earlier(later(last, DEBOUNCE_MS), later(first, MAX_BURST_MS)),
            ),
            _ => None,
        }
    }

    /// When notices want a read.
    pub fn request_deadline(&self) -> (r: Option<u64>)
        ensures
            r == self.wanted_at(),
    {
        match (self.burst_start_at, self.last_notify_at) {
            (Some(first), Some(last)) => {
                let quiet: u64 = last.saturating_add(DEBOUNCE_MS);
                let cap: u64 = first.saturating_add(MAX_BURST_MS);
                Some(if quiet <= cap {
                    quiet
                } else {
                    cap
                })
            },
            _ => None,
        }
    }

    /// When the next read is due.
    pub open spec fn due_at(self) -> u64 {
        match self.wanted_at() {
            Some(t) => earlier(t, self.next_periodic_at),
            None => self.next_periodic_at,
        }
    }

    /// When the next read is due.
    pub fn next_deadline(&self) -> (r: u64)
        ensures
            r == self.due_at(),
    {
        match self.request_deadline() {
            Some(t) => if t <= self.next_periodic_at {
                t
            } else {
                self.next_periodic_at
            },
            None => self.next_periodic_at,
        }
    }

    /// How long it is until the next read.
    pub fn wait_ms(&self, now_ms: u64) -> (r: u64)
        ensures
            r == (if self.due_at() > now_ms {
                (self.due_at() - now_ms) as u64
            } else {
                0
            }),
    {
        self.next_deadline().saturating_sub(now_ms)
    }

    /// The state after a read was started: all notices until then are answered.
    pub open spec fn taken(self) -> WatchScheduler {
        WatchScheduler { burst_start_at: None, last_notify_at: None, save_event: false, ..self }
    }

    /// Starts the read that is due, if one is.
    pub fn take_due(&mut self, now_ms: u64) -> (r: Option<ReadJob>)
        ensures
            r is Some <==> now_ms >= old(self).due_at(),
            r is None ==> *final(self) == *old(self),
            r is Some ==> *final(self) == old(self).taken() && (r->0).save_event
                == old(self).save_event && (r->0).reason@ == reason_name(
                old(self).wanted_at() matches Some(t) && now_ms >= t,
            ),
    {
        let request_due = match self.request_deadline() {
            Some(t) => now_ms >= t,
            None => false,
        };
        let periodic_due = now_ms >= self.next_periodic_at;
        if !request_due && !periodic_due {
            return None;
        }
        self.burst_start_at = None;
        self.last_notify_at = None;
        let save_event = self.save_event;
        self.save_event = false;
        Some(ReadJob { save_event, reason: read_reason(request_due) })
    }

    /// The state after a read was finished.
    pub open spec fn read_at(self, now_ms: u64) -> WatchScheduler {
        WatchScheduler { next_periodic_at: later(now_ms, self.periodic_ms), ..self }
    }

    /// A read is finished, whatever came of it.
    pub fn on_read_done(&mut self, now_ms: u64)
        ensures
            *final(self) == old(self).read_at(now_ms),
    {
        self.next_periodic_at = now_ms.saturating_add(self.periodic_ms);
    }

    /// Whether there are notices that no read has answered.
    pub fn has_request(&self) -> (r: bool)
        ensures
            r == (self.burst_start_at is Some),
    {
        self.burst_start_at.is_some()
    }
}

/// A read is asked for from elsewhere: whether there is an event by which the watch can be
/// woken. Where there is none yet, the next read comes by itself.
pub fn request_background_reload(event: usize) -> (r: bool)
    ensures
        r == (event != 0),
{
    event != 0
}

/// What can wake the watch.
#[derive(Clone, Copy, Debug, PartialEq, Eq, Structural)]
pub enum WatchSource {
    /// Settings were saved.
    SaveEvent,
    /// The input method asks for a read.
    Request,
    /// Something in the directory changed.
    DirChange,
}

/// The sources that could be set up, in the order in which they are waited for.
#[derive(Debug, PartialEq)]
pub struct WaitSet {
    order: Vec<WatchSource>,
}

/// The sources in order.
pub open spec fn source_order(save_event: bool, request: bool, dir_change: bool) -> Seq<
    WatchSource,
> {
    (if save_event {
        seq![WatchSource::SaveEvent]
    } else {
        Seq::empty()
    }) + (if request {
        seq![WatchSource::Request]
    } else {
        Seq::empty()
    }) + (if dir_change {
        seq![WatchSource::DirChange]
    } else {
        Seq::empty()
    })
}

impl View for WaitSet {
    type V = Seq<WatchSource>;

    closed spec fn view(&self) -> Seq<WatchSource> {
        self.order@
    }
}

impl WaitSet {
    /// The set of the sources that are there.
    pub fn new(save_event: bool, request: bool, dir_change: bool) -> (r: Self)
        ensures
            r@ == source_order(save_event, request, dir_change),
    {
        let mut order: Vec<WatchSource> = Vec::new();
        if save_event {
            order.push(WatchSource::SaveEvent);
        }
        if request {
            order.push(WatchSource::Request);
        }
        if dir_change {
            order.push(WatchSource::DirChange);
        }
        assert(order@ =~= source_order(save_event, request, dir_change));
        WaitSet { order }
    }

    /// Whether there is nothing to wait for.
    pub fn is_empty(&self) -> (r: bool)
        ensures
            r == (self@.len() == 0),
    {
        self.order.len() == 0
    }

    /// How many sources there are.
    pub fn len(&self) -> (r: usize)
        ensures
            r == self@.len(),
    {
        self.order.len()
    }

    /// The source at a place in the order.
    pub fn source_at(&self, index: u32) -> (r: Option<WatchSource>)
        ensures
            r == (if index < self@.len() {
                Some(self@[index as int])
            } else {
                None
            }),
    {
        if (index as usize) < self.order.len() {
            Some(self.order[index as usize])
        } else {
            None
        }
    }

    /// The sources.
    pub fn sources(&self) -> (r: &Vec<WatchSource>)
        ensures
            r@ == self@,
    {
        &self.order
    }
}

/// Failures that a test rig has the watch run into.
#[derive(Clone, Copy, Debug, PartialEq, Eq, Structural)]
pub struct FaultFlags {
    /// Notices are not answered.
    pub suppress_notifications: bool,
    pub fail_save_event: bool,
    pub fail_request_event: bool,
    pub fail_dir_watch: bool,
    /// The directory is not watched on after its next change.
    pub fail_rearm_once: bool,
}

/// No failures.
pub open spec fn no_faults() -> FaultFlags {
    FaultFlags {
        suppress_notifications: false,
        fail_save_event: false,
        fail_request_event: false,
        fail_dir_watch: false,
        fail_rearm_once: false,
    }
}

impl Default for FaultFlags {
    fn default() -> (r: Self)
        ensures
            r == no_faults(),
    {
        FaultFlags {
            suppress_notifications: false,
            fail_save_event: false,
            fail_request_event: false,
            fail_dir_watch: false,
            fail_rearm_once: false,
        }
    }
}

/// How the watch is run.
#[derive(Clone, Copy, Debug, PartialEq, Eq, Structural)]
pub struct LoopOptions {
    /// Whether an event ends the watch. It is waited for before the sources.
    pub has_stop: bool,
    pub periodic_ms: u64,
    /// How often the test rig is looked at.
    pub control_poll_ms: Option<u64>,
}

/// A truth value for each source.
#[derive(Clone, Copy, Debug, PartialEq, Eq, Structural)]
pub struct SourceFlags {
    pub save_event: bool,
    pub request: bool,
    pub dir_change: bool,
}

/// Where the watch is between two actions.
#[derive(Clone, Copy, Debug, PartialEq, Eq, Structural)]
pub enum WatchPoint {
    /// The test rig is looked at for the first time.
    Starting,
    /// The sources are set up for the first time.
    Opening { tried: SourceFlags },
    Waiting,
    /// The directory is set up to be watched on.
    Rearming,
    Pausing,
    /// The test rig is looked at.
    Controlling,
    /// Sources that are missing are set up, before the watch looks whether a read is due.
    Restoring { tried: SourceFlags },
    Reading { save_event: bool },
    /// Sources that are missing are set up after a read.
    Mending { tried: SourceFlags, save_event: bool },
    /// The engine is told about new settings.
    Applying,
    Stopped,
}

/// What came of the last action.
#[derive(Clone, Copy, Debug, PartialEq, Eq, Structural)]
pub enum WatchEvent {
    /// What the test rig says.
    Faults { flags: FaultFlags },
    /// Which sources could be set up.
    Created { made: SourceFlags },
    /// Nothing woke the watch.
    TimedOut,
    /// It could not be waited.
    WaitFailed,
    /// What woke the watch, by its place.
    Signaled { index: u32 },
    /// Whether the directory is watched on.
    Rearmed { ok: bool },
    /// The pause is over, the file was read, or the engine was told.
    Finished,
}

/// What is to be done next.
#[derive(Clone, Copy, Debug, PartialEq, Eq, Structural)]
pub enum WatchNext {
    /// Look at the test rig.
    AskFaults,
    /// Set up sources; `log` says for which a failure is reported.
    Create { which: SourceFlags, log: SourceFlags },
    /// Wait for the sources.
    Wait { ms: u32 },
    /// Let time pass, as there is nothing to wait for.
    Sleep { ms: u32 },
    /// Let time pass after a failure.
    Pause { ms: u32 },
    Rearm,
    /// Read the file.
    Read { notified: bool },
    /// Tell the engine.
    Apply,
    Stop,
}

/// What is to be done.
#[derive(Clone, Copy, Debug, PartialEq, Eq, Structural)]
pub struct WatchAction {
    /// Whether the watch of the directory is given up first.
    pub close_dir: bool,
    pub next: WatchNext,
}

/// The watch.
#[derive(Clone, Copy, Debug, PartialEq, Eq, Structural)]
pub struct WatchLoop {
    pub options: LoopOptions,
    pub sched: WatchScheduler,
    pub faults: FaultFlags,
    /// The sources that are set up.
    pub present: SourceFlags,
    /// The sources whose absence was reported.
    pub logged_missing: SourceFlags,
    pub rearm_failed_once: bool,
    pub point: WatchPoint,
}

/// Whether `event` can come of what the watch was doing.
pub open spec fn event_fits(point: WatchPoint, event: WatchEvent) -> bool {
    match point {
        WatchPoint::Starting | WatchPoint::Controlling => event is Faults,
        WatchPoint::Opening { .. } | WatchPoint::Restoring { .. } | WatchPoint::Mending { .. } =>
            event is Created,
        WatchPoint::Waiting => event is TimedOut || event is WaitFailed || event is Signaled,
        WatchPoint::Rearming => event is Rearmed,
        WatchPoint::Pausing | WatchPoint::Reading { .. } | WatchPoint::Applying =>
            event is Finished,
        WatchPoint::Stopped => false,
    }
}

/// Only the sources that were tried can have been made.
pub open spec fn both(a: SourceFlags, b: SourceFlags) -> SourceFlags {
    SourceFlags {
        save_event: a.save_event && b.save_event,
        request: a.request && b.request,
        dir_change: a.dir_change && b.dir_change,
    }
}

/// Whether any flag is set.
pub open spec fn any(a: SourceFlags) -> bool {
    a.save_event || a.request || a.dir_change
}

/// An action without further ado.
pub open spec fn plainly(next: WatchNext) -> WatchAction {
    WatchAction { close_dir: false, next }
}

impl WatchLoop {
    /// The sources that can be set up while the test rig has others fail.
    pub open spec fn allowed(flags: FaultFlags) -> SourceFlags {
        SourceFlags {
            save_event: !flags.fail_save_event,
            request: !flags.fail_request_event,
            dir_change: !flags.fail_dir_watch,
        }
    }

    /// The sources that are missing and can be set up.
    pub open spec fn missing(self) -> SourceFlags {
        let allowed = Self::allowed(self.faults);
        SourceFlags {
            save_event: !self.present.save_event && allowed.save_event,
            request: !self.present.request && allowed.request,
            dir_change: !self.present.dir_change && allowed.dir_change,
        }
    }

    /// How long the watch waits at most: until the next read is due, but no longer than
    /// until the test rig is looked at, and within what the system can wait.
    pub open spec fn patience(self, now: u64) -> u32 {
        let due: u64 = if self.sched.due_at() > now {
            (self.sched.due_at() - now) as u64
        } else {
            0
        };
        let poll = match self.options.control_poll_ms {
            Some(ms) => earlier(due, ms),
            None => due,
        };
        earlier(poll, (u32::MAX - 1) as u64) as u32
    }

    /// The watch waits.
    pub open spec fn waits(self, now: u64) -> (WatchLoop, WatchAction) {
        if !any(self.present) && !self.options.has_stop {
            (
                WatchLoop { point: WatchPoint::Pausing, ..self },
                plainly(WatchNext::Sleep { ms: self.patience(now) }),
            )
        } else {
            (
                WatchLoop { point: WatchPoint::Waiting, ..self },
                plainly(WatchNext::Wait { ms: self.patience(now) }),
            )
        }
    }

    /// The watch looks at the test rig.
    pub open spec fn asks(self) -> (WatchLoop, WatchAction) {
        (WatchLoop { point: WatchPoint::Controlling, ..self }, plainly(WatchNext::AskFaults))
    }

    /// The watch lets time pass.
    pub open spec fn pauses(self, ms: u32) -> (WatchLoop, WatchAction) {
        (WatchLoop { point: WatchPoint::Pausing, ..self }, plainly(WatchNext::Pause { ms }))
    }

    /// Notices are answered.
    pub open spec fn heard(self, now: u64) -> WatchLoop {
        if self.faults.suppress_notifications {
            self
        } else {
            WatchLoop { sched: self.sched.notified(now), ..self }
        }
    }

    /// The watch of the directory is given up until the next occasion.
    pub open spec fn without_dir(self) -> (WatchLoop, WatchAction) {
        (
            WatchLoop {
                present: SourceFlags { dir_change: false, ..self.present },
                logged_missing: SourceFlags { dir_change: true, ..self.logged_missing },
                point: WatchPoint::Controlling,
                ..self
            },
            WatchAction { close_dir: true, next: WatchNext::AskFaults },
        )
    }

    /// The source that stands at a place of what is waited for.
    pub open spec fn source_of(self, index: u32) -> Option<WatchSource> {
        let order = source_order(
            self.present.save_event,
            self.present.request,
            self.present.dir_change,
        );
        let place: int = if self.options.has_stop {
            index - 1
        } else {
            index as int
        };
        if 0 <= place < order.len() {
            Some(order[place])
        } else {
            None
        }
    }

    /// A source woke the watch.
    pub open spec fn woken(self, index: u32, now: u64) -> (WatchLoop, WatchAction) {
        if self.options.has_stop && index == 0 {
            (WatchLoop { point: WatchPoint::Stopped, ..self }, plainly(WatchNext::Stop))
        } else {
            match self.source_of(index) {
                None => self.pauses(100),
                Some(WatchSource::SaveEvent) => if self.faults.suppress_notifications {
                    self.asks()
                } else {
                    WatchLoop {
                        sched: WatchScheduler { save_event: true, ..self.sched.notified(now) },
                        ..self
                    }.asks()
                },
                Some(WatchSource::Request) => self.heard(now).asks(),
                Some(WatchSource::DirChange) => if self.faults.fail_rearm_once
                    && !self.rearm_failed_once {
                    WatchLoop { rearm_failed_once: true, ..self.heard(now) }.without_dir()
                } else {
                    (
                        WatchLoop { point: WatchPoint::Rearming, ..self.heard(now) },
                        plainly(WatchNext::Rearm),
                    )
                },
            }
        }
    }

    /// The watch looks whether a read is due.
    pub open spec fn looks(self, now: u64) -> (WatchLoop, WatchAction) {
        if now >= self.sched.due_at() {
            (
                WatchLoop {
                    sched: self.sched.taken(),
                    point: WatchPoint::Reading { save_event: self.sched.save_event },
                    ..self
                },
                plainly(
                    WatchNext::Read {
                        notified: self.sched.wanted_at() matches Some(t) && now >= t,
                    },
                ),
            )
        } else {
            self.waits(now)
        }
    }

    /// Sources were set up, or it was tried.
    pub open spec fn gained(self, tried: SourceFlags, made: SourceFlags) -> WatchLoop {
        let got = both(tried, made);
        WatchLoop {
            present: SourceFlags {
                save_event: self.present.save_event || got.save_event,
                request: self.present.request || got.request,
                dir_change: self.present.dir_change || got.dir_change,
            },
            logged_missing: SourceFlags {
                save_event: if tried.save_event {
                    !got.save_event
                } else {
                    self.logged_missing.save_event
                },
                request: if tried.request {
                    !got.request
                } else {
                    self.logged_missing.request
                },
                dir_change: if tried.dir_change {
                    !got.dir_change
                } else {
                    self.logged_missing.dir_change
                },
            },
            ..self
        }
    }

    /// The request to set up what is missing; failures that were reported are not again.
    pub open spec fn restores(self) -> WatchNext {
        WatchNext::Create {
            which: self.missing(),
            log: SourceFlags {
                save_event: !self.logged_missing.save_event,
                request: !self.logged_missing.request,
                dir_change: !self.logged_missing.dir_change,
            },
        }
    }

    /// What follows a read after what was missing was set up.
    pub open spec fn after_read(self, save_event: bool, now: u64) -> (WatchLoop, WatchAction) {
        if save_event {
            (WatchLoop { point: WatchPoint::Applying, ..self }, plainly(WatchNext::Apply))
        } else {
            self.waits(now)
        }
    }

    /// One step: what came of the last action at the time `now`, and what is done next.
    pub open spec fn after(self, event: WatchEvent, now: u64) -> (WatchLoop, WatchAction) {
        match (self.point, event) {
            (WatchPoint::Starting, WatchEvent::Faults { flags }) => {
                let tried = Self::allowed(flags);
                (
                    WatchLoop { faults: flags, point: WatchPoint::Opening { tried }, ..self },
                    plainly(
                        WatchNext::Create {
                            which: tried,
                            log: SourceFlags { save_event: true, request: true, dir_change: true },
                        },
                    ),
                )
            },
            (WatchPoint::Opening { tried }, WatchEvent::Created { made }) => {
                let got = both(tried, made);
                WatchLoop {
                    present: got,
                    logged_missing: SourceFlags {
                        save_event: !got.save_event,
                        request: !got.request,
                        dir_change: !got.dir_change,
                    },
                    sched: WatchScheduler::starting(now, self.options.periodic_ms),
                    ..self
                }.waits(now)
            },
            (WatchPoint::Waiting, WatchEvent::TimedOut) => self.asks(),
            (WatchPoint::Waiting, WatchEvent::WaitFailed) => self.pauses(1000),
            (WatchPoint::Waiting, WatchEvent::Signaled { index }) => self.woken(index, now),
            (WatchPoint::Rearming, WatchEvent::Rearmed { ok }) => if ok {
                self.asks()
            } else {
                self.without_dir()
            },
            (WatchPoint::Pausing, _) => self.asks(),
            (WatchPoint::Controlling, WatchEvent::Faults { flags }) => {
                let seen = WatchLoop { faults: flags, ..self };
                if self.faults != no_faults() && flags == no_faults() && any(seen.missing()) {
                    (
                        WatchLoop {
                            point: WatchPoint::Restoring { tried: seen.missing() },
                            ..seen
                        },
                        plainly(seen.restores()),
                    )
                } else {
                    seen.looks(now)
                }
            },
            (WatchPoint::Restoring { tried }, WatchEvent::Created { made }) => self.gained(
                tried,
                made,
            ).looks(now),
            (WatchPoint::Reading { save_event }, _) => {
                let read = WatchLoop { sched: self.sched.read_at(now), ..self };
                if any(read.missing()) {
                    (
                        WatchLoop {
                            point: WatchPoint::Mending { tried: read.missing(), save_event },
                            ..read
                        },
                        plainly(read.restores()),
                    )
                } else {
                    read.after_read(save_event, now)
                }
            },
            (WatchPoint::Mending { tried, save_event }, WatchEvent::Created { made }) =>
                self.gained(tried, made).after_read(save_event, now),
            (WatchPoint::Applying, _) => self.waits(now),
            _ => (self, plainly(WatchNext::Stop)),
        }
    }

    /// Starts the watch.
    pub fn start(options: LoopOptions) -> (r: (WatchLoop, WatchAction))
        ensures
            r.0.options == options,
            r.0.point is Starting,
            r.0.present == (SourceFlags { save_event: false, request: false, dir_change: false }),
            !r.0.rearm_failed_once,
            r.0.sched == WatchScheduler::starting(0, options.periodic_ms),
            r.1 == plainly(WatchNext::AskFaults),
    {
        let none = SourceFlags { save_event: false, request: false, dir_change: false };
        (
            WatchLoop {
                options,
                sched: WatchScheduler::with_periodic(0, options.periodic_ms),
                faults: FaultFlags::default(),
                present: none,
                logged_missing: none,
                rearm_failed_once: false,
                point: WatchPoint::Starting,
            },
            WatchAction { close_dir: false, next: WatchNext::AskFaults },
        )
    }

    /// The sources to wait for, in order.
    pub fn wait_set(&self) -> (r: WaitSet)
        ensures
            r@ == source_order(
                self.present.save_event,
                self.present.request,
                self.present.dir_change,
            ),
    {
        WaitSet::new(self.present.save_event, self.present.request, self.present.dir_change)
    }

    fn wait_action(&mut self, now: u64) -> (r: WatchAction)
        ensures
            (*final(self), r) == old(self).waits(now),
    {
        let mut ms: u64 = self.sched.wait_ms(now);
        if let Some(poll) = self.options.control_poll_ms {
            if poll < ms {
                ms = poll;
            }
        }
        if ms > 0xffff_fffe {
            ms = 0xffff_fffe;
        }
        let any_source = self.present.save_event || self.present.request
            || self.present.dir_change;
        if !any_source && !self.options.has_stop {
            self.point = WatchPoint::Pausing;
            WatchAction { close_dir: false, next: WatchNext::Sleep { ms: ms as u32 } }
        } else {
            self.point = WatchPoint::Waiting;
            WatchAction { close_dir: false, next: WatchNext::Wait { ms: ms as u32 } }
        }
    }

    fn ask_action(&mut self) -> (r: WatchAction)
        ensures
            (*final(self), r) == old(self).asks(),
    {
        self.point = WatchPoint::Controlling;
        WatchAction { close_dir: false, next: WatchNext::AskFaults }
    }

    fn drop_dir(&mut self) -> (r: WatchAction)
        ensures
            (*final(self), r) == old(self).without_dir(),
    {
        self.present.dir_change = false;
        self.logged_missing.dir_change = true;
        self.point = WatchPoint::Controlling;
        WatchAction { close_dir: true, next: WatchNext::AskFaults }
    }

    fn on_signal(&mut self, index: u32, now: u64) -> (r: WatchAction)
        ensures
            (*final(self), r) == old(self).woken(index, now),
    {
        if self.options.has_stop && index == 0 {
            self.point = WatchPoint::Stopped;
            return WatchAction { close_dir: false, next: WatchNext::Stop };
        }
        let place: u32 = if self.options.has_stop {
            index - 1
        } else {
            index
        };
        match self.wait_set().source_at(place) {
            None => {
                self.point = WatchPoint::Pausing;
                WatchAction { close_dir: false, next: WatchNext::Pause { ms: 100 } }
            },
            Some(WatchSource::SaveEvent) => {
                if !self.faults.suppress_notifications {
                    self.sched.on_save_event(now);
                }
                self.ask_action()
            },
            Some(WatchSource::Request) => {
                if !self.faults.suppress_notifications {
                    self.sched.on_notify(now);
                }
                self.ask_action()
            },
            Some(WatchSource::DirChange) => {
                if !self.faults.suppress_notifications {
                    self.sched.on_notify(now);
                }
                if self.faults.fail_rearm_once && !self.rearm_failed_once {
                    self.rearm_failed_once = true;
                    return self.drop_dir();
                }
                self.point = WatchPoint::Rearming;
                WatchAction { close_dir: false, next: WatchNext::Rearm }
            },
        }
    }

    fn look_action(&mut self, now: u64) -> (r: WatchAction)
        ensures
            (*final(self), r) == old(self).looks(now),
    {
        let notified = match self.sched.request_deadline() {
            Some(t) => now >= t,
            None => false,
        };
        match self.sched.take_due(now) {
            Some(job) => {
                self.point = WatchPoint::Reading { save_event: job.save_event };
                WatchAction { close_dir: false, next: WatchNext::Read { notified } }
            },
            None => self.wait_action(now),
        }
    }

    fn missing_now(&self) -> (r: SourceFlags)
        ensures
            r == self.missing(),
    {
        SourceFlags {
            save_event: !self.present.save_event && !self.faults.fail_save_event,
            request: !self.present.request && !self.faults.fail_request_event,
            dir_change: !self.present.dir_change && !self.faults.fail_dir_watch,
        }
    }

    fn restore_action(&self, which: SourceFlags) -> (r: WatchAction)
        requires
            which == self.missing(),
        ensures
            r == plainly(self.restores()),
    {
        WatchAction {
            close_dir: false,
            next: WatchNext::Create {
                which,
                log: SourceFlags {
                    save_event: !self.logged_missing.save_event,
                    request: !self.logged_missing.request,
                    dir_change: !self.logged_missing.dir_change,
                },
            },
        }
    }

    /// Takes over which of the sources that were tried could be set up.
    pub fn retry_missing(&mut self, tried: SourceFlags, made: SourceFlags)
        ensures
            *final(self) == old(self).gained(tried, made),
    {
        if tried.save_event {
            self.present.save_event = self.present.save_event || made.save_event;
            self.logged_missing.save_event = !made.save_event;
        }
        if tried.request {
            self.present.request = self.present.request || made.request;
            self.logged_missing.request = !made.request;
        }
        if tried.dir_change {
            self.present.dir_change = self.present.dir_change || made.dir_change;
            self.logged_missing.dir_change = !made.dir_change;
        }
    }

    fn applied_action(&mut self, save_event: bool, now: u64) -> (r: WatchAction)
        ensures
            (*final(self), r) == old(self).after_read(save_event, now),
    {
        if save_event {
            self.point = WatchPoint::Applying;
            WatchAction { close_dir: false, next: WatchNext::Apply }
        } else {
            self.wait_action(now)
        }
    }

    /// One step of the watch: what came of the last action at the time `now`, and what is to
    /// be done next.
    pub fn run_loop_with(&mut self, event: WatchEvent, now: u64) -> (r: WatchAction)
        requires
            event_fits(old(self).point, event),
        ensures
            (*final(self), r) == old(self).after(event, now),
    {
        match self.point {
            WatchPoint::Starting => {
                if let WatchEvent::Faults { flags } = event {
                    let tried = SourceFlags {
                        save_event: !flags.fail_save_event,
                        request: !flags.fail_request_event,
                        dir_change: !flags.fail_dir_watch,
                    };
                    self.faults = flags;
                    self.point = WatchPoint::Opening { tried };
                    return WatchAction {
                        close_dir: false,
                        next: WatchNext::Create {
                            which: tried,
                            log: SourceFlags { save_event: true, request: true, dir_change: true },
                        },
                    };
                }
            },
            WatchPoint::Opening { tried } => {
                if let WatchEvent::Created { made } = event {
                    self.present = SourceFlags {
                        save_event: tried.save_event && made.save_event,
                        request: tried.request && made.request,
                        dir_change: tried.dir_change && made.dir_change,
                    };
                    self.logged_missing = SourceFlags {
                        save_event: !self.present.save_event,
                        request: !self.present.request,
                        dir_change: !self.present.dir_change,
                    };
                    self.sched = WatchScheduler::with_periodic(now, self.options.periodic_ms);
                    return self.wait_action(now);
                }
            },
            WatchPoint::Waiting => {
                match event {
                    WatchEvent::TimedOut => {
                        return self.ask_action();
                    },
                    WatchEvent::WaitFailed => {
                        self.point = WatchPoint::Pausing;
                        return WatchAction {
                            close_dir: false,
                            next: WatchNext::Pause { ms: 1000 },
                        };
                    },
                    WatchEvent::Signaled { index } => {
                        return self.on_signal(index, now);
                    },
                    _ => {},
                }
            },
            WatchPoint::Rearming => {
                if let WatchEvent::Rearmed { ok } = event {
                    return if ok {
                        self.ask_action()
                    } else {
                        self.drop_dir()
                    };
                }
            },
            WatchPoint::Pausing => {
                return self.ask_action();
            },
            WatchPoint::Controlling => {
                if let WatchEvent::Faults { flags } = event {
                    let released = self.faults != FaultFlags::default() && flags
                        == FaultFlags::default();
                    self.faults = flags;
                    let tried = self.missing_now();
                    if released && (tried.save_event || tried.request || tried.dir_change) {
                        let action = self.restore_action(tried);
                        self.point = WatchPoint::Restoring { tried };
                        return action;
                    }
                    return self.look_action(now);
                }
            },
            WatchPoint::Restoring { tried } => {
                if let WatchEvent::Created { made } = event {
                    self.retry_missing(tried, made);
                    return self.look_action(now);
                }
            },
            WatchPoint::Reading { save_event } => {
                self.sched.on_read_done(now);
                let tried = self.missing_now();
                if tried.save_event || tried.request || tried.dir_change {
                    let action = self.restore_action(tried);
                    self.point = WatchPoint::Mending { tried, save_event };
                    return action;
                }
                return self.applied_action(save_event, now);
            },
            WatchPoint::Mending { tried, save_event } => {
                if let WatchEvent::Created { made } = event {
                    self.retry_missing(tried, made);
                    return self.applied_action(save_event, now);
                }
            },
            WatchPoint::Applying => {
                return self.wait_action(now);
            },
            WatchPoint::Stopped => {},
        }
        WatchAction { close_dir: false, next: WatchNext::Stop }
    }
}

/// Notices put a read off by no more than `MAX_BURST_MS` after the first of them, and never
/// past the time at which the file is read anyway.
pub proof fn burst_is_bounded(s: WatchScheduler, now: u64)
    ensures
        ({
            let n = s.notified(now);
            &&& n.burst_start_at matches Some(first) && n.due_at() <= later(first, MAX_BURST_MS)
            &&& n.due_at() <= later(now, DEBOUNCE_MS)
            &&& n.due_at() <= s.next_periodic_at
            &&& n.next_periodic_at == s.next_periodic_at
        }),
{
}

/// A notice that comes while the file is read is a new one: the next read answers it.
pub proof fn notice_during_read_counts(s: WatchScheduler, notice: u64, done: u64)
    ensures
        ({
            let after = s.taken().notified(notice).read_at(done);
            after.burst_start_at == Some(notice) && after.due_at() <= later(notice, DEBOUNCE_MS)
        }),
{
}

/// Whether the engine is still to be told that settings were saved.
pub open spec fn owes_apply(w: WatchLoop) -> bool {
    w.sched.save_event || w.point == (WatchPoint::Reading { save_event: true }) || (
    w.point matches WatchPoint::Mending { save_event: true, .. })
}

/// That settings were saved is not forgotten in any step: the engine is told, unless the
/// watch is stopped before.
pub proof fn saving_is_not_forgotten(w: WatchLoop, event: WatchEvent, now: u64)
    requires
        event_fits(w.point, event),
        !(w.point is Starting),
        !(w.point is Opening),
        owes_apply(w),
    ensures
        ({
            let (after, action) = w.after(event, now);
            owes_apply(after) || action.next is Apply || action.next is Stop
        }),
{
}

/// The engine is told only after a read that followed a saving.
pub proof fn engine_is_told_after_read(w: WatchLoop, event: WatchEvent, now: u64)
    requires
        event_fits(w.point, event),
        w.after(event, now).1.next is Apply,
    ensures
        w.point == (WatchPoint::Reading { save_event: true }) || (w.point matches
            WatchPoint::Mending { save_event: true, .. }),
{
}

/// The watch never waits past the time at which a read is due.
pub proof fn read_is_not_slept_through(w: WatchLoop, event: WatchEvent, now: u64)
    requires
        event_fits(w.point, event),
    ensures
        ({
            let (after, action) = w.after(event, now);
            match action.next {
                WatchNext::Wait { ms } => now + ms <= after.sched.due_at() || ms == 0,
                WatchNext::Sleep { ms } => now + ms <= after.sched.due_at() || ms == 0,
                _ => true,
            }
        }),
{
}

/// Whenever the watch has looked at the test rig, a read that is due is begun, at once or
/// after what is missing was set up.
pub proof fn due_read_is_begun(w: WatchLoop, flags: FaultFlags, now: u64)
    requires
        w.point is Controlling,
        now >= w.sched.due_at(),
    ensures
        ({
            let (after, action) = w.after(WatchEvent::Faults { flags }, now);
            action.next is Read || (after.point is Restoring && after.sched == w.sched)
        }),
{
}

/// After every read the time of the next one without a notice is set anew, also after one
/// that failed; nothing else moves it once the watch runs.
pub proof fn period_counts_from_reads(w: WatchLoop, event: WatchEvent, now: u64)
    requires
        event_fits(w.point, event),
        !(w.point is Opening),
    ensures
        ({
            let after = w.after(event, now).0;
            after.sched.next_periodic_at == (if w.point is Reading {
                later(now, w.sched.periodic_ms)
            } else {
                w.sched.next_periodic_at
            })
        }),
{
}

/// What came of the actions of the watch, and when, one after the other.
pub type WatchSteps = Seq<(WatchEvent, u64)>;

/// The watch after some steps.
pub open spec fn after_steps(w: WatchLoop, steps: WatchSteps) -> WatchLoop
    decreases steps.len(),
{
    if steps.len() == 0 {
        w
    } else {
        after_steps(w, steps.drop_last()).after(steps.last().0, steps.last().1).0
    }
}

/// What the last of some steps has done next.
pub open spec fn last_action(w: WatchLoop, steps: WatchSteps) -> WatchNext {
    after_steps(w, steps.drop_last()).after(steps.last().0, steps.last().1).1.next
}

/// Whether each step can come of the action before it.
pub open spec fn steps_fit(w: WatchLoop, steps: WatchSteps) -> bool
    decreases steps.len(),
{
    steps.len() == 0 || (steps_fit(w, steps.drop_last()) && event_fits(
        after_steps(w, steps.drop_last()).point,
        steps.last().0,
    ))
}

/// Whether a step tells the watch that settings were saved.
pub open spec fn hears_saving(w: WatchLoop, event: WatchEvent) -> bool {
    &&& w.point is Waiting
    &&& !w.faults.suppress_notifications
    &&& event matches WatchEvent::Signaled { index } && w.source_of(index) == Some(
        WatchSource::SaveEvent,
    )
}

/// Whether settings were saved in some steps after the last read was begun.
pub open spec fn saving_heard(w: WatchLoop, steps: WatchSteps) -> bool
    decreases steps.len(),
{
    if steps.len() == 0 {
        false
    } else if last_action(w, steps) is Read {
        false
    } else {
        hears_saving(after_steps(w, steps.drop_last()), steps.last().0) || saving_heard(
            w,
            steps.drop_last(),
        )
    }
}

/// How many reads were begun that answer a saving.
pub open spec fn saving_reads(w: WatchLoop, steps: WatchSteps) -> nat
    decreases steps.len(),
{
    if steps.len() == 0 {
        0
    } else {
        saving_reads(w, steps.drop_last()) + (if last_action(w, steps) is Read && saving_heard(
            w,
            steps.drop_last(),
        ) {
            1nat
        } else {
            0
        })
    }
}

/// How often the engine was told.
pub open spec fn applies(w: WatchLoop, steps: WatchSteps) -> nat
    decreases steps.len(),
{
    if steps.len() == 0 {
        0
    } else {
        applies(w, steps.drop_last()) + (if last_action(w, steps) is Apply {
            1nat
        } else {
            0
        })
    }
}

/// Whether a read that answers a saving is under way, or what is missing is set up after it.
pub open spec fn saving_read_under_way(w: WatchLoop) -> bool {
    w.point == (WatchPoint::Reading { save_event: true }) || (w.point matches
        WatchPoint::Mending { save_event: true, .. })
}

proof fn lemma_saving_step(w: WatchLoop, event: WatchEvent, now: u64)
    requires
        event_fits(w.point, event),
        w.point is Starting || w.point is Opening ==> !w.sched.save_event,
    ensures
        ({
            let (after, action) = w.after(event, now);
            &&& after.sched.save_event == (!(action.next is Read) && (hears_saving(w, event)
                || w.sched.save_event))
            &&& saving_read_under_way(after) == if action.next is Read {
                w.sched.save_event
            } else {
                saving_read_under_way(w) && !(action.next is Apply)
            }
            &&& action.next is Apply ==> saving_read_under_way(w)
            &&& action.next is Read ==> !saving_read_under_way(w)
            &&& after.point is Starting || after.point is Opening ==> !after.sched.save_event
        }),
{
}

/// However long the watch runs, the engine is told once after each read that answers a
/// saving, not before that read is over, and after no other read. What is saved after a read
/// was begun is left to the next one.
pub proof fn engine_is_told_once(w: WatchLoop, steps: WatchSteps)
    requires
        w.point is Starting,
        !w.sched.save_event,
        steps_fit(w, steps),
    ensures
        saving_reads(w, steps) == applies(w, steps) + (if saving_read_under_way(
            after_steps(w, steps),
        ) {
            1nat
        } else {
            0
        }),
        after_steps(w, steps).sched.save_event == saving_heard(w, steps),
        after_steps(w, steps).point is Starting || after_steps(w, steps).point is Opening
            ==> !after_steps(w, steps).sched.save_event,
    decreases steps.len(),
{
    if steps.len() > 0 {
        engine_is_told_once(w, steps.drop_last());
        lemma_saving_step(
            after_steps(w, steps.drop_last()),
            steps.last().0,
            steps.last().1,
        );
    }
}

/// When the last read was over, or, before the first one, when the watch began.
pub open spec fn last_read_at(w: WatchLoop, steps: WatchSteps) -> u64
    decreases steps.len(),
{
    if steps.len() == 0 {
        0
    } else {
        let before = after_steps(w, steps.drop_last()).point;
        if before is Reading || before is Opening {
            steps.last().1
        } else {
            last_read_at(w, steps.drop_last())
        }
    }
}

/// While nothing wakes the watch, the file is read without a notice, and the next read is
/// due one interval after the last one was over.
pub proof fn quiet_watch_reads_on(w: WatchLoop, steps: WatchSteps)
    requires
        w.point is Starting,
        w.sched == WatchScheduler::starting(0, w.options.periodic_ms),
        steps_fit(w, steps),
        forall|i: int| 0 <= i < steps.len() ==> !((#[trigger] steps[i]).0 is Signaled),
    ensures
        after_steps(w, steps).sched.due_at() == later(
            last_read_at(w, steps),
            w.options.periodic_ms,
        ),
        after_steps(w, steps).sched.wanted_at() is None,
        after_steps(w, steps).sched.periodic_ms == w.options.periodic_ms,
        after_steps(w, steps).options == w.options,
        steps.len() > 0 ==> (last_action(w, steps) matches WatchNext::Read { notified }
            ==> !notified),
        !after_steps(w, steps).sched.save_event,
    decreases steps.len(),
{
    if steps.len() > 0 {
        let before = steps.drop_last();
        assert forall|i: int| 0 <= i < before.len() implies !((#[trigger] before[i]).0 is Signaled) by {
            assert(before[i] == steps[i]);
        }
        quiet_watch_reads_on(w, before);
        assert(!(steps[steps.len() - 1].0 is Signaled));
    }
}

/// Without a single source the watch goes on: the file is still read from time to time.
pub proof fn watch_survives_without_sources(w: WatchLoop, now: u64)
    requires
        !any(w.present),
        !w.options.has_stop,
    ensures
        w.waits(now).1.next is Sleep,
        w.waits(now).0.after(WatchEvent::Finished, now).1.next is AskFaults,
{
}

/// A read that notices want comes when it has been quiet, earlier only where notices have put it
/// off for as long as they can or where the file is read anyway. Without a notice the file is
/// read when its time has come and not before.
pub proof fn notices_are_answered_after_quiet(s: WatchScheduler, now: u64)
    requires
        now <= u64::MAX - MAX_BURST_MS,
        s.burst_start_at is Some ==> s.burst_start_at->0 <= now,
    ensures
        ({
            let n = s.notified(now);
            let first = if s.burst_start_at is Some {
                s.burst_start_at->0
            } else {
                now
            };
            &&& n.burst_start_at == Some(first)
            &&& n.last_notify_at == Some(now)
            &&& n.save_event == s.save_event
            &&& n.due_at() < now + DEBOUNCE_MS ==> n.due_at() == first + MAX_BURST_MS || n.due_at()
                == s.next_periodic_at
            &&& n.due_at() <= now + DEBOUNCE_MS
        }),
        s.burst_start_at is None ==> s.due_at() == s.next_periodic_at && s.wanted_at() is None,
        ({
            let t = s.taken();
            &&& t.due_at() == s.next_periodic_at
            &&& !t.save_event
            &&& t.periodic_ms == s.periodic_ms
        }),
{
}

/// Times do not wrap round: what would be too late is the last time there is.
pub proof fn times_do_not_wrap(a: u64, b: u64)
    ensures
        later(a, b) >= a,
        later(a, b) >= b,
        a + b <= u64::MAX ==> later(a, b) == a + b,
        a + b > u64::MAX ==> later(a, b) == u64::MAX,
        earlier(a, b) <= a,
        earlier(a, b) <= b,
        earlier(a, b) == a || earlier(a, b) == b,
{
}

/// The watch waits until a read is due, and shorter only where it looks at the test rig before
/// or where the system cannot wait as long.
pub proof fn watch_waits_until_due(w: WatchLoop, now: u64)
    ensures
        ({
            let ms = w.patience(now);
            let due = w.sched.due_at();
            &&& due <= now ==> ms == 0
            &&& due > now ==> now + ms <= due
            &&& due > now && now + ms < due ==> ms == u32::MAX - 1
                || w.options.control_poll_ms == Some(ms as u64)
            &&& w.options.control_poll_ms is Some ==> ms <= w.options.control_poll_ms->0
        }),
        w.waits(now).0.sched == w.sched,
        w.waits(now).1.next is Sleep <==> !w.present.save_event && !w.present.request
            && !w.present.dir_change && !w.options.has_stop,
        w.waits(now).1.next is Sleep ==> w.waits(now).1.next == (WatchNext::Sleep {
            ms: w.patience(now),
        }),
        !(w.waits(now).1.next is Sleep) ==> w.waits(now).1.next == (WatchNext::Wait {
            ms: w.patience(now),
        }),
{
}

/// What woke the watch is told by its place among what is waited for: the event that ends the
/// watch comes first, then the sources that are set up.
pub proof fn wakers_are_told_apart(w: WatchLoop, index: u32)
    ensures
        ({
            let first: int = if w.options.has_stop {
                1
            } else {
                0
            };
            let request: int = first + (if w.present.save_event {
                1int
            } else {
                0
            });
            let dir: int = request + (if w.present.request {
                1int
            } else {
                0
            });
            &&& w.source_of(index) == Some(WatchSource::SaveEvent) <==> w.present.save_event
                && index == first
            &&& w.source_of(index) == Some(WatchSource::Request) <==> w.present.request && index
                == request
            &&& w.source_of(index) == Some(WatchSource::DirChange) <==> w.present.dir_change
                && index == dir
        }),
{
}

/// Every source is a notice, unless the test rig has notices go unanswered. A saving is
/// remembered besides, and a directory is set up to be watched on; what was not waited for makes
/// the watch pause.
pub proof fn sources_are_notices(w: WatchLoop, index: u32, now: u64)
    requires
        w.point is Waiting,
        !w.faults.suppress_notifications,
        !w.faults.fail_rearm_once,
        !w.options.has_stop || index > 0,
    ensures
        ({
            let (after, action) = w.after(WatchEvent::Signaled { index }, now);
            match w.source_of(index) {
                Some(source) => {
                    &&& after.sched.last_notify_at == Some(now)
                    &&& after.sched.burst_start_at is Some
                    &&& w.sched.burst_start_at is Some ==> after.sched.burst_start_at
                        == w.sched.burst_start_at
                    &&& after.sched.save_event == (w.sched.save_event
                        || source is SaveEvent)
                    &&& source is DirChange ==> action.next is Rearm
                    &&& !(source is DirChange) ==> action.next is AskFaults
                    &&& !action.close_dir
                    &&& after.present == w.present
                },
                None => action.next == (WatchNext::Pause { ms: 100 }) && after.sched == w.sched,
            }
        }),
        w.after(WatchEvent::TimedOut, now).1.next is AskFaults,
        w.after(WatchEvent::TimedOut, now).0.sched == w.sched,
        w.after(WatchEvent::WaitFailed, now).1.next == (WatchNext::Pause { ms: 1000 }),
{
}

/// While the test rig has notices go unanswered, no source is one.
pub proof fn suppressed_notices_change_nothing(w: WatchLoop, index: u32, now: u64)
    requires
        w.point is Waiting,
        w.faults.suppress_notifications,
    ensures
        w.after(WatchEvent::Signaled { index }, now).0.sched == w.sched,
{
}

/// The event that ends the watch ends it, whatever else is there.
pub proof fn watch_can_be_stopped(w: WatchLoop, now: u64)
    requires
        w.point is Waiting,
        w.options.has_stop,
    ensures
        w.after(WatchEvent::Signaled { index: 0 }, now).1.next is Stop,
        w.after(WatchEvent::Signaled { index: 0 }, now).0.point is Stopped,
{
}

/// After a read everything that is missing is set up, but for what the test rig has fail; what
/// could be set up is there afterwards, and nothing gets lost.
pub proof fn missing_sources_are_set_up(w: WatchLoop, made: SourceFlags, now: u64, save: bool)
    requires
        w.point == (WatchPoint::Reading { save_event: save }),
        w.faults == no_faults(),
        !w.present.save_event || !w.present.request || !w.present.dir_change,
    ensures
        ({
            let (mending, action) = w.after(WatchEvent::Finished, now);
            let after = mending.after(WatchEvent::Created { made }, now).0;
            &&& action.next is Create
            &&& action.next->which == (SourceFlags {
                save_event: !w.present.save_event,
                request: !w.present.request,
                dir_change: !w.present.dir_change,
            })
            &&& action.next->log == (SourceFlags {
                save_event: !w.logged_missing.save_event,
                request: !w.logged_missing.request,
                dir_change: !w.logged_missing.dir_change,
            })
            &&& after.present.save_event == (w.present.save_event || made.save_event)
            &&& after.present.request == (w.present.request || made.request)
            &&& after.present.dir_change == (w.present.dir_change || made.dir_change)
            &&& !w.present.save_event ==> after.logged_missing.save_event == !made.save_event
            &&& !w.present.request ==> after.logged_missing.request == !made.request
            &&& !w.present.dir_change ==> after.logged_missing.dir_change == !made.dir_change
        }),
{
}

/// Where nothing is missing, the engine is told right after the read that follows a saving, and
/// the watch waits after any other.
pub proof fn complete_watch_goes_on(w: WatchLoop, now: u64, save: bool)
    requires
        w.point == (WatchPoint::Reading { save_event: save }),
        w.present.save_event && w.present.request && w.present.dir_change,
    ensures
        w.after(WatchEvent::Finished, now).1.next is Apply <==> save,
        w.after(WatchEvent::Finished, now).1.next is Wait <==> !save,
        w.after(WatchEvent::Finished, now).0.present == w.present,
{
}

/// A directory that cannot be watched on is given up for now, and only that.
pub proof fn lost_directory_is_given_up(w: WatchLoop, now: u64)
    requires
        w.point is Rearming,
    ensures
        ({
            let (after, action) = w.after(WatchEvent::Rearmed { ok: false }, now);
            &&& action.close_dir
            &&& after.present == (SourceFlags { dir_change: false, ..w.present })
            &&& after.sched == w.sched
            &&& action.next is AskFaults
        }),
        w.after(WatchEvent::Rearmed { ok: true }, now).0.present == w.present,
        !w.after(WatchEvent::Rearmed { ok: true }, now).1.close_dir,
{
}

/// When the watch begins, every source is set up but for what the test rig has fail, and the
/// first read is due one interval later.
pub proof fn watch_begins_with_all_sources(
    w: WatchLoop,
    flags: FaultFlags,
    made: SourceFlags,
    now: u64,
)
    requires
        w.point is Starting,
    ensures
        ({
            let (opening, action) = w.after(WatchEvent::Faults { flags }, now);
            let after = opening.after(WatchEvent::Created { made }, now).0;
            &&& action.next is Create
            &&& action.next->which == (SourceFlags {
                save_event: !flags.fail_save_event,
                request: !flags.fail_request_event,
                dir_change: !flags.fail_dir_watch,
            })
            &&& after.present == (SourceFlags {
                save_event: !flags.fail_save_event && made.save_event,
                request: !flags.fail_request_event && made.request,
                dir_change: !flags.fail_dir_watch && made.dir_change,
            })
            &&& after.sched.due_at() == later(now, w.options.periodic_ms)
            &&& after.faults == flags
        }),
{
}

/// A read says that it answers a notice where one wants it by then, and otherwise that its time
/// has come.
pub proof fn reads_know_their_reason(w: WatchLoop, now: u64)
    requires
        now >= w.sched.due_at(),
    ensures
        ({
            let (after, action) = w.looks(now);
            &&& action.next is Read
            &&& action.next->notified ==> w.sched.burst_start_at is Some
            &&& !action.next->notified ==> now >= w.sched.next_periodic_at
            &&& after.point == (WatchPoint::Reading { save_event: w.sched.save_event })
            &&& after.sched.burst_start_at is None
        }),
        reason_name(true) == "notify"@,
        reason_name(false) == "periodic"@,
{
}

} // verus!
