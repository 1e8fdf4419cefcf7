//! Live conversion: the best conversion of what is typed appears while typing pauses.

use crate::engine::conversion::option_view;
use crate::engine::state::{SessionModel, SessionState};
use crate::text::{concat2, starts_with};
use crate::tsf::effects::BgStatus;
use crate::tsf::input::{pending_part, suffix_after_prefix_or_empty};
use crate::tsf::live_session;
use crate::tsf::live_session::LiveConvSession;
use vstd::prelude::*;

verus! {

/// Time between two ticks of the timer.
pub const LIVE_POLL_MS: u32 = 50;

/// Whether a preview is so short, under three tenths of the reading's characters, that
/// the conversion must have broken off.
pub open spec fn is_cut_off(reading: Seq<char>, preview: Seq<char>) -> bool {
    preview.len() * 10 < reading.len() * 3
}

/// The preview, or the reading itself where the preview is cut off.
pub open spec fn sane_preview(reading: Seq<char>, preview: Seq<char>) -> Seq<char> {
    if is_cut_off(reading, preview) {
        reading
    } else {
        preview
    }
}

/// Replaces a preview that is cut off by the reading.
pub fn sanity_check_preview(reading: &str, preview: String) -> (r: String)
    ensures
        r@ == sane_preview(reading@, preview@),
{
    let reading_len: u128 = reading.unicode_len() as u64 as u128;
    let preview_len: u128 = preview.as_str().unicode_len() as u64 as u128;
    if preview_len * 10 < reading_len * 3 {
        reading.to_owned()
    } else {
        preview
    }
}

/// Whether a reading is shorter than live conversion wants it to be; a least length of 0
/// stands for 1.
pub open spec fn is_short(reading: Seq<char>, min_chars: usize) -> bool {
    reading.len() < (if min_chars == 0 {
        1
    } else {
        min_chars
    })
}

/// Whether a reading is too short for live conversion.
pub fn too_short(reading: &str, min_chars: usize) -> (r: bool)
    ensures
        r == is_short(reading@, min_chars),
{
    let least: usize = if min_chars == 0 {
        1
    } else {
        min_chars
    };
    reading.unicode_len() < least
}

/// How long typing has paused, once it has paused for `debounce_ms`.
pub fn pass_debounce(debounce_ms: u64, now: u64, last: u64) -> (r: Option<u64>)
    ensures
        ({
            let elapsed = if now >= last {
                now - last
            } else {
                0
            };
            r == (if elapsed < debounce_ms {
                None
            } else {
                Some(elapsed as u64)
            })
        }),
{
    let elapsed: u64 = now.saturating_sub(last);
    if elapsed < debounce_ms {
        None
    } else {
        Some(elapsed)
    }
}

/// A converted text for what is typed, and how it is shown.
#[verifier::ext_equal]
#[derive(Debug, PartialEq)]
pub struct LiveSnapshotOf<T> {
    pub reading: T,
    pub preview: T,
    /// The preview with letters behind it that make up no kana yet.
    pub display_shown: T,
}

pub type LiveSnapshot = LiveSnapshotOf<String>;

pub type LiveSnapshotModel = LiveSnapshotOf<Seq<char>>;

impl View for LiveSnapshotOf<String> {
    type V = LiveSnapshotModel;

    open spec fn view(&self) -> LiveSnapshotModel {
        LiveSnapshotOf {
            reading: self.reading@,
            preview: self.preview@,
            display_shown: self.display_shown@,
        }
    }
}

/// A preview that waits for the next key, with what it was made for.
#[verifier::ext_equal]
#[derive(Debug, PartialEq)]
pub struct PreviewEntryOf<T> {
    pub preview: T,
    pub reading: T,
    pub gen_when_requested: u64,
    pub session_nonce_at_request: u64,
}

pub type PreviewEntry = PreviewEntryOf<String>;

pub type PreviewEntryModel = PreviewEntryOf<Seq<char>>;

impl View for PreviewEntryOf<String> {
    type V = PreviewEntryModel;

    open spec fn view(&self) -> PreviewEntryModel {
        PreviewEntryOf {
            preview: self.preview@,
            reading: self.reading@,
            gen_when_requested: self.gen_when_requested,
            session_nonce_at_request: self.session_nonce_at_request,
        }
    }
}

/// What the timer wants done next.
#[verifier::ext_equal]
#[derive(Debug, PartialEq)]
pub enum LiveActionOf<T> {
    /// Nothing until the next tick.
    Rest,
    /// Nothing until the next tick; report that a conversion is running.
    ReportRunning,
    StopTimer,
    /// Look at the engine.
    Probe,
    /// Ask whether dictionary and model are loaded.
    PollReady,
    StartBg { beam: usize },
    /// Read the best candidate of the finished conversion.
    Peek,
    /// Show the preview in the composition of document `dm_ptr`.
    Apply { snapshot: LiveSnapshotOf<T>, dm_ptr: usize, generation: u64 },
    /// Keep the preview for the next key and stop the timer.
    Queue { entry: PreviewEntryOf<T> },
}

pub type LiveAction = LiveActionOf<String>;

pub type LiveActionModel = LiveActionOf<Seq<char>>;

impl View for LiveActionOf<String> {
    type V = LiveActionModel;

    open spec fn view(&self) -> LiveActionModel {
        match *self {
            LiveActionOf::Rest => LiveActionOf::Rest,
            LiveActionOf::ReportRunning => LiveActionOf::ReportRunning,
            LiveActionOf::StopTimer => LiveActionOf::StopTimer,
            LiveActionOf::Probe => LiveActionOf::Probe,
            LiveActionOf::PollReady => LiveActionOf::PollReady,
            LiveActionOf::StartBg { beam } => LiveActionOf::StartBg { beam },
            LiveActionOf::Peek => LiveActionOf::Peek,
            LiveActionOf::Apply { snapshot, dm_ptr, generation } => LiveActionOf::Apply {
                snapshot: snapshot@,
                dm_ptr,
                generation,
            },
            LiveActionOf::Queue { entry } => LiveActionOf::Queue { entry: entry@ },
        }
    }
}

/// What the engine shows to the timer.
#[verifier::ext_equal]
#[derive(Debug, PartialEq)]
pub enum ProbeOf<T> {
    /// Somebody else uses the engine.
    Busy,
    /// No engine is loaded.
    Absent,
    Present { hiragana: T, bg: BgStatus },
}

/// The best candidate for what is typed.
#[verifier::ext_equal]
#[derive(Debug, PartialEq)]
pub struct PeekedOf<T> {
    pub reading: T,
    pub preedit: T,
    pub top: Option<T>,
}

/// What happened to the timer.
#[verifier::ext_equal]
#[derive(Debug, PartialEq)]
pub enum LiveEventOf<T> {
    Tick { now: u64 },
    Probed { probe: ProbeOf<T> },
    /// Whether the model is loaded; nothing where the engine could not be asked.
    Ready { kanji_ready: Option<bool> },
    Started { started: bool },
    /// Nothing where the engine could not be asked.
    Peeked { peeked: Option<PeekedOf<T>> },
    /// The edit that was to show `snapshot` was accepted or not.
    Edited { accepted: bool, snapshot: LiveSnapshotOf<T> },
}

pub type LiveEvent = LiveEventOf<String>;

pub type LiveEventModel = LiveEventOf<Seq<char>>;

pub open spec fn probe_view(p: ProbeOf<String>) -> ProbeOf<Seq<char>> {
    match p {
        ProbeOf::Busy => ProbeOf::Busy,
        ProbeOf::Absent => ProbeOf::Absent,
        ProbeOf::Present { hiragana, bg } => ProbeOf::Present { hiragana: hiragana@, bg },
    }
}

pub open spec fn peeked_view(p: Option<PeekedOf<String>>) -> Option<PeekedOf<Seq<char>>> {
    match p {
        Some(p) => Some(
            PeekedOf { reading: p.reading@, preedit: p.preedit@, top: option_view(p.top) },
        ),
        None => None,
    }
}

impl View for LiveEventOf<String> {
    type V = LiveEventModel;

    open spec fn view(&self) -> LiveEventModel {
        match *self {
            LiveEventOf::Tick { now } => LiveEventOf::Tick { now },
            LiveEventOf::Probed { probe } => LiveEventOf::Probed { probe: probe_view(probe) },
            LiveEventOf::Ready { kanji_ready } => LiveEventOf::Ready { kanji_ready },
            LiveEventOf::Started { started } => LiveEventOf::Started { started },
            LiveEventOf::Peeked { peeked } => LiveEventOf::Peeked { peeked: peeked_view(peeked) },
            LiveEventOf::Edited { accepted, snapshot } => LiveEventOf::Edited {
                accepted,
                snapshot: snapshot@,
            },
        }
    }
}

/// What the timer needs to know.
#[derive(Clone, Copy)]
pub struct LiveEnv {
    pub debounce_ms: u64,
    pub live_beam: usize,
    /// How many characters of kana live conversion wants at least.
    pub min_chars: usize,
    /// Whether there is a composition to write to.
    pub has_composition: bool,
    /// The document that has the focus.
    pub focused_dm: Option<usize>,
    /// How many keys have changed what is typed.
    pub generation: u64,
    /// How many compositions have been begun.
    pub nonce: u64,
}

/// Whether the preview can be written into the composition from the timer: the
/// context of the last letter is kept, and its document still has the focus.
pub open spec fn can_apply(live: LiveConvSession, env: LiveEnv) -> bool {
    &&& live.has_context
    &&& live.tid > 0
    &&& env.has_composition
    &&& live.composition_dm_ptr != 0
    &&& env.focused_dm == Some(live.composition_dm_ptr)
}

/// The entry that keeps `snapshot` for the next key.
pub open spec fn queued(snapshot: LiveSnapshotModel, env: LiveEnv) -> LiveActionModel {
    LiveActionOf::Queue {
        entry: PreviewEntryOf {
            preview: snapshot.preview,
            reading: snapshot.reading,
            gen_when_requested: env.generation,
            session_nonce_at_request: env.nonce,
        },
    }
}

/// How the best candidate is shown.
pub open spec fn snapshot_of(
    reading: Seq<char>,
    preedit: Seq<char>,
    top: Seq<char>,
) -> LiveSnapshotModel {
    let preview = sane_preview(reading, top);
    LiveSnapshotOf {
        reading,
        preview,
        display_shown: preview + pending_part(preedit, reading),
    }
}

/// What the timer does with `event`, and the two sessions after it.
pub open spec fn live_step(
    event: LiveEventModel,
    env: LiveEnv,
    live: LiveConvSession,
    sess: SessionModel,
) -> (LiveActionModel, LiveConvSession, SessionModel) {
    match event {
        LiveEventOf::Tick { now } => {
            let elapsed = if now >= live.last_input_ms {
                now - live.last_input_ms
            } else {
                0
            };
            (
                if elapsed < env.debounce_ms {
                    LiveActionOf::Rest
                } else {
                    LiveActionOf::Probe
                },
                live,
                sess,
            )
        },
        LiveEventOf::Probed { probe } => match probe {
            ProbeOf::Busy => (LiveActionOf::Rest, live, sess),
            ProbeOf::Absent => (LiveActionOf::StopTimer, live, sess),
            ProbeOf::Present { hiragana, bg } => if is_short(hiragana, env.min_chars) {
                (LiveActionOf::StopTimer, live, sess)
            } else if bg is Done {
                (LiveActionOf::Peek, LiveConvSession { fired_once: false, ..live }, sess)
            } else if bg is Idle {
                (LiveActionOf::PollReady, live, sess)
            } else {
                (
                    if live.fired_once {
                        LiveActionOf::Rest
                    } else {
                        LiveActionOf::ReportRunning
                    },
                    LiveConvSession { fired_once: true, ..live },
                    sess,
                )
            },
        },
        LiveEventOf::Ready { kanji_ready } => (
            if kanji_ready == Some(true) {
                LiveActionOf::StartBg { beam: env.live_beam }
            } else {
                LiveActionOf::StopTimer
            },
            live,
            sess,
        ),
        LiveEventOf::Started { started } => (
            if started {
                LiveActionOf::Rest
            } else {
                LiveActionOf::StopTimer
            },
            live,
            sess,
        ),
        LiveEventOf::Peeked { peeked } => match peeked {
            None => (LiveActionOf::Rest, live, sess),
            Some(p) => if is_short(p.reading, env.min_chars) || p.top is None {
                (LiveActionOf::Rest, live, sess)
            } else {
                let snapshot = snapshot_of(p.reading, p.preedit, p.top->0);
                (
                    if can_apply(live, env) {
                        LiveActionOf::Apply {
                            snapshot,
                            dm_ptr: live.composition_dm_ptr,
                            generation: env.generation,
                        }
                    } else {
                        queued(snapshot, env)
                    },
                    live,
                    sess,
                )
            },
        },
        LiveEventOf::Edited { accepted, snapshot } => if accepted {
            (
                LiveActionOf::StopTimer,
                live,
                SessionModel::LiveConv { reading: snapshot.reading, preview: snapshot.preview },
            )
        } else {
            (queued(snapshot, env), live, sess)
        },
    }
}

/// What the engine shows decides whether to go on.
pub fn probe_engine(probe: &ProbeOf<String>, min_chars: usize) -> (r: Result<
    BgStatus,
    LiveAction,
>)
    ensures
        match probe_view(*probe) {
            ProbeOf::Busy => r is Err && r->Err_0@ == LiveActionOf::<Seq<char>>::Rest,
            ProbeOf::Absent => r is Err && r->Err_0@ == LiveActionOf::<Seq<char>>::StopTimer,
            ProbeOf::Present { hiragana, bg } => if is_short(hiragana, min_chars) {
                r is Err && r->Err_0@ == LiveActionOf::<Seq<char>>::StopTimer
            } else {
                r == Ok::<BgStatus, LiveAction>(bg)
            },
        },
{
    match probe {
        ProbeOf::Busy => Err(LiveActionOf::Rest),
        ProbeOf::Absent => Err(LiveActionOf::StopTimer),
        ProbeOf::Present { hiragana, bg } => if too_short(hiragana.as_str(), min_chars) {
            Err(LiveActionOf::StopTimer)
        } else {
            Ok(*bg)
        },
    }
}

/// How a conversion in state `bg` is brought to its end.
pub fn ensure_bg_running(bg: BgStatus, live: &mut LiveConvSession) -> (r: LiveAction)
    ensures
        r@ == (if bg is Done {
            LiveActionOf::<Seq<char>>::Peek
        } else if bg is Idle {
            LiveActionOf::PollReady
        } else if old(live).fired_once {
            LiveActionOf::Rest
        } else {
            LiveActionOf::ReportRunning
        }),
        *final(live) == (if bg is Done {
            LiveConvSession { fired_once: false, ..*old(live) }
        } else if bg is Idle {
            *old(live)
        } else {
            LiveConvSession { fired_once: true, ..*old(live) }
        }),
{
    match bg {
        BgStatus::Done => {
            live_session::reset_fired_once(live);
            LiveActionOf::Peek
        },
        BgStatus::Idle => LiveActionOf::PollReady,
        _ => if live_session::swap_fired_once(live, true) {
            LiveActionOf::Rest
        } else {
            LiveActionOf::ReportRunning
        },
    }
}

/// The preview for `reading` with how it is shown; nothing where the reading is too short or
/// there is no candidate.
pub fn fetch_preview(peeked: PeekedOf<String>, min_chars: usize) -> (r: Option<LiveSnapshot>)
    ensures
        (r is None) == (is_short(peeked.reading@, min_chars) || peeked.top is None),
        r is Some ==> r->0@ == snapshot_of(
            peeked.reading@,
            peeked.preedit@,
            peeked.top->0@,
        ),
{
    if too_short(peeked.reading.as_str(), min_chars) {
        return None;
    }
    match peeked.top {
        None => None,
        Some(top) => {
            let pending = suffix_after_prefix_or_empty(
                peeked.preedit.as_str(),
                peeked.reading.as_str(),
            );
            let preview = sanity_check_preview(peeked.reading.as_str(), top);
            Some(build_apply_snapshot(peeked.reading, pending, preview))
        },
    }
}

/// A preview with the pending letters behind it.
pub fn build_apply_snapshot(reading: String, pending: String, preview: String) -> (r: LiveSnapshot)
    ensures
        r@ == (LiveSnapshotOf {
            reading: reading@,
            preview: preview@,
            display_shown: preview@ + pending@,
        }),
{
    let display_shown = concat2(preview.as_str(), pending.as_str());
    LiveSnapshotOf { reading, preview, display_shown }
}

/// Whether the preview can be written into the composition from the timer.
pub fn phase1a_possible(live: &LiveConvSession, env: &LiveEnv) -> (r: bool)
    ensures
        r == can_apply(*live, *env),
{
    let focused = match env.focused_dm {
        Some(dm) => dm == live.composition_dm_ptr,
        None => false,
    };
    live.has_context && live.tid > 0 && env.has_composition && live.composition_dm_ptr != 0
        && focused
}

/// The entry that keeps a preview for the next key.
pub fn queue_phase1b(snapshot: LiveSnapshot, env: &LiveEnv) -> (r: LiveAction)
    ensures
        r@ == queued(snapshot@, *env),
{
    LiveActionOf::Queue {
        entry: PreviewEntryOf {
            preview: snapshot.preview,
            reading: snapshot.reading,
            gen_when_requested: env.generation,
            session_nonce_at_request: env.nonce,
        },
    }
}

/// The live timer: takes up `event` and says what to do next.
pub fn on_live_timer(
    event: LiveEvent,
    env: &LiveEnv,
    live: &mut LiveConvSession,
    sess: &mut SessionState,
) -> (r: LiveAction)
    ensures
        (r@, *final(live), final(sess)@) == live_step(event@, *env, *old(live), old(sess)@),
        old(sess)@.wf() ==> final(sess)@.wf(),
{
    match event {
        LiveEventOf::Tick { now } => {
            match pass_debounce(env.debounce_ms, now, live_session::load_last_input_ms(live)) {
                None => LiveActionOf::Rest,
                Some(_) => LiveActionOf::Probe,
            }
        },
        LiveEventOf::Probed { probe } => match probe_engine(&probe, env.min_chars) {
            Err(action) => action,
            Ok(bg) => ensure_bg_running(bg, live),
        },
        LiveEventOf::Ready { kanji_ready } => match kanji_ready {
            Some(true) => LiveActionOf::StartBg { beam: env.live_beam },
            _ => LiveActionOf::StopTimer,
        },
        LiveEventOf::Started { started } => if started {
            LiveActionOf::Rest
        } else {
            LiveActionOf::StopTimer
        },
        LiveEventOf::Peeked { peeked } => match peeked {
            None => LiveActionOf::Rest,
            Some(p) => match fetch_preview(p, env.min_chars) {
                None => LiveActionOf::Rest,
                Some(snapshot) => if phase1a_possible(live, env) {
                    LiveActionOf::Apply {
                        snapshot,
                        dm_ptr: live.composition_dm_ptr,
                        generation: env.generation,
                    }
                } else {
                    queue_phase1b(snapshot, env)
                },
            },
        },
        LiveEventOf::Edited { accepted, snapshot } => if accepted {
            sess.set_live_conv(snapshot.reading, snapshot.preview);
            LiveActionOf::StopTimer
        } else {
            queue_phase1b(snapshot, env)
        },
    }
}

/// What an edit may do once the application grants it.
#[derive(Clone, Copy, Debug, PartialEq, Eq, Structural)]
pub enum EditVerdict {
    /// Another document has the focus now: the edit fails.
    FocusChanged,
    /// A key has changed what is typed since: the edit fails.
    Stale,
    /// The composition is gone: the edit fails.
    NoComposition,
    /// Another edit is writing: this one does nothing.
    Busy,
    Write,
}

/// What the edit that shows a preview may do when it runs. It was asked for while
/// `dm_ptr` had the focus and `generation` keys had been typed.
pub fn try_apply_phase1a(
    dm_ptr: usize,
    focused_dm: Option<usize>,
    generation: u64,
    current_generation: u64,
    has_composition: bool,
    lock_free: bool,
) -> (r: EditVerdict)
    ensures
        r == (if focused_dm != Some(dm_ptr) {
            EditVerdict::FocusChanged
        } else if current_generation != generation {
            EditVerdict::Stale
        } else if !has_composition {
            EditVerdict::NoComposition
        } else if !lock_free {
            EditVerdict::Busy
        } else {
            EditVerdict::Write
        }),
{
    let focused = match focused_dm {
        Some(dm) => dm == dm_ptr,
        None => false,
    };
    if !focused {
        EditVerdict::FocusChanged
    } else if current_generation != generation {
        EditVerdict::Stale
    } else if !has_composition {
        EditVerdict::NoComposition
    } else if !lock_free {
        EditVerdict::Busy
    } else {
        EditVerdict::Write
    }
}

/// Whether a kept preview is of what is typed now.
pub open spec fn is_current(
    entry: PreviewEntryModel,
    generation: u64,
    nonce: u64,
    reading: Seq<char>,
) -> bool {
    &&& entry.gen_when_requested == generation
    &&& entry.session_nonce_at_request == nonce
    &&& entry.reading == reading
}

/// A kept preview is shown only while the reading is being typed that it was made for,
/// in the same composition and with no key in between, and where that is long enough. The
/// session, and the text to show
/// where the preview is used.
pub open spec fn preview_applied(
    entry: PreviewEntryModel,
    generation: u64,
    nonce: u64,
    reading: Seq<char>,
    preedit: Seq<char>,
    min_chars: usize,
    sess: SessionModel,
) -> (Option<Seq<char>>, SessionModel) {
    if is_current(entry, generation, nonce, reading) && sess is Preedit && !is_short(
        reading,
        min_chars,
    ) {
        let preview = sane_preview(reading, entry.preview);
        (
            Some(preview + pending_part(preedit, reading)),
            SessionModel::LiveConv { reading, preview },
        )
    } else {
        (None, sess)
    }
}

/// Takes up a kept preview at the next key. `reading` and `preedit` are what the engine
/// has composed; the result is the text to show.
pub fn apply_kept_preview(
    entry: PreviewEntry,
    generation: u64,
    nonce: u64,
    reading: &String,
    preedit: &String,
    min_chars: usize,
    sess: &mut SessionState,
) -> (r: Option<String>)
    ensures
        (option_view(r), final(sess)@) == preview_applied(
            entry@,
            generation,
            nonce,
            reading@,
            preedit@,
            min_chars,
            old(sess)@,
        ),
        old(sess)@.wf() ==> final(sess)@.wf(),
{
    if entry.gen_when_requested != generation || entry.session_nonce_at_request != nonce {
        return None;
    }
    if entry.reading != *reading {
        return None;
    }
    if !sess.is_preedit() || too_short(reading.as_str(), min_chars) {
        return None;
    }
    let pending = suffix_after_prefix_or_empty(preedit.as_str(), reading.as_str());
    let preview = sanity_check_preview(reading.as_str(), entry.preview);
    sess.set_live_conv(reading.clone(), preview.clone());
    Some(concat2(preview.as_str(), pending.as_str()))
}

/// A preview that is shown is never cut off.
pub proof fn shown_preview_is_not_cut_off(reading: Seq<char>, preview: Seq<char>)
    ensures
        !is_cut_off(reading, sane_preview(reading, preview)),
{
}

/// A preview made before the last key, or for another composition or another reading, is not
/// taken up by a key.
pub proof fn outdated_preview_is_dropped(
    entry: PreviewEntryModel,
    generation: u64,
    nonce: u64,
    reading: Seq<char>,
    preedit: Seq<char>,
    min_chars: usize,
    sess: SessionModel,
)
    requires
        entry.gen_when_requested != generation || entry.session_nonce_at_request != nonce
            || entry.reading != reading,
    ensures
        preview_applied(entry, generation, nonce, reading, preedit, min_chars, sess) == (
            None::<Seq<char>>,
            sess,
        ),
{
}

/// For a reading that is too short no conversion is started and no preview shown or kept,
/// neither by the timer nor by a key, and the timer stops.
pub proof fn short_reading_is_left_alone(
    reading: Seq<char>,
    bg: BgStatus,
    peeked: PeekedOf<Seq<char>>,
    entry: PreviewEntryModel,
    env: LiveEnv,
    live: LiveConvSession,
    sess: SessionModel,
)
    requires
        reading.len() == 0 || reading.len() < env.min_chars,
        peeked.reading == reading,
    ensures
        live_step(
            LiveEventOf::Probed { probe: ProbeOf::Present { hiragana: reading, bg } },
            env,
            live,
            sess,
        ) == (LiveActionOf::<Seq<char>>::StopTimer, live, sess),
        live_step(LiveEventOf::Peeked { peeked: Some(peeked) }, env, live, sess) == (
            LiveActionOf::<Seq<char>>::Rest,
            live,
            sess,
        ),
        preview_applied(
            entry,
            env.generation,
            env.nonce,
            reading,
            peeked.preedit,
            env.min_chars,
            sess,
        ) == (None::<Seq<char>>, sess),
{
}

/// The letters that were typed last stay visible behind the preview.
pub proof fn preview_keeps_pending_letters(
    reading: Seq<char>,
    letters: Seq<char>,
    top: Seq<char>,
)
    ensures
        snapshot_of(reading, reading + letters, top).display_shown == sane_preview(reading, top)
            + letters,
{
    let preedit = reading + letters;
    assert(preedit.take(reading.len() as int) == reading);
    assert(preedit.skip(reading.len() as int) == letters);
    assert(starts_with(preedit, reading));
}

/// A preview that has three tenths of the reading's characters or more is shown as it is, and
/// a shorter one makes way for the reading.
pub proof fn long_preview_is_shown_unchanged(reading: Seq<char>, preview: Seq<char>)
    ensures
        preview.len() * 10 >= reading.len() * 3 ==> sane_preview(reading, preview) == preview,
        preview.len() * 10 < reading.len() * 3 ==> sane_preview(reading, preview) == reading,
{
}

/// The timer does nothing until typing has paused for the time that is set, and then looks at
/// the engine. A clock that went back counts as no pause.
pub proof fn timer_waits_for_a_pause(
    now: u64,
    env: LiveEnv,
    live: LiveConvSession,
    sess: SessionModel,
)
    ensures
        ({
            let (action, l, s) = live_step(LiveEventOf::Tick { now }, env, live, sess);
            &&& l == live && s == sess
            &&& action is Rest || action is Probe
            &&& action is Probe <==> env.debounce_ms == 0 || (now >= live.last_input_ms && now
                - live.last_input_ms >= env.debounce_ms)
        }),
{
}

/// A reading that is long enough is converted: a conversion that is finished is read, one that
/// runs is waited for and reported once, and else one is started, with the width that is set,
/// as soon as the model is loaded.
pub proof fn long_reading_is_converted(
    hiragana: Seq<char>,
    bg: BgStatus,
    env: LiveEnv,
    live: LiveConvSession,
    sess: SessionModel,
)
    requires
        hiragana.len() > 0,
        hiragana.len() >= env.min_chars,
    ensures
        ({
            let (action, l, s) = live_step(
                LiveEventOf::Probed { probe: ProbeOf::Present { hiragana, bg } },
                env,
                live,
                sess,
            );
            &&& s == sess
            &&& bg is Done <==> action is Peek
            &&& bg is Idle <==> action is PollReady
            &&& bg is Running || bg is Other ==> l.fired_once && (if live.fired_once {
                action is Rest
            } else {
                action is ReportRunning
            })
            &&& bg is Done ==> !l.fired_once
            &&& l == (LiveConvSession { fired_once: l.fired_once, ..live })
        }),
        live_step(LiveEventOf::Ready { kanji_ready: Some(true) }, env, live, sess) == (
            LiveActionOf::<Seq<char>>::StartBg { beam: env.live_beam },
            live,
            sess,
        ),
        live_step(LiveEventOf::Ready { kanji_ready: Some(false) }, env, live, sess).0 is StopTimer,
        live_step(LiveEventOf::Ready { kanji_ready: None }, env, live, sess).0 is StopTimer,
        live_step(LiveEventOf::Started { started: true }, env, live, sess) == (
            LiveActionOf::<Seq<char>>::Rest,
            live,
            sess,
        ),
        live_step(LiveEventOf::Started { started: false }, env, live, sess).0 is StopTimer,
        live_step(LiveEventOf::Probed { probe: ProbeOf::Busy }, env, live, sess) == (
            LiveActionOf::<Seq<char>>::Rest,
            live,
            sess,
        ),
        live_step(LiveEventOf::Probed { probe: ProbeOf::Absent }, env, live, sess) == (
            LiveActionOf::<Seq<char>>::StopTimer,
            live,
            sess,
        ),
{
}

/// The best candidate for a reading that is long enough is shown in the composition where the
/// document of the last letter still has the focus, and else kept for the next key. What is
/// shown is the candidate, unless it is cut off, with the letters behind it that make up no
/// kana yet.
pub proof fn best_candidate_is_shown_or_kept(
    reading: Seq<char>,
    letters: Seq<char>,
    top: Seq<char>,
    env: LiveEnv,
    live: LiveConvSession,
    sess: SessionModel,
)
    requires
        reading.len() > 0,
        reading.len() >= env.min_chars,
    ensures
        ({
            let preview = if top.len() * 10 < reading.len() * 3 {
                reading
            } else {
                top
            };
            let (action, l, s) = live_step(
                LiveEventOf::Peeked {
                    peeked: Some(PeekedOf { reading, preedit: reading + letters, top: Some(top) }),
                },
                env,
                live,
                sess,
            );
            &&& l == live && s == sess
            &&& action is Apply <==> live.has_context && live.tid > 0 && env.has_composition
                && live.composition_dm_ptr != 0 && env.focused_dm == Some(live.composition_dm_ptr)
            &&& action is Apply ==> action->dm_ptr == live.composition_dm_ptr && action->generation
                == env.generation && action->Apply_snapshot == (LiveSnapshotOf {
                reading,
                preview,
                display_shown: preview + letters,
            })
            &&& !(action is Apply) ==> action == (LiveActionOf::Queue {
                entry: PreviewEntryOf {
                    preview,
                    reading,
                    gen_when_requested: env.generation,
                    session_nonce_at_request: env.nonce,
                },
            })
        }),
        live_step(
            LiveEventOf::Peeked { peeked: Some(PeekedOf { reading, preedit: reading, top: None }) },
            env,
            live,
            sess,
        ) == (LiveActionOf::<Seq<char>>::Rest, live, sess),
        live_step(LiveEventOf::Peeked { peeked: None }, env, live, sess) == (
            LiveActionOf::<Seq<char>>::Rest,
            live,
            sess,
        ),
{
    preview_keeps_pending_letters(reading, letters, top);
}

/// A preview that the application has shown is the live preview from then on, and the timer
/// stops; one that it has refused is kept for the next key.
pub proof fn edit_decides_over_preview(
    snapshot: LiveSnapshotModel,
    env: LiveEnv,
    live: LiveConvSession,
    sess: SessionModel,
)
    ensures
        live_step(LiveEventOf::Edited { accepted: true, snapshot }, env, live, sess) == (
            LiveActionOf::<Seq<char>>::StopTimer,
            live,
            SessionModel::LiveConv { reading: snapshot.reading, preview: snapshot.preview },
        ),
        live_step(LiveEventOf::Edited { accepted: false, snapshot }, env, live, sess) == (
            LiveActionOf::Queue {
                entry: PreviewEntryOf {
                    preview: snapshot.preview,
                    reading: snapshot.reading,
                    gen_when_requested: env.generation,
                    session_nonce_at_request: env.nonce,
                },
            },
            live,
            sess,
        ),
{
}

/// A kept preview of what is typed now is shown at the next key, with the pending letters
/// behind it, and becomes the live preview; in any other session it is not.
pub proof fn kept_preview_is_shown(
    preview: Seq<char>,
    reading: Seq<char>,
    letters: Seq<char>,
    generation: u64,
    nonce: u64,
    min_chars: usize,
    sess: SessionModel,
)
    requires
        reading.len() > 0,
        reading.len() >= min_chars,
    ensures
        ({
            let entry = PreviewEntryOf {
                preview,
                reading,
                gen_when_requested: generation,
                session_nonce_at_request: nonce,
            };
            let shown = if preview.len() * 10 < reading.len() * 3 {
                reading
            } else {
                preview
            };
            let r = preview_applied(
                entry,
                generation,
                nonce,
                reading,
                reading + letters,
                min_chars,
                sess,
            );
            if sess is Preedit {
                r == (
                    Some(shown + letters),
                    SessionModel::LiveConv { reading, preview: shown },
                )
            } else {
                r == (None::<Seq<char>>, sess)
            }
        }),
{
    preview_keeps_pending_letters(reading, letters, preview);
}

} // verus!
