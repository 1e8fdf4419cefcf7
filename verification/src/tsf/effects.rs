//! Vocabulary of the key handlers: what they see of the conversion engine, what they
//! ask of it, and what they have the text service do.

use crate::engine::conversion::{option_view, views};
use crate::engine::input_mode::InputMode;
use vstd::prelude::*;

verus! {

/// State of the background conversion.
#[derive(Clone, Copy, Debug, PartialEq, Eq, Structural)]
pub enum BgStatus {
    Idle,
    Running,
    Done,
    Other,
}

/// The state that the engine reports under a name.
pub open spec fn bg_status_of(name: Seq<char>) -> BgStatus {
    if name == "idle"@ {
        BgStatus::Idle
    } else if name == "running"@ {
        BgStatus::Running
    } else if name == "done"@ {
        BgStatus::Done
    } else {
        BgStatus::Other
    }
}

impl BgStatus {
    /// Reads the engine's report.
    pub fn parse(name: &str) -> (r: BgStatus)
        ensures
            r == bg_status_of(name@),
    {
        if crate::text::same(name, "idle") {
            BgStatus::Idle
        } else if crate::text::same(name, "running") {
            BgStatus::Running
        } else if crate::text::same(name, "done") {
            BgStatus::Done
        } else {
            BgStatus::Other
        }
    }
}

/// What the engine shows after everything that was asked of it has been done.
pub struct EngineFacts {
    /// Whether nothing is being composed.
    pub preedit_empty: bool,
    /// The composed text, with letters that do not make up a kana yet.
    pub preedit: String,
    /// The composed kana.
    pub hiragana: String,
    /// Whether the model is loaded and free.
    pub kanji_ready: bool,
    pub bg: BgStatus,
}

#[verifier::ext_equal]
pub struct FactsModel {
    pub preedit_empty: bool,
    pub preedit: Seq<char>,
    pub hiragana: Seq<char>,
    pub kanji_ready: bool,
    pub bg: BgStatus,
}

impl View for EngineFacts {
    type V = FactsModel;

    open spec fn view(&self) -> FactsModel {
        FactsModel {
            preedit_empty: self.preedit_empty,
            preedit: self.preedit@,
            hiragana: self.hiragana@,
            kanji_ready: self.kanji_ready,
            bg: self.bg,
        }
    }
}

/// How a typed letter enters the composition.
#[derive(Clone, Copy, Debug, PartialEq, Eq, Structural)]
pub enum InputCharKind {
    /// Through the romaji rules.
    Char,
    /// As a full-width letter.
    FullwidthAlpha,
}

/// One thing to be done, in the order given. `T` holds a text and `L` a list of texts.
#[verifier::ext_equal]
#[derive(Debug, PartialEq)]
pub enum EffectOf<T, L> {
    /// Look up where the caret is.
    UpdateCaret,
    /// Settle an `n` that waits for its vowel.
    FlushPending,
    /// Ask once whether the dictionary is loaded.
    PollDict,
    /// Ask once whether the model is loaded.
    PollModel,
    /// Take the converter back from a background conversion.
    Reclaim,
    /// Start a background conversion for that many candidates.
    StartBg { candidates: usize },
    /// Replace the composed text.
    ForcePreedit { text: T },
    /// Append a character without the romaji rules.
    PushRaw { c: char },
    /// Append each character of a text without the romaji rules.
    PushRawText { text: T },
    /// Type a letter that was pressed while the engine was loading.
    Replay { c: char, kind: InputCharKind },
    /// Remember that `surface` was chosen for `reading`.
    Learn { reading: T, surface: T },
    /// Tell the engine what was committed.
    Commit { text: T },
    ResetPreedit,
    ResetAll,
    /// Count the live conversions on, so that previews of what was typed before are
    /// recognised as outdated.
    BumpGeneration,
    /// Forget a live preview that waits to be shown.
    ClearPreview,
    /// Whether the next Enter commits what is shown without a live conversion.
    SuppressLiveCommit { on: bool },
    HideWindow,
    ShowWindow { items: L, selected: usize, info: T, x: i32, y: i32, status: Option<T> },
    UpdateSelection { selected: usize, info: T },
    StartWaitingTimer,
    StopWaitingTimer,
    StopLiveTimer,
    /// Tell the live conversion that something was typed.
    NotifyLiveInput,
    /// Show that the engine is loading.
    ShowLoading,
    /// Show a text in the composition.
    UpdateComposition { text: T },
    /// Show a text in the composition, the middle part marked.
    UpdateParts { prefix: T, text: T, suffix: T },
    /// Put a text into the document and end the composition.
    EndComposition { text: T },
    /// Put a text into the document outside a composition.
    CommitText { text: T },
    /// Put a text into the document and start a composition with another.
    CommitThenStart { commit: T, preedit: T },
    /// Put a text into the document and start a composition with what the engine has
    /// composed.
    CommitThenCompose { commit: T },
    /// Let go of the composition, which has ended.
    ForgetComposition,
    /// Switch the input mode.
    SetMode { mode: InputMode },
    /// Tell the system whether the input method is on.
    SetOpen { open: bool },
    /// Refresh the language bar.
    NotifyLangbar,
    /// Refresh the tray icon.
    NotifyTray,
    /// Tell the tray icon whether the input method is on, and its mode.
    PublishTray { open: bool, mode: InputMode },
    /// Show the sign of a mode beside the caret.
    ShowMode { mode: InputMode },
    /// Take over changes of the configuration.
    ReloadConfig,
}

pub type Effect = EffectOf<String, Vec<String>>;

pub type EffectModel = EffectOf<Seq<char>, Seq<Seq<char>>>;

impl View for EffectOf<String, Vec<String>> {
    type V = EffectModel;

    open spec fn view(&self) -> EffectModel {
        match *self {
            EffectOf::UpdateCaret => EffectOf::UpdateCaret,
            EffectOf::FlushPending => EffectOf::FlushPending,
            EffectOf::PollDict => EffectOf::PollDict,
            EffectOf::PollModel => EffectOf::PollModel,
            EffectOf::Reclaim => EffectOf::Reclaim,
            EffectOf::StartBg { candidates } => EffectOf::StartBg { candidates },
            EffectOf::ForcePreedit { text } => EffectOf::ForcePreedit { text: text@ },
            EffectOf::PushRaw { c } => EffectOf::PushRaw { c },
            EffectOf::PushRawText { text } => EffectOf::PushRawText { text: text@ },
            EffectOf::Replay { c, kind } => EffectOf::Replay { c, kind },
            EffectOf::Learn { reading, surface } => EffectOf::Learn {
                reading: reading@,
                surface: surface@,
            },
            EffectOf::Commit { text } => EffectOf::Commit { text: text@ },
            EffectOf::ResetPreedit => EffectOf::ResetPreedit,
            EffectOf::ResetAll => EffectOf::ResetAll,
            EffectOf::BumpGeneration => EffectOf::BumpGeneration,
            EffectOf::ClearPreview => EffectOf::ClearPreview,
            EffectOf::SuppressLiveCommit { on } => EffectOf::SuppressLiveCommit { on },
            EffectOf::HideWindow => EffectOf::HideWindow,
            EffectOf::ShowWindow { items, selected, info, x, y, status } =>
                EffectOf::ShowWindow {
                items: views(items@),
                selected,
                info: info@,
                x,
                y,
                status: option_view(status),
            },
            EffectOf::UpdateSelection { selected, info } => EffectOf::UpdateSelection {
                selected,
                info: info@,
            },
            EffectOf::StartWaitingTimer => EffectOf::StartWaitingTimer,
            EffectOf::StopWaitingTimer => EffectOf::StopWaitingTimer,
            EffectOf::StopLiveTimer => EffectOf::StopLiveTimer,
            EffectOf::NotifyLiveInput => EffectOf::NotifyLiveInput,
            EffectOf::ShowLoading => EffectOf::ShowLoading,
            EffectOf::UpdateComposition { text } => EffectOf::UpdateComposition { text: text@ },
            EffectOf::UpdateParts { prefix, text, suffix } => EffectOf::UpdateParts {
                prefix: prefix@,
                text: text@,
                suffix: suffix@,
            },
            EffectOf::EndComposition { text } => EffectOf::EndComposition { text: text@ },
            EffectOf::CommitText { text } => EffectOf::CommitText { text: text@ },
            EffectOf::CommitThenStart { commit, preedit } => EffectOf::CommitThenStart {
                commit: commit@,
                preedit: preedit@,
            },
            EffectOf::CommitThenCompose { commit } => EffectOf::CommitThenCompose {
                commit: commit@,
            },
            EffectOf::ForgetComposition => EffectOf::ForgetComposition,
            EffectOf::SetMode { mode } => EffectOf::SetMode { mode },
            EffectOf::SetOpen { open } => EffectOf::SetOpen { open },
            EffectOf::NotifyLangbar => EffectOf::NotifyLangbar,
            EffectOf::NotifyTray => EffectOf::NotifyTray,
            EffectOf::PublishTray { open, mode } => EffectOf::PublishTray { open, mode },
            EffectOf::ShowMode { mode } => EffectOf::ShowMode { mode },
            EffectOf::ReloadConfig => EffectOf::ReloadConfig,
        }
    }
}

/// A request to the engine whose answer decides how a handler goes on.
#[verifier::ext_equal]
#[derive(Debug, PartialEq)]
pub enum AskOf<T, L> {
    /// Look at the engine again.
    Observe,
    /// Wait at most that long for the background conversion. Answered by whether it
    /// is finished.
    Wait { ms: u64 },
    /// Start a background conversion. Answered by whether it started.
    Start { width: usize },
    /// Take the finished conversion of a reading. Answered by its candidates, or
    /// nothing where there is no such conversion.
    Take { key: T },
    /// Add what the dictionary knows to candidates, up to a limit.
    Merge { candidates: L, limit: usize },
    /// Convert the composed text now.
    ConvertSync,
    /// Type a letter, with a conversion of that width started. Answered by what is
    /// composed then.
    Type { c: char, kind: InputCharKind, beam: Option<usize> },
    /// Delete the last letter. Answered by whether there was one.
    Backspace,
}

pub type Ask = AskOf<String, Vec<String>>;

pub type AskModel = AskOf<Seq<char>, Seq<Seq<char>>>;

impl View for AskOf<String, Vec<String>> {
    type V = AskModel;

    open spec fn view(&self) -> AskModel {
        match *self {
            AskOf::Observe => AskOf::Observe,
            AskOf::Wait { ms } => AskOf::Wait { ms },
            AskOf::Start { width } => AskOf::Start { width },
            AskOf::Take { key } => AskOf::Take { key: key@ },
            AskOf::Merge { candidates, limit } => AskOf::Merge {
                candidates: views(candidates@),
                limit,
            },
            AskOf::ConvertSync => AskOf::ConvertSync,
            AskOf::Type { c, kind, beam } => AskOf::Type { c, kind, beam },
            AskOf::Backspace => AskOf::Backspace,
        }
    }
}

/// The answer to a request.
#[verifier::ext_equal]
#[derive(Debug, PartialEq)]
pub enum ReplyOf<L> {
    /// Nothing but the new look at the engine.
    Seen,
    Flag { on: bool },
    Taken { found: Option<L> },
    List { items: L },
}

pub type Reply = ReplyOf<Vec<String>>;

pub type ReplyModel = ReplyOf<Seq<Seq<char>>>;

impl View for ReplyOf<Vec<String>> {
    type V = ReplyModel;

    open spec fn view(&self) -> ReplyModel {
        match *self {
            ReplyOf::Seen => ReplyOf::Seen,
            ReplyOf::Flag { on } => ReplyOf::Flag { on },
            ReplyOf::Taken { found } => ReplyOf::Taken {
                found: match found {
                    Some(c) => Some(views(c@)),
                    None => None,
                },
            },
            ReplyOf::List { items } => ReplyOf::List { items: views(items@) },
        }
    }
}

/// Whether `reply` answers `ask`.
pub open spec fn answers(ask: AskModel, reply: ReplyModel) -> bool {
    match ask {
        AskOf::Observe => reply is Seen,
        AskOf::Wait { .. } => reply is Flag,
        AskOf::Start { .. } => reply is Flag,
        AskOf::Take { .. } => reply is Taken,
        AskOf::Merge { .. } => reply is List,
        AskOf::ConvertSync => reply is List,
        AskOf::Type { .. } => reply is Seen,
        AskOf::Backspace => reply is Flag,
    }
}

/// How a handler goes on after its effects: it is finished, and the key was used up or
/// not, or it asks for something and continues at `then` with the answer.
#[derive(Debug, PartialEq)]
pub enum Next<P> {
    Done { eaten: bool },
    Ask { ask: Ask, then: P },
}

#[verifier::ext_equal]
pub enum NextModel<P> {
    Done { eaten: bool },
    Ask { ask: AskModel, then: P },
}

impl<P: View> View for Next<P> {
    type V = NextModel<P::V>;

    open spec fn view(&self) -> NextModel<P::V> {
        match *self {
            Next::Done { eaten } => NextModel::Done { eaten },
            Next::Ask { ask, then } => NextModel::Ask { ask: ask@, then: then@ },
        }
    }
}

/// What a handler does at once, and how it goes on.
#[derive(Debug, PartialEq)]
pub struct Turn<P> {
    pub effects: Vec<Effect>,
    pub next: Next<P>,
}

#[verifier::ext_equal]
pub struct TurnModel<P> {
    pub effects: Seq<EffectModel>,
    pub next: NextModel<P>,
}

impl<P: View> View for Turn<P> {
    type V = TurnModel<P::V>;

    open spec fn view(&self) -> TurnModel<P::V> {
        TurnModel { effects: views(self.effects@), next: self.next@ }
    }
}

/// Appends one effect.
pub fn emit(effects: &mut Vec<Effect>, effect: Effect)
    ensures
        views(final(effects)@) == views(old(effects)@).push(effect@),
{
    effects.push(effect);
    assert(views(effects@) =~= views(old(effects)@).push(effect@));
}

/// No effects yet.
pub fn no_effects() -> (r: Vec<Effect>)
    ensures
        views(r@) == Seq::<EffectModel>::empty(),
{
    let r: Vec<Effect> = Vec::new();
    assert(views(r@) =~= Seq::<EffectModel>::empty());
    r
}

/// The handler is finished.
pub open spec fn done_model<P>(effects: Seq<EffectModel>, eaten: bool) -> TurnModel<P> {
    TurnModel { effects, next: NextModel::Done { eaten } }
}

/// The handler asks and continues.
pub open spec fn ask_model<P>(effects: Seq<EffectModel>, ask: AskModel, then: P) -> TurnModel<P> {
    TurnModel { effects, next: NextModel::Ask { ask, then } }
}

pub fn done<P: View>(effects: Vec<Effect>, eaten: bool) -> (r: Turn<P>)
    ensures
        r@ == done_model::<P::V>(views(effects@), eaten),
{
    Turn { effects, next: Next::Done { eaten } }
}

pub fn ask<P: View>(effects: Vec<Effect>, request: Ask, then: P) -> (r: Turn<P>)
    ensures
        r@ == ask_model::<P::V>(views(effects@), request@, then@),
{
    Turn { effects, next: Next::Ask { ask: request, then } }
}

/// A list of one text.
pub fn single(text: &String) -> (r: Vec<String>)
    ensures
        views(r@) == seq![text@],
{
    let mut r: Vec<String> = Vec::new();
    r.push(text.clone());
    assert(views(r@) =~= seq![text@]);
    r
}

/// A copy of a list of texts.
pub fn clone_list(list: &Vec<String>) -> (r: Vec<String>)
    ensures
        views(r@) == views(list@),
{
    let r = list.clone();
    assert(views(r@) =~= views(list@));
    r
}

/// A list without texts.
pub fn empty_list() -> (r: Vec<String>)
    ensures
        views(r@) == Seq::<Seq<char>>::empty(),
{
    let r: Vec<String> = Vec::new();
    assert(views(r@) =~= Seq::<Seq<char>>::empty());
    r
}

/// The flag of an answer.
pub fn flag_of(reply: &Reply) -> (r: bool)
    ensures
        reply@ is Flag ==> r == reply@->on,
{
    match reply {
        ReplyOf::Flag { on } => *on,
        _ => false,
    }
}

/// The conversion of an answer.
pub fn found_of(reply: Reply) -> (r: Option<Vec<String>>)
    ensures
        reply@ is Taken ==> (match r {
            Some(items) => Some(views(items@)),
            None => None,
        }) == reply@->found,
{
    match reply {
        ReplyOf::Taken { found } => found,
        _ => None,
    }
}

/// The list of an answer.
pub fn items_of(reply: Reply) -> (r: Vec<String>)
    ensures
        reply@ is List ==> views(r@) == reply@->items,
{
    match reply {
        ReplyOf::List { items } => items,
        _ => empty_list(),
    }
}

} // verus!
