//! From a key to the handler that takes it.

use crate::engine::conversion::views;
use crate::engine::input_mode::InputMode;
use crate::engine::paging::{pages_are_filled, stepping_goes_one_on};
use crate::engine::state::{fresh_choice, SelectingModel, SessionModel, SessionState};
use crate::tsf::convert::{shown, DICT_LIMIT};
use crate::tsf::edit::{kana_keys_rewrite_kana, rewritten, RewriteKey, RomajiLogModel};
use crate::tsf::effects::{
    answers, ask, ask_model, done, done_model, emit, found_of, items_of, no_effects, AskOf,
    BgStatus, Effect, EffectModel, EffectOf, EngineFacts, FactsModel, NextModel, Reply,
    ReplyModel, ReplyOf, Turn, TurnModel,
};
use crate::tsf::live::{
    apply_kept_preview, kept_preview_is_shown, preview_applied, PreviewEntry, PreviewEntryModel,
    PreviewEntryOf,
};
use crate::tsf::select::{candidate_move_turn, CandidateDir};
use crate::tsf::world::{played, played_to, World};
use vstd::prelude::*;

verus! {

/// What a key stands for.
#[derive(Clone, Copy, Debug, PartialEq, Eq, Structural)]
pub enum UserAction {
    Input(char),
    InputRaw(char),
    FullWidthSpace,
    Convert,
    CommitRaw,
    Backspace,
    Cancel,
    CancelAll,
    Hiragana,
    Katakana,
    HalfKatakana,
    FullLatin,
    HalfLatin,
    CycleKana,
    CandidateNext,
    CandidatePrev,
    CandidatePageDown,
    CandidatePageUp,
    CandidateSelect(u8),
    CursorLeft,
    CursorRight,
    Punctuate(char),
    SegmentShrink,
    SegmentExtend,
    ImeToggle,
    ImeOn,
    ImeOff,
    ModeHiragana,
    ModeKatakana,
    ModeAlphanumeric,
    Other,
}

/// Keys that type something or switch the input method: they belong to it whether or
/// not something is composed.
pub open spec fn is_always_taken(action: UserAction) -> bool {
    match action {
        UserAction::Input(_) => true,
        UserAction::InputRaw(_) => true,
        UserAction::FullWidthSpace => true,
        UserAction::Convert => true,
        UserAction::Punctuate(_) => true,
        _ => switches_mode(action),
    }
}

/// Keys that switch the input method or its mode.
pub open spec fn switches_mode(action: UserAction) -> bool {
    match action {
        UserAction::ImeToggle => true,
        UserAction::ImeOn => true,
        UserAction::ImeOff => true,
        UserAction::ModeHiragana => true,
        UserAction::ModeKatakana => true,
        UserAction::ModeAlphanumeric => true,
        _ => false,
    }
}

/// Whether the input method takes a key: all but unknown keys while something is
/// composed, and the others only where they type or switch.
pub open spec fn takes_key(action: UserAction, has_preedit: bool) -> bool {
    is_always_taken(action) || (has_preedit && action != UserAction::Other)
}

/// Whether the input method takes a key.
pub fn key_should_eat(action: &UserAction, has_preedit: bool) -> (r: bool)
    ensures
        r == takes_key(*action, has_preedit),
{
    match action {
        UserAction::Input(_) => true,
        UserAction::InputRaw(_) => true,
        UserAction::FullWidthSpace => true,
        UserAction::Backspace => has_preedit,
        UserAction::Convert => true,
        UserAction::ImeToggle => true,
        UserAction::ImeOff => true,
        UserAction::ImeOn => true,
        UserAction::ModeHiragana => true,
        UserAction::ModeKatakana => true,
        UserAction::ModeAlphanumeric => true,
        UserAction::CommitRaw => has_preedit,
        UserAction::Cancel => has_preedit,
        UserAction::CancelAll => has_preedit,
        UserAction::Hiragana => has_preedit,
        UserAction::Katakana => has_preedit,
        UserAction::HalfKatakana => has_preedit,
        UserAction::FullLatin => has_preedit,
        UserAction::HalfLatin => has_preedit,
        UserAction::CycleKana => has_preedit,
        UserAction::CandidateNext => has_preedit,
        UserAction::CandidatePrev => has_preedit,
        UserAction::CandidatePageDown => has_preedit,
        UserAction::CandidatePageUp => has_preedit,
        UserAction::CursorLeft => has_preedit,
        UserAction::CursorRight => has_preedit,
        UserAction::SegmentShrink => has_preedit,
        UserAction::SegmentExtend => has_preedit,
        UserAction::Punctuate(_) => true,
        UserAction::CandidateSelect(_) => has_preedit,
        UserAction::Other => false,
    }
}

/// The name of an action in the log.
pub open spec fn action_label(action: UserAction) -> Seq<char> {
    match action {
        UserAction::Input(_) => "Input"@,
        UserAction::InputRaw(_) => "InputRaw"@,
        UserAction::FullWidthSpace => "FullWidthSpace"@,
        UserAction::Convert => "Convert"@,
        UserAction::CommitRaw => "CommitRaw"@,
        UserAction::Backspace => "Backspace"@,
        UserAction::Cancel => "Cancel"@,
        UserAction::CancelAll => "CancelAll"@,
        UserAction::Hiragana => "Hiragana"@,
        UserAction::Katakana => "Katakana"@,
        UserAction::HalfKatakana => "HalfKatakana"@,
        UserAction::FullLatin => "FullLatin"@,
        UserAction::HalfLatin => "HalfLatin"@,
        UserAction::CycleKana => "CycleKana"@,
        UserAction::CandidateNext => "CandidateNext"@,
        UserAction::CandidatePrev => "CandidatePrev"@,
        UserAction::CandidatePageDown => "CandidatePageDown"@,
        UserAction::CandidatePageUp => "CandidatePageUp"@,
        UserAction::CandidateSelect(_) => "CandidateSelect"@,
        UserAction::CursorLeft => "CursorLeft"@,
        UserAction::CursorRight => "CursorRight"@,
        UserAction::Punctuate(_) => "Punctuate"@,
        UserAction::SegmentShrink => "SegmentShrink"@,
        UserAction::SegmentExtend => "SegmentExtend"@,
        UserAction::ImeToggle => "ImeToggle"@,
        UserAction::ImeOn => "ImeOn"@,
        UserAction::ImeOff => "ImeOff"@,
        UserAction::ModeHiragana => "ModeHiragana"@,
        UserAction::ModeKatakana => "ModeKatakana"@,
        UserAction::ModeAlphanumeric => "ModeAlphanumeric"@,
        UserAction::Other => "Other"@,
    }
}

/// The name of an action in the log.
pub fn action_name(a: &UserAction) -> (r: &'static str)
    ensures
        r@ == action_label(*a),
{
    match a {
        UserAction::Input(_) => "Input",
        UserAction::InputRaw(_) => "InputRaw",
        UserAction::FullWidthSpace => "FullWidthSpace",
        UserAction::Convert => "Convert",
        UserAction::CommitRaw => "CommitRaw",
        UserAction::Backspace => "Backspace",
        UserAction::Cancel => "Cancel",
        UserAction::CancelAll => "CancelAll",
        UserAction::Hiragana => "Hiragana",
        UserAction::Katakana => "Katakana",
        UserAction::HalfKatakana => "HalfKatakana",
        UserAction::FullLatin => "FullLatin",
        UserAction::HalfLatin => "HalfLatin",
        UserAction::CycleKana => "CycleKana",
        UserAction::CandidateNext => "CandidateNext",
        UserAction::CandidatePrev => "CandidatePrev",
        UserAction::CandidatePageDown => "CandidatePageDown",
        UserAction::CandidatePageUp => "CandidatePageUp",
        UserAction::CandidateSelect(_) => "CandidateSelect",
        UserAction::CursorLeft => "CursorLeft",
        UserAction::CursorRight => "CursorRight",
        UserAction::Punctuate(_) => "Punctuate",
        UserAction::SegmentShrink => "SegmentShrink",
        UserAction::SegmentExtend => "SegmentExtend",
        UserAction::ImeToggle => "ImeToggle",
        UserAction::ImeOn => "ImeOn",
        UserAction::ImeOff => "ImeOff",
        UserAction::ModeHiragana => "ModeHiragana",
        UserAction::ModeKatakana => "ModeKatakana",
        UserAction::ModeAlphanumeric => "ModeAlphanumeric",
        UserAction::Other => "Other",
    }
}

/// Which modifier keys are held, and whether Space is.
#[derive(Clone, Copy, Debug, PartialEq)]
pub struct HeldKeys {
    pub ctrl: bool,
    pub shift: bool,
    pub alt: bool,
    pub space: bool,
}

/// The key that was meant: some keyboards report Ctrl+Alt+Space as Ctrl+Alt+Right while
/// Space is held.
pub fn normalize_key_event_vk(vk: u16, held: HeldKeys) -> (r: u16)
    ensures
        r == (if vk == 0x27 && held.ctrl && held.alt && !held.shift && held.space {
            0x20u16
        } else {
            vk
        }),
{
    if vk == 0x27 && held.ctrl && held.alt && !held.shift && held.space {
        0x20
    } else {
        vk
    }
}

/// The keys that work even where the key map cannot be read.
pub open spec fn builtin_action(vk: u16) -> Option<UserAction> {
    if vk == 0x0D {
        Some(UserAction::CommitRaw)
    } else if vk == 0x20 {
        Some(UserAction::Convert)
    } else if vk == 0x08 {
        Some(UserAction::Backspace)
    } else if vk == 0x1B {
        Some(UserAction::Cancel)
    } else if vk == 0x1A {
        Some(UserAction::ImeOff)
    } else if vk == 0x16 {
        Some(UserAction::ImeOn)
    } else if vk == 0x19 {
        Some(UserAction::ImeToggle)
    } else {
        None
    }
}

fn fallback_action(vk: u16) -> (r: Option<UserAction>)
    ensures
        r == builtin_action(vk),
{
    match vk {
        0x0D => Some(UserAction::CommitRaw),
        0x20 => Some(UserAction::Convert),
        0x08 => Some(UserAction::Backspace),
        0x1B => Some(UserAction::Cancel),
        0x1A => Some(UserAction::ImeOff),
        0x16 => Some(UserAction::ImeOn),
        0x19 => Some(UserAction::ImeToggle),
        _ => None,
    }
}

fn is_mode_switch(action: &UserAction) -> (r: bool)
    ensures
        r == switches_mode(*action),
{
    match action {
        UserAction::ImeToggle => true,
        UserAction::ImeOn => true,
        UserAction::ImeOff => true,
        UserAction::ModeHiragana => true,
        UserAction::ModeKatakana => true,
        UserAction::ModeAlphanumeric => true,
        _ => false,
    }
}

/// Whether a key that is about to be pressed belongs to the input method. `mapped` is
/// what the key map says of it.
pub fn on_test_key_down(
    vk: u16,
    mapped: Option<UserAction>,
    mode: InputMode,
    has_preedit: bool,
    selecting: bool,
) -> (r: bool)
    ensures
        ({
            let action = if mapped is Some {
                mapped
            } else {
                builtin_action(vk)
            };
            r == (action is Some && if mode is Alphanumeric {
                switches_mode(action->0)
            } else {
                takes_key(action->0, has_preedit || selecting)
            })
        }),
{
    let action = match mapped {
        Some(a) => a,
        None => match fallback_action(vk) {
            Some(a) => a,
            None => {
                return false;
            },
        },
    };
    match mode {
        InputMode::Alphanumeric => is_mode_switch(&action),
        _ => key_should_eat(&action, has_preedit || selecting),
    }
}

/// What becomes of a pressed key.
#[derive(Clone, Copy, Debug, PartialEq, Eq, Structural)]
pub enum KeyVerdict {
    /// Ctrl+Shift+F12: write the diagnostics out.
    DumpDiagnostics,
    /// No action is mapped to it.
    Unmapped,
    /// There is no document to type into.
    NoContext,
    /// Compositions cannot be watched.
    NoSink,
    /// The input method is off.
    AlphanumericMode,
    Handle(UserAction),
}

/// What becomes of a pressed key. `mapped` is what the key map says of it.
pub fn on_key_down(
    vk: u16,
    held: HeldKeys,
    mapped: Option<UserAction>,
    has_context: bool,
    has_sink: bool,
    mode: InputMode,
) -> (r: KeyVerdict)
    ensures
        r == (if vk == 0x7B && held.ctrl && held.shift {
            KeyVerdict::DumpDiagnostics
        } else if mapped is None {
            KeyVerdict::Unmapped
        } else if !has_context {
            KeyVerdict::NoContext
        } else if !has_sink {
            KeyVerdict::NoSink
        } else if mode is Alphanumeric && !switches_mode(mapped->0) {
            KeyVerdict::AlphanumericMode
        } else {
            KeyVerdict::Handle(mapped->0)
        }),
{
    if vk == 0x7B && held.ctrl && held.shift {
        return KeyVerdict::DumpDiagnostics;
    }
    let action = match mapped {
        Some(a) => a,
        None => {
            return KeyVerdict::Unmapped;
        },
    };
    if !has_context {
        return KeyVerdict::NoContext;
    }
    if !has_sink {
        return KeyVerdict::NoSink;
    }
    match mode {
        InputMode::Alphanumeric => {
            if !is_mode_switch(&action) {
                return KeyVerdict::AlphanumericMode;
            }
        },
        _ => {},
    }
    KeyVerdict::Handle(action)
}

/// The handler of an action.
#[derive(Clone, Copy, Debug, PartialEq, Eq, Structural)]
pub enum Handler {
    Input(char),
    InputRaw(char),
    FullWidthSpace,
    Convert,
    CommitRaw,
    Backspace,
    Cancel,
    Rewrite(RewriteKey),
    CycleKana,
    CandidateMove(CandidateDir),
    CandidatePage(CandidateDir),
    CandidateSelect(u8),
    SegmentMoveLeft,
    SegmentMoveRight,
    Punctuate(char),
    SegmentShrink,
    SegmentExtend,
    ImeToggle,
    ImeOff,
    ImeOn,
    ModeHiragana,
    ModeKatakana,
    /// The key is left to the application.
    Nothing,
}

/// The handler of an action.
pub open spec fn handler_of(action: UserAction) -> Handler {
    match action {
        UserAction::Input(c) => Handler::Input(c),
        UserAction::InputRaw(c) => Handler::InputRaw(c),
        UserAction::FullWidthSpace => Handler::FullWidthSpace,
        UserAction::Convert => Handler::Convert,
        UserAction::CommitRaw => Handler::CommitRaw,
        UserAction::Backspace => Handler::Backspace,
        UserAction::Cancel => Handler::Cancel,
        UserAction::CancelAll => Handler::Cancel,
        UserAction::Hiragana => Handler::Rewrite(RewriteKey::Hiragana),
        UserAction::Katakana => Handler::Rewrite(RewriteKey::Katakana),
        UserAction::HalfKatakana => Handler::Rewrite(RewriteKey::HalfKatakana),
        UserAction::FullLatin => Handler::Rewrite(RewriteKey::FullLatin),
        UserAction::HalfLatin => Handler::Rewrite(RewriteKey::HalfLatin),
        UserAction::CycleKana => Handler::CycleKana,
        UserAction::CandidateNext => Handler::CandidateMove(CandidateDir::Next),
        UserAction::CandidatePrev => Handler::CandidateMove(CandidateDir::Prev),
        UserAction::CandidatePageDown => Handler::CandidatePage(CandidateDir::Next),
        UserAction::CandidatePageUp => Handler::CandidatePage(CandidateDir::Prev),
        UserAction::CandidateSelect(n) => Handler::CandidateSelect(n),
        UserAction::CursorLeft => Handler::SegmentMoveLeft,
        UserAction::CursorRight => Handler::SegmentMoveRight,
        UserAction::Punctuate(c) => Handler::Punctuate(c),
        UserAction::SegmentShrink => Handler::SegmentShrink,
        UserAction::SegmentExtend => Handler::SegmentExtend,
        UserAction::ImeToggle => Handler::ImeToggle,
        UserAction::ImeOff => Handler::ImeOff,
        UserAction::ModeAlphanumeric => Handler::ImeOff,
        UserAction::ImeOn => Handler::ImeOn,
        UserAction::ModeHiragana => Handler::ModeHiragana,
        UserAction::ModeKatakana => Handler::ModeKatakana,
        UserAction::Other => Handler::Nothing,
    }
}

/// The handler of an action.
pub fn dispatch(action: UserAction) -> (r: Handler)
    ensures
        r == handler_of(action),
{
    match action {
        UserAction::Input(c) => Handler::Input(c),
        UserAction::InputRaw(c) => Handler::InputRaw(c),
        UserAction::FullWidthSpace => Handler::FullWidthSpace,
        UserAction::Convert => Handler::Convert,
        UserAction::CommitRaw => Handler::CommitRaw,
        UserAction::Backspace => Handler::Backspace,
        UserAction::Cancel => Handler::Cancel,
        UserAction::CancelAll => Handler::Cancel,
        UserAction::Hiragana => Handler::Rewrite(RewriteKey::Hiragana),
        UserAction::Katakana => Handler::Rewrite(RewriteKey::Katakana),
        UserAction::HalfKatakana => Handler::Rewrite(RewriteKey::HalfKatakana),
        UserAction::FullLatin => Handler::Rewrite(RewriteKey::FullLatin),
        UserAction::HalfLatin => Handler::Rewrite(RewriteKey::HalfLatin),
        UserAction::CycleKana => Handler::CycleKana,
        UserAction::CandidateNext => Handler::CandidateMove(CandidateDir::Next),
        UserAction::CandidatePrev => Handler::CandidateMove(CandidateDir::Prev),
        UserAction::CandidatePageDown => Handler::CandidatePage(CandidateDir::Next),
        UserAction::CandidatePageUp => Handler::CandidatePage(CandidateDir::Prev),
        UserAction::CandidateSelect(n) => Handler::CandidateSelect(n),
        UserAction::CursorLeft => Handler::SegmentMoveLeft,
        UserAction::CursorRight => Handler::SegmentMoveRight,
        UserAction::Punctuate(c) => Handler::Punctuate(c),
        UserAction::SegmentShrink => Handler::SegmentShrink,
        UserAction::SegmentExtend => Handler::SegmentExtend,
        UserAction::ImeToggle => Handler::ImeToggle,
        UserAction::ImeOff => Handler::ImeOff,
        UserAction::ModeAlphanumeric => Handler::ImeOff,
        UserAction::ImeOn => Handler::ImeOn,
        UserAction::ModeHiragana => Handler::ModeHiragana,
        UserAction::ModeKatakana => Handler::ModeKatakana,
        UserAction::Other => Handler::Nothing,
    }
}

/// Where the work before the handler of a key continues.
#[verifier::ext_equal]
#[derive(Debug, PartialEq)]
pub enum ActionPointOf<T> {
    /// The key was pressed.
    Enter,
    /// The conversion for an open choice was asked for.
    PollTaken,
    PollMerged,
    /// The conversion that is being waited for was asked for.
    WaitTaken { text: T, pos_x: i32, pos_y: i32 },
    WaitMerged { text: T, pos_x: i32, pos_y: i32 },
    /// The handler of the key takes over.
    Dispatch,
}

pub type ActionPoint = ActionPointOf<String>;

pub type ActionPointModel = ActionPointOf<Seq<char>>;

impl View for ActionPointOf<String> {
    type V = ActionPointModel;

    open spec fn view(&self) -> ActionPointModel {
        match *self {
            ActionPointOf::Enter => ActionPointOf::Enter,
            ActionPointOf::PollTaken => ActionPointOf::PollTaken,
            ActionPointOf::PollMerged => ActionPointOf::PollMerged,
            ActionPointOf::WaitTaken { text, pos_x, pos_y } => ActionPointOf::WaitTaken {
                text: text@,
                pos_x,
                pos_y,
            },
            ActionPointOf::WaitMerged { text, pos_x, pos_y } => ActionPointOf::WaitMerged {
                text: text@,
                pos_x,
                pos_y,
            },
            ActionPointOf::Dispatch => ActionPointOf::Dispatch,
        }
    }
}

impl ActionPointOf<Seq<char>> {
    /// Whether the work can be resumed here with `reply`.
    pub open spec fn fits(self, reply: ReplyModel) -> bool {
        match self {
            ActionPointOf::Enter => true,
            ActionPointOf::PollTaken => reply is Taken,
            ActionPointOf::PollMerged => reply is List,
            ActionPointOf::WaitTaken { .. } => reply is Taken,
            ActionPointOf::WaitMerged { .. } => reply is List,
            ActionPointOf::Dispatch => true,
        }
    }

    /// How many turns can follow at most before the handler takes over.
    pub open spec fn turns_left(self) -> nat {
        match self {
            ActionPointOf::Enter => 5,
            ActionPointOf::PollTaken => 4,
            ActionPointOf::PollMerged => 3,
            ActionPointOf::WaitTaken { .. } => 2,
            ActionPointOf::WaitMerged { .. } => 1,
            ActionPointOf::Dispatch => 0,
        }
    }
}

/// What the work before a handler needs to know.
#[derive(Clone, Copy)]
pub struct ActionEnv {
    pub action: UserAction,
    pub caret_x: i32,
    pub caret_y: i32,
    /// How many keys have changed what is typed.
    pub generation: u64,
    /// How many compositions have been begun.
    pub nonce: u64,
    /// How many characters of kana live conversion wants at least.
    pub min_chars: usize,
}

pub type ActionTurn = (TurnModel<ActionPointModel>, SessionModel);

/// Whether the key gives up what is composed. Such a key does not look for finished
/// conversions.
pub open spec fn gives_up(action: UserAction) -> bool {
    action == UserAction::Cancel || action == UserAction::CancelAll
}

/// A conversion that is waited for is taken up if it is finished, then the handler
/// takes over.
pub open spec fn look_for_awaited(
    before: Seq<EffectModel>,
    facts: FactsModel,
    env: ActionEnv,
    sess: SessionModel,
) -> ActionTurn {
    match sess {
        SessionModel::Waiting { text, pos_x, pos_y, .. } => if !gives_up(env.action)
            && facts.bg is Done {
            (
                ask_model(
                    before,
                    AskOf::Take { key: text },
                    ActionPointOf::WaitTaken { text, pos_x, pos_y },
                ),
                sess,
            )
        } else {
            (ask_model(before, AskOf::Observe, ActionPointOf::Dispatch), sess)
        },
        _ => (ask_model(before, AskOf::Observe, ActionPointOf::Dispatch), sess),
    }
}

/// A conversion that an open choice still waits for is taken up first if it is
/// finished.
pub open spec fn look_for_finished(
    before: Seq<EffectModel>,
    facts: FactsModel,
    env: ActionEnv,
    sess: SessionModel,
) -> ActionTurn {
    match sess {
        SessionModel::Selecting(s) => if s.llm_pending && facts.bg is Done {
            (
                ask_model(
                    before,
                    AskOf::Take { key: s.original_preedit },
                    ActionPointOf::PollTaken,
                ),
                sess,
            )
        } else {
            look_for_awaited(before, facts, env, sess)
        },
        _ => look_for_awaited(before, facts, env, sess),
    }
}

/// What happens at `point` before the handler of a key: a kept live preview is shown,
/// and finished conversions are taken up.
pub open spec fn action_turn(
    point: ActionPointModel,
    reply: ReplyModel,
    kept: Option<PreviewEntryModel>,
    facts: FactsModel,
    env: ActionEnv,
    sess: SessionModel,
) -> ActionTurn {
    match point {
        ActionPointOf::Enter => match kept {
            Some(entry) => {
                let (text, after) = preview_applied(
                    entry,
                    env.generation,
                    env.nonce,
                    facts.hiragana,
                    facts.preedit,
                    env.min_chars,
                    sess,
                );
                look_for_finished(
                    match text {
                        Some(t) => seq![EffectOf::UpdateComposition { text: t }],
                        None => seq![],
                    },
                    facts,
                    env,
                    after,
                )
            },
            None => look_for_finished(seq![], facts, env, sess),
        },
        ActionPointOf::PollTaken => match reply->found {
            Some(items) => (
                ask_model(
                    seq![],
                    AskOf::Merge { candidates: items, limit: DICT_LIMIT },
                    ActionPointOf::PollMerged,
                ),
                sess,
            ),
            None => look_for_awaited(seq![], facts, env, sess),
        },
        ActionPointOf::PollMerged => if reply->items.len() == 0 || !(sess is Selecting) {
            look_for_awaited(seq![], facts, env, sess)
        } else {
            let s = sess->Selecting_0.refreshed(reply->items);
            (
                done_model(
                    seq![
                        shown(s.page(), 0, s.info(), env.caret_x, env.caret_y, None),
                        EffectOf::UpdateParts {
                            prefix: s.prefix,
                            text: reply->items[0],
                            suffix: s.remainder,
                        },
                    ],
                    true,
                ),
                SessionModel::Selecting(s),
            )
        },
        ActionPointOf::WaitTaken { text, pos_x, pos_y } => match reply->found {
            Some(items) => (
                ask_model(
                    seq![],
                    AskOf::Merge { candidates: items, limit: DICT_LIMIT },
                    ActionPointOf::WaitMerged { text, pos_x, pos_y },
                ),
                sess,
            ),
            None => (ask_model(seq![], AskOf::Observe, ActionPointOf::Dispatch), sess),
        },
        ActionPointOf::WaitMerged { text, pos_x, pos_y } => if reply->items.len() == 0 {
            (ask_model(seq![], AskOf::Observe, ActionPointOf::Dispatch), sess)
        } else {
            let choice = fresh_choice(reply->items, text, pos_x, pos_y, false);
            (
                done_model(
                    seq![
                        EffectOf::StopWaitingTimer,
                        shown(choice.page(), 0, choice.info(), pos_x, pos_y, None),
                        EffectOf::UpdateComposition { text: reply->items[0] },
                    ],
                    true,
                ),
                SessionModel::Selecting(choice),
            )
        },
        ActionPointOf::Dispatch => (
            ask_model(seq![], AskOf::Observe, ActionPointOf::Dispatch),
            sess,
        ),
    }
}

fn is_giving_up(action: &UserAction) -> (r: bool)
    ensures
        r == gives_up(*action),
{
    match action {
        UserAction::Cancel => true,
        UserAction::CancelAll => true,
        _ => false,
    }
}

fn awaited_turn(
    before: Vec<Effect>,
    facts: &EngineFacts,
    env: &ActionEnv,
    sess: &SessionState,
) -> (r: Turn<ActionPoint>)
    ensures
        (r@, sess@) == look_for_awaited(views(before@), facts@, *env, sess@),
{
    if !is_giving_up(&env.action) {
        if let Some((text, pos_x, pos_y)) = sess.waiting_info() {
            match facts.bg {
                BgStatus::Done => {
                    return ask(
                        before,
                        AskOf::Take { key: text.to_owned() },
                        ActionPointOf::WaitTaken { text: text.to_owned(), pos_x, pos_y },
                    );
                },
                _ => {},
            }
        }
    }
    ask(before, AskOf::Observe, ActionPointOf::Dispatch)
}

fn finished_turn(
    before: Vec<Effect>,
    facts: &EngineFacts,
    env: &ActionEnv,
    sess: &SessionState,
) -> (r: Turn<ActionPoint>)
    ensures
        (r@, sess@) == look_for_finished(views(before@), facts@, *env, sess@),
{
    if sess.is_llm_pending() {
        match facts.bg {
            BgStatus::Done => {
                let key = match sess.original_preedit() {
                    Some(t) => t.to_owned(),
                    None => String::new(),
                };
                return ask(before, AskOf::Take { key }, ActionPointOf::PollTaken);
            },
            _ => {},
        }
    }
    awaited_turn(before, facts, env, sess)
}

/// The work before the handler of a key: goes on at `point` with the answer to what was
/// asked last. `kept` is a live preview that waits to be shown. Where the turn names
/// the point `Dispatch`, the handler that [`dispatch`] gives takes over. Without an engine
/// nothing happens, and the key is left to the application.
pub fn handle_action(
    point: ActionPoint,
    reply: Reply,
    kept: Option<PreviewEntry>,
    facts: Option<&EngineFacts>,
    env: &ActionEnv,
    sess: &mut SessionState,
) -> (r: Turn<ActionPoint>)
    requires
        point@.fits(reply@),
        old(sess)@.wf(),
    ensures
        match facts {
            Some(facts) => (r@, final(sess)@) == action_turn(
                point@,
                reply@,
                crate::engine::conversion::option_view(kept),
                facts@,
                *env,
                old(sess)@,
            ),
            None => r@ == done_model::<ActionPointModel>(seq![], false) && final(sess)@ == old(
                sess,
            )@,
        },
        final(sess)@.wf(),
{
    let mut fx = no_effects();
    let facts = match facts {
        Some(facts) => facts,
        None => {
            return done(fx, false);
        },
    };
    match point {
        ActionPointOf::Enter => {
            if let Some(entry) = kept {
                let text = apply_kept_preview(
                    entry,
                    env.generation,
                    env.nonce,
                    &facts.hiragana,
                    &facts.preedit,
                    env.min_chars,
                    sess,
                );
                if let Some(t) = text {
                    emit(&mut fx, EffectOf::UpdateComposition { text: t });
                }
            }
            finished_turn(fx, facts, env, sess)
        },
        ActionPointOf::PollTaken => match found_of(reply) {
            Some(items) => ask(
                fx,
                AskOf::Merge { candidates: items, limit: DICT_LIMIT },
                ActionPointOf::PollMerged,
            ),
            None => awaited_turn(fx, facts, env, sess),
        },
        ActionPointOf::PollMerged => {
            let items = items_of(reply);
            if items.len() == 0 || !sess.is_selecting() {
                return awaited_turn(fx, facts, env, sess);
            }
            let first = items[0].clone();
            sess.refresh_candidates(items);
            emit(
                &mut fx,
                EffectOf::ShowWindow {
                    items: sess.page_candidates(),
                    selected: 0,
                    info: sess.page_info(),
                    x: env.caret_x,
                    y: env.caret_y,
                    status: None,
                },
            );
            emit(
                &mut fx,
                EffectOf::UpdateParts {
                    prefix: sess.selecting_prefix_clone(),
                    text: first,
                    suffix: sess.selecting_remainder_clone(),
                },
            );
            done(fx, true)
        },
        ActionPointOf::WaitTaken { text, pos_x, pos_y } => match found_of(reply) {
            Some(items) => ask(
                fx,
                AskOf::Merge { candidates: items, limit: DICT_LIMIT },
                ActionPointOf::WaitMerged { text, pos_x, pos_y },
            ),
            None => ask(fx, AskOf::Observe, ActionPointOf::Dispatch),
        },
        ActionPointOf::WaitMerged { text, pos_x, pos_y } => {
            let items = items_of(reply);
            if items.len() == 0 {
                return ask(fx, AskOf::Observe, ActionPointOf::Dispatch);
            }
            let first = items[0].clone();
            sess.activate_selecting(items, text, pos_x, pos_y, false);
            emit(&mut fx, EffectOf::StopWaitingTimer);
            emit(
                &mut fx,
                EffectOf::ShowWindow {
                    items: sess.page_candidates(),
                    selected: 0,
                    info: sess.page_info(),
                    x: pos_x,
                    y: pos_y,
                    status: None,
                },
            );
            emit(&mut fx, EffectOf::UpdateComposition { text: first });
            done(fx, true)
        },
        ActionPointOf::Dispatch => ask(fx, AskOf::Observe, ActionPointOf::Dispatch),
    }
}

/// Whatever the engine answers, the work can be resumed with it, and the handler takes
/// over, or the key is used up, after a bounded number of turns.
pub proof fn action_reaches_its_handler(
    point: ActionPointModel,
    reply: ReplyModel,
    kept: Option<PreviewEntryModel>,
    facts: FactsModel,
    env: ActionEnv,
    sess: SessionModel,
)
    requires
        point.fits(reply),
        !(point is Dispatch),
    ensures
        match action_turn(point, reply, kept, facts, env, sess).0.next {
            NextModel::Done { eaten } => eaten,
            NextModel::Ask { ask, then } => {
                &&& then.turns_left() < point.turns_left()
                &&& forall|answer: ReplyModel| #[trigger]
                    answers(ask, answer) ==> then.fits(answer)
            },
        },
{
}

/// Escape always reaches its handler while a conversion is waited for: the waiting is
/// given up, not turned into a choice.
pub proof fn cancel_is_not_held_up(
    reply: ReplyModel,
    facts: FactsModel,
    env: ActionEnv,
    sess: SessionModel,
)
    requires
        gives_up(env.action),
        sess is Waiting,
    ensures
        action_turn(ActionPointOf::Enter, reply, None, facts, env, sess) == (
            ask_model::<ActionPointModel>(seq![], AskOf::Observe, ActionPointOf::Dispatch),
            sess,
        ),
{
}

/// While the input method is off, only the keys that switch it are taken, before and
/// when they are pressed.
pub proof fn off_means_off(action: UserAction)
    ensures
        switches_mode(action) ==> is_always_taken(action),
        switches_mode(action) <==> match handler_of(action) {
            Handler::ImeToggle => true,
            Handler::ImeOff => true,
            Handler::ImeOn => true,
            Handler::ModeHiragana => true,
            Handler::ModeKatakana => true,
            _ => false,
        },
{
}

/// Sign and message while the engine is loading, by how long that has taken.
pub open spec fn loading_sign(elapsed_ms: Option<u64>) -> (Seq<char>, Seq<char>) {
    match elapsed_ms {
        None => ("⏳"@, "エンジン読込中"@),
        Some(ms) => if ms < 10_000 {
            ("⏳"@, "エンジン読込中"@)
        } else if ms < 30_000 {
            ("⌛"@, "エンジン読込中..."@)
        } else if ms < 60_000 {
            ("⚠"@, "読込に時間がかかっています"@)
        } else {
            ("✕"@, "エンジン起動失敗の可能性"@)
        },
    }
}

/// Sign and message while the engine is loading.
pub fn loading_indicator_symbol(elapsed_ms: Option<u64>) -> (r: (&'static str, &'static str))
    ensures
        (r.0@, r.1@) == loading_sign(elapsed_ms),
{
    match elapsed_ms {
        None => ("⏳", "エンジン読込中"),
        Some(ms) => if ms < 10_000 {
            ("⏳", "エンジン読込中")
        } else if ms < 30_000 {
            ("⌛", "エンジン読込中...")
        } else if ms < 60_000 {
            ("⚠", "読込に時間がかかっています")
        } else {
            ("✕", "エンジン起動失敗の可能性")
        },
    }
}

/// Every key has a handler of its own, which is given the character or number of the key. Only
/// the two keys for giving up share one, and the two keys for switching to letters.
pub proof fn keys_have_handlers_of_their_own(a: UserAction, b: UserAction, c: char, n: u8)
    ensures
        handler_of(a) == handler_of(b) && a != b ==> (gives_up(a) && gives_up(b)) || (is_off(a)
            && is_off(b)),
        handler_of(UserAction::Input(c)) == Handler::Input(c),
        handler_of(UserAction::InputRaw(c)) == Handler::InputRaw(c),
        handler_of(UserAction::Punctuate(c)) == Handler::Punctuate(c),
        handler_of(UserAction::CandidateSelect(n)) == Handler::CandidateSelect(n),
        handler_of(UserAction::Convert) is Convert,
        handler_of(UserAction::CommitRaw) is CommitRaw,
        handler_of(UserAction::Backspace) is Backspace,
        gives_up(a) <==> handler_of(a) is Cancel,
        is_off(a) <==> handler_of(a) is ImeOff,
        handler_of(UserAction::ImeOn) is ImeOn,
        handler_of(UserAction::ImeToggle) is ImeToggle,
        handler_of(UserAction::ModeHiragana) is ModeHiragana,
        handler_of(UserAction::ModeKatakana) is ModeKatakana,
        handler_of(UserAction::FullWidthSpace) is FullWidthSpace,
        handler_of(UserAction::CycleKana) is CycleKana,
        handler_of(UserAction::SegmentShrink) is SegmentShrink,
        handler_of(UserAction::SegmentExtend) is SegmentExtend,
        handler_of(UserAction::CursorLeft) is SegmentMoveLeft,
        handler_of(UserAction::CursorRight) is SegmentMoveRight,
        a is Other <==> handler_of(a) is Nothing,
{
}

/// Whether a key switches to letters whatever the mode is.
pub open spec fn is_off(action: UserAction) -> bool {
    action is ImeOff || action is ModeAlphanumeric
}

/// The keys for candidates go forward and back, and the rewriting keys give the script that
/// they are named after.
pub proof fn named_keys_do_what_they_say(
    w: World,
    x: i32,
    y: i32,
    s: SelectingModel,
    p: Seq<char>,
    log: RomajiLogModel,
    i: int,
)
    requires
        s.wf(),
        0 <= s.selected,
        s.selected + 1 < s.candidates.len(),
        forall|k: int| 0 <= k < p.len() ==> 0x3041 <= (#[trigger] p[k]) as u32 <= 0x3096,
        0 <= i < p.len(),
    ensures
        handler_of(UserAction::CandidateNext) matches Handler::CandidateMove(dir)
            && candidate_move_turn(
            dir,
            true,
            x,
            y,
            SessionModel::Selecting(s),
        ).1 == SessionModel::Selecting(SelectingModel { selected: s.selected + 1, ..s }),
        handler_of(UserAction::CandidatePrev) matches Handler::CandidateMove(dir)
            && candidate_move_turn(
            dir,
            true,
            x,
            y,
            SessionModel::Selecting(SelectingModel { selected: s.selected + 1, ..s }),
        ).1 == SessionModel::Selecting(s),
        handler_of(UserAction::CandidatePageDown) == Handler::CandidatePage(CandidateDir::Next),
        handler_of(UserAction::CandidatePageUp) == Handler::CandidatePage(CandidateDir::Prev),
        handler_of(UserAction::Hiragana) matches Handler::Rewrite(key) && rewritten(key, p, log)
            == p,
        handler_of(UserAction::Katakana) matches Handler::Rewrite(key) && rewritten(
            key,
            p,
            log,
        )[i] as u32 == p[i] as u32 + 0x60,
        handler_of(UserAction::HalfKatakana) == Handler::Rewrite(RewriteKey::HalfKatakana),
        handler_of(UserAction::FullLatin) == Handler::Rewrite(RewriteKey::FullLatin),
        handler_of(UserAction::HalfLatin) == Handler::Rewrite(RewriteKey::HalfLatin),
{
    kana_keys_rewrite_kana(p, log, i);
    let len = s.candidates.len() as int;
    stepping_goes_one_on(len, s.selected);
    stepping_goes_one_on(len, s.selected + 1);
    let t = SelectingModel { selected: s.selected + 1, ..s };
    assert(t.select(s.selected) == s);
    assert(s.select(s.selected + 1) == t);
}

/// Where something is composed, the input method takes every key that it knows. Where nothing
/// is, it takes those that type something or switch a mode, and leaves the others to the
/// application.
pub proof fn known_keys_are_taken_while_composing(action: UserAction)
    ensures
        takes_key(action, true) <==> !(action is Other),
        takes_key(action, false) <==> action is Input || action is InputRaw || action
            is FullWidthSpace || action is Convert || action is Punctuate || action is ImeToggle
            || action is ImeOn || action is ImeOff || action is ModeHiragana || action
            is ModeKatakana || action is ModeAlphanumeric,
        switches_mode(action) <==> action is ImeToggle || action is ImeOn || action is ImeOff
            || action is ModeHiragana || action is ModeKatakana || action is ModeAlphanumeric,
{
}

/// Enter, Space, Backspace, Escape and the three keys for the input method work without a key
/// map, and no others do.
pub proof fn few_keys_need_no_map(vk: u16)
    ensures
        builtin_action(0x0D) == Some(UserAction::CommitRaw),
        builtin_action(0x20) == Some(UserAction::Convert),
        builtin_action(0x08) == Some(UserAction::Backspace),
        builtin_action(0x1B) == Some(UserAction::Cancel),
        builtin_action(0x1A) == Some(UserAction::ImeOff),
        builtin_action(0x16) == Some(UserAction::ImeOn),
        builtin_action(0x19) == Some(UserAction::ImeToggle),
        builtin_action(vk) is Some ==> vk == 0x0D || vk == 0x20 || vk == 0x08 || vk == 0x1B || vk
            == 0x1A || vk == 0x16 || vk == 0x19,
{
}

/// Without a kept preview and without a conversion that has finished, the key goes straight to
/// its handler, and nothing changes before.
pub proof fn key_goes_to_its_handler(
    w: World,
    reply: ReplyModel,
    facts: FactsModel,
    env: ActionEnv,
    sess: SessionModel,
)
    requires
        !(facts.bg is Done) || !(sess is Waiting || (sess is Selecting
            && sess->Selecting_0.llm_pending)),
    ensures
        ({
            let (turn, after) = action_turn(ActionPointOf::Enter, reply, None, facts, env, sess);
            &&& after == sess
            &&& turn.effects.len() == 0
            &&& turn.next == (NextModel::<ActionPointModel>::Ask {
                ask: AskOf::Observe,
                then: ActionPointOf::Dispatch,
            })
        }),
{
}

/// A kept preview of what is typed now is shown before the key is handled, and is the live
/// preview from then on.
pub proof fn kept_preview_comes_first(
    w: World,
    reply: ReplyModel,
    facts: FactsModel,
    env: ActionEnv,
    preview: Seq<char>,
    letters: Seq<char>,
    text: Seq<char>,
)
    requires
        facts.hiragana.len() > 0,
        facts.hiragana.len() >= env.min_chars,
        facts.preedit == facts.hiragana + letters,
        preview.len() * 10 >= facts.hiragana.len() * 3,
    ensures
        ({
            let entry = PreviewEntryOf {
                preview,
                reading: facts.hiragana,
                gen_when_requested: env.generation,
                session_nonce_at_request: env.nonce,
            };
            let (turn, after) = action_turn(
                ActionPointOf::Enter,
                reply,
                Some(entry),
                facts,
                env,
                SessionModel::Preedit { text },
            );
            &&& after == (SessionModel::LiveConv { reading: facts.hiragana, preview })
            &&& played(w, turn.effects) == (World { composition: preview + letters, ..w })
            &&& turn.next == (NextModel::<ActionPointModel>::Ask {
                ask: AskOf::Observe,
                then: ActionPointOf::Dispatch,
            })
        }),
{
    reveal_with_fuel(played_to, 3);
    kept_preview_is_shown(
        preview,
        facts.hiragana,
        letters,
        env.generation,
        env.nonce,
        env.min_chars,
        SessionModel::Preedit { text },
    );
}

/// A conversion that the user waits for and that has finished is shown instead of handling the
/// key: as a choice for the text, its first candidate in the composition. Where it brings
/// nothing, the key is handled. Escape does not look for it.
pub proof fn finished_wait_is_shown_first(
    w: World,
    reply: ReplyModel,
    items: Seq<Seq<char>>,
    facts: FactsModel,
    env: ActionEnv,
    sess: SessionModel,
)
    requires
        sess is Waiting,
        facts.bg is Done,
        items.len() > 0,
    ensures
        ({
            let text = sess->Waiting_text;
            let x = sess->Waiting_pos_x;
            let y = sess->Waiting_pos_y;
            let first = action_turn(ActionPointOf::Enter, reply, None, facts, env, sess);
            let second = action_turn(
                ActionPointOf::WaitTaken { text, pos_x: x, pos_y: y },
                ReplyOf::Taken { found: Some(items) },
                None,
                facts,
                env,
                sess,
            );
            let missed = action_turn(
                ActionPointOf::WaitTaken { text, pos_x: x, pos_y: y },
                ReplyOf::Taken { found: None },
                None,
                facts,
                env,
                sess,
            );
            let (turn, after) = action_turn(
                ActionPointOf::WaitMerged { text, pos_x: x, pos_y: y },
                ReplyOf::List { items },
                None,
                facts,
                env,
                sess,
            );
            let then = played(w, turn.effects);
            &&& first.1 == sess && second.1 == sess && missed.1 == sess
            &&& !(env.action is Cancel || env.action is CancelAll) ==> first.0.next == (
            NextModel::<ActionPointModel>::Ask {
                ask: AskOf::Take { key: text },
                then: ActionPointOf::WaitTaken { text, pos_x: x, pos_y: y },
            })
            &&& second.0.next == (NextModel::<ActionPointModel>::Ask {
                ask: AskOf::Merge { candidates: items, limit: 40 },
                then: ActionPointOf::WaitMerged { text, pos_x: x, pos_y: y },
            })
            &&& missed.0.next is Ask && missed.0.next->then is Dispatch
            &&& turn.next == (NextModel::<ActionPointModel>::Done { eaten: true })
            &&& after is Selecting
            &&& after->Selecting_0.candidates == items
            &&& after->Selecting_0.original_preedit == text
            &&& after->Selecting_0.selected == 0
            &&& !after->Selecting_0.llm_pending
            &&& then.composition == items[0]
            &&& !then.waiting
            &&& then.document == w.document
            &&& then.window is Some
            &&& then.window->0.items == items.take(
                if items.len() < 9 {
                    items.len() as int
                } else {
                    9
                },
            )
            &&& then.window->0.x == x && then.window->0.y == y
        }),
        action_turn(
            ActionPointOf::WaitMerged {
                text: sess->Waiting_text,
                pos_x: sess->Waiting_pos_x,
                pos_y: sess->Waiting_pos_y,
            },
            ReplyOf::List { items: Seq::empty() },
            None,
            facts,
            env,
            sess,
        ).0.next->then is Dispatch,
{
    reveal_with_fuel(played_to, 4);
    pages_are_filled(items.len() as int, 0, 9);
    let choice = fresh_choice(
        items,
        sess->Waiting_text,
        sess->Waiting_pos_x,
        sess->Waiting_pos_y,
        false,
    );
    assert(choice.page() =~= items.take(
        if items.len() < 9 {
            items.len() as int
        } else {
            9
        },
    ));
}

/// A conversion that an open choice still waits for, and that has finished, takes the place of
/// its candidates instead of handling the key.
pub proof fn finished_choice_is_completed_first(
    w: World,
    reply: ReplyModel,
    items: Seq<Seq<char>>,
    facts: FactsModel,
    env: ActionEnv,
    s: SelectingModel,
)
    requires
        s.llm_pending,
        s.page_size == 9,
        facts.bg is Done,
        items.len() > 0,
    ensures
        ({
            let sess = SessionModel::Selecting(s);
            let first = action_turn(ActionPointOf::Enter, reply, None, facts, env, sess);
            let second = action_turn(
                ActionPointOf::PollTaken,
                ReplyOf::Taken { found: Some(items) },
                None,
                facts,
                env,
                sess,
            );
            let missed = action_turn(
                ActionPointOf::PollTaken,
                ReplyOf::Taken { found: None },
                None,
                facts,
                env,
                sess,
            );
            let (turn, after) = action_turn(
                ActionPointOf::PollMerged,
                ReplyOf::List { items },
                None,
                facts,
                env,
                sess,
            );
            let then = played(w, turn.effects);
            &&& first.0.next == (NextModel::<ActionPointModel>::Ask {
                ask: AskOf::Take { key: s.original_preedit },
                then: ActionPointOf::PollTaken,
            })
            &&& second.0.next == (NextModel::<ActionPointModel>::Ask {
                ask: AskOf::Merge { candidates: items, limit: 40 },
                then: ActionPointOf::PollMerged,
            })
            &&& missed.0.next is Ask && missed.0.next->then is Dispatch && missed.1 == sess
            &&& turn.next == (NextModel::<ActionPointModel>::Done { eaten: true })
            &&& after == SessionModel::Selecting(
                SelectingModel { candidates: items, selected: 0, llm_pending: false, ..s },
            )
            &&& then.composition == s.prefix + items[0] + s.remainder
            &&& then.document == w.document
            &&& then.window is Some
            &&& then.window->0.items == items.take(
                if items.len() < 9 {
                    items.len() as int
                } else {
                    9
                },
            )
            &&& then.window->0.selected == 0
        }),
{
    reveal_with_fuel(played_to, 4);
    pages_are_filled(items.len() as int, 0, 9);
    assert(s.refreshed(items).page() =~= items.take(
        if items.len() < 9 {
            items.len() as int
        } else {
            9
        },
    ));
}

/// The sign beside the caret changes after ten, thirty and sixty seconds of loading, and does
/// not change in between.
pub proof fn loading_sign_changes_with_time(a: u64, b: u64)
    ensures
        a < 10_000 ==> loading_sign(Some(a)) == loading_sign(None),
        loading_sign(Some(a)) == loading_sign(Some(b)) <==> (a < 10_000 <==> b < 10_000) && (a
            < 30_000 <==> b < 30_000) && (a < 60_000 <==> b < 60_000),
        loading_sign(Some(a)).0.len() == 1,
        loading_sign(Some(a)).1.len() > 0,
{
    reveal_strlit("⏳");
    reveal_strlit("⌛");
    reveal_strlit("⚠");
    reveal_strlit("✕");
    reveal_strlit("エンジン読込中");
    reveal_strlit("エンジン読込中...");
    reveal_strlit("読込に時間がかかっています");
    reveal_strlit("エンジン起動失敗の可能性");
    assert("⏳"@[0] == '⏳' && "⌛"@[0] == '⌛' && "⚠"@[0] == '⚠' && "✕"@[0] == '✕');
}

} // verus!
