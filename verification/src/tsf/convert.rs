//! The conversion key (Space): from the composed text to a list of candidates.
//!
//! The handler alternates with the engine. It runs from one [`ConvertPoint`] to the
//! next: each turn lists what to do, and either ends the handler or asks the engine
//! for something and names the point at which the answer is taken up.

use crate::engine::conversion::{views, SplitBlock};
use crate::engine::input_mode::InputMode;
use crate::engine::paging::{next_index, page_info_text, PAGE_SIZE};
use crate::engine::state::{fresh_choice, SelectingModel, SessionModel, SessionState};
use crate::tsf::effects::{
    answers, ask, ask_model, clone_list, done, done_model, emit, empty_list, flag_of, found_of,
    items_of, no_effects, single, AskOf, BgStatus, Effect, EffectModel, EffectOf, EngineFacts,
    FactsModel, NextModel, Reply, ReplyModel, ReplyOf, Turn, TurnModel,
};
use crate::tsf::world::{played, played_in_turn, played_one_more, played_to, World};
use vstd::prelude::*;

verus! {

/// How long the conversion key waits for a conversion at least.
pub const WAIT_BASE_MS: u64 = 3000;

/// How much longer it waits for each character.
pub const WAIT_PER_CHAR_MS: u64 = 300;

/// How long it waits at most.
pub const WAIT_LIMIT_MS: u64 = 15000;

/// How long it waits where candidates are already shown.
pub const PENDING_WAIT_MS: u64 = 500;

/// How long it waits for a conversion that had to be started again.
pub const RESTART_WAIT_MS: u64 = 1500;

/// How many candidates the dictionary may bring the list up to.
pub const DICT_LIMIT: usize = 40;

/// The line under the candidates while a conversion is running.
pub const CONVERTING: &'static str = "⏳ 変換中...";

/// What the conversion key needs to know beside session and engine.
#[derive(Clone, Copy)]
pub struct ConvertEnv {
    pub mode: InputMode,
    /// How many candidates to ask the model for.
    pub num_candidates: usize,
    pub caret_x: i32,
    pub caret_y: i32,
}

/// Where the conversion key continues.
#[verifier::ext_equal]
#[derive(Debug, PartialEq)]
pub enum ConvertPointOf<T> {
    /// The key was pressed.
    Enter,
    /// Pending letters are settled.
    Start,
    /// The marked range is what the engine composes.
    RangeReady { target: T, remainder: T },
    RangeWaited { target: T, remainder: T },
    RangeTaken { target: T, remainder: T },
    RangeMerged { target: T, remainder: T },
    /// Candidates are shown whose conversion was not finished.
    PendingWaited,
    PendingCheck,
    PendingTaken { key: T },
    PendingRestarted { key: T },
    PendingRewaited { key: T },
    PendingRetaken,
    PendingMerged,
    /// A new conversion of `preedit`, the converter taken back.
    NewReady { preedit: T },
    NewStatus { preedit: T, ready: bool },
    /// A conversion of `preedit` itself was waited for.
    NewWaited { preedit: T },
    /// A conversion of something else was waited for.
    PrevWaited { preedit: T },
    PrevReclaimed { preedit: T },
    /// The conversion of `key` was asked for, for the second time if `retried`.
    Taken { preedit: T, key: T, ready: bool, retried: bool },
    /// The conversion of `preedit` was asked for after that.
    TakenAlt { preedit: T, ready: bool, retried: bool },
    Retry { preedit: T, ready: bool },
    RetryWaited { preedit: T, ready: bool },
    Merged { preedit: T, ready: bool },
    /// The engine converted `preedit` at once.
    Synced { preedit: T },
    SyncMerged { preedit: T },
}

pub type ConvertPoint = ConvertPointOf<String>;

pub type ConvertPointModel = ConvertPointOf<Seq<char>>;

impl View for ConvertPointOf<String> {
    type V = ConvertPointModel;

    open spec fn view(&self) -> ConvertPointModel {
        match *self {
            ConvertPointOf::Enter => ConvertPointOf::Enter,
            ConvertPointOf::Start => ConvertPointOf::Start,
            ConvertPointOf::RangeReady { target, remainder } => ConvertPointOf::RangeReady {
                target: target@, remainder: remainder@,
            },
            ConvertPointOf::RangeWaited { target, remainder } => ConvertPointOf::RangeWaited {
                target: target@, remainder: remainder@,
            },
            ConvertPointOf::RangeTaken { target, remainder } => ConvertPointOf::RangeTaken {
                target: target@, remainder: remainder@,
            },
            ConvertPointOf::RangeMerged { target, remainder } => ConvertPointOf::RangeMerged {
                target: target@, remainder: remainder@,
            },
            ConvertPointOf::PendingWaited => ConvertPointOf::PendingWaited,
            ConvertPointOf::PendingCheck => ConvertPointOf::PendingCheck,
            ConvertPointOf::PendingTaken { key } => ConvertPointOf::PendingTaken {
                key: key@,
            },
            ConvertPointOf::PendingRestarted { key } => ConvertPointOf::PendingRestarted {
                key: key@,
            },
            ConvertPointOf::PendingRewaited { key } => ConvertPointOf::PendingRewaited {
                key: key@,
            },
            ConvertPointOf::PendingRetaken => ConvertPointOf::PendingRetaken,
            ConvertPointOf::PendingMerged => ConvertPointOf::PendingMerged,
            ConvertPointOf::NewReady { preedit } => ConvertPointOf::NewReady {
                preedit: preedit@,
            },
            ConvertPointOf::NewStatus { preedit, ready } => ConvertPointOf::NewStatus {
                preedit: preedit@, ready,
            },
            ConvertPointOf::NewWaited { preedit } => ConvertPointOf::NewWaited {
                preedit: preedit@,
            },
            ConvertPointOf::PrevWaited { preedit } => ConvertPointOf::PrevWaited {
                preedit: preedit@,
            },
            ConvertPointOf::PrevReclaimed { preedit } => ConvertPointOf::PrevReclaimed {
                preedit: preedit@,
            },
            ConvertPointOf::Taken { preedit, key, ready, retried } => ConvertPointOf::Taken {
                preedit: preedit@, key: key@, ready, retried,
            },
            ConvertPointOf::TakenAlt { preedit, ready, retried } => ConvertPointOf::TakenAlt {
                preedit: preedit@, ready, retried,
            },
            ConvertPointOf::Retry { preedit, ready } => ConvertPointOf::Retry {
                preedit: preedit@, ready,
            },
            ConvertPointOf::RetryWaited { preedit, ready } => ConvertPointOf::RetryWaited {
                preedit: preedit@, ready,
            },
            ConvertPointOf::Merged { preedit, ready } => ConvertPointOf::Merged {
                preedit: preedit@, ready,
            },
            ConvertPointOf::Synced { preedit } => ConvertPointOf::Synced {
                preedit: preedit@,
            },
            ConvertPointOf::SyncMerged { preedit } => ConvertPointOf::SyncMerged {
                preedit: preedit@,
            },
        }
    }
}

impl ConvertPointOf<Seq<char>> {
    /// Whether the handler can be resumed here with `reply`.
    pub open spec fn fits(self, reply: ReplyModel) -> bool {
        match self {
            ConvertPointOf::Enter => true,
            ConvertPointOf::Start => reply is Seen,
            ConvertPointOf::RangeReady { .. } => reply is Seen,
            ConvertPointOf::PendingCheck => reply is Seen,
            ConvertPointOf::NewReady { .. } => reply is Seen,
            ConvertPointOf::NewStatus { .. } => reply is Seen,
            ConvertPointOf::PrevReclaimed { .. } => reply is Seen,
            ConvertPointOf::Retry { .. } => reply is Seen,
            ConvertPointOf::RangeWaited { .. } => reply is Flag,
            ConvertPointOf::PendingWaited => reply is Flag,
            ConvertPointOf::PendingRestarted { .. } => reply is Flag,
            ConvertPointOf::PendingRewaited { .. } => reply is Flag,
            ConvertPointOf::NewWaited { .. } => reply is Flag,
            ConvertPointOf::PrevWaited { .. } => reply is Flag,
            ConvertPointOf::RetryWaited { .. } => reply is Flag,
            ConvertPointOf::RangeTaken { .. } => reply is Taken,
            ConvertPointOf::PendingTaken { .. } => reply is Taken,
            ConvertPointOf::PendingRetaken => reply is Taken,
            ConvertPointOf::Taken { .. } => reply is Taken,
            ConvertPointOf::TakenAlt { .. } => reply is Taken,
            ConvertPointOf::RangeMerged { .. } => reply is List,
            ConvertPointOf::PendingMerged => reply is List,
            ConvertPointOf::Merged { .. } => reply is List,
            ConvertPointOf::Synced { .. } => reply is List,
            ConvertPointOf::SyncMerged { .. } => reply is List,
        }
    }

    /// How many turns can follow at most.
    pub open spec fn turns_left(self) -> nat {
        match self {
            ConvertPointOf::Enter => 30,
            ConvertPointOf::Start => 29,
            ConvertPointOf::RangeReady { .. } => 4,
            ConvertPointOf::RangeWaited { .. } => 3,
            ConvertPointOf::RangeTaken { .. } => 2,
            ConvertPointOf::RangeMerged { .. } => 1,
            ConvertPointOf::PendingWaited => 8,
            ConvertPointOf::PendingCheck => 7,
            ConvertPointOf::PendingTaken { .. } => 6,
            ConvertPointOf::PendingRestarted { .. } => 4,
            ConvertPointOf::PendingRewaited { .. } => 3,
            ConvertPointOf::PendingRetaken => 2,
            ConvertPointOf::PendingMerged => 1,
            ConvertPointOf::NewReady { .. } => 20,
            ConvertPointOf::NewStatus { .. } => 19,
            ConvertPointOf::PrevWaited { .. } => 18,
            ConvertPointOf::PrevReclaimed { .. } => 17,
            ConvertPointOf::NewWaited { .. } => 16,
            ConvertPointOf::Taken { retried, .. } => if retried {
                6
            } else {
                15
            },
            ConvertPointOf::TakenAlt { retried, .. } => if retried {
                5
            } else {
                14
            },
            ConvertPointOf::Retry { .. } => 13,
            ConvertPointOf::RetryWaited { .. } => 12,
            ConvertPointOf::Merged { .. } => 4,
            ConvertPointOf::Synced { .. } => 3,
            ConvertPointOf::SyncMerged { .. } => 2,
        }
    }
}

pub type ConvertTurn = (TurnModel<ConvertPointModel>, SessionModel);

/// How long the conversion key waits for the conversion of `text` before it leaves the rest
/// to the waiting timer.
pub open spec fn patience(text: Seq<char>) -> u64 {
    if WAIT_BASE_MS + WAIT_PER_CHAR_MS * text.len() > WAIT_LIMIT_MS {
        WAIT_LIMIT_MS
    } else {
        (WAIT_BASE_MS + WAIT_PER_CHAR_MS * text.len()) as u64
    }
}

/// The space that the key types where nothing is composed.
pub open spec fn space_of(mode: InputMode) -> Seq<char> {
    match mode {
        InputMode::Alphanumeric => " "@,
        _ => "　"@,
    }
}

/// The window shows `items` at the caret.
pub open spec fn shown(
    items: Seq<Seq<char>>,
    selected: int,
    info: Seq<char>,
    x: i32,
    y: i32,
    status: Option<Seq<char>>,
) -> EffectModel {
    EffectOf::ShowWindow { items, selected: selected as usize, info, x, y, status }
}

/// The window shows `text` alone with a note that its conversion is running.
pub open spec fn shown_converting(text: Seq<char>, env: ConvertEnv) -> EffectModel {
    shown(seq![text], 0, Seq::empty(), env.caret_x, env.caret_y, Some(CONVERTING@))
}

/// The first page of a list.
pub open spec fn first_page(items: Seq<Seq<char>>) -> Seq<Seq<char>> {
    if items.len() > PAGE_SIZE {
        items.take(PAGE_SIZE as int)
    } else {
        items
    }
}

/// `items`, or `text` alone where there are none.
pub open spec fn or_text(items: Seq<Seq<char>>, text: Seq<char>) -> Seq<Seq<char>> {
    if items.len() == 0 {
        seq![text]
    } else {
        items
    }
}

/// Whether a list brings nothing beside `text`.
pub open spec fn only_text(items: Seq<Seq<char>>, text: Seq<char>) -> bool {
    items.len() == 0 || (items.len() == 1 && items[0] == text)
}

/// A choice among the conversions of the marked range, what was not marked behind it.
pub open spec fn range_choice(
    items: Seq<Seq<char>>,
    target: Seq<char>,
    remainder: Seq<char>,
    env: ConvertEnv,
) -> SessionModel {
    SessionModel::Selecting(
        SelectingModel {
            remainder,
            remainder_reading: remainder,
            ..fresh_choice(items, target, env.caret_x, env.caret_y, false)
        },
    )
}

/// The conversion is left to the waiting timer.
pub open spec fn leave_to_timer(sess: SessionModel) -> ConvertTurn {
    (done_model(seq![EffectOf::StartWaitingTimer], true), sess)
}

/// `items` are offered for `preedit`, the first one shown in the composition.
pub open spec fn offer(
    items: Seq<Seq<char>>,
    preedit: Seq<char>,
    effects: Seq<EffectModel>,
    env: ConvertEnv,
) -> ConvertTurn {
    let choice = fresh_choice(items, preedit, env.caret_x, env.caret_y, false);
    (
        done_model(
            effects.push(EffectOf::StopWaitingTimer).push(
                shown(choice.page(), 0, choice.info(), env.caret_x, env.caret_y, None),
            ).push(
                EffectOf::UpdateComposition {
                    text: if items.len() > 0 {
                        items[0]
                    } else {
                        preedit
                    },
                },
            ),
            true,
        ),
        SessionModel::Selecting(choice),
    )
}

/// No conversion came from the background: the engine converts at once where the model
/// was free, else `preedit` is offered as it is.
pub open spec fn without_background(
    preedit: Seq<char>,
    ready: bool,
    effects: Seq<EffectModel>,
    env: ConvertEnv,
    sess: SessionModel,
) -> ConvertTurn {
    if ready {
        (ask_model(effects, AskOf::ConvertSync, ConvertPointOf::Synced { preedit }), sess)
    } else {
        offer(seq![preedit], preedit, effects, env)
    }
}

/// Neither key had a conversion: it is tried once more where the model is free.
pub open spec fn missed(
    preedit: Seq<char>,
    ready: bool,
    retried: bool,
    env: ConvertEnv,
    sess: SessionModel,
) -> ConvertTurn {
    if ready && !retried {
        (
            ask_model(
                seq![EffectOf::Reclaim],
                AskOf::Observe,
                ConvertPointOf::Retry { preedit, ready },
            ),
            sess,
        )
    } else {
        without_background(preedit, ready, seq![EffectOf::Reclaim], env, sess)
    }
}

/// A conversion was found.
pub open spec fn found(
    items: Seq<Seq<char>>,
    preedit: Seq<char>,
    ready: bool,
    facts: FactsModel,
    env: ConvertEnv,
    sess: SessionModel,
) -> ConvertTurn {
    if items.len() == 0 {
        without_background(preedit, ready, seq![], env, sess)
    } else {
        (
            ask_model(
                seq![],
                AskOf::Merge { candidates: items, limit: DICT_LIMIT },
                ConvertPointOf::Merged { preedit, ready: facts.kanji_ready },
            ),
            sess,
        )
    }
}

/// The conversion of the composed kana is asked for.
pub open spec fn take_reading(
    preedit: Seq<char>,
    ready: bool,
    retried: bool,
    facts: FactsModel,
    sess: SessionModel,
) -> ConvertTurn {
    (
        ask_model(
            seq![],
            AskOf::Take { key: facts.hiragana },
            ConvertPointOf::Taken { preedit, key: facts.hiragana, ready, retried },
        ),
        sess,
    )
}

/// The open choice goes one candidate on.
pub open spec fn advanced(sess: SessionModel, env: ConvertEnv) -> ConvertTurn {
    let s = sess.move_selection(|len: int, sel: int, size: int| next_index(len, sel));
    let info = page_info_text(s.page_number(), s.page_total());
    (
        done_model(
            seq![
                EffectOf::UpdateSelection { selected: s.page_place() as usize, info },
                shown(s.page(), s.page_place(), info, env.caret_x, env.caret_y, None),
                EffectOf::UpdateParts {
                    prefix: s->Selecting_0.prefix,
                    text: s.current_or_original(),
                    suffix: s->Selecting_0.remainder,
                },
            ],
            true,
        ),
        s,
    )
}

/// The candidates of the finished conversion are shown in the open choice.
pub open spec fn updated_choice(
    items: Seq<Seq<char>>,
    sess: SessionModel,
    env: ConvertEnv,
) -> ConvertTurn {
    if items.len() == 0 || !(sess is Selecting) {
        (done_model(seq![], true), sess)
    } else {
        let s = SessionModel::Selecting(sess->Selecting_0.refreshed(items));
        (
            done_model(
                seq![
                    shown(
                        s.page(),
                        0,
                        page_info_text(s.page_number(), s.page_total()),
                        env.caret_x,
                        env.caret_y,
                        None,
                    ),
                    EffectOf::UpdateParts {
                        prefix: s->Selecting_0.prefix,
                        text: items[0],
                        suffix: s->Selecting_0.remainder,
                    },
                ],
                true,
            ),
            s,
        )
    }
}

/// The first turn after pending letters are settled.
pub open spec fn start_turn(
    facts: FactsModel,
    env: ConvertEnv,
    sess: SessionModel,
) -> ConvertTurn {
    let fresh = seq![EffectOf::PollDict, EffectOf::PollModel, EffectOf::Reclaim];
    let new_conversion = ConvertPointOf::NewReady { preedit: facts.preedit };
    if facts.preedit_empty {
        (done_model(seq![EffectOf::CommitText { text: space_of(env.mode) }], true), sess)
    } else {
        match sess {
            SessionModel::LiveConv { reading, .. } => (
                ask_model(
                    seq![
                        EffectOf::ClearPreview,
                        EffectOf::PollDict,
                        EffectOf::PollModel,
                        EffectOf::Reclaim,
                    ],
                    AskOf::Observe,
                    new_conversion,
                ),
                SessionModel::Preedit { text: reading },
            ),
            SessionModel::RangeSelect { full_reading, select_end, .. } => {
                let target = full_reading.take(select_end);
                let remainder = full_reading.skip(select_end);
                if target.len() == 0 {
                    (done_model(seq![], true), sess)
                } else {
                    (
                        ask_model(
                            seq![
                                EffectOf::Reclaim,
                                EffectOf::ForcePreedit { text: target },
                                EffectOf::StopLiveTimer,
                            ],
                            AskOf::Observe,
                            ConvertPointOf::RangeReady { target, remainder },
                        ),
                        SessionModel::Preedit { text: target },
                    )
                }
            },
            SessionModel::Selecting(s) => if s.llm_pending {
                if facts.bg is Running {
                    (
                        ask_model(
                            seq![],
                            AskOf::Wait { ms: PENDING_WAIT_MS },
                            ConvertPointOf::PendingWaited,
                        ),
                        sess,
                    )
                } else {
                    (
                        ask_model(
                            seq![EffectOf::PollModel],
                            AskOf::Observe,
                            ConvertPointOf::PendingCheck,
                        ),
                        sess,
                    )
                }
            } else {
                advanced(sess, env)
            },
            _ => (ask_model(fresh, AskOf::Observe, new_conversion), sess),
        }
    }
}

/// What the conversion key does at `point` with the answer `reply`.
pub open spec fn convert_turn(
    point: ConvertPointModel,
    reply: ReplyModel,
    facts: FactsModel,
    env: ConvertEnv,
    sess: SessionModel,
) -> ConvertTurn {
    match point {
        ConvertPointOf::Enter => (
            ask_model(
                seq![EffectOf::UpdateCaret, EffectOf::FlushPending],
                AskOf::Observe,
                ConvertPointOf::Start,
            ),
            sess,
        ),
        ConvertPointOf::Start => start_turn(facts, env, sess),
        ConvertPointOf::RangeReady { target, remainder } => if !facts.kanji_ready {
            (
                done_model(
                    seq![
                        shown(
                            seq![target],
                            0,
                            Seq::empty(),
                            env.caret_x,
                            env.caret_y,
                            None,
                        ),
                    ],
                    true,
                ),
                range_choice(seq![target], target, remainder, env),
            )
        } else {
            (
                ask_model(
                    if facts.bg is Done {
                        seq![shown_converting(target, env)]
                    } else {
                        seq![
                            shown_converting(target, env),
                            EffectOf::StartBg { candidates: env.num_candidates },
                        ]
                    },
                    AskOf::Wait { ms: patience(target) },
                    ConvertPointOf::RangeWaited { target, remainder },
                ),
                SessionModel::Waiting {
                    text: target,
                    pos_x: env.caret_x,
                    pos_y: env.caret_y,
                    remainder,
                    remainder_reading: remainder,
                },
            )
        },
        ConvertPointOf::RangeWaited { target, remainder } => if !reply->on {
            leave_to_timer(sess)
        } else {
            (
                ask_model(
                    seq![],
                    AskOf::Take { key: target },
                    ConvertPointOf::RangeTaken { target, remainder },
                ),
                sess,
            )
        },
        ConvertPointOf::RangeTaken { target, remainder } => (
            ask_model(
                seq![],
                AskOf::Merge {
                    candidates: match reply->found {
                        Some(items) => items,
                        None => Seq::empty(),
                    },
                    limit: DICT_LIMIT,
                },
                ConvertPointOf::RangeMerged { target, remainder },
            ),
            sess,
        ),
        ConvertPointOf::RangeMerged { target, remainder } => {
            let items = or_text(reply->items, target);
            (
                done_model(
                    seq![
                        EffectOf::StopWaitingTimer,
                        shown(
                            first_page(items),
                            0,
                            Seq::empty(),
                            env.caret_x,
                            env.caret_y,
                            None,
                        ),
                    ],
                    true,
                ),
                range_choice(items, target, remainder, env),
            )
        },
        ConvertPointOf::PendingWaited => (
            ask_model(seq![EffectOf::PollModel], AskOf::Observe, ConvertPointOf::PendingCheck),
            sess,
        ),
        ConvertPointOf::PendingCheck => if facts.bg is Done {
            (
                ask_model(
                    seq![],
                    AskOf::Take { key: facts.hiragana },
                    ConvertPointOf::PendingTaken { key: facts.hiragana },
                ),
                sess,
            )
        } else {
            (
                done_model(
                    seq![
                        shown(
                            sess.page(),
                            0,
                            page_info_text(sess.page_number(), sess.page_total()),
                            env.caret_x,
                            env.caret_y,
                            Some(CONVERTING@),
                        ),
                    ],
                    true,
                ),
                sess,
            )
        },
        ConvertPointOf::PendingTaken { key } => match reply->found {
            Some(items) => (
                ask_model(
                    seq![],
                    AskOf::Merge { candidates: items, limit: DICT_LIMIT },
                    ConvertPointOf::PendingMerged,
                ),
                sess,
            ),
            None => (
                ask_model(
                    seq![EffectOf::Reclaim],
                    AskOf::Start { width: env.num_candidates },
                    ConvertPointOf::PendingRestarted { key },
                ),
                sess,
            ),
        },
        ConvertPointOf::PendingRestarted { key } => if reply->on {
            (
                ask_model(
                    seq![],
                    AskOf::Wait { ms: RESTART_WAIT_MS },
                    ConvertPointOf::PendingRewaited { key },
                ),
                sess,
            )
        } else {
            (ask_model(seq![], AskOf::Take { key }, ConvertPointOf::PendingRetaken), sess)
        },
        ConvertPointOf::PendingRewaited { key } => (
            ask_model(seq![], AskOf::Take { key }, ConvertPointOf::PendingRetaken),
            sess,
        ),
        ConvertPointOf::PendingRetaken => match reply->found {
            Some(items) => (
                ask_model(
                    seq![],
                    AskOf::Merge { candidates: items, limit: DICT_LIMIT },
                    ConvertPointOf::PendingMerged,
                ),
                sess,
            ),
            None => (done_model(seq![], true), sess),
        },
        ConvertPointOf::PendingMerged => updated_choice(reply->items, sess, env),
        ConvertPointOf::NewReady { preedit } => (
            ask_model(
                if facts.kanji_ready && facts.bg is Idle {
                    seq![EffectOf::StartBg { candidates: env.num_candidates }]
                } else {
                    seq![]
                },
                AskOf::Observe,
                ConvertPointOf::NewStatus { preedit, ready: facts.kanji_ready },
            ),
            sess,
        ),
        ConvertPointOf::NewStatus { preedit, ready } => if !ready || facts.bg is Running
            || facts.bg is Idle {
            (
                ask_model(
                    seq![shown_converting(preedit, env)],
                    AskOf::Wait { ms: patience(preedit) },
                    if ready {
                        ConvertPointOf::NewWaited { preedit }
                    } else {
                        ConvertPointOf::PrevWaited { preedit }
                    },
                ),
                if sess is Waiting {
                    sess
                } else {
                    SessionModel::Waiting {
                        text: preedit,
                        pos_x: env.caret_x,
                        pos_y: env.caret_y,
                        remainder: Seq::empty(),
                        remainder_reading: Seq::empty(),
                    }
                },
            )
        } else {
            take_reading(preedit, facts.kanji_ready, false, facts, sess)
        },
        ConvertPointOf::NewWaited { preedit } => if !reply->on {
            leave_to_timer(sess)
        } else {
            take_reading(preedit, facts.kanji_ready, false, facts, sess)
        },
        ConvertPointOf::PrevWaited { preedit } => if !reply->on {
            leave_to_timer(sess)
        } else {
            (
                ask_model(
                    seq![EffectOf::Reclaim],
                    AskOf::Observe,
                    ConvertPointOf::PrevReclaimed { preedit },
                ),
                sess,
            )
        },
        ConvertPointOf::PrevReclaimed { preedit } => if facts.kanji_ready {
            (
                ask_model(
                    seq![EffectOf::StartBg { candidates: env.num_candidates }],
                    AskOf::Wait { ms: patience(preedit) },
                    ConvertPointOf::NewWaited { preedit },
                ),
                sess,
            )
        } else {
            leave_to_timer(sess)
        },
        ConvertPointOf::Taken { preedit, key, ready, retried } => match reply->found {
            Some(items) => found(items, preedit, ready, facts, env, sess),
            None => if preedit != key {
                (
                    ask_model(
                        seq![],
                        AskOf::Take { key: preedit },
                        ConvertPointOf::TakenAlt { preedit, ready, retried },
                    ),
                    sess,
                )
            } else {
                missed(preedit, ready, retried, env, sess)
            },
        },
        ConvertPointOf::TakenAlt { preedit, ready, retried } => match reply->found {
            Some(items) => found(items, preedit, ready, facts, env, sess),
            None => missed(preedit, ready, retried, env, sess),
        },
        ConvertPointOf::Retry { preedit, ready } => if facts.kanji_ready {
            (
                ask_model(
                    seq![EffectOf::StartBg { candidates: env.num_candidates }],
                    AskOf::Wait { ms: patience(preedit) },
                    ConvertPointOf::RetryWaited { preedit, ready },
                ),
                sess,
            )
        } else {
            without_background(
                preedit,
                ready,
                seq![EffectOf::Reclaim, EffectOf::Reclaim],
                env,
                sess,
            )
        },
        ConvertPointOf::RetryWaited { preedit, ready } => if !reply->on {
            leave_to_timer(sess)
        } else {
            take_reading(preedit, ready, true, facts, sess)
        },
        ConvertPointOf::Merged { preedit, ready } => if only_text(reply->items, preedit) {
            without_background(preedit, ready, seq![], env, sess)
        } else {
            offer(reply->items, preedit, seq![], env)
        },
        ConvertPointOf::Synced { preedit } => (
            ask_model(
                seq![],
                AskOf::Merge { candidates: reply->items, limit: DICT_LIMIT },
                ConvertPointOf::SyncMerged { preedit },
            ),
            sess,
        ),
        ConvertPointOf::SyncMerged { preedit } => offer(
            or_text(reply->items, preedit),
            preedit,
            seq![],
            env,
        ),
    }
}

fn wait_for(text: &String) -> (r: u64)
    ensures
        r == patience(text@),
{
    let n: usize = text.as_str().unicode_len();
    if n > 40 {
        WAIT_LIMIT_MS
    } else {
        WAIT_BASE_MS + 300 * (n as u64)
    }
}

fn emit_show(
    effects: &mut Vec<Effect>,
    items: Vec<String>,
    selected: usize,
    info: String,
    env: &ConvertEnv,
    status: Option<String>,
)
    ensures
        views(final(effects)@) == views(old(effects)@).push(
            shown(
                views(items@),
                selected as int,
                info@,
                env.caret_x,
                env.caret_y,
                crate::engine::conversion::option_view(status),
            ),
        ),
{
    emit(
        effects,
        EffectOf::ShowWindow { items, selected, info, x: env.caret_x, y: env.caret_y, status },
    );
}

fn emit_converting(effects: &mut Vec<Effect>, text: &String, env: &ConvertEnv)
    ensures
        views(final(effects)@) == views(old(effects)@).push(shown_converting(text@, *env)),
{
    emit_show(effects, single(text), 0, String::new(), env, Some(CONVERTING.to_owned()));
}

fn take_first_page(items: &Vec<String>) -> (r: Vec<String>)
    ensures
        views(r@) == first_page(views(items@)),
{
    let mut r: Vec<String> = Vec::new();
    let n: usize = if items.len() > PAGE_SIZE {
        PAGE_SIZE
    } else {
        items.len()
    };
    let mut i: usize = 0;
    while i < n
        invariant
            i <= n <= items@.len(),
            r@.len() == i,
            forall|j: int| 0 <= j < i ==> (#[trigger] r@[j])@ == items@[j]@,
        decreases n - i,
    {
        r.push(items[i].clone());
        i += 1;
    }
    assert(views(r@) =~= first_page(views(items@)));
    r
}

fn items_or_text(items: Vec<String>, text: &String) -> (r: Vec<String>)
    ensures
        views(r@) == or_text(views(items@), text@),
{
    if items.len() == 0 {
        single(text)
    } else {
        items
    }
}

fn is_only_text(items: &Vec<String>, text: &String) -> (r: bool)
    ensures
        r == only_text(views(items@), text@),
{
    items.len() == 0 || (items.len() == 1 && items[0] == *text)
}

fn activate_range(
    sess: &mut SessionState,
    items: Vec<String>,
    target: String,
    remainder: String,
    env: &ConvertEnv,
)
    ensures
        final(sess)@ == range_choice(views(items@), target@, remainder@, *env),
        final(sess)@.wf(),
{
    let none: Vec<SplitBlock> = Vec::new();
    let none2: Vec<SplitBlock> = Vec::new();
    assert(views(none@) =~= Seq::empty());
    assert(views(none2@) =~= Seq::empty());
    let reading = remainder.clone();
    sess.activate_selecting_with_affixes(
        items,
        target,
        env.caret_x,
        env.caret_y,
        false,
        String::new(),
        String::new(),
        remainder,
        reading,
        none,
        none2,
    );
}

fn timer_turn(sess: &SessionState) -> (r: Turn<ConvertPoint>)
    ensures
        (r@, sess@) == leave_to_timer(sess@),
{
    let mut fx = no_effects();
    emit(&mut fx, EffectOf::StartWaitingTimer);
    done(fx, true)
}

fn offer_turn(
    items: Vec<String>,
    preedit: String,
    effects: Vec<Effect>,
    env: &ConvertEnv,
    sess: &mut SessionState,
) -> (r: Turn<ConvertPoint>)
    ensures
        (r@, final(sess)@) == offer(views(items@), preedit@, views(effects@), *env),
        final(sess)@.wf(),
{
    let mut fx = effects;
    let first = if items.len() > 0 {
        items[0].clone()
    } else {
        preedit.clone()
    };
    sess.activate_selecting(items, preedit, env.caret_x, env.caret_y, false);
    emit(&mut fx, EffectOf::StopWaitingTimer);
    emit_show(&mut fx, sess.page_candidates(), 0, sess.page_info(), env, None);
    emit(&mut fx, EffectOf::UpdateComposition { text: first });
    done(fx, true)
}

fn without_background_turn(
    preedit: String,
    ready: bool,
    effects: Vec<Effect>,
    env: &ConvertEnv,
    sess: &mut SessionState,
) -> (r: Turn<ConvertPoint>)
    requires
        old(sess)@.wf(),
    ensures
        (r@, final(sess)@) == without_background(
            preedit@,
            ready,
            views(effects@),
            *env,
            old(sess)@,
        ),
        final(sess)@.wf(),
{
    if ready {
        ask(effects, AskOf::ConvertSync, ConvertPointOf::Synced { preedit })
    } else {
        let items = single(&preedit);
        offer_turn(items, preedit, effects, env, sess)
    }
}

fn missed_turn(
    preedit: String,
    ready: bool,
    retried: bool,
    env: &ConvertEnv,
    sess: &mut SessionState,
) -> (r: Turn<ConvertPoint>)
    requires
        old(sess)@.wf(),
    ensures
        (r@, final(sess)@) == missed(preedit@, ready, retried, *env, old(sess)@),
        final(sess)@.wf(),
{
    let mut fx = no_effects();
    emit(&mut fx, EffectOf::Reclaim);
    if ready && !retried {
        ask(fx, AskOf::Observe, ConvertPointOf::Retry { preedit, ready })
    } else {
        without_background_turn(preedit, ready, fx, env, sess)
    }
}

fn found_turn(
    items: Vec<String>,
    preedit: String,
    ready: bool,
    facts: &EngineFacts,
    env: &ConvertEnv,
    sess: &mut SessionState,
) -> (r: Turn<ConvertPoint>)
    requires
        old(sess)@.wf(),
    ensures
        (r@, final(sess)@) == found(views(items@), preedit@, ready, facts@, *env, old(sess)@),
        final(sess)@.wf(),
{
    let fx = no_effects();
    if items.len() == 0 {
        without_background_turn(preedit, ready, fx, env, sess)
    } else {
        ask(
            fx,
            AskOf::Merge { candidates: items, limit: DICT_LIMIT },
            ConvertPointOf::Merged { preedit, ready: facts.kanji_ready },
        )
    }
}

fn take_reading_turn(
    preedit: String,
    ready: bool,
    retried: bool,
    facts: &EngineFacts,
    sess: &SessionState,
) -> (r: Turn<ConvertPoint>)
    ensures
        (r@, sess@) == take_reading(preedit@, ready, retried, facts@, sess@),
{
    ask(
        no_effects(),
        AskOf::Take { key: facts.hiragana.clone() },
        ConvertPointOf::Taken { preedit, key: facts.hiragana.clone(), ready, retried },
    )
}

fn advance_turn(env: &ConvertEnv, sess: &mut SessionState) -> (r: Turn<ConvertPoint>)
    requires
        old(sess)@ is Selecting,
        old(sess)@.wf(),
    ensures
        (r@, final(sess)@) == advanced(old(sess)@, *env),
        final(sess)@.wf(),
{
    sess.next_with_page_wrap();
    let place: usize = sess.page_selected();
    let mut fx = no_effects();
    emit(&mut fx, EffectOf::UpdateSelection { selected: place, info: sess.page_info() });
    emit_show(&mut fx, sess.page_candidates(), place, sess.page_info(), env, None);
    emit(
        &mut fx,
        EffectOf::UpdateParts {
            prefix: sess.selecting_prefix_clone(),
            text: sess.current_or_original(),
            suffix: sess.selecting_remainder_clone(),
        },
    );
    done(fx, true)
}

fn update_choice_turn(
    items: Vec<String>,
    env: &ConvertEnv,
    sess: &mut SessionState,
) -> (r: Turn<ConvertPoint>)
    requires
        old(sess)@.wf(),
    ensures
        (r@, final(sess)@) == updated_choice(views(items@), old(sess)@, *env),
        final(sess)@.wf(),
{
    let mut fx = no_effects();
    if items.len() == 0 || !sess.is_selecting() {
        return done(fx, true);
    }
    sess.refresh_candidates(items);
    emit_show(&mut fx, sess.page_candidates(), 0, sess.page_info(), env, None);
    emit(
        &mut fx,
        EffectOf::UpdateParts {
            prefix: sess.selecting_prefix_clone(),
            text: sess.current_or_original(),
            suffix: sess.selecting_remainder_clone(),
        },
    );
    done(fx, true)
}

fn start_turn_exec(facts: &EngineFacts, env: &ConvertEnv, sess: &mut SessionState) -> (r: Turn<
    ConvertPoint,
>)
    requires
        old(sess)@.wf(),
    ensures
        (r@, final(sess)@) == start_turn(facts@, *env, old(sess)@),
        final(sess)@.wf(),
{
    let mut fx = no_effects();
    if facts.preedit_empty {
        let space = match env.mode {
            InputMode::Alphanumeric => " ".to_owned(),
            _ => "　".to_owned(),
        };
        emit(&mut fx, EffectOf::CommitText { text: space });
        return done(fx, true);
    }
    if sess.is_live_conv() {
        let reading = match sess.live_conv_parts() {
            Some((reading, _)) => reading.to_owned(),
            None => String::new(),
        };
        sess.set_preedit(reading);
        emit(&mut fx, EffectOf::ClearPreview);
    } else if sess.is_range_select() {
        let (target, remainder) = match sess.range_select_parts() {
            Some(parts) => parts,
            None => (String::new(), String::new()),
        };
        if target.as_str().is_empty() {
            return done(fx, true);
        }
        sess.set_preedit(target.clone());
        emit(&mut fx, EffectOf::Reclaim);
        emit(&mut fx, EffectOf::ForcePreedit { text: target.clone() });
        emit(&mut fx, EffectOf::StopLiveTimer);
        return ask(fx, AskOf::Observe, ConvertPointOf::RangeReady { target, remainder });
    } else if sess.is_selecting() {
        if sess.is_llm_pending() {
            return match facts.bg {
                BgStatus::Running => ask(
                    fx,
                    AskOf::Wait { ms: PENDING_WAIT_MS },
                    ConvertPointOf::PendingWaited,
                ),
                _ => {
                    emit(&mut fx, EffectOf::PollModel);
                    ask(fx, AskOf::Observe, ConvertPointOf::PendingCheck)
                },
            };
        }
        return advance_turn(env, sess);
    }
    emit(&mut fx, EffectOf::PollDict);
    emit(&mut fx, EffectOf::PollModel);
    emit(&mut fx, EffectOf::Reclaim);
    ask(fx, AskOf::Observe, ConvertPointOf::NewReady { preedit: facts.preedit.clone() })
}

/// The conversion key: goes on at `point` with the answer to what was asked last.
pub fn on_convert(
    point: ConvertPoint,
    reply: Reply,
    facts: &EngineFacts,
    env: &ConvertEnv,
    sess: &mut SessionState,
) -> (r: Turn<ConvertPoint>)
    requires
        point@.fits(reply@),
        old(sess)@.wf(),
    ensures
        (r@, final(sess)@) == convert_turn(point@, reply@, facts@, *env, old(sess)@),
        final(sess)@.wf(),
{
    let mut fx = no_effects();
    match point {
        ConvertPointOf::Enter => {
            emit(&mut fx, EffectOf::UpdateCaret);
            emit(&mut fx, EffectOf::FlushPending);
            ask(fx, AskOf::Observe, ConvertPointOf::Start)
        },
        ConvertPointOf::Start => start_turn_exec(facts, env, sess),
        ConvertPointOf::RangeReady { target, remainder } => {
            if !facts.kanji_ready {
                let items = single(&target);
                emit_show(&mut fx, clone_list(&items), 0, String::new(), env, None);
                activate_range(sess, items, target, remainder, env);
                done(fx, true)
            } else {
                sess.set_waiting_with_affixes(
                    target.clone(),
                    env.caret_x,
                    env.caret_y,
                    remainder.clone(),
                    remainder.clone(),
                );
                emit_converting(&mut fx, &target, env);
                match facts.bg {
                    BgStatus::Done => {},
                    _ => {
                        emit(&mut fx, EffectOf::StartBg { candidates: env.num_candidates });
                    },
                }
                ask(
                    fx,
                    AskOf::Wait { ms: wait_for(&target) },
                    ConvertPointOf::RangeWaited { target, remainder },
                )
            }
        },
        ConvertPointOf::RangeWaited { target, remainder } => {
            if !flag_of(&reply) {
                timer_turn(sess)
            } else {
                ask(
                    fx,
                    AskOf::Take { key: target.clone() },
                    ConvertPointOf::RangeTaken { target, remainder },
                )
            }
        },
        ConvertPointOf::RangeTaken { target, remainder } => {
            let items = match found_of(reply) {
                Some(items) => items,
                None => empty_list(),
            };
            ask(
                fx,
                AskOf::Merge { candidates: items, limit: DICT_LIMIT },
                ConvertPointOf::RangeMerged { target, remainder },
            )
        },
        ConvertPointOf::RangeMerged { target, remainder } => {
            let items = items_or_text(items_of(reply), &target);
            emit(&mut fx, EffectOf::StopWaitingTimer);
            emit_show(&mut fx, take_first_page(&items), 0, String::new(), env, None);
            activate_range(sess, items, target, remainder, env);
            done(fx, true)
        },
        ConvertPointOf::PendingWaited => {
            emit(&mut fx, EffectOf::PollModel);
            ask(fx, AskOf::Observe, ConvertPointOf::PendingCheck)
        },
        ConvertPointOf::PendingCheck => {
            match facts.bg {
                BgStatus::Done => ask(
                    fx,
                    AskOf::Take { key: facts.hiragana.clone() },
                    ConvertPointOf::PendingTaken { key: facts.hiragana.clone() },
                ),
                _ => {
                    emit_show(
                        &mut fx,
                        sess.page_candidates(),
                        0,
                        sess.page_info(),
                        env,
                        Some(CONVERTING.to_owned()),
                    );
                    done(fx, true)
                },
            }
        },
        ConvertPointOf::PendingTaken { key } => match found_of(reply) {
            Some(items) => ask(
                fx,
                AskOf::Merge { candidates: items, limit: DICT_LIMIT },
                ConvertPointOf::PendingMerged,
            ),
            None => {
                emit(&mut fx, EffectOf::Reclaim);
                ask(
                    fx,
                    AskOf::Start { width: env.num_candidates },
                    ConvertPointOf::PendingRestarted { key },
                )
            },
        },
        ConvertPointOf::PendingRestarted { key } => {
            if flag_of(&reply) {
                ask(
                    fx,
                    AskOf::Wait { ms: RESTART_WAIT_MS },
                    ConvertPointOf::PendingRewaited { key },
                )
            } else {
                ask(fx, AskOf::Take { key }, ConvertPointOf::PendingRetaken)
            }
        },
        ConvertPointOf::PendingRewaited { key } => ask(
            fx,
            AskOf::Take { key },
            ConvertPointOf::PendingRetaken,
        ),
        ConvertPointOf::PendingRetaken => match found_of(reply) {
            Some(items) => ask(
                fx,
                AskOf::Merge { candidates: items, limit: DICT_LIMIT },
                ConvertPointOf::PendingMerged,
            ),
            None => done(fx, true),
        },
        ConvertPointOf::PendingMerged => update_choice_turn(items_of(reply), env, sess),
        ConvertPointOf::NewReady { preedit } => {
            if facts.kanji_ready {
                match facts.bg {
                    BgStatus::Idle => {
                        emit(&mut fx, EffectOf::StartBg { candidates: env.num_candidates });
                    },
                    _ => {},
                }
            }
            ask(
                fx,
                AskOf::Observe,
                ConvertPointOf::NewStatus { preedit, ready: facts.kanji_ready },
            )
        },
        ConvertPointOf::NewStatus { preedit, ready } => {
            let busy = match facts.bg {
                BgStatus::Running => true,
                BgStatus::Idle => true,
                _ => false,
            };
            if !ready || busy {
                if !sess.is_waiting() {
                    sess.set_waiting(preedit.clone(), env.caret_x, env.caret_y);
                }
                emit_converting(&mut fx, &preedit, env);
                let ms: u64 = wait_for(&preedit);
                let then = if ready {
                    ConvertPointOf::NewWaited { preedit }
                } else {
                    ConvertPointOf::PrevWaited { preedit }
                };
                ask(fx, AskOf::Wait { ms }, then)
            } else {
                take_reading_turn(preedit, facts.kanji_ready, false, facts, sess)
            }
        },
        ConvertPointOf::NewWaited { preedit } => {
            if !flag_of(&reply) {
                timer_turn(sess)
            } else {
                take_reading_turn(preedit, facts.kanji_ready, false, facts, sess)
            }
        },
        ConvertPointOf::PrevWaited { preedit } => {
            if !flag_of(&reply) {
                timer_turn(sess)
            } else {
                emit(&mut fx, EffectOf::Reclaim);
                ask(fx, AskOf::Observe, ConvertPointOf::PrevReclaimed { preedit })
            }
        },
        ConvertPointOf::PrevReclaimed { preedit } => {
            if facts.kanji_ready {
                emit(&mut fx, EffectOf::StartBg { candidates: env.num_candidates });
                ask(
                    fx,
                    AskOf::Wait { ms: wait_for(&preedit) },
                    ConvertPointOf::NewWaited { preedit },
                )
            } else {
                timer_turn(sess)
            }
        },
        ConvertPointOf::Taken { preedit, key, ready, retried } => match found_of(reply) {
            Some(items) => found_turn(items, preedit, ready, facts, env, sess),
            None => {
                if preedit != key {
                    ask(
                        fx,
                        AskOf::Take { key: preedit.clone() },
                        ConvertPointOf::TakenAlt { preedit, ready, retried },
                    )
                } else {
                    missed_turn(preedit, ready, retried, env, sess)
                }
            },
        },
        ConvertPointOf::TakenAlt { preedit, ready, retried } => match found_of(reply) {
            Some(items) => found_turn(items, preedit, ready, facts, env, sess),
            None => missed_turn(preedit, ready, retried, env, sess),
        },
        ConvertPointOf::Retry { preedit, ready } => {
            if facts.kanji_ready {
                emit(&mut fx, EffectOf::StartBg { candidates: env.num_candidates });
                ask(
                    fx,
                    AskOf::Wait { ms: wait_for(&preedit) },
                    ConvertPointOf::RetryWaited { preedit, ready },
                )
            } else {
                emit(&mut fx, EffectOf::Reclaim);
                emit(&mut fx, EffectOf::Reclaim);
                without_background_turn(preedit, ready, fx, env, sess)
            }
        },
        ConvertPointOf::RetryWaited { preedit, ready } => {
            if !flag_of(&reply) {
                timer_turn(sess)
            } else {
                take_reading_turn(preedit, ready, true, facts, sess)
            }
        },
        ConvertPointOf::Merged { preedit, ready } => {
            let items = items_of(reply);
            if is_only_text(&items, &preedit) {
                without_background_turn(preedit, ready, fx, env, sess)
            } else {
                offer_turn(items, preedit, fx, env, sess)
            }
        },
        ConvertPointOf::Synced { preedit } => ask(
            fx,
            AskOf::Merge { candidates: items_of(reply), limit: DICT_LIMIT },
            ConvertPointOf::SyncMerged { preedit },
        ),
        ConvertPointOf::SyncMerged { preedit } => {
            let items = items_or_text(items_of(reply), &preedit);
            offer_turn(items, preedit, fx, env, sess)
        },
    }
}

/// Whatever the engine answers, the handler can be resumed with it, and it finishes
/// after a bounded number of turns. The key is always used up.
pub proof fn convert_runs_to_its_end(
    point: ConvertPointModel,
    reply: ReplyModel,
    facts: FactsModel,
    env: ConvertEnv,
    sess: SessionModel,
)
    requires
        point.fits(reply),
    ensures
        match convert_turn(point, reply, facts, env, sess).0.next {
            NextModel::Done { eaten } => eaten,
            NextModel::Ask { ask, then } => {
                &&& then.turns_left() < point.turns_left()
                &&& forall|answer: ReplyModel| #[trigger]
                    answers(ask, answer) ==> then.fits(answer)
            },
        },
{
}

/// A choice is never offered without a candidate: where no conversion comes, the
/// composed text itself is offered.
pub proof fn convert_offers_something(
    point: ConvertPointModel,
    reply: ReplyModel,
    facts: FactsModel,
    env: ConvertEnv,
    sess: SessionModel,
)
    requires
        point.fits(reply),
        sess is Selecting ==> sess->Selecting_0.candidates.len() > 0,
    ensures
        ({
            let after = convert_turn(point, reply, facts, env, sess).1;
            after is Selecting ==> after->Selecting_0.candidates.len() > 0
        }),
{
}

/// The conversion key on a live preview converts what was typed, just as it does without the
/// preview, which is forgotten.
pub proof fn live_preview_is_converted_anew(
    facts: FactsModel,
    env: ConvertEnv,
    reading: Seq<char>,
    preview: Seq<char>,
)
    requires
        !facts.preedit_empty,
    ensures
        ({
            let (live, after) = convert_turn(
                ConvertPointOf::Start,
                ReplyOf::Seen,
                facts,
                env,
                SessionModel::LiveConv { reading, preview },
            );
            let (typed, same) = convert_turn(
                ConvertPointOf::Start,
                ReplyOf::Seen,
                facts,
                env,
                SessionModel::Preedit { text: reading },
            );
            &&& after == same
            &&& after == (SessionModel::Preedit { text: reading })
            &&& live.next == typed.next
            &&& live.next == (NextModel::<ConvertPointModel>::Ask {
                ask: AskOf::Observe,
                then: ConvertPointOf::NewReady { preedit: facts.preedit },
            })
            &&& live.effects == seq![EffectModel::ClearPreview] + typed.effects
        }),
{
    let live = start_turn(facts, env, SessionModel::LiveConv { reading, preview }).0;
    let typed = start_turn(facts, env, SessionModel::Preedit { text: reading }).0;
    assert(live.effects =~= seq![EffectModel::ClearPreview] + typed.effects);
}

/// The key first looks where the caret is and settles pending letters. Dictionary, model and
/// converter are made ready before a new conversion.
pub proof fn conversion_is_prepared(
    w: World,
    reply: ReplyModel,
    facts: FactsModel,
    env: ConvertEnv,
    sess: SessionModel,
)
    ensures
        ({
            let (turn, after) = convert_turn(ConvertPointOf::Enter, reply, facts, env, sess);
            &&& after == sess
            &&& played(w, turn.effects) == w
            &&& turn.effects.contains(EffectOf::UpdateCaret)
            &&& turn.effects.contains(EffectOf::FlushPending)
            &&& turn.next == (NextModel::<ConvertPointModel>::Ask {
                ask: AskOf::Observe,
                then: ConvertPointOf::Start,
            })
        }),
        ({
            let (turn, after) = convert_turn(ConvertPointOf::Start, reply, facts, env, sess);
            !facts.preedit_empty && !(sess is Selecting) && !(sess is RangeSelect) ==> {
                &&& turn.effects.contains(EffectOf::PollDict)
                &&& turn.effects.contains(EffectOf::PollModel)
                &&& played(w, turn.effects).background is None
            }
        }),
{
    reveal_with_fuel(played_to, 6);
    let first = convert_turn(ConvertPointOf::Enter, reply, facts, env, sess).0.effects;
    assert(first[0] == EffectModel::UpdateCaret);
    assert(first[1] == EffectModel::FlushPending);
    let fx = convert_turn(ConvertPointOf::Start, reply, facts, env, sess).0.effects;
    if !facts.preedit_empty && !(sess is Selecting) && !(sess is RangeSelect) {
        let n = fx.len();
        assert(fx[n - 3] == EffectModel::PollDict);
        assert(fx[n - 2] == EffectModel::PollModel);
    }
}

/// Where nothing is composed the key types a space, full-width unless the mode is that of
/// letters.
pub proof fn space_is_typed_where_nothing_is_composed(
    w: World,
    facts: FactsModel,
    env: ConvertEnv,
    sess: SessionModel,
)
    requires
        facts.preedit_empty,
    ensures
        ({
            let (turn, after) = convert_turn(
                ConvertPointOf::Start,
                ReplyOf::Seen,
                facts,
                env,
                sess,
            );
            &&& after == sess
            &&& turn.next == (NextModel::<ConvertPointModel>::Done { eaten: true })
            &&& played(w, turn.effects) == (World {
                document: w.document.push(
                    if env.mode is Alphanumeric {
                        ' '
                    } else {
                        '　'
                    },
                ),
                ..w
            })
        }),
{
    reveal_with_fuel(played_to, 3);
    reveal_strlit(" ");
    reveal_strlit("　");
    assert(w.document + " "@ =~= w.document.push(' '));
    assert(w.document + "　"@ =~= w.document.push('　'));
}

/// The text whose conversion goes on at a point, and what was not marked behind it; nothing
/// where the key has not come to a conversion, or an open choice is taken up again.
pub open spec fn subject(point: ConvertPointModel) -> Option<(Seq<char>, Seq<char>)> {
    match point {
        ConvertPointOf::Enter => None,
        ConvertPointOf::Start => None,
        ConvertPointOf::RangeReady { target, remainder } => Some((target, remainder)),
        ConvertPointOf::RangeWaited { target, remainder } => Some((target, remainder)),
        ConvertPointOf::RangeTaken { target, remainder } => Some((target, remainder)),
        ConvertPointOf::RangeMerged { target, remainder } => Some((target, remainder)),
        ConvertPointOf::PendingWaited => None,
        ConvertPointOf::PendingCheck => None,
        ConvertPointOf::PendingTaken { .. } => None,
        ConvertPointOf::PendingRestarted { .. } => None,
        ConvertPointOf::PendingRewaited { .. } => None,
        ConvertPointOf::PendingRetaken => None,
        ConvertPointOf::PendingMerged => None,
        ConvertPointOf::NewReady { preedit } => Some((preedit, Seq::empty())),
        ConvertPointOf::NewStatus { preedit, .. } => Some((preedit, Seq::empty())),
        ConvertPointOf::NewWaited { preedit } => Some((preedit, Seq::empty())),
        ConvertPointOf::PrevWaited { preedit } => Some((preedit, Seq::empty())),
        ConvertPointOf::PrevReclaimed { preedit } => Some((preedit, Seq::empty())),
        ConvertPointOf::Taken { preedit, .. } => Some((preedit, Seq::empty())),
        ConvertPointOf::TakenAlt { preedit, .. } => Some((preedit, Seq::empty())),
        ConvertPointOf::Retry { preedit, .. } => Some((preedit, Seq::empty())),
        ConvertPointOf::RetryWaited { preedit, .. } => Some((preedit, Seq::empty())),
        ConvertPointOf::Merged { preedit, .. } => Some((preedit, Seq::empty())),
        ConvertPointOf::Synced { preedit } => Some((preedit, Seq::empty())),
        ConvertPointOf::SyncMerged { preedit } => Some((preedit, Seq::empty())),
    }
}

/// A choice for `text` is open with `rest` behind it, its first page in the window at the
/// caret and its first candidate selected.
pub open spec fn offered(
    then: World,
    after: SessionModel,
    text: Seq<char>,
    rest: Seq<char>,
    env: ConvertEnv,
) -> bool {
    &&& after is Selecting
    &&& {
        let s = after->Selecting_0;
        &&& s.original_preedit == text
        &&& s.candidates.len() > 0
        &&& s.selected == 0
        &&& s.page_size == 9
        &&& !s.llm_pending
        &&& s.punct_pending is None
        &&& s.prefix.len() == 0
        &&& s.remainder == rest
        &&& s.remainder_reading == rest
        &&& then.window is Some
        &&& then.window->0.items == s.candidates.take(
            if s.candidates.len() < 9 {
                s.candidates.len() as int
            } else {
                9
            },
        )
        &&& then.window->0.selected == 0
        &&& then.window->0.status is None
        &&& then.window->0.x == env.caret_x
        &&& then.window->0.y == env.caret_y
    }
}

proof fn lemma_first_page(items: Seq<Seq<char>>)
    requires
        items.len() > 0,
    ensures
        ({
            let first = items.take(
                if items.len() < 9 {
                    items.len() as int
                } else {
                    9
                },
            );
            &&& first_page(items) == first
            &&& forall|text: Seq<char>, x: i32, y: i32, pending: bool|
                (#[trigger] fresh_choice(items, text, x, y, pending)).page() == first
        }),
{
    let first = items.take(
        if items.len() < 9 {
            items.len() as int
        } else {
            9
        },
    );
    assert(first_page(items) =~= first);
    crate::engine::paging::pages_are_filled(items.len() as int, 0, 9);
    assert forall|text: Seq<char>, x: i32, y: i32, pending: bool|
        (#[trigger] fresh_choice(items, text, x, y, pending)).page() == first by {
        assert(fresh_choice(items, text, x, y, pending).page() =~= first);
    }
}

proof fn lemma_offer(
    w: World,
    items: Seq<Seq<char>>,
    preedit: Seq<char>,
    effects: Seq<EffectModel>,
    env: ConvertEnv,
)
    requires
        items.len() > 0,
    ensures
        ({
            let (turn, after) = offer(items, preedit, effects, env);
            let then = played(w, turn.effects);
            &&& offered(then, after, preedit, Seq::empty(), env)
            &&& after->Selecting_0.candidates == items
            &&& then.composition == items[0]
            &&& !then.waiting
            &&& then.document == played(w, effects).document
            &&& then.engine == played(w, effects).engine
            &&& turn.next == (NextModel::<ConvertPointModel>::Done { eaten: true })
        }),
{
    lemma_first_page(items);
    let choice = fresh_choice(items, preedit, env.caret_x, env.caret_y, false);
    let stop = EffectModel::StopWaitingTimer;
    let show = shown(choice.page(), 0, choice.info(), env.caret_x, env.caret_y, None);
    let update = EffectModel::UpdateComposition { text: items[0] };
    played_one_more(w, effects, stop);
    played_one_more(w, effects.push(stop), show);
    played_one_more(w, effects.push(stop).push(show), update);
}

/// A turn at which the conversion of `text` with `rest` behind it leaves document and engine
/// alone, and goes on, or ends with a choice of that text or with the timer.
pub open spec fn comes_along(
    w: World,
    of: (Seq<char>, Seq<char>),
    result: ConvertTurn,
    env: ConvertEnv,
    sess: SessionModel,
) -> bool {
    let then = played(w, result.0.effects);
    &&& then.document == w.document
    &&& then.engine == w.engine
    &&& match result.0.next {
        NextModel::Done { eaten } => {
            &&& eaten
            &&& offered(then, result.1, of.0, of.1, env) || (then.waiting && result.1 == sess)
        },
        NextModel::Ask { then: next, .. } => subject(next) == Some(of),
    }
}

proof fn lemma_range_comes_along(
    w: World,
    point: ConvertPointModel,
    reply: ReplyModel,
    facts: FactsModel,
    env: ConvertEnv,
    sess: SessionModel,
)
    requires
        point.fits(reply),
        point is RangeReady || point is RangeWaited || point is RangeTaken || point is RangeMerged,
    ensures
        comes_along(
            w,
            subject(point)->0,
            convert_turn(point, reply, facts, env, sess),
            env,
            sess,
        ),
{
    reveal_with_fuel(played_to, 3);
    if let ConvertPointOf::RangeMerged { target, .. } = point {
        lemma_first_page(or_text(reply->items, target));
    }
    if let ConvertPointOf::RangeReady { target, .. } = point {
        assert(seq![target].take(1) =~= seq![target]);
    }
}

proof fn lemma_new_comes_along(
    w: World,
    point: ConvertPointModel,
    reply: ReplyModel,
    facts: FactsModel,
    env: ConvertEnv,
    sess: SessionModel,
)
    requires
        point.fits(reply),
        point is NewReady || point is NewStatus || point is NewWaited || point is PrevWaited
            || point is PrevReclaimed || point is RetryWaited,
    ensures
        comes_along(
            w,
            subject(point)->0,
            convert_turn(point, reply, facts, env, sess),
            env,
            sess,
        ),
{
    reveal_with_fuel(played_to, 3);
}

proof fn lemma_without_background(
    w: World,
    preedit: Seq<char>,
    ready: bool,
    effects: Seq<EffectModel>,
    env: ConvertEnv,
    sess: SessionModel,
)
    requires
        played(w, effects).document == w.document,
        played(w, effects).engine == w.engine,
    ensures
        comes_along(
            w,
            (preedit, Seq::empty()),
            without_background(preedit, ready, effects, env, sess),
            env,
            sess,
        ),
{
    lemma_offer(w, seq![preedit], preedit, effects, env);
}

proof fn lemma_reclaims(w: World)
    ensures
        played(w, Seq::empty()) == w,
        played(w, seq![EffectModel::Reclaim]) == (World { background: None, ..w }),
        played(w, seq![EffectModel::Reclaim, EffectModel::Reclaim]) == (World {
            background: None,
            ..w
        }),
{
    reveal_with_fuel(played_to, 3);
}

proof fn lemma_taken_comes_along(
    w: World,
    point: ConvertPointModel,
    reply: ReplyModel,
    facts: FactsModel,
    env: ConvertEnv,
    sess: SessionModel,
)
    requires
        point.fits(reply),
        point is Taken || point is TakenAlt || point is Retry,
    ensures
        comes_along(
            w,
            subject(point)->0,
            convert_turn(point, reply, facts, env, sess),
            env,
            sess,
        ),
{
    lemma_reclaims(w);
    let (text, rest) = subject(point)->0;
    let ready = match point {
        ConvertPointOf::Taken { ready, .. } => ready,
        ConvertPointOf::TakenAlt { ready, .. } => ready,
        ConvertPointOf::Retry { ready, .. } => ready,
        _ => false,
    };
    let none = Seq::<EffectModel>::empty();
    lemma_without_background(w, text, ready, none, env, sess);
    lemma_without_background(w, text, ready, seq![EffectModel::Reclaim], env, sess);
    lemma_without_background(
        w,
        text,
        ready,
        seq![EffectModel::Reclaim, EffectModel::Reclaim],
        env,
        sess,
    );
    let start = seq![EffectModel::StartBg { candidates: env.num_candidates }];
    assert(played(w, start) == (World { background: Some(env.num_candidates), ..w })) by {
        reveal_with_fuel(played_to, 2);
    }
}

proof fn lemma_merged_comes_along(
    w: World,
    point: ConvertPointModel,
    reply: ReplyModel,
    facts: FactsModel,
    env: ConvertEnv,
    sess: SessionModel,
)
    requires
        point.fits(reply),
        point is Merged || point is Synced || point is SyncMerged,
    ensures
        comes_along(
            w,
            subject(point)->0,
            convert_turn(point, reply, facts, env, sess),
            env,
            sess,
        ),
{
    lemma_reclaims(w);
    let none = Seq::<EffectModel>::empty();
    match point {
        ConvertPointOf::Merged { preedit, ready } => {
            lemma_without_background(w, preedit, ready, none, env, sess);
            if reply->items.len() > 0 {
                lemma_offer(w, reply->items, preedit, none, env);
            }
        },
        ConvertPointOf::SyncMerged { preedit } => {
            lemma_offer(w, or_text(reply->items, preedit), preedit, none, env);
        },
        _ => {},
    }
}

/// A conversion that has begun stays with its text, and writes nothing into the document. It
/// goes on, or ends with a choice of that text, or with the timer that waits for it.
pub proof fn conversion_stays_with_its_text(
    w: World,
    point: ConvertPointModel,
    reply: ReplyModel,
    facts: FactsModel,
    env: ConvertEnv,
    sess: SessionModel,
)
    requires
        point.fits(reply),
        subject(point) is Some,
    ensures
        comes_along(
            w,
            subject(point)->0,
            convert_turn(point, reply, facts, env, sess),
            env,
            sess,
        ),
{
    match point {
        ConvertPointOf::Merged { .. } | ConvertPointOf::Synced { .. }
        | ConvertPointOf::SyncMerged { .. } => {
            lemma_merged_comes_along(w, point, reply, facts, env, sess);
        },
        ConvertPointOf::Taken { .. } | ConvertPointOf::TakenAlt { .. }
        | ConvertPointOf::Retry { .. } => {
            lemma_taken_comes_along(w, point, reply, facts, env, sess);
        },
        ConvertPointOf::RangeReady { .. } | ConvertPointOf::RangeWaited { .. }
        | ConvertPointOf::RangeTaken { .. } | ConvertPointOf::RangeMerged { .. } => {
            lemma_range_comes_along(w, point, reply, facts, env, sess);
        },
        _ => {
            lemma_new_comes_along(w, point, reply, facts, env, sess);
        },
    }
}

/// What the key has come to once it is finished, with everything that it has listed, if the
/// engine shows and answers `inputs`, one turn after the other; nothing where they end before
/// or do not answer what was asked.
pub open spec fn converted(
    point: ConvertPointModel,
    inputs: Seq<(ReplyModel, FactsModel)>,
    env: ConvertEnv,
    sess: SessionModel,
) -> Option<(Seq<EffectModel>, SessionModel)>
    decreases inputs.len(),
{
    if inputs.len() == 0 || !point.fits(inputs[0].0) {
        None
    } else {
        let (turn, after) = convert_turn(point, inputs[0].0, inputs[0].1, env, sess);
        match turn.next {
            NextModel::Done { .. } => Some((turn.effects, after)),
            NextModel::Ask { then, .. } => match converted(then, inputs.skip(1), env, after) {
                Some((effects, end)) => Some((turn.effects + effects, end)),
                None => None,
            },
        }
    }
}

proof fn lemma_conversion_comes_out(
    w: World,
    point: ConvertPointModel,
    inputs: Seq<(ReplyModel, FactsModel)>,
    env: ConvertEnv,
    sess: SessionModel,
)
    requires
        subject(point) is Some,
        converted(point, inputs, env, sess) is Some,
    ensures
        ({
            let (effects, end) = converted(point, inputs, env, sess)->0;
            let then = played(w, effects);
            let (text, rest) = subject(point)->0;
            &&& then.document == w.document
            &&& then.engine == w.engine
            &&& offered(then, end, text, rest, env) || then.waiting
        }),
    decreases inputs.len(),
{
    let (turn, after) = convert_turn(point, inputs[0].0, inputs[0].1, env, sess);
    conversion_stays_with_its_text(w, point, inputs[0].0, inputs[0].1, env, sess);
    if let NextModel::Ask { then, .. } = turn.next {
        let rest = inputs.skip(1);
        lemma_conversion_comes_out(played(w, turn.effects), then, rest, env, after);
        played_in_turn(w, turn.effects, (converted(then, rest, env, after)->0).0);
    }
}

/// The conversion key on composed text always comes out with a choice of candidates for it, or
/// leaves that to the timer: for the marked part of a reading, with the rest behind, and else
/// for the whole composed text. Nothing goes into the document meanwhile.
pub proof fn space_converts_what_is_composed(
    w: World,
    inputs: Seq<(ReplyModel, FactsModel)>,
    env: ConvertEnv,
    sess: SessionModel,
)
    requires
        sess.wf(),
        !(sess is Selecting),
        sess is RangeSelect ==> sess->select_end > 0,
        inputs.len() > 1,
        !inputs[1].1.preedit_empty,
        converted(ConvertPointOf::Enter, inputs, env, sess) is Some,
    ensures
        ({
            let (effects, end) = converted(ConvertPointOf::Enter, inputs, env, sess)->0;
            let then = played(w, effects);
            let (text, rest) = match sess {
                SessionModel::RangeSelect { full_reading, select_end, .. } => (
                    full_reading.take(select_end),
                    full_reading.skip(select_end),
                ),
                _ => (inputs[1].1.preedit, Seq::empty()),
            };
            &&& then.document == w.document
            &&& then.engine == (if sess is RangeSelect {
                text
            } else {
                w.engine
            })
            &&& offered(then, end, text, rest, env) || then.waiting
        }),
{
    let first = convert_turn(ConvertPointOf::Enter, inputs[0].0, inputs[0].1, env, sess);
    let rest = inputs.skip(1);
    assert(rest[0] == inputs[1]);
    lemma_entered(w, inputs[0].0, inputs[0].1, env, sess);
    lemma_begun(w, rest[0].0, rest[0].1, env, sess);
    let second = convert_turn(ConvertPointOf::Start, rest[0].0, rest[0].1, env, sess);
    let point = second.0.next->then;
    let last = rest.skip(1);
    let middle = converted(ConvertPointOf::Start, rest, env, sess);
    let tail = converted(point, last, env, second.1);
    assert(middle is Some);
    assert(tail is Some);
    assert(middle->0 == (second.0.effects + (tail->0).0, (tail->0).1));
    let w2 = played(w, second.0.effects);
    lemma_conversion_comes_out(w2, point, last, env, second.1);
    played_in_turn(w, second.0.effects, (tail->0).0);
    played_in_turn(w, first.0.effects, second.0.effects + (tail->0).0);
}

proof fn lemma_entered(
    w: World,
    reply: ReplyModel,
    facts: FactsModel,
    env: ConvertEnv,
    sess: SessionModel,
)
    ensures
        ({
            let (turn, after) = convert_turn(ConvertPointOf::Enter, reply, facts, env, sess);
            &&& after == sess
            &&& played(w, turn.effects) == w
            &&& turn.next is Ask && turn.next->then is Start
        }),
{
    reveal_with_fuel(played_to, 3);
}

proof fn lemma_begun(
    w: World,
    reply: ReplyModel,
    facts: FactsModel,
    env: ConvertEnv,
    sess: SessionModel,
)
    requires
        sess.wf(),
        !(sess is Selecting),
        sess is RangeSelect ==> sess->select_end > 0,
        !facts.preedit_empty,
    ensures
        ({
            let (turn, after) = convert_turn(ConvertPointOf::Start, reply, facts, env, sess);
            let of = match sess {
                SessionModel::RangeSelect { full_reading, select_end, .. } => (
                    full_reading.take(select_end),
                    full_reading.skip(select_end),
                ),
                _ => (facts.preedit, Seq::empty()),
            };
            let then = played(w, turn.effects);
            &&& turn.next is Ask
            &&& subject(turn.next->then) == Some(of)
            &&& then.document == w.document
            &&& then.engine == if sess is RangeSelect {
                of.0
            } else {
                w.engine
            }
        }),
{
    reveal_with_fuel(played_to, 5);
}

/// What the engine brings for the text is what is offered, all of it and in its order: the
/// conversion that is found goes to the dictionary, and what comes back is the choice. Where
/// nothing comes back but the text, the engine is asked to convert at once if the model was
/// free, and else the text itself is offered.
pub proof fn found_candidates_are_offered(
    items: Seq<Seq<char>>,
    text: Seq<char>,
    rest: Seq<char>,
    ready: bool,
    retried: bool,
    facts: FactsModel,
    env: ConvertEnv,
    sess: SessionModel,
)
    requires
        items.len() > 0,
    ensures
        forall|key: Seq<char>|
            (#[trigger] convert_turn(
                ConvertPointOf::Taken { preedit: text, key, ready, retried },
                ReplyOf::Taken { found: Some(items) },
                facts,
                env,
                sess,
            )).0.next == (NextModel::<ConvertPointModel>::Ask {
                ask: AskOf::Merge { candidates: items, limit: 40 },
                then: ConvertPointOf::Merged { preedit: text, ready: facts.kanji_ready },
            }),
        convert_turn(
            ConvertPointOf::TakenAlt { preedit: text, ready, retried },
            ReplyOf::Taken { found: Some(items) },
            facts,
            env,
            sess,
        ).0.next == (NextModel::<ConvertPointModel>::Ask {
            ask: AskOf::Merge { candidates: items, limit: 40 },
            then: ConvertPointOf::Merged { preedit: text, ready: facts.kanji_ready },
        }),
        convert_turn(
            ConvertPointOf::RangeTaken { target: text, remainder: rest },
            ReplyOf::Taken { found: Some(items) },
            facts,
            env,
            sess,
        ).0.next == (NextModel::<ConvertPointModel>::Ask {
            ask: AskOf::Merge { candidates: items, limit: 40 },
            then: ConvertPointOf::RangeMerged { target: text, remainder: rest },
        }),
        ({
            let (turn, after) = convert_turn(
                ConvertPointOf::Merged { preedit: text, ready },
                ReplyOf::List { items },
                facts,
                env,
                sess,
            );
            if items.len() == 1 && items[0] == text {
                &&& ready ==> turn.next == (NextModel::<ConvertPointModel>::Ask {
                    ask: AskOf::ConvertSync,
                    then: ConvertPointOf::Synced { preedit: text },
                })
                &&& !ready ==> after is Selecting && after->Selecting_0.candidates == items
            } else {
                after is Selecting && after->Selecting_0.candidates == items
            }
        }),
        convert_turn(
            ConvertPointOf::Synced { preedit: text },
            ReplyOf::List { items },
            facts,
            env,
            sess,
        ).0.next == (NextModel::<ConvertPointModel>::Ask {
            ask: AskOf::Merge { candidates: items, limit: 40 },
            then: ConvertPointOf::SyncMerged { preedit: text },
        }),
        ({
            let after = convert_turn(
                ConvertPointOf::SyncMerged { preedit: text },
                ReplyOf::List { items },
                facts,
                env,
                sess,
            ).1;
            after is Selecting && after->Selecting_0.candidates == items
        }),
        ({
            let after = convert_turn(
                ConvertPointOf::RangeMerged { target: text, remainder: rest },
                ReplyOf::List { items },
                facts,
                env,
                sess,
            ).1;
            after is Selecting && after->Selecting_0.candidates == items
        }),
{
    if items.len() == 1 && items[0] == text {
        assert(seq![text] =~= items);
    }
}

/// Where no conversion is found for the composed kana, one of the composed text is looked for,
/// and then everything is tried once more if the model is free. Without any, the engine
/// converts at once or the text itself is offered.
pub proof fn missing_conversion_is_tried_again(
    text: Seq<char>,
    key: Seq<char>,
    ready: bool,
    retried: bool,
    facts: FactsModel,
    env: ConvertEnv,
    sess: SessionModel,
)
    ensures
        ({
            let none = ReplyOf::Taken { found: None };
            let first = convert_turn(
                ConvertPointOf::Taken { preedit: text, key, ready, retried },
                none,
                facts,
                env,
                sess,
            );
            let second = convert_turn(
                ConvertPointOf::TakenAlt { preedit: text, ready, retried },
                none,
                facts,
                env,
                sess,
            );
            &&& key != text ==> first.0.next == (NextModel::<ConvertPointModel>::Ask {
                ask: AskOf::Take { key: text },
                then: ConvertPointOf::TakenAlt { preedit: text, ready, retried },
            })
            &&& key == text ==> first == second
            &&& ready && !retried ==> second.0.next == (NextModel::<ConvertPointModel>::Ask {
                ask: AskOf::Observe,
                then: ConvertPointOf::Retry { preedit: text, ready },
            })
            &&& ready && retried ==> second.0.next == (NextModel::<ConvertPointModel>::Ask {
                ask: AskOf::ConvertSync,
                then: ConvertPointOf::Synced { preedit: text },
            })
            &&& !ready ==> second.1 is Selecting && second.1->Selecting_0.candidates == seq![text]
        }),
        convert_turn(
            ConvertPointOf::SyncMerged { preedit: text },
            ReplyOf::List { items: Seq::empty() },
            facts,
            env,
            sess,
        ).1->Selecting_0.candidates == seq![text],
        convert_turn(
            ConvertPointOf::RangeMerged { target: text, remainder: key },
            ReplyOf::List { items: Seq::empty() },
            facts,
            env,
            sess,
        ).1->Selecting_0.candidates == seq![text],
{
}

/// How long the key waits: three seconds and three tenths of a second for each character, and
/// at most fifteen seconds.
pub proof fn longer_texts_are_waited_for_longer(text: Seq<char>, c: char)
    ensures
        patience(Seq::empty()) == 3000,
        patience(text) <= 15000,
        patience(text) < 15000 && patience(text) + 300 <= 15000 ==> patience(text.push(c))
            == patience(text) + 300,
        patience(text) == 15000 ==> patience(text.push(c)) == 15000,
{
}

/// A conversion is started where the model is free and none runs, for as many candidates as
/// are set; then it is waited for with patience, and the session says what is waited for. When
/// it is finished it is the conversion of the composed kana that is taken.
pub proof fn conversion_is_started_and_awaited(
    w: World,
    preedit: Seq<char>,
    ready: bool,
    on: bool,
    facts: FactsModel,
    env: ConvertEnv,
    sess: SessionModel,
)
    ensures
        ({
            let (turn, after) = convert_turn(
                ConvertPointOf::NewReady { preedit },
                ReplyOf::Seen,
                facts,
                env,
                sess,
            );
            &&& after == sess
            &&& played(w, turn.effects) == (World {
                background: if facts.kanji_ready && facts.bg is Idle {
                    Some(env.num_candidates)
                } else {
                    w.background
                },
                ..w
            })
            &&& turn.next == (NextModel::<ConvertPointModel>::Ask {
                ask: AskOf::Observe,
                then: ConvertPointOf::NewStatus { preedit, ready: facts.kanji_ready },
            })
        }),
        ({
            let (turn, after) = convert_turn(
                ConvertPointOf::NewStatus { preedit, ready },
                ReplyOf::Seen,
                facts,
                env,
                sess,
            );
            let then = played(w, turn.effects);
            if ready && (facts.bg is Done || facts.bg is Other) {
                &&& after == sess && then == w
                &&& turn.next->ask == (AskOf::<Seq<char>, Seq<Seq<char>>>::Take {
                    key: facts.hiragana,
                })
                &&& turn.next->then == (ConvertPointOf::Taken {
                    preedit,
                    key: facts.hiragana,
                    ready: facts.kanji_ready,
                    retried: false,
                })
            } else {
                &&& turn.next->ask == (AskOf::<Seq<char>, Seq<Seq<char>>>::Wait {
                    ms: patience(preedit),
                })
                &&& turn.next->then == if ready {
                    ConvertPointOf::NewWaited { preedit }
                } else {
                    ConvertPointOf::PrevWaited { preedit }
                }
                &&& sess is Waiting ==> after == sess
                &&& !(sess is Waiting) ==> after == (SessionModel::Waiting {
                    text: preedit,
                    pos_x: env.caret_x,
                    pos_y: env.caret_y,
                    remainder: Seq::empty(),
                    remainder_reading: Seq::empty(),
                })
                &&& then.window is Some && then.window->0.items == seq![preedit]
                    && then.window->0.status is Some
            }
        }),
        ({
            let waited = convert_turn(
                ConvertPointOf::NewWaited { preedit },
                ReplyOf::Flag { on },
                facts,
                env,
                sess,
            );
            let previous = convert_turn(
                ConvertPointOf::PrevWaited { preedit },
                ReplyOf::Flag { on },
                facts,
                env,
                sess,
            );
            &&& !on ==> played(w, waited.0.effects).waiting && played(
                w,
                previous.0.effects,
            ).waiting && waited.0.next is Done && previous.0.next is Done
            &&& on ==> waited.0.next->ask == (AskOf::<Seq<char>, Seq<Seq<char>>>::Take {
                key: facts.hiragana,
            })
            &&& on ==> previous.0.next->then == (ConvertPointOf::PrevReclaimed { preedit })
                && played(w, previous.0.effects).background is None
        }),
        ({
            let again = convert_turn(
                ConvertPointOf::PrevReclaimed { preedit },
                ReplyOf::Seen,
                facts,
                env,
                sess,
            );
            let retry = convert_turn(
                ConvertPointOf::Retry { preedit, ready },
                ReplyOf::Seen,
                facts,
                env,
                sess,
            );
            facts.kanji_ready ==> {
                &&& played(w, again.0.effects).background == Some(env.num_candidates)
                &&& played(w, retry.0.effects).background == Some(env.num_candidates)
                &&& again.0.next == (NextModel::<ConvertPointModel>::Ask {
                    ask: AskOf::Wait { ms: patience(preedit) },
                    then: ConvertPointOf::NewWaited { preedit },
                })
                &&& retry.0.next == (NextModel::<ConvertPointModel>::Ask {
                    ask: AskOf::Wait { ms: patience(preedit) },
                    then: ConvertPointOf::RetryWaited { preedit, ready },
                })
            }
        }),
{
    reveal_with_fuel(played_to, 3);
}

/// A marked part is converted as such: the engine is given it alone, and the rest waits behind
/// the conversion, in the session and in the choice.
pub proof fn marked_part_is_converted_alone(
    w: World,
    target: Seq<char>,
    remainder: Seq<char>,
    on: bool,
    facts: FactsModel,
    env: ConvertEnv,
    sess: SessionModel,
)
    requires
        target.len() > 0,
        !facts.preedit_empty,
    ensures
        forall|preview: Seq<char>| ({
            let (turn, after) = #[trigger] convert_turn(
                ConvertPointOf::Start,
                ReplyOf::Seen,
                facts,
                env,
                SessionModel::RangeSelect {
                    full_reading: target + remainder,
                    select_end: target.len() as int,
                    original_preview: preview,
                },
            );
            &&& played(w, turn.effects).engine == target
            &&& !played(w, turn.effects).live
            &&& played(w, turn.effects).background is None
            &&& after == (SessionModel::Preedit { text: target })
            &&& turn.next == (NextModel::<ConvertPointModel>::Ask {
                ask: AskOf::Observe,
                then: ConvertPointOf::RangeReady { target, remainder },
            })
        }),
        ({
            let (turn, after) = convert_turn(
                ConvertPointOf::RangeReady { target, remainder },
                ReplyOf::Seen,
                facts,
                env,
                sess,
            );
            facts.kanji_ready ==> {
                &&& after == (SessionModel::Waiting {
                    text: target,
                    pos_x: env.caret_x,
                    pos_y: env.caret_y,
                    remainder,
                    remainder_reading: remainder,
                })
                &&& turn.next == (NextModel::<ConvertPointModel>::Ask {
                    ask: AskOf::Wait { ms: patience(target) },
                    then: ConvertPointOf::RangeWaited { target, remainder },
                })
                &&& !(facts.bg is Done) ==> played(w, turn.effects).background == Some(
                    env.num_candidates,
                )
            }
        }),
        ({
            let (turn, after) = convert_turn(
                ConvertPointOf::RangeWaited { target, remainder },
                ReplyOf::Flag { on },
                facts,
                env,
                sess,
            );
            &&& after == sess
            &&& on ==> turn.next == (NextModel::<ConvertPointModel>::Ask {
                ask: AskOf::Take { key: target },
                then: ConvertPointOf::RangeTaken { target, remainder },
            })
            &&& !on ==> turn.next is Done && played(w, turn.effects).waiting
        }),
{
    reveal_with_fuel(played_to, 4);
    assert((target + remainder).take(target.len() as int) =~= target);
    assert((target + remainder).skip(target.len() as int) =~= remainder);
}

/// With a finished choice open the key goes one candidate on, from the last one to the first;
/// the window shows the page with that candidate, and the composition shows the candidate in
/// its place.
pub proof fn space_goes_one_candidate_on(
    w: World,
    facts: FactsModel,
    env: ConvertEnv,
    s: SelectingModel,
)
    requires
        s.wf(),
        s.candidates.len() > 0,
        s.page_size <= usize::MAX,
        !s.llm_pending,
        !facts.preedit_empty,
    ensures
        ({
            let (turn, after) = convert_turn(
                ConvertPointOf::Start,
                ReplyOf::Seen,
                facts,
                env,
                SessionModel::Selecting(s),
            );
            let then = played(w, turn.effects);
            let at = if s.selected + 1 < s.candidates.len() {
                s.selected + 1
            } else {
                0
            };
            &&& turn.next == (NextModel::<ConvertPointModel>::Done { eaten: true })
            &&& after == SessionModel::Selecting(SelectingModel { selected: at, ..s })
            &&& then.composition == s.prefix + s.candidates[at] + s.remainder
            &&& then.document == w.document
            &&& then.window is Some
            &&& then.window->0.selected == at % s.page_size
            &&& 0 <= then.window->0.selected < then.window->0.items.len()
            &&& then.window->0.items[then.window->0.selected] == s.candidates[at]
        }),
{
    reveal_with_fuel(played_to, 4);
    crate::engine::paging::stepping_goes_one_on(s.candidates.len() as int, s.selected);
    let at = next_index(s.candidates.len() as int, s.selected);
    let t = SelectingModel { selected: at, ..s };
    assert(t == s.select(at));
    crate::engine::state::open_page_holds_selection(t);
    let sess = SessionModel::Selecting(s);
    assert(sess.move_selection(|len: int, sel: int, size: int| next_index(len, sel))
        == SessionModel::Selecting(t));
}

/// Where the open choice still waits for its conversion, the key waits a little for it. A
/// finished one takes the place of the candidates, its first one selected and shown between
/// what stands before and behind; else the list stays, with a note that it is not complete.
pub proof fn pending_choice_is_completed(
    w: World,
    items: Seq<Seq<char>>,
    facts: FactsModel,
    env: ConvertEnv,
    s: SelectingModel,
)
    requires
        s.wf(),
        s.llm_pending,
        s.page_size == 9,
        items.len() > 0,
        !facts.preedit_empty,
    ensures
        ({
            let sess = SessionModel::Selecting(s);
            let start = convert_turn(ConvertPointOf::Start, ReplyOf::Seen, facts, env, sess);
            let check = convert_turn(ConvertPointOf::PendingCheck, ReplyOf::Seen, facts, env, sess);
            let end = convert_turn(
                ConvertPointOf::PendingMerged,
                ReplyOf::List { items },
                facts,
                env,
                sess,
            );
            let then = played(w, end.0.effects);
            &&& start.1 == sess && check.1 == sess
            &&& facts.bg is Running ==> start.0.next == (NextModel::<ConvertPointModel>::Ask {
                ask: AskOf::Wait { ms: 500 },
                then: ConvertPointOf::PendingWaited,
            })
            &&& !(facts.bg is Running) ==> start.0.next->then == (ConvertPointOf::<
                Seq<char>,
            >::PendingCheck)
            &&& facts.bg is Done ==> check.0.next == (NextModel::<ConvertPointModel>::Ask {
                ask: AskOf::Take { key: facts.hiragana },
                then: ConvertPointOf::PendingTaken { key: facts.hiragana },
            })
            &&& !(facts.bg is Done) ==> check.0.next is Done && played(
                w,
                check.0.effects,
            ).window is Some && played(w, check.0.effects).window->0.items == s.page() && played(
                w,
                check.0.effects,
            ).window->0.status is Some
            &&& end.1 == SessionModel::Selecting(
                SelectingModel { candidates: items, selected: 0, llm_pending: false, ..s },
            )
            &&& end.0.next == (NextModel::<ConvertPointModel>::Done { eaten: true })
            &&& then.composition == s.prefix + items[0] + s.remainder
            &&& then.document == w.document
            &&& then.window is Some
            &&& then.window->0.items == items.take(
                if items.len() < 9 {
                    items.len() as int
                } else {
                    9
                },
            )
            &&& then.window->0.selected == 0
        }),
        forall|key: Seq<char>| ({
            let taken = #[trigger] convert_turn(
                ConvertPointOf::PendingTaken { key },
                ReplyOf::Taken { found: Some(items) },
                facts,
                env,
                SessionModel::Selecting(s),
            );
            taken.1 == SessionModel::Selecting(s) && taken.0.next == (NextModel::<ConvertPointModel>::Ask {
                ask: AskOf::Merge { candidates: items, limit: 40 },
                then: ConvertPointOf::PendingMerged,
            })
        }),
        convert_turn(
            ConvertPointOf::PendingRetaken,
            ReplyOf::Taken { found: Some(items) },
            facts,
            env,
            SessionModel::Selecting(s),
        ).0.next == (NextModel::<ConvertPointModel>::Ask {
            ask: AskOf::Merge { candidates: items, limit: 40 },
            then: ConvertPointOf::PendingMerged,
        }),
{
    reveal_with_fuel(played_to, 4);
    let t = s.refreshed(items);
    crate::engine::paging::pages_are_filled(items.len() as int, 0, 9);
    assert(t.page() =~= items.take(
        if items.len() < 9 {
            items.len() as int
        } else {
            9
        },
    ));
}

/// A conversion of an open choice that has got lost is started again and waited for once more.
pub proof fn lost_conversion_is_started_again(
    w: World,
    key: Seq<char>,
    on: bool,
    facts: FactsModel,
    env: ConvertEnv,
    sess: SessionModel,
)
    ensures
        ({
            let (turn, after) = convert_turn(
                ConvertPointOf::PendingTaken { key },
                ReplyOf::Taken { found: None },
                facts,
                env,
                sess,
            );
            &&& after == sess
            &&& played(w, turn.effects).background is None
            &&& turn.next == (NextModel::<ConvertPointModel>::Ask {
                ask: AskOf::Start { width: env.num_candidates },
                then: ConvertPointOf::PendingRestarted { key },
            })
        }),
        convert_turn(
            ConvertPointOf::PendingRestarted { key },
            ReplyOf::Flag { on },
            facts,
            env,
            sess,
        ).0.next == (if on {
            NextModel::<ConvertPointModel>::Ask {
                ask: AskOf::Wait { ms: 1500 },
                then: ConvertPointOf::PendingRewaited { key },
            }
        } else {
            NextModel::<ConvertPointModel>::Ask {
                ask: AskOf::Take { key },
                then: ConvertPointOf::PendingRetaken,
            }
        }),
        convert_turn(
            ConvertPointOf::PendingRewaited { key },
            ReplyOf::Flag { on },
            facts,
            env,
            sess,
        ).0.next == (NextModel::<ConvertPointModel>::Ask {
            ask: AskOf::Take { key },
            then: ConvertPointOf::PendingRetaken,
        }),
        convert_turn(
            ConvertPointOf::PendingWaited,
            ReplyOf::Flag { on },
            facts,
            env,
            sess,
        ).0.next == (NextModel::<ConvertPointModel>::Ask {
            ask: AskOf::Observe,
            then: ConvertPointOf::PendingCheck,
        }),
{
    reveal_with_fuel(played_to, 3);
}

/// Where a choice is opened for composed text, its first candidate takes the place of the text
/// in the composition, and the timer that waits for the conversion stops.
pub proof fn first_candidate_is_shown(
    w: World,
    point: ConvertPointModel,
    reply: ReplyModel,
    facts: FactsModel,
    env: ConvertEnv,
    sess: SessionModel,
)
    requires
        point.fits(reply),
        point is Taken || point is TakenAlt || point is Retry || point is Merged || point
            is SyncMerged,
    ensures
        ({
            let (turn, after) = convert_turn(point, reply, facts, env, sess);
            let then = played(w, turn.effects);
            turn.next is Done ==> {
                &&& after is Selecting
                &&& then.composition == after->Selecting_0.candidates[0]
                &&& !then.waiting
            }
        }),
{
    lemma_reclaims(w);
    let text = (subject(point)->0).0;
    let none = Seq::<EffectModel>::empty();
    lemma_offer(w, seq![text], text, none, env);
    lemma_offer(w, seq![text], text, seq![EffectModel::Reclaim], env);
    lemma_offer(w, seq![text], text, seq![EffectModel::Reclaim, EffectModel::Reclaim], env);
    match point {
        ConvertPointOf::Merged { preedit, .. } => {
            if reply->items.len() > 0 {
                lemma_offer(w, reply->items, preedit, none, env);
            }
        },
        ConvertPointOf::SyncMerged { preedit } => {
            lemma_offer(w, or_text(reply->items, preedit), preedit, none, env);
        },
        _ => {},
    }
}

} // verus!
