//! Punctuation keys: what is composed is converted, and the sign follows the candidate
//! that is chosen.

use crate::engine::conversion::views;
use crate::engine::paging::pages_are_filled;
use crate::engine::state::{
    fresh_choice, open_page_holds_selection, SelectingModel, SessionModel, SessionState,
};
use crate::tsf::convert::{only_text, or_text, shown, DICT_LIMIT};
use crate::tsf::effects::{
    answers, ask, ask_model, done, done_model, emit, empty_list, found_of, items_of, no_effects,
    single, AskOf, BgStatus, EffectModel, EffectOf, EngineFacts, FactsModel, NextModel, Reply,
    ReplyModel, ReplyOf, Turn, TurnModel,
};
use crate::tsf::world::{played, played_to, World};
use vstd::prelude::*;

verus! {

/// How long a punctuation key waits for a conversion.
pub const PUNCT_WAIT_MS: u64 = 400;

/// What a punctuation key needs to know beside session and engine.
#[derive(Clone, Copy)]
pub struct PunctEnv {
    /// The sign.
    pub c: char,
    pub num_candidates: usize,
    pub caret_x: i32,
    pub caret_y: i32,
}

/// Where a punctuation key continues.
#[verifier::ext_equal]
#[derive(Debug, PartialEq)]
pub enum PunctPointOf<T> {
    Enter,
    /// Pending letters are settled.
    Flushed,
    Polled { preedit: T },
    Started { preedit: T, ready: bool },
    Waited { preedit: T, ready: bool },
    Taken { preedit: T, ready: bool, running: bool },
    Merged { preedit: T },
    Synced { preedit: T },
    SyncMerged { preedit: T },
    /// Only the dictionary was asked.
    DictOnly { preedit: T, running: bool },
}

pub type PunctPoint = PunctPointOf<String>;

pub type PunctPointModel = PunctPointOf<Seq<char>>;

impl View for PunctPointOf<String> {
    type V = PunctPointModel;

    open spec fn view(&self) -> PunctPointModel {
        match *self {
            PunctPointOf::Enter => PunctPointOf::Enter,
            PunctPointOf::Flushed => PunctPointOf::Flushed,
            PunctPointOf::Polled { preedit } => PunctPointOf::Polled { preedit: preedit@ },
            PunctPointOf::Started { preedit, ready } => PunctPointOf::Started {
                preedit: preedit@,
                ready,
            },
            PunctPointOf::Waited { preedit, ready } => PunctPointOf::Waited {
                preedit: preedit@,
                ready,
            },
            PunctPointOf::Taken { preedit, ready, running } => PunctPointOf::Taken {
                preedit: preedit@,
                ready,
                running,
            },
            PunctPointOf::Merged { preedit } => PunctPointOf::Merged { preedit: preedit@ },
            PunctPointOf::Synced { preedit } => PunctPointOf::Synced { preedit: preedit@ },
            PunctPointOf::SyncMerged { preedit } => PunctPointOf::SyncMerged {
                preedit: preedit@,
            },
            PunctPointOf::DictOnly { preedit, running } => PunctPointOf::DictOnly {
                preedit: preedit@,
                running,
            },
        }
    }
}

impl PunctPointOf<Seq<char>> {
    /// Whether the handler can be resumed here with `reply`.
    pub open spec fn fits(self, reply: ReplyModel) -> bool {
        match self {
            PunctPointOf::Enter => true,
            PunctPointOf::Flushed => reply is Seen,
            PunctPointOf::Polled { .. } => reply is Seen,
            PunctPointOf::Started { .. } => reply is Seen,
            PunctPointOf::Waited { .. } => reply is Flag,
            PunctPointOf::Taken { .. } => reply is Taken,
            PunctPointOf::Merged { .. } => reply is List,
            PunctPointOf::Synced { .. } => reply is List,
            PunctPointOf::SyncMerged { .. } => reply is List,
            PunctPointOf::DictOnly { .. } => reply is List,
        }
    }

    /// How many turns can follow at most.
    pub open spec fn turns_left(self) -> nat {
        match self {
            PunctPointOf::Enter => 9,
            PunctPointOf::Flushed => 8,
            PunctPointOf::Polled { .. } => 7,
            PunctPointOf::Started { .. } => 6,
            PunctPointOf::Waited { .. } => 5,
            PunctPointOf::Taken { .. } => 4,
            PunctPointOf::Merged { .. } => 3,
            PunctPointOf::Synced { .. } => 2,
            PunctPointOf::SyncMerged { .. } => 1,
            PunctPointOf::DictOnly { .. } => 1,
        }
    }
}

pub type PunctTurn = (TurnModel<PunctPointModel>, SessionModel);

/// The line under the candidates while a sign waits for the choice.
pub open spec fn punct_status(c: char) -> Seq<char> {
    "確定後「"@ + seq![c] + "」を入力"@
}

/// Whether a conversion is still to come.
pub open spec fn conversion_open(ready: bool, bg: BgStatus) -> bool {
    !ready || bg is Running || bg is Idle
}

/// `items` are offered for `preedit`, with the sign waiting for the choice.
pub open spec fn offer_with_sign(
    items: Seq<Seq<char>>,
    preedit: Seq<char>,
    pending: bool,
    env: PunctEnv,
) -> PunctTurn {
    let choice = SelectingModel {
        punct_pending: Some(env.c),
        ..fresh_choice(items, preedit, env.caret_x, env.caret_y, pending)
    };
    (
        done_model(
            seq![
                shown(
                    choice.page(),
                    0,
                    choice.info(),
                    env.caret_x,
                    env.caret_y,
                    Some(punct_status(env.c)),
                ),
                EffectOf::UpdateComposition {
                    text: if items.len() > 0 {
                        items[0]
                    } else {
                        preedit
                    },
                },
            ],
            true,
        ),
        SessionModel::Selecting(choice),
    )
}

/// The finished conversion of `preedit` is asked for.
pub open spec fn take_for_sign(
    preedit: Seq<char>,
    ready: bool,
    bg: BgStatus,
    sess: SessionModel,
) -> PunctTurn {
    (
        ask_model(
            seq![],
            AskOf::Take { key: preedit },
            PunctPointOf::Taken { preedit, ready, running: conversion_open(ready, bg) },
        ),
        sess,
    )
}

/// What a punctuation key does at `point` with the answer `reply`.
pub open spec fn punct_turn(
    point: PunctPointModel,
    reply: ReplyModel,
    facts: FactsModel,
    env: PunctEnv,
    sess: SessionModel,
) -> PunctTurn {
    match point {
        PunctPointOf::Enter => if facts.preedit_empty {
            (done_model(seq![EffectOf::CommitText { text: seq![env.c] }], true), sess)
        } else {
            match sess {
                SessionModel::Selecting(s) => {
                    let after = SelectingModel { punct_pending: Some(env.c), ..s };
                    (
                        done_model(
                            seq![
                                shown(
                                    after.page(),
                                    after.selected % after.page_size,
                                    after.info(),
                                    after.pos_x,
                                    after.pos_y,
                                    Some(punct_status(env.c)),
                                ),
                            ],
                            true,
                        ),
                        SessionModel::Selecting(after),
                    )
                },
                _ => (
                    ask_model(
                        seq![EffectOf::FlushPending],
                        AskOf::Observe,
                        PunctPointOf::Flushed,
                    ),
                    sess,
                ),
            }
        },
        PunctPointOf::Flushed => (
            ask_model(
                seq![EffectOf::UpdateCaret, EffectOf::PollDict, EffectOf::PollModel],
                AskOf::Observe,
                PunctPointOf::Polled { preedit: facts.preedit },
            ),
            sess,
        ),
        PunctPointOf::Polled { preedit } => (
            ask_model(
                if facts.kanji_ready && facts.bg is Idle {
                    seq![EffectOf::StartBg { candidates: env.num_candidates }]
                } else {
                    seq![]
                },
                AskOf::Observe,
                PunctPointOf::Started { preedit, ready: facts.kanji_ready },
            ),
            sess,
        ),
        PunctPointOf::Started { preedit, ready } => if ready && (facts.bg is Running
            || facts.bg is Idle) {
            (
                ask_model(
                    seq![],
                    AskOf::Wait { ms: PUNCT_WAIT_MS },
                    PunctPointOf::Waited { preedit, ready },
                ),
                sess,
            )
        } else {
            take_for_sign(preedit, ready, facts.bg, sess)
        },
        PunctPointOf::Waited { preedit, ready } => take_for_sign(preedit, ready, facts.bg, sess),
        PunctPointOf::Taken { preedit, ready, running } => {
            let items = match reply->found {
                Some(items) => items,
                None => Seq::empty(),
            };
            if items.len() > 0 {
                (
                    ask_model(
                        seq![],
                        AskOf::Merge { candidates: items, limit: DICT_LIMIT },
                        PunctPointOf::Merged { preedit },
                    ),
                    sess,
                )
            } else if ready && !running {
                (ask_model(seq![], AskOf::ConvertSync, PunctPointOf::Synced { preedit }), sess)
            } else {
                (
                    ask_model(
                        seq![],
                        AskOf::Merge { candidates: Seq::empty(), limit: DICT_LIMIT },
                        PunctPointOf::DictOnly { preedit, running },
                    ),
                    sess,
                )
            }
        },
        PunctPointOf::Merged { preedit } => if only_text(reply->items, preedit) {
            (ask_model(seq![], AskOf::ConvertSync, PunctPointOf::Synced { preedit }), sess)
        } else {
            offer_with_sign(reply->items, preedit, false, env)
        },
        PunctPointOf::Synced { preedit } => (
            ask_model(
                seq![],
                AskOf::Merge { candidates: reply->items, limit: DICT_LIMIT },
                PunctPointOf::SyncMerged { preedit },
            ),
            sess,
        ),
        PunctPointOf::SyncMerged { preedit } => offer_with_sign(
            or_text(reply->items, preedit),
            preedit,
            false,
            env,
        ),
        PunctPointOf::DictOnly { preedit, running } => offer_with_sign(
            if only_text(reply->items, preedit) {
                seq![preedit]
            } else {
                reply->items
            },
            preedit,
            running,
            env,
        ),
    }
}

fn status_text(c: char) -> (r: String)
    ensures
        r@ == punct_status(c),
{
    let mut s = "確定後「".to_owned();
    s.push(c);
    s.append("」を入力");
    assert(s@ == punct_status(c));
    s
}

fn is_only(items: &Vec<String>, text: &String) -> (r: bool)
    ensures
        r == only_text(views(items@), text@),
{
    items.len() == 0 || (items.len() == 1 && items[0] == *text)
}

fn offer_turn(
    items: Vec<String>,
    preedit: String,
    pending: bool,
    env: &PunctEnv,
    sess: &mut SessionState,
) -> (r: Turn<PunctPoint>)
    ensures
        (r@, final(sess)@) == offer_with_sign(views(items@), preedit@, pending, *env),
        final(sess)@.wf(),
{
    let mut fx = no_effects();
    let first = if items.len() > 0 {
        items[0].clone()
    } else {
        preedit.clone()
    };
    sess.activate_selecting(items, preedit, env.caret_x, env.caret_y, pending);
    sess.set_punct_pending(env.c);
    emit(
        &mut fx,
        EffectOf::ShowWindow {
            items: sess.page_candidates(),
            selected: 0,
            info: sess.page_info(),
            x: env.caret_x,
            y: env.caret_y,
            status: Some(status_text(env.c)),
        },
    );
    emit(&mut fx, EffectOf::UpdateComposition { text: first });
    done(fx, true)
}

fn take_turn(preedit: String, ready: bool, bg: BgStatus, sess: &SessionState) -> (r: Turn<
    PunctPoint,
>)
    ensures
        (r@, sess@) == take_for_sign(preedit@, ready, bg, sess@),
{
    let busy = match bg {
        BgStatus::Running => true,
        BgStatus::Idle => true,
        _ => false,
    };
    ask(
        no_effects(),
        AskOf::Take { key: preedit.clone() },
        PunctPointOf::Taken { preedit, ready, running: !ready || busy },
    )
}

/// A punctuation key: goes on at `point` with the answer to what was asked last.
pub fn on_punctuate(
    point: PunctPoint,
    reply: Reply,
    facts: &EngineFacts,
    env: &PunctEnv,
    sess: &mut SessionState,
) -> (r: Turn<PunctPoint>)
    requires
        point@.fits(reply@),
        old(sess)@.wf(),
    ensures
        (r@, final(sess)@) == punct_turn(point@, reply@, facts@, *env, old(sess)@),
        final(sess)@.wf(),
{
    let mut fx = no_effects();
    match point {
        PunctPointOf::Enter => {
            if facts.preedit_empty {
                let mut text = String::new();
                text.push(env.c);
                assert(text@ == seq![env.c]);
                emit(&mut fx, EffectOf::CommitText { text });
                return done(fx, true);
            }
            if sess.is_selecting() {
                sess.set_punct_pending(env.c);
                let (x, y) = match sess.selecting_pos() {
                    Some(pos) => pos,
                    None => (0, 0),
                };
                emit(
                    &mut fx,
                    EffectOf::ShowWindow {
                        items: sess.page_candidates(),
                        selected: sess.page_selected(),
                        info: sess.page_info(),
                        x,
                        y,
                        status: Some(status_text(env.c)),
                    },
                );
                return done(fx, true);
            }
            emit(&mut fx, EffectOf::FlushPending);
            ask(fx, AskOf::Observe, PunctPointOf::Flushed)
        },
        PunctPointOf::Flushed => {
            emit(&mut fx, EffectOf::UpdateCaret);
            emit(&mut fx, EffectOf::PollDict);
            emit(&mut fx, EffectOf::PollModel);
            ask(fx, AskOf::Observe, PunctPointOf::Polled { preedit: facts.preedit.clone() })
        },
        PunctPointOf::Polled { preedit } => {
            if facts.kanji_ready {
                match facts.bg {
                    BgStatus::Idle => {
                        emit(&mut fx, EffectOf::StartBg { candidates: env.num_candidates });
                    },
                    _ => {},
                }
            }
            ask(
                fx,
                AskOf::Observe,
                PunctPointOf::Started { preedit, ready: facts.kanji_ready },
            )
        },
        PunctPointOf::Started { preedit, ready } => {
            let busy = match facts.bg {
                BgStatus::Running => true,
                BgStatus::Idle => true,
                _ => false,
            };
            if ready && busy {
                ask(
                    fx,
                    AskOf::Wait { ms: PUNCT_WAIT_MS },
                    PunctPointOf::Waited { preedit, ready },
                )
            } else {
                take_turn(preedit, ready, facts.bg, sess)
            }
        },
        PunctPointOf::Waited { preedit, ready } => take_turn(preedit, ready, facts.bg, sess),
        PunctPointOf::Taken { preedit, ready, running } => {
            let items = match found_of(reply) {
                Some(items) => items,
                None => empty_list(),
            };
            if items.len() > 0 {
                ask(
                    fx,
                    AskOf::Merge { candidates: items, limit: DICT_LIMIT },
                    PunctPointOf::Merged { preedit },
                )
            } else if ready && !running {
                ask(fx, AskOf::ConvertSync, PunctPointOf::Synced { preedit })
            } else {
                ask(
                    fx,
                    AskOf::Merge { candidates: empty_list(), limit: DICT_LIMIT },
                    PunctPointOf::DictOnly { preedit, running },
                )
            }
        },
        PunctPointOf::Merged { preedit } => {
            let items = items_of(reply);
            if is_only(&items, &preedit) {
                ask(fx, AskOf::ConvertSync, PunctPointOf::Synced { preedit })
            } else {
                offer_turn(items, preedit, false, env, sess)
            }
        },
        PunctPointOf::Synced { preedit } => ask(
            fx,
            AskOf::Merge { candidates: items_of(reply), limit: DICT_LIMIT },
            PunctPointOf::SyncMerged { preedit },
        ),
        PunctPointOf::SyncMerged { preedit } => {
            let found = items_of(reply);
            let items = if found.len() == 0 {
                single(&preedit)
            } else {
                found
            };
            offer_turn(items, preedit, false, env, sess)
        },
        PunctPointOf::DictOnly { preedit, running } => {
            let found = items_of(reply);
            let items = if is_only(&found, &preedit) {
                single(&preedit)
            } else {
                found
            };
            offer_turn(items, preedit, running, env, sess)
        },
    }
}

/// Whatever the engine answers, the key can be resumed with it, and it finishes after
/// a bounded number of turns, used up.
pub proof fn punctuate_runs_to_its_end(
    point: PunctPointModel,
    reply: ReplyModel,
    facts: FactsModel,
    env: PunctEnv,
    sess: SessionModel,
)
    requires
        point.fits(reply),
    ensures
        match punct_turn(point, reply, facts, env, sess).0.next {
            NextModel::Done { eaten } => eaten,
            NextModel::Ask { ask, then } => {
                &&& then.turns_left() < point.turns_left()
                &&& forall|answer: ReplyModel| #[trigger]
                    answers(ask, answer) ==> then.fits(answer)
            },
        },
{
}

/// A finished punctuation key leaves a choice open that the sign waits for, unless
/// nothing was composed; then the sign itself was committed.
pub proof fn sign_waits_for_choice(
    point: PunctPointModel,
    reply: ReplyModel,
    facts: FactsModel,
    env: PunctEnv,
    sess: SessionModel,
)
    requires
        point.fits(reply),
        punct_turn(point, reply, facts, env, sess).0.next is Done,
    ensures
        ({
            let (turn, after) = punct_turn(point, reply, facts, env, sess);
            ||| after is Selecting && after->Selecting_0.punct_pending == Some(env.c)
            ||| turn.effects == seq![
                EffectOf::<Seq<char>, Seq<Seq<char>>>::CommitText { text: seq![env.c] },
            ]
        }),
{
}

/// The text whose conversion a punctuation key is about at a point.
pub open spec fn sign_subject(point: PunctPointModel) -> Option<Seq<char>> {
    match point {
        PunctPointOf::Enter => None,
        PunctPointOf::Flushed => None,
        PunctPointOf::Polled { preedit } => Some(preedit),
        PunctPointOf::Started { preedit, .. } => Some(preedit),
        PunctPointOf::Waited { preedit, .. } => Some(preedit),
        PunctPointOf::Taken { preedit, .. } => Some(preedit),
        PunctPointOf::Merged { preedit } => Some(preedit),
        PunctPointOf::Synced { preedit } => Some(preedit),
        PunctPointOf::SyncMerged { preedit } => Some(preedit),
        PunctPointOf::DictOnly { preedit, .. } => Some(preedit),
    }
}

/// A choice for `text` is open with `items`, the sign waiting for it, and its first page in
/// the window with a note that names the sign.
pub open spec fn offered_with_sign(
    then: World,
    after: SessionModel,
    items: Seq<Seq<char>>,
    text: Seq<char>,
    env: PunctEnv,
) -> bool {
    &&& after is Selecting
    &&& {
        let s = after->Selecting_0;
        &&& s.original_preedit == text
        &&& s.candidates == items
        &&& items.len() > 0
        &&& s.selected == 0
        &&& s.punct_pending == Some(env.c)
        &&& s.prefix.len() == 0
        &&& s.remainder.len() == 0
        &&& s.remainder_reading.len() == 0
    }
    &&& then.window is Some
    &&& then.window->0.items == items.take(
        if items.len() < 9 {
            items.len() as int
        } else {
            9
        },
    )
    &&& then.window->0.selected == 0
    &&& then.window->0.status is Some
    &&& then.window->0.status->0.contains(env.c)
    &&& then.window->0.x == env.caret_x
    &&& then.window->0.y == env.caret_y
    &&& then.composition == items[0]
}

proof fn lemma_status_names_sign(c: char)
    ensures
        punct_status(c).contains(c),
{
    let head = "確定後「"@;
    assert(punct_status(c)[head.len() as int] == c);
}

proof fn lemma_offer_with_sign(
    w: World,
    items: Seq<Seq<char>>,
    text: Seq<char>,
    pending: bool,
    env: PunctEnv,
)
    requires
        items.len() > 0,
    ensures
        ({
            let (turn, after) = offer_with_sign(items, text, pending, env);
            let then = played(w, turn.effects);
            &&& offered_with_sign(then, after, items, text, env)
            &&& after->Selecting_0.llm_pending == pending
            &&& then.document == w.document
            &&& then.engine == w.engine
        }),
{
    reveal_with_fuel(played_to, 3);
    lemma_status_names_sign(env.c);
    pages_are_filled(items.len() as int, 0, 9);
    let choice = SelectingModel {
        punct_pending: Some(env.c),
        ..fresh_choice(items, text, env.caret_x, env.caret_y, pending)
    };
    assert(choice.page() =~= items.take(
        if items.len() < 9 {
            items.len() as int
        } else {
            9
        },
    ));
}

/// A punctuation key types its sign where nothing is composed. With a choice open, the sign
/// waits for it, in place of an earlier one, and the list is shown again with a note.
/// Otherwise pending letters are settled, and what is composed then is converted.
pub proof fn sign_is_typed_or_waits(
    w: World,
    reply: ReplyModel,
    facts: FactsModel,
    env: PunctEnv,
    sess: SessionModel,
)
    requires
        sess.wf(),
        sess is Selecting ==> sess->Selecting_0.candidates.len() > 0
            && sess->Selecting_0.page_size <= usize::MAX,
    ensures
        ({
            let (turn, after) = punct_turn(PunctPointOf::Enter, reply, facts, env, sess);
            let then = played(w, turn.effects);
            if facts.preedit_empty {
                &&& turn.next == (NextModel::<PunctPointModel>::Done { eaten: true })
                &&& then == (World { document: w.document.push(env.c), ..w })
                &&& after == sess
            } else if let SessionModel::Selecting(s) = sess {
                &&& turn.next == (NextModel::<PunctPointModel>::Done { eaten: true })
                &&& after == SessionModel::Selecting(
                    SelectingModel { punct_pending: Some(env.c), ..s },
                )
                &&& then.document == w.document && then.composition == w.composition
                &&& then.window is Some
                &&& then.window->0.status is Some && then.window->0.status->0.contains(env.c)
                &&& 0 <= then.window->0.selected < then.window->0.items.len()
                &&& then.window->0.items[then.window->0.selected] == s.candidates[s.selected]
            } else {
                &&& turn.effects.contains(EffectOf::FlushPending)
                &&& then == w && after == sess
                &&& turn.next == (NextModel::<PunctPointModel>::Ask {
                    ask: AskOf::Observe,
                    then: PunctPointOf::Flushed,
                })
            }
        }),
        ({
            let (turn, after) = punct_turn(PunctPointOf::Flushed, reply, facts, env, sess);
            &&& after == sess
            &&& played(w, turn.effects) == w
            &&& turn.next == (NextModel::<PunctPointModel>::Ask {
                ask: AskOf::Observe,
                then: PunctPointOf::Polled { preedit: facts.preedit },
            })
        }),
{
    reveal_with_fuel(played_to, 4);
    lemma_status_names_sign(env.c);
    assert(w.document + seq![env.c] =~= w.document.push(env.c));
    let fx = punct_turn(PunctPointOf::Enter, reply, facts, env, sess).0.effects;
    if !facts.preedit_empty {
        if let SessionModel::Selecting(s) = sess {
            let t = SelectingModel { punct_pending: Some(env.c), ..s };
            open_page_holds_selection(t);
            assert(t.page() == s.page());
        } else {
            assert(fx[0] == EffectModel::FlushPending);
        }
    }
}

/// The conversion stays with its text until a choice of it is open that the sign waits for;
/// nothing goes into the document meanwhile. What is offered is what came back from the
/// dictionary, or the text itself where nothing else did.
pub proof fn sign_goes_with_its_text(
    w: World,
    point: PunctPointModel,
    reply: ReplyModel,
    facts: FactsModel,
    env: PunctEnv,
    sess: SessionModel,
)
    requires
        point.fits(reply),
        sign_subject(point) is Some,
    ensures
        ({
            let (turn, after) = punct_turn(point, reply, facts, env, sess);
            let then = played(w, turn.effects);
            let text = sign_subject(point)->0;
            &&& then.document == w.document
            &&& then.engine == w.engine
            &&& match turn.next {
                NextModel::Done { eaten } => {
                    let items = if reply->items.len() > 0 {
                        reply->items
                    } else {
                        seq![text]
                    };
                    &&& eaten
                    &&& reply is List
                    &&& offered_with_sign(then, after, items, text, env)
                    &&& after->Selecting_0.llm_pending == (point is DictOnly
                        && point->DictOnly_running)
                },
                NextModel::Ask { then: next, .. } => sign_subject(next) == Some(text) && after
                    == sess,
            }
        }),
{
    let text = sign_subject(point)->0;
    match point {
        PunctPointOf::Merged { .. } => {
            if reply->items.len() > 0 {
                lemma_offer_with_sign(w, reply->items, text, false, env);
            }
            reveal_with_fuel(played_to, 2);
        },
        PunctPointOf::SyncMerged { .. } => {
            lemma_offer_with_sign(w, or_text(reply->items, text), text, false, env);
        },
        PunctPointOf::DictOnly { running, .. } => {
            let items = if only_text(reply->items, text) {
                seq![text]
            } else {
                reply->items
            };
            if reply->items.len() == 1 && reply->items[0] == text {
                assert(reply->items =~= seq![text]);
            }
            lemma_offer_with_sign(w, items, text, running, env);
        },
        _ => {
            reveal_with_fuel(played_to, 3);
        },
    }
}

/// How the conversion is come by: it is started where the model is free and none runs, waited
/// for a little, and taken for the text itself. What it brings goes to the dictionary. Without
/// it the engine converts at once where the model is free and nothing runs, and else the
/// dictionary is asked alone, and the choice waits for the conversion.
pub proof fn sign_conversion_is_come_by(
    w: World,
    text: Seq<char>,
    items: Seq<Seq<char>>,
    ready: bool,
    running: bool,
    on: bool,
    facts: FactsModel,
    env: PunctEnv,
    sess: SessionModel,
)
    requires
        items.len() > 0,
    ensures
        ({
            let (turn, after) = punct_turn(
                PunctPointOf::Polled { preedit: text },
                ReplyOf::Seen,
                facts,
                env,
                sess,
            );
            &&& played(w, turn.effects).background == (if facts.kanji_ready && facts.bg is Idle {
                Some(env.num_candidates)
            } else {
                w.background
            })
            &&& turn.next->then == (PunctPointOf::Started {
                preedit: text,
                ready: facts.kanji_ready,
            })
        }),
        ({
            let started = punct_turn(
                PunctPointOf::Started { preedit: text, ready },
                ReplyOf::Seen,
                facts,
                env,
                sess,
            ).0.next;
            let waited = punct_turn(
                PunctPointOf::Waited { preedit: text, ready },
                ReplyOf::Flag { on },
                facts,
                env,
                sess,
            ).0.next;
            let open = !ready || facts.bg is Running || facts.bg is Idle;
            let take = NextModel::<PunctPointModel>::Ask {
                ask: AskOf::Take { key: text },
                then: PunctPointOf::Taken { preedit: text, ready, running: open },
            };
            &&& ready && open ==> started == (NextModel::<PunctPointModel>::Ask {
                ask: AskOf::Wait { ms: 400 },
                then: PunctPointOf::Waited { preedit: text, ready },
            })
            &&& !(ready && open) ==> started == take
            &&& waited == take
        }),
        punct_turn(
            PunctPointOf::Taken { preedit: text, ready, running },
            ReplyOf::Taken { found: Some(items) },
            facts,
            env,
            sess,
        ).0.next == (NextModel::<PunctPointModel>::Ask {
            ask: AskOf::Merge { candidates: items, limit: 40 },
            then: PunctPointOf::Merged { preedit: text },
        }),
        punct_turn(
            PunctPointOf::Taken { preedit: text, ready, running },
            ReplyOf::Taken { found: None },
            facts,
            env,
            sess,
        ).0.next == (if ready && !running {
            NextModel::<PunctPointModel>::Ask {
                ask: AskOf::ConvertSync,
                then: PunctPointOf::Synced { preedit: text },
            }
        } else {
            NextModel::<PunctPointModel>::Ask {
                ask: AskOf::Merge { candidates: Seq::empty(), limit: 40 },
                then: PunctPointOf::DictOnly { preedit: text, running },
            }
        }),
        punct_turn(
            PunctPointOf::Synced { preedit: text },
            ReplyOf::List { items },
            facts,
            env,
            sess,
        ).0.next == (NextModel::<PunctPointModel>::Ask {
            ask: AskOf::Merge { candidates: items, limit: 40 },
            then: PunctPointOf::SyncMerged { preedit: text },
        }),
        punct_turn(
            PunctPointOf::Merged { preedit: text },
            ReplyOf::List { items },
            facts,
            env,
            sess,
        ).0.next is Ask <==> items == seq![text],
{
    reveal_with_fuel(played_to, 3);
    if items.len() == 1 && items[0] == text {
        assert(items =~= seq![text]);
    }
}

} // verus!
