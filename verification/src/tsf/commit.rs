//! Enter, and the number keys that choose a candidate: what is composed goes into the
//! document.

use crate::engine::conversion::views;
use crate::engine::state::{SelectingModel, SessionModel, SessionState};
use crate::text::concat2;
use crate::tsf::effects::{
    answers, ask, ask_model, done, done_model, emit, found_of, no_effects, AskOf, BgStatus,
    Effect, EffectModel, EffectOf, EngineFacts, FactsModel, NextModel, Reply, ReplyModel, ReplyOf,
    Turn, TurnModel,
};
use crate::tsf::input::{
    choice_text, confirm_choice, confirmed_text, emit_learn, learnt, punct_text,
};
use crate::tsf::world::{played, played_in_turn, played_to, World};
use vstd::prelude::*;

verus! {

/// How long Enter waits for a live conversion of what was typed.
pub const LIVE_COMMIT_WAIT_MS: u64 = 180;

/// What Enter needs to know beside session and engine.
#[derive(Clone, Copy)]
pub struct CommitEnv {
    pub num_candidates: usize,
    pub live_beam: usize,
    pub auto_learn: bool,
    /// Whether live conversion is switched on.
    pub live_enabled: bool,
    /// Whether a conversion key asked for this Enter to commit what is shown.
    pub suppressed: bool,
}

/// Where Enter continues.
#[verifier::ext_equal]
#[derive(Debug, PartialEq)]
pub enum CommitPointOf<T> {
    Enter,
    /// Pending letters are settled.
    Flushed,
    LiveStarted { reading: T },
    LiveWaited { reading: T },
    LiveTaken { reading: T },
}

pub type CommitPoint = CommitPointOf<String>;

pub type CommitPointModel = CommitPointOf<Seq<char>>;

impl View for CommitPointOf<String> {
    type V = CommitPointModel;

    open spec fn view(&self) -> CommitPointModel {
        match *self {
            CommitPointOf::Enter => CommitPointOf::Enter,
            CommitPointOf::Flushed => CommitPointOf::Flushed,
            CommitPointOf::LiveStarted { reading } => CommitPointOf::LiveStarted {
                reading: reading@,
            },
            CommitPointOf::LiveWaited { reading } => CommitPointOf::LiveWaited {
                reading: reading@,
            },
            CommitPointOf::LiveTaken { reading } => CommitPointOf::LiveTaken {
                reading: reading@,
            },
        }
    }
}

impl CommitPointOf<Seq<char>> {
    /// Whether the handler can be resumed here with `reply`.
    pub open spec fn fits(self, reply: ReplyModel) -> bool {
        match self {
            CommitPointOf::Enter => true,
            CommitPointOf::Flushed => reply is Seen,
            CommitPointOf::LiveStarted { .. } => reply is Seen,
            CommitPointOf::LiveWaited { .. } => reply is Flag,
            CommitPointOf::LiveTaken { .. } => reply is Taken,
        }
    }

    /// How many turns can follow at most.
    pub open spec fn turns_left(self) -> nat {
        match self {
            CommitPointOf::Enter => 5,
            CommitPointOf::Flushed => 4,
            CommitPointOf::LiveStarted { .. } => 3,
            CommitPointOf::LiveWaited { .. } => 2,
            CommitPointOf::LiveTaken { .. } => 1,
        }
    }
}

pub type CommitTurn = (TurnModel<CommitPointModel>, SessionModel);

/// The engine is told that `text` was committed, and the composition ends with it.
pub open spec fn committed(text: Seq<char>) -> Seq<EffectModel> {
    seq![
        EffectOf::Commit { text },
        EffectOf::ResetPreedit,
        EffectOf::EndComposition { text },
    ]
}

/// `text` is committed and `rest` is composed on.
pub open spec fn committed_then(text: Seq<char>, rest: Seq<char>, beam: usize) -> Seq<
    EffectModel,
> {
    seq![
        EffectOf::Commit { text },
        EffectOf::ResetPreedit,
        EffectOf::PushRawText { text: rest },
        EffectOf::StartBg { candidates: beam },
        EffectOf::CommitThenCompose { commit: text },
    ]
}

/// The effects of committing an open choice, after `before`.
pub open spec fn choice_effects(
    before: Seq<EffectModel>,
    s: SelectingModel,
    beam: usize,
) -> Seq<EffectModel> {
    before + if s.remainder_reading.len() > 0 {
        committed_then(confirmed_text(s), s.remainder_reading, beam)
    } else {
        committed(confirmed_text(s) + s.remainder)
    }
}

/// The session after an open choice was committed: what it left over is composed on.
pub open spec fn after_choice(s: SelectingModel) -> SessionModel {
    if s.remainder_reading.len() > 0 {
        SessionModel::Preedit { text: s.remainder_reading }
    } else {
        SessionModel::Idle
    }
}

/// A converted text goes into the document in place of its reading.
pub open spec fn live_committed(
    reading: Seq<char>,
    preview: Seq<char>,
    auto_learn: bool,
) -> Seq<EffectModel> {
    seq![EffectOf::HideWindow, EffectOf::StopLiveTimer] + learnt(reading, preview, auto_learn)
        + committed(preview)
}

/// What Enter does with the session, where that decides.
pub open spec fn commit_session_turn(env: CommitEnv, sess: SessionModel) -> CommitTurn {
    match sess {
        SessionModel::LiveConv { reading, preview } => if preview.len() == 0 {
            (done_model(seq![], false), sess)
        } else {
            (
                done_model(live_committed(reading, preview, env.auto_learn), true),
                SessionModel::Idle,
            )
        },
        SessionModel::RangeSelect { full_reading, select_end, .. } => {
            let selected = full_reading.take(select_end);
            let rest = full_reading.skip(select_end);
            if selected.len() == 0 {
                (done_model(seq![], false), sess)
            } else if rest.len() == 0 {
                (
                    done_model(seq![EffectOf::HideWindow] + committed(selected), true),
                    SessionModel::Idle,
                )
            } else {
                (
                    done_model(
                        seq![EffectOf::HideWindow] + committed_then(selected, rest, env.live_beam),
                        true,
                    ),
                    SessionModel::Preedit { text: rest },
                )
            }
        },
        SessionModel::Waiting { text, .. } => (
            done_model(seq![EffectOf::HideWindow, EffectOf::Reclaim] + committed(text), true),
            SessionModel::Idle,
        ),
        SessionModel::Selecting(s) => (
            done_model(
                choice_effects(
                    learnt(s.original_preedit, choice_text(s), env.auto_learn).push(
                        EffectOf::HideWindow,
                    ).push(EffectOf::StopLiveTimer),
                    s,
                    env.live_beam,
                ),
                true,
            ),
            after_choice(s),
        ),
        _ => (
            ask_model(seq![EffectOf::FlushPending], AskOf::Observe, CommitPointOf::Flushed),
            sess,
        ),
    }
}

/// What is composed goes into the document as it is.
pub open spec fn plain_commit(
    before: Seq<EffectModel>,
    facts: FactsModel,
    sess: SessionModel,
) -> CommitTurn {
    if facts.preedit.len() == 0 {
        (done_model(before, false), sess)
    } else {
        (done_model(before.push(EffectOf::Reclaim) + committed(facts.preedit), true), sess)
    }
}

/// The live conversion of `reading` is taken if it is finished.
pub open spec fn live_check(reading: Seq<char>, facts: FactsModel, sess: SessionModel) -> CommitTurn {
    if facts.bg is Done {
        (
            ask_model(
                seq![],
                AskOf::Take { key: reading },
                CommitPointOf::LiveTaken { reading },
            ),
            sess,
        )
    } else {
        plain_commit(seq![], facts, sess)
    }
}

/// What Enter does at `point` with the answer `reply`.
pub open spec fn commit_turn(
    point: CommitPointModel,
    reply: ReplyModel,
    facts: FactsModel,
    env: CommitEnv,
    sess: SessionModel,
) -> CommitTurn {
    match point {
        CommitPointOf::Enter => commit_session_turn(env, sess),
        CommitPointOf::Flushed => {
            let reading = facts.hiragana;
            let released = seq![EffectOf::SuppressLiveCommit { on: false }];
            if env.suppressed || !env.live_enabled || reading.len() == 0 {
                plain_commit(released, facts, sess)
            } else {
                (
                    ask_model(
                        if facts.kanji_ready && facts.bg is Idle {
                            released.push(EffectOf::StartBg { candidates: env.num_candidates })
                        } else {
                            released
                        },
                        AskOf::Observe,
                        CommitPointOf::LiveStarted { reading },
                    ),
                    sess,
                )
            }
        },
        CommitPointOf::LiveStarted { reading } => if facts.bg is Running || facts.bg is Idle {
            (
                ask_model(
                    seq![],
                    AskOf::Wait { ms: LIVE_COMMIT_WAIT_MS },
                    CommitPointOf::LiveWaited { reading },
                ),
                sess,
            )
        } else {
            live_check(reading, facts, sess)
        },
        CommitPointOf::LiveWaited { reading } => live_check(reading, facts, sess),
        CommitPointOf::LiveTaken { reading } => match reply->found {
            Some(items) => if items.len() > 0 && items[0].len() > 0 && items[0] != reading {
                (
                    done_model(live_committed(reading, items[0], env.auto_learn), true),
                    SessionModel::Idle,
                )
            } else {
                plain_commit(seq![], facts, sess)
            },
            None => plain_commit(seq![], facts, sess),
        },
    }
}

/// Appends that the engine is told of a commit and the composition ends.
pub fn emit_committed(fx: &mut Vec<Effect>, text: String)
    ensures
        views(final(fx)@) == views(old(fx)@) + committed(text@),
{
    emit(fx, EffectOf::Commit { text: text.clone() });
    emit(fx, EffectOf::ResetPreedit);
    emit(fx, EffectOf::EndComposition { text });
    assert(views(fx@) == views(old(fx)@) + committed(text@));
}

fn emit_committed_then(fx: &mut Vec<Effect>, text: String, rest: String, beam: usize)
    ensures
        views(final(fx)@) == views(old(fx)@) + committed_then(text@, rest@, beam),
{
    emit(fx, EffectOf::Commit { text: text.clone() });
    emit(fx, EffectOf::ResetPreedit);
    emit(fx, EffectOf::PushRawText { text: rest });
    emit(fx, EffectOf::StartBg { candidates: beam });
    emit(fx, EffectOf::CommitThenCompose { commit: text });
    assert(views(fx@) == views(old(fx)@) + committed_then(text@, rest@, beam));
}

fn emit_choice(fx: &mut Vec<Effect>, beam: usize, sess: &mut SessionState)
    requires
        old(sess)@ is Selecting,
    ensures
        views(final(fx)@) == choice_effects(views(old(fx)@), old(sess)@->Selecting_0, beam),
        final(sess)@ == after_choice(old(sess)@->Selecting_0),
{
    let confirmed = confirm_choice(sess);
    let rest = sess.selecting_remainder_reading_clone();
    if !rest.as_str().is_empty() {
        sess.set_preedit(rest.clone());
        emit_committed_then(fx, confirmed, rest, beam);
    } else {
        let full = concat2(confirmed.as_str(), sess.selecting_remainder_clone().as_str());
        sess.set_idle();
        emit_committed(fx, full);
    }
}

fn emit_live_committed(
    fx: &mut Vec<Effect>,
    reading: &String,
    preview: String,
    auto_learn: bool,
)
    requires
        views(old(fx)@) == Seq::<EffectModel>::empty(),
    ensures
        views(final(fx)@) == live_committed(reading@, preview@, auto_learn),
{
    emit(fx, EffectOf::HideWindow);
    emit(fx, EffectOf::StopLiveTimer);
    emit_learn(fx, reading, &preview, auto_learn);
    emit_committed(fx, preview);
}

fn commit_session(env: &CommitEnv, sess: &mut SessionState) -> (r: Turn<CommitPoint>)
    requires
        old(sess)@.wf(),
    ensures
        (r@, final(sess)@) == commit_session_turn(*env, old(sess)@),
        final(sess)@.wf(),
{
    let mut fx = no_effects();
    if sess.is_live_conv() {
        let (reading, preview) = match sess.live_conv_parts() {
            Some((reading, preview)) => (reading.to_owned(), preview.to_owned()),
            None => (String::new(), String::new()),
        };
        if preview.as_str().is_empty() {
            return done(fx, false);
        }
        sess.set_idle();
        emit_live_committed(&mut fx, &reading, preview, env.auto_learn);
        return done(fx, true);
    }
    if sess.is_range_select() {
        let (selected, rest) = match sess.range_select_parts() {
            Some(parts) => parts,
            None => (String::new(), String::new()),
        };
        if selected.as_str().is_empty() {
            return done(fx, false);
        }
        emit(&mut fx, EffectOf::HideWindow);
        if rest.as_str().is_empty() {
            sess.set_idle();
            emit_committed(&mut fx, selected);
        } else {
            sess.set_preedit(rest.clone());
            emit_committed_then(&mut fx, selected, rest, env.live_beam);
        }
        return done(fx, true);
    }
    if sess.is_waiting() {
        let text = match sess.preedit_text() {
            Some(t) => t.to_owned(),
            None => String::new(),
        };
        sess.set_idle();
        emit(&mut fx, EffectOf::HideWindow);
        emit(&mut fx, EffectOf::Reclaim);
        emit_committed(&mut fx, text);
        return done(fx, true);
    }
    if sess.is_selecting() {
        let text = sess.current_or_original();
        let reading = match sess.original_preedit() {
            Some(t) => t.to_owned(),
            None => String::new(),
        };
        emit_learn(&mut fx, &reading, &text, env.auto_learn);
        proof {
            let l = learnt(reading@, text@, env.auto_learn);
            assert(Seq::<EffectModel>::empty() + l == l);
        }
        emit(&mut fx, EffectOf::HideWindow);
        emit(&mut fx, EffectOf::StopLiveTimer);
        emit_choice(&mut fx, env.live_beam, sess);
        return done(fx, true);
    }
    emit(&mut fx, EffectOf::FlushPending);
    ask(fx, AskOf::Observe, CommitPointOf::Flushed)
}

fn plain_commit_turn(before: Vec<Effect>, facts: &EngineFacts, sess: &SessionState) -> (r: Turn<
    CommitPoint,
>)
    ensures
        (r@, sess@) == plain_commit(views(before@), facts@, sess@),
{
    let mut fx = before;
    if facts.preedit.as_str().is_empty() {
        return done(fx, false);
    }
    emit(&mut fx, EffectOf::Reclaim);
    emit_committed(&mut fx, facts.preedit.clone());
    done(fx, true)
}

fn live_check_turn(reading: String, facts: &EngineFacts, sess: &SessionState) -> (r: Turn<
    CommitPoint,
>)
    ensures
        (r@, sess@) == live_check(reading@, facts@, sess@),
{
    let fx = no_effects();
    match facts.bg {
        BgStatus::Done => ask(
            fx,
            AskOf::Take { key: reading.clone() },
            CommitPointOf::LiveTaken { reading },
        ),
        _ => plain_commit_turn(fx, facts, sess),
    }
}

/// Enter: goes on at `point` with the answer to what was asked last.
pub fn on_commit_raw(
    point: CommitPoint,
    reply: Reply,
    facts: &EngineFacts,
    env: &CommitEnv,
    sess: &mut SessionState,
) -> (r: Turn<CommitPoint>)
    requires
        point@.fits(reply@),
        old(sess)@.wf(),
    ensures
        (r@, final(sess)@) == commit_turn(point@, reply@, facts@, *env, old(sess)@),
        final(sess)@.wf(),
{
    let mut fx = no_effects();
    match point {
        CommitPointOf::Enter => commit_session(env, sess),
        CommitPointOf::Flushed => {
            emit(&mut fx, EffectOf::SuppressLiveCommit { on: false });
            if env.suppressed || !env.live_enabled || facts.hiragana.as_str().is_empty() {
                return plain_commit_turn(fx, facts, sess);
            }
            if facts.kanji_ready {
                match facts.bg {
                    BgStatus::Idle => {
                        emit(&mut fx, EffectOf::StartBg { candidates: env.num_candidates });
                    },
                    _ => {},
                }
            }
            ask(
                fx,
                AskOf::Observe,
                CommitPointOf::LiveStarted { reading: facts.hiragana.clone() },
            )
        },
        CommitPointOf::LiveStarted { reading } => {
            let busy = match facts.bg {
                BgStatus::Running => true,
                BgStatus::Idle => true,
                _ => false,
            };
            if busy {
                ask(
                    fx,
                    AskOf::Wait { ms: LIVE_COMMIT_WAIT_MS },
                    CommitPointOf::LiveWaited { reading },
                )
            } else {
                live_check_turn(reading, facts, sess)
            }
        },
        CommitPointOf::LiveWaited { reading } => live_check_turn(reading, facts, sess),
        CommitPointOf::LiveTaken { reading } => {
            if let Some(items) = found_of(reply) {
                if items.len() > 0 && !items[0].as_str().is_empty() && items[0] != reading {
                    sess.set_idle();
                    emit_live_committed(&mut fx, &reading, items[0].clone(), env.auto_learn);
                    return done(fx, true);
                }
            }
            plain_commit_turn(fx, facts, sess)
        },
    }
}

/// What choosing the `n`-th candidate of the open page does.
pub open spec fn candidate_select_turn(
    n: u8,
    facts: FactsModel,
    env: CommitEnv,
    sess: SessionModel,
) -> CommitTurn {
    if sess.list_shape() is None {
        (done_model(seq![], !facts.preedit_empty), sess)
    } else if !sess.has_nth(n as int) {
        (done_model(seq![], true), sess)
    } else {
        let chosen = sess.nth_selected(n as int);
        let text = chosen.current_or_original();
        match chosen {
            SessionModel::Selecting(s) => (
                done_model(
                    choice_effects(
                        learnt(s.original_preedit, text, env.auto_learn).push(
                            EffectOf::HideWindow,
                        ),
                        s,
                        env.live_beam,
                    ),
                    true,
                ),
                after_choice(s),
            ),
            _ => (
                done_model(
                    learnt(Seq::empty(), text, env.auto_learn).push(EffectOf::HideWindow)
                        + committed(text),
                    true,
                ),
                SessionModel::Idle,
            ),
        }
    }
}

/// A number key: commits the `n`-th candidate of the open page.
pub fn on_candidate_select(
    n: u8,
    facts: &EngineFacts,
    env: &CommitEnv,
    sess: &mut SessionState,
) -> (r: Turn<CommitPoint>)
    requires
        old(sess)@.wf(),
    ensures
        (r@, final(sess)@) == candidate_select_turn(n, facts@, *env, old(sess)@),
        final(sess)@.wf(),
{
    let mut fx = no_effects();
    if !sess.is_candidate_list_active() {
        return done(fx, !facts.preedit_empty);
    }
    if !sess.select_nth_in_page(n as usize) {
        return done(fx, true);
    }
    let text = sess.current_or_original();
    let reading = match sess.original_preedit() {
        Some(t) => t.to_owned(),
        None => String::new(),
    };
    emit_learn(&mut fx, &reading, &text, env.auto_learn);
    proof {
        let l = learnt(reading@, text@, env.auto_learn);
        assert(Seq::<EffectModel>::empty() + l == l);
    }
    emit(&mut fx, EffectOf::HideWindow);
    if sess.is_selecting() {
        emit_choice(&mut fx, env.live_beam, sess);
    } else {
        sess.set_idle();
        emit_committed(&mut fx, text);
    }
    done(fx, true)
}

/// Whatever the engine answers, Enter can be resumed with it, and it finishes after a
/// bounded number of turns.
pub proof fn commit_runs_to_its_end(
    point: CommitPointModel,
    reply: ReplyModel,
    facts: FactsModel,
    env: CommitEnv,
    sess: SessionModel,
)
    requires
        point.fits(reply),
    ensures
        match commit_turn(point, reply, facts, env, sess).0.next {
            NextModel::Done { .. } => true,
            NextModel::Ask { ask, then } => {
                &&& then.turns_left() < point.turns_left()
                &&& forall|answer: ReplyModel| #[trigger]
                    answers(ask, answer) ==> then.fits(answer)
            },
        },
{
}

/// The kana go into the document as they are, and a choice or a conversion that is waited
/// for is given up.
pub fn engine_commit_hiragana(facts: &EngineFacts, sess: &mut SessionState) -> (r: Vec<Effect>)
    ensures
        views(r@) == (if facts@.preedit.len() == 0 {
            seq![]
        } else {
            seq![EffectModel::Reclaim] + committed(facts@.preedit)
        }),
        final(sess)@ == (if old(sess)@ is Waiting || old(sess)@ is Selecting {
            SessionModel::Idle
        } else {
            old(sess)@
        }),
{
    if sess.is_waiting() || sess.is_selecting() {
        sess.set_idle();
    }
    let mut fx = no_effects();
    proof {
        reveal_strlit("");
        assert(facts@.preedit.len() == 0 ==> facts@.preedit =~= ""@);
    }
    if crate::text::same(facts.preedit.as_str(), "") {
        return fx;
    }
    emit(&mut fx, EffectOf::Reclaim);
    emit_committed(&mut fx, facts.preedit.clone());
    assert(views(fx@) =~= seq![EffectModel::Reclaim] + committed(facts@.preedit));
    fx
}

/// Enter on an open choice puts prefix, candidate and pending punctuation into the
/// document, in this order, and loses nothing of what was left over: it is committed
/// behind them or composed on.
pub proof fn choice_is_committed_whole(s: SelectingModel, env: CommitEnv)
    ensures
        ({
            let (turn, after) = commit_session_turn(env, SessionModel::Selecting(s));
            let chosen = s.prefix + choice_text(s) + punct_text(s.punct_pending);
            if s.remainder_reading.len() == 0 {
                &&& turn.effects.last() == (EffectOf::<Seq<char>, Seq<Seq<char>>>::EndComposition {
                    text: chosen + s.remainder,
                })
                &&& after == SessionModel::Idle
            } else {
                &&& turn.effects.last() == (EffectOf::<
                    Seq<char>,
                    Seq<Seq<char>>,
                >::CommitThenCompose { commit: chosen })
                &&& after == (SessionModel::Preedit { text: s.remainder_reading })
            }
        }),
{
    let chosen = s.prefix + choice_text(s) + punct_text(s.punct_pending);
    assert(confirmed_text(s) == chosen);
}

/// Enter on a marked range puts the marked part into the document and loses nothing of the
/// reading: what is not marked is what the engine, the composition and the session go on with.
/// Where nothing is marked, the key is left alone.
pub proof fn marked_part_goes_and_rest_stays(
    w: World,
    facts: FactsModel,
    reply: ReplyModel,
    env: CommitEnv,
    reading: Seq<char>,
    end: int,
    preview: Seq<char>,
)
    requires
        0 <= end <= reading.len(),
    ensures
        ({
            let sess = SessionModel::RangeSelect {
                full_reading: reading,
                select_end: end,
                original_preview: preview,
            };
            let (turn, after) = commit_turn(CommitPointOf::Enter, reply, facts, env, sess);
            let then = played(w, turn.effects);
            if end == 0 {
                &&& turn.next == NextModel::<CommitPointModel>::Done { eaten: false }
                &&& turn.effects.len() == 0
                &&& after == sess
            } else {
                &&& turn.next == NextModel::<CommitPointModel>::Done { eaten: true }
                &&& then.document + then.engine == w.document + reading
                &&& then.document == w.document + reading.take(end)
                &&& then.composition == then.engine
                &&& then.told == w.told.push(reading.take(end))
                &&& then.window is None
                &&& end == reading.len() ==> after is Idle
                &&& end < reading.len() ==> after == (SessionModel::Preedit { text: then.engine })
                    && then.background == Some(env.live_beam)
            }
        }),
{
    reveal_with_fuel(played_to, 9);
    assert(reading.take(end) + reading.skip(end) =~= reading);
    assert(Seq::<char>::empty() + reading.skip(end) =~= reading.skip(end));
    assert((w.document + reading.take(end)) + reading.skip(end) =~= w.document + reading);
}

/// Enter on a live preview puts the preview into the document in place of its reading; that
/// the two belong together is remembered where they differ and it is wanted. Without a
/// preview the key is left alone.
pub proof fn live_preview_goes_into_document(
    w: World,
    facts: FactsModel,
    reply: ReplyModel,
    env: CommitEnv,
    reading: Seq<char>,
    preview: Seq<char>,
)
    ensures
        ({
            let sess = SessionModel::LiveConv { reading, preview };
            let (turn, after) = commit_turn(CommitPointOf::Enter, reply, facts, env, sess);
            let then = played(w, turn.effects);
            if preview.len() == 0 {
                &&& turn.next == NextModel::<CommitPointModel>::Done { eaten: false }
                &&& turn.effects.len() == 0
                &&& after == sess
            } else {
                &&& turn.next == NextModel::<CommitPointModel>::Done { eaten: true }
                &&& after is Idle
                &&& then == (World {
                    document: w.document + preview,
                    composition: Seq::empty(),
                    engine: Seq::empty(),
                    told: w.told.push(preview),
                    learnt: if preview != reading && env.auto_learn {
                        w.learnt.push((reading, preview))
                    } else {
                        w.learnt
                    },
                    window: None,
                    live: false,
                    ..w
                })
            }
        }),
{
    reveal_with_fuel(played_to, 9);
}

/// Enter while a conversion is waited for commits the text as it was typed and gives the
/// conversion up.
pub proof fn awaited_text_goes_as_typed(
    w: World,
    facts: FactsModel,
    reply: ReplyModel,
    env: CommitEnv,
    sess: SessionModel,
)
    requires
        sess is Waiting,
    ensures
        ({
            let (turn, after) = commit_turn(CommitPointOf::Enter, reply, facts, env, sess);
            &&& turn.next == NextModel::<CommitPointModel>::Done { eaten: true }
            &&& after is Idle
            &&& played(w, turn.effects) == (World {
                document: w.document + sess->Waiting_text,
                composition: Seq::empty(),
                engine: Seq::empty(),
                told: w.told.push(sess->Waiting_text),
                window: None,
                background: None,
                ..w
            })
        }),
{
    reveal_with_fuel(played_to, 9);
}

/// A sign that waits for the choice, as a text.
pub open spec fn sign_of(s: SelectingModel) -> Seq<char> {
    if s.punct_pending is Some {
        Seq::empty().push(s.punct_pending->0)
    } else {
        Seq::empty()
    }
}

/// What the world has become once `chosen` is committed for the open choice `s`.
pub open spec fn choice_made(
    w: World,
    then: World,
    after: SessionModel,
    s: SelectingModel,
    chosen: Seq<char>,
    env: CommitEnv,
) -> bool {
    let whole = s.prefix + chosen + sign_of(s);
    &&& s.remainder_reading.len() == 0 ==> after is Idle && then.document == w.document + whole
        + s.remainder && then.told == w.told.push(whole + s.remainder)
    &&& s.remainder_reading.len() > 0 ==> after == (SessionModel::Preedit {
        text: s.remainder_reading,
    }) && then.document == w.document + whole && then.told == w.told.push(whole)
        && then.background == Some(env.live_beam)
    &&& then.engine == s.remainder_reading
    &&& then.composition == s.remainder_reading
    &&& then.window is None
    &&& then.learnt == if chosen != s.original_preedit && env.auto_learn {
        w.learnt.push((s.original_preedit, chosen))
    } else {
        w.learnt
    }
}

/// Enter on an open choice puts the selected candidate into the document, between what stands
/// before it and the sign that waits for it. What was left over is composed on where it has a
/// reading, and else goes into the document behind.
pub proof fn selected_candidate_is_committed(
    w: World,
    facts: FactsModel,
    reply: ReplyModel,
    env: CommitEnv,
    s: SelectingModel,
)
    requires
        0 <= s.selected < s.candidates.len(),
    ensures
        ({
            let (turn, after) = commit_turn(
                CommitPointOf::Enter,
                reply,
                facts,
                env,
                SessionModel::Selecting(s),
            );
            &&& turn.next == NextModel::<CommitPointModel>::Done { eaten: true }
            &&& choice_made(
                w,
                played(w, turn.effects),
                after,
                s,
                s.candidates[s.selected],
                env,
            )
            &&& !played(w, turn.effects).live
        }),
{
    reveal_with_fuel(played_to, 10);
    let chosen = s.candidates[s.selected];
    let whole = s.prefix + chosen + sign_of(s);
    assert(punct_text(s.punct_pending) =~= sign_of(s));
    assert(confirmed_text(s) =~= whole);
    assert(Seq::<char>::empty() + s.remainder_reading =~= s.remainder_reading);
    assert((w.document + whole) + s.remainder =~= w.document + (whole + s.remainder));
}

/// Without candidates Enter on an open choice commits what was typed.
pub proof fn typed_text_stands_in_for_candidates(
    w: World,
    facts: FactsModel,
    reply: ReplyModel,
    env: CommitEnv,
    s: SelectingModel,
)
    requires
        s.candidates.len() == 0,
    ensures
        ({
            let (turn, after) = commit_turn(
                CommitPointOf::Enter,
                reply,
                facts,
                env,
                SessionModel::Selecting(s),
            );
            choice_made(w, played(w, turn.effects), after, s, s.original_preedit, env)
        }),
{
    reveal_with_fuel(played_to, 10);
    let whole = s.prefix + s.original_preedit + sign_of(s);
    assert(punct_text(s.punct_pending) =~= sign_of(s));
    assert(confirmed_text(s) =~= whole);
    assert(Seq::<char>::empty() + s.remainder_reading =~= s.remainder_reading);
    assert((w.document + whole) + s.remainder =~= w.document + (whole + s.remainder));
}

/// A number key on an open choice does with the candidate that stands at that number on the
/// open page what Enter does with the selected one. A number without a candidate does
/// nothing.
pub proof fn numbered_candidate_is_committed(
    w: World,
    n: u8,
    facts: FactsModel,
    env: CommitEnv,
    s: SelectingModel,
)
    requires
        s.wf(),
    ensures
        ({
            let first = s.selected - s.selected % s.page_size;
            let at = first + n - 1;
            let sess = SessionModel::Selecting(s);
            let (turn, after) = candidate_select_turn(n, facts, env, sess);
            &&& turn.next == NextModel::<CommitPointModel>::Done { eaten: true }
            &&& n >= 1 && at < s.candidates.len() ==> choice_made(
                w,
                played(w, turn.effects),
                after,
                s,
                s.candidates[at],
                env,
            )
            &&& n == 0 || at >= s.candidates.len() ==> turn.effects.len() == 0 && after == sess
        }),
{
    reveal_with_fuel(played_to, 10);
    lemma_page_start(s.selected, s.page_size);
    let first = s.selected - s.selected % s.page_size;
    let at = first + n - 1;
    if n >= 1 && at < s.candidates.len() {
        let chosen = s.candidates[at];
        let whole = s.prefix + chosen + sign_of(s);
        let t = s.select(at);
        assert(punct_text(t.punct_pending) =~= sign_of(s));
        assert(confirmed_text(t) =~= whole);
        assert(Seq::<char>::empty() + s.remainder_reading =~= s.remainder_reading);
        assert((w.document + whole) + s.remainder =~= w.document + (whole + s.remainder));
    }
}

proof fn lemma_page_start(selected: int, size: int)
    requires
        selected >= 0,
        size > 0,
    ensures
        crate::engine::paging::page_start(selected, size) == selected - selected % size,
        selected - selected % size >= 0,
{
    assert((selected / size) * size == selected - selected % size) by (nonlinear_arith)
        requires
            size > 0,
            selected >= 0,
    ;
    assert(selected % size <= selected) by (nonlinear_arith)
        requires
            size > 0,
            selected >= 0,
    ;
}

/// A number key on the candidates of a split composition commits the candidate at that number
/// and ends the composition. Where no candidates are shown, the key does nothing, and is used
/// up while something is composed.
pub proof fn numbered_segment_is_committed(
    w: World,
    n: u8,
    facts: FactsModel,
    env: CommitEnv,
    sess: SessionModel,
)
    requires
        sess.wf(),
        !(sess is Selecting),
    ensures
        ({
            let (turn, after) = candidate_select_turn(n, facts, env, sess);
            match sess {
                SessionModel::Split(s) => match s.list {
                    Some(l) => {
                        let at = l.selected - l.selected % l.page_size + n - 1;
                        &&& turn.next == NextModel::<CommitPointModel>::Done { eaten: true }
                        &&& n >= 1 && at < l.items.len() ==> {
                            let text = l.items[at].surface;
                            &&& after is Idle
                            &&& played(w, turn.effects).document == w.document + text
                            &&& played(w, turn.effects).told == w.told.push(text)
                            &&& played(w, turn.effects).engine.len() == 0
                            &&& played(w, turn.effects).window is None
                        }
                        &&& n == 0 || at >= l.items.len() ==> turn.effects.len() == 0 && after
                            == sess
                    },
                    None => turn.next == (NextModel::<CommitPointModel>::Done {
                        eaten: !facts.preedit_empty,
                    }) && turn.effects.len() == 0 && after == sess,
                },
                _ => turn.next == (NextModel::<CommitPointModel>::Done {
                    eaten: !facts.preedit_empty,
                }) && turn.effects.len() == 0 && after == sess,
            }
        }),
{
    reveal_with_fuel(played_to, 9);
    if let SessionModel::Split(s) = sess {
        if let Some(l) = s.list {
            lemma_page_start(l.selected, l.page_size);
        }
    }
}

proof fn lemma_committed(w: World, before: Seq<EffectModel>, text: Seq<char>)
    ensures
        played(w, before + committed(text)) == ({
            let b = played(w, before);
            World {
                document: b.document + text,
                composition: Seq::empty(),
                engine: Seq::empty(),
                told: b.told.push(text),
                ..b
            }
        }),
{
    reveal_with_fuel(played_to, 5);
    played_in_turn(w, before, committed(text));
}

/// Enter on typed text comes to an end with one text in the document: what is composed, as
/// long as no conversion of it has been taken. Only where nothing is composed is the key left
/// alone. Until the end nothing changes in the document or the session.
pub proof fn composed_text_is_committed(
    w: World,
    point: CommitPointModel,
    reply: ReplyModel,
    facts: FactsModel,
    env: CommitEnv,
    sess: SessionModel,
)
    requires
        point is Flushed || point is LiveStarted || point is LiveWaited,
    ensures
        ({
            let (turn, after) = commit_turn(point, reply, facts, env, sess);
            let then = played(w, turn.effects);
            &&& after == sess
            &&& then.learnt == w.learnt
            &&& match turn.next {
                NextModel::Done { eaten } => {
                    &&& eaten == (facts.preedit.len() > 0)
                    &&& eaten ==> entered(w, then, facts.preedit) && then.background is None
                    &&& !eaten ==> then.document == w.document && then.told == w.told
                },
                NextModel::Ask { .. } => then.document == w.document && then.told == w.told,
            }
        }),
{
    reveal_with_fuel(played_to, 4);
    let released = Seq::<EffectModel>::empty().push(EffectOf::SuppressLiveCommit { on: false });
    lemma_committed(w, released.push(EffectOf::Reclaim), facts.preedit);
    lemma_committed(w, Seq::<EffectModel>::empty().push(EffectOf::Reclaim), facts.preedit);
}

/// `text` is in the document, and nothing is composed any more.
pub open spec fn entered(w: World, then: World, text: Seq<char>) -> bool {
    &&& then.document == w.document + text
    &&& then.told == w.told.push(text)
    &&& then.engine.len() == 0
    &&& then.composition.len() == 0
}

/// A finished live conversion goes into the document with its best candidate, which is
/// remembered; where it brings nothing but the reading, what is composed does.
pub proof fn live_conversion_is_committed(
    w: World,
    reading: Seq<char>,
    items: Seq<Seq<char>>,
    facts: FactsModel,
    env: CommitEnv,
    sess: SessionModel,
)
    ensures
        ({
            let (turn, after) = commit_turn(
                CommitPointOf::LiveTaken { reading },
                ReplyOf::Taken { found: Some(items) },
                facts,
                env,
                sess,
            );
            let then = played(w, turn.effects);
            if items.len() > 0 && items[0].len() > 0 && items[0] != reading {
                &&& turn.next == NextModel::<CommitPointModel>::Done { eaten: true }
                &&& after is Idle
                &&& entered(w, then, items[0])
                &&& then.window is None
                &&& !then.live
                &&& then.learnt == if env.auto_learn {
                    w.learnt.push((reading, items[0]))
                } else {
                    w.learnt
                }
            } else {
                &&& turn.next == NextModel::<CommitPointModel>::Done {
                    eaten: facts.preedit.len() > 0,
                }
                &&& after == sess
                &&& facts.preedit.len() > 0 ==> entered(w, then, facts.preedit)
                &&& then.learnt == w.learnt
            }
        }),
        commit_turn(
            CommitPointOf::LiveTaken { reading },
            ReplyOf::Taken { found: None },
            facts,
            env,
            sess,
        ) == commit_turn(
            CommitPointOf::LiveTaken { reading },
            ReplyOf::Taken { found: Some(Seq::empty()) },
            facts,
            env,
            sess,
        ),
{
    reveal_with_fuel(played_to, 4);
    lemma_committed(w, Seq::<EffectModel>::empty().push(EffectOf::Reclaim), facts.preedit);
    if items.len() > 0 {
        let off = seq![EffectModel::HideWindow, EffectModel::StopLiveTimer];
        let before = off + learnt(reading, items[0], env.auto_learn);
        lemma_committed(w, before, items[0]);
        played_in_turn(w, off, learnt(reading, items[0], env.auto_learn));
    }
}

/// Enter waits for a live conversion only where live conversion is on, kana are composed and
/// no key has rewritten them; the conversion that is taken is that of the composed kana, once
/// it is finished. From then on Enter waits for live conversions again.
pub proof fn enter_takes_the_live_conversion(
    w: World,
    reply: ReplyModel,
    facts: FactsModel,
    env: CommitEnv,
    sess: SessionModel,
    reading: Seq<char>,
)
    ensures
        ({
            let (turn, after) = commit_turn(CommitPointOf::Flushed, reply, facts, env, sess);
            &&& turn.next is Ask <==> env.live_enabled && !env.suppressed && facts.hiragana.len()
                > 0
            &&& turn.next is Ask ==> turn.next->then == (CommitPointOf::LiveStarted {
                reading: facts.hiragana,
            })
            &&& !played(w, turn.effects).suppressed
            &&& turn.next is Ask ==> played(w, turn.effects).background == (if facts.kanji_ready
                && facts.bg is Idle {
                Some(env.num_candidates)
            } else {
                w.background
            })
        }),
        ({
            let started = commit_turn(
                CommitPointOf::LiveStarted { reading },
                reply,
                facts,
                env,
                sess,
            ).0;
            &&& facts.bg is Running || facts.bg is Idle ==> started.next == NextModel::Ask {
                ask: AskOf::Wait { ms: 180 },
                then: CommitPointOf::LiveWaited { reading },
            }
            &&& facts.bg is Done ==> started.next == NextModel::Ask {
                ask: AskOf::Take { key: reading },
                then: CommitPointOf::LiveTaken { reading },
            }
            &&& facts.bg is Other ==> started.next is Done
        }),
        ({
            let waited = commit_turn(
                CommitPointOf::LiveWaited { reading },
                reply,
                facts,
                env,
                sess,
            ).0;
            if facts.bg is Done {
                waited.next == NextModel::Ask {
                    ask: AskOf::Take { key: reading },
                    then: CommitPointOf::LiveTaken { reading },
                }
            } else {
                waited.next is Done
            }
        }),
        ({
            let (turn, after) = commit_turn(CommitPointOf::Enter, reply, facts, env, sess);
            sess is Idle || sess is Preedit || sess is Split ==> turn.next == NextModel::<CommitPointModel>::Ask {
                ask: AskOf::Observe,
                then: CommitPointOf::Flushed,
            } && turn.effects.contains(EffectOf::FlushPending) && after == sess
        }),
{
    reveal_with_fuel(played_to, 9);
    let first = commit_turn(CommitPointOf::Enter, reply, facts, env, sess).0;
    if sess is Idle || sess is Preedit || sess is Split {
        assert(first.effects[0] == EffectOf::<Seq<char>, Seq<Seq<char>>>::FlushPending);
    }
}

} // verus!
