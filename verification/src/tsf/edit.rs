//! Keys that change what is composed: Backspace, Escape and the F6 to F10 keys.

use crate::engine::conversion::views;
use crate::engine::state::{SessionModel, SessionState};
use crate::engine::text_util;
use crate::engine::text_util::{
    full_latin_text, half_katakana_text, half_latin_text, hiragana_text, holds_kana,
    katakana_text, next_full_latin, next_half_latin, small_text,
};
use crate::text::{after_prefix, concat2, concat3, starts_with};
use crate::tsf::commit::{committed, emit_committed};
use crate::tsf::effects::{
    ask, ask_model, done, done_model, emit, no_effects, AskOf, Effect, EffectModel, EffectOf,
    EngineFacts, FactsModel, NextModel, Reply, ReplyModel, ReplyOf, Turn, TurnModel,
};
use crate::tsf::world::{played, played_to, World};
use vstd::prelude::*;

verus! {

/// Where an editing key continues.
#[derive(Clone, Copy, Debug, PartialEq)]
pub enum EditPoint {
    Enter,
    /// Pending letters are settled.
    Flushed,
    /// The engine was asked to delete a letter.
    Erased,
    /// A letter was deleted.
    Shown,
}

impl View for EditPoint {
    type V = EditPoint;

    open spec fn view(&self) -> EditPoint {
        *self
    }
}

pub type EditTurn = (TurnModel<EditPoint>, SessionModel);

/// What Backspace does when it is pressed.
pub open spec fn backspace_start(sess: SessionModel) -> EditTurn {
    let bump = seq![EffectOf::BumpGeneration];
    match sess {
        SessionModel::LiveConv { reading, .. } => (
            ask_model(
                bump.push(EffectOf::StopLiveTimer).push(EffectOf::ClearPreview).push(
                    EffectOf::UpdateComposition { text: reading },
                ),
                AskOf::Backspace,
                EditPoint::Erased,
            ),
            SessionModel::Preedit { text: reading },
        ),
        SessionModel::RangeSelect { full_reading, original_preview, .. } => (
            done_model(
                bump.push(EffectOf::HideWindow).push(
                    EffectOf::UpdateComposition { text: original_preview },
                ),
                true,
            ),
            SessionModel::LiveConv { reading: full_reading, preview: original_preview },
        ),
        SessionModel::Selecting(s) => (
            done_model(
                bump.push(EffectOf::HideWindow).push(
                    EffectOf::UpdateComposition { text: s.original_preedit },
                ),
                true,
            ),
            SessionModel::Preedit { text: s.original_preedit },
        ),
        SessionModel::Waiting { text, .. } => (
            ask_model(bump.push(EffectOf::HideWindow), AskOf::Backspace, EditPoint::Erased),
            SessionModel::Preedit { text },
        ),
        _ => (ask_model(bump, AskOf::Backspace, EditPoint::Erased), sess),
    }
}

/// What Backspace does at `point` with the answer `reply`.
pub open spec fn backspace_turn(
    point: EditPoint,
    reply: ReplyModel,
    facts: FactsModel,
    sess: SessionModel,
) -> EditTurn {
    match point {
        EditPoint::Erased => if reply is Flag && reply->on {
            (ask_model(seq![EffectOf::Reclaim], AskOf::Observe, EditPoint::Shown), sess)
        } else {
            (done_model(seq![], false), sess)
        },
        EditPoint::Shown => (
            done_model(
                if facts.preedit.len() == 0 {
                    seq![EffectOf::EndComposition { text: Seq::empty() }]
                } else {
                    seq![EffectOf::UpdateComposition { text: facts.preedit }]
                },
                true,
            ),
            sess,
        ),
        _ => backspace_start(sess),
    }
}

fn restore_live(fx: &mut Vec<Effect>, sess: &mut SessionState)
    requires
        old(sess)@ is RangeSelect,
    ensures
        final(sess)@ == (SessionModel::LiveConv {
            reading: old(sess)@->full_reading,
            preview: old(sess)@->original_preview,
        }),
        views(final(fx)@) == views(old(fx)@).push(EffectOf::HideWindow).push(
            EffectOf::UpdateComposition { text: old(sess)@->original_preview },
        ),
{
    let (reading, preview) = match sess {
        SessionState::RangeSelect { full_reading, original_preview, .. } => (
            full_reading.clone(),
            original_preview.clone(),
        ),
        _ => (String::new(), String::new()),
    };
    sess.set_live_conv(reading, preview.clone());
    emit(fx, EffectOf::HideWindow);
    emit(fx, EffectOf::UpdateComposition { text: preview });
}

fn typed_text(sess: &SessionState) -> (r: String)
    ensures
        r@ == (match sess@.original() {
            Some(t) => t,
            None => Seq::empty(),
        }),
{
    match sess.original_preedit() {
        Some(t) => t.to_owned(),
        None => String::new(),
    }
}

/// Backspace: goes on at `point` with the answer to what was asked last. In a choice
/// or a live conversion it gives the typed text back first.
pub fn on_backspace(
    point: EditPoint,
    reply: Reply,
    facts: &EngineFacts,
    sess: &mut SessionState,
) -> (r: Turn<EditPoint>)
    ensures
        (r@, final(sess)@) == backspace_turn(point, reply@, facts@, old(sess)@),
        old(sess)@.wf() ==> final(sess)@.wf(),
{
    let mut fx = no_effects();
    match point {
        EditPoint::Erased => {
            let erased = match reply {
                crate::tsf::effects::ReplyOf::Flag { on } => on,
                _ => false,
            };
            if !erased {
                return done(fx, false);
            }
            emit(&mut fx, EffectOf::Reclaim);
            ask(fx, AskOf::Observe, EditPoint::Shown)
        },
        EditPoint::Shown => {
            if facts.preedit.as_str().is_empty() {
                emit(&mut fx, EffectOf::EndComposition { text: String::new() });
            } else {
                emit(&mut fx, EffectOf::UpdateComposition { text: facts.preedit.clone() });
            }
            done(fx, true)
        },
        _ => {
            emit(&mut fx, EffectOf::BumpGeneration);
            if sess.is_live_conv() {
                let reading = typed_text(sess);
                sess.set_preedit(reading.clone());
                emit(&mut fx, EffectOf::StopLiveTimer);
                emit(&mut fx, EffectOf::ClearPreview);
                emit(&mut fx, EffectOf::UpdateComposition { text: reading });
                return ask(fx, AskOf::Backspace, EditPoint::Erased);
            }
            if sess.is_range_select() {
                restore_live(&mut fx, sess);
                return done(fx, true);
            }
            if sess.is_selecting() {
                let original = typed_text(sess);
                sess.set_preedit(original.clone());
                emit(&mut fx, EffectOf::HideWindow);
                emit(&mut fx, EffectOf::UpdateComposition { text: original });
                return done(fx, true);
            }
            if sess.is_waiting() {
                let pre = typed_text(sess);
                sess.set_preedit(pre);
                emit(&mut fx, EffectOf::HideWindow);
            }
            ask(fx, AskOf::Backspace, EditPoint::Erased)
        },
    }
}

/// Everything that is composed is thrown away.
pub open spec fn thrown_away() -> Seq<EffectModel> {
    seq![
        EffectOf::Reclaim,
        EffectOf::ResetAll,
        EffectOf::EndComposition { text: Seq::empty() },
    ]
}

/// What Escape does: a conversion is undone; what is not converted is thrown away.
pub open spec fn cancel_turn(facts: FactsModel, sess: SessionModel) -> EditTurn {
    match sess {
        SessionModel::LiveConv { reading, .. } => (
            done_model(
                seq![
                    EffectOf::StopLiveTimer,
                    EffectOf::ClearPreview,
                    EffectOf::UpdateComposition { text: reading },
                ],
                true,
            ),
            SessionModel::Preedit { text: reading },
        ),
        SessionModel::RangeSelect { full_reading, original_preview, .. } => (
            done_model(
                seq![
                    EffectOf::HideWindow,
                    EffectOf::UpdateComposition { text: original_preview },
                ],
                true,
            ),
            SessionModel::LiveConv { reading: full_reading, preview: original_preview },
        ),
        SessionModel::Selecting(s) => {
            let full = s.prefix + s.original_preedit + s.remainder;
            (
                done_model(
                    seq![
                        EffectOf::HideWindow,
                        EffectOf::Reclaim,
                        EffectOf::ForcePreedit { text: full },
                        EffectOf::UpdateComposition { text: full },
                    ],
                    true,
                ),
                SessionModel::Preedit { text: full },
            )
        },
        SessionModel::Waiting { text, .. } => if text.len() == 0 {
            (done_model(thrown_away(), true), SessionModel::Idle)
        } else {
            (
                done_model(
                    seq![
                        EffectOf::HideWindow,
                        EffectOf::StopWaitingTimer,
                        EffectOf::UpdateComposition { text },
                    ],
                    true,
                ),
                SessionModel::Preedit { text },
            )
        },
        _ => if facts.preedit_empty {
            (done_model(seq![], false), sess)
        } else {
            (done_model(thrown_away(), true), sess)
        },
    }
}

fn emit_thrown_away(fx: &mut Vec<Effect>)
    requires
        views(old(fx)@) == Seq::<EffectModel>::empty(),
    ensures
        views(final(fx)@) == thrown_away(),
{
    emit(fx, EffectOf::Reclaim);
    emit(fx, EffectOf::ResetAll);
    emit(fx, EffectOf::EndComposition { text: String::new() });
}

/// Escape.
pub fn on_cancel(facts: &EngineFacts, sess: &mut SessionState) -> (r: Turn<EditPoint>)
    ensures
        (r@, final(sess)@) == cancel_turn(facts@, old(sess)@),
        old(sess)@.wf() ==> final(sess)@.wf(),
{
    let mut fx = no_effects();
    if sess.is_live_conv() {
        let reading = typed_text(sess);
        sess.set_preedit(reading.clone());
        emit(&mut fx, EffectOf::StopLiveTimer);
        emit(&mut fx, EffectOf::ClearPreview);
        emit(&mut fx, EffectOf::UpdateComposition { text: reading });
        return done(fx, true);
    }
    if sess.is_range_select() {
        restore_live(&mut fx, sess);
        return done(fx, true);
    }
    if sess.is_selecting() {
        let full = concat3(
            sess.selecting_prefix_clone().as_str(),
            typed_text(sess).as_str(),
            sess.selecting_remainder_clone().as_str(),
        );
        sess.set_preedit(full.clone());
        emit(&mut fx, EffectOf::HideWindow);
        emit(&mut fx, EffectOf::Reclaim);
        emit(&mut fx, EffectOf::ForcePreedit { text: full.clone() });
        emit(&mut fx, EffectOf::UpdateComposition { text: full });
        return done(fx, true);
    }
    if sess.is_waiting() {
        let pre = typed_text(sess);
        if pre.as_str().is_empty() {
            sess.set_idle();
            emit_thrown_away(&mut fx);
            return done(fx, true);
        }
        sess.set_preedit(pre.clone());
        emit(&mut fx, EffectOf::HideWindow);
        emit(&mut fx, EffectOf::StopWaitingTimer);
        emit(&mut fx, EffectOf::UpdateComposition { text: pre });
        return done(fx, true);
    }
    if facts.preedit_empty {
        return done(fx, false);
    }
    emit_thrown_away(&mut fx);
    done(fx, true)
}

/// The keys that rewrite what is composed.
#[derive(Clone, Copy, Debug, PartialEq, Eq, Structural)]
pub enum RewriteKey {
    /// F6.
    Hiragana,
    /// F7.
    Katakana,
    /// F8.
    HalfKatakana,
    /// F9.
    FullLatin,
    /// F10.
    HalfLatin,
}

/// What the engine remembers of the keys that were typed.
#[derive(Debug, PartialEq)]
pub struct RomajiLog {
    /// The kana that the typed letters make up.
    pub hiragana: String,
    /// The typed letters.
    pub letters: String,
}

#[verifier::ext_equal]
pub struct RomajiLogModel {
    pub hiragana: Seq<char>,
    pub letters: Seq<char>,
}

impl View for RomajiLog {
    type V = RomajiLogModel;

    open spec fn view(&self) -> RomajiLogModel {
        RomajiLogModel { hiragana: self.hiragana@, letters: self.letters@ }
    }
}

/// The kana that a kana key rewrites: what is composed, or what the typed letters make
/// up where a letter key has removed the kana.
pub open spec fn kana_source(p: Seq<char>, log: RomajiLogModel) -> Seq<char> {
    if holds_kana(p) || log.hiragana.len() == 0 {
        p
    } else {
        log.hiragana
    }
}

/// The letters behind composed kana: those that were typed for them, and those that
/// make up no kana yet.
pub open spec fn letters_of(p: Seq<char>, log: RomajiLogModel) -> Seq<char> {
    log.letters + if starts_with(p, log.hiragana) {
        p.skip(log.hiragana.len() as int)
    } else {
        Seq::empty()
    }
}

/// What `key` makes of the composed text `p`.
pub open spec fn rewritten(key: RewriteKey, p: Seq<char>, log: RomajiLogModel) -> Seq<char> {
    match key {
        RewriteKey::Hiragana => hiragana_text(kana_source(p, log)),
        RewriteKey::Katakana => katakana_text(kana_source(p, log)),
        RewriteKey::HalfKatakana => half_katakana_text(kana_source(p, log)),
        RewriteKey::FullLatin => if holds_kana(p) {
            full_latin_text(small_text(letters_of(p, log)))
        } else {
            next_full_latin(p)
        },
        RewriteKey::HalfLatin => if holds_kana(p) {
            half_latin_text(small_text(letters_of(p, log)))
        } else {
            next_half_latin(p)
        },
    }
}

/// What a rewriting key does at `point`.
pub open spec fn rewrite_turn(
    point: EditPoint,
    key: RewriteKey,
    facts: FactsModel,
    log: RomajiLogModel,
    sess: SessionModel,
) -> EditTurn {
    match point {
        EditPoint::Flushed => if facts.preedit.len() == 0 {
            (done_model(seq![], false), sess)
        } else {
            let t = rewritten(key, facts.preedit, log);
            let before = seq![
                EffectOf::Reclaim,
                EffectOf::ForcePreedit { text: t },
                EffectOf::SuppressLiveCommit { on: true },
            ];
            let show = EffectOf::UpdateComposition { text: t };
            if sess is Selecting || sess is LiveConv {
                (
                    done_model(
                        before.push(EffectOf::HideWindow).push(EffectOf::StopLiveTimer).push(show),
                        true,
                    ),
                    SessionModel::Preedit { text: t },
                )
            } else if sess is Waiting {
                (
                    done_model(
                        before.push(EffectOf::HideWindow).push(EffectOf::StopWaitingTimer).push(
                            show,
                        ),
                        true,
                    ),
                    SessionModel::Preedit { text: t },
                )
            } else {
                (done_model(before.push(show), true), sess)
            }
        },
        _ => (
            ask_model(seq![EffectOf::FlushPending], AskOf::Observe, EditPoint::Flushed),
            sess,
        ),
    }
}

fn rewrite(key: RewriteKey, p: &String, log: &RomajiLog) -> (r: String)
    ensures
        r@ == rewritten(key, p@, log@),
{
    let kana = text_util::has_kana(p.as_str());
    let source = if kana || log.hiragana.as_str().is_empty() {
        p.clone()
    } else {
        log.hiragana.clone()
    };
    let letters = match after_prefix(p.as_str(), log.hiragana.as_str()) {
        Some(pending) => concat2(log.letters.as_str(), pending.as_str()),
        None => log.letters.clone(),
    };
    assert(letters@ == letters_of(p@, log@));
    match key {
        RewriteKey::Hiragana => text_util::to_hiragana(source.as_str()),
        RewriteKey::Katakana => text_util::to_katakana(source.as_str()),
        RewriteKey::HalfKatakana => text_util::to_half_katakana(source.as_str()),
        RewriteKey::FullLatin => if kana {
            text_util::romaji_to_fullwidth_latin(letters.as_str())
        } else {
            text_util::cycle_full_latin(p.as_str())
        },
        RewriteKey::HalfLatin => if kana {
            text_util::romaji_to_halfwidth_latin(letters.as_str())
        } else {
            text_util::cycle_half_latin(p.as_str())
        },
    }
}

fn on_rewrite(
    point: EditPoint,
    key: RewriteKey,
    facts: &EngineFacts,
    log: &RomajiLog,
    sess: &mut SessionState,
) -> (r: Turn<EditPoint>)
    ensures
        (r@, final(sess)@) == rewrite_turn(point, key, facts@, log@, old(sess)@),
        old(sess)@.wf() ==> final(sess)@.wf(),
{
    let mut fx = no_effects();
    match point {
        EditPoint::Flushed => {
            if facts.preedit.as_str().is_empty() {
                return done(fx, false);
            }
            let t = rewrite(key, &facts.preedit, log);
            emit(&mut fx, EffectOf::Reclaim);
            emit(&mut fx, EffectOf::ForcePreedit { text: t.clone() });
            emit(&mut fx, EffectOf::SuppressLiveCommit { on: true });
            if sess.is_selecting() || sess.is_live_conv() {
                sess.set_preedit(t.clone());
                emit(&mut fx, EffectOf::HideWindow);
                emit(&mut fx, EffectOf::StopLiveTimer);
            } else if sess.is_waiting() {
                sess.set_preedit(t.clone());
                emit(&mut fx, EffectOf::HideWindow);
                emit(&mut fx, EffectOf::StopWaitingTimer);
            }
            emit(&mut fx, EffectOf::UpdateComposition { text: t });
            done(fx, true)
        },
        _ => {
            emit(&mut fx, EffectOf::FlushPending);
            ask(fx, AskOf::Observe, EditPoint::Flushed)
        },
    }
}

/// F6, F7 and F8: rewrites what is composed in kana. `key` is one of the kana keys.
pub fn on_kana_convert(
    point: EditPoint,
    key: RewriteKey,
    facts: &EngineFacts,
    log: &RomajiLog,
    sess: &mut SessionState,
) -> (r: Turn<EditPoint>)
    ensures
        (r@, final(sess)@) == rewrite_turn(point, key, facts@, log@, old(sess)@),
        old(sess)@.wf() ==> final(sess)@.wf(),
{
    on_rewrite(point, key, facts, log, sess)
}

/// F9 (`full`) and F10: rewrites what is composed in letters.
pub fn on_latin_convert(
    point: EditPoint,
    full: bool,
    facts: &EngineFacts,
    log: &RomajiLog,
    sess: &mut SessionState,
) -> (r: Turn<EditPoint>)
    ensures
        (r@, final(sess)@) == rewrite_turn(
            point,
            if full {
                RewriteKey::FullLatin
            } else {
                RewriteKey::HalfLatin
            },
            facts@,
            log@,
            old(sess)@,
        ),
        old(sess)@.wf() ==> final(sess)@.wf(),
{
    let key = if full {
        RewriteKey::FullLatin
    } else {
        RewriteKey::HalfLatin
    };
    on_rewrite(point, key, facts, log, sess)
}

/// What the kana cycling key does.
pub open spec fn cycle_kana_turn(facts: FactsModel) -> TurnModel<EditPoint> {
    if facts.preedit.len() == 0 {
        done_model(seq![], false)
    } else {
        done_model(seq![EffectOf::Reclaim] + committed(katakana_text(facts.preedit)), true)
    }
}

/// The kana cycling key: commits what is composed in katakana.
pub fn on_cycle_kana(facts: &EngineFacts) -> (r: Turn<EditPoint>)
    ensures
        r@ == cycle_kana_turn(facts@),
{
    let mut fx = no_effects();
    if facts.preedit.as_str().is_empty() {
        return done(fx, false);
    }
    emit(&mut fx, EffectOf::Reclaim);
    emit_committed(&mut fx, text_util::to_katakana(facts.preedit.as_str()));
    done(fx, true)
}

/// Escape on a choice gives back all that was typed, and only a second Escape throws
/// it away.
pub proof fn cancel_gives_text_back_first(facts: FactsModel, again: FactsModel, sess: SessionModel)
    requires
        sess is Selecting,
        !again.preedit_empty,
    ensures
        ({
            let s = sess->Selecting_0;
            let first = cancel_turn(facts, sess);
            &&& first.1 == (SessionModel::Preedit {
                text: s.prefix + s.original_preedit + s.remainder,
            })
            &&& !first.0.effects.contains(EffectOf::ResetAll)
            &&& cancel_turn(again, first.1).0.effects == thrown_away()
        }),
{
}

/// Escape and Backspace on a marked range bring the live conversion back that was
/// shown before.
pub proof fn leaving_a_range_restores_preview(
    facts: FactsModel,
    reply: ReplyModel,
    sess: SessionModel,
)
    requires
        sess is RangeSelect,
    ensures
        cancel_turn(facts, sess).1 == (SessionModel::LiveConv {
            reading: sess->full_reading,
            preview: sess->original_preview,
        }),
        backspace_turn(EditPoint::Enter, reply, facts, sess).1 == cancel_turn(facts, sess).1,
{
}

/// F6 after a letter key brings the typed kana back, however often the letter key was
/// pressed.
pub proof fn hiragana_key_undoes_letter_keys(p: Seq<char>, log: RomajiLogModel)
    requires
        !holds_kana(p),
        log.hiragana.len() > 0,
        forall|i: int|
            0 <= i < log.hiragana.len() ==> text_util::is_hiragana(#[trigger] log.hiragana[i]),
    ensures
        rewritten(RewriteKey::Hiragana, p, log) == log.hiragana,
{
    let h = log.hiragana;
    text_util::lemma_hiragana_stays(h);
}

/// Backspace never touches the document. A choice, a marked range and a live preview are given
/// up first: the text behind them comes back into the composition, and only typed text loses
/// its last letter.
pub proof fn backspace_gives_up_conversions_first(
    w: World,
    reply: ReplyModel,
    facts: FactsModel,
    sess: SessionModel,
)
    ensures
        ({
            let (turn, after) = backspace_turn(EditPoint::Enter, reply, facts, sess);
            let then = played(w, turn.effects);
            let erases = turn.next == (NextModel::Ask {
                ask: AskOf::Backspace,
                then: EditPoint::Erased,
            });
            let ends = turn.next == (NextModel::<EditPoint>::Done { eaten: true });
            &&& then.document == w.document
            &&& then.engine == w.engine
            &&& then.generation == w.generation + 1
            &&& match sess {
                SessionModel::LiveConv { reading, .. } => {
                    &&& erases
                    &&& after == (SessionModel::Preedit { text: reading })
                    &&& then.composition == reading
                    &&& !then.live && !then.preview
                },
                SessionModel::RangeSelect { full_reading, original_preview, .. } => {
                    &&& ends
                    &&& after == (SessionModel::LiveConv {
                        reading: full_reading,
                        preview: original_preview,
                    })
                    &&& then.composition == original_preview
                    &&& then.window is None
                },
                SessionModel::Selecting(s) => {
                    &&& ends
                    &&& after == (SessionModel::Preedit { text: s.original_preedit })
                    &&& then.composition == s.original_preedit
                    &&& then.window is None
                },
                SessionModel::Waiting { text, .. } => {
                    &&& erases
                    &&& after == (SessionModel::Preedit { text })
                    &&& then.window is None
                },
                _ => erases && after == sess && then == (World {
                    generation: w.generation + 1,
                    ..w
                }),
            }
        }),
{
    reveal_with_fuel(played_to, 6);
}

/// Once the engine has deleted a letter, the composition shows what is left, and ends without
/// leaving anything in the document where nothing is. Where there was no letter to delete, the
/// key is left to the application.
pub proof fn backspace_shows_what_is_left(
    w: World,
    on: bool,
    reply: ReplyModel,
    facts: FactsModel,
    sess: SessionModel,
)
    ensures
        ({
            let (turn, after) = backspace_turn(
                EditPoint::Erased,
                ReplyOf::Flag { on },
                facts,
                sess,
            );
            &&& after == sess
            &&& on ==> turn.next == (NextModel::Ask {
                ask: AskOf::Observe,
                then: EditPoint::Shown,
            }) && played(w, turn.effects).background is None
            &&& !on ==> turn.next == (NextModel::<EditPoint>::Done { eaten: false })
                && turn.effects.len() == 0
        }),
        ({
            let (turn, after) = backspace_turn(EditPoint::Shown, reply, facts, sess);
            &&& after == sess
            &&& turn.next == (NextModel::<EditPoint>::Done { eaten: true })
            &&& played(w, turn.effects) == (World { composition: facts.preedit, ..w })
        }),
{
    reveal_with_fuel(played_to, 3);
    if facts.preedit.len() == 0 {
        assert(facts.preedit =~= Seq::<char>::empty());
        assert(w.document + Seq::<char>::empty() =~= w.document);
    }
}

/// Escape never leaves anything in the document. It takes a conversion back to what was typed,
/// all of it; what is only typed it throws away; and where nothing is composed the key is left
/// to the application.
pub proof fn escape_takes_back_or_throws_away(w: World, facts: FactsModel, sess: SessionModel)
    ensures
        ({
            let (turn, after) = cancel_turn(facts, sess);
            let then = played(w, turn.effects);
            let used = turn.next == (NextModel::<EditPoint>::Done { eaten: true });
            &&& then.document == w.document
            &&& match sess {
                SessionModel::LiveConv { reading, .. } => {
                    &&& used
                    &&& after == (SessionModel::Preedit { text: reading })
                    &&& then.composition == reading && then.engine == w.engine
                    &&& !then.live && !then.preview
                },
                SessionModel::RangeSelect { full_reading, original_preview, .. } => {
                    &&& used
                    &&& after == (SessionModel::LiveConv {
                        reading: full_reading,
                        preview: original_preview,
                    })
                    &&& then.composition == original_preview && then.engine == w.engine
                    &&& then.window is None
                },
                SessionModel::Selecting(s) => {
                    let all = s.prefix + s.original_preedit + s.remainder;
                    &&& used
                    &&& after == (SessionModel::Preedit { text: all })
                    &&& then.composition == all && then.engine == all
                    &&& then.window is None && then.background is None
                },
                SessionModel::Waiting { text, .. } => {
                    &&& used
                    &&& then.composition == text
                    &&& text.len() > 0 ==> after == (SessionModel::Preedit { text })
                        && then.engine == w.engine && then.window is None && !then.waiting
                    &&& text.len() == 0 ==> after is Idle && then.engine.len() == 0
                },
                _ => if facts.preedit_empty {
                    turn.next == (NextModel::<EditPoint>::Done { eaten: false }) && then == w
                        && after == sess
                } else {
                    used && after == sess && then == (World {
                        composition: Seq::empty(),
                        engine: Seq::empty(),
                        background: None,
                        ..w
                    })
                },
            }
        }),
{
    reveal_with_fuel(played_to, 5);
    assert(w.document + Seq::<char>::empty() =~= w.document);
    if let SessionModel::Waiting { text, .. } = sess {
        if text.len() == 0 {
            assert(text =~= Seq::<char>::empty());
        }
    }
}

/// A rewriting key settles pending letters first. Then the rewritten text is what the engine
/// composes, what the composition shows and what the session holds, and the next Enter commits
/// it as it is. Nothing goes into the document, and where nothing is composed the key is left
/// to the application.
pub proof fn rewritten_text_replaces_composition(
    w: World,
    key: RewriteKey,
    facts: FactsModel,
    log: RomajiLogModel,
    sess: SessionModel,
)
    ensures
        ({
            let (turn, after) = rewrite_turn(EditPoint::Enter, key, facts, log, sess);
            &&& after == sess
            &&& played(w, turn.effects) == w
            &&& turn.effects.contains(EffectOf::FlushPending)
            &&& turn.next == (NextModel::Ask { ask: AskOf::Observe, then: EditPoint::Flushed })
        }),
        ({
            let (turn, after) = rewrite_turn(EditPoint::Flushed, key, facts, log, sess);
            let then = played(w, turn.effects);
            let text = rewritten(key, facts.preedit, log);
            if facts.preedit.len() == 0 {
                &&& turn.next == (NextModel::<EditPoint>::Done { eaten: false })
                &&& then == w && after == sess
            } else {
                &&& turn.next == (NextModel::<EditPoint>::Done { eaten: true })
                &&& then.document == w.document
                &&& then.engine == text
                &&& then.composition == text
                &&& then.suppressed
                &&& then.background is None
                &&& sess is Selecting || sess is LiveConv || sess is Waiting ==> after == (
                SessionModel::Preedit { text }) && then.window is None
                &&& sess is Selecting || sess is LiveConv ==> !then.live
                &&& sess is Waiting ==> !then.waiting
                &&& !(sess is Selecting || sess is LiveConv || sess is Waiting) ==> after == sess
            }
        }),
{
    reveal_with_fuel(played_to, 7);
    let first = rewrite_turn(EditPoint::Enter, key, facts, log, sess).0.effects;
    assert(first[0] == EffectModel::FlushPending);
}

/// F6 leaves hiragana as they are, F7 gives the katakana of the same sounds, and F6 takes F7
/// back.
pub proof fn kana_keys_rewrite_kana(p: Seq<char>, log: RomajiLogModel, i: int)
    requires
        forall|k: int| 0 <= k < p.len() ==> 0x3041 <= (#[trigger] p[k]) as u32 <= 0x3096,
        0 <= i < p.len(),
    ensures
        rewritten(RewriteKey::Hiragana, p, log) == p,
        rewritten(RewriteKey::Katakana, p, log).len() == p.len(),
        rewritten(RewriteKey::Katakana, p, log)[i] as u32 == p[i] as u32 + 0x60,
        rewritten(RewriteKey::HalfKatakana, p, log) == half_katakana_text(p),
        rewritten(RewriteKey::Hiragana, rewritten(RewriteKey::Katakana, p, log), log) == p,
{
    assert(text_util::is_kana(p[i]));
    text_util::lemma_hiragana_stays(p);
    text_util::kana_keys_exchange_letters(p, i);
    let k = rewritten(RewriteKey::Katakana, p, log);
    assert(text_util::is_kana(k[i]));
    text_util::hiragana_after_katakana(p);
}

/// F10 on kana gives the small letters that were typed for them, with the letters behind that
/// make up no kana yet, and F9 the same letters in full width.
pub proof fn letter_keys_give_typed_letters(
    kana: Seq<char>,
    letters: Seq<char>,
    pending: Seq<char>,
    i: int,
)
    requires
        kana.len() > 0,
        forall|k: int| 0 <= k < kana.len() ==> 0x3041 <= (#[trigger] kana[k]) as u32 <= 0x3096,
        forall|k: int| 0 <= k < letters.len() ==> 'a' <= (#[trigger] letters[k]) <= 'z',
        forall|k: int| 0 <= k < pending.len() ==> 'a' <= (#[trigger] pending[k]) <= 'z',
        0 <= i < letters.len() + pending.len(),
    ensures
        ({
            let log = RomajiLogModel { hiragana: kana, letters };
            let typed = letters + pending;
            let p = kana + pending;
            &&& rewritten(RewriteKey::HalfLatin, p, log) == typed
            &&& rewritten(RewriteKey::FullLatin, p, log).len() == typed.len()
            &&& rewritten(RewriteKey::FullLatin, p, log)[i] as u32 == typed[i] as u32 + 0xFEE0
        }),
{
    let log = RomajiLogModel { hiragana: kana, letters };
    let typed = letters + pending;
    let p = kana + pending;
    assert(p[0] == kana[0]);
    assert(text_util::is_kana(p[0]));
    assert(p.take(kana.len() as int) =~= kana);
    assert(p.skip(kana.len() as int) =~= pending);
    assert(letters_of(p, log) =~= typed);
    assert forall|k: int| 0 <= k < typed.len() implies 'a' <= (#[trigger] typed[k]) <= 'z' by {
        if k < letters.len() {
            assert(typed[k] == letters[k]);
        } else {
            assert(typed[k] == pending[k - letters.len()]);
        }
    }
    assert(small_text(typed) =~= typed) by {
        assert forall|k: int| 0 <= k < typed.len() implies small_text(typed)[k] == typed[k] by {
            text_util::letter_keys_change_width_and_case(typed, k);
        }
    }
    assert(half_latin_text(typed) =~= typed) by {
        assert forall|k: int| 0 <= k < typed.len() implies half_latin_text(typed)[k]
            == typed[k] by {
            text_util::letter_keys_change_width_and_case(typed, k);
        }
    }
    text_util::letter_keys_change_width_and_case(typed, i);
}

/// F9 and F10 on letters change their width first, and keep them.
pub proof fn letter_keys_change_width_first(p: Seq<char>, log: RomajiLogModel, i: int)
    requires
        forall|k: int| 0 <= k < p.len() ==> 0x21 <= (#[trigger] p[k]) as u32 <= 0x7E,
        0 <= i < p.len(),
    ensures
        ({
            let full = rewritten(RewriteKey::FullLatin, p, log);
            &&& full.len() == p.len()
            &&& full[i] as u32 == p[i] as u32 + 0xFEE0
            &&& rewritten(RewriteKey::HalfLatin, full, log) == p
        }),
{
    assert(!holds_kana(p));
    let full = full_latin_text(p);
    assert forall|k: int| 0 <= k < p.len() implies (#[trigger] full[k]) as u32 == p[k] as u32
        + 0xFEE0 by {
        text_util::letter_keys_change_width_and_case(p, k);
    }
    assert(full[i] != p[i]);
    assert(!holds_kana(full));
    assert forall|k: int| 0 <= k < p.len() implies !text_util::is_full_latin(#[trigger] p[k]) by {}
    text_util::latin_width_round_trip(p);
    assert(half_latin_text(full)[i] != full[i]);
}

/// The kana cycling key puts what is composed into the document in katakana.
pub proof fn cycling_commits_katakana(w: World, facts: FactsModel, i: int)
    requires
        forall|k: int|
            0 <= k < facts.preedit.len() ==> 0x3041 <= (#[trigger] facts.preedit[k]) as u32
                <= 0x3096,
        0 <= i < facts.preedit.len(),
    ensures
        ({
            let turn = cycle_kana_turn(facts);
            let then = played(w, turn.effects);
            let n = w.document.len() as int;
            &&& turn.next == (NextModel::<EditPoint>::Done { eaten: true })
            &&& then.document.len() == n + facts.preedit.len()
            &&& then.document.take(n) == w.document
            &&& then.document[n + i] as u32 == facts.preedit[i] as u32 + 0x60
            &&& then.engine.len() == 0
            &&& then.composition.len() == 0
            &&& then.background is None
            &&& then.told == w.told.push(then.document.skip(n))
        }),
{
    reveal_with_fuel(played_to, 5);
    text_util::kana_keys_exchange_letters(facts.preedit, i);
    let k = katakana_text(facts.preedit);
    let n = w.document.len() as int;
    assert((w.document + k).take(n) =~= w.document);
    assert((w.document + k).skip(n) =~= k);
}

} // verus!
