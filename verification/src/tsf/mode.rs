//! Keys that switch the input method or its mode.

use crate::engine::conversion::views;
use crate::engine::input_mode::InputMode;
use crate::engine::state::{SessionModel, SessionState};
use crate::engine::text_util;
use crate::engine::text_util::katakana_text;
use crate::tsf::commit::{committed, emit_committed};
use crate::tsf::effects::{emit, no_effects, Effect, EffectModel, EffectOf, EngineFacts, FactsModel};
use crate::tsf::world::{played, played_to, World};
use vstd::prelude::*;

verus! {

/// Whether the input method counts as on in `mode`.
pub open spec fn is_open_mode(mode: InputMode) -> bool {
    !(mode is Alphanumeric)
}

/// Whether the input method counts as on in `mode`.
pub fn open_for_mode(mode: InputMode) -> (r: bool)
    ensures
        r == is_open_mode(mode),
{
    match mode {
        InputMode::Alphanumeric => false,
        _ => true,
    }
}

/// The mode that switching the input method on or off leads to.
pub open spec fn toggled_mode(mode: InputMode) -> InputMode {
    if mode is Alphanumeric {
        InputMode::Hiragana
    } else {
        InputMode::Alphanumeric
    }
}

/// The text that is committed before the input method is switched: the live preview
/// where one is shown, else what is composed.
pub open spec fn text_to_keep(preedit: Seq<char>, sess: SessionModel) -> Seq<char> {
    match sess {
        SessionModel::LiveConv { preview, .. } => preview,
        _ => preedit,
    }
}

/// What is composed is committed before the input method is switched. Nothing happens
/// without an engine or without a text.
pub open spec fn kept_before_switch(
    facts: Option<FactsModel>,
    sess: SessionModel,
) -> (Seq<EffectModel>, SessionModel) {
    match facts {
        Some(f) => {
            let text = text_to_keep(f.preedit, sess);
            if text.len() == 0 {
                (seq![], sess)
            } else {
                (
                    seq![
                        EffectOf::Reclaim,
                        EffectOf::Commit { text },
                        EffectOf::ResetPreedit,
                        EffectOf::StopLiveTimer,
                        EffectOf::EndComposition { text },
                    ],
                    SessionModel::Idle,
                )
            }
        },
        None => (seq![], sess),
    }
}

/// The mode is switched and everybody told; `open` says whether the system is told
/// that the input method is on or off.
pub open spec fn switched(mode: InputMode, open: Option<bool>) -> Seq<EffectModel> {
    let told = match open {
        Some(on) => seq![EffectOf::SetMode { mode }, EffectOf::SetOpen { open: on }],
        None => seq![EffectOf::SetMode { mode }],
    };
    told.push(EffectOf::NotifyLangbar).push(EffectOf::NotifyTray).push(
        EffectOf::ShowMode { mode },
    ).push(EffectOf::ReloadConfig)
}

fn emit_switched(fx: &mut Vec<Effect>, mode: InputMode, open: Option<bool>)
    ensures
        views(final(fx)@) == views(old(fx)@) + switched(mode, open),
{
    emit(fx, EffectOf::SetMode { mode });
    if let Some(on) = open {
        emit(fx, EffectOf::SetOpen { open: on });
    }
    emit(fx, EffectOf::NotifyLangbar);
    emit(fx, EffectOf::NotifyTray);
    emit(fx, EffectOf::ShowMode { mode });
    emit(fx, EffectOf::ReloadConfig);
    assert(views(fx@) == views(old(fx)@) + switched(mode, open));
}

fn keep_before_switch(facts: Option<&EngineFacts>, sess: &mut SessionState) -> (r: Vec<Effect>)
    ensures
        (views(r@), final(sess)@) == kept_before_switch(
            (match facts {
                Some(f) => Some(f@),
                None => None,
            }),
            old(sess)@,
        ),
        old(sess)@.wf() ==> final(sess)@.wf(),
{
    let mut fx = no_effects();
    if let Some(f) = facts {
        let text = match sess.live_conv_parts() {
            Some((_, preview)) => preview.to_owned(),
            None => f.preedit.clone(),
        };
        if !text.as_str().is_empty() {
            sess.set_idle();
            emit(&mut fx, EffectOf::Reclaim);
            emit(&mut fx, EffectOf::Commit { text: text.clone() });
            emit(&mut fx, EffectOf::ResetPreedit);
            emit(&mut fx, EffectOf::StopLiveTimer);
            emit(&mut fx, EffectOf::EndComposition { text });
        }
    }
    fx
}

/// Switches the input method on or off. `facts` is missing where no engine is loaded.
pub fn on_ime_toggle(
    mode: InputMode,
    facts: Option<&EngineFacts>,
    sess: &mut SessionState,
) -> (r: Vec<Effect>)
    ensures
        ({
            let kept = kept_before_switch(
                (match facts {
                    Some(f) => Some(f@),
                    None => None,
                }),
                old(sess)@,
            );
            let to = toggled_mode(mode);
            views(r@) == kept.0 + switched(to, Some(is_open_mode(to))) && final(sess)@ == kept.1
        }),
        old(sess)@.wf() ==> final(sess)@.wf(),
{
    let mut fx = keep_before_switch(facts, sess);
    let to = match mode {
        InputMode::Alphanumeric => InputMode::Hiragana,
        _ => InputMode::Alphanumeric,
    };
    emit_switched(&mut fx, to, Some(open_for_mode(to)));
    fx
}

/// Switches the input method off.
pub fn on_ime_off(facts: Option<&EngineFacts>, sess: &mut SessionState) -> (r: Vec<Effect>)
    ensures
        ({
            let kept = kept_before_switch(
                (match facts {
                    Some(f) => Some(f@),
                    None => None,
                }),
                old(sess)@,
            );
            views(r@) == kept.0 + switched(InputMode::Alphanumeric, Some(false)) && final(sess)@
                == kept.1
        }),
        old(sess)@.wf() ==> final(sess)@.wf(),
{
    let mut fx = keep_before_switch(facts, sess);
    emit_switched(&mut fx, InputMode::Alphanumeric, Some(false));
    fx
}

/// Switches the input method on.
pub fn on_ime_on() -> (r: Vec<Effect>)
    ensures
        views(r@) == switched(InputMode::Hiragana, Some(true)),
{
    let mut fx = no_effects();
    emit_switched(&mut fx, InputMode::Hiragana, Some(true));
    assert(Seq::<EffectModel>::empty() + switched(InputMode::Hiragana, Some(true)) == switched(
        InputMode::Hiragana,
        Some(true),
    ));
    fx
}

/// What a mode key commits: what is composed, in katakana for the katakana key.
pub open spec fn mode_key_commits(katakana: bool, facts: Option<FactsModel>) -> Seq<EffectModel> {
    match facts {
        Some(f) => if f.preedit.len() == 0 {
            seq![]
        } else {
            seq![EffectOf::Reclaim] + committed(
                if katakana {
                    katakana_text(f.preedit)
                } else {
                    f.preedit
                },
            )
        },
        None => seq![],
    }
}

fn emit_mode_commit(katakana: bool, facts: Option<&EngineFacts>) -> (r: Vec<Effect>)
    ensures
        views(r@) == mode_key_commits(
            katakana,
            (match facts {
                Some(f) => Some(f@),
                None => None,
            }),
        ),
{
    let mut fx = no_effects();
    if let Some(f) = facts {
        if !f.preedit.as_str().is_empty() {
            let text = if katakana {
                text_util::to_katakana(f.preedit.as_str())
            } else {
                f.preedit.clone()
            };
            emit(&mut fx, EffectOf::Reclaim);
            emit_committed(&mut fx, text);
        }
    }
    fx
}

/// The hiragana mode key.
pub fn on_mode_hiragana(facts: Option<&EngineFacts>) -> (r: Vec<Effect>)
    ensures
        views(r@) == mode_key_commits(
            false,
            (match facts {
                Some(f) => Some(f@),
                None => None,
            }),
        ) + switched(InputMode::Hiragana, None),
{
    let mut fx = emit_mode_commit(false, facts);
    emit_switched(&mut fx, InputMode::Hiragana, None);
    fx
}

/// The katakana mode key.
pub fn on_mode_katakana(facts: Option<&EngineFacts>) -> (r: Vec<Effect>)
    ensures
        views(r@) == mode_key_commits(
            true,
            (match facts {
                Some(f) => Some(f@),
                None => None,
            }),
        ) + switched(InputMode::Katakana, None),
{
    let mut fx = emit_mode_commit(true, facts);
    emit_switched(&mut fx, InputMode::Katakana, None);
    fx
}

/// The sign of a mode beside the caret and in the language bar.
pub open spec fn mode_sign(mode: InputMode) -> Seq<char> {
    match mode {
        InputMode::Hiragana => "あ"@,
        InputMode::Katakana => "ア"@,
        InputMode::Alphanumeric => "A"@,
    }
}

/// The sign of a mode.
pub fn mode_char(mode: InputMode) -> (r: &'static str)
    ensures
        r@ == mode_sign(mode),
{
    match mode {
        InputMode::Hiragana => "あ",
        InputMode::Katakana => "ア",
        InputMode::Alphanumeric => "A",
    }
}

/// Toggling twice from either of the two modes that toggling leads to comes back, and
/// every toggle switches between on and off.
pub proof fn toggle_switches(mode: InputMode)
    ensures
        is_open_mode(toggled_mode(mode)) != is_open_mode(mode),
        mode != InputMode::Katakana ==> toggled_mode(toggled_mode(mode)) == mode,
{
}

/// Nothing that is composed is lost when the input method is switched off: it goes
/// into the document, the live preview in place of its reading.
pub proof fn switching_keeps_text(facts: FactsModel, sess: SessionModel)
    requires
        text_to_keep(facts.preedit, sess).len() > 0,
    ensures
        kept_before_switch(Some(facts), sess).0.last() == (EffectOf::<
            Seq<char>,
            Seq<Seq<char>>,
        >::EndComposition { text: text_to_keep(facts.preedit, sess) }),
        kept_before_switch(Some(facts), sess).1 == SessionModel::Idle,
{
}

/// The input method is on in both kana modes and off in the mode of letters.
pub proof fn kana_modes_are_on(mode: InputMode)
    ensures
        is_open_mode(InputMode::Hiragana),
        is_open_mode(InputMode::Katakana),
        !is_open_mode(InputMode::Alphanumeric),
        toggled_mode(InputMode::Alphanumeric) == InputMode::Hiragana,
        mode != InputMode::Alphanumeric ==> toggled_mode(mode) == InputMode::Alphanumeric,
{
}

/// Switching the mode leaves document and composition alone; from then on the mode is the new
/// one, the system knows whether the input method is on, and bars, tray and caret are told.
pub proof fn switching_sets_mode(w: World, mode: InputMode, open: Option<bool>)
    ensures
        ({
            let fx = switched(mode, open);
            &&& played(w, fx) == (World {
                mode,
                open: match open {
                    Some(on) => on,
                    None => w.open,
                },
                ..w
            })
            &&& fx.contains(EffectOf::NotifyLangbar)
            &&& fx.contains(EffectOf::NotifyTray)
            &&& fx.contains(EffectOf::ShowMode { mode })
            &&& fx.contains(EffectOf::ReloadConfig)
        }),
{
    reveal_with_fuel(played_to, 8);
    let fx = switched(mode, open);
    let n = fx.len();
    assert(fx[n - 4] == EffectModel::NotifyLangbar);
    assert(fx[n - 3] == EffectModel::NotifyTray);
    assert(fx[n - 2] == EffectModel::ShowMode { mode });
    assert(fx[n - 1] == EffectModel::ReloadConfig);
}

/// Before the input method is switched, what the user sees goes into the document: the live
/// preview, or else what is composed. Nothing is composed then. Without a text, or without an
/// engine, nothing happens.
pub proof fn seen_text_is_kept(w: World, facts: FactsModel, sess: SessionModel)
    ensures
        ({
            let seen = match sess {
                SessionModel::LiveConv { preview, .. } => preview,
                _ => facts.preedit,
            };
            let (fx, after) = kept_before_switch(Some(facts), sess);
            if seen.len() > 0 {
                &&& after is Idle
                &&& played(w, fx) == (World {
                    document: w.document + seen,
                    composition: Seq::empty(),
                    engine: Seq::empty(),
                    told: w.told.push(seen),
                    background: None,
                    live: false,
                    ..w
                })
            } else {
                played(w, fx) == w && after == sess
            }
        }),
        kept_before_switch(None, sess).0.len() == 0,
        kept_before_switch(None, sess).1 == sess,
{
    reveal_with_fuel(played_to, 7);
}

/// A mode key puts what is composed into the document first, in katakana for the katakana key.
pub proof fn mode_key_commits_first(w: World, facts: FactsModel, i: int)
    ensures
        ({
            let then = played(w, mode_key_commits(false, Some(facts)));
            if facts.preedit.len() > 0 {
                then == (World {
                    document: w.document + facts.preedit,
                    composition: Seq::empty(),
                    engine: Seq::empty(),
                    told: w.told.push(facts.preedit),
                    background: None,
                    ..w
                })
            } else {
                then == w
            }
        }),
        ({
            let then = played(w, mode_key_commits(true, Some(facts)));
            let n = w.document.len() as int;
            let kana = forall|k: int|
                0 <= k < facts.preedit.len() ==> 0x3041 <= (#[trigger] facts.preedit[k]) as u32
                    <= 0x3096;
            &&& facts.preedit.len() == 0 ==> then == w
            &&& kana && 0 <= i < facts.preedit.len() ==> {
                &&& then.document.len() == n + facts.preedit.len()
                &&& then.document.take(n) == w.document
                &&& then.document[n + i] as u32 == facts.preedit[i] as u32 + 0x60
                &&& then.engine.len() == 0
                &&& then.composition.len() == 0
            }
        }),
        mode_key_commits(true, None).len() == 0,
        mode_key_commits(false, None).len() == 0,
{
    reveal_with_fuel(played_to, 6);
    let kana = forall|k: int|
        0 <= k < facts.preedit.len() ==> 0x3041 <= (#[trigger] facts.preedit[k]) as u32 <= 0x3096;
    if kana && 0 <= i < facts.preedit.len() {
        text_util::kana_keys_exchange_letters(facts.preedit, i);
        let n = w.document.len() as int;
        assert((w.document + katakana_text(facts.preedit)).take(n) =~= w.document);
    }
}

/// Every mode has a sign of its own: a kana of its script, or a letter.
pub proof fn modes_have_signs()
    ensures
        mode_sign(InputMode::Hiragana) == seq!['あ'],
        mode_sign(InputMode::Katakana) == seq!['ア'],
        mode_sign(InputMode::Alphanumeric) == seq!['A'],
{
    reveal_strlit("あ");
    reveal_strlit("ア");
    reveal_strlit("A");
    assert("あ"@ =~= seq!['あ']);
    assert("ア"@ =~= seq!['ア']);
    assert("A"@ =~= seq!['A']);
}

} // verus!
