//! Letter keys: characters that enter the composition.

use crate::engine::conversion::views;
use crate::engine::state::{SelectingModel, SessionModel, SessionState};
use crate::text::{after_prefix, concat2, starts_with};
use crate::tsf::effects::{
    ask, ask_model, done, done_model, emit, no_effects, AskOf, Effect, EffectModel, EffectOf,
    EngineFacts, FactsModel, InputCharKind, NextModel, Turn, TurnModel,
};
use crate::tsf::world::{played, played_in_turn, played_one_more, played_to, World};
use vstd::prelude::*;

verus! {

/// What the letter keys need to know beside session and engine.
#[derive(Clone, Copy)]
pub struct InputEnv {
    /// Width of the conversions that are started while typing.
    pub live_beam: usize,
    /// Whether choices are remembered.
    pub auto_learn: bool,
}

/// A key that was pressed while the engine was loading.
#[derive(Clone, Copy, Debug, PartialEq)]
pub struct KeptKey {
    pub c: char,
    pub kind: InputCharKind,
    pub raw: bool,
}

/// The keys that were pressed while the engine was loading, in order.
#[derive(Debug, PartialEq)]
pub struct KeptKeys {
    keys: Vec<KeptKey>,
}

impl View for KeptKeys {
    type V = Seq<KeptKey>;

    closed spec fn view(&self) -> Seq<KeptKey> {
        self.keys@
    }
}

impl Default for KeptKeys {
    fn default() -> (r: Self)
        ensures
            r@ == Seq::<KeptKey>::empty(),
    {
        KeptKeys { keys: Vec::new() }
    }
}

/// Keeps a key behind those that are kept.
pub fn push_pending_key(kept: &mut KeptKeys, c: char, kind: InputCharKind, raw: bool)
    ensures
        final(kept)@ == old(kept)@.push(KeptKey { c, kind, raw }),
{
    kept.keys.push(KeptKey { c, kind, raw });
}

/// Takes out all kept keys, in order.
pub fn drain_pending_keys(kept: &mut KeptKeys) -> (r: Vec<KeptKey>)
    ensures
        r@ == old(kept)@,
        final(kept)@ == Seq::<KeptKey>::empty(),
{
    let mut keys: Vec<KeptKey> = Vec::new();
    std::mem::swap(&mut keys, &mut kept.keys);
    keys
}

/// Where a letter key continues once the engine has taken the letter.
#[verifier::ext_equal]
#[derive(Debug, PartialEq)]
pub enum InputPointOf<T> {
    /// A live conversion of `reading` showed `preview` before.
    LiveTyped { reading: T, preview: T },
    /// `text` was chosen before and is committed.
    CommitTyped { text: T },
    Typed,
    RawLive { reading: T, preview: T },
    RawCommitted { text: T },
    RawTyped,
}

pub type InputPoint = InputPointOf<String>;

pub type InputPointModel = InputPointOf<Seq<char>>;

impl View for InputPointOf<String> {
    type V = InputPointModel;

    open spec fn view(&self) -> InputPointModel {
        match *self {
            InputPointOf::LiveTyped { reading, preview } => InputPointOf::LiveTyped {
                reading: reading@,
                preview: preview@,
            },
            InputPointOf::CommitTyped { text } => InputPointOf::CommitTyped { text: text@ },
            InputPointOf::Typed => InputPointOf::Typed,
            InputPointOf::RawLive { reading, preview } => InputPointOf::RawLive {
                reading: reading@,
                preview: preview@,
            },
            InputPointOf::RawCommitted { text } => InputPointOf::RawCommitted { text: text@ },
            InputPointOf::RawTyped => InputPointOf::RawTyped,
        }
    }
}

pub type InputTurn = (TurnModel<InputPointModel>, SessionModel);

/// Capital letters enter full-width, the others through the romaji rules.
pub open spec fn kind_of_char(c: char) -> InputCharKind {
    if 'A' as u32 <= c as u32 <= 'Z' as u32 {
        InputCharKind::FullwidthAlpha
    } else {
        InputCharKind::Char
    }
}

/// Typing a kept key.
pub open spec fn replay_of(key: KeptKey) -> EffectModel {
    if key.raw {
        EffectOf::PushRaw { c: key.c }
    } else {
        EffectOf::Replay { c: key.c, kind: key.kind }
    }
}

/// Punctuation as a text.
pub open spec fn punct_text(punct: Option<char>) -> Seq<char> {
    match punct {
        Some(p) => seq![p],
        None => Seq::empty(),
    }
}

/// The selected candidate, or what was typed where there is none.
pub open spec fn choice_text(s: SelectingModel) -> Seq<char> {
    match s.current() {
        Some(c) => c,
        None => s.original_preedit,
    }
}

/// What stands before the remainder once the choice is committed.
pub open spec fn confirmed_text(s: SelectingModel) -> Seq<char> {
    s.prefix + (choice_text(s) + punct_text(s.punct_pending))
}

/// A choice is remembered where it differs from what was typed.
pub open spec fn learnt(reading: Seq<char>, surface: Seq<char>, auto_learn: bool) -> Seq<
    EffectModel,
> {
    if surface != reading && auto_learn {
        seq![EffectOf::Learn { reading, surface }]
    } else {
        seq![]
    }
}

/// The part of `new_reading` that was added to `reading`; all of it where it is not
/// a continuation.
pub open spec fn added_part(new_reading: Seq<char>, reading: Seq<char>) -> Seq<char> {
    if starts_with(new_reading, reading) {
        new_reading.skip(reading.len() as int)
    } else {
        new_reading
    }
}

/// The letters of `preedit` behind its kana `reading`.
pub open spec fn pending_part(preedit: Seq<char>, reading: Seq<char>) -> Seq<char> {
    if starts_with(preedit, reading) {
        preedit.skip(reading.len() as int)
    } else {
        Seq::empty()
    }
}

/// The engine is not loaded: the key is kept and used up.
pub open spec fn kept_turn(sess: SessionModel) -> InputTurn {
    (done_model(seq![EffectOf::BumpGeneration, EffectOf::ShowLoading], true), sess)
}

/// The key of a letter.
pub open spec fn letter_key(c: char) -> KeptKey {
    KeptKey { c, kind: kind_of_char(c), raw: false }
}

/// The key of a character that bypasses the romaji rules.
pub open spec fn raw_key(c: char) -> KeptKey {
    KeptKey { c, kind: InputCharKind::Char, raw: true }
}

/// The keys that are kept after `key`: it is kept too while the engine is loading, and none
/// is once it is loaded.
pub open spec fn kept_after(key: KeptKey, loaded: bool, kept: Seq<KeptKey>) -> Seq<KeptKey> {
    if loaded {
        Seq::empty()
    } else {
        kept.push(key)
    }
}

/// What happens before the new letter: keys kept so far are typed, and Enter commits
/// live conversions again.
pub open spec fn opening(kept: Seq<KeptKey>) -> Seq<EffectModel> {
    (seq![EffectOf::BumpGeneration] + kept.map_values(|k: KeptKey| replay_of(k))).push(
        EffectOf::SuppressLiveCommit { on: false },
    )
}

/// The effects before a letter joins a live conversion.
pub open spec fn live_opening(kept: Seq<KeptKey>) -> Seq<EffectModel> {
    opening(kept).push(EffectOf::HideWindow).push(EffectOf::StopLiveTimer).push(
        EffectOf::ClearPreview,
    )
}

/// The open choice is committed before the letter.
pub open spec fn commit_opening(
    before: Seq<EffectModel>,
    s: SelectingModel,
    env: InputEnv,
) -> Seq<EffectModel> {
    let full = confirmed_text(s) + s.remainder;
    (before.push(EffectOf::HideWindow).push(EffectOf::StopLiveTimer) + learnt(
        s.original_preedit,
        choice_text(s),
        env.auto_learn,
    )).push(EffectOf::Commit { text: full }).push(EffectOf::ResetPreedit)
}

/// What a letter key does at once.
pub open spec fn input_turn(
    c: char,
    loaded: bool,
    kept: Seq<KeptKey>,
    env: InputEnv,
    sess: SessionModel,
) -> InputTurn {
    let kind = kind_of_char(c);
    let typing = AskOf::Type { c, kind, beam: Some(env.live_beam) };
    let plain = |before: Seq<EffectModel>|
        ask_model(
            before.push(EffectOf::PollDict).push(EffectOf::PollModel),
            typing,
            InputPointOf::Typed,
        );
    if !loaded {
        kept_turn(sess)
    } else {
        match sess {
            SessionModel::LiveConv { reading, preview } => (
                ask_model(
                    live_opening(kept),
                    typing,
                    InputPointOf::LiveTyped { reading, preview },
                ),
                sess,
            ),
            SessionModel::RangeSelect { full_reading, .. } => (
                plain(
                    opening(kept).push(EffectOf::HideWindow).push(
                        EffectOf::ForcePreedit { text: full_reading },
                    ),
                ),
                SessionModel::Preedit { text: full_reading },
            ),
            SessionModel::Waiting { text, .. } => (
                plain(opening(kept).push(EffectOf::HideWindow)),
                SessionModel::Preedit { text },
            ),
            SessionModel::Selecting(s) => (
                ask_model(
                    commit_opening(opening(kept), s, env),
                    typing,
                    InputPointOf::CommitTyped { text: confirmed_text(s) + s.remainder },
                ),
                SessionModel::Idle,
            ),
            _ => (plain(opening(kept)), sess),
        }
    }
}

/// What a key that bypasses the romaji rules does at once.
pub open spec fn input_raw_turn(
    c: char,
    loaded: bool,
    kept: Seq<KeptKey>,
    env: InputEnv,
    sess: SessionModel,
) -> InputTurn {
    let push = EffectOf::PushRaw { c };
    if !loaded {
        kept_turn(sess)
    } else {
        match sess {
            SessionModel::LiveConv { reading, preview } => (
                ask_model(
                    live_opening(kept).push(push),
                    AskOf::Observe,
                    InputPointOf::RawLive { reading, preview },
                ),
                sess,
            ),
            SessionModel::Waiting { text, .. } => (
                ask_model(
                    opening(kept).push(EffectOf::HideWindow).push(push),
                    AskOf::Observe,
                    InputPointOf::RawTyped,
                ),
                SessionModel::Preedit { text },
            ),
            SessionModel::Selecting(s) => (
                ask_model(
                    commit_opening(opening(kept), s, env).push(push),
                    AskOf::Observe,
                    InputPointOf::RawCommitted { text: confirmed_text(s) + s.remainder },
                ),
                SessionModel::Idle,
            ),
            _ => (
                ask_model(opening(kept).push(push), AskOf::Observe, InputPointOf::RawTyped),
                sess,
            ),
        }
    }
}

/// What a letter key does once the engine has taken the letter.
pub open spec fn typed_turn(
    point: InputPointModel,
    facts: FactsModel,
    env: InputEnv,
    sess: SessionModel,
) -> (Seq<EffectModel>, SessionModel) {
    let start = EffectOf::StartBg { candidates: env.live_beam };
    match point {
        InputPointOf::LiveTyped { reading, preview } => {
            let display = preview + added_part(facts.hiragana, reading);
            (
                seq![
                    EffectOf::NotifyLiveInput,
                    EffectOf::UpdateComposition {
                        text: display + pending_part(facts.preedit, facts.hiragana),
                    },
                ],
                SessionModel::LiveConv { reading: facts.hiragana, preview: display },
            )
        },
        InputPointOf::CommitTyped { text } => (
            seq![EffectOf::CommitThenStart { commit: text, preedit: facts.preedit }],
            sess,
        ),
        InputPointOf::Typed => (
            if facts.hiragana.len() > 0 {
                seq![
                    EffectOf::NotifyLiveInput,
                    EffectOf::UpdateComposition { text: facts.preedit },
                ]
            } else {
                seq![EffectOf::UpdateComposition { text: facts.preedit }]
            },
            sess,
        ),
        InputPointOf::RawLive { reading, preview } => {
            let display = preview + added_part(facts.hiragana, reading);
            (
                seq![
                    start,
                    EffectOf::NotifyLiveInput,
                    EffectOf::UpdateComposition { text: display },
                ],
                SessionModel::LiveConv { reading: facts.hiragana, preview: display },
            )
        },
        InputPointOf::RawCommitted { text } => (
            seq![start, EffectOf::CommitThenStart { commit: text, preedit: facts.preedit }],
            sess,
        ),
        InputPointOf::RawTyped => (
            seq![
                start,
                EffectOf::NotifyLiveInput,
                EffectOf::UpdateComposition { text: facts.preedit },
            ],
            sess,
        ),
    }
}

fn char_kind(c: char) -> (r: InputCharKind)
    ensures
        r == kind_of_char(c),
{
    let n: u32 = c as u32;
    if 0x41 <= n && n <= 0x5A {
        InputCharKind::FullwidthAlpha
    } else {
        InputCharKind::Char
    }
}

fn keep_key(
    c: char,
    kind: InputCharKind,
    raw: bool,
    kept: &mut KeptKeys,
    sess: &SessionState,
) -> (r: Turn<InputPoint>)
    ensures
        (r@, sess@) == kept_turn(sess@),
        final(kept)@ == old(kept)@.push(KeptKey { c, kind, raw }),
{
    let mut fx = no_effects();
    emit(&mut fx, EffectOf::BumpGeneration);
    push_pending_key(kept, c, kind, raw);
    emit(&mut fx, EffectOf::ShowLoading);
    done(fx, true)
}

fn open_input(kept: &Vec<KeptKey>) -> (r: Vec<Effect>)
    ensures
        views(r@) == opening(kept@),
{
    let mut fx = no_effects();
    emit(&mut fx, EffectOf::BumpGeneration);
    let ghost first: Seq<EffectModel> = seq![EffectOf::BumpGeneration];
    let ghost replays = kept@.map_values(|k: KeptKey| replay_of(k));
    let mut i: usize = 0;
    assert(views(fx@) == first + replays.take(0));
    while i < kept.len()
        invariant
            i <= kept@.len(),
            replays == kept@.map_values(|k: KeptKey| replay_of(k)),
            views(fx@) == first + replays.take(i as int),
        decreases kept.len() - i,
    {
        let key = kept[i];
        if key.raw {
            emit(&mut fx, EffectOf::PushRaw { c: key.c });
        } else {
            emit(&mut fx, EffectOf::Replay { c: key.c, kind: key.kind });
        }
        assert(replays.take(i + 1) == replays.take(i as int).push(replay_of(key)));
        i += 1;
    }
    assert(replays.take(i as int) == replays);
    emit(&mut fx, EffectOf::SuppressLiveCommit { on: false });
    fx
}

/// Appends that a choice is remembered, where it is.
pub fn emit_learn(fx: &mut Vec<Effect>, reading: &String, surface: &String, auto_learn: bool)
    ensures
        views(final(fx)@) == views(old(fx)@) + learnt(reading@, surface@, auto_learn),
{
    if *surface != *reading && auto_learn {
        emit(fx, EffectOf::Learn { reading: reading.clone(), surface: surface.clone() });
    }
    assert(views(fx@) == views(old(fx)@) + learnt(reading@, surface@, auto_learn));
}

/// What stands before the remainder once the open choice is committed.
pub fn confirm_choice(sess: &SessionState) -> (r: String)
    requires
        sess@ is Selecting,
    ensures
        r@ == confirmed_text(sess@->Selecting_0),
{
    let text = sess.current_or_original();
    match sess {
        SessionState::Selecting { punct_pending, .. } => {
            let mut tail = text;
            if let Some(p) = punct_pending {
                tail.push(*p);
            }
            proof {
                let s = sess@->Selecting_0;
                assert(tail@ == choice_text(s) + punct_text(s.punct_pending));
            }
            concat2(sess.selecting_prefix_clone().as_str(), tail.as_str())
        },
        _ => text,
    }
}

/// Commits the open choice and ends the session; returns the committed text.
fn commit_for_typing(fx: &mut Vec<Effect>, env: &InputEnv, sess: &mut SessionState) -> (r: String)
    requires
        old(sess)@ is Selecting,
        old(sess)@.wf(),
    ensures
        r@ == confirmed_text(old(sess)@->Selecting_0) + old(sess)@->Selecting_0.remainder,
        views(final(fx)@) == commit_opening(views(old(fx)@), old(sess)@->Selecting_0, *env),
        final(sess)@ == SessionModel::Idle,
{
    let text = sess.current_or_original();
    let reading = match sess.original_preedit() {
        Some(t) => t.to_owned(),
        None => String::new(),
    };
    let confirmed = confirm_choice(sess);
    let full = concat2(confirmed.as_str(), sess.selecting_remainder_clone().as_str());
    sess.set_idle();
    emit(fx, EffectOf::HideWindow);
    emit(fx, EffectOf::StopLiveTimer);
    emit_learn(fx, &reading, &text, env.auto_learn);
    emit(fx, EffectOf::Commit { text: full.clone() });
    emit(fx, EffectOf::ResetPreedit);
    full
}

/// A conversion that is being waited for is given up: the text is typed on, and the
/// window disappears.
pub fn prepare_for_direct_input(fx: &mut Vec<Effect>, sess: &mut SessionState)
    ensures
        match old(sess)@ {
            SessionModel::Waiting { text, .. } => final(sess)@ == (SessionModel::Preedit { text })
                && views(final(fx)@) == views(old(fx)@).push(EffectOf::HideWindow),
            _ => final(sess)@ == old(sess)@ && final(fx)@ == old(fx)@,
        },
{
    if sess.is_waiting() {
        let pre = match sess.preedit_text() {
            Some(t) => t.to_owned(),
            None => String::new(),
        };
        sess.set_preedit(pre);
        emit(fx, EffectOf::HideWindow);
    }
}

fn live_parts(sess: &SessionState) -> (r: (String, String))
    ensures
        sess@ is LiveConv ==> r.0@ == sess@->reading && r.1@ == sess@->preview,
{
    match sess.live_conv_parts() {
        Some((reading, preview)) => (reading.to_owned(), preview.to_owned()),
        None => (String::new(), String::new()),
    }
}

/// A letter key: `kept` holds the keys that were pressed while the engine was loading. The
/// key joins them where that is still so, and else they are typed before it, and none is kept.
pub fn on_input(
    c: char,
    loaded: bool,
    kept: &mut KeptKeys,
    env: &InputEnv,
    sess: &mut SessionState,
) -> (r: Turn<InputPoint>)
    requires
        old(sess)@.wf(),
    ensures
        (r@, final(sess)@) == input_turn(c, loaded, old(kept)@, *env, old(sess)@),
        final(kept)@ == kept_after(letter_key(c), loaded, old(kept)@),
        final(sess)@.wf(),
{
    let kind = char_kind(c);
    if !loaded {
        return keep_key(c, kind, false, kept, sess);
    }
    let waiting = drain_pending_keys(kept);
    let mut fx = open_input(&waiting);
    let beam = Some(env.live_beam);
    if sess.is_live_conv() {
        let (reading, preview) = live_parts(sess);
        emit(&mut fx, EffectOf::HideWindow);
        emit(&mut fx, EffectOf::StopLiveTimer);
        emit(&mut fx, EffectOf::ClearPreview);
        return ask(
            fx,
            AskOf::Type { c, kind, beam },
            InputPointOf::LiveTyped { reading, preview },
        );
    }
    if sess.is_range_select() {
        let reading = match sess.original_preedit() {
            Some(t) => t.to_owned(),
            None => String::new(),
        };
        sess.set_preedit(reading.clone());
        emit(&mut fx, EffectOf::HideWindow);
        emit(&mut fx, EffectOf::ForcePreedit { text: reading });
    }
    prepare_for_direct_input(&mut fx, sess);
    if sess.is_selecting() {
        let text = commit_for_typing(&mut fx, env, sess);
        return ask(fx, AskOf::Type { c, kind, beam }, InputPointOf::CommitTyped { text });
    }
    emit(&mut fx, EffectOf::PollDict);
    emit(&mut fx, EffectOf::PollModel);
    ask(fx, AskOf::Type { c, kind, beam }, InputPointOf::Typed)
}

/// A key whose character enters the composition as it is, such as the signs of the
/// numeric keypad.
pub fn on_input_raw(
    c: char,
    loaded: bool,
    kept: &mut KeptKeys,
    env: &InputEnv,
    sess: &mut SessionState,
) -> (r: Turn<InputPoint>)
    requires
        old(sess)@.wf(),
    ensures
        (r@, final(sess)@) == input_raw_turn(c, loaded, old(kept)@, *env, old(sess)@),
        final(kept)@ == kept_after(raw_key(c), loaded, old(kept)@),
        final(sess)@.wf(),
{
    if !loaded {
        return keep_key(c, InputCharKind::Char, true, kept, sess);
    }
    let waiting = drain_pending_keys(kept);
    let mut fx = open_input(&waiting);
    if sess.is_live_conv() {
        let (reading, preview) = live_parts(sess);
        emit(&mut fx, EffectOf::HideWindow);
        emit(&mut fx, EffectOf::StopLiveTimer);
        emit(&mut fx, EffectOf::ClearPreview);
        emit(&mut fx, EffectOf::PushRaw { c });
        return ask(fx, AskOf::Observe, InputPointOf::RawLive { reading, preview });
    }
    prepare_for_direct_input(&mut fx, sess);
    if sess.is_selecting() {
        let text = commit_for_typing(&mut fx, env, sess);
        emit(&mut fx, EffectOf::PushRaw { c });
        return ask(fx, AskOf::Observe, InputPointOf::RawCommitted { text });
    }
    emit(&mut fx, EffectOf::PushRaw { c });
    ask(fx, AskOf::Observe, InputPointOf::RawTyped)
}

fn live_display(preview: &String, reading: &String, new_reading: &String) -> (r: String)
    ensures
        r@ == preview@ + added_part(new_reading@, reading@),
{
    match after_prefix(new_reading.as_str(), reading.as_str()) {
        Some(suffix) => concat2(preview.as_str(), suffix.as_str()),
        None => concat2(preview.as_str(), new_reading.as_str()),
    }
}

/// `full` behind its beginning `prefix`; empty where it does not begin so.
pub fn suffix_after_prefix_or_empty(full: &str, prefix: &str) -> (r: String)
    ensures
        r@ == pending_part(full@, prefix@),
{
    match after_prefix(full, prefix) {
        Some(suffix) => suffix,
        None => String::new(),
    }
}

/// Finishes a letter key once the engine has taken the letter.
pub fn on_typed(
    point: InputPoint,
    facts: &EngineFacts,
    env: &InputEnv,
    sess: &mut SessionState,
) -> (r: Turn<InputPoint>)
    requires
        old(sess)@.wf(),
    ensures
        r@ == done_model::<InputPointModel>(
            typed_turn(point@, facts@, *env, old(sess)@).0,
            true,
        ),
        final(sess)@ == typed_turn(point@, facts@, *env, old(sess)@).1,
        final(sess)@.wf(),
{
    let mut fx = no_effects();
    match point {
        InputPointOf::LiveTyped { reading, preview } => {
            let display = live_display(&preview, &reading, &facts.hiragana);
            let pending = suffix_after_prefix_or_empty(
                facts.preedit.as_str(),
                facts.hiragana.as_str(),
            );
            emit(&mut fx, EffectOf::NotifyLiveInput);
            emit(
                &mut fx,
                EffectOf::UpdateComposition {
                    text: concat2(display.as_str(), pending.as_str()),
                },
            );
            sess.set_live_conv(facts.hiragana.clone(), display);
        },
        InputPointOf::CommitTyped { text } => {
            emit(
                &mut fx,
                EffectOf::CommitThenStart { commit: text, preedit: facts.preedit.clone() },
            );
        },
        InputPointOf::Typed => {
            if !facts.hiragana.as_str().is_empty() {
                emit(&mut fx, EffectOf::NotifyLiveInput);
            }
            emit(&mut fx, EffectOf::UpdateComposition { text: facts.preedit.clone() });
        },
        InputPointOf::RawLive { reading, preview } => {
            let display = live_display(&preview, &reading, &facts.hiragana);
            emit(&mut fx, EffectOf::StartBg { candidates: env.live_beam });
            emit(&mut fx, EffectOf::NotifyLiveInput);
            emit(&mut fx, EffectOf::UpdateComposition { text: display.clone() });
            sess.set_live_conv(facts.hiragana.clone(), display);
        },
        InputPointOf::RawCommitted { text } => {
            emit(&mut fx, EffectOf::StartBg { candidates: env.live_beam });
            emit(
                &mut fx,
                EffectOf::CommitThenStart { commit: text, preedit: facts.preedit.clone() },
            );
        },
        InputPointOf::RawTyped => {
            emit(&mut fx, EffectOf::StartBg { candidates: env.live_beam });
            emit(&mut fx, EffectOf::NotifyLiveInput);
            emit(&mut fx, EffectOf::UpdateComposition { text: facts.preedit.clone() });
        },
    }
    done(fx, true)
}

/// What Shift+Space puts into the document: the composed text first, where there is
/// one.
pub open spec fn full_width_space_effects(preedit: Seq<char>) -> Seq<EffectModel> {
    let space = EffectOf::CommitText { text: "　"@ };
    if preedit.len() > 0 {
        seq![
            EffectOf::Commit { text: preedit },
            EffectOf::ResetPreedit,
            EffectOf::EndComposition { text: preedit },
            space,
        ]
    } else {
        seq![space]
    }
}

/// Shift+Space: a full-width space behind what is composed.
pub fn on_full_width_space(facts: &EngineFacts) -> (r: Turn<InputPoint>)
    ensures
        r@ == done_model::<InputPointModel>(full_width_space_effects(facts@.preedit), true),
{
    let mut fx = no_effects();
    if !facts.preedit.as_str().is_empty() {
        emit(&mut fx, EffectOf::Commit { text: facts.preedit.clone() });
        emit(&mut fx, EffectOf::ResetPreedit);
        emit(&mut fx, EffectOf::EndComposition { text: facts.preedit.clone() });
    }
    emit(&mut fx, EffectOf::CommitText { text: "　".to_owned() });
    done(fx, true)
}

/// Letters that continue the reading of a live conversion are shown behind its
/// preview: neither the preview nor a letter gets lost.
pub proof fn live_typing_keeps_letters(
    reading: Seq<char>,
    preview: Seq<char>,
    kana: Seq<char>,
    letters: Seq<char>,
    facts: FactsModel,
    env: InputEnv,
    sess: SessionModel,
)
    requires
        facts.hiragana == reading + kana,
        facts.preedit == facts.hiragana + letters,
    ensures
        typed_turn(InputPointOf::LiveTyped { reading, preview }, facts, env, sess).0.contains(
            EffectOf::UpdateComposition { text: preview + kana + letters },
        ),
        typed_turn(InputPointOf::LiveTyped { reading, preview }, facts, env, sess).1 == (
        SessionModel::LiveConv { reading: reading + kana, preview: preview + kana }),
{
    let t = typed_turn(InputPointOf::LiveTyped { reading, preview }, facts, env, sess);
    assert(facts.hiragana.take(reading.len() as int) == reading);
    assert(facts.hiragana.skip(reading.len() as int) == kana);
    assert(facts.preedit.take(facts.hiragana.len() as int) == facts.hiragana);
    assert(facts.preedit.skip(facts.hiragana.len() as int) == letters);
    assert(t.0[1] == EffectOf::<Seq<char>, Seq<Seq<char>>>::UpdateComposition {
        text: preview + kana + letters,
    });
}

/// The keys that are kept after the keys `pressed`, with the engine loading all the while.
pub open spec fn kept_while_loading(kept: Seq<KeptKey>, pressed: Seq<KeptKey>) -> Seq<KeptKey>
    decreases pressed.len(),
{
    if pressed.len() == 0 {
        kept
    } else {
        kept_after(pressed.last(), false, kept_while_loading(kept, pressed.drop_last()))
    }
}

/// Whether an effect types a character.
pub open spec fn types_key(effect: EffectModel) -> bool {
    effect is Replay || effect is PushRaw
}

/// Nothing but the loading is shown for a key that is kept, and it is used up.
pub proof fn kept_key_is_used_up(c: char, kept: Seq<KeptKey>, env: InputEnv, sess: SessionModel)
    ensures
        input_turn(c, false, kept, env, sess) == kept_turn(sess),
        input_raw_turn(c, false, kept, env, sess) == kept_turn(sess),
{
}

/// No key is lost, doubled or moved while the engine loads: all keys pressed meanwhile are
/// kept in their order, the first key after it types each of them once in that order before
/// it is typed itself, and none is kept then.
pub proof fn kept_keys_are_replayed(
    pressed: Seq<KeptKey>,
    c: char,
    env: InputEnv,
    sess: SessionModel,
)
    ensures
        kept_while_loading(Seq::empty(), pressed) == pressed,
        input_turn(c, true, pressed, env, sess).0.effects.take(
            (pressed.len() + 2) as int,
        ) == opening(pressed),
        input_raw_turn(c, true, pressed, env, sess).0.effects.take(
            (pressed.len() + 2) as int,
        ) == opening(pressed),
        opening(pressed).len() == pressed.len() + 2,
        forall|i: int|
            0 <= i < pressed.len() ==> #[trigger] opening(pressed)[i + 1] == replay_of(pressed[i]),
        input_turn(c, true, pressed, env, sess).0.next matches NextModel::Ask {
            ask: AskOf::Type { c: typed, .. },
            ..
        } && typed == c,
        forall|i: int|
            pressed.len() + 2 <= i < input_turn(c, true, pressed, env, sess).0.effects.len()
                ==> !types_key(#[trigger] input_turn(c, true, pressed, env, sess).0.effects[i]),
        ({
            let effects = input_raw_turn(c, true, pressed, env, sess).0.effects;
            &&& effects.last() == replay_of(raw_key(c))
            &&& forall|i: int|
                pressed.len() + 2 <= i < effects.len() - 1 ==> !types_key(#[trigger] effects[i])
        }),
        kept_after(letter_key(c), true, pressed).len() == 0,
        kept_after(raw_key(c), true, pressed).len() == 0,
{
    lemma_kept_in_order(Seq::empty(), pressed);
    assert(Seq::<KeptKey>::empty() + pressed == pressed);
    let n = (pressed.len() + 2) as int;
    let o = opening(pressed);
    let typed = input_turn(c, true, pressed, env, sess).0.effects;
    let pushed = input_raw_turn(c, true, pressed, env, sess).0.effects;
    assert(typed.take(n) =~= o);
    assert(pushed.take(n) =~= o);
}

proof fn lemma_kept_in_order(kept: Seq<KeptKey>, pressed: Seq<KeptKey>)
    ensures
        kept_while_loading(kept, pressed) == kept + pressed,
    decreases pressed.len(),
{
    if pressed.len() > 0 {
        lemma_kept_in_order(kept, pressed.drop_last());
        assert((kept + pressed.drop_last()).push(pressed.last()) =~= kept + pressed);
    } else {
        assert(kept + pressed =~= kept);
    }
}

/// A character that bypasses the romaji rules stays visible behind a live preview: it is shown
/// there, and Enter will commit it.
pub proof fn raw_character_is_shown_behind_preview(
    w: World,
    reading: Seq<char>,
    preview: Seq<char>,
    added: Seq<char>,
    facts: FactsModel,
    env: InputEnv,
    sess: SessionModel,
)
    requires
        facts.hiragana == reading + added,
    ensures
        ({
            let (fx, after) = typed_turn(
                InputPointOf::RawLive { reading, preview },
                facts,
                env,
                sess,
            );
            let then = played(w, fx);
            &&& then.composition == preview + added
            &&& after == (SessionModel::LiveConv {
                reading: reading + added,
                preview: preview + added,
            })
            &&& then.live
            &&& then.background == Some(env.live_beam)
            &&& then.document == w.document
        }),
{
    reveal_with_fuel(played_to, 5);
    assert(facts.hiragana.take(reading.len() as int) =~= reading);
    assert(facts.hiragana.skip(reading.len() as int) =~= added);
}

/// What is composed anew behind a live preview, where it does not continue the reading, is
/// shown whole behind the preview.
pub proof fn other_reading_is_shown_behind_preview(
    w: World,
    reading: Seq<char>,
    preview: Seq<char>,
    facts: FactsModel,
    env: InputEnv,
    sess: SessionModel,
)
    requires
        facts.hiragana.len() < reading.len() || facts.hiragana.take(reading.len() as int)
            != reading,
    ensures
        typed_turn(InputPointOf::RawLive { reading, preview }, facts, env, sess).1 == (
        SessionModel::LiveConv { reading: facts.hiragana, preview: preview + facts.hiragana }),
        typed_turn(InputPointOf::LiveTyped { reading, preview }, facts, env, sess).1 == (
        SessionModel::LiveConv { reading: facts.hiragana, preview: preview + facts.hiragana }),
        played(
            w,
            typed_turn(InputPointOf::RawLive { reading, preview }, facts, env, sess).0,
        ).composition == preview + facts.hiragana,
{
    reveal_with_fuel(played_to, 5);
}

/// What is typed is shown as the engine composes it, and live conversion is told; nothing goes
/// into the document and the session stays.
pub proof fn typed_text_is_shown(
    w: World,
    facts: FactsModel,
    env: InputEnv,
    sess: SessionModel,
)
    ensures
        ({
            let (fx, after) = typed_turn(InputPointOf::Typed, facts, env, sess);
            &&& after == sess
            &&& played(w, fx) == (World {
                composition: facts.preedit,
                live: w.live || facts.hiragana.len() > 0,
                ..w
            })
        }),
        ({
            let (fx, after) = typed_turn(InputPointOf::RawTyped, facts, env, sess);
            &&& after == sess
            &&& played(w, fx) == (World {
                composition: facts.preedit,
                live: true,
                background: Some(env.live_beam),
                ..w
            })
        }),
{
    reveal_with_fuel(played_to, 5);
}

/// A letter that is typed behind a live preview tells live conversion.
pub proof fn live_typing_tells_live_conversion(
    w: World,
    reading: Seq<char>,
    preview: Seq<char>,
    facts: FactsModel,
    env: InputEnv,
    sess: SessionModel,
)
    ensures
        ({
            let fx = typed_turn(InputPointOf::LiveTyped { reading, preview }, facts, env, sess).0;
            &&& played(w, fx).live
            &&& played(w, fx) == (World {
                live: true,
                composition: played(w, fx).composition,
                ..w
            })
        }),
{
    reveal_with_fuel(played_to, 5);
}

proof fn lemma_opening(w: World, kept: Seq<KeptKey>)
    requires
        kept.len() == 0,
    ensures
        played(w, opening(kept)) == (World {
            generation: w.generation + 1,
            suppressed: false,
            ..w
        }),
{
    reveal_with_fuel(played_to, 4);
    assert(opening(kept) =~= seq![
        EffectModel::BumpGeneration,
        EffectModel::SuppressLiveCommit { on: false },
    ]);
}

/// A letter goes to the engine, capitals as full-width letters and all others through the
/// romaji rules; previews of what was typed before are outdated then, and Enter commits live
/// conversions again. Nothing goes into the document unless a choice is open.
#[verifier::spinoff_prover]
#[verifier::rlimit(60)]
pub proof fn letter_goes_to_engine(
    w: World,
    c: char,
    env: InputEnv,
    sess: SessionModel,
)
    requires
        !(sess is Selecting),
    ensures
        ({
            let (turn, after) = input_turn(c, true, Seq::empty(), env, sess);
            let then = played(w, turn.effects);
            &&& turn.next is Ask
            &&& turn.next->ask == (AskOf::<Seq<char>, Seq<Seq<char>>>::Type {
                c,
                kind: if 'A' <= c && c <= 'Z' {
                    InputCharKind::FullwidthAlpha
                } else {
                    InputCharKind::Char
                },
                beam: Some(env.live_beam),
            })
            &&& then.document == w.document
            &&& then.generation == w.generation + 1
            &&& !then.suppressed
            &&& match sess {
                SessionModel::LiveConv { reading, preview } => {
                    &&& turn.next->then == InputPointOf::LiveTyped { reading, preview }
                    &&& after == sess
                    &&& !then.live && !then.preview && then.window is None
                    &&& then.composition == w.composition
                },
                SessionModel::RangeSelect { full_reading, .. } => {
                    &&& turn.next->then is Typed
                    &&& after == (SessionModel::Preedit { text: full_reading })
                    &&& then.engine == full_reading
                    &&& then.window is None
                },
                SessionModel::Waiting { text, .. } => {
                    &&& turn.next->then is Typed
                    &&& after == (SessionModel::Preedit { text })
                    &&& then.engine == w.engine
                    &&& then.window is None
                },
                _ => turn.next->then is Typed && after == sess && then.engine == w.engine,
            }
        }),
{
    let none = Seq::<KeptKey>::empty();
    let o = opening(none);
    let turn = input_turn(c, true, none, env, sess).0;
    lemma_char_kind(c);
    lemma_opening(w, none);
    let opened = played(w, o);
    match sess {
        SessionModel::LiveConv { .. } => {
            let tail = seq![
                EffectModel::HideWindow,
                EffectModel::StopLiveTimer,
                EffectModel::ClearPreview,
            ];
            assert(turn.effects =~= o + tail);
            played_in_turn(w, o, tail);
            assert(played(opened, tail) == (World {
                window: None,
                live: false,
                preview: false,
                ..opened
            })) by {
                reveal_with_fuel(played_to, 4);
            }
        },
        SessionModel::RangeSelect { full_reading, .. } => {
            let tail = seq![
                EffectModel::HideWindow,
                EffectModel::ForcePreedit { text: full_reading },
                EffectModel::PollDict,
                EffectModel::PollModel,
            ];
            assert(turn.effects =~= o + tail);
            played_in_turn(w, o, tail);
            assert(played(opened, tail) == (World {
                window: None,
                engine: full_reading,
                ..opened
            })) by {
                reveal_with_fuel(played_to, 5);
            }
        },
        SessionModel::Waiting { .. } => {
            let tail = seq![
                EffectModel::HideWindow,
                EffectModel::PollDict,
                EffectModel::PollModel,
            ];
            assert(turn.effects =~= o + tail);
            played_in_turn(w, o, tail);
            assert(played(opened, tail) == (World { window: None, ..opened })) by {
                reveal_with_fuel(played_to, 4);
            }
        },
        _ => {
            let tail = seq![EffectModel::PollDict, EffectModel::PollModel];
            assert(turn.effects =~= o + tail);
            played_in_turn(w, o, tail);
            assert(played(opened, tail) == opened) by {
                reveal_with_fuel(played_to, 3);
            }
        },
    }
}

proof fn lemma_char_kind(c: char)
    ensures
        ('A' <= c && c <= 'Z') == ('A' as u32 <= c as u32 <= 'Z' as u32),
{
}

/// A character that bypasses the romaji rules is appended to what the engine composes.
pub proof fn raw_character_goes_to_engine(
    w: World,
    c: char,
    env: InputEnv,
    sess: SessionModel,
)
    requires
        !(sess is Selecting),
    ensures
        ({
            let (turn, after) = input_raw_turn(c, true, Seq::empty(), env, sess);
            let then = played(w, turn.effects);
            &&& turn.next is Ask
            &&& turn.next->ask is Observe
            &&& then.engine == w.engine.push(c)
            &&& then.document == w.document
            &&& then.generation == w.generation + 1
            &&& !then.suppressed
            &&& match sess {
                SessionModel::LiveConv { reading, preview } => {
                    &&& turn.next->then == InputPointOf::RawLive { reading, preview }
                    &&& after == sess
                    &&& !then.live && !then.preview && then.window is None
                },
                SessionModel::Waiting { text, .. } => {
                    &&& turn.next->then is RawTyped
                    &&& after == (SessionModel::Preedit { text })
                    &&& then.window is None
                },
                _ => turn.next->then is RawTyped && after == sess,
            }
        }),
{
    let none = Seq::<KeptKey>::empty();
    let o = opening(none);
    let turn = input_raw_turn(c, true, none, env, sess).0;
    lemma_opening(w, none);
    let opened = played(w, o);
    let push = EffectModel::PushRaw { c };
    match sess {
        SessionModel::LiveConv { .. } => {
            let tail = seq![
                EffectModel::HideWindow,
                EffectModel::StopLiveTimer,
                EffectModel::ClearPreview,
                push,
            ];
            assert(turn.effects =~= o + tail);
            played_in_turn(w, o, tail);
            assert(played(opened, tail) == (World {
                window: None,
                live: false,
                preview: false,
                engine: opened.engine.push(c),
                ..opened
            })) by {
                reveal_with_fuel(played_to, 5);
            }
        },
        SessionModel::Waiting { .. } => {
            let tail = seq![EffectModel::HideWindow, push];
            assert(turn.effects =~= o + tail);
            played_in_turn(w, o, tail);
            assert(played(opened, tail) == (World {
                window: None,
                engine: opened.engine.push(c),
                ..opened
            })) by {
                reveal_with_fuel(played_to, 3);
            }
        },
        _ => {
            assert(turn.effects =~= o.push(push));
            played_one_more(w, o, push);
        },
    }
}

proof fn lemma_commit_opening(w: World, s: SelectingModel, env: InputEnv)
    ensures
        played(w, commit_opening(opening(Seq::empty()), s, env)) == (World {
            generation: w.generation + 1,
            suppressed: false,
            window: None,
            live: false,
            learnt: if choice_text(s) != s.original_preedit && env.auto_learn {
                w.learnt.push((s.original_preedit, choice_text(s)))
            } else {
                w.learnt
            },
            told: w.told.push(confirmed_text(s) + s.remainder),
            engine: Seq::empty(),
            ..w
        }),
{
    let none = Seq::<KeptKey>::empty();
    let o = opening(none);
    let whole = confirmed_text(s) + s.remainder;
    lemma_opening(w, none);
    let opened = played(w, o);
    let off = seq![EffectModel::HideWindow, EffectModel::StopLiveTimer];
    let told = seq![EffectModel::Commit { text: whole }, EffectModel::ResetPreedit];
    let l = learnt(s.original_preedit, choice_text(s), env.auto_learn);
    assert(commit_opening(o, s, env) =~= o + off + l + told);
    played_in_turn(w, o, off);
    played_in_turn(w, o + off, l);
    played_in_turn(w, o + off + l, told);
    let closed = World { window: None, live: false, ..opened };
    assert(played(opened, off) == closed) by {
        reveal_with_fuel(played_to, 3);
    }
    let remembered = World {
        learnt: if choice_text(s) != s.original_preedit && env.auto_learn {
            w.learnt.push((s.original_preedit, choice_text(s)))
        } else {
            w.learnt
        },
        ..closed
    };
    assert(played(closed, l) == remembered) by {
        reveal_with_fuel(played_to, 3);
    }
    assert(played(remembered, told) == (World {
        told: w.told.push(whole),
        engine: Seq::empty(),
        ..remembered
    })) by {
        reveal_with_fuel(played_to, 3);
    }
}

/// Typing while a choice is open commits the choice whole, the selected candidate between
/// what stands before and behind it and with its sign, and the new character begins the next
/// composition.
pub proof fn typing_commits_the_choice(
    w: World,
    c: char,
    env: InputEnv,
    s: SelectingModel,
    facts: FactsModel,
)
    requires
        0 <= s.selected < s.candidates.len(),
    ensures
        ({
            let chosen = s.candidates[s.selected];
            let sign = if s.punct_pending is Some {
                Seq::empty().push(s.punct_pending->0)
            } else {
                Seq::empty()
            };
            let whole = s.prefix + chosen + sign + s.remainder;
            let sess = SessionModel::Selecting(s);
            let typed = input_turn(c, true, Seq::empty(), env, sess);
            let raw = input_raw_turn(c, true, Seq::empty(), env, sess);
            let typed_end = typed_turn(typed.0.next->then, facts, env, typed.1);
            let raw_end = typed_turn(raw.0.next->then, facts, env, raw.1);
            let after_typed = played(played(w, typed.0.effects), typed_end.0);
            let after_raw = played(played(w, raw.0.effects), raw_end.0);
            &&& typed.0.next is Ask && typed.0.next->ask is Type && typed.0.next->ask->Type_c == c
            &&& raw.0.next is Ask && raw.0.next->ask is Observe
            &&& played(w, typed.0.effects).engine.len() == 0
            &&& played(w, raw.0.effects).engine == Seq::empty().push(c)
            &&& after_typed.document == w.document + whole
            &&& after_raw.document == w.document + whole
            &&& after_typed.told == w.told.push(whole)
            &&& after_raw.told == w.told.push(whole)
            &&& after_typed.composition == facts.preedit
            &&& after_raw.composition == facts.preedit
            &&& typed_end.1 is Idle && raw_end.1 is Idle
            &&& after_typed.window is None && after_raw.window is None
            &&& after_typed.learnt == after_raw.learnt
            &&& after_typed.learnt == if chosen != s.original_preedit && env.auto_learn {
                w.learnt.push((s.original_preedit, chosen))
            } else {
                w.learnt
            }
        }),
{
    let none = Seq::<KeptKey>::empty();
    let chosen = s.candidates[s.selected];
    let sign = if s.punct_pending is Some {
        Seq::empty().push(s.punct_pending->0)
    } else {
        Seq::empty()
    };
    let whole = s.prefix + chosen + sign + s.remainder;
    assert(punct_text(s.punct_pending) =~= sign);
    assert(confirmed_text(s) + s.remainder =~= whole);
    let sess = SessionModel::Selecting(s);
    let typed = input_turn(c, true, none, env, sess);
    let raw = input_raw_turn(c, true, none, env, sess);
    lemma_commit_opening(w, s, env);
    let all = commit_opening(opening(none), s, env);
    played_one_more(w, all, EffectModel::PushRaw { c });
    lemma_started(played(w, typed.0.effects), whole, facts, env, typed.1);
    lemma_started(played(w, raw.0.effects), whole, facts, env, raw.1);
}

proof fn lemma_started(
    w: World,
    text: Seq<char>,
    facts: FactsModel,
    env: InputEnv,
    sess: SessionModel,
)
    ensures
        played(w, typed_turn(InputPointOf::CommitTyped { text }, facts, env, sess).0) == (World {
            document: w.document + text,
            composition: facts.preedit,
            ..w
        }),
        played(w, typed_turn(InputPointOf::RawCommitted { text }, facts, env, sess).0) == (World {
            document: w.document + text,
            composition: facts.preedit,
            background: Some(env.live_beam),
            ..w
        }),
{
    reveal_with_fuel(played_to, 3);
}

/// A key that is pressed while the engine loads changes nothing that is composed, shown or
/// committed; it is kept with its character and the way it is typed.
pub proof fn kept_key_changes_nothing(
    w: World,
    c: char,
    kept: Seq<KeptKey>,
    env: InputEnv,
    sess: SessionModel,
)
    ensures
        input_turn(c, false, kept, env, sess).1 == sess,
        input_turn(c, false, kept, env, sess).0.next == (NextModel::<InputPointModel>::Done {
            eaten: true,
        }),
        played(w, input_turn(c, false, kept, env, sess).0.effects) == (World {
            generation: w.generation + 1,
            ..w
        }),
        input_raw_turn(c, false, kept, env, sess) == input_turn(c, false, kept, env, sess),
        input_turn(c, false, kept, env, sess).0.effects.contains(EffectOf::ShowLoading),
        kept_after(letter_key(c), false, kept).last() == (KeptKey {
            c,
            kind: if 'A' <= c && c <= 'Z' {
                InputCharKind::FullwidthAlpha
            } else {
                InputCharKind::Char
            },
            raw: false,
        }),
        kept_after(raw_key(c), false, kept).last() == (KeptKey {
            c,
            kind: InputCharKind::Char,
            raw: true,
        }),
        kept_after(letter_key(c), false, kept).drop_last() == kept,
{
    reveal_with_fuel(played_to, 4);
    lemma_char_kind(c);
    let fx = input_turn(c, false, kept, env, sess).0.effects;
    assert(fx[1] == EffectModel::ShowLoading);
    assert(kept.push(letter_key(c)).drop_last() =~= kept);
}

/// A kept key is typed as it would have been: through the romaji rules in its kind, or
/// without them.
pub proof fn kept_key_is_typed_as_pressed(kept: Seq<KeptKey>, i: int)
    requires
        0 <= i < kept.len(),
    ensures
        kept[i].raw ==> opening(kept)[i + 1] == (EffectModel::PushRaw { c: kept[i].c }),
        !kept[i].raw ==> opening(kept)[i + 1] == (EffectModel::Replay {
            c: kept[i].c,
            kind: kept[i].kind,
        }),
        opening(kept)[0] == EffectModel::BumpGeneration,
        opening(kept)[kept.len() as int + 1] == (EffectModel::SuppressLiveCommit { on: false }),
{
}

/// Shift+Space puts a full-width space into the document, behind what is composed, which is
/// committed.
pub proof fn full_width_space_follows_text(w: World, preedit: Seq<char>)
    ensures
        ({
            let then = played(w, full_width_space_effects(preedit));
            &&& then.document == (w.document + preedit).push('　')
            &&& preedit.len() > 0 ==> then.told == w.told.push(preedit) && then.engine.len() == 0
                && then.composition.len() == 0
            &&& preedit.len() == 0 ==> then == (World { document: then.document, ..w })
        }),
{
    reveal_with_fuel(played_to, 6);
    reveal_strlit("　");
    assert(w.document + preedit + "　"@ =~= (w.document + preedit).push('　'));
    assert(w.document + "　"@ =~= w.document.push('　'));
    if preedit.len() == 0 {
        assert(w.document + preedit =~= w.document);
    }
}

} // verus!
