use rakukan::engine::input_mode::InputMode;
use rakukan::engine::state::SessionState;
use rakukan::tsf::action::{
    action_name, dispatch, handle_action, key_should_eat, loading_indicator_symbol,
    normalize_key_event_vk, on_key_down, on_test_key_down, ActionEnv, ActionPoint, ActionPointOf,
    Handler, HeldKeys, KeyVerdict, UserAction,
};
use rakukan::tsf::commit::{
    engine_commit_hiragana, on_candidate_select, on_commit_raw, CommitEnv, CommitPoint,
    CommitPointOf,
};
use rakukan::tsf::convert::{on_convert, ConvertEnv, ConvertPoint, ConvertPointOf, CONVERTING};
use rakukan::tsf::edit::{
    on_backspace, on_cancel, on_cycle_kana, on_kana_convert, on_latin_convert, EditPoint,
    RewriteKey, RomajiLog,
};
use rakukan::tsf::effects::{
    Ask, AskOf, BgStatus, Effect, EffectOf, EngineFacts, InputCharKind, Next, Reply, ReplyOf, Turn,
};
use rakukan::tsf::input::{
    drain_pending_keys, on_full_width_space, on_input, on_input_raw, on_typed, push_pending_key,
    suffix_after_prefix_or_empty, InputEnv, InputPoint, KeptKey, KeptKeys,
};
use rakukan::tsf::live::{
    apply_kept_preview, fetch_preview, on_live_timer, pass_debounce, sanity_check_preview,
    too_short, try_apply_phase1a, EditVerdict, LiveActionOf, LiveEnv, LiveEventOf, LiveSnapshotOf, PeekedOf,
    PreviewEntry, PreviewEntryOf, ProbeOf,
};
use rakukan::tsf::live_session::{
    context_snapshot, invalidate_live_context_for_dm, live_input_notify, load_last_input_ms,
    LiveConvSession,
};
use rakukan::tsf::mode::{
    mode_char, on_ime_off, on_ime_on, on_ime_toggle, on_mode_hiragana, on_mode_katakana,
    open_for_mode,
};
use rakukan::tsf::punctuate::{on_punctuate, PunctEnv, PunctPoint, PunctPointOf};
use rakukan::tsf::select::{
    on_candidate_move, on_candidate_page, on_segment_extend, on_segment_move_left,
    on_segment_move_right, on_segment_shrink, CandidateDir,
};
use rakukan::tsf::waiting::{on_waiting_timer, WaitPoint, WaitPointOf};

/// An engine that knows a few words.
struct FakeEngine {
    hiragana: String,
    pending: String,
    kanji_ready: bool,
    bg: BgStatus,
    /// Whether a conversion that runs is finished by waiting for it.
    finishes: bool,
    /// What the conversion that is done is of.
    bg_key: String,
    committed: Vec<String>,
    learned: Vec<(String, String)>,
}

impl FakeEngine {
    fn new(hiragana: &str) -> FakeEngine {
        FakeEngine {
            hiragana: hiragana.into(),
            pending: String::new(),
            kanji_ready: true,
            bg: BgStatus::Idle,
            finishes: true,
            bg_key: String::new(),
            committed: Vec::new(),
            learned: Vec::new(),
        }
    }

    fn facts(&self) -> EngineFacts {
        let preedit = format!("{}{}", self.hiragana, self.pending);
        EngineFacts {
            preedit_empty: preedit.is_empty(),
            preedit,
            hiragana: self.hiragana.clone(),
            kanji_ready: self.kanji_ready,
            bg: self.bg,
        }
    }

    fn words(key: &str) -> Vec<String> {
        let words: &[&str] = match key {
            "きょう" => &["今日", "京"],
            "ねこ" => &["猫"],
            _ => &[],
        };
        words.iter().map(|s| s.to_string()).collect()
    }

    fn start(&mut self) -> bool {
        if !self.kanji_ready {
            return false;
        }
        self.bg = BgStatus::Running;
        self.bg_key = self.hiragana.clone();
        true
    }

    fn apply(&mut self, effect: &Effect) {
        match effect {
            EffectOf::FlushPending => {
                if self.pending == "n" {
                    self.hiragana.push('ん');
                    self.pending.clear();
                }
            }
            EffectOf::Reclaim => {
                if self.bg != BgStatus::Running {
                    self.bg = BgStatus::Idle;
                }
            }
            EffectOf::StartBg { .. } => {
                self.start();
            }
            EffectOf::ForcePreedit { text } => {
                self.hiragana = text.clone();
                self.pending.clear();
            }
            EffectOf::PushRaw { c } => self.hiragana.push(*c),
            EffectOf::PushRawText { text } => self.hiragana.push_str(text),
            EffectOf::Replay { c, .. } => self.pending.push(*c),
            EffectOf::Learn { reading, surface } => {
                self.learned.push((reading.clone(), surface.clone()))
            }
            EffectOf::Commit { text } => self.committed.push(text.clone()),
            EffectOf::ResetPreedit | EffectOf::ResetAll => {
                self.hiragana.clear();
                self.pending.clear();
            }
            _ => {}
        }
    }

    fn answer(&mut self, ask: Ask) -> Reply {
        match ask {
            AskOf::Observe => ReplyOf::Seen,
            AskOf::Wait { .. } => {
                if self.bg == BgStatus::Running && self.finishes {
                    self.bg = BgStatus::Done;
                }
                ReplyOf::Flag { on: self.bg == BgStatus::Done }
            }
            AskOf::Start { .. } => ReplyOf::Flag { on: self.start() },
            AskOf::Take { key } => {
                if self.bg == BgStatus::Done && self.bg_key == key {
                    self.bg = BgStatus::Idle;
                    ReplyOf::Taken { found: Some(FakeEngine::words(&key)) }
                } else {
                    ReplyOf::Taken { found: None }
                }
            }
            AskOf::Merge { candidates, limit } => {
                let mut items = candidates;
                let text = self.hiragana.clone();
                if !items.contains(&text) {
                    items.push(text);
                }
                items.truncate(limit);
                ReplyOf::List { items }
            }
            AskOf::ConvertSync => ReplyOf::List { items: FakeEngine::words(&self.hiragana) },
            AskOf::Type { c, .. } => {
                self.pending.push(c);
                if self.pending == "a" {
                    self.pending.clear();
                    self.hiragana.push('あ');
                }
                ReplyOf::Seen
            }
            AskOf::Backspace => {
                let erased = self.pending.pop().is_some() || self.hiragana.pop().is_some();
                ReplyOf::Flag { on: erased }
            }
        }
    }

    /// Runs a handler from a point on to its end: what it did, and whether it took the key.
    fn run<P>(
        &mut self,
        first: P,
        mut turn: impl FnMut(P, Reply, &EngineFacts) -> Turn<P>,
    ) -> (Vec<Effect>, bool) {
        let mut point = first;
        let mut reply: Reply = ReplyOf::Seen;
        let mut all = Vec::new();
        for _ in 0..60 {
            let facts = self.facts();
            let Turn { effects, next } = turn(point, reply, &facts);
            for effect in &effects {
                self.apply(effect);
            }
            all.extend(effects);
            match next {
                Next::Done { eaten } => return (all, eaten),
                Next::Ask { ask, then } => {
                    reply = self.answer(ask);
                    point = then;
                }
            }
        }
        panic!("the handler does not end")
    }

    fn convert(&mut self, sess: &mut SessionState) -> (Vec<Effect>, bool) {
        let env = ConvertEnv {
            mode: InputMode::Hiragana,
            num_candidates: 6,
            caret_x: 10,
            caret_y: 20,
        };
        let first: ConvertPoint = ConvertPointOf::Enter;
        self.run(first, |p, r, f| on_convert(p, r, f, &env, sess))
    }

    fn commit(&mut self, live: bool, sess: &mut SessionState) -> (Vec<Effect>, bool) {
        let env = CommitEnv {
            num_candidates: 6,
            live_beam: 1,
            auto_learn: true,
            live_enabled: live,
            suppressed: false,
        };
        let first: CommitPoint = CommitPointOf::Enter;
        self.run(first, |p, r, f| on_commit_raw(p, r, f, &env, sess))
    }

    fn punctuate(&mut self, c: char, sess: &mut SessionState) -> (Vec<Effect>, bool) {
        let env = PunctEnv { c, num_candidates: 6, caret_x: 10, caret_y: 20 };
        let first: PunctPoint = PunctPointOf::Enter;
        self.run(first, |p, r, f| on_punctuate(p, r, f, &env, sess))
    }

    fn tick(&mut self, sess: &mut SessionState) -> Vec<Effect> {
        let first: WaitPoint = WaitPointOf::Tick;
        self.run(first, |p, r, f| on_waiting_timer(p, r, Some(f), 6, sess)).0
    }

    fn type_key(&mut self, c: char, sess: &mut SessionState) -> Vec<Effect> {
        let env = InputEnv { live_beam: 1, auto_learn: true };
        let turn = on_input(c, true, &mut KeptKeys::default(), &env, sess);
        self.finish_typing(turn, sess)
    }

    fn finish_typing(
        &mut self,
        turn: Turn<InputPoint>,
        sess: &mut SessionState,
    ) -> Vec<Effect> {
        let env = InputEnv { live_beam: 1, auto_learn: true };
        let mut all = turn.effects;
        for effect in &all {
            self.apply(effect);
        }
        if let Next::Ask { ask, then } = turn.next {
            self.answer(ask);
            let facts = self.facts();
            let after = on_typed(then, &facts, &env, sess);
            assert_eq!(after.next, Next::Done { eaten: true });
            for effect in &after.effects {
                self.apply(effect);
            }
            all.extend(after.effects);
        }
        all
    }
}

fn last(effects: &[Effect]) -> &Effect {
    effects.last().expect("something was done")
}

fn text(s: &str) -> String {
    s.to_string()
}

fn preedit(s: &str) -> SessionState {
    let mut sess = SessionState::Idle;
    sess.set_preedit(s.into());
    sess
}

#[test]
fn the_conversion_key_offers_candidates() {
    let mut engine = FakeEngine::new("きょう");
    let mut sess = preedit("きょう");
    let (effects, eaten) = engine.convert(&mut sess);
    assert!(eaten);
    assert_eq!(sess.current_candidate(), Some("今日"));
    assert_eq!(sess.original_preedit(), Some("きょう"));
    assert_eq!(
        effects[effects.len() - 2..],
        [
            EffectOf::ShowWindow {
                items: vec![text("今日"), text("京"), text("きょう")],
                selected: 0,
                info: text(""),
                x: 10,
                y: 20,
                status: None,
            },
            EffectOf::UpdateComposition { text: text("今日") },
        ]
    );
}

#[test]
fn the_conversion_key_settles_letters_first() {
    let mut engine = FakeEngine::new("か");
    engine.pending = "n".into();
    let mut sess = preedit("かn");
    engine.convert(&mut sess);
    assert_eq!(engine.hiragana, "かん");
    assert_eq!(sess.current_or_original(), "かん");
}

#[test]
fn the_conversion_key_waits_longer_for_longer_texts() {
    let env = ConvertEnv {
        mode: InputMode::Hiragana,
        num_candidates: 6,
        caret_x: 10,
        caret_y: 20,
    };
    let waited = |reading: String| {
        let mut engine = FakeEngine::new(&reading);
        engine.bg = BgStatus::Running;
        let mut sess = preedit(&reading);
        let facts = engine.facts();
        let point = ConvertPointOf::NewStatus { preedit: reading, ready: true };
        on_convert(point, ReplyOf::Seen, &facts, &env, &mut sess).next
    };
    for (n, ms) in [(1, 3_300), (3, 3_900), (40, 15_000), (41, 15_000), (500, 15_000)] {
        let reading = "あ".repeat(n);
        let then = ConvertPointOf::NewWaited { preedit: reading.clone() };
        assert_eq!(waited(reading), Next::Ask { ask: AskOf::Wait { ms }, then });
    }
}

#[test]
fn the_conversion_key_types_a_space_where_nothing_is_composed() {
    let mut engine = FakeEngine::new("");
    let mut sess = SessionState::Idle;
    let (effects, eaten) = engine.convert(&mut sess);
    assert!(eaten);
    assert_eq!(last(&effects), &EffectOf::CommitText { text: text("　") });
}

#[test]
fn the_conversion_key_goes_on_to_the_next_candidate() {
    let mut engine = FakeEngine::new("きょう");
    let mut sess = preedit("きょう");
    engine.convert(&mut sess);
    engine.convert(&mut sess);
    assert_eq!(sess.current_candidate(), Some("京"));
    engine.convert(&mut sess);
    assert_eq!(sess.current_candidate(), Some("きょう"));
    engine.convert(&mut sess);
    assert_eq!(sess.current_candidate(), Some("今日"));
}

#[test]
fn a_conversion_that_takes_long_is_left_to_the_timer() {
    let mut engine = FakeEngine::new("きょう");
    engine.finishes = false;
    let mut sess = preedit("きょう");
    let (effects, _) = engine.convert(&mut sess);
    assert!(sess.is_waiting());
    assert_eq!(last(&effects), &EffectOf::StartWaitingTimer);
    assert!(effects.contains(&EffectOf::ShowWindow {
        items: vec![text("きょう")],
        selected: 0,
        info: text(""),
        x: 10,
        y: 20,
        status: Some(text(CONVERTING)),
    }));

    assert!(engine.tick(&mut sess).is_empty());
    assert!(sess.is_waiting());
    engine.bg = BgStatus::Done;
    let effects = engine.tick(&mut sess);
    assert_eq!(effects[0], EffectOf::StopWaitingTimer);
    assert_eq!(sess.current_candidate(), Some("今日"));
    assert_eq!(engine.tick(&mut sess), vec![EffectOf::StopWaitingTimer]);
}

#[test]
fn a_conversion_of_something_else_is_started_again() {
    let mut engine = FakeEngine::new("ねこ");
    let mut sess = SessionState::Idle;
    sess.set_waiting_with_affixes("ねこ".into(), 1, 2, "である".into(), "である".into());
    engine.bg = BgStatus::Done;
    engine.bg_key = "べつ".into();
    let effects = engine.tick(&mut sess);
    assert_eq!(last(&effects), &EffectOf::StartWaitingTimer);
    assert_eq!(engine.bg, BgStatus::Running);
    engine.bg = BgStatus::Done;
    engine.tick(&mut sess);
    assert_eq!(sess.current_candidate(), Some("猫"));
    assert_eq!(sess.selecting_remainder_clone(), "である");
}

#[test]
fn without_a_model_the_text_itself_is_offered() {
    let mut engine = FakeEngine::new("きょう");
    engine.kanji_ready = false;
    let mut sess = preedit("きょう");
    engine.convert(&mut sess);
    assert_eq!(sess.current_or_original(), "きょう");
}

#[test]
fn a_choice_is_committed_and_learned() {
    let mut engine = FakeEngine::new("きょう");
    let mut sess = preedit("きょう");
    engine.convert(&mut sess);
    let (effects, eaten) = engine.commit(false, &mut sess);
    assert!(eaten);
    assert_eq!(engine.committed, vec!["今日"]);
    assert_eq!(engine.learned, vec![(text("きょう"), text("今日"))]);
    assert_eq!(last(&effects), &EffectOf::EndComposition { text: text("今日") });
    assert_eq!(sess, SessionState::Idle);
}

#[test]
fn what_was_not_marked_stays_after_a_commit() {
    let mut engine = FakeEngine::new("きょうは");
    let mut sess = preedit("きょうは");
    let facts = engine.facts();
    on_segment_shrink(&facts, &mut sess);
    assert_eq!(sess.range_select_parts(), Some((text("きょう"), text("は"))));
    engine.convert(&mut sess);
    assert_eq!(sess.current_candidate(), Some("今日"));
    assert_eq!(sess.selecting_remainder_clone(), "は");
    let (effects, _) = engine.commit(false, &mut sess);
    assert_eq!(engine.committed, vec!["今日"]);
    assert_eq!(engine.hiragana, "は");
    assert_eq!(last(&effects), &EffectOf::CommitThenCompose { commit: text("今日") });
    assert_eq!(sess.preedit_text(), Some("は"));
}

#[test]
fn a_candidate_is_chosen_by_its_number() {
    let mut engine = FakeEngine::new("きょう");
    let mut sess = preedit("きょう");
    engine.convert(&mut sess);
    let env = CommitEnv {
        num_candidates: 6,
        live_beam: 1,
        auto_learn: false,
        live_enabled: false,
        suppressed: false,
    };
    let facts = engine.facts();
    let nothing = on_candidate_select(9, &facts, &env, &mut sess);
    assert_eq!(nothing.effects, vec![]);
    assert_eq!(nothing.next, Next::Done { eaten: true });
    let turn = on_candidate_select(2, &facts, &env, &mut sess);
    assert_eq!(
        turn.effects,
        vec![
            EffectOf::HideWindow,
            EffectOf::Commit { text: text("京") },
            EffectOf::ResetPreedit,
            EffectOf::EndComposition { text: text("京") },
        ]
    );
    assert_eq!(sess, SessionState::Idle);
}

#[test]
fn live_text_is_committed_as_it_is_shown() {
    let mut engine = FakeEngine::new("きょう");
    let mut sess = SessionState::Idle;
    sess.set_live_conv("きょう".into(), "今日".into());
    engine.commit(true, &mut sess);
    assert_eq!(engine.committed, vec!["今日"]);
    assert_eq!(sess, SessionState::Idle);

    let mut engine = FakeEngine::new("ねこ");
    let mut sess = preedit("ねこ");
    engine.commit(true, &mut sess);
    assert_eq!(engine.committed, vec!["猫"]);

    let mut engine = FakeEngine::new("ねこ");
    let mut sess = preedit("ねこ");
    engine.commit(false, &mut sess);
    assert_eq!(engine.committed, vec!["ねこ"]);
}

#[test]
fn text_is_committed_before_the_mode_changes() {
    let mut engine = FakeEngine::new("ねこ");
    let mut sess = SessionState::Idle;
    sess.set_waiting("ねこ".into(), 0, 0);
    let facts = engine.facts();
    for effect in engine_commit_hiragana(&facts, &mut sess) {
        engine.apply(&effect);
    }
    assert_eq!(engine.committed, vec!["ねこ"]);
    assert_eq!(sess, SessionState::Idle);
    assert_eq!(engine_commit_hiragana(&engine.facts(), &mut sess), vec![]);
}

#[test]
fn candidates_are_walked_through() {
    let mut engine = FakeEngine::new("きょう");
    let mut sess = preedit("きょう");
    engine.convert(&mut sess);
    let turn = on_candidate_move(CandidateDir::Next, true, 1, 2, &mut sess);
    assert_eq!(
        turn.effects,
        vec![
            EffectOf::UpdateSelection { selected: 1, info: text("") },
            EffectOf::ShowWindow {
                items: vec![text("今日"), text("京"), text("きょう")],
                selected: 1,
                info: text(""),
                x: 1,
                y: 2,
                status: None,
            },
            EffectOf::UpdateParts { prefix: text(""), text: text("京"), suffix: text("") },
        ]
    );
    on_candidate_move(CandidateDir::Prev, true, 1, 2, &mut sess);
    assert_eq!(sess.current_candidate(), Some("今日"));
    on_candidate_page(CandidateDir::Next, true, 1, 2, &mut sess);
    assert_eq!(sess.current_candidate(), Some("今日"));
    let mut idle = SessionState::Idle;
    let turn = on_candidate_page(CandidateDir::Prev, true, 1, 2, &mut idle);
    assert_eq!(turn.next, Next::Done { eaten: true });
    let turn = on_candidate_move(CandidateDir::Prev, false, 1, 2, &mut idle);
    assert_eq!(turn.next, Next::Done { eaten: false });
}

#[test]
fn marking_undoes_itself_and_gives_way_to_the_preview() {
    let engine = FakeEngine::new("きょう");
    let facts = engine.facts();
    let mut sess = SessionState::Idle;
    sess.set_live_conv("きょう".into(), "今日".into());
    on_segment_extend(&facts, &mut sess);
    assert_eq!(sess.range_select_parts(), Some((text("き"), text("ょう"))));
    on_segment_extend(&facts, &mut sess);
    on_segment_shrink(&facts, &mut sess);
    assert_eq!(sess.range_select_parts(), Some((text("き"), text("ょう"))));
    let turn = on_cancel(&facts, &mut sess);
    assert_eq!(
        turn.effects,
        vec![EffectOf::HideWindow, EffectOf::UpdateComposition { text: text("今日") }]
    );
    assert_eq!(sess.live_conv_parts(), Some(("きょう", "今日")));
    assert_eq!(on_segment_move_left(&facts).next, Next::Done { eaten: true });
    assert_eq!(
        on_segment_move_right(&FakeEngine::new("").facts()).next,
        Next::Done { eaten: false }
    );
}

#[test]
fn giving_up_first_gives_the_text_back() {
    let mut engine = FakeEngine::new("きょう");
    let mut sess = preedit("きょう");
    engine.convert(&mut sess);
    let facts = engine.facts();
    let turn = on_cancel(&facts, &mut sess);
    assert_eq!(sess.preedit_text(), Some("きょう"));
    assert_eq!(last(&turn.effects), &EffectOf::UpdateComposition { text: text("きょう") });
    let turn = on_cancel(&facts, &mut sess);
    assert_eq!(
        turn.effects,
        vec![
            EffectOf::Reclaim,
            EffectOf::ResetAll,
            EffectOf::EndComposition { text: text("") },
        ]
    );
    let turn = on_cancel(&FakeEngine::new("").facts(), &mut SessionState::Idle);
    assert_eq!(turn.next, Next::Done { eaten: false });
}

#[test]
fn letters_are_erased_one_by_one() {
    let mut engine = FakeEngine::new("きょ");
    let mut sess = preedit("きょ");
    let (effects, eaten) =
        engine.run(EditPoint::Enter, |p, r, f| on_backspace(p, r, f, &mut sess));
    assert!(eaten);
    assert_eq!(last(&effects), &EffectOf::UpdateComposition { text: text("き") });
    let (effects, _) = engine.run(EditPoint::Enter, |p, r, f| on_backspace(p, r, f, &mut sess));
    assert_eq!(last(&effects), &EffectOf::EndComposition { text: text("") });
    let (_, eaten) = engine.run(EditPoint::Enter, |p, r, f| on_backspace(p, r, f, &mut sess));
    assert!(!eaten);
}

#[test]
fn kana_keys_rewrite_the_text() {
    let log = RomajiLog { hiragana: text("きょう"), letters: text("kyou") };
    let mut engine = FakeEngine::new("きょう");
    let mut sess = preedit("きょう");
    let (effects, _) = engine.run(EditPoint::Enter, |p, _, f| {
        on_kana_convert(p, RewriteKey::Katakana, f, &log, &mut sess)
    });
    assert_eq!(last(&effects), &EffectOf::UpdateComposition { text: text("キョウ") });
    let (effects, _) = engine.run(EditPoint::Enter, |p, _, f| {
        on_kana_convert(p, RewriteKey::HalfKatakana, f, &log, &mut sess)
    });
    assert_eq!(last(&effects), &EffectOf::UpdateComposition { text: text("ｷｮｳ") });
    let (effects, _) = engine.run(EditPoint::Enter, |p, _, f| {
        on_kana_convert(p, RewriteKey::Hiragana, f, &log, &mut sess)
    });
    assert_eq!(last(&effects), &EffectOf::UpdateComposition { text: text("きょう") });
}

#[test]
fn letter_keys_go_back_to_what_was_typed() {
    let log = RomajiLog { hiragana: text("きょう"), letters: text("kyou") };
    let mut engine = FakeEngine::new("きょう");
    let mut sess = preedit("きょう");
    for expected in ["ｋｙｏｕ", "ＫＹＯＵ", "Ｋｙｏｕ", "ｋｙｏｕ"] {
        let (effects, _) = engine
            .run(EditPoint::Enter, |p, _, f| on_latin_convert(p, true, f, &log, &mut sess));
        assert_eq!(last(&effects), &EffectOf::UpdateComposition { text: text(expected) });
    }
    let (effects, _) = engine.run(EditPoint::Enter, |p, _, f| {
        on_kana_convert(p, RewriteKey::Hiragana, f, &log, &mut sess)
    });
    assert_eq!(last(&effects), &EffectOf::UpdateComposition { text: text("きょう") });
    for expected in ["kyou", "KYOU", "Kyou"] {
        let (effects, _) = engine
            .run(EditPoint::Enter, |p, _, f| on_latin_convert(p, false, f, &log, &mut sess));
        assert_eq!(last(&effects), &EffectOf::UpdateComposition { text: text(expected) });
    }
    let turn = on_cycle_kana(&FakeEngine::new("ねこ").facts());
    assert_eq!(last(&turn.effects), &EffectOf::EndComposition { text: text("ネコ") });
}

#[test]
fn typed_letters_are_shown() {
    let mut engine = FakeEngine::new("");
    let mut sess = SessionState::Idle;
    let effects = engine.type_key('k', &mut sess);
    assert_eq!(last(&effects), &EffectOf::UpdateComposition { text: text("k") });
    assert!(!effects.contains(&EffectOf::NotifyLiveInput));
    engine.pending.clear();
    let effects = engine.type_key('a', &mut sess);
    assert!(effects.contains(&EffectOf::NotifyLiveInput));
    assert_eq!(last(&effects), &EffectOf::UpdateComposition { text: text("あ") });
}

#[test]
fn typing_commits_the_choice() {
    let mut engine = FakeEngine::new("きょう");
    let mut sess = preedit("きょう");
    engine.convert(&mut sess);
    let effects = engine.type_key('a', &mut sess);
    assert_eq!(engine.committed, vec!["今日"]);
    assert_eq!(
        last(&effects),
        &EffectOf::CommitThenStart { commit: text("今日"), preedit: text("あ") }
    );
    assert_eq!(sess, SessionState::Idle);
}

#[test]
fn live_typing_keeps_what_is_shown() {
    let mut engine = FakeEngine::new("きょう");
    let mut sess = SessionState::Idle;
    sess.set_live_conv("きょう".into(), "今日".into());
    let effects = engine.type_key('a', &mut sess);
    assert_eq!(last(&effects), &EffectOf::UpdateComposition { text: text("今日あ") });
    assert_eq!(sess.live_conv_parts(), Some(("きょうあ", "今日あ")));
    assert_eq!(suffix_after_prefix_or_empty("きょうあ", "きょう"), "あ");
    assert_eq!(suffix_after_prefix_or_empty("きょう", "ねこ"), "");
}

#[test]
fn keys_typed_too_early_are_kept_and_replayed() {
    let env = InputEnv { live_beam: 1, auto_learn: true };
    let mut sess = SessionState::Idle;
    let mut kept = KeptKeys::default();
    let turn = on_input('A', false, &mut kept, &env, &mut sess);
    assert_eq!(turn.effects, vec![EffectOf::BumpGeneration, EffectOf::ShowLoading]);
    assert_eq!(turn.next, Next::Done { eaten: true });
    on_input('k', false, &mut kept, &env, &mut sess);
    on_input_raw('1', false, &mut kept, &env, &mut sess);
    assert_eq!(sess, SessionState::Idle);
    let turn = on_input('a', true, &mut kept, &env, &mut sess);
    assert_eq!(
        turn.effects[..5],
        [
            EffectOf::BumpGeneration,
            EffectOf::Replay { c: 'A', kind: InputCharKind::FullwidthAlpha },
            EffectOf::Replay { c: 'k', kind: InputCharKind::Char },
            EffectOf::PushRaw { c: '1' },
            EffectOf::SuppressLiveCommit { on: false },
        ]
    );
    assert_eq!(kept, KeptKeys::default());
    push_pending_key(&mut kept, 'x', InputCharKind::Char, false);
    let x = KeptKey { c: 'x', kind: InputCharKind::Char, raw: false };
    assert_eq!(drain_pending_keys(&mut kept), vec![x]);
    let turn = on_input_raw('5', true, &mut kept, &env, &mut sess);
    assert!(turn.effects.contains(&EffectOf::PushRaw { c: '5' }));
    let mut engine = FakeEngine::new("");
    let effects = engine.finish_typing(turn, &mut sess);
    assert_eq!(last(&effects), &EffectOf::UpdateComposition { text: text("5") });
}

#[test]
fn a_wide_space_ends_the_composition() {
    let turn = on_full_width_space(&FakeEngine::new("ねこ").facts());
    assert_eq!(
        turn.effects,
        vec![
            EffectOf::Commit { text: text("ねこ") },
            EffectOf::ResetPreedit,
            EffectOf::EndComposition { text: text("ねこ") },
            EffectOf::CommitText { text: text("　") },
        ]
    );
    let turn = on_full_width_space(&FakeEngine::new("").facts());
    assert_eq!(turn.effects, vec![EffectOf::CommitText { text: text("　") }]);
}

#[test]
fn a_sign_waits_for_the_choice() {
    let mut engine = FakeEngine::new("きょう");
    let mut sess = preedit("きょう");
    let (effects, _) = engine.punctuate('。', &mut sess);
    assert_eq!(sess.current_candidate(), Some("今日"));
    assert!(matches!(
        &effects[effects.len() - 2],
        EffectOf::ShowWindow { status: Some(line), .. } if line == "確定後「。」を入力"
    ));
    engine.commit(false, &mut sess);
    assert_eq!(engine.committed, vec!["今日。"]);

    let mut engine = FakeEngine::new("");
    let (effects, _) = engine.punctuate('、', &mut SessionState::Idle);
    assert_eq!(effects, vec![EffectOf::CommitText { text: text("、") }]);
}

#[test]
fn switching_on_and_off_keeps_the_text() {
    let engine = FakeEngine::new("ねこ");
    let facts = engine.facts();
    let mut sess = preedit("ねこ");
    let effects = on_ime_toggle(InputMode::Hiragana, Some(&facts), &mut sess);
    assert_eq!(
        effects,
        vec![
            EffectOf::Reclaim,
            EffectOf::Commit { text: text("ねこ") },
            EffectOf::ResetPreedit,
            EffectOf::StopLiveTimer,
            EffectOf::EndComposition { text: text("ねこ") },
            EffectOf::SetMode { mode: InputMode::Alphanumeric },
            EffectOf::SetOpen { open: false },
            EffectOf::NotifyLangbar,
            EffectOf::NotifyTray,
            EffectOf::ShowMode { mode: InputMode::Alphanumeric },
            EffectOf::ReloadConfig,
        ]
    );
    assert_eq!(sess, SessionState::Idle);
    let effects = on_ime_toggle(InputMode::Alphanumeric, None, &mut sess);
    assert_eq!(effects, on_ime_on());
    assert_eq!(effects[0], EffectOf::SetMode { mode: InputMode::Hiragana });
    sess.set_live_conv("ねこ".into(), "猫".into());
    let effects = on_ime_off(Some(&facts), &mut sess);
    assert!(effects.contains(&EffectOf::EndComposition { text: text("猫") }));
    assert_eq!(mode_char(InputMode::Katakana), "ア");
    assert!(open_for_mode(InputMode::Katakana));
    assert!(!open_for_mode(InputMode::Alphanumeric));
}

#[test]
fn mode_keys_end_the_composition_in_their_letters() {
    let facts = FakeEngine::new("ねこ").facts();
    assert!(on_mode_katakana(Some(&facts)).contains(&EffectOf::Commit { text: text("ネコ") }));
    assert!(on_mode_hiragana(Some(&facts)).contains(&EffectOf::Commit { text: text("ねこ") }));
    assert_eq!(on_mode_hiragana(None)[0], EffectOf::SetMode { mode: InputMode::Hiragana });
}

fn live_env() -> LiveEnv {
    LiveEnv {
        debounce_ms: 80,
        live_beam: 1,
        min_chars: 3,
        has_composition: true,
        focused_dm: Some(0x10),
        generation: 3,
        nonce: 4,
    }
}

fn live_session() -> LiveConvSession {
    let mut live = LiveConvSession::default();
    assert!(live_input_notify(&mut live, true, 1_000, 7, 0x10));
    live
}

#[test]
fn live_conversion_waits_for_a_pause() {
    let mut live = live_session();
    let mut sess = SessionState::Idle;
    let env = live_env();
    assert_eq!(context_snapshot(&live), (true, 7, 0x10));
    assert_eq!(load_last_input_ms(&live), 1_000);
    let early = on_live_timer(LiveEventOf::Tick { now: 1_079 }, &env, &mut live, &mut sess);
    assert_eq!(early, LiveActionOf::Rest);
    let late = on_live_timer(LiveEventOf::Tick { now: 1_080 }, &env, &mut live, &mut sess);
    assert_eq!(late, LiveActionOf::Probe);
    assert_eq!(pass_debounce(80, 1_100, 1_000), Some(100));
    let mut off = LiveConvSession::default();
    assert!(!live_input_notify(&mut off, false, 1_000, 7, 0x10));
}

#[test]
fn live_conversion_shows_a_preview() {
    let mut live = live_session();
    let mut sess = preedit("きょうk");
    let env = live_env();
    let probe = |bg: BgStatus| LiveEventOf::Probed {
        probe: ProbeOf::Present { hiragana: text("きょう"), bg },
    };
    assert_eq!(
        on_live_timer(probe(BgStatus::Idle), &env, &mut live, &mut sess),
        LiveActionOf::PollReady
    );
    assert_eq!(
        on_live_timer(LiveEventOf::Ready { kanji_ready: Some(true) }, &env, &mut live, &mut sess),
        LiveActionOf::StartBg { beam: 1 }
    );
    assert_eq!(
        on_live_timer(LiveEventOf::Started { started: true }, &env, &mut live, &mut sess),
        LiveActionOf::Rest
    );
    assert_eq!(
        on_live_timer(probe(BgStatus::Running), &env, &mut live, &mut sess),
        LiveActionOf::ReportRunning
    );
    assert_eq!(
        on_live_timer(probe(BgStatus::Running), &env, &mut live, &mut sess),
        LiveActionOf::Rest
    );
    assert_eq!(
        on_live_timer(probe(BgStatus::Done), &env, &mut live, &mut sess),
        LiveActionOf::Peek
    );
    let peeked = || PeekedOf {
        reading: text("きょう"),
        preedit: text("きょうk"),
        top: Some(text("今日")),
    };
    let snapshot = || LiveSnapshotOf {
        reading: text("きょう"),
        preview: text("今日"),
        display_shown: text("今日k"),
    };
    assert_eq!(fetch_preview(peeked(), 3), Some(snapshot()));
    assert_eq!(
        on_live_timer(
            LiveEventOf::Peeked { peeked: Some(peeked()) },
            &env,
            &mut live,
            &mut sess
        ),
        LiveActionOf::Apply { snapshot: snapshot(), dm_ptr: 0x10, generation: 3 }
    );
    assert_eq!(
        on_live_timer(
            LiveEventOf::Edited { accepted: true, snapshot: snapshot() },
            &env,
            &mut live,
            &mut sess
        ),
        LiveActionOf::StopTimer
    );
    assert_eq!(sess.live_conv_parts(), Some(("きょう", "今日")));
}

#[test]
fn a_preview_that_cannot_be_shown_is_kept() {
    let mut live = live_session();
    let mut sess = preedit("きょう");
    let env = live_env();
    let snapshot = LiveSnapshotOf {
        reading: text("きょう"),
        preview: text("今日"),
        display_shown: text("今日"),
    };
    let kept = on_live_timer(
        LiveEventOf::Edited { accepted: false, snapshot },
        &env,
        &mut live,
        &mut sess,
    );
    let entry = || PreviewEntryOf {
        preview: text("今日"),
        reading: text("きょう"),
        gen_when_requested: 3,
        session_nonce_at_request: 4,
    };
    assert_eq!(kept, LiveActionOf::Queue { entry: entry() });
    let reading = text("きょう");
    assert_eq!(apply_kept_preview(entry(), 4, 4, &reading, &reading, 3, &mut sess), None);
    assert_eq!(apply_kept_preview(entry(), 3, 5, &reading, &reading, 3, &mut sess), None);
    let typed = text("きょうk");
    let shown = apply_kept_preview(entry(), 3, 4, &reading, &typed, 3, &mut sess);
    assert_eq!(shown.as_deref(), Some("今日k"));
    assert_eq!(sess.live_conv_parts(), Some(("きょう", "今日")));
}

#[test]
fn a_short_reading_is_not_converted_while_typing() {
    let mut live = live_session();
    let mut sess = preedit("きょ");
    let mut env = live_env();
    let probe = |bg: BgStatus| LiveEventOf::Probed {
        probe: ProbeOf::Present { hiragana: text("きょ"), bg },
    };
    let peeked = || PeekedOf {
        reading: text("きょ"),
        preedit: text("きょ"),
        top: Some(text("巨")),
    };
    let entry = || PreviewEntryOf {
        preview: text("巨"),
        reading: text("きょ"),
        gen_when_requested: 3,
        session_nonce_at_request: 4,
    };
    let reading = text("きょ");
    for bg in [BgStatus::Idle, BgStatus::Running, BgStatus::Done] {
        assert_eq!(
            on_live_timer(probe(bg), &env, &mut live, &mut sess),
            LiveActionOf::StopTimer
        );
    }
    assert_eq!(fetch_preview(peeked(), 3), None);
    let shown = LiveEventOf::Peeked { peeked: Some(peeked()) };
    assert_eq!(on_live_timer(shown, &env, &mut live, &mut sess), LiveActionOf::Rest);
    assert_eq!(apply_kept_preview(entry(), 3, 4, &reading, &reading, 3, &mut sess), None);

    env.min_chars = 2;
    assert_eq!(
        on_live_timer(probe(BgStatus::Idle), &env, &mut live, &mut sess),
        LiveActionOf::PollReady
    );
    let shown = apply_kept_preview(entry(), 3, 4, &reading, &reading, 2, &mut sess);
    assert_eq!(shown.as_deref(), Some("巨"));
    assert!(!too_short("き", 0));
    assert!(!too_short("き", 1));
    assert!(too_short("き", 2));
    assert!(too_short("", 0));
}

#[test]
fn a_preview_that_is_cut_off_is_not_shown() {
    assert_eq!(sanity_check_preview("あいうえおかきくけこ", text("亜位")), "あいうえおかきくけこ");
    assert_eq!(sanity_check_preview("あいうえおかきくけこ", text("亜位宇")), "亜位宇");
}

#[test]
fn an_edit_is_made_only_where_it_was_meant() {
    let verdict = |dm, gen, comp, free| try_apply_phase1a(0x10, dm, 3, gen, comp, free);
    assert_eq!(verdict(Some(0x10), 3, true, true), EditVerdict::Write);
    assert_eq!(verdict(Some(0x20), 3, true, true), EditVerdict::FocusChanged);
    assert_eq!(verdict(None, 3, true, true), EditVerdict::FocusChanged);
    assert_eq!(verdict(Some(0x10), 4, true, true), EditVerdict::Stale);
    assert_eq!(verdict(Some(0x10), 3, false, true), EditVerdict::NoComposition);
    assert_eq!(verdict(Some(0x10), 3, true, false), EditVerdict::Busy);
}

#[test]
fn live_conversion_ends_with_its_document() {
    let mut live = live_session();
    assert!(!invalidate_live_context_for_dm(&mut live, 0));
    assert!(!invalidate_live_context_for_dm(&mut live, 0x20));
    assert!(invalidate_live_context_for_dm(&mut live, 0x10));
    assert_eq!(context_snapshot(&live), (true, 7, 0));
}

fn act(
    engine: &mut FakeEngine,
    action: UserAction,
    kept: Option<PreviewEntry>,
    sess: &mut SessionState,
) -> (Vec<Effect>, bool) {
    let env = ActionEnv { action, caret_x: 1, caret_y: 2, generation: 3, nonce: 0, min_chars: 2 };
    let mut kept = kept;
    let mut point: ActionPoint = ActionPointOf::Enter;
    let mut reply: Reply = ReplyOf::Seen;
    let mut all = Vec::new();
    loop {
        let facts = engine.facts();
        let turn = handle_action(point, reply, kept.take(), Some(&facts), &env, sess);
        all.extend(turn.effects);
        match turn.next {
            Next::Done { .. } => return (all, false),
            Next::Ask { ask, then } => {
                if then == ActionPointOf::Dispatch {
                    return (all, true);
                }
                reply = engine.answer(ask);
                point = then;
            }
        }
    }
}

#[test]
fn a_conversion_that_came_in_is_shown_before_the_key_is_handled() {
    let mut engine = FakeEngine::new("ねこ");
    engine.bg = BgStatus::Done;
    engine.bg_key = "ねこ".into();
    let mut sess = SessionState::Idle;
    sess.set_waiting("ねこ".into(), 5, 6);
    let (effects, dispatched) = act(&mut engine, UserAction::Convert, None, &mut sess);
    assert!(!dispatched);
    assert_eq!(sess.current_candidate(), Some("猫"));
    assert_eq!(last(&effects), &EffectOf::UpdateComposition { text: text("猫") });

    engine.bg = BgStatus::Done;
    let mut sess = SessionState::Idle;
    sess.set_waiting("ねこ".into(), 5, 6);
    let (effects, dispatched) = act(&mut engine, UserAction::Cancel, None, &mut sess);
    assert!(dispatched);
    assert_eq!(effects, vec![]);

    let mut sess = preedit("ねこ");
    let entry = PreviewEntryOf {
        preview: text("猫"),
        reading: text("ねこ"),
        gen_when_requested: 3,
        session_nonce_at_request: 0,
    };
    let (effects, dispatched) = act(&mut engine, UserAction::CommitRaw, Some(entry), &mut sess);
    assert!(dispatched);
    assert_eq!(effects, vec![EffectOf::UpdateComposition { text: text("猫") }]);
}

#[test]
fn keys_are_left_alone_without_an_engine() {
    let env = ActionEnv {
        action: UserAction::Input('a'),
        caret_x: 1,
        caret_y: 2,
        generation: 3,
        nonce: 0,
        min_chars: 3,
    };
    let mut sess = preedit("ねこ");
    let turn = handle_action(ActionPointOf::Enter, ReplyOf::Seen, None, None, &env, &mut sess);
    assert_eq!(turn.effects, vec![]);
    assert_eq!(turn.next, Next::Done { eaten: false });
    assert_eq!(sess, preedit("ねこ"));
}

#[test]
fn candidates_that_came_late_are_merged() {
    let mut engine = FakeEngine::new("きょう");
    engine.bg = BgStatus::Done;
    engine.bg_key = "きょう".into();
    let mut sess = SessionState::Idle;
    sess.activate_selecting(vec![text("きょう")], "きょう".into(), 0, 0, true);
    let (effects, dispatched) = act(&mut engine, UserAction::Convert, None, &mut sess);
    assert!(!dispatched);
    assert_eq!(
        last(&effects),
        &EffectOf::UpdateParts { prefix: text(""), text: text("今日"), suffix: text("") }
    );
    assert!(!sess.is_llm_pending());
}

#[test]
fn keys_are_taken_where_they_mean_something() {
    let none = HeldKeys { ctrl: false, shift: false, alt: false, space: false };
    assert!(key_should_eat(&UserAction::Input('a'), false));
    assert!(!key_should_eat(&UserAction::Backspace, false));
    assert!(key_should_eat(&UserAction::Backspace, true));
    assert!(!key_should_eat(&UserAction::Other, true));
    assert!(on_test_key_down(0x20, None, InputMode::Hiragana, false, false));
    assert!(!on_test_key_down(0x0D, None, InputMode::Hiragana, false, false));
    assert!(on_test_key_down(0x0D, None, InputMode::Hiragana, false, true));
    assert!(!on_test_key_down(0x41, None, InputMode::Hiragana, true, false));
    let letter = Some(UserAction::Input('a'));
    assert!(!on_test_key_down(0x41, letter, InputMode::Alphanumeric, false, false));
    assert!(on_test_key_down(0x19, None, InputMode::Alphanumeric, false, false));
    assert_eq!(
        on_key_down(0x41, none, letter, true, true, InputMode::Hiragana),
        KeyVerdict::Handle(UserAction::Input('a'))
    );
    assert_eq!(
        on_key_down(0x41, none, letter, true, true, InputMode::Alphanumeric),
        KeyVerdict::AlphanumericMode
    );
    assert_eq!(
        on_key_down(0x41, none, letter, false, true, InputMode::Hiragana),
        KeyVerdict::NoContext
    );
    assert_eq!(
        on_key_down(0x41, none, letter, true, false, InputMode::Hiragana),
        KeyVerdict::NoSink
    );
    assert_eq!(
        on_key_down(0x41, none, None, true, true, InputMode::Hiragana),
        KeyVerdict::Unmapped
    );
    let both = HeldKeys { ctrl: true, shift: true, alt: false, space: false };
    assert_eq!(
        on_key_down(0x7B, both, None, false, false, InputMode::Alphanumeric),
        KeyVerdict::DumpDiagnostics
    );
    let chord = HeldKeys { ctrl: true, shift: false, alt: true, space: true };
    assert_eq!(normalize_key_event_vk(0x27, chord), 0x20);
    assert_eq!(normalize_key_event_vk(0x27, none), 0x27);
}

#[test]
fn actions_go_to_their_handlers() {
    assert_eq!(dispatch(UserAction::CancelAll), Handler::Cancel);
    assert_eq!(dispatch(UserAction::ModeAlphanumeric), Handler::ImeOff);
    assert_eq!(dispatch(UserAction::FullLatin), Handler::Rewrite(RewriteKey::FullLatin));
    assert_eq!(dispatch(UserAction::CandidatePrev), Handler::CandidateMove(CandidateDir::Prev));
    assert_eq!(dispatch(UserAction::Other), Handler::Nothing);
    assert_eq!(action_name(&UserAction::Punctuate('。')), "Punctuate");
}

#[test]
fn loading_is_shown_with_growing_concern() {
    assert_eq!(loading_indicator_symbol(None).0, "⏳");
    assert_eq!(loading_indicator_symbol(Some(9_999)).0, "⏳");
    assert_eq!(loading_indicator_symbol(Some(10_000)).0, "⌛");
    assert_eq!(loading_indicator_symbol(Some(30_000)).0, "⚠");
    assert_eq!(loading_indicator_symbol(Some(60_000)).0, "✕");
}

#[test]
fn names_of_states_are_understood() {
    assert_eq!(BgStatus::parse("idle"), BgStatus::Idle);
    assert_eq!(BgStatus::parse("running"), BgStatus::Running);
    assert_eq!(BgStatus::parse("done"), BgStatus::Done);
    assert_eq!(BgStatus::parse("?"), BgStatus::Other);
}
