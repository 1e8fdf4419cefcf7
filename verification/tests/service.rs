use rakukan::engine::apps::{app_rules, is_listed_app, same_app, AppRules};
use rakukan::engine::config::AppConfig;
use rakukan::engine::doc_mode::{
    doc_mode_on_activation, doc_mode_on_focus_change, doc_mode_remove, FocusSettings, ModeStore,
};
use rakukan::engine::ime_mode::ImeMode;
use rakukan::engine::input_mode::{input_mode_get_atomic, input_mode_set_atomic, InputMode};
use rakukan::engine::lifecycle::{
    adapter_index, bg_init_begin, bg_init_end, engine_force_recreate, engine_get_or_create,
    engine_reload, engine_reload_end, engine_start_bg_init, gpu_memory_report,
    maybe_log_gpu_memory, EngineStep, Loads, Readiness,
};
use rakukan::engine::paging::{next_page_start, page_info, pages, prev_page_start};
use rakukan::engine::state::SessionState;
use rakukan::text::{to_wide_text, utf16, utf16_count, utf16_text, wides_to_string};
use rakukan::tsf::activation::{
    activate, activate_begin, deactivate, on_composition_terminated, ActivateEnv, ActivateNext,
    ActivateStep, DeactivateStep, ServiceState, StepResult,
};
use rakukan::tsf::candidate_window::{
    calc_window_y, compute_needed_width, draw, estimate_width, fit_font_height, lines_to_measure,
    show, show_with_status, update_selection, window_height, wnd_proc, RowKind, WindowTask,
    LIVE_TIMER_ID, WAITING_TIMER_ID, WM_APP_FOCUS_CHANGED, WM_ERASEBKGND, WM_PAINT, WM_TIMER,
};
use rakukan::tsf::composition::{
    commit_text, commit_then_start_composition, end_composition, is_slow_grant, on_failure,
    update_composition, update_composition_candidate_parts, EditStepOf, OnFailure,
};
use rakukan::tsf::effects::EffectOf;
use rakukan::tsf::focus::{
    clear_thread_mgr, current_dm_hwnd, foreground_root_hwnd, next_focus_change,
    on_kill_thread_focus, on_set_focus, on_set_thread_focus, post_focus_changed,
    process_focus_change, FocusChange, FocusTracker,
};
use rakukan::tsf::language_bar::{
    advise_sink, apply_langbar_mode, current_langbar_mode, get_open_close,
    handle_langbar_menu_command, init_menu, langbar_sign, langbar_update_set, langbar_update_take,
    make_langbar_description, set_open_close, toggle_open_close, tooltip, tray_state, unadvise_sink,
    MenuCommand, SinkError, ID_MENU_ENGINE_RELOAD, ID_MENU_MODE_KATAKANA, ID_MENU_SETTINGS,
    LANGBAR_SINK_COOKIE,
};
use rakukan::tsf::registration::{register_begin, register_step, RegisterNext, RegisterResult, RegisterStep};

const NO_RULES: AppRules = AppRules { off: false, on: false };

fn settings(remember: bool, current: InputMode) -> FocusSettings {
    FocusSettings { remember, default_mode: InputMode::Hiragana, current, app: NO_RULES }
}

#[test]
fn a_document_finds_its_mode_again() {
    let mut store = ModeStore::default();
    let hira = InputMode::Hiragana;
    let kata = InputMode::Katakana;
    assert_eq!(
        doc_mode_on_focus_change(&mut store, settings(true, hira), 0, 0x10, 0x1),
        Some(hira)
    );
    assert_eq!(
        doc_mode_on_focus_change(&mut store, settings(true, kata), 0x10, 0x20, 0x2),
        Some(hira)
    );
    assert_eq!(
        doc_mode_on_focus_change(&mut store, settings(true, hira), 0x20, 0x10, 0x1),
        Some(kata)
    );
    doc_mode_remove(&mut store, 0x10);
    assert_eq!(
        doc_mode_on_focus_change(&mut store, settings(true, hira), 0, 0x11, 0x1),
        Some(kata)
    );
    assert_eq!(doc_mode_on_focus_change(&mut store, settings(true, hira), 0x11, 0, 0), None);
}

#[test]
fn modes_are_forgotten_where_that_is_wanted() {
    let mut store = ModeStore::default();
    let off = FocusSettings {
        remember: false,
        default_mode: InputMode::Katakana,
        current: InputMode::Alphanumeric,
        app: NO_RULES,
    };
    assert_eq!(
        doc_mode_on_focus_change(&mut store, off, 0x20, 0x10, 0x1),
        Some(InputMode::Katakana)
    );
    let terminal = FocusSettings { app: AppRules { off: true, on: false }, ..off };
    assert_eq!(
        doc_mode_on_focus_change(&mut store, terminal, 0x20, 0x10, 0x1),
        Some(InputMode::Alphanumeric)
    );
}

#[test]
fn applications_are_singled_out_by_name() {
    let mut cfg = AppConfig::default();
    let off = AppRules { off: true, on: false };
    assert_eq!(app_rules("conhost.exe", &cfg.input), off);
    assert_eq!(app_rules("windowsterminal.EXE", &cfg.input), off);
    assert_eq!(app_rules("MINTTY.exe", &cfg.input), off);
    assert_eq!(app_rules("notepad.exe", &cfg.input), NO_RULES);
    assert_eq!(app_rules("", &cfg.input), NO_RULES);
    assert_eq!(app_rules("conhost", &cfg.input), NO_RULES);
    cfg.input.ime_off_apps = Vec::new();
    cfg.input.ime_on_apps = vec!["Photoshop.exe".to_string()];
    assert_eq!(app_rules("conhost.exe", &cfg.input), NO_RULES);
    assert_eq!(app_rules("photoshop.exe", &cfg.input), AppRules { off: false, on: true });
    assert!(same_app("Kana-Z@[.exe", "kANA-z@[.EXE"));
    assert!(!same_app("a@.exe", "a`.exe"));
    assert!(!is_listed_app("photoshop.exe", &Vec::new()));
}

#[test]
fn an_application_starts_with_letters_whenever_it_becomes_active() {
    let mut store = ModeStore::default();
    let (hira, alpha) = (InputMode::Hiragana, InputMode::Alphanumeric);
    let with = |current| FocusSettings {
        app: AppRules { off: true, on: false },
        ..settings(true, current)
    };
    assert_eq!(doc_mode_on_focus_change(&mut store, with(hira), 0, 0x10, 0x1), Some(alpha));
    // The user switches to kana, and that stays within the application.
    assert_eq!(doc_mode_on_focus_change(&mut store, with(hira), 0x10, 0x20, 0x1), Some(hira));
    assert_eq!(doc_mode_on_focus_change(&mut store, with(hira), 0x20, 0x10, 0x1), Some(hira));
    // The application is left and comes back.
    assert_eq!(doc_mode_on_focus_change(&mut store, with(hira), 0x10, 0, 0), None);
    assert_eq!(doc_mode_on_activation(&mut store, with(hira), 0, 0), None);
    assert_eq!(doc_mode_on_focus_change(&mut store, with(hira), 0, 0x10, 0x1), Some(alpha));
    // It comes back with a document that has kept the focus.
    assert_eq!(doc_mode_on_activation(&mut store, with(hira), 0x10, 0x1), Some(alpha));
    // Another application keeps its mode.
    let other = settings(true, hira);
    assert_eq!(doc_mode_on_activation(&mut store, other, 0x10, 0x1), None);
}

#[test]
fn kana_is_switched_on_once_outside_the_main_document() {
    let mut store = ModeStore::default();
    let (hira, alpha) = (InputMode::Hiragana, InputMode::Alphanumeric);
    let with = |current| FocusSettings {
        default_mode: alpha,
        app: AppRules { off: false, on: true },
        ..settings(true, current)
    };
    assert_eq!(doc_mode_on_focus_change(&mut store, with(alpha), 0, 0x10, 0x1), Some(alpha));
    assert_eq!(doc_mode_on_focus_change(&mut store, with(alpha), 0x10, 0x20, 0x1), Some(hira));
    // The user switches back, and that stays.
    assert_eq!(doc_mode_on_focus_change(&mut store, with(alpha), 0x20, 0x10, 0x1), Some(alpha));
    doc_mode_remove(&mut store, 0x20);
    assert_eq!(doc_mode_on_focus_change(&mut store, with(alpha), 0x10, 0x30, 0x1), Some(alpha));
    // Once more after the application has become active again.
    assert_eq!(doc_mode_on_activation(&mut store, with(alpha), 0x10, 0x1), None);
    assert_eq!(doc_mode_on_focus_change(&mut store, with(alpha), 0x10, 0x30, 0x1), Some(hira));
    assert_eq!(doc_mode_on_activation(&mut store, with(alpha), 0x30, 0x1), Some(hira));
}

#[test]
fn becoming_active_switches_the_mode() {
    let mut tracker = FocusTracker::default();
    let mut store = ModeStore::default();
    let terminal = FocusSettings {
        app: AppRules { off: true, on: false },
        ..settings(true, InputMode::Hiragana)
    };
    assert_eq!(on_set_thread_focus(&tracker, &mut store, terminal), vec![]);
    let change = on_set_focus(0, 0x10, 0x1).expect("a change");
    process_focus_change(&mut tracker, &mut store, terminal, change);
    assert_eq!(
        on_set_thread_focus(&tracker, &mut store, terminal),
        vec![
            EffectOf::SetMode { mode: InputMode::Alphanumeric },
            EffectOf::SetOpen { open: false },
            EffectOf::PublishTray { open: false, mode: InputMode::Alphanumeric },
        ]
    );
    let other = settings(true, InputMode::Hiragana);
    assert_eq!(on_set_thread_focus(&tracker, &mut store, other), vec![]);
}

#[test]
fn a_mode_that_is_kept_is_read_back() {
    for mode in [InputMode::Hiragana, InputMode::Katakana, InputMode::Alphanumeric] {
        assert_eq!(input_mode_get_atomic(input_mode_set_atomic(mode)), mode);
    }
    assert_eq!(ImeMode::default().toggled().toggled(), ImeMode::default());
    assert!(ImeMode::from_open(true).is_on());
    assert!(!ImeMode::from_open(false).is_on());
    assert_ne!(ImeMode::On.label(), ImeMode::Off.label());
    assert_ne!(ImeMode::On.name(), ImeMode::Off.name());
}

#[test]
fn focus_changes_are_worked_off_in_order() {
    let mut tracker = FocusTracker::default();
    let mut store = ModeStore::default();
    assert_eq!(on_set_focus(0x10, 0x10, 0x1), None);
    let first = on_set_focus(0, 0x10, 0x1).expect("a change");
    let second = on_set_focus(0x10, 0x20, 0x2).expect("a change");
    assert_eq!(first, FocusChange { prev_ptr: 0, next_ptr: 0x10, hwnd_val: 0x1 });
    assert!(!post_focus_changed(&mut tracker, first, false));
    assert!(post_focus_changed(&mut tracker, first, true));
    assert!(post_focus_changed(&mut tracker, second, true));
    assert_eq!(next_focus_change(&mut tracker), Some(first));
    assert_eq!(next_focus_change(&mut tracker), Some(second));
    assert_eq!(next_focus_change(&mut tracker), None);
    let effects = process_focus_change(
        &mut tracker,
        &mut store,
        settings(true, InputMode::Alphanumeric),
        second,
    );
    assert_eq!(
        effects,
        vec![
            EffectOf::HideWindow,
            EffectOf::StopLiveTimer,
            EffectOf::SetMode { mode: InputMode::Hiragana },
            EffectOf::SetOpen { open: true },
            EffectOf::PublishTray { open: true, mode: InputMode::Hiragana },
        ]
    );
    assert_eq!(current_dm_hwnd(&tracker), (0x20, 0x2));
    post_focus_changed(&mut tracker, first, true);
    clear_thread_mgr(&mut tracker);
    assert_eq!(next_focus_change(&mut tracker), None);
    assert_eq!(on_kill_thread_focus().len(), 3);
    assert_eq!(foreground_root_hwnd(0, 5), 0);
    assert_eq!(foreground_root_hwnd(4, 0), 4);
    assert_eq!(foreground_root_hwnd(4, 5), 5);
}

fn env() -> ActivateEnv {
    ActivateEnv { tid: 9, mode: InputMode::Hiragana, settings: settings(true, InputMode::Hiragana) }
}

#[test]
fn activation_runs_to_its_end_and_is_taken_back() {
    let mut state = ServiceState::default();
    let mut store = ModeStore::default();
    assert_eq!(activate_begin(false), ActivateNext::Failed);
    let mut next = activate_begin(true);
    let mut steps = Vec::new();
    while let ActivateNext::Do { step } = next {
        steps.push(step);
        let result = match step {
            ActivateStep::AdviseEvents => StepResult::Cookie { cookie: 41 },
            ActivateStep::AdviseFocus => StepResult::Cookie { cookie: 42 },
            ActivateStep::FindFocus => StepResult::Focus { dm: 0x10, hwnd: 0x1 },
            _ => StepResult::Succeeded,
        };
        next = activate(&mut state, &mut store, env(), step, result);
    }
    assert_eq!(next, ActivateNext::Done);
    assert_eq!(steps.first(), Some(&ActivateStep::Attach));
    assert_eq!(steps.last(), Some(&ActivateStep::NotifyTray));
    assert!(steps.contains(&ActivateStep::SetMode { mode: InputMode::Hiragana }));
    assert_eq!(
        state,
        ServiceState {
            client_id: 9,
            attached: true,
            threadmgr_cookie: 41,
            threadfocus_cookie: 42,
        }
    );

    let mut sess = SessionState::Idle;
    sess.set_preedit("ねこ".into());
    let undone = deactivate(&state, &mut sess);
    assert_eq!(sess, SessionState::Idle);
    assert!(undone.contains(&DeactivateStep::UnadviseKeys { client_id: 9 }));
    assert!(undone.contains(&DeactivateStep::UnadviseEvents { cookie: 41 }));
    assert!(undone.contains(&DeactivateStep::UnadviseFocus { cookie: 42 }));
}

#[test]
fn activation_fails_where_a_needed_step_does() {
    for failing in [ActivateStep::Attach, ActivateStep::AdviseKeys, ActivateStep::AdviseEvents] {
        let mut state = ServiceState::default();
        let mut store = ModeStore::default();
        let next = activate(&mut state, &mut store, env(), failing, StepResult::Fatal);
        assert_eq!(next, ActivateNext::Failed);
    }
    let mut sess = SessionState::Idle;
    sess.set_preedit("ねこ".into());
    let effects = on_composition_terminated(&mut sess);
    assert_eq!(effects[0], EffectOf::ForgetComposition);
    assert_eq!(effects.last(), Some(&EffectOf::ResetAll));
    assert_eq!(sess, SessionState::Idle);
}

#[test]
fn the_language_bar_shows_the_mode_in_use() {
    assert_eq!(current_langbar_mode(false, Some(InputMode::Katakana)), InputMode::Alphanumeric);
    assert_eq!(current_langbar_mode(true, None), InputMode::Hiragana);
    assert_eq!(langbar_sign(true, Some(InputMode::Katakana)), "ア");
    assert_eq!(tray_state(None, Some(InputMode::Alphanumeric)), (false, InputMode::Alphanumeric));
    assert_eq!(tooltip(Some("cuda")), "rakukan [cuda]");
    assert_eq!(tooltip(None), "rakukan [初期化中...]");
    let menu = init_menu(InputMode::Katakana);
    let checked: Vec<&str> = menu.iter().filter(|i| i.checked).map(|i| i.text).collect();
    assert_eq!(checked, vec!["カタカナ"]);
    assert_eq!(
        handle_langbar_menu_command(ID_MENU_MODE_KATAKANA),
        MenuCommand::Mode { mode: InputMode::Katakana }
    );
    assert_eq!(handle_langbar_menu_command(ID_MENU_SETTINGS), MenuCommand::Settings);
    assert_eq!(handle_langbar_menu_command(ID_MENU_ENGINE_RELOAD), MenuCommand::Reload);
    assert_eq!(handle_langbar_menu_command(99), MenuCommand::Nothing);
    assert_eq!(
        apply_langbar_mode(InputMode::Alphanumeric)[..2],
        [
            EffectOf::SetOpen { open: false },
            EffectOf::SetMode { mode: InputMode::Alphanumeric },
        ]
    );
}

#[test]
fn open_and_closed_are_numbers() {
    assert_eq!(set_open_close(true), 1);
    assert_eq!(set_open_close(false), 0);
    assert!(get_open_close(None));
    assert!(!get_open_close(Some(0)));
    let once = toggle_open_close(Some(0));
    assert_eq!(once, 1);
    assert_eq!(toggle_open_close(Some(once)), 0);
}

#[test]
fn sinks_are_kept_by_their_cookie() {
    let mut has_sink = false;
    assert_eq!(advise_sink(&mut has_sink, false, true, true), Err(SinkError::InvalidSink));
    assert_eq!(advise_sink(&mut has_sink, true, false, true), Err(SinkError::NoReceiver));
    assert_eq!(advise_sink(&mut has_sink, true, true, true), Ok(LANGBAR_SINK_COOKIE));
    assert!(has_sink);
    assert_eq!(unadvise_sink(&mut has_sink, 1), Err(SinkError::BadCookie));
    assert!(has_sink);
    assert_eq!(unadvise_sink(&mut has_sink, LANGBAR_SINK_COOKIE), Ok(()));
    assert!(!has_sink);
    let mut pending = false;
    langbar_update_set(&mut pending);
    assert!(langbar_update_take(&mut pending));
    assert!(!langbar_update_take(&mut pending));
}

#[test]
fn a_description_fills_its_field() {
    let units = make_langbar_description("rakukan 入力");
    assert_eq!(units.len(), 32);
    assert_eq!(units[..10], utf16("rakukan 入力")[..]);
    assert!(units[10..].iter().all(|u| *u == 0));
    let long = make_langbar_description(&"a".repeat(40));
    assert_eq!(long[30], b'a' as u16);
    assert_eq!(long[31], 0);
}

#[test]
fn text_goes_to_wide_units_and_back() {
    assert_eq!(utf16("a😀"), vec![0x61, 0xd83d, 0xde00]);
    assert_eq!(utf16_count("a😀"), 3);
    assert_eq!(to_wide_text("é"), vec![0xe9, 0]);
    assert_eq!(wides_to_string(&vec![0x61, 0xd83d, 0xde00, 0, 0x62]), "a😀");
    assert_eq!(wides_to_string(&vec![0x61, 0xd83d, 0x62]), "a\u{fffd}b");
    assert_eq!(wides_to_string(&to_wide_text("漢😀é")), "漢😀é");
    let faulty: Vec<u16> = vec![0xdc00, 0xd800, 0xd83d, 0xde00, 0xdfff, 0x41, 0xd83d];
    assert_eq!(utf16_text(&faulty), String::from_utf16_lossy(&faulty));
    assert_eq!(utf16_text(&faulty), "\u{fffd}\u{fffd}😀\u{fffd}A\u{fffd}");
}

#[test]
fn typed_text_is_written_and_marked() {
    assert_eq!(
        update_composition(0, 0, "あ".into()),
        vec![
            EditStepOf::UseInsertPoint,
            EditStepOf::Start,
            EditStepOf::LockOrStop,
            EditStepOf::SetText { text: "あ".into(), must: true },
            EditStepOf::MarkTyped,
            EditStepOf::CaretToEnd,
        ]
    );
    assert_eq!(update_composition(0x1, 0x2, "あ".into()), vec![]);
    let steps =
        update_composition_candidate_parts(7, 7, "吾輩は".into(), "猫".into(), "😀".into());
    assert_eq!(steps[0], EditStepOf::UseComposition);
    assert_eq!(steps[2], EditStepOf::SetText { text: "吾輩は猫😀".into(), must: true });
    assert_eq!(steps[4], EditStepOf::MarkConverted { front: 3, back: 2 });
}

#[test]
fn committed_text_is_written_and_left() {
    assert_eq!(
        commit_then_start_composition(true, "今日".into(), "あ".into()),
        vec![
            EditStepOf::Shrink { text: "今日".into() },
            EditStepOf::End,
            EditStepOf::UseAfterCommit,
            EditStepOf::Start,
            EditStepOf::SetText { text: "あ".into(), must: true },
            EditStepOf::MarkTyped,
            EditStepOf::CaretToEnd,
        ]
    );
    assert_eq!(commit_then_start_composition(false, "".into(), "".into()), vec![]);
    assert_eq!(end_composition(false, "".into()), vec![]);
    assert_eq!(end_composition(true, "猫".into()).last(), Some(&EditStepOf::End));
    assert_eq!(commit_text("猫".into()).len(), 3);
    assert_eq!(on_failure(&EditStepOf::End), OnFailure::Abort);
    assert_eq!(on_failure(&EditStepOf::LockOrStop), OnFailure::Stop);
    assert_eq!(on_failure(&EditStepOf::CaretToEnd), OnFailure::GoOn);
    assert!(is_slow_grant(100_000));
    assert!(!is_slow_grant(99_999));
}

#[test]
fn the_window_is_as_high_as_its_rows() {
    assert_eq!(window_height(17, 9, true, false), 8 + 9 * 26 + 22);
    assert_eq!(window_height(17, 3, false, true), 8 + 3 * 26 + 22);
    assert_eq!(window_height(34, 1, false, false), 16 + 52);
    assert_eq!(fit_font_height(17, 9, true, true, 1_000), 17);
    assert_eq!(fit_font_height(72, 9, true, true, 10), 10);
    let fitted = fit_font_height(40, 9, true, true, 400);
    assert!(window_height(fitted, 9, true, true) <= 400);
    assert!(window_height(fitted + 1, 9, true, true) > 400);
}

#[test]
fn rows_stand_below_each_other() {
    let data = show_with_status(
        vec!["今日".into(), "京".into()],
        1,
        "1/2".into(),
        Some("確定後「。」を入力".into()),
    )
    .expect("there are candidates");
    let rows = draw(17, &data);
    assert_eq!(rows.len(), 4);
    assert_eq!(rows[0].kind, RowKind::Status);
    assert_eq!(rows[1].kind, RowKind::Item { selected: false });
    assert_eq!(rows[2].kind, RowKind::Item { selected: true });
    assert_eq!(rows[3].kind, RowKind::Pager);
    assert_eq!((rows[0].top, rows[0].bottom), (4, 26));
    assert_eq!((rows[1].top, rows[1].bottom), (26, 52));
    assert_eq!(rows[1].text, "1 今日");
    assert_eq!(rows[1].text_x, 10);
    assert_eq!(rows[3].text, "◀  1/2  ▶");
    assert_eq!(rows[3].bottom + 4, window_height(17, 2, true, true));
    assert_eq!(
        lines_to_measure(&data),
        vec!["1 今日", "2 京", "確定後「。」を入力", "◀  1/2  ▶"]
    );
    assert!(show(Vec::new(), 0, String::new()).is_none());
    let mut data = data;
    update_selection(&mut data, 0, "2/2".into());
    assert_eq!((data.selected, data.page_info.as_str()), (0, "2/2"));
}

#[test]
fn the_window_is_wide_enough_and_on_the_screen() {
    assert_eq!(estimate_width("a漢"), 27);
    assert_eq!(compute_needed_width(17, None), 260);
    assert_eq!(compute_needed_width(17, Some(&vec![100])), 260);
    assert_eq!(compute_needed_width(17, Some(&vec![300, 400])), 422);
    assert_eq!(compute_needed_width(17, Some(&vec![2_000])), 900);
    assert_eq!(calc_window_y(100, 200, Some((0, 1_000))), 101);
    assert_eq!(calc_window_y(900, 200, Some((0, 1_000))), 900 - 24 - 200);
    assert_eq!(calc_window_y(150, 200, Some((10, 300))), 150 - 24 - 200);
    assert_eq!(calc_window_y(900, 200, None), 901);
}

#[test]
fn messages_of_the_window_have_their_tasks() {
    assert_eq!(wnd_proc(WM_PAINT, 0), WindowTask::Paint);
    assert_eq!(wnd_proc(WM_ERASEBKGND, 0), WindowTask::KeepBackground);
    assert_eq!(wnd_proc(WM_TIMER, WAITING_TIMER_ID), WindowTask::PollWaiting);
    assert_eq!(wnd_proc(WM_TIMER, LIVE_TIMER_ID), WindowTask::PollLive);
    assert_eq!(wnd_proc(WM_TIMER, 1), WindowTask::Nothing);
    assert_eq!(wnd_proc(WM_APP_FOCUS_CHANGED, 0), WindowTask::WorkOffFocus);
    assert_eq!(wnd_proc(2, 0), WindowTask::Default);
}

#[test]
fn pages_follow_each_other() {
    assert_eq!(pages(20, 9), 3);
    assert_eq!(page_info(0, 1), "");
    assert_eq!(page_info(1, 3), "2/3");
    let next = next_page_start(20, 4, 9);
    assert_eq!(next, 9);
    assert_eq!(prev_page_start(20, next, 9), 0);
}

#[test]
fn the_engine_is_loaded_once() {
    let half = Readiness { dict: true, model: false };
    let mut started = false;
    assert_eq!(engine_start_bg_init(&mut started, None), EngineStep::Spawn);
    assert!(started);
    assert_eq!(engine_start_bg_init(&mut started, None), EngineStep::Nothing);
    assert_eq!(
        engine_start_bg_init(&mut started, Some(half)),
        EngineStep::Load { loads: Loads { dict: false, model: true } }
    );
    assert_eq!(bg_init_begin(true), EngineStep::Nothing);
    assert_eq!(bg_init_begin(false), EngineStep::Create);
    let mut pending = false;
    assert_eq!(bg_init_end(&mut started, &mut pending, None), EngineStep::Nothing);
    assert!(!started && !pending);
    assert_eq!(
        bg_init_end(&mut started, &mut pending, Some(half)),
        EngineStep::Load { loads: Loads { dict: false, model: true } }
    );
    assert!(pending);
    assert_eq!(engine_get_or_create(false), EngineStep::Create);
    let mut present = true;
    engine_force_recreate(&mut present);
    assert!(!present);
    let (mut present, mut started) = (true, true);
    assert_eq!(engine_reload(&mut present, &mut started), EngineStep::Spawn);
    assert!(!present && !started);
    assert_eq!(engine_reload_end(None), EngineStep::Nothing);
}

#[test]
fn memory_is_reported_now_and_again() {
    assert!(maybe_log_gpu_memory(true, "cuda", 16, 30_000, 0));
    assert!(!maybe_log_gpu_memory(true, "cuda", 16, 29_999, 0));
    assert!(!maybe_log_gpu_memory(true, "CPU", 16, 30_000, 0));
    assert!(!maybe_log_gpu_memory(true, "cuda", 0, 30_000, 0));
    assert!(!maybe_log_gpu_memory(false, "cuda", 16, 30_000, 0));
    assert_eq!(adapter_index(-1), 0);
    assert_eq!(adapter_index(2), 2);
    assert_eq!(
        gpu_memory_report("cuda", "RTX", 3 << 20, 10 << 20, 16),
        "gpu memory: backend=cuda adapter=RTX used=3MB budget=10MB available=7MB n_gpu_layers=16"
    );
}

#[test]
fn registration_is_recorded_step_by_step() {
    let (mut next, mut record) = register_begin();
    while let RegisterNext::Do { step } = next {
        let result = RegisterResult::Done { found: "C:\\rakukan.dll".into() };
        next = register_step(&mut record, step, result);
    }
    assert_eq!(next, RegisterNext::Registered);
    assert_eq!(
        record,
        "DllRegisterServer start\nOK: get_path\ndll_path: C:\\rakukan.dll\nOK: clsid_register\n\
         OK: profile_register\nOK: category_register\nDllRegisterServer success\n"
    );
    let mut record = String::new();
    let failed = RegisterResult::Failed { error: "denied".into() };
    assert_eq!(register_step(&mut record, RegisterStep::Profile, failed), RegisterNext::Failed);
    assert_eq!(record, "FAIL: profile_register — denied\n");
}
