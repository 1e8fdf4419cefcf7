use rakukan::engine::config::{engine_config_json, AppConfig, KeyboardLayout};
use rakukan::engine::config_manager::{
    begin_apply, config_text, current_config, current_snapshot, effective_num_candidates,
    finish_apply, get_num_candidates, has_pending_apply, init_config_manager, keyboard_layout,
    maybe_reload_on_mode_switch, reload_config, reloads_on_mode_switch, ApplyId, ApplyOutcome,
    ApplyTrigger, ConfigManager, ConfigSource, LoadInput, LoadNote, LoadNoteOf, LoadOutcome,
};
use sha2::Digest;

const PATH: &str = "/home/someone/rakukan/config.toml";
const VALID: &str = "[conversion]\nnum_candidates = 7\n";
const FIXED: &str = "[conversion]\nnum_candidates = 4\n";
const BROKEN: &str = "[conversion\nnum_candidates = ";

/// A file: its text, or nothing where it is missing.
struct FakeFile {
    body: Option<Vec<u8>>,
}

fn parse(bytes: &Vec<u8>) -> Result<AppConfig, String> {
    let text = config_text(bytes)?;
    let root: toml::Table = text.parse().map_err(|e: toml::de::Error| e.to_string())?;
    let mut cfg = AppConfig::default();
    if let Some(conversion) = root.get("conversion").and_then(|v| v.as_table()) {
        cfg.conversion.num_candidates = conversion
            .get("num_candidates")
            .and_then(|v| v.as_integer())
            .map(|n| n as usize);
    }
    if let Some(keyboard) = root.get("keyboard").and_then(|v| v.as_table()) {
        if let Some(b) = keyboard.get("reload_on_mode_switch").and_then(|v| v.as_bool()) {
            cfg.keyboard.reload_on_mode_switch = b;
        }
    }
    Ok(cfg)
}

impl FakeFile {
    fn new(text: &str) -> FakeFile {
        FakeFile { body: Some(text.as_bytes().to_vec()) }
    }

    fn write(&mut self, text: &str) {
        self.body = Some(text.as_bytes().to_vec());
    }

    fn remove(&mut self) {
        self.body = None;
    }

    fn load(&self) -> LoadInput {
        match &self.body {
            None => LoadInput::Unreadable { error: "no such file".into() },
            Some(bytes) => LoadInput::Body { bytes: bytes.clone(), parsed: parse(bytes) },
        }
    }
}

fn mgr_with(text: &str) -> (ConfigManager, FakeFile) {
    let file = FakeFile::new(text);
    let (mgr, _) = ConfigManager::from_path(PATH.into(), file.load());
    (mgr, file)
}

fn reinit(mgr: &mut ConfigManager, file: &FakeFile) -> LoadOutcome {
    mgr.reinit(file.load(), "test").0
}

fn reinit_noting(mgr: &mut ConfigManager, file: &FakeFile) -> (LoadOutcome, String) {
    let (outcome, note) = mgr.reinit(file.load(), "test");
    (outcome, warning(note))
}

/// The text of a warning, empty where there is none.
fn warning(note: LoadNote) -> String {
    match note {
        LoadNoteOf::Warn { text } => text,
        _ => String::new(),
    }
}

fn has_error_detail(text: &str) -> bool {
    text.split("error=").skip(1).any(|rest| !rest.trim().is_empty())
}

#[test]
fn broken_toml_is_a_parse_error() {
    assert!(parse(&BROKEN.as_bytes().to_vec()).is_err());
}

#[test]
fn first_load_uses_defaults_on_parse_error() {
    let (mgr, _file) = mgr_with(BROKEN);
    assert_eq!(
        mgr.app_config().effective_num_candidates(),
        AppConfig::default().effective_num_candidates()
    );
}

#[test]
fn reinit_keeps_the_previous_config_on_parse_error() {
    let (mut mgr, mut file) = mgr_with(VALID);
    assert_eq!(mgr.app_config().effective_num_candidates(), 7);
    file.write(BROKEN);
    reinit(&mut mgr, &file);
    assert_eq!(mgr.app_config().effective_num_candidates(), 7);
}

#[test]
fn reinit_keeps_the_previous_config_when_the_file_is_missing() {
    let (mut mgr, mut file) = mgr_with(VALID);
    assert_eq!(mgr.app_config().effective_num_candidates(), 7);
    file.remove();
    reinit(&mut mgr, &file);
    assert_eq!(mgr.app_config().effective_num_candidates(), 7);
}

#[test]
fn reinit_does_not_recreate_a_missing_file() {
    let (mut mgr, mut file) = mgr_with(VALID);
    file.remove();
    reinit(&mut mgr, &file);
    assert!(file.body.is_none());
}

#[test]
fn reinit_applies_a_fixed_toml() {
    let (mut mgr, mut file) = mgr_with(VALID);
    file.write(BROKEN);
    reinit(&mut mgr, &file);
    assert_eq!(mgr.app_config().effective_num_candidates(), 7);
    file.write(FIXED);
    reinit(&mut mgr, &file);
    assert_eq!(mgr.app_config().effective_num_candidates(), 4);
}

#[test]
fn first_load_warns_with_path_and_error() {
    let file = FakeFile::new(BROKEN);
    let (_mgr, note) = ConfigManager::from_path(PATH.into(), file.load());
    let logs = warning(note);
    assert!(logs.contains(PATH));
    assert!(has_error_detail(&logs));
    assert!(logs.contains("starting with defaults"));
}

#[test]
fn reinit_warns_with_path_and_error_on_parse_error() {
    let (mut mgr, mut file) = mgr_with(VALID);
    file.write(BROKEN);
    let (_, logs) = reinit_noting(&mut mgr, &file);
    assert!(logs.contains(PATH));
    assert!(has_error_detail(&logs));
    assert!(logs.contains("keeping previous config"));
}

#[test]
fn reinit_warns_with_path_and_error_when_the_file_is_missing() {
    let (mut mgr, mut file) = mgr_with(VALID);
    file.remove();
    let (_, logs) = reinit_noting(&mut mgr, &file);
    assert!(logs.contains(PATH));
    assert!(has_error_detail(&logs));
    assert!(logs.contains("keeping previous config"));
}

#[test]
fn successful_load_does_not_warn() {
    let file = FakeFile::new(VALID);
    let (mut mgr, first) = ConfigManager::from_path(PATH.into(), file.load());
    let (_, again) = mgr.reinit(file.load(), "test");
    assert_eq!(first, LoadNoteOf::Quiet);
    assert_eq!(again, LoadNoteOf::Quiet);
}

#[test]
fn first_load_from_file_has_hash_and_bytes() {
    let (mgr, _file) = mgr_with(VALID);
    let snap = mgr.snapshot();
    assert_eq!(snap.revision, 1);
    match &snap.source {
        ConfigSource::File { bytes, sha256 } => {
            assert_eq!(&bytes[..], VALID.as_bytes());
            let expected: [u8; 32] = sha2::Sha256::digest(VALID.as_bytes()).into();
            assert_eq!(*sha256, expected);
        }
        ConfigSource::Defaults => panic!("the file was read"),
    }
    assert!(snap.apply_id().sha256.is_some());
    assert!(!mgr.has_pending_apply());
}

#[test]
fn first_load_failure_is_defaults_without_hash() {
    let (mgr, _file) = mgr_with(BROKEN);
    let snap = mgr.snapshot();
    assert_eq!(snap.source, ConfigSource::Defaults);
    assert_eq!(snap.apply_id().sha256, None);
}

#[test]
fn same_bytes_are_not_reparsed_or_republished() {
    let (mut mgr, file) = mgr_with(VALID);
    assert_eq!(reinit(&mut mgr, &file), LoadOutcome::Unchanged);
    assert_eq!(mgr.snapshot().revision, 1);
}

#[test]
fn changed_engine_json_sets_pending_apply() {
    let (mut mgr, mut file) = mgr_with(VALID);
    file.write(FIXED);
    assert_eq!(reinit(&mut mgr, &file), LoadOutcome::Updated);
    assert_eq!(mgr.snapshot().revision, 2);
    assert!(mgr.has_pending_apply());
    assert_eq!(mgr.pending_apply().unwrap().revision, 2);
}

#[test]
fn comment_only_change_keeps_pending_but_moves_its_id() {
    let (mut mgr, mut file) = mgr_with(VALID);
    file.write(FIXED);
    reinit(&mut mgr, &file);
    assert_eq!(mgr.pending_apply().unwrap().revision, 2);
    file.write(&format!("# comment\n{FIXED}"));
    assert_eq!(reinit(&mut mgr, &file), LoadOutcome::Updated);
    assert_eq!(mgr.pending_apply().unwrap().revision, 3);
    let (id, _) = mgr.begin_apply(ApplyTrigger::SaveEvent, false).expect("pending");
    assert!(mgr.finish_apply(&id, ApplyOutcome::SameConfig));
    file.write(&format!("# another\n{FIXED}"));
    assert_eq!(reinit(&mut mgr, &file), LoadOutcome::Updated);
    assert!(!mgr.has_pending_apply());
}

#[test]
fn failed_reload_keeps_previous_snapshot_and_pending() {
    let (mut mgr, mut file) = mgr_with(VALID);
    file.write(FIXED);
    reinit(&mut mgr, &file);
    let before = mgr.snapshot().apply_id();
    file.write(BROKEN);
    assert_eq!(reinit(&mut mgr, &file), LoadOutcome::Failed);
    let after = mgr.snapshot();
    assert_eq!(after.apply_id(), before);
    match &after.source {
        ConfigSource::File { bytes, .. } => assert_eq!(&bytes[..], FIXED.as_bytes()),
        ConfigSource::Defaults => panic!("the file was read"),
    }
    assert!(mgr.has_pending_apply());
}

#[test]
fn begin_apply_only_when_pending_unless_forced() {
    let (mut mgr, _file) = mgr_with(VALID);
    assert!(mgr.begin_apply(ApplyTrigger::SaveEvent, false).is_none());
    let (id, json) = mgr
        .begin_apply(ApplyTrigger::ManualRestart, true)
        .expect("force sends the current snapshot");
    assert_eq!(id.revision, 1);
    assert_eq!(json, mgr.snapshot().engine_json);
    assert_eq!(mgr.in_flight().unwrap().trigger, ApplyTrigger::ManualRestart);
}

#[test]
fn response_for_a_clears_only_a_not_b() {
    let (mut mgr, mut file) = mgr_with(VALID);
    file.write(FIXED);
    reinit(&mut mgr, &file);
    let (a, _) = mgr.begin_apply(ApplyTrigger::SaveEvent, false).expect("A pending");
    file.write("[conversion]\nnum_candidates = 9\n");
    assert_eq!(reinit(&mut mgr, &file), LoadOutcome::Updated);
    let b = mgr.pending_apply().expect("B pending").duplicate();
    assert_ne!(a, b);
    assert!(!mgr.finish_apply(&a, ApplyOutcome::SameConfig));
    assert_eq!(mgr.pending_apply(), Some(&b));
    let (b2, _) = mgr.begin_apply(ApplyTrigger::SaveEvent, false).expect("B pending");
    assert_eq!(b2, b);
    assert!(mgr.finish_apply(&b2, ApplyOutcome::RestartAccepted));
    assert!(!mgr.has_pending_apply());
}

#[test]
fn a_to_b_to_a_does_not_let_an_old_response_clear_the_new_pending() {
    let (mut mgr, mut file) = mgr_with(VALID);
    file.write(FIXED);
    reinit(&mut mgr, &file);
    let (a1, _) = mgr.begin_apply(ApplyTrigger::SaveEvent, false).expect("A pending");
    file.write(VALID);
    reinit(&mut mgr, &file);
    file.write(FIXED);
    reinit(&mut mgr, &file);
    let a3 = mgr.pending_apply().expect("A again").duplicate();
    assert_eq!(a1.sha256, a3.sha256);
    assert_ne!(a1.revision, a3.revision);
    assert!(!mgr.finish_apply(&a1, ApplyOutcome::SameConfig));
    assert!(mgr.has_pending_apply());
}

#[test]
fn comm_failure_keeps_pending() {
    let (mut mgr, mut file) = mgr_with(VALID);
    file.write(FIXED);
    reinit(&mut mgr, &file);
    let (id, _) = mgr.begin_apply(ApplyTrigger::SaveEvent, false).expect("pending");
    assert!(!mgr.finish_apply(&id, ApplyOutcome::CommFailure));
    assert!(mgr.has_pending_apply());
    assert!(mgr.in_flight().is_none());
    let (id, _) = mgr.begin_apply(ApplyTrigger::SaveEvent, false).expect("pending");
    assert!(mgr.finish_apply(&id, ApplyOutcome::ShutdownAcknowledged { fallback: true }));
    assert!(!mgr.has_pending_apply());
}

#[test]
fn repeated_identical_failure_warns_once_and_keeps_rechecking() {
    let (mut mgr, mut file) = mgr_with(VALID);
    file.write(BROKEN);
    let (first, logs1) = reinit_noting(&mut mgr, &file);
    assert_eq!(first, LoadOutcome::Failed);
    assert!(logs1.contains("reload failed"));
    let (again, logs2) = reinit_noting(&mut mgr, &file);
    assert_eq!(again, LoadOutcome::Failed);
    assert!(!logs2.contains("reload failed"));
    file.remove();
    let (missing, logs3) = reinit_noting(&mut mgr, &file);
    assert_eq!(missing, LoadOutcome::Failed);
    assert!(logs3.contains("reload failed"));
    file.write(FIXED);
    assert_eq!(reinit(&mut mgr, &file), LoadOutcome::Updated);
    file.write(BROKEN);
    let (_, logs4) = reinit_noting(&mut mgr, &file);
    assert!(logs4.contains("reload failed"));
}

#[test]
fn changed_bytes_with_same_mtime_and_size_are_published() {
    let (mut mgr, mut file) = mgr_with(VALID);
    let revision = mgr.snapshot().revision;
    assert_eq!(VALID.len(), FIXED.len());
    file.write(FIXED);
    assert_eq!(reinit(&mut mgr, &file), LoadOutcome::Updated);
    assert_eq!(mgr.snapshot().revision, revision + 1);
    assert_eq!(mgr.app_config().effective_num_candidates(), 4);
    assert!(mgr.has_pending_apply());
}

#[test]
fn engine_json_is_pure_and_matches_snapshot() {
    let (mgr, _file) = mgr_with(VALID);
    let snap = mgr.snapshot();
    assert_eq!(engine_config_json(&snap.app_config), snap.engine_json);
    assert!(snap.engine_json.contains(r#""num_candidates":7"#));
}

#[test]
fn a_hash_is_the_known_one() {
    let (mgr, _file) = mgr_with("");
    let id = mgr.snapshot().apply_id();
    assert_eq!(
        id.sha256.map(|h| [h[0], h[1], h[2], h[3], h[31]]),
        Some([0xe3, 0xb0, 0xc4, 0x42, 0x55])
    );
    assert_eq!(id.to_text(), "rev=1 sha256=e3b0c44298fc");
    assert_eq!(ApplyId { revision: 3, sha256: None }.to_text(), "rev=3 sha256=none(defaults)");
}

#[test]
fn text_that_is_no_utf8_is_an_error() {
    assert_eq!(config_text(&"設定".as_bytes().to_vec()), Ok("設定".to_string()));
    let error = config_text(&vec![b'a', 0xff, b'b']).unwrap_err();
    assert!(error.contains("invalid utf-8"));
    let (mgr, note) = ConfigManager::from_path(
        PATH.into(),
        FakeFile { body: Some(vec![0xff]) }.load(),
    );
    assert_eq!(mgr.snapshot().source, ConfigSource::Defaults);
    assert!(warning(note).contains("invalid utf-8"));
}

#[test]
fn a_file_that_can_be_read_again_is_noted() {
    let (mut mgr, mut file) = mgr_with(VALID);
    file.write(BROKEN);
    reinit(&mut mgr, &file);
    assert!(matches!(mgr.reinit(file.load(), "again").1, LoadNoteOf::Still { .. }));
    file.write(VALID);
    let (outcome, note) = reload_config(&mut mgr, file.load(), "again");
    assert_eq!(outcome, LoadOutcome::Unchanged);
    assert!(matches!(note, LoadNoteOf::Recovered { .. }));
}

#[test]
fn settings_are_read_through_the_manager() {
    let (mut mgr, mut file) = mgr_with(VALID);
    assert_eq!(effective_num_candidates(&mgr), 7);
    assert_eq!(get_num_candidates(&mgr), 7);
    assert_eq!(keyboard_layout(&mgr), KeyboardLayout::Jis);
    assert_eq!(current_config(&mgr).effective_num_candidates(), 7);
    assert_eq!(current_snapshot(&mgr).revision, 1);
    assert!(!has_pending_apply(&mgr));
    file.write(FIXED);
    let (outcome, _) = init_config_manager(&mut mgr, Some("elsewhere".into()), file.load());
    assert_eq!(outcome, LoadOutcome::Updated);
    assert_eq!(mgr.path(), "elsewhere");
    let (id, json) = begin_apply(&mut mgr, ApplyTrigger::ModeSwitch, false).expect("pending");
    assert!(json.contains(r#""num_candidates":4"#));
    assert!(finish_apply(&mut mgr, &id, ApplyOutcome::SameConfig));
}

#[test]
fn switching_the_mode_reads_the_file_where_it_is_asked_to() {
    let (mut mgr, mut file) = mgr_with(VALID);
    assert!(reloads_on_mode_switch(&mgr));
    file.write(FIXED);
    assert!(maybe_reload_on_mode_switch(&mut mgr, file.load()).0);
    assert_eq!(effective_num_candidates(&mgr), 4);
    file.write("[keyboard]\nreload_on_mode_switch = false\n");
    reinit(&mut mgr, &file);
    assert!(!reloads_on_mode_switch(&mgr));
    file.write(VALID);
    maybe_reload_on_mode_switch(&mut mgr, file.load());
    assert_eq!(effective_num_candidates(&mgr), 6);
}

#[test]
fn numbers_of_settings_only_grow() {
    let (mut mgr, mut file) = mgr_with(VALID);
    let mut last = mgr.snapshot().revision;
    for text in [FIXED, VALID, FIXED, VALID] {
        file.write(text);
        assert_eq!(reinit(&mut mgr, &file), LoadOutcome::Updated);
        assert!(mgr.snapshot().revision > last);
        last = mgr.snapshot().revision;
    }
}
