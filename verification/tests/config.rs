use rakukan::engine::config::{
    build_engine_config_json, candidate_font_height, default_config_text, engine_config_json, AlphaWidth, AppConfig,
    DefaultImeMode, DigitCandidateKind, DigitWidth, KeyboardLayout, SymbolWidth,
};

type Parsed = Result<AppConfig, String>;

fn integer(table: &toml::Table, key: &str) -> Result<Option<i64>, String> {
    match table.get(key) {
        None => Ok(None),
        Some(value) => value.as_integer().map(Some).ok_or_else(|| key.to_string()),
    }
}

fn flag(table: &toml::Table, key: &str) -> Result<Option<bool>, String> {
    match table.get(key) {
        None => Ok(None),
        Some(value) => value.as_bool().map(Some).ok_or_else(|| key.to_string()),
    }
}

fn names(table: &toml::Table, key: &str) -> Result<Option<Vec<String>>, String> {
    match table.get(key) {
        None => Ok(None),
        Some(value) => value
            .as_array()
            .ok_or_else(|| key.to_string())?
            .iter()
            .map(|v| v.as_str().map(|s| s.to_string()).ok_or_else(|| key.to_string()))
            .collect::<Result<Vec<String>, String>>()
            .map(Some),
    }
}

/// The settings that the tests write, read from a file's text.
fn from_text(text: &str) -> Parsed {
    let root: toml::Table = text.parse().map_err(|e: toml::de::Error| e.to_string())?;
    let empty = toml::Table::new();
    let section = |name: &str| root.get(name).and_then(|v| v.as_table()).unwrap_or(&empty);
    let mut cfg = AppConfig::default();
    cfg.num_candidates = integer(&root, "num_candidates")?.map(|n| n as usize);
    cfg.conversion.num_candidates =
        integer(section("conversion"), "num_candidates")?.map(|n| n as usize);
    if let Some(n) = integer(section("live_conversion"), "min_chars")? {
        cfg.live_conversion.min_chars = n as usize;
    }
    if let Some(b) = flag(section("live_conversion"), "enabled")? {
        cfg.live_conversion.enabled = b;
    }
    if let Some(b) = flag(section("diagnostics"), "force_inference_failure")? {
        cfg.diagnostics.force_inference_failure = b;
    }
    if let Some(b) = flag(section("diagnostics"), "warn_on_unknown_key")? {
        cfg.diagnostics.warn_on_unknown_key = b;
    }
    if let Some(apps) = names(section("input"), "ime_off_apps")? {
        cfg.input.ime_off_apps = apps;
    }
    if let Some(apps) = names(section("input"), "ime_on_apps")? {
        cfg.input.ime_on_apps = apps;
    }
    Ok(cfg)
}

#[test]
fn ime_off_apps_has_terminal_defaults() {
    let cfg = AppConfig::default();
    assert_eq!(
        cfg.input.ime_off_apps,
        vec![
            "conhost.exe",
            "WindowsTerminal.exe",
            "mintty.exe",
            "wezterm-gui.exe",
            "ghostty.exe"
        ]
    );
    assert!(cfg.input.ime_on_apps.is_empty());

    let parsed = from_text(
        "[input]
default_mode = \"off\"
",
    )
    .expect("parse");
    assert_eq!(parsed.input.ime_off_apps.len(), 5);
}

#[test]
fn ime_apps_can_be_set_and_emptied() {
    let cfg = from_text(
        r#"
[input]
ime_off_apps = ["wezterm.exe"]
ime_on_apps = ["Photoshop.exe"]
"#,
    )
    .expect("parse");
    assert_eq!(cfg.input.ime_off_apps, vec!["wezterm.exe"]);
    assert_eq!(cfg.input.ime_on_apps, vec!["Photoshop.exe"]);

    let none = from_text(
        "[input]
ime_off_apps = []
",
    )
    .expect("parse");
    assert!(none.input.ime_off_apps.is_empty());
}

#[test]
fn force_inference_failure_defaults_to_false() {
    assert!(!AppConfig::default().diagnostics.force_inference_failure);
    let cfg = from_text(
        "[diagnostics]
warn_on_unknown_key = true
",
    )
    .expect("config should parse");
    assert!(!cfg.diagnostics.force_inference_failure);
}

#[test]
fn force_inference_failure_can_be_enabled() {
    let cfg = from_text(
        "[diagnostics]
force_inference_failure = true
",
    )
    .expect("parse");
    assert!(cfg.diagnostics.force_inference_failure);
    assert!(engine_config_json(&cfg).contains(r#""force_inference_failure":true"#));
}

#[test]
fn effective_num_candidates_reads_new_conversion_key() {
    let cfg = from_text(
        r#"
[conversion]
num_candidates = 12
"#,
    )
    .expect("config should parse");

    assert_eq!(cfg.effective_num_candidates(), 12);
}

#[test]
fn effective_num_candidates_falls_back_to_legacy_root_key() {
    let cfg = from_text("num_candidates = 7").expect("config should parse");

    assert_eq!(cfg.effective_num_candidates(), 7);
}

#[test]
fn effective_num_candidates_defaults_to_fast_profile() {
    let cfg = AppConfig::default();

    assert_eq!(cfg.effective_num_candidates(), 6);
    assert_eq!(cfg.live_conversion.beam_size, 1);
    assert_eq!(cfg.conversion.beam_size, 6);
}

#[test]
fn live_conversion_min_chars_defaults_to_three() {
    let cfg = AppConfig::default();
    assert_eq!(cfg.live_conversion.min_chars, 3);
}

#[test]
fn live_conversion_min_chars_parses_from_toml() {
    let cfg = from_text(
        r#"
[live_conversion]
enabled = true
min_chars = 2
"#,
    )
    .expect("config should parse");
    assert_eq!(cfg.live_conversion.min_chars, 2);
    assert!(cfg.live_conversion.enabled);
}

#[test]
fn live_conversion_min_chars_falls_back_to_default_when_omitted() {
    let cfg = from_text(
        r#"
[live_conversion]
enabled = true
"#,
    )
    .expect("config should parse");
    assert_eq!(cfg.live_conversion.min_chars, 3);
}

#[test]
fn numbers_of_candidates_stay_in_bounds() {
    let mut cfg = AppConfig::default();
    cfg.conversion.num_candidates = Some(0);
    assert_eq!(cfg.effective_num_candidates(), 1);
    cfg.conversion.num_candidates = Some(1000);
    assert_eq!(cfg.effective_num_candidates(), 30);
    cfg.num_candidates = Some(5);
    assert_eq!(cfg.effective_num_candidates(), 30);
    cfg.conversion.num_candidates = None;
    assert_eq!(cfg.effective_num_candidates(), 5);
}

#[test]
fn heights_of_the_font_stay_in_bounds() {
    let mut cfg = AppConfig::default();
    assert_eq!(candidate_font_height(&cfg), 17);
    cfg.appearance.candidate_font_height = 3;
    assert_eq!(candidate_font_height(&cfg), 10);
    cfg.appearance.candidate_font_height = 300;
    assert_eq!(candidate_font_height(&cfg), 72);
}

#[test]
fn the_engine_is_told_what_it_needs() {
    let before = engine_config_json(&AppConfig::default());
    let mut cfg = AppConfig::default();
    cfg.input.default_mode = DefaultImeMode::On;
    cfg.keyboard.layout = KeyboardLayout::Us;
    cfg.appearance.candidate_font_height = 40;
    assert_eq!(engine_config_json(&cfg), before);
    cfg.input.digit_width = DigitWidth::Fullwidth;
    cfg.input.alpha_width = AlphaWidth::Halfwidth;
    cfg.input.symbol_width = SymbolWidth::Halfwidth;
    cfg.input.digit_candidates_order = vec![DigitCandidateKind::Daiji];
    assert_ne!(engine_config_json(&cfg), before);
}

#[test]
fn text_for_the_engine_is_exact() {
    assert_eq!(
        engine_config_json(&AppConfig::default()),
        concat_lines(&[
            r#"{"num_candidates":6,"n_gpu_layers":4294967295,"main_gpu":0,"n_threads":0,"#,
            r#""digit_width":"halfwidth","alpha_width":"fullwidth","symbol_width":"fullwidth","#,
            r#""digit_separator_auto":true,"#,
            r#""digit_candidates_order":["arabic","fullwidth","positional","per_digit","daiji"],"#,
            r#""live_conv_beam_size":1,"convert_beam_size":6,"force_inference_failure":false}"#,
        ])
    );
    let mut cfg = AppConfig::default();
    cfg.general.n_gpu_layers = Some(16);
    cfg.general.main_gpu = -1;
    cfg.general.model_variant = Some("jinen-v1-small-q5".into());
    cfg.input.digit_candidates_order = Vec::new();
    cfg.live_conversion.beam_size = 100;
    cfg.conversion.beam_size = 0;
    cfg.input.digit_separator_auto = false;
    assert_eq!(
        engine_config_json(&cfg),
        concat_lines(&[
            r#"{"num_candidates":6,"n_gpu_layers":16,"main_gpu":-1,"n_threads":0,"#,
            r#""digit_width":"halfwidth","alpha_width":"fullwidth","symbol_width":"fullwidth","#,
            r#""digit_separator_auto":false,"digit_candidates_order":[],"#,
            r#""live_conv_beam_size":9,"convert_beam_size":1,"force_inference_failure":false,"#,
            r#""model_variant":"jinen-v1-small-q5"}"#,
        ])
    );
    assert_eq!(
        build_engine_config_json(&cfg),
        r#"{"num_candidates":6,"n_gpu_layers":16,"main_gpu":-1,"n_threads":0,"model_variant":"jinen-v1-small-q5"}"#
    );
}

fn concat_lines(lines: &[&str]) -> String {
    lines.concat()
}

#[test]
fn the_first_file_holds_the_defaults() {
    let text = default_config_text();
    let cfg = from_text(text).expect("the first file can be read");
    assert_eq!(cfg.effective_num_candidates(), 6);
    assert_eq!(cfg.live_conversion.min_chars, 3);
    assert_eq!(cfg.input.ime_off_apps, AppConfig::default().input.ime_off_apps);
}
