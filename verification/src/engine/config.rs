//! The settings of the input method.

use crate::engine::conversion::views;
use crate::text::{decimal, decimal_i32, decimal_u64, owned, signed_decimal};
use vstd::prelude::*;

verus! {

/// All settings. They are read from a file in which every one may be left out.
#[derive(Debug, PartialEq)]
pub struct AppConfig {
    pub general: GeneralConfig,
    pub keyboard: KeyboardConfig,
    pub input: InputConfig,
    pub live_conversion: LiveConversionConfig,
    pub conversion: ConversionConfig,
    pub appearance: AppearanceConfig,
    pub diagnostics: DiagnosticsConfig,
    /// Number of candidates as older files give it, outside all sections.
    pub num_candidates: Option<usize>,
}

/// Look of the candidate window.
#[derive(Clone, Copy, Debug, PartialEq, Eq, Structural)]
pub struct AppearanceConfig {
    /// Height of the font in pixels. All measures of the window follow it.
    pub candidate_font_height: i32,
}

#[derive(Debug, PartialEq)]
pub struct GeneralConfig {
    pub log_level: String,
    pub gpu_backend: Option<String>,
    pub n_gpu_layers: Option<u32>,
    pub main_gpu: i32,
    pub model_variant: Option<String>,
}

#[derive(Clone, Copy, Debug, PartialEq, Eq, Structural)]
pub enum KeyboardLayout {
    Us,
    Jis,
    Custom,
}

#[derive(Clone, Copy, Debug, PartialEq, Eq, Structural)]
pub struct KeyboardConfig {
    pub layout: KeyboardLayout,
    /// Whether the settings are read again when the mode is switched.
    pub reload_on_mode_switch: bool,
}

/// Whether the input method starts switched on.
#[derive(Clone, Copy, Debug, PartialEq, Eq, Structural)]
pub enum DefaultImeMode {
    On,
    Off,
}

#[derive(Clone, Copy, Debug, PartialEq, Eq, Structural)]
pub enum DigitWidth {
    Fullwidth,
    Halfwidth,
}

#[derive(Clone, Copy, Debug, PartialEq, Eq, Structural)]
pub enum AlphaWidth {
    Fullwidth,
    Halfwidth,
}

#[derive(Clone, Copy, Debug, PartialEq, Eq, Structural)]
pub enum SymbolWidth {
    Fullwidth,
    Halfwidth,
}

/// A way to write a number that was typed.
#[derive(Clone, Copy, Debug, PartialEq, Eq, Structural)]
pub enum DigitCandidateKind {
    Arabic,
    Fullwidth,
    Positional,
    PerDigit,
    Daiji,
}

#[derive(Debug, PartialEq)]
pub struct InputConfig {
    pub default_mode: DefaultImeMode,
    pub remember_last_kana_mode: bool,
    pub digit_width: DigitWidth,
    pub alpha_width: AlphaWidth,
    pub symbol_width: SymbolWidth,
    /// Whether Japanese stops and commas behind a digit become Western ones.
    pub digit_separator_auto: bool,
    /// The ways to write a number that are offered, in this order.
    pub digit_candidates_order: Vec<DigitCandidateKind>,
    /// Whether what is committed is learned.
    pub auto_learn: bool,
    /// Applications in which the input method starts switched off.
    pub ime_off_apps: Vec<String>,
    /// Applications in which it is switched on when an input field of theirs is entered.
    pub ime_on_apps: Vec<String>,
}

#[derive(Clone, Copy, Debug, PartialEq, Eq, Structural)]
pub struct LiveConversionConfig {
    pub enabled: bool,
    pub debounce_ms: u64,
    pub use_llm: bool,
    pub prefer_dictionary_first: bool,
    /// Search width of live conversion.
    pub beam_size: usize,
    /// Number of kana from which on live conversion sets in.
    pub min_chars: usize,
}

#[derive(Clone, Copy, Debug, PartialEq, Eq, Structural)]
pub struct ConversionConfig {
    /// Largest search width of a conversion.
    pub beam_size: usize,
    /// Number of candidates.
    pub num_candidates: Option<usize>,
}

#[derive(Clone, Copy, Debug, PartialEq, Eq, Structural)]
pub struct DiagnosticsConfig {
    pub dump_active_config: bool,
    pub warn_on_unknown_key: bool,
    /// Whether the model is made to fail, to try out what happens then.
    pub force_inference_failure: bool,
}

/// The font height unless another one is set.
pub const DEFAULT_CANDIDATE_FONT_HEIGHT: i32 = 17;

pub const MIN_CANDIDATE_FONT_HEIGHT: i32 = 10;

pub const MAX_CANDIDATE_FONT_HEIGHT: i32 = 72;

impl Default for AppearanceConfig {
    fn default() -> (r: Self)
        ensures
            r.candidate_font_height == DEFAULT_CANDIDATE_FONT_HEIGHT,
    {
        AppearanceConfig { candidate_font_height: DEFAULT_CANDIDATE_FONT_HEIGHT }
    }
}

/// General settings in a file that holds none.
pub open spec fn default_general(g: GeneralConfig) -> bool {
    &&& g.log_level@ == "info"@
    &&& g.gpu_backend is None
    &&& g.n_gpu_layers is None
    &&& g.main_gpu == 0
    &&& g.model_variant is None
}

impl Default for GeneralConfig {
    fn default() -> (r: Self)
        ensures
            default_general(r),
    {
        GeneralConfig {
            log_level: owned("info"),
            gpu_backend: None,
            n_gpu_layers: None,
            main_gpu: 0,
            model_variant: None,
        }
    }
}

impl Default for KeyboardConfig {
    fn default() -> (r: Self)
        ensures
            r == (KeyboardConfig { layout: KeyboardLayout::Jis, reload_on_mode_switch: true }),
    {
        KeyboardConfig { layout: KeyboardLayout::Jis, reload_on_mode_switch: true }
    }
}

impl Default for DigitWidth {
    fn default() -> (r: Self)
        ensures
            r == DigitWidth::Halfwidth,
    {
        DigitWidth::Halfwidth
    }
}

impl Default for AlphaWidth {
    fn default() -> (r: Self)
        ensures
            r == AlphaWidth::Fullwidth,
    {
        AlphaWidth::Fullwidth
    }
}

impl Default for SymbolWidth {
    fn default() -> (r: Self)
        ensures
            r == SymbolWidth::Fullwidth,
    {
        SymbolWidth::Fullwidth
    }
}

/// The order in which numbers are offered unless another one is set.
pub fn default_digit_candidates_order() -> (r: Vec<DigitCandidateKind>)
    ensures
        r@ == seq![
            DigitCandidateKind::Arabic,
            DigitCandidateKind::Fullwidth,
            DigitCandidateKind::Positional,
            DigitCandidateKind::PerDigit,
            DigitCandidateKind::Daiji,
        ],
{
    let mut r: Vec<DigitCandidateKind> = Vec::new();
    r.push(DigitCandidateKind::Arabic);
    r.push(DigitCandidateKind::Fullwidth);
    r.push(DigitCandidateKind::Positional);
    r.push(DigitCandidateKind::PerDigit);
    r.push(DigitCandidateKind::Daiji);
    r
}

/// Terminals.
pub fn default_ime_off_apps() -> (r: Vec<String>)
    ensures
        views(r@) == seq![
            "conhost.exe"@,
            "WindowsTerminal.exe"@,
            "mintty.exe"@,
            "wezterm-gui.exe"@,
            "ghostty.exe"@,
        ],
{
    let mut r: Vec<String> = Vec::new();
    r.push(owned("conhost.exe"));
    r.push(owned("WindowsTerminal.exe"));
    r.push(owned("mintty.exe"));
    r.push(owned("wezterm-gui.exe"));
    r.push(owned("ghostty.exe"));
    r
}

/// Input settings in a file that holds none.
pub open spec fn default_input(i: InputConfig) -> bool {
    &&& i.default_mode is Off
    &&& i.remember_last_kana_mode
    &&& i.digit_width is Halfwidth
    &&& i.alpha_width is Fullwidth
    &&& i.symbol_width is Fullwidth
    &&& i.digit_separator_auto
    &&& i.digit_candidates_order@ == seq![
        DigitCandidateKind::Arabic,
        DigitCandidateKind::Fullwidth,
        DigitCandidateKind::Positional,
        DigitCandidateKind::PerDigit,
        DigitCandidateKind::Daiji,
    ]
    &&& i.auto_learn
    &&& views(i.ime_off_apps@) == seq![
        "conhost.exe"@,
        "WindowsTerminal.exe"@,
        "mintty.exe"@,
        "wezterm-gui.exe"@,
        "ghostty.exe"@,
    ]
    &&& i.ime_on_apps@.len() == 0
}

impl Default for InputConfig {
    fn default() -> (r: Self)
        ensures
            default_input(r),
    {
        InputConfig {
            default_mode: DefaultImeMode::Off,
            remember_last_kana_mode: true,
            digit_width: DigitWidth::Halfwidth,
            alpha_width: AlphaWidth::Fullwidth,
            symbol_width: SymbolWidth::Fullwidth,
            digit_separator_auto: true,
            digit_candidates_order: default_digit_candidates_order(),
            auto_learn: true,
            ime_off_apps: default_ime_off_apps(),
            ime_on_apps: Vec::new(),
        }
    }
}

impl Default for LiveConversionConfig {
    fn default() -> (r: Self)
        ensures
            r == (LiveConversionConfig {
                enabled: false,
                debounce_ms: 80,
                use_llm: false,
                prefer_dictionary_first: true,
                beam_size: 1,
                min_chars: 3,
            }),
    {
        LiveConversionConfig {
            enabled: false,
            debounce_ms: 80,
            use_llm: false,
            prefer_dictionary_first: true,
            beam_size: 1,
            min_chars: 3,
        }
    }
}

impl Default for ConversionConfig {
    fn default() -> (r: Self)
        ensures
            r == (ConversionConfig { beam_size: 6, num_candidates: None }),
    {
        ConversionConfig { beam_size: 6, num_candidates: None }
    }
}

impl Default for DiagnosticsConfig {
    fn default() -> (r: Self)
        ensures
            r == (DiagnosticsConfig {
                dump_active_config: false,
                warn_on_unknown_key: true,
                force_inference_failure: false,
            }),
    {
        DiagnosticsConfig {
            dump_active_config: false,
            warn_on_unknown_key: true,
            force_inference_failure: false,
        }
    }
}

/// The settings of a file that holds none.
pub open spec fn default_settings(c: AppConfig) -> bool {
    &&& default_general(c.general)
    &&& c.keyboard == (KeyboardConfig { layout: KeyboardLayout::Jis, reload_on_mode_switch: true })
    &&& default_input(c.input)
    &&& c.live_conversion == (LiveConversionConfig {
        enabled: false,
        debounce_ms: 80,
        use_llm: false,
        prefer_dictionary_first: true,
        beam_size: 1,
        min_chars: 3,
    })
    &&& c.conversion == (ConversionConfig { beam_size: 6, num_candidates: None })
    &&& c.appearance == (AppearanceConfig { candidate_font_height: DEFAULT_CANDIDATE_FONT_HEIGHT })
    &&& c.diagnostics == (DiagnosticsConfig {
        dump_active_config: false,
        warn_on_unknown_key: true,
        force_inference_failure: false,
    })
    &&& c.num_candidates is None
}

impl Default for AppConfig {
    fn default() -> (r: Self)
        ensures
            default_settings(r),
    {
        AppConfig {
            general: GeneralConfig::default(),
            keyboard: KeyboardConfig::default(),
            input: InputConfig::default(),
            live_conversion: LiveConversionConfig::default(),
            conversion: ConversionConfig::default(),
            appearance: AppearanceConfig::default(),
            diagnostics: DiagnosticsConfig::default(),
            num_candidates: None,
        }
    }
}

/// `v`, or the bound next to it where it lies outside `lo..=hi`.
pub open spec fn clamped(v: int, lo: int, hi: int) -> int {
    if v < lo {
        lo
    } else if v > hi {
        hi
    } else {
        v
    }
}

fn clamp_size(v: usize, lo: usize, hi: usize) -> (r: usize)
    ensures
        r == clamped(v as int, lo as int, hi as int),
{
    if v < lo {
        lo
    } else if v > hi {
        hi
    } else {
        v
    }
}

/// How many candidates a conversion yields: the section's number, else the one outside
/// all sections, else 6, and always 1 to 30.
pub open spec fn num_candidates_of(c: AppConfig) -> int {
    clamped(
        match (c.conversion.num_candidates, c.num_candidates) {
            (Some(n), _) => n as int,
            (None, Some(n)) => n as int,
            (None, None) => 6,
        },
        1,
        30,
    )
}

impl AppConfig {
    /// How many candidates a conversion yields.
    pub fn effective_num_candidates(&self) -> (r: usize)
        ensures
            r == num_candidates_of(*self),
    {
        let wanted: usize = match self.conversion.num_candidates {
            Some(n) => n,
            None => match self.num_candidates {
                Some(n) => n,
                None => 6,
            },
        };
        clamp_size(wanted, 1, 30)
    }
}

/// The font height of the candidate window, within what can be shown.
pub fn candidate_font_height(cfg: &AppConfig) -> (r: i32)
    ensures
        r == clamped(
            cfg.appearance.candidate_font_height as int,
            MIN_CANDIDATE_FONT_HEIGHT as int,
            MAX_CANDIDATE_FONT_HEIGHT as int,
        ),
        crate::tsf::candidate_window::is_font_height(r as int),
{
    let h: i32 = cfg.appearance.candidate_font_height;
    if h < MIN_CANDIDATE_FONT_HEIGHT {
        MIN_CANDIDATE_FONT_HEIGHT
    } else if h > MAX_CANDIDATE_FONT_HEIGHT {
        MAX_CANDIDATE_FONT_HEIGHT
    } else {
        h
    }
}

/// The name of a way to write numbers, in quotes.
pub open spec fn kind_name(kind: DigitCandidateKind) -> Seq<char> {
    match kind {
        DigitCandidateKind::Arabic => "\"arabic\""@,
        DigitCandidateKind::Fullwidth => "\"fullwidth\""@,
        DigitCandidateKind::Positional => "\"positional\""@,
        DigitCandidateKind::PerDigit => "\"per_digit\""@,
        DigitCandidateKind::Daiji => "\"daiji\""@,
    }
}

/// The names one after the other, with commas between them.
pub open spec fn kinds_text(kinds: Seq<DigitCandidateKind>) -> Seq<char>
    decreases kinds.len(),
{
    if kinds.len() == 0 {
        Seq::empty()
    } else if kinds.len() == 1 {
        kind_name(kinds[0])
    } else {
        kinds_text(kinds.drop_last()) + ","@ + kind_name(kinds.last())
    }
}

fn kinds_json(kinds: &Vec<DigitCandidateKind>) -> (r: String)
    ensures
        r@ == kinds_text(kinds@),
{
    let mut s = String::new();
    let mut i: usize = 0;
    assert(s@ =~= kinds_text(kinds@.take(0)));
    while i < kinds.len()
        invariant
            i <= kinds@.len(),
            s@ == kinds_text(kinds@.take(i as int)),
        decreases kinds.len() - i,
    {
        proof {
            let next = kinds@.take(i + 1);
            assert(next.drop_last() =~= kinds@.take(i as int));
            assert(next.last() == kinds@[i as int]);
        }
        if i > 0 {
            s.append(",");
        }
        match kinds[i] {
            DigitCandidateKind::Arabic => s.append("\"arabic\""),
            DigitCandidateKind::Fullwidth => s.append("\"fullwidth\""),
            DigitCandidateKind::Positional => s.append("\"positional\""),
            DigitCandidateKind::PerDigit => s.append("\"per_digit\""),
            DigitCandidateKind::Daiji => s.append("\"daiji\""),
        }
        proof {
            if i == 0 {
                assert(s@ =~= kinds_text(kinds@.take(1)));
            }
        }
        i += 1;
    }
    assert(kinds@.take(i as int) =~= kinds@);
    s
}

/// The name of a width.
pub open spec fn width_name(full: bool) -> Seq<char> {
    if full {
        "fullwidth"@
    } else {
        "halfwidth"@
    }
}

fn width_text(full: bool) -> (r: &'static str)
    ensures
        r@ == width_name(full),
{
    if full {
        "fullwidth"
    } else {
        "halfwidth"
    }
}

/// A truth value as JSON writes it.
pub open spec fn bool_name(b: bool) -> Seq<char> {
    if b {
        "true"@
    } else {
        "false"@
    }
}

fn bool_text(b: bool) -> (r: &'static str)
    ensures
        r@ == bool_name(b),
{
    if b {
        "true"
    } else {
        "false"
    }
}

/// What the engine is told of the settings, as JSON. All layers go to the GPU unless the
/// settings say otherwise; the model is named only where the settings name one.
pub open spec fn engine_json_of(c: AppConfig) -> Seq<char> {
    "{\"num_candidates\":"@ + decimal(num_candidates_of(c) as nat) + ",\"n_gpu_layers\":"@ + decimal(
        (match c.general.n_gpu_layers {
            Some(n) => n,
            None => u32::MAX,
        }) as nat,
    ) + ",\"main_gpu\":"@ + signed_decimal(c.general.main_gpu as int)
        + ",\"n_threads\":0,\"digit_width\":\""@ + width_name(c.input.digit_width is Fullwidth)
        + "\",\"alpha_width\":\""@ + width_name(c.input.alpha_width is Fullwidth)
        + "\",\"symbol_width\":\""@ + width_name(c.input.symbol_width is Fullwidth)
        + "\",\"digit_separator_auto\":"@ + bool_name(c.input.digit_separator_auto)
        + ",\"digit_candidates_order\":["@ + kinds_text(c.input.digit_candidates_order@)
        + "],\"live_conv_beam_size\":"@ + decimal(
        clamped(c.live_conversion.beam_size as int, 1, 9) as nat,
    ) + ",\"convert_beam_size\":"@ + decimal(clamped(c.conversion.beam_size as int, 1, 30) as nat)
        + ",\"force_inference_failure\":"@ + bool_name(c.diagnostics.force_inference_failure) + (
    match c.general.model_variant {
        Some(v) => ",\"model_variant\":\""@ + v@ + "\""@,
        None => Seq::empty(),
    }) + "}"@
}

fn variant_json(cfg: &AppConfig) -> (r: String)
    ensures
        r@ == (match cfg.general.model_variant {
            Some(v) => ",\"model_variant\":\""@ + v@ + "\""@,
            None => Seq::empty(),
        }),
{
    let mut variant = String::new();
    if let Some(v) = &cfg.general.model_variant {
        variant = owned(",\"model_variant\":\"");
        variant.append(v.as_str());
        variant.append("\"");
    }
    assert(variant@ =~= (match cfg.general.model_variant {
        Some(v) => ",\"model_variant\":\""@ + v@ + "\""@,
        None => Seq::empty(),
    }));
    variant
}

/// What the engine is told of the settings.
pub fn engine_config_json(cfg: &AppConfig) -> (r: String)
    ensures
        r@ == engine_json_of(*cfg),
{
    let n_gpu_layers: u32 = match cfg.general.n_gpu_layers {
        Some(n) => n,
        None => u32::MAX,
    };
    let mut s = owned("{\"num_candidates\":");
    s.append(decimal_u64(cfg.effective_num_candidates() as u64).as_str());
    s.append(",\"n_gpu_layers\":");
    s.append(decimal_u64(n_gpu_layers as u64).as_str());
    s.append(",\"main_gpu\":");
    s.append(decimal_i32(cfg.general.main_gpu).as_str());
    s.append(",\"n_threads\":0,\"digit_width\":\"");
    s.append(width_text(cfg.input.digit_width == DigitWidth::Fullwidth));
    s.append("\",\"alpha_width\":\"");
    s.append(width_text(cfg.input.alpha_width == AlphaWidth::Fullwidth));
    s.append("\",\"symbol_width\":\"");
    s.append(width_text(cfg.input.symbol_width == SymbolWidth::Fullwidth));
    s.append("\",\"digit_separator_auto\":");
    s.append(bool_text(cfg.input.digit_separator_auto));
    s.append(",\"digit_candidates_order\":[");
    s.append(kinds_json(&cfg.input.digit_candidates_order).as_str());
    s.append("],\"live_conv_beam_size\":");
    s.append(decimal_u64(clamp_size(cfg.live_conversion.beam_size, 1, 9) as u64).as_str());
    s.append(",\"convert_beam_size\":");
    s.append(decimal_u64(clamp_size(cfg.conversion.beam_size, 1, 30) as u64).as_str());
    s.append(",\"force_inference_failure\":");
    s.append(bool_text(cfg.diagnostics.force_inference_failure));
    s.append(variant_json(cfg).as_str());
    s.append("}");
    s
}

/// What an engine that is loaded into the process itself is told of the settings, as JSON.
pub open spec fn loaded_engine_json_of(c: AppConfig) -> Seq<char> {
    "{\"num_candidates\":"@ + decimal(num_candidates_of(c) as nat) + ",\"n_gpu_layers\":"@ + decimal(
        (match c.general.n_gpu_layers {
            Some(n) => n,
            None => u32::MAX,
        }) as nat,
    ) + ",\"main_gpu\":"@ + signed_decimal(c.general.main_gpu as int) + ",\"n_threads\":0"@ + (
    match c.general.model_variant {
        Some(v) => ",\"model_variant\":\""@ + v@ + "\""@,
        None => Seq::empty(),
    }) + "}"@
}

/// What an engine that is loaded into the process itself is told of the settings.
pub fn build_engine_config_json(cfg: &AppConfig) -> (r: String)
    ensures
        r@ == loaded_engine_json_of(*cfg),
{
    let n_gpu_layers: u32 = match cfg.general.n_gpu_layers {
        Some(n) => n,
        None => u32::MAX,
    };
    let mut s = owned("{\"num_candidates\":");
    s.append(decimal_u64(cfg.effective_num_candidates() as u64).as_str());
    s.append(",\"n_gpu_layers\":");
    s.append(decimal_u64(n_gpu_layers as u64).as_str());
    s.append(",\"main_gpu\":");
    s.append(decimal_i32(cfg.general.main_gpu).as_str());
    s.append(",\"n_threads\":0");
    s.append(variant_json(cfg).as_str());
    s.append("}");
    s
}

/// What the engine is told depends on nothing but the settings that it knows: a file that
/// differs in others gives the same text.
pub proof fn engine_text_ignores_the_rest(a: AppConfig, b: AppConfig)
    requires
        a.general.n_gpu_layers == b.general.n_gpu_layers,
        a.general.main_gpu == b.general.main_gpu,
        a.general.model_variant == b.general.model_variant,
        a.input.digit_width == b.input.digit_width,
        a.input.alpha_width == b.input.alpha_width,
        a.input.symbol_width == b.input.symbol_width,
        a.input.digit_separator_auto == b.input.digit_separator_auto,
        a.input.digit_candidates_order@ == b.input.digit_candidates_order@,
        a.live_conversion.beam_size == b.live_conversion.beam_size,
        a.conversion == b.conversion,
        a.num_candidates == b.num_candidates,
        a.diagnostics.force_inference_failure == b.diagnostics.force_inference_failure,
    ensures
        engine_json_of(a) == engine_json_of(b),
{
}

/// The number of candidates is never outside what the window pages through, and the
/// section's number counts before the older one.
pub proof fn candidates_are_bounded(c: AppConfig)
    ensures
        1 <= num_candidates_of(c) <= 30,
        c.conversion.num_candidates matches Some(n) ==> (1 <= n <= 30 ==> num_candidates_of(c) == n),
{
}

/// The file that is written where there is none.
pub const DEFAULT_CONFIG_TEXT: &'static str = r#"# rakukan 設定ファイル
# 入力モード変更時に再読込されます。

[general]
# ログレベル: error / warn / info / debug / trace
# debug: 開発中の標準。キー入力ごとの状態変化が見える
# info:  通常運用。初期化・確定・モード変更のみ
# trace: 詳細調査時。ループ内・トークン単位まで出力される（低速）
# 環境変数 RAKUKAN_LOG が設定されている場合はそちらが優先される
log_level = "info"

# GPU バックエンド: "auto" / "cuda" / "vulkan" / "cpu"
# "auto"   : インストール済みの DLL から cuda → vulkan → cpu の順で自動選択（デフォルト）
# "cuda"   : NVIDIA GPU (CUDA) ← RTX シリーズ推奨
# "vulkan" : Vulkan 対応 GPU (AMD / Intel / NVIDIA)
# "cpu"    : CPU のみ（GPU なし、VMware 等）
gpu_backend = "auto"

# GPU に載せるレイヤー数
# 0 で CPU のみ、未指定で全レイヤーを GPU にオフロード
# GPU 競合や他アプリの異常終了がある場合は 8 / 16 / 24 など小さめを試す
n_gpu_layers = 16

# 使用する GPU インデックス（複数 GPU 環境で 2 枚目以降を使う場合に変更）
main_gpu = 0

# LLM モデル ID
# jinen-v1-xsmall-q5  : 軽量・推奨（約 30 MB、低スペック PC 向け、デフォルト）
# jinen-v1-small-q5   : 標準（約 84 MB、通常用途）
# jinen-v1-xsmall-f16 : 高精度・大容量（約 138 MB、量子化なし FP16）
# jinen-v1-small-f16  : 高精度・大容量（約 423 MB、量子化なし FP16）
# jinen-v2-xsmall-q5  : v2 世代 (Qwen3) 軽量（約 28 MB）
# jinen-v2-small-q5   : v2 世代 (Qwen3) 標準（約 81 MB）
# jinen-v2-xsmall-f16 : v2 世代 (Qwen3) FP16（約 72 MB）
# jinen-v2-small-f16  : v2 世代 (Qwen3) FP16（約 220 MB）
model_variant = "jinen-v1-xsmall-q5"

[keyboard]
layout = "jis"
reload_on_mode_switch = true

[input]
# 起動時の IME 状態: "off" = 直接入力, "on" = かな漢字変換
default_mode = "off"
# 前回の IME オン/オフをアプリ（ウィンドウ）ごとに記憶する
remember_last_kana_mode = true
# 数字の入力幅: "halfwidth" = 半角 (012), "fullwidth" = 全角 (０１２)
digit_width = "halfwidth"
# 英字の入力幅: "fullwidth" = 全角 (ＡＢＣ), "halfwidth" = 半角 (ABC)
alpha_width = "fullwidth"
# 記号の入力幅: "fullwidth" = 全角 (＠＃＆), "halfwidth" = 半角 (@#&)
symbol_width = "fullwidth"
# 数字直後の 、/。 を ,/. として入力する
digit_separator_auto = true
# 数字だけの reading に対して提示する候補種別と順序
digit_candidates_order = ["arabic", "fullwidth", "positional", "per_digit", "daiji"]
# 確定時に学習するか (デフォルト: true)。
# false にすると学習を完全に抑止する。
auto_learn = true
# アクティブになったとき IME をオフで始めるアプリ (exe 名)。
# ターミナルのように常に英数で打ち始めたいアプリを挙げる。
# 操作中に IME を変えればその状態が続き、インアクティブになると捨てられる。
# 空配列を書けば何も適用しない。
ime_off_apps = ["conhost.exe", "WindowsTerminal.exe", "mintty.exe", "wezterm-gui.exe", "ghostty.exe"]
# アクティブになり、アプリ本体とは別の入力先に入ったとき IME をオンにするアプリ (exe 名)。
# Photoshop の文字ツールのように、入力のたびに別の入力先が作られるアプリで使う。
# アクティブ化後 1 回だけ適用し、その後は操作した状態が続く。
ime_on_apps = []

[live_conversion]
enabled = false
debounce_ms = 80
use_llm = false
prefer_dictionary_first = true
# ライブ変換の候補数（beam 幅）: 1 = greedy（高速、デフォルト）, 3 = beam search（高品質）
beam_size = 1
# ライブ変換を開始する最小文字数（デフォルト 3）。
# 2 にすると 2 文字から変換を開始する（より積極的、変換負荷増）。
# 1 は 2 以上を推奨するが設定可能。
min_chars = 3

[conversion]
# Space 変換のビーム幅上限（num_candidates と min をとる）。
# デフォルト 6 では候補数 6 と揃え、候補表の幅を保つ。
# 体感速度を優先する場合は小さく、候補幅を優先する場合は大きく設定する。
# 範囲: 1〜30。
beam_size = 6

# Space 変換で表示する候補数（1〜30、デフォルト 6）。
# 新形式は [conversion].num_candidates。旧形式のルート直下 num_candidates も引き続き読める。
# num_candidates = 6

[appearance]
# 候補ウィンドウのフォントサイズ（ピクセル）。既定 17
# 行の高さ・余白・最小幅も同じ比率で拡大するので、この値だけ変えればよい。
# 10〜72 にクランプされる。次回の候補表示から反映。
candidate_font_height = 17

[diagnostics]
dump_active_config = false
warn_on_unknown_key = true
# 診断用: 推論を必ず失敗させる (デフォルト: false)。
# GPU デバイス消失からの復帰 (Issue #43) の確認用。変換は辞書候補だけになる。
# force_inference_failure = true

# 旧形式との互換用:
# num_candidates = 6
"#;

/// The file that is written where there is none.
pub fn default_config_text() -> (r: &'static str)
    ensures
        r@ == DEFAULT_CONFIG_TEXT@,
{
    DEFAULT_CONFIG_TEXT
}

/// A value within the bounds is taken as it is, any other becomes the bound next to it.
pub proof fn clamping_changes_as_little_as_possible(v: int, lo: int, hi: int)
    requires
        lo <= hi,
    ensures
        lo <= clamped(v, lo, hi) <= hi,
        lo <= v <= hi ==> clamped(v, lo, hi) == v,
        v < lo ==> clamped(v, lo, hi) == lo,
        v > hi ==> clamped(v, lo, hi) == hi,
{
}

/// The number of candidates in the section counts first, then the older one, and without either
/// there are six.
pub proof fn newer_number_counts_first(c: AppConfig, n: int)
    requires
        n == (if c.conversion.num_candidates is Some {
            c.conversion.num_candidates->0 as int
        } else if c.num_candidates is Some {
            c.num_candidates->0 as int
        } else {
            6
        }),
    ensures
        1 <= n <= 30 ==> num_candidates_of(c) == n,
        n < 1 ==> num_candidates_of(c) == 1,
        n > 30 ==> num_candidates_of(c) == 30,
{
}

/// The names of the ways to write numbers follow each other in their order, with one comma
/// between two of them.
pub proof fn ways_follow_each_other(a: Seq<DigitCandidateKind>, b: Seq<DigitCandidateKind>)
    requires
        a.len() > 0,
        b.len() > 0,
    ensures
        kinds_text(a + b) == kinds_text(a) + ","@ + kinds_text(b),
        kinds_text(Seq::empty()) == Seq::<char>::empty(),
    decreases b.len(),
{
    assert((a + b).drop_last() =~= a + b.drop_last());
    if b.len() == 1 {
        assert((a + b).drop_last() =~= a);
    } else {
        ways_follow_each_other(a, b.drop_last());
        assert(kinds_text(a + b) =~= kinds_text(a) + ","@ + kinds_text(b));
    }
}

/// Each way to write numbers has the name by which the settings file calls it.
pub proof fn ways_have_their_names(kind: DigitCandidateKind)
    ensures
        kinds_text(seq![kind]) == "\""@ + (match kind {
            DigitCandidateKind::Arabic => "arabic"@,
            DigitCandidateKind::Fullwidth => "fullwidth"@,
            DigitCandidateKind::Positional => "positional"@,
            DigitCandidateKind::PerDigit => "per_digit"@,
            DigitCandidateKind::Daiji => "daiji"@,
        }) + "\""@,
{
    reveal_strlit("\"");
    reveal_strlit("arabic");
    reveal_strlit("\"arabic\"");
    reveal_strlit("fullwidth");
    reveal_strlit("\"fullwidth\"");
    reveal_strlit("positional");
    reveal_strlit("\"positional\"");
    reveal_strlit("per_digit");
    reveal_strlit("\"per_digit\"");
    reveal_strlit("daiji");
    reveal_strlit("\"daiji\"");
}

/// Whether `text` is an object in JSON with a member `key` of value `value`, as far as can be
/// seen beside the member.
pub open spec fn has_member(text: Seq<char>, key: Seq<char>, value: Seq<char>) -> bool {
    exists|a: Seq<char>, b: Seq<char>| #[trigger] member_between(text, a, key, value, b)
}

/// Whether the member stands between `a` and `b` in `text`.
pub open spec fn member_between(
    text: Seq<char>,
    a: Seq<char>,
    key: Seq<char>,
    value: Seq<char>,
    b: Seq<char>,
) -> bool {
    &&& text == a + seq!['"'] + key + seq!['"'] + seq![':'] + value + b
    &&& a.len() > 0 && (a.last() == '{' || a.last() == ',')
    &&& b.len() > 0 && (b[0] == '}' || b[0] == ',')
}

proof fn lemma_member(
    text: Seq<char>,
    before: Seq<char>,
    opening: Seq<char>,
    key: Seq<char>,
    value: Seq<char>,
    after: Seq<char>,
)
    requires
        text == before + opening + value + after,
        opening.len() == key.len() + 4,
        opening[0] == ',' || opening[0] == '{',
        opening[1] == '"',
        opening.subrange(2, opening.len() - 2) == key,
        opening[opening.len() - 2] == '"',
        opening[opening.len() - 1] == ':',
        after.len() > 0,
        after[0] == ',' || after[0] == '}',
    ensures
        has_member(text, key, value),
{
    let a = before + opening.take(1);
    let o = opening.take(1) + seq!['"'] + key + seq!['"'] + seq![':'];
    assert(opening =~= o) by {
        assert forall|i: int| 0 <= i < opening.len() implies opening[i] == o[i] by {
            if 2 <= i < opening.len() - 2 {
                assert(key[i - 2] == opening.subrange(2, opening.len() - 2)[i - 2]);
            }
        }
    }
    assert(text =~= a + seq!['"'] + key + seq!['"'] + seq![':'] + value + after);
    assert(member_between(text, a, key, value, after));
}

proof fn lemma_candidates_opening()
    ensures
        is_opening("{\"num_candidates\":"@, "num_candidates"@),
        "{\"num_candidates\":"@[0] == '{',
{
    reveal_strlit("{\"num_candidates\":");
    reveal_strlit("num_candidates");
    let opening = "{\"num_candidates\":"@;
    assert(opening.subrange(2, opening.len() - 2) =~= "num_candidates"@);
}

proof fn lemma_layers_opening()
    ensures
        is_opening(",\"n_gpu_layers\":"@, "n_gpu_layers"@),
        ",\"n_gpu_layers\":"@[0] == ',',
{
    reveal_strlit(",\"n_gpu_layers\":");
    reveal_strlit("n_gpu_layers");
    let opening = ",\"n_gpu_layers\":"@;
    assert(opening.subrange(2, opening.len() - 2) =~= "n_gpu_layers"@);
}

proof fn lemma_gpu_opening()
    ensures
        is_opening(",\"main_gpu\":"@, "main_gpu"@),
        ",\"main_gpu\":"@[0] == ',',
{
    reveal_strlit(",\"main_gpu\":");
    reveal_strlit("main_gpu");
    let opening = ",\"main_gpu\":"@;
    assert(opening.subrange(2, opening.len() - 2) =~= "main_gpu"@);
}

spec fn is_opening(opening: Seq<char>, key: Seq<char>) -> bool {
    &&& opening.len() == key.len() + 4
    &&& opening[0] == ',' || opening[0] == '{'
    &&& opening[1] == '"'
    &&& opening.subrange(2, opening.len() - 2) == key
    &&& opening[opening.len() - 2] == '"'
    &&& opening[opening.len() - 1] == ':'
}

/// An engine that is loaded into the process is told the number of candidates, the layers on
/// the graphics card (all unless they are given), and the card.
pub proof fn loaded_engine_is_told(c: AppConfig)
    ensures
        ({
            let text = loaded_engine_json_of(c);
            &&& has_member(text, "num_candidates"@, decimal(num_candidates_of(c) as nat))
            &&& has_member(
                text,
                "n_gpu_layers"@,
                decimal(
                    (if c.general.n_gpu_layers is Some {
                        c.general.n_gpu_layers->0
                    } else {
                        u32::MAX
                    }) as nat,
                ),
            )
            &&& has_member(text, "main_gpu"@, signed_decimal(c.general.main_gpu as int))
        }),
{
    let text = loaded_engine_json_of(c);
    let n = decimal(num_candidates_of(c) as nat);
    let l = decimal(
        (match c.general.n_gpu_layers {
            Some(n) => n,
            None => u32::MAX,
        }) as nat,
    );
    let g = signed_decimal(c.general.main_gpu as int);
    let v = match c.general.model_variant {
        Some(v) => ",\"model_variant\":\""@ + v@ + "\""@,
        None => Seq::empty(),
    };
    let t0 = "{\"num_candidates\":"@;
    let t1 = ",\"n_gpu_layers\":"@;
    let t2 = ",\"main_gpu\":"@;
    let t3 = ",\"n_threads\":0"@;
    let end = "}"@;
    lemma_candidates_opening();
    lemma_layers_opening();
    lemma_gpu_opening();
    assert(t3.len() > 0 && t3[0] == ',') by {
        reveal_strlit(",\"n_threads\":0");
    }
    assert(text == t0 + n + t1 + l + t2 + g + t3 + v + end);
    let a2 = t3 + v + end;
    let a1 = t2 + g + a2;
    let a0 = t1 + l + a1;
    assert(text =~= Seq::<char>::empty() + t0 + n + a0);
    lemma_member(text, Seq::empty(), t0, "num_candidates"@, n, a0);
    assert(text =~= (t0 + n) + t1 + l + a1);
    lemma_member(text, t0 + n, t1, "n_gpu_layers"@, l, a1);
    assert(text =~= (t0 + n + t1 + l) + t2 + g + a2);
    lemma_member(text, t0 + n + t1 + l, t2, "main_gpu"@, g, a2);
}

} // verus!
