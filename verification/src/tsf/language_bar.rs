//! The item in the language bar.

use crate::engine::conversion::views;
use crate::engine::input_mode::InputMode;
use crate::text::{concat3, utf16, utf16_units};
use crate::tsf::effects::{emit, no_effects, Effect, EffectModel, EffectOf};
use crate::tsf::mode::{is_open_mode, mode_char, mode_sign, open_for_mode};
use vstd::prelude::*;

verus! {

/// The number under which the language bar is registered for changes.
pub const LANGBAR_SINK_COOKIE: u32 = 0xACA_CACA;

pub const ID_MENU_MODE_HIRAGANA: u32 = 1;

pub const ID_MENU_MODE_KATAKANA: u32 = 2;

pub const ID_MENU_MODE_ALPHANUMERIC: u32 = 3;

pub const ID_MENU_SETTINGS: u32 = 10;

pub const ID_MENU_ENGINE_RELOAD: u32 = 11;

/// The mode that the language bar shows. What the service knows of its mode counts only
/// while the input method is on.
pub open spec fn langbar_mode(open: bool, mode: Option<InputMode>) -> InputMode {
    if !open {
        InputMode::Alphanumeric
    } else {
        match mode {
            Some(m) => m,
            None => InputMode::Hiragana,
        }
    }
}

/// The mode that the language bar shows.
pub fn current_langbar_mode(open: bool, mode: Option<InputMode>) -> (r: InputMode)
    ensures
        r == langbar_mode(open, mode),
{
    if !open {
        InputMode::Alphanumeric
    } else {
        match mode {
            Some(m) => m,
            None => InputMode::Hiragana,
        }
    }
}

/// The sign on the icon and in the text of the item.
pub fn langbar_sign(open: bool, mode: Option<InputMode>) -> (r: &'static str)
    ensures
        r@ == mode_sign(langbar_mode(open, mode)),
{
    mode_char(current_langbar_mode(open, mode))
}

/// What the tray icon is told. What the system says counts first, then the mode.
pub fn tray_state(open: Option<bool>, mode: Option<InputMode>) -> (r: (bool, InputMode))
    ensures
        r.0 == (match (open, mode) {
            (Some(o), _) => o,
            (None, Some(m)) => is_open_mode(m),
            (None, None) => true,
        }),
        r.1 == (match mode {
            Some(m) => m,
            None => InputMode::Hiragana,
        }),
{
    let known = match mode {
        Some(m) => m,
        None => InputMode::Hiragana,
    };
    let on = match open {
        Some(o) => o,
        None => match mode {
            Some(m) => open_for_mode(m),
            None => true,
        },
    };
    (on, known)
}

/// What stands over the item when the mouse rests on it.
pub fn tooltip(backend: Option<&str>) -> (r: String)
    ensures
        r@ == "rakukan ["@ + (match backend {
            Some(b) => b@,
            None => "初期化中..."@,
        }) + "]"@,
{
    let label = match backend {
        Some(b) => b,
        None => "初期化中...",
    };
    concat3("rakukan [", label, "]")
}

/// An entry of the menu.
#[derive(Clone, Copy, Debug, PartialEq, Eq)]
pub struct MenuItem {
    pub id: u32,
    pub text: &'static str,
    pub checked: bool,
    pub separator: bool,
}

#[verifier::ext_equal]
pub struct MenuItemModel {
    pub id: u32,
    pub text: Seq<char>,
    pub checked: bool,
    pub separator: bool,
}

impl View for MenuItem {
    type V = MenuItemModel;

    open spec fn view(&self) -> MenuItemModel {
        MenuItemModel {
            id: self.id,
            text: self.text@,
            checked: self.checked,
            separator: self.separator,
        }
    }
}

/// An entry for a mode or a command.
pub open spec fn entry(id: u32, text: Seq<char>, checked: bool) -> MenuItemModel {
    MenuItemModel { id, text, checked, separator: false }
}

/// The menu: the modes, the one in use checked, and under a line the commands.
pub open spec fn menu_of(mode: InputMode) -> Seq<MenuItemModel> {
    seq![
        entry(ID_MENU_MODE_HIRAGANA, "ひらがな"@, mode is Hiragana),
        entry(ID_MENU_MODE_KATAKANA, "カタカナ"@, mode is Katakana),
        entry(ID_MENU_MODE_ALPHANUMERIC, "英数"@, mode is Alphanumeric),
        MenuItemModel { id: 0, text: ""@, checked: false, separator: true },
        entry(ID_MENU_SETTINGS, "設定..."@, false),
        entry(ID_MENU_ENGINE_RELOAD, "エンジン再起動"@, false),
    ]
}

/// The menu.
pub fn init_menu(mode: InputMode) -> (r: Vec<MenuItem>)
    ensures
        views(r@) == menu_of(mode),
{
    let mut items: Vec<MenuItem> = Vec::new();
    items.push(
        MenuItem {
            id: ID_MENU_MODE_HIRAGANA,
            text: "ひらがな",
            checked: mode == InputMode::Hiragana,
            separator: false,
        },
    );
    items.push(
        MenuItem {
            id: ID_MENU_MODE_KATAKANA,
            text: "カタカナ",
            checked: mode == InputMode::Katakana,
            separator: false,
        },
    );
    items.push(
        MenuItem {
            id: ID_MENU_MODE_ALPHANUMERIC,
            text: "英数",
            checked: mode == InputMode::Alphanumeric,
            separator: false,
        },
    );
    items.push(MenuItem { id: 0, text: "", checked: false, separator: true });
    items.push(MenuItem { id: ID_MENU_SETTINGS, text: "設定...", checked: false, separator: false });
    items.push(
        MenuItem {
            id: ID_MENU_ENGINE_RELOAD,
            text: "エンジン再起動",
            checked: false,
            separator: false,
        },
    );
    assert(views(items@) =~= menu_of(mode));
    items
}

/// What an entry of the menu asks for.
#[derive(Clone, Copy, Debug, PartialEq, Eq, Structural)]
pub enum MenuCommand {
    Mode { mode: InputMode },
    /// Open the settings.
    Settings,
    /// Read the settings again and start the engine anew.
    Reload,
    Nothing,
}

/// What an entry of the menu asks for.
pub open spec fn command_of(id: u32) -> MenuCommand {
    if id == ID_MENU_MODE_HIRAGANA {
        MenuCommand::Mode { mode: InputMode::Hiragana }
    } else if id == ID_MENU_MODE_KATAKANA {
        MenuCommand::Mode { mode: InputMode::Katakana }
    } else if id == ID_MENU_MODE_ALPHANUMERIC {
        MenuCommand::Mode { mode: InputMode::Alphanumeric }
    } else if id == ID_MENU_SETTINGS {
        MenuCommand::Settings
    } else if id == ID_MENU_ENGINE_RELOAD {
        MenuCommand::Reload
    } else {
        MenuCommand::Nothing
    }
}

/// What an entry of the menu asks for. 0 stands for a menu that was closed.
pub fn handle_langbar_menu_command(id: u32) -> (r: MenuCommand)
    ensures
        r == command_of(id),
{
    if id == ID_MENU_MODE_HIRAGANA {
        MenuCommand::Mode { mode: InputMode::Hiragana }
    } else if id == ID_MENU_MODE_KATAKANA {
        MenuCommand::Mode { mode: InputMode::Katakana }
    } else if id == ID_MENU_MODE_ALPHANUMERIC {
        MenuCommand::Mode { mode: InputMode::Alphanumeric }
    } else if id == ID_MENU_SETTINGS {
        MenuCommand::Settings
    } else if id == ID_MENU_ENGINE_RELOAD {
        MenuCommand::Reload
    } else {
        MenuCommand::Nothing
    }
}

/// A mode was chosen in the menu.
pub fn apply_langbar_mode(mode: InputMode) -> (r: Vec<Effect>)
    ensures
        views(r@) == seq![
            EffectModel::SetOpen { open: is_open_mode(mode) },
            EffectModel::SetMode { mode },
            EffectModel::NotifyLangbar,
            EffectModel::NotifyTray,
            EffectModel::ReloadConfig,
        ],
{
    let mut fx = no_effects();
    emit(&mut fx, EffectOf::SetOpen { open: open_for_mode(mode) });
    emit(&mut fx, EffectOf::SetMode { mode });
    emit(&mut fx, EffectOf::NotifyLangbar);
    emit(&mut fx, EffectOf::NotifyTray);
    emit(&mut fx, EffectOf::ReloadConfig);
    fx
}

/// The number by which the system keeps whether the input method is on.
pub open spec fn open_value(open: bool) -> i32 {
    if open {
        1
    } else {
        0
    }
}

/// The number to keep.
pub fn set_open_close(open: bool) -> (r: i32)
    ensures
        r == open_value(open),
{
    if open {
        1
    } else {
        0
    }
}

/// Whether the input method is on, by the number kept. Without one it counts as on.
pub open spec fn value_open(value: Option<i32>) -> bool {
    match value {
        Some(n) => n != 0,
        None => true,
    }
}

/// Whether the input method is on.
pub fn get_open_close(value: Option<i32>) -> (r: bool)
    ensures
        r == value_open(value),
{
    match value {
        Some(n) => n != 0,
        None => true,
    }
}

/// The number to keep after switching.
pub fn toggle_open_close(value: Option<i32>) -> (r: i32)
    ensures
        r == open_value(!value_open(value)),
{
    if get_open_close(value) {
        0
    } else {
        1
    }
}

/// The name of the item as the system takes it: the first units of a text, and zeros up to
/// the length of the field, one at least.
pub open spec fn description_units(text: Seq<char>) -> Seq<u16> {
    Seq::new(
        32,
        |i: int|
            if i < utf16_units(text).len() && i < 31 {
                utf16_units(text)[i]
            } else {
                0
            },
    )
}

/// The name of the item.
pub fn make_langbar_description(text: &str) -> (r: Vec<u16>)
    ensures
        r@ == description_units(text@),
{
    let units = utf16(text);
    let mut r: Vec<u16> = Vec::new();
    let mut i: usize = 0;
    while i < 32
        invariant
            i <= 32,
            units@ == utf16_units(text@),
            r@ == description_units(text@).take(i as int),
        decreases 32 - i,
    {
        let unit: u16 = if i < units.len() && i < 31 {
            units[i]
        } else {
            0
        };
        r.push(unit);
        assert(r@ =~= description_units(text@).take(i + 1));
        i += 1;
    }
    assert(description_units(text@).take(32) =~= description_units(text@));
    r
}

/// Why a registration for changes is refused.
#[derive(Clone, Copy, Debug, PartialEq, Eq, Structural)]
pub enum SinkError {
    /// It is for something else than changes of the item.
    InvalidSink,
    /// Nobody is to be told.
    NoReceiver,
    /// No registration has that number.
    BadCookie,
}

/// Registers the receiver of changes: the number of the registration. There is one at a time,
/// and one that cannot be told anything is not kept.
pub fn advise_sink(
    has_sink: &mut bool,
    is_item_sink: bool,
    has_receiver: bool,
    usable: bool,
) -> (r: Result<u32, SinkError>)
    ensures
        !is_item_sink ==> r == Err::<u32, SinkError>(SinkError::InvalidSink),
        is_item_sink && !has_receiver ==> r == Err::<u32, SinkError>(SinkError::NoReceiver),
        is_item_sink && has_receiver ==> r == Ok::<u32, SinkError>(LANGBAR_SINK_COOKIE),
        *final(has_sink) == (*old(has_sink) || (is_item_sink && has_receiver && usable)),
{
    if !is_item_sink {
        return Err(SinkError::InvalidSink);
    }
    if !has_receiver {
        return Err(SinkError::NoReceiver);
    }
    if usable {
        *has_sink = true;
    }
    Ok(LANGBAR_SINK_COOKIE)
}

/// Takes a registration back.
pub fn unadvise_sink(has_sink: &mut bool, cookie: u32) -> (r: Result<(), SinkError>)
    ensures
        cookie != LANGBAR_SINK_COOKIE ==> r == Err::<(), SinkError>(SinkError::BadCookie)
            && *final(has_sink) == *old(has_sink),
        cookie == LANGBAR_SINK_COOKIE ==> r == Ok::<(), SinkError>(()) && !*final(has_sink),
{
    if cookie != LANGBAR_SINK_COOKIE {
        return Err(SinkError::BadCookie);
    }
    *has_sink = false;
    Ok(())
}

/// Notes that the language bar has to be refreshed.
pub fn langbar_update_set(pending: &mut bool)
    ensures
        *final(pending),
{
    *pending = true;
}

/// Whether the language bar has to be refreshed; it then counts as done.
pub fn langbar_update_take(pending: &mut bool) -> (r: bool)
    ensures
        r == *old(pending),
        !*final(pending),
{
    let r = *pending;
    *pending = false;
    r
}

/// Exactly one mode of the menu is checked, and choosing it changes nothing.
pub proof fn menu_checks_mode_in_use(mode: InputMode, i: int)
    requires
        0 <= i < menu_of(mode).len(),
    ensures
        menu_of(mode)[i].checked <==> command_of(menu_of(mode)[i].id) == (MenuCommand::Mode { mode }),
        menu_of(mode)[i].separator <==> command_of(menu_of(mode)[i].id) is Nothing,
{
}

/// Switching turns off what is on and on what is off; twice it changes nothing.
pub proof fn switching_twice_changes_nothing(value: Option<i32>)
    ensures
        value_open(Some(open_value(!value_open(value)))) == !value_open(value),
        value_open(Some(open_value(!value_open(Some(open_value(!value_open(value))))))) == value_open(
            value,
        ),
{
}

/// While the input method is off the language bar shows letters, whatever mode is kept; while
/// it is on, the mode in use.
pub proof fn shown_mode_is_in_use(open: bool, mode: InputMode)
    ensures
        langbar_mode(false, Some(mode)) == InputMode::Alphanumeric,
        langbar_mode(false, None) == InputMode::Alphanumeric,
        langbar_mode(true, Some(mode)) == mode,
        langbar_mode(open, Some(mode)) != InputMode::Alphanumeric ==> open,
        langbar_mode(true, None) == InputMode::Hiragana,
{
}

/// Every mode can be chosen in the menu, under its name, by one entry; the other two entries
/// open the settings and start the engine anew.
pub proof fn menu_offers_every_mode(mode: InputMode, wanted: InputMode, i: int, j: int)
    requires
        0 <= i < menu_of(mode).len(),
        0 <= j < menu_of(mode).len(),
    ensures
        menu_of(mode).len() == 6,
        i != j ==> menu_of(mode)[i].id != menu_of(mode)[j].id,
        exists|k: int|
            0 <= k < 3 && command_of((#[trigger] menu_of(mode)[k]).id) == (MenuCommand::Mode {
                mode: wanted,
            }) && menu_of(mode)[k].text == (match wanted {
                InputMode::Hiragana => "ひらがな"@,
                InputMode::Katakana => "カタカナ"@,
                InputMode::Alphanumeric => "英数"@,
            }) && menu_of(mode)[k].checked == (wanted == mode),
        menu_of(mode)[3].separator,
        command_of(menu_of(mode)[4].id) is Settings && menu_of(mode)[4].text == "設定..."@,
        command_of(menu_of(mode)[5].id) is Reload && menu_of(mode)[5].text == "エンジン再起動"@,
        command_of(0) is Nothing,
{
    let k: int = match wanted {
        InputMode::Hiragana => 0,
        InputMode::Katakana => 1,
        InputMode::Alphanumeric => 2,
    };
    let e = menu_of(mode)[k];
    assert(command_of(e.id) == (MenuCommand::Mode { mode: wanted }));
}

/// An entry that is not in the menu asks for nothing.
pub proof fn other_entries_ask_for_nothing(mode: InputMode, id: u32)
    requires
        forall|k: int| 0 <= k < menu_of(mode).len() ==> (#[trigger] menu_of(mode)[k]).id != id,
    ensures
        command_of(id) is Nothing,
{
    let m = menu_of(mode);
    assert(m[0].id == ID_MENU_MODE_HIRAGANA);
    assert(m[1].id == ID_MENU_MODE_KATAKANA);
    assert(m[2].id == ID_MENU_MODE_ALPHANUMERIC);
    assert(m[4].id == ID_MENU_SETTINGS);
    assert(m[5].id == ID_MENU_ENGINE_RELOAD);
}

/// What is kept of being on or off can be read back, and without it the input method is on.
pub proof fn kept_state_can_be_read(open: bool, value: i32)
    ensures
        value_open(Some(open_value(open))) == open,
        value_open(None),
        value_open(Some(value)) <==> value != 0,
        open_value(true) == 1,
{
}

/// The name of the item begins with as much of the text as fits in front of a closing zero, and
/// nothing else stands in the field.
pub proof fn description_begins_with_text(text: Seq<char>, n: int)
    requires
        n == (if utf16_units(text).len() <= 31 {
            utf16_units(text).len() as int
        } else {
            31
        }),
    ensures
        description_units(text).len() == 32,
        description_units(text).take(n) == utf16_units(text).take(n),
        forall|k: int| n <= k < 32 ==> #[trigger] description_units(text)[k] == 0,
{
}

} // verus!
