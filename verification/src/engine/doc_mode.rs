//! Which input mode each document was left in.
//!
//! Browsers make a new document for every page in the same window. A mode is therefore
//! kept under the document and under its window: a document that is not known takes
//! the mode of its window. A window that is not known either gets the mode that the
//! user has set for a start.
//!
//! The user can single out applications. Some start with letters whenever they become
//! active, terminals for example. In others kana is switched on, once after they have become
//! active, as soon as something else than their main document is typed into.

use crate::engine::apps::AppRules;
use crate::engine::input_mode::InputMode;
use std::collections::HashMap;
use vstd::prelude::*;

verus! {

broadcast use vstd::std_specs::hash::group_hash_axioms;

/// The modes of documents and windows.
pub struct ModeStore {
    dm_modes: HashMap<usize, InputMode>,
    hwnd_modes: HashMap<usize, InputMode>,
    dm_to_hwnd: HashMap<usize, usize>,
    main: usize,
    armed: bool,
}

/// What a store holds: the mode of a document, the mode of a window, the window of a
/// document, the main document of the application, 0 for none, and whether the application
/// has not been switched to kana since it became active.
#[verifier::ext_equal]
pub struct ModeStoreModel {
    pub dm_modes: Map<usize, InputMode>,
    pub hwnd_modes: Map<usize, InputMode>,
    pub dm_to_hwnd: Map<usize, usize>,
    pub main: usize,
    pub armed: bool,
}

impl View for ModeStore {
    type V = ModeStoreModel;

    closed spec fn view(&self) -> ModeStoreModel {
        ModeStoreModel {
            dm_modes: self.dm_modes@,
            hwnd_modes: self.hwnd_modes@,
            dm_to_hwnd: self.dm_to_hwnd@,
            main: self.main,
            armed: self.armed,
        }
    }
}

impl Default for ModeStore {
    fn default() -> (r: Self)
        ensures
            r@ == (ModeStoreModel {
                dm_modes: Map::empty(),
                hwnd_modes: Map::empty(),
                dm_to_hwnd: Map::empty(),
                main: 0,
                armed: true,
            }),
    {
        ModeStore {
            dm_modes: HashMap::new(),
            hwnd_modes: HashMap::new(),
            dm_to_hwnd: HashMap::new(),
            main: 0,
            armed: true,
        }
    }
}

/// What the mode of a document depends on besides the store.
#[derive(Clone, Copy, Debug, PartialEq, Eq, Structural)]
pub struct FocusSettings {
    /// Whether modes are remembered at all.
    pub remember: bool,
    /// The mode that the user has set for a start.
    pub default_mode: InputMode,
    /// The mode in use until now.
    pub current: InputMode,
    /// How the user wants the application to be treated.
    pub app: AppRules,
}

/// The mode of a document of which nothing is known.
pub open spec fn start_mode(settings: FocusSettings) -> InputMode {
    if settings.app.off {
        InputMode::Alphanumeric
    } else {
        settings.default_mode
    }
}

/// Whether kana is switched on because the document `next` gets the focus: it is another one
/// than the main document, and this has not been done since the application became active.
pub open spec fn switches_on(m: ModeStoreModel, settings: FocusSettings, next: usize) -> bool {
    settings.app.on && m.armed && m.main != 0 && m.main != next
}

/// The store after the document `prev` has lost the focus; 0 stands for none.
pub open spec fn after_leaving(
    m: ModeStoreModel,
    settings: FocusSettings,
    prev: usize,
) -> ModeStoreModel {
    if prev != 0 && settings.remember {
        ModeStoreModel {
            dm_modes: m.dm_modes.insert(prev, settings.current),
            hwnd_modes: if m.dm_to_hwnd.contains_key(prev) && m.dm_to_hwnd[prev] != 0 {
                m.hwnd_modes.insert(m.dm_to_hwnd[prev], settings.current)
            } else {
                m.hwnd_modes
            },
            ..m
        }
    } else {
        m
    }
}

/// The mode that the document `next` in the window `hwnd` gets.
pub open spec fn mode_on_arrival(
    m: ModeStoreModel,
    settings: FocusSettings,
    next: usize,
    hwnd: usize,
) -> InputMode {
    if switches_on(m, settings, next) {
        InputMode::Hiragana
    } else if !settings.remember {
        start_mode(settings)
    } else if m.dm_modes.contains_key(next) {
        m.dm_modes[next]
    } else if m.hwnd_modes.contains_key(hwnd) {
        m.hwnd_modes[hwnd]
    } else {
        start_mode(settings)
    }
}

/// The store after the document `next` in the window `hwnd` has got the focus.
pub open spec fn after_arrival(
    m: ModeStoreModel,
    settings: FocusSettings,
    next: usize,
    hwnd: usize,
) -> ModeStoreModel {
    let mode = mode_on_arrival(m, settings, next, hwnd);
    ModeStoreModel {
        dm_modes: if settings.remember {
            m.dm_modes.insert(next, mode)
        } else {
            m.dm_modes
        },
        hwnd_modes: if settings.remember && !m.dm_modes.contains_key(next) && hwnd != 0 {
            m.hwnd_modes.insert(hwnd, mode)
        } else {
            m.hwnd_modes
        },
        dm_to_hwnd: if hwnd != 0 {
            m.dm_to_hwnd.insert(next, hwnd)
        } else {
            m.dm_to_hwnd
        },
        main: if m.main == 0 {
            next
        } else {
            m.main
        },
        armed: m.armed && !switches_on(m, settings, next),
    }
}

/// The store and the mode after a change of focus.
pub open spec fn focus_change(
    m: ModeStoreModel,
    settings: FocusSettings,
    prev: usize,
    next: usize,
    hwnd: usize,
) -> (ModeStoreModel, Option<InputMode>) {
    let left = after_leaving(m, settings, prev);
    if next == 0 {
        (left, None)
    } else {
        (
            after_arrival(left, settings, next, hwnd),
            Some(mode_on_arrival(left, settings, next, hwnd)),
        )
    }
}

/// The focus goes from the document `prev` to the document `next` in the window `hwnd`;
/// 0 stands for none. The result is the mode to switch to.
pub fn doc_mode_on_focus_change(
    store: &mut ModeStore,
    settings: FocusSettings,
    prev_dm_ptr: usize,
    next_dm_ptr: usize,
    next_hwnd: usize,
) -> (r: Option<InputMode>)
    ensures
        (final(store)@, r) == focus_change(
            old(store)@,
            settings,
            prev_dm_ptr,
            next_dm_ptr,
            next_hwnd,
        ),
{
    if prev_dm_ptr != 0 && settings.remember {
        let _ = store.dm_modes.insert(prev_dm_ptr, settings.current);
        let window: Option<usize> = match store.dm_to_hwnd.get(&prev_dm_ptr) {
            Some(hwnd) => Some(*hwnd),
            None => None,
        };
        if let Some(hwnd) = window {
            if hwnd != 0 {
                let _ = store.hwnd_modes.insert(hwnd, settings.current);
            }
        }
    }
    assert(store@ == after_leaving(old(store)@, settings, prev_dm_ptr));
    if next_dm_ptr == 0 {
        return None;
    }
    Some(arrive(store, settings, next_dm_ptr, next_hwnd))
}

/// The document `next` in the window `hwnd` gets the focus. The result is its mode.
fn arrive(store: &mut ModeStore, settings: FocusSettings, next: usize, hwnd: usize) -> (r:
    InputMode)
    ensures
        final(store)@ == after_arrival(old(store)@, settings, next, hwnd),
        r == mode_on_arrival(old(store)@, settings, next, hwnd),
{
    if hwnd != 0 {
        let _ = store.dm_to_hwnd.insert(next, hwnd);
    }
    let on = settings.app.on && store.armed && store.main != 0 && store.main != next;
    if store.main == 0 {
        store.main = next;
    }
    store.armed = store.armed && !on;
    let start = if on {
        InputMode::Hiragana
    } else if settings.app.off {
        InputMode::Alphanumeric
    } else {
        settings.default_mode
    };
    if !settings.remember {
        return start;
    }
    let known = store.dm_modes.contains_key(&next);
    let by_document: Option<InputMode> = match store.dm_modes.get(&next) {
        Some(mode) => Some(*mode),
        None => None,
    };
    let by_window: Option<InputMode> = match store.hwnd_modes.get(&hwnd) {
        Some(mode) => Some(*mode),
        None => None,
    };
    let mode = if on {
        start
    } else if let Some(mode) = by_document {
        mode
    } else if let Some(mode) = by_window {
        mode
    } else {
        start
    };
    let _ = store.dm_modes.insert(next, mode);
    if !known && hwnd != 0 {
        let _ = store.hwnd_modes.insert(hwnd, mode);
    }
    mode
}

/// The application becomes active, while the document `dm` in the window `hwnd` has the
/// focus; 0 stands for none. An application that starts with letters forgets the modes that
/// its documents were left in. The result is the mode to switch to.
pub open spec fn app_activated(
    m: ModeStoreModel,
    settings: FocusSettings,
    dm: usize,
    hwnd: usize,
) -> (ModeStoreModel, Option<InputMode>) {
    let fresh = ModeStoreModel {
        dm_modes: if settings.app.off {
            Map::empty()
        } else {
            m.dm_modes
        },
        hwnd_modes: if settings.app.off {
            Map::empty()
        } else {
            m.hwnd_modes
        },
        armed: true,
        ..m
    };
    if dm != 0 && (settings.app.off || switches_on(fresh, settings, dm)) {
        (
            after_arrival(fresh, settings, dm, hwnd),
            Some(mode_on_arrival(fresh, settings, dm, hwnd)),
        )
    } else {
        (fresh, None)
    }
}

/// The application becomes active. The result is the mode to switch to.
pub fn doc_mode_on_activation(
    store: &mut ModeStore,
    settings: FocusSettings,
    dm_ptr: usize,
    hwnd: usize,
) -> (r: Option<InputMode>)
    ensures
        (final(store)@, r) == app_activated(old(store)@, settings, dm_ptr, hwnd),
{
    if settings.app.off {
        store.dm_modes = HashMap::new();
        store.hwnd_modes = HashMap::new();
    }
    store.armed = true;
    let on = settings.app.on && store.main != 0 && store.main != dm_ptr;
    if dm_ptr != 0 && (settings.app.off || on) {
        Some(arrive(store, settings, dm_ptr, hwnd))
    } else {
        None
    }
}

/// The store after the document `dm` is gone.
pub open spec fn after_removal(m: ModeStoreModel, dm: usize) -> ModeStoreModel {
    ModeStoreModel {
        dm_modes: m.dm_modes.remove(dm),
        hwnd_modes: m.hwnd_modes,
        dm_to_hwnd: m.dm_to_hwnd.remove(dm),
        main: if m.main == dm {
            0
        } else {
            m.main
        },
        armed: m.armed,
    }
}

/// The document is gone. The mode of its window stays, for the next document there.
pub fn doc_mode_remove(store: &mut ModeStore, dm_ptr: usize)
    ensures
        final(store)@ == after_removal(old(store)@, dm_ptr),
{
    let _ = store.dm_modes.remove(&dm_ptr);
    let _ = store.dm_to_hwnd.remove(&dm_ptr);
    if store.main == dm_ptr {
        store.main = 0;
    }
}

/// A document that gets the focus back has the mode in which it was left, whatever was
/// done in the document between, unless it is the one in which kana is switched on.
pub proof fn mode_comes_back(
    m: ModeStoreModel,
    leaving: FocusSettings,
    returning: FocusSettings,
    a: usize,
    b: usize,
    window_a: usize,
    window_b: usize,
)
    requires
        a != 0,
        b != 0,
        a != b,
        leaving.remember,
        returning.remember,
        !switches_on(
            after_leaving(focus_change(m, leaving, a, b, window_b).0, returning, b),
            returning,
            a,
        ),
    ensures
        ({
            let there = focus_change(m, leaving, a, b, window_b).0;
            focus_change(there, returning, b, a, window_a).1 == Some(leaving.current)
        }),
{
}

/// A new document in a window takes over the mode in which the document before it was
/// left, also where that document is gone, unless it is the one in which kana is switched on.
pub proof fn window_keeps_mode(
    m: ModeStoreModel,
    leaving: FocusSettings,
    arriving: FocusSettings,
    gone: usize,
    fresh: usize,
    window: usize,
)
    requires
        gone != 0,
        fresh != 0,
        gone != fresh,
        window != 0,
        leaving.remember,
        arriving.remember,
        m.dm_to_hwnd.contains_key(gone),
        m.dm_to_hwnd[gone] == window,
        !m.dm_modes.contains_key(fresh),
        !switches_on(
            after_removal(focus_change(m, leaving, gone, 0, 0).0, gone),
            arriving,
            fresh,
        ),
    ensures
        ({
            let without = after_removal(focus_change(m, leaving, gone, 0, 0).0, gone);
            focus_change(without, arriving, 0, fresh, window).1 == Some(leaving.current)
        }),
{
}

/// Where modes are not remembered, every change of focus starts anew, unless kana is
/// switched on.
pub proof fn forgetful_start(
    m: ModeStoreModel,
    settings: FocusSettings,
    prev: usize,
    next: usize,
    hwnd: usize,
)
    requires
        !settings.remember,
        next != 0,
    ensures
        !switches_on(m, settings, next) ==> focus_change(m, settings, prev, next, hwnd).1 == Some(
            start_mode(settings),
        ),
        focus_change(m, settings, prev, next, hwnd).0.dm_modes == m.dm_modes,
        focus_change(m, settings, prev, next, hwnd).0.hwnd_modes == m.hwnd_modes,
{
}

/// An application that is to start with letters does so whenever it becomes active, in
/// whatever mode it was left: at once where a document has the focus, and else with the first
/// document that gets it. Only the switch to kana goes before this.
pub proof fn starts_with_letters(
    m: ModeStoreModel,
    settings: FocusSettings,
    later: FocusSettings,
    dm: usize,
    hwnd: usize,
)
    requires
        settings.app.off,
        later.app.off,
        dm != 0,
    ensures
        !(settings.app.on && m.main != 0 && m.main != dm) ==> app_activated(
            m,
            settings,
            dm,
            hwnd,
        ).1 == Some(InputMode::Alphanumeric),
        ({
            let active = app_activated(m, settings, 0, 0).0;
            !switches_on(active, later, dm) ==> focus_change(active, later, 0, dm, hwnd).1 == Some(
                InputMode::Alphanumeric,
            )
        }),
{
}

/// While such an application is active, a mode that the user has switched to stays: also a
/// document of the same window that is new to it takes it over.
pub proof fn switched_mode_stays(
    m: ModeStoreModel,
    settings: FocusSettings,
    later: FocusSettings,
    dm: usize,
    other: usize,
    hwnd: usize,
)
    requires
        settings.app.off,
        settings.remember,
        later.remember,
        dm != 0,
        other != 0,
        other != dm,
        hwnd != 0,
        !switches_on(
            after_leaving(app_activated(m, settings, dm, hwnd).0, later, dm),
            later,
            other,
        ),
    ensures
        focus_change(app_activated(m, settings, dm, hwnd).0, later, dm, other, hwnd).1 == Some(
            later.current,
        ),
{
}

/// Kana is switched on where a document other than the main one gets the focus for the first
/// time after the application has become active, and not again until it becomes active anew:
/// neither a change of focus nor the end of a document brings that about.
pub proof fn switched_on_once(
    m: ModeStoreModel,
    settings: FocusSettings,
    prev: usize,
    next: usize,
    hwnd: usize,
)
    ensures
        app_activated(m, settings, 0, hwnd).0.armed,
        settings.app.on && m.armed && m.main != 0 && m.main != next && next != 0
            ==> focus_change(m, settings, prev, next, hwnd).1 == Some(InputMode::Hiragana)
            && !focus_change(m, settings, prev, next, hwnd).0.armed,
        !m.armed ==> !switches_on(m, settings, next) && !focus_change(
            m,
            settings,
            prev,
            next,
            hwnd,
        ).0.armed && !after_removal(m, next).armed,
        m.main == next ==> !switches_on(m, settings, next),
{
}

/// In an application that is not singled out nothing happens when it becomes active.
pub proof fn other_apps_stay_as_they_are(
    m: ModeStoreModel,
    settings: FocusSettings,
    dm: usize,
    hwnd: usize,
)
    requires
        settings.app == (AppRules { off: false, on: false }),
    ensures
        app_activated(m, settings, dm, hwnd) == (
            ModeStoreModel { armed: true, ..m },
            None::<InputMode>,
        ),
{
}

/// A change of focus is noted and nothing else: the document that is left keeps its mode, so
/// does its window, the one that gets the focus has its mode and its window noted, and the first
/// document of an application is its main one. What is known of other documents stays.
pub proof fn focus_is_noted(
    m: ModeStoreModel,
    settings: FocusSettings,
    prev: usize,
    next: usize,
    hwnd: usize,
    other: usize,
)
    requires
        settings.remember,
        prev != 0,
        next != 0,
        prev != next,
        other != prev,
        other != next,
    ensures
        ({
            let (then, mode) = focus_change(m, settings, prev, next, hwnd);
            &&& then.dm_modes[prev] == settings.current && then.dm_modes.contains_key(prev)
            &&& mode is Some
            &&& then.dm_modes[next] == mode->0 && then.dm_modes.contains_key(next)
            &&& hwnd != 0 ==> then.dm_to_hwnd.contains_key(next) && then.dm_to_hwnd[next] == hwnd
            &&& hwnd == 0 ==> then.dm_to_hwnd == m.dm_to_hwnd
            &&& then.main == (if m.main == 0 {
                next
            } else {
                m.main
            })
            &&& then.dm_modes.contains_key(other) == m.dm_modes.contains_key(other)
            &&& m.dm_modes.contains_key(other) ==> then.dm_modes[other] == m.dm_modes[other]
            &&& then.dm_to_hwnd.contains_key(other) == m.dm_to_hwnd.contains_key(other)
            &&& m.dm_to_hwnd.contains_key(other) ==> then.dm_to_hwnd[other] == m.dm_to_hwnd[other]
            &&& m.dm_to_hwnd.contains_key(prev) && m.dm_to_hwnd[prev] != 0 && m.dm_to_hwnd[prev]
                != hwnd ==> then.hwnd_modes.contains_key(m.dm_to_hwnd[prev])
                && then.hwnd_modes[m.dm_to_hwnd[prev]] == settings.current
            &&& !m.dm_modes.contains_key(next) && hwnd != 0 ==> then.hwnd_modes.contains_key(hwnd)
                && then.hwnd_modes[hwnd] == mode->0
        }),
{
}

/// Where the focus goes to no document, only what was left is noted, and no mode is switched to.
pub proof fn lost_focus_is_noted(m: ModeStoreModel, settings: FocusSettings, prev: usize)
    ensures
        focus_change(m, settings, prev, 0, 0).1 is None,
        focus_change(m, settings, prev, 0, 0).0.main == m.main,
        focus_change(m, settings, prev, 0, 0).0.armed == m.armed,
        focus_change(m, settings, prev, 0, 0).0.dm_to_hwnd == m.dm_to_hwnd,
        settings.remember && prev != 0 ==> focus_change(m, settings, prev, 0, 0).0.dm_modes
            == m.dm_modes.insert(prev, settings.current),
        !settings.remember || prev == 0 ==> focus_change(m, settings, prev, 0, 0).0 == m,
{
}

/// A document that is gone is forgotten, and nothing else is. Without a main document the next
/// one becomes it.
pub proof fn gone_document_is_forgotten(m: ModeStoreModel, dm: usize, other: usize)
    requires
        other != dm,
    ensures
        ({
            let then = after_removal(m, dm);
            &&& !then.dm_modes.contains_key(dm)
            &&& !then.dm_to_hwnd.contains_key(dm)
            &&& then.hwnd_modes == m.hwnd_modes
            &&& then.armed == m.armed
            &&& then.dm_modes.contains_key(other) == m.dm_modes.contains_key(other)
            &&& m.dm_modes.contains_key(other) ==> then.dm_modes[other] == m.dm_modes[other]
            &&& then.dm_to_hwnd.contains_key(other) == m.dm_to_hwnd.contains_key(other)
            &&& m.dm_to_hwnd.contains_key(other) ==> then.dm_to_hwnd[other] == m.dm_to_hwnd[other]
            &&& m.main == dm ==> then.main == 0
            &&& m.main != dm ==> then.main == m.main
        }),
{
}

/// A document of which nothing is known starts in the mode that the user has set, or with
/// letters where its application does.
pub proof fn unknown_document_starts_as_set(
    m: ModeStoreModel,
    settings: FocusSettings,
    next: usize,
    hwnd: usize,
)
    requires
        next != 0,
        !settings.app.on,
        !m.dm_modes.contains_key(next),
        !m.hwnd_modes.contains_key(hwnd),
    ensures
        focus_change(m, settings, 0, next, hwnd).1 == Some(
            if settings.app.off {
                InputMode::Alphanumeric
            } else {
                settings.default_mode
            },
        ),
{
}

/// A change of focus touches the modes of the two windows alone, and no mode is kept for a window
/// that is not known.
pub proof fn other_windows_stay(
    m: ModeStoreModel,
    settings: FocusSettings,
    prev: usize,
    next: usize,
    hwnd: usize,
    window: usize,
)
    requires
        window != hwnd || hwnd == 0,
        m.dm_to_hwnd.contains_key(prev) ==> window != m.dm_to_hwnd[prev] || window == 0,
    ensures
        ({
            let then = focus_change(m, settings, prev, next, hwnd).0;
            &&& then.hwnd_modes.contains_key(window) == m.hwnd_modes.contains_key(window)
            &&& m.hwnd_modes.contains_key(window) ==> then.hwnd_modes[window]
                == m.hwnd_modes[window]
        }),
{
}

} // verus!
