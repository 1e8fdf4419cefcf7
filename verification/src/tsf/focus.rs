//! Changes of focus.
//!
//! The system reports them at moments at which it must not be called back. They are
//! queued and worked off later, in the order in which they came.

use crate::engine::conversion::views;
use crate::engine::doc_mode::{
    app_activated, doc_mode_on_activation, doc_mode_on_focus_change, focus_change, FocusSettings,
    ModeStore,
};
use crate::engine::input_mode::InputMode;
use crate::tsf::effects::{emit, no_effects, Effect, EffectModel, EffectOf};
use crate::tsf::world::{played, played_to, World};
use std::collections::VecDeque;
use vstd::prelude::*;

verus! {

/// The focus went from one document to another, in a window; 0 stands for none.
#[derive(Clone, Copy, Debug, PartialEq, Eq, Structural)]
pub struct FocusChange {
    pub prev_ptr: usize,
    pub next_ptr: usize,
    pub hwnd_val: usize,
}

/// The document and the window that have the focus, and the changes not worked off yet.
pub struct FocusTracker {
    current_dm: usize,
    current_hwnd: usize,
    pending: VecDeque<FocusChange>,
}

#[verifier::ext_equal]
pub struct FocusModel {
    pub dm: usize,
    pub hwnd: usize,
    pub pending: Seq<FocusChange>,
}

impl View for FocusTracker {
    type V = FocusModel;

    closed spec fn view(&self) -> FocusModel {
        FocusModel { dm: self.current_dm, hwnd: self.current_hwnd, pending: self.pending@ }
    }
}

impl Default for FocusTracker {
    fn default() -> (r: Self)
        ensures
            r@ == (FocusModel { dm: 0, hwnd: 0, pending: Seq::empty() }),
    {
        FocusTracker { current_dm: 0, current_hwnd: 0, pending: VecDeque::new() }
    }
}

/// The document and the window that have the focus.
pub fn current_dm_hwnd(tracker: &FocusTracker) -> (r: (usize, usize))
    ensures
        r == (tracker@.dm, tracker@.hwnd),
{
    (tracker.current_dm, tracker.current_hwnd)
}

/// The window under which modes are kept: the outermost one that the window in front belongs
/// to, as applications give the focus to changing windows within it; 0 where there is none.
pub fn foreground_root_hwnd(front: usize, root: usize) -> (r: usize)
    ensures
        r == (if front == 0 || root == 0 {
            front
        } else {
            root
        }),
{
    if front == 0 || root == 0 {
        front
    } else {
        root
    }
}

/// What the system's report comes to: nothing where the document stays the same.
pub fn on_set_focus(prev_ptr: usize, next_ptr: usize, hwnd_val: usize) -> (r: Option<FocusChange>)
    ensures
        r == (if prev_ptr == next_ptr {
            None
        } else {
            Some(FocusChange { prev_ptr, next_ptr, hwnd_val })
        }),
{
    if prev_ptr == next_ptr {
        None
    } else {
        Some(FocusChange { prev_ptr, next_ptr, hwnd_val })
    }
}

/// Queues a change. Without a window to be woken by, the change is dropped. Says whether
/// the window is to be woken.
pub fn post_focus_changed(
    tracker: &mut FocusTracker,
    change: FocusChange,
    has_window: bool,
) -> (r: bool)
    ensures
        r == has_window,
        final(tracker)@ == (FocusModel {
            pending: if has_window {
                old(tracker)@.pending.push(change)
            } else {
                old(tracker)@.pending
            },
            ..old(tracker)@
        }),
{
    if has_window {
        tracker.pending.push_back(change);
    }
    has_window
}

/// Takes the change that has waited longest.
pub fn next_focus_change(tracker: &mut FocusTracker) -> (r: Option<FocusChange>)
    ensures
        old(tracker)@.pending.len() == 0 ==> r is None && final(tracker)@ == old(tracker)@,
        old(tracker)@.pending.len() > 0 ==> r == Some(old(tracker)@.pending[0])
            && final(tracker)@ == (FocusModel {
            pending: old(tracker)@.pending.skip(1),
            ..old(tracker)@
        }),
{
    let r = tracker.pending.pop_front();
    proof {
        if old(tracker)@.pending.len() > 0 {
            assert(tracker@.pending =~= old(tracker)@.pending.skip(1));
        }
    }
    r
}

/// Forgets the changes that have not been worked off.
pub fn clear_thread_mgr(tracker: &mut FocusTracker)
    ensures
        final(tracker)@ == (FocusModel { pending: Seq::empty(), ..old(tracker)@ }),
{
    tracker.pending = VecDeque::new();
}

/// What is done to get from the mode `current` to `mode`, where there is one to go to.
pub open spec fn mode_effects(mode: Option<InputMode>, current: InputMode) -> Seq<EffectModel> {
    match mode {
        None => seq![],
        Some(mode) => (if mode != current {
            seq![EffectModel::SetMode { mode }]
        } else {
            seq![]
        }) + seq![
            EffectModel::SetOpen { open: !(mode is Alphanumeric) },
            EffectModel::PublishTray { open: !(mode is Alphanumeric), mode },
        ],
    }
}

/// What is done for a change of focus that leads to `mode`.
pub open spec fn focus_effects(mode: Option<InputMode>, current: InputMode) -> Seq<EffectModel> {
    seq![EffectModel::HideWindow, EffectModel::StopLiveTimer] + mode_effects(mode, current)
}

fn emit_mode(fx: &mut Vec<Effect>, mode: Option<InputMode>, current: InputMode)
    ensures
        views(final(fx)@) == views(old(fx)@) + mode_effects(mode, current),
{
    if let Some(mode) = mode {
        if mode != current {
            emit(fx, EffectOf::SetMode { mode });
        }
        let open = mode != InputMode::Alphanumeric;
        emit(fx, EffectOf::SetOpen { open });
        emit(fx, EffectOf::PublishTray { open, mode });
    }
    assert(views(fx@) =~= views(old(fx)@) + mode_effects(mode, current));
}

/// Works off a change: the candidate window closes and live conversion stops, the mode of
/// the document that lost the focus is kept, and the one that got it gets its own back.
pub fn process_focus_change(
    tracker: &mut FocusTracker,
    store: &mut ModeStore,
    settings: FocusSettings,
    change: FocusChange,
) -> (r: Vec<Effect>)
    ensures
        final(tracker)@ == (FocusModel {
            dm: change.next_ptr,
            hwnd: change.hwnd_val,
            ..old(tracker)@
        }),
        final(store)@ == focus_change(
            old(store)@,
            settings,
            change.prev_ptr,
            change.next_ptr,
            change.hwnd_val,
        ).0,
        views(r@) == focus_effects(
            focus_change(
                old(store)@,
                settings,
                change.prev_ptr,
                change.next_ptr,
                change.hwnd_val,
            ).1,
            settings.current,
        ),
{
    tracker.current_dm = change.next_ptr;
    tracker.current_hwnd = change.hwnd_val;
    let mut fx = no_effects();
    emit(&mut fx, EffectOf::HideWindow);
    emit(&mut fx, EffectOf::StopLiveTimer);
    let arrived = doc_mode_on_focus_change(
        store,
        settings,
        change.prev_ptr,
        change.next_ptr,
        change.hwnd_val,
    );
    emit_mode(&mut fx, arrived, settings.current);
    assert(views(fx@) =~= focus_effects(arrived, settings.current));
    fx
}

/// The application becomes active: it gets the mode that its rules give it.
pub fn on_set_thread_focus(
    tracker: &FocusTracker,
    store: &mut ModeStore,
    settings: FocusSettings,
) -> (r: Vec<Effect>)
    ensures
        final(store)@ == app_activated(old(store)@, settings, tracker@.dm, tracker@.hwnd).0,
        views(r@) == mode_effects(
            app_activated(old(store)@, settings, tracker@.dm, tracker@.hwnd).1,
            settings.current,
        ),
{
    let mut fx = no_effects();
    let mode = doc_mode_on_activation(
        store,
        settings,
        tracker.current_dm,
        tracker.current_hwnd,
    );
    emit_mode(&mut fx, mode, settings.current);
    assert(views(fx@) =~= mode_effects(mode, settings.current));
    fx
}

/// Another application has the focus: nothing of a conversion stays on screen or goes on.
pub fn on_kill_thread_focus() -> (r: Vec<Effect>)
    ensures
        views(r@) == seq![
            EffectModel::HideWindow,
            EffectModel::StopLiveTimer,
            EffectModel::StopWaitingTimer,
        ],
{
    let mut fx = no_effects();
    emit(&mut fx, EffectOf::HideWindow);
    emit(&mut fx, EffectOf::StopLiveTimer);
    emit(&mut fx, EffectOf::StopWaitingTimer);
    fx
}

/// No change of focus turns kana on in a mode of letters, nor off in a mode of kana: the
/// system is told what the mode says.
pub proof fn open_follows_mode(mode: InputMode, current: InputMode)
    ensures
        mode_effects(Some(mode), current).contains(
            EffectModel::SetOpen { open: mode != InputMode::Alphanumeric },
        ),
        focus_effects(Some(mode), current).contains(
            EffectModel::SetOpen { open: mode != InputMode::Alphanumeric },
        ),
        mode != current <==> focus_effects(Some(mode), current).contains(
            EffectModel::SetMode { mode },
        ),
{
    let fx = focus_effects(Some(mode), current);
    let own = mode_effects(Some(mode), current);
    assert(own[own.len() - 2] == EffectModel::SetOpen { open: mode != InputMode::Alphanumeric });
    assert(fx[fx.len() - 2] == EffectModel::SetOpen { open: mode != InputMode::Alphanumeric });
    if mode != current {
        assert(fx[2] == EffectModel::SetMode { mode });
    }
}

/// A change of focus closes the window and stops live conversion, and leaves what is written
/// and composed alone. Where there is a mode to go to, that mode is in use afterwards, the
/// system knows whether kana are on, and the tray icon shows both.
pub proof fn focus_change_leads_to_mode(w: World, mode: Option<InputMode>)
    ensures
        ({
            let fx = focus_effects(mode, w.mode);
            let then = played(w, fx);
            &&& then == (World {
                window: None,
                live: false,
                mode: match mode {
                    Some(m) => m,
                    None => w.mode,
                },
                open: match mode {
                    Some(m) => m != InputMode::Alphanumeric,
                    None => w.open,
                },
                ..w
            })
            &&& mode is Some ==> fx.last() == (EffectModel::PublishTray {
                open: mode->0 != InputMode::Alphanumeric,
                mode: mode->0,
            })
        }),
        ({
            let then = played(w, mode_effects(mode, w.mode));
            then == (World {
                mode: match mode {
                    Some(m) => m,
                    None => w.mode,
                },
                open: match mode {
                    Some(m) => m != InputMode::Alphanumeric,
                    None => w.open,
                },
                ..w
            })
        }),
        mode is None ==> mode_effects(mode, w.mode).len() == 0,
{
    reveal_with_fuel(played_to, 6);
}

} // verus!
