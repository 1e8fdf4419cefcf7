//! Switching the text service on and off in an application.
//!
//! Activation registers with the system step by step. Some registrations are needed, and
//! activation fails without them; others are done without where they fail. At its end the
//! document that has the focus gets its mode, as the system does not report that focus.

use crate::engine::conversion::views;
use crate::engine::doc_mode::{
    doc_mode_on_focus_change, focus_change, FocusSettings, ModeStore, ModeStoreModel,
};
use crate::engine::input_mode::InputMode;
use crate::engine::state::{SessionModel, SessionState};
use crate::tsf::effects::{emit, no_effects, Effect, EffectModel, EffectOf};
use crate::tsf::mode::{is_open_mode, open_for_mode};
use vstd::prelude::*;

verus! {

/// What the service keeps between activation and deactivation.
#[derive(Clone, Copy, Debug, PartialEq, Eq, Structural)]
pub struct ServiceState {
    pub client_id: u32,
    /// Whether the thread manager is kept.
    pub attached: bool,
    /// Under which number changes of focus between documents are reported, 0 for none.
    pub threadmgr_cookie: u32,
    /// Under which number changes of focus between applications are reported, 0 for none.
    pub threadfocus_cookie: u32,
}

impl Default for ServiceState {
    fn default() -> (r: Self)
        ensures
            r == (ServiceState {
                client_id: 0,
                attached: false,
                threadmgr_cookie: 0,
                threadfocus_cookie: 0,
            }),
    {
        ServiceState { client_id: 0, attached: false, threadmgr_cookie: 0, threadfocus_cookie: 0 }
    }
}

/// A step of activation.
#[derive(Clone, Copy, Debug, PartialEq, Eq, Structural)]
pub enum ActivateStep {
    /// Keep the thread manager and read the key assignments.
    Attach,
    /// Have keys reported.
    AdviseKeys,
    AddLangbar,
    /// Tell the system whether the input method is on.
    SetOpen { open: bool },
    /// Tell the tray icon.
    PublishTray { open: bool, mode: InputMode },
    /// Have changes of focus between documents reported.
    AdviseEvents,
    /// Have changes of focus between applications reported.
    AdviseFocus,
    /// Register how marked text looks.
    RegisterAttributes,
    /// Look which document has the focus.
    FindFocus,
    /// Switch the mode.
    SetMode { mode: InputMode },
    /// Tell the system again whether the input method is on.
    Reopen { open: bool },
    NotifyLangbar,
    NotifyTray,
}

/// How a step came out.
#[derive(Clone, Copy, Debug, PartialEq, Eq, Structural)]
pub enum StepResult {
    Succeeded,
    /// The registration has that number.
    Cookie { cookie: u32 },
    /// The document and the window that have the focus, 0 for none.
    Focus { dm: usize, hwnd: usize },
    /// The step failed, which can be done without.
    Failed,
    /// The step failed, and activation with it.
    Fatal,
}

/// How activation goes on.
#[derive(Clone, Copy, Debug, PartialEq, Eq, Structural)]
pub enum ActivateNext {
    Do { step: ActivateStep },
    Done,
    Failed,
}

/// What activation needs to know.
#[derive(Clone, Copy, Debug, PartialEq, Eq, Structural)]
pub struct ActivateEnv {
    pub tid: u32,
    /// The mode in use.
    pub mode: InputMode,
    /// What the mode of the document with the focus depends on.
    pub settings: FocusSettings,
}

/// Activation goes on with `step`.
pub open spec fn go_on(step: ActivateStep) -> ActivateNext {
    ActivateNext::Do { step }
}

/// Whether activation cannot do without `step`.
pub open spec fn is_needed(step: ActivateStep) -> bool {
    step is Attach || step is AdviseKeys || step is AdviseEvents
}

/// What follows a step that did not end activation.
pub open spec fn step_after(
    step: ActivateStep,
    result: StepResult,
    store: ModeStoreModel,
    env: ActivateEnv,
) -> ActivateNext {
    let open = is_open_mode(env.mode);
    match step {
        ActivateStep::Attach => go_on(ActivateStep::AdviseKeys),
        ActivateStep::AdviseKeys => go_on(ActivateStep::AddLangbar),
        ActivateStep::AddLangbar => go_on(ActivateStep::SetOpen { open }),
        ActivateStep::SetOpen { .. } => go_on(ActivateStep::PublishTray { open, mode: env.mode }),
        ActivateStep::PublishTray { .. } => go_on(ActivateStep::AdviseEvents),
        ActivateStep::AdviseEvents => go_on(ActivateStep::AdviseFocus),
        ActivateStep::AdviseFocus => go_on(ActivateStep::RegisterAttributes),
        ActivateStep::RegisterAttributes => go_on(ActivateStep::FindFocus),
        ActivateStep::FindFocus => match result {
            StepResult::Focus { dm, hwnd } => match focus_change(
                store,
                env.settings,
                0,
                dm,
                hwnd,
            ).1 {
                Some(mode) => go_on(ActivateStep::SetMode { mode }),
                None => go_on(ActivateStep::NotifyLangbar),
            },
            _ => go_on(ActivateStep::NotifyLangbar),
        },
        ActivateStep::SetMode { mode } => go_on(ActivateStep::Reopen { open: is_open_mode(mode) }),
        ActivateStep::Reopen { .. } => go_on(ActivateStep::NotifyLangbar),
        ActivateStep::NotifyLangbar => go_on(ActivateStep::NotifyTray),
        ActivateStep::NotifyTray => ActivateNext::Done,
    }
}

/// What the service keeps after a step.
pub open spec fn kept_after(
    state: ServiceState,
    step: ActivateStep,
    result: StepResult,
    tid: u32,
) -> ServiceState {
    match (step, result) {
        (ActivateStep::Attach, _) => ServiceState { client_id: tid, attached: true, ..state },
        (ActivateStep::AdviseEvents, StepResult::Cookie { cookie }) => ServiceState {
            threadmgr_cookie: cookie,
            ..state
        },
        (ActivateStep::AdviseFocus, StepResult::Cookie { cookie }) => ServiceState {
            threadfocus_cookie: cookie,
            ..state
        },
        _ => state,
    }
}

/// One step of activation: how the last one came out, what is kept, and what follows.
pub open spec fn activation_turn(
    state: ServiceState,
    store: ModeStoreModel,
    env: ActivateEnv,
    step: ActivateStep,
    result: StepResult,
) -> (ServiceState, ModeStoreModel, ActivateNext) {
    if result is Fatal && is_needed(step) {
        (state, store, ActivateNext::Failed)
    } else {
        (
            kept_after(state, step, result, env.tid),
            match (step, result) {
                (ActivateStep::FindFocus, StepResult::Focus { dm, hwnd }) => focus_change(
                    store,
                    env.settings,
                    0,
                    dm,
                    hwnd,
                ).0,
                _ => store,
            },
            step_after(step, result, store, env),
        )
    }
}

/// Activation begins; it cannot without a thread manager.
pub fn activate_begin(has_thread_mgr: bool) -> (r: ActivateNext)
    ensures
        r == (if has_thread_mgr {
            go_on(ActivateStep::Attach)
        } else {
            ActivateNext::Failed
        }),
{
    if has_thread_mgr {
        ActivateNext::Do { step: ActivateStep::Attach }
    } else {
        ActivateNext::Failed
    }
}

/// One step of activation.
pub fn activate(
    state: &mut ServiceState,
    store: &mut ModeStore,
    env: ActivateEnv,
    step: ActivateStep,
    result: StepResult,
) -> (r: ActivateNext)
    ensures
        (*final(state), final(store)@, r) == activation_turn(
            *old(state),
            old(store)@,
            env,
            step,
            result,
        ),
{
    let fatal = match result {
        StepResult::Fatal => true,
        _ => false,
    };
    let open = open_for_mode(env.mode);
    let next = match step {
        ActivateStep::Attach => {
            if fatal {
                return ActivateNext::Failed;
            }
            state.client_id = env.tid;
            state.attached = true;
            ActivateStep::AdviseKeys
        },
        ActivateStep::AdviseKeys => {
            if fatal {
                return ActivateNext::Failed;
            }
            ActivateStep::AddLangbar
        },
        ActivateStep::AddLangbar => ActivateStep::SetOpen { open },
        ActivateStep::SetOpen { .. } => ActivateStep::PublishTray { open, mode: env.mode },
        ActivateStep::PublishTray { .. } => ActivateStep::AdviseEvents,
        ActivateStep::AdviseEvents => {
            if fatal {
                return ActivateNext::Failed;
            }
            if let StepResult::Cookie { cookie } = result {
                state.threadmgr_cookie = cookie;
            }
            ActivateStep::AdviseFocus
        },
        ActivateStep::AdviseFocus => {
            if let StepResult::Cookie { cookie } = result {
                state.threadfocus_cookie = cookie;
            }
            ActivateStep::RegisterAttributes
        },
        ActivateStep::RegisterAttributes => ActivateStep::FindFocus,
        ActivateStep::FindFocus => {
            let mut found: Option<InputMode> = None;
            if let StepResult::Focus { dm, hwnd } = result {
                found = doc_mode_on_focus_change(store, env.settings, 0, dm, hwnd);
            }
            match found {
                Some(mode) => ActivateStep::SetMode { mode },
                None => ActivateStep::NotifyLangbar,
            }
        },
        ActivateStep::SetMode { mode } => ActivateStep::Reopen { open: open_for_mode(mode) },
        ActivateStep::Reopen { .. } => ActivateStep::NotifyLangbar,
        ActivateStep::NotifyLangbar => ActivateStep::NotifyTray,
        ActivateStep::NotifyTray => {
            return ActivateNext::Done;
        },
    };
    ActivateNext::Do { step: next }
}

/// A step of deactivation. None of them stops the others.
#[derive(Clone, Copy, Debug, PartialEq, Eq, Structural)]
pub enum DeactivateStep {
    UnadviseKeys { client_id: u32 },
    RemoveLangbar,
    UnadviseEvents { cookie: u32 },
    UnadviseFocus { cookie: u32 },
    ForgetComposition,
    /// Take the converter back from a background conversion.
    Reclaim,
    DestroyWindow,
    StopLiveTimer,
    /// Let go of the thread manager, and of changes of focus not worked off.
    ClearThreadMgr,
    DestroyIndicator,
}

/// What deactivation does.
pub open spec fn deactivation(state: ServiceState) -> Seq<DeactivateStep> {
    (if state.attached {
        seq![
            DeactivateStep::UnadviseKeys { client_id: state.client_id },
            DeactivateStep::RemoveLangbar,
        ] + (if state.threadmgr_cookie != 0 {
            seq![DeactivateStep::UnadviseEvents { cookie: state.threadmgr_cookie }]
        } else {
            seq![]
        }) + (if state.threadfocus_cookie != 0 {
            seq![DeactivateStep::UnadviseFocus { cookie: state.threadfocus_cookie }]
        } else {
            seq![]
        })
    } else {
        seq![]
    }) + seq![
        DeactivateStep::ForgetComposition,
        DeactivateStep::Reclaim,
        DeactivateStep::DestroyWindow,
        DeactivateStep::StopLiveTimer,
        DeactivateStep::ClearThreadMgr,
        DeactivateStep::DestroyIndicator,
    ]
}

/// Deactivation: what was registered is taken back, and nothing of a conversion is left.
pub fn deactivate(state: &ServiceState, sess: &mut SessionState) -> (r: Vec<DeactivateStep>)
    ensures
        r@ == deactivation(*state),
        final(sess)@ == SessionModel::Idle,
{
    let mut steps: Vec<DeactivateStep> = Vec::new();
    if state.attached {
        steps.push(DeactivateStep::UnadviseKeys { client_id: state.client_id });
        steps.push(DeactivateStep::RemoveLangbar);
        if state.threadmgr_cookie != 0 {
            steps.push(DeactivateStep::UnadviseEvents { cookie: state.threadmgr_cookie });
        }
        if state.threadfocus_cookie != 0 {
            steps.push(DeactivateStep::UnadviseFocus { cookie: state.threadfocus_cookie });
        }
    }
    steps.push(DeactivateStep::ForgetComposition);
    steps.push(DeactivateStep::Reclaim);
    steps.push(DeactivateStep::DestroyWindow);
    steps.push(DeactivateStep::StopLiveTimer);
    steps.push(DeactivateStep::ClearThreadMgr);
    steps.push(DeactivateStep::DestroyIndicator);
    sess.set_idle();
    assert(steps@ =~= deactivation(*state));
    steps
}

/// The application has ended the composition, and what it showed is in the document:
/// whatever was composed or converted is given up, or it would appear a second time.
pub fn on_composition_terminated(sess: &mut SessionState) -> (r: Vec<Effect>)
    ensures
        views(r@) == seq![
            EffectModel::ForgetComposition,
            EffectModel::HideWindow,
            EffectModel::StopLiveTimer,
            EffectModel::Reclaim,
            EffectModel::ResetAll,
        ],
        final(sess)@ == SessionModel::Idle,
{
    let mut fx = no_effects();
    emit(&mut fx, EffectOf::ForgetComposition);
    emit(&mut fx, EffectOf::HideWindow);
    emit(&mut fx, EffectOf::StopLiveTimer);
    emit(&mut fx, EffectOf::Reclaim);
    emit(&mut fx, EffectOf::ResetAll);
    sess.set_idle();
    fx
}

/// How far activation is from its end.
pub open spec fn steps_left(step: ActivateStep) -> nat {
    match step {
        ActivateStep::Attach => 13,
        ActivateStep::AdviseKeys => 12,
        ActivateStep::AddLangbar => 11,
        ActivateStep::SetOpen { .. } => 10,
        ActivateStep::PublishTray { .. } => 9,
        ActivateStep::AdviseEvents => 8,
        ActivateStep::AdviseFocus => 7,
        ActivateStep::RegisterAttributes => 6,
        ActivateStep::FindFocus => 5,
        ActivateStep::SetMode { .. } => 4,
        ActivateStep::Reopen { .. } => 3,
        ActivateStep::NotifyLangbar => 2,
        ActivateStep::NotifyTray => 1,
    }
}

/// Activation comes to its end, whatever fails on the way, and it fails only where one of
/// the steps it needs does.
pub proof fn activation_comes_to_its_end(
    state: ServiceState,
    store: ModeStoreModel,
    env: ActivateEnv,
    step: ActivateStep,
    result: StepResult,
)
    ensures
        match activation_turn(state, store, env, step, result).2 {
            ActivateNext::Do { step: next } => steps_left(next) < steps_left(step),
            ActivateNext::Done => step is NotifyTray,
            ActivateNext::Failed => result is Fatal && is_needed(step),
        },
{
}

/// The system is told the mode of the document that has the focus, whatever it was told
/// before.
pub proof fn focused_document_has_the_last_word(
    state: ServiceState,
    store: ModeStoreModel,
    env: ActivateEnv,
    dm: usize,
    hwnd: usize,
    done: StepResult,
)
    requires
        dm != 0,
    ensures
        ({
            let found = activation_turn(
                state,
                store,
                env,
                ActivateStep::FindFocus,
                StepResult::Focus { dm, hwnd },
            );
            let mode = focus_change(store, env.settings, 0, dm, hwnd).1->0;
            &&& found.2 == go_on(ActivateStep::SetMode { mode })
            &&& activation_turn(found.0, found.1, env, ActivateStep::SetMode { mode }, done).2
                == go_on(ActivateStep::Reopen { open: mode != InputMode::Alphanumeric })
        }),
{
}

/// What was registered is taken back: every number that activation has got, deactivation
/// gives back.
pub proof fn registrations_are_taken_back(
    state: ServiceState,
    store: ModeStoreModel,
    env: ActivateEnv,
    cookie: u32,
)
    requires
        state.attached,
        cookie != 0,
    ensures
        deactivation(
            activation_turn(
                state,
                store,
                env,
                ActivateStep::AdviseEvents,
                StepResult::Cookie { cookie },
            ).0,
        ).contains(DeactivateStep::UnadviseEvents { cookie }),
        deactivation(
            activation_turn(
                state,
                store,
                env,
                ActivateStep::AdviseFocus,
                StepResult::Cookie { cookie },
            ).0,
        ).contains(DeactivateStep::UnadviseFocus { cookie }),
{
    let events = activation_turn(
        state,
        store,
        env,
        ActivateStep::AdviseEvents,
        StepResult::Cookie { cookie },
    ).0;
    assert(deactivation(events)[2] == DeactivateStep::UnadviseEvents { cookie });
    let focus = activation_turn(
        state,
        store,
        env,
        ActivateStep::AdviseFocus,
        StepResult::Cookie { cookie },
    ).0;
    let at: int = if focus.threadmgr_cookie != 0 {
        3
    } else {
        2
    };
    assert(deactivation(focus)[at] == DeactivateStep::UnadviseFocus { cookie });
}

/// Activation leaves out no step. Only the mode of the document with the focus is set and told
/// only where there is one. The system and the tray icon are told the mode in use, and whether
/// kana are on in it.
pub proof fn activation_leaves_out_no_step(
    state: ServiceState,
    store: ModeStoreModel,
    env: ActivateEnv,
    step: ActivateStep,
    result: StepResult,
)
    requires
        !(result is Fatal),
    ensures
        ({
            let next = activation_turn(state, store, env, step, result).2;
            let open = env.mode != InputMode::Alphanumeric;
            &&& next == (ActivateNext::Do { step: ActivateStep::AdviseKeys }) <==> step is Attach
            &&& next == (ActivateNext::Do { step: ActivateStep::AddLangbar }) <==> step
                is AdviseKeys
            &&& step is AddLangbar ==> next == (ActivateNext::Do {
                step: ActivateStep::SetOpen { open },
            })
            &&& step is SetOpen ==> next == (ActivateNext::Do {
                step: ActivateStep::PublishTray { open, mode: env.mode },
            })
            &&& next == (ActivateNext::Do { step: ActivateStep::AdviseEvents }) <==> step
                is PublishTray
            &&& next == (ActivateNext::Do { step: ActivateStep::AdviseFocus }) <==> step
                is AdviseEvents
            &&& next == (ActivateNext::Do { step: ActivateStep::RegisterAttributes }) <==> step
                is AdviseFocus
            &&& next == (ActivateNext::Do { step: ActivateStep::FindFocus }) <==> step
                is RegisterAttributes
            &&& next == (ActivateNext::Do { step: ActivateStep::NotifyTray }) <==> step
                is NotifyLangbar
            &&& next is Done <==> step is NotifyTray
            &&& step is SetMode ==> next == (ActivateNext::Do {
                step: ActivateStep::Reopen { open: step->SetMode_mode != InputMode::Alphanumeric },
            })
            &&& step is Reopen || (step is FindFocus && !(result is Focus)) ==> next == (
            ActivateNext::Do { step: ActivateStep::NotifyLangbar })
        }),
{
}

/// A step that activation needs ends it where it fails, and changes nothing then; every other
/// step may fail.
pub proof fn needed_steps_end_activation(
    state: ServiceState,
    store: ModeStoreModel,
    env: ActivateEnv,
    step: ActivateStep,
)
    ensures
        ({
            let (kept, modes, next) = activation_turn(state, store, env, step, StepResult::Fatal);
            &&& next is Failed <==> step is Attach || step is AdviseKeys || step is AdviseEvents
            &&& next is Failed ==> kept == state
            &&& modes == store
        }),
{
}

/// The service keeps its client number and the numbers of its registrations, and nothing else
/// changes what is kept.
pub proof fn numbers_are_kept(
    state: ServiceState,
    store: ModeStoreModel,
    env: ActivateEnv,
    step: ActivateStep,
    result: StepResult,
)
    requires
        !(result is Fatal),
    ensures
        ({
            let (kept, modes, _) = activation_turn(state, store, env, step, result);
            &&& kept.client_id == (if step is Attach {
                env.tid
            } else {
                state.client_id
            })
            &&& kept.attached == (state.attached || step is Attach)
            &&& kept.threadmgr_cookie == (if step is AdviseEvents && result is Cookie {
                result->cookie
            } else {
                state.threadmgr_cookie
            })
            &&& kept.threadfocus_cookie == (if step is AdviseFocus && result is Cookie {
                result->cookie
            } else {
                state.threadfocus_cookie
            })
            &&& !(step is FindFocus) || !(result is Focus) ==> modes == store
        }),
{
}

/// Deactivation takes back exactly what is registered, each registration once, under the
/// numbers that are kept, and in any case gives up what is composed, converted or shown.
pub proof fn deactivation_leaves_nothing(state: ServiceState, i: int)
    requires
        0 <= i < deactivation(state).len(),
    ensures
        ({
            let steps = deactivation(state);
            let n = steps.len() as int;
            let registered: int = if !state.attached {
                0
            } else {
                2 + (if state.threadmgr_cookie != 0 {
                    1int
                } else {
                    0
                }) + (if state.threadfocus_cookie != 0 {
                    1int
                } else {
                    0
                })
            };
            &&& n == registered + 6
            &&& state.attached ==> steps[0] == (DeactivateStep::UnadviseKeys {
                client_id: state.client_id,
            }) && steps[1] is RemoveLangbar
            &&& steps[i] is UnadviseEvents ==> steps[i] == (DeactivateStep::UnadviseEvents {
                cookie: state.threadmgr_cookie,
            }) && state.threadmgr_cookie != 0
            &&& steps[i] is UnadviseFocus ==> steps[i] == (DeactivateStep::UnadviseFocus {
                cookie: state.threadfocus_cookie,
            }) && state.threadfocus_cookie != 0
            &&& i < registered <==> steps[i] is UnadviseKeys || steps[i] is RemoveLangbar
                || steps[i] is UnadviseEvents || steps[i] is UnadviseFocus
            &&& state.attached && state.threadmgr_cookie != 0 ==> steps[2] is UnadviseEvents
            &&& state.attached && state.threadfocus_cookie != 0 ==> steps[registered
                - 1] is UnadviseFocus
            &&& steps[n - 6] is ForgetComposition
            &&& steps[n - 5] is Reclaim
            &&& steps[n - 4] is DestroyWindow
            &&& steps[n - 3] is StopLiveTimer
            &&& steps[n - 2] is ClearThreadMgr
            &&& steps[n - 1] is DestroyIndicator
        }),
{
}

} // verus!
