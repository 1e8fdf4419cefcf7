//! What the effects of a key come to: the document, the composition and the window as they
//! are once everything that a handler lists has been done in order.

use crate::engine::input_mode::InputMode;
use crate::tsf::effects::{EffectModel, EffectOf};
use vstd::prelude::*;

verus! {

/// The candidate window.
#[verifier::ext_equal]
pub struct WindowModel {
    pub items: Seq<Seq<char>>,
    pub selected: int,
    pub info: Seq<char>,
    pub x: i32,
    pub y: i32,
    pub status: Option<Seq<char>>,
}

/// What the user sees, and what the engine knows.
#[verifier::ext_equal]
pub struct World {
    /// What has been put into the document, one text behind the other.
    pub document: Seq<char>,
    /// What the composition shows; nothing where there is none.
    pub composition: Seq<char>,
    /// What the engine composes.
    pub engine: Seq<char>,
    /// The texts that the engine was told to be committed.
    pub told: Seq<Seq<char>>,
    /// Readings and what was chosen for them.
    pub learnt: Seq<(Seq<char>, Seq<char>)>,
    pub window: Option<WindowModel>,
    /// How many candidates a conversion was started for that has not been taken back.
    pub background: Option<usize>,
    /// Whether the timer runs that waits for a conversion.
    pub waiting: bool,
    /// Whether the timer of live conversion runs.
    pub live: bool,
    /// Whether a live preview may wait to be shown.
    pub preview: bool,
    /// Whether the next Enter commits what is shown.
    pub suppressed: bool,
    /// How often something was typed.
    pub generation: nat,
    pub mode: InputMode,
    /// Whether the system takes the input method to be on.
    pub open: bool,
}

/// The world after one effect.
pub open spec fn play(w: World, e: EffectModel) -> World {
    match e {
        EffectOf::Reclaim => World { background: None, ..w },
        EffectOf::StartBg { candidates } => World { background: Some(candidates), ..w },
        EffectOf::ForcePreedit { text } => World { engine: text, ..w },
        EffectOf::PushRaw { c } => World { engine: w.engine.push(c), ..w },
        EffectOf::PushRawText { text } => World { engine: w.engine + text, ..w },
        EffectOf::Learn { reading, surface } => World {
            learnt: w.learnt.push((reading, surface)),
            ..w
        },
        EffectOf::Commit { text } => World { told: w.told.push(text), ..w },
        EffectOf::ResetPreedit => World { engine: Seq::empty(), ..w },
        EffectOf::ResetAll => World { engine: Seq::empty(), ..w },
        EffectOf::BumpGeneration => World { generation: w.generation + 1, ..w },
        EffectOf::ClearPreview => World { preview: false, ..w },
        EffectOf::SuppressLiveCommit { on } => World { suppressed: on, ..w },
        EffectOf::HideWindow => World { window: None, ..w },
        EffectOf::ShowWindow { items, selected, info, x, y, status } => World {
            window: Some(WindowModel { items, selected: selected as int, info, x, y, status }),
            ..w
        },
        EffectOf::UpdateSelection { selected, info } => World {
            window: match w.window {
                Some(window) => Some(WindowModel { selected: selected as int, info, ..window }),
                None => None,
            },
            ..w
        },
        EffectOf::StartWaitingTimer => World { waiting: true, ..w },
        EffectOf::StopWaitingTimer => World { waiting: false, ..w },
        EffectOf::StopLiveTimer => World { live: false, ..w },
        EffectOf::NotifyLiveInput => World { live: true, ..w },
        EffectOf::UpdateComposition { text } => World { composition: text, ..w },
        EffectOf::UpdateParts { prefix, text, suffix } => World {
            composition: prefix + text + suffix,
            ..w
        },
        EffectOf::EndComposition { text } => World {
            document: w.document + text,
            composition: Seq::empty(),
            ..w
        },
        EffectOf::CommitText { text } => World { document: w.document + text, ..w },
        EffectOf::CommitThenStart { commit, preedit } => World {
            document: w.document + commit,
            composition: preedit,
            ..w
        },
        EffectOf::CommitThenCompose { commit } => World {
            document: w.document + commit,
            composition: w.engine,
            ..w
        },
        EffectOf::ForgetComposition => World { composition: Seq::empty(), ..w },
        EffectOf::SetMode { mode } => World { mode, ..w },
        EffectOf::SetOpen { open } => World { open, ..w },
        _ => w,
    }
}

/// The world after the first `n` of `fx`, in order.
pub open spec fn played_to(w: World, fx: Seq<EffectModel>, n: int) -> World
    decreases n,
{
    if n <= 0 {
        w
    } else {
        play(played_to(w, fx, n - 1), fx[n - 1])
    }
}

/// The world after `fx`, in order.
pub open spec fn played(w: World, fx: Seq<EffectModel>) -> World {
    played_to(w, fx, fx.len() as int)
}

proof fn lemma_same_start(w: World, a: Seq<EffectModel>, b: Seq<EffectModel>, n: int)
    requires
        n <= a.len(),
        n <= b.len(),
        forall|i: int| 0 <= i < n ==> a[i] == b[i],
    ensures
        played_to(w, a, n) == played_to(w, b, n),
    decreases n,
{
    if n > 0 {
        lemma_same_start(w, a, b, n - 1);
    }
}

/// The last effect comes last.
pub proof fn played_one_more(w: World, fx: Seq<EffectModel>, e: EffectModel)
    ensures
        played(w, fx.push(e)) == play(played(w, fx), e),
{
    lemma_same_start(w, fx, fx.push(e), fx.len() as int);
}

/// Effects can be done in two goes.
pub proof fn played_in_turn(w: World, a: Seq<EffectModel>, b: Seq<EffectModel>)
    ensures
        played(w, a + b) == played(played(w, a), b),
    decreases b.len(),
{
    if b.len() == 0 {
        assert(a + b =~= a);
    } else {
        let front = b.drop_last();
        played_in_turn(w, a, front);
        assert(a + b =~= (a + front).push(b.last()));
        assert(b =~= front.push(b.last()));
        played_one_more(w, a + front, b.last());
        played_one_more(played(w, a), front, b.last());
    }
}

} // verus!
