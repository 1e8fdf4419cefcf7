//! Putting text into the document.
//!
//! A document is changed in edit sessions, which the application grants when it likes.
//! When one is granted, what is done is a list of steps. Some have to succeed, or the rest
//! is given up; others are done as well as they can be.

use crate::engine::conversion::views;
use crate::text::{concat3, same, utf16_count, utf16_len, utf16_len_adds_up};
use vstd::prelude::*;

verus! {

/// How long a session may be waited for before that is reported, in milliseconds.
pub const EDIT_SESSION_SLOW_MS: u64 = 100;

/// Whether it is reported that a session was waited for.
pub fn is_slow_grant(waited_us: u64) -> (r: bool)
    ensures
        r == (waited_us >= EDIT_SESSION_SLOW_MS * 1000),
{
    waited_us / 1000 >= EDIT_SESSION_SLOW_MS
}

/// One step of an edit session.
#[derive(Debug, PartialEq)]
#[verifier::ext_equal]
pub enum EditStepOf<T> {
    /// Go on with the text of the composition. Must succeed.
    UseComposition,
    /// Go on at the caret, or at the end of the document where there is none. Must succeed.
    UseInsertPoint,
    /// Go on behind what was committed, or at the end of the document where that is not
    /// known. Must succeed.
    UseAfterCommit,
    /// Start a composition there, go on with its text, and keep it with its document. Must
    /// succeed.
    Start,
    /// Do nothing more where another change of the composition is under way.
    LockOrStop,
    /// Replace the text.
    SetText { text: T, must: bool },
    /// Replace the text of the composition, where it can be had, and note where it ends.
    Shrink { text: T },
    /// Note where the text ends.
    NoteEnd,
    /// Mark all of the text as typed.
    MarkTyped,
    /// Mark the text as converted but for that many UTF-16 units at its ends.
    MarkConverted { front: i32, back: i32 },
    /// Put the caret behind the text.
    CaretToEnd,
    /// End the composition. Must succeed.
    End,
}

pub type EditStep = EditStepOf<String>;

pub type EditStepModel = EditStepOf<Seq<char>>;

impl View for EditStepOf<String> {
    type V = EditStepModel;

    open spec fn view(&self) -> EditStepModel {
        match *self {
            EditStepOf::UseComposition => EditStepOf::UseComposition,
            EditStepOf::UseInsertPoint => EditStepOf::UseInsertPoint,
            EditStepOf::UseAfterCommit => EditStepOf::UseAfterCommit,
            EditStepOf::Start => EditStepOf::Start,
            EditStepOf::LockOrStop => EditStepOf::LockOrStop,
            EditStepOf::SetText { text, must } => EditStepOf::SetText { text: text@, must },
            EditStepOf::Shrink { text } => EditStepOf::Shrink { text: text@ },
            EditStepOf::NoteEnd => EditStepOf::NoteEnd,
            EditStepOf::MarkTyped => EditStepOf::MarkTyped,
            EditStepOf::MarkConverted { front, back } => EditStepOf::MarkConverted { front, back },
            EditStepOf::CaretToEnd => EditStepOf::CaretToEnd,
            EditStepOf::End => EditStepOf::End,
        }
    }
}

fn plan(steps: &mut Vec<EditStep>, step: EditStep)
    ensures
        views(final(steps)@) == views(old(steps)@).push(step@),
{
    steps.push(step);
    assert(views(steps@) =~= views(old(steps)@).push(step@));
}

fn no_steps() -> (r: Vec<EditStep>)
    ensures
        views(r@) == Seq::<EditStepModel>::empty(),
{
    let r: Vec<EditStep> = Vec::new();
    assert(views(r@) =~= Seq::<EditStepModel>::empty());
    r
}

/// Whether a text is empty.
fn is_empty(s: &str) -> (r: bool)
    ensures
        r == (s@.len() == 0),
{
    proof {
        reveal_strlit("");
        assert(s@.len() == 0 ==> s@ =~= ""@);
    }
    same(s, "")
}

/// The steps up to the text of the composition: of the one that there is, or of a new one.
pub open spec fn opening(existing: bool) -> Seq<EditStepModel> {
    if existing {
        seq![EditStepModel::UseComposition]
    } else {
        seq![EditStepModel::UseInsertPoint, EditStepModel::Start]
    }
}

/// The steps that show a text in the composition. `requested` is the composition at the
/// time of the request and `current` that at the time of the session, 0 for none: where
/// they differ the text is outdated, and nothing is done.
pub open spec fn update_steps(requested: usize, current: usize, preedit: Seq<char>) -> Seq<
    EditStepModel,
> {
    if requested != current {
        seq![]
    } else {
        opening(requested != 0) + seq![
            EditStepModel::LockOrStop,
            EditStepModel::SetText { text: preedit, must: true },
            EditStepModel::MarkTyped,
            EditStepModel::CaretToEnd,
        ]
    }
}

/// Shows a text in the composition.
pub fn update_composition(requested: usize, current: usize, preedit: String) -> (r: Vec<EditStep>)
    ensures
        views(r@) == update_steps(requested, current, preedit@),
{
    let mut steps = no_steps();
    if requested != current {
        return steps;
    }
    if requested != 0 {
        plan(&mut steps, EditStepOf::UseComposition);
    } else {
        plan(&mut steps, EditStepOf::UseInsertPoint);
        plan(&mut steps, EditStepOf::Start);
    }
    plan(&mut steps, EditStepOf::LockOrStop);
    plan(&mut steps, EditStepOf::SetText { text: preedit, must: true });
    plan(&mut steps, EditStepOf::MarkTyped);
    plan(&mut steps, EditStepOf::CaretToEnd);
    assert(views(steps@) =~= update_steps(requested, current, preedit@));
    steps
}

/// A number of units as far as it fits.
pub open spec fn units(s: Seq<char>) -> int {
    if utf16_len(s) <= i32::MAX {
        utf16_len(s) as int
    } else {
        i32::MAX as int
    }
}

/// The steps that show a text in the composition, its middle part marked as converted.
pub open spec fn parts_steps(
    requested: usize,
    current: usize,
    prefix: Seq<char>,
    converted: Seq<char>,
    suffix: Seq<char>,
) -> Seq<EditStepModel> {
    if prefix.len() == 0 && suffix.len() == 0 {
        update_steps(requested, current, converted)
    } else if requested != current {
        seq![]
    } else {
        opening(requested != 0) + seq![
            EditStepModel::LockOrStop,
            EditStepModel::SetText { text: prefix + converted + suffix, must: true },
            EditStepModel::MarkTyped,
            EditStepModel::MarkConverted { front: units(prefix) as i32, back: units(suffix) as i32 },
            EditStepModel::CaretToEnd,
        ]
    }
}

/// Shows a text in the composition, its middle part marked as converted. Where there is
/// nothing round that part, it is shown as any other text.
pub fn update_composition_candidate_parts(
    requested: usize,
    current: usize,
    prefix: String,
    converted: String,
    suffix: String,
) -> (r: Vec<EditStep>)
    ensures
        views(r@) == parts_steps(requested, current, prefix@, converted@, suffix@),
{
    if is_empty(prefix.as_str()) && is_empty(suffix.as_str()) {
        return update_composition(requested, current, converted);
    }
    let mut steps = no_steps();
    if requested != current {
        return steps;
    }
    if requested != 0 {
        plan(&mut steps, EditStepOf::UseComposition);
    } else {
        plan(&mut steps, EditStepOf::UseInsertPoint);
        plan(&mut steps, EditStepOf::Start);
    }
    let text = concat3(prefix.as_str(), converted.as_str(), suffix.as_str());
    let front = utf16_count(prefix.as_str());
    let back = utf16_count(suffix.as_str());
    plan(&mut steps, EditStepOf::LockOrStop);
    plan(&mut steps, EditStepOf::SetText { text, must: true });
    plan(&mut steps, EditStepOf::MarkTyped);
    plan(&mut steps, EditStepOf::MarkConverted { front, back });
    plan(&mut steps, EditStepOf::CaretToEnd);
    assert(views(steps@) =~= parts_steps(requested, current, prefix@, converted@, suffix@));
    steps
}

/// The steps that commit a text and start a composition with another, where there is one.
pub open spec fn commit_then_start_steps(
    composing: bool,
    commit: Seq<char>,
    next: Seq<char>,
) -> Seq<EditStepModel> {
    (if composing {
        seq![EditStepModel::Shrink { text: commit }, EditStepModel::End]
    } else if commit.len() > 0 {
        seq![
            EditStepModel::UseInsertPoint,
            EditStepModel::SetText { text: commit, must: true },
            EditStepModel::NoteEnd,
        ]
    } else {
        seq![]
    }) + (if next.len() > 0 {
        seq![
            EditStepModel::UseAfterCommit,
            EditStepModel::Start,
            EditStepModel::SetText { text: next, must: true },
            EditStepModel::MarkTyped,
            EditStepModel::CaretToEnd,
        ]
    } else {
        seq![]
    })
}

/// Commits a text and starts a composition with another, in one session, so that the
/// application sees no moment without a composition. The composition may show more than is
/// committed: it is cut down first.
pub fn commit_then_start_composition(composing: bool, commit: String, next: String) -> (r: Vec<
    EditStep,
>)
    ensures
        views(r@) == commit_then_start_steps(composing, commit@, next@),
{
    let has_commit = !is_empty(commit.as_str());
    let has_next = !is_empty(next.as_str());
    let mut steps = no_steps();
    if composing {
        plan(&mut steps, EditStepOf::Shrink { text: commit });
        plan(&mut steps, EditStepOf::End);
    } else if has_commit {
        plan(&mut steps, EditStepOf::UseInsertPoint);
        plan(&mut steps, EditStepOf::SetText { text: commit, must: true });
        plan(&mut steps, EditStepOf::NoteEnd);
    }
    if has_next {
        plan(&mut steps, EditStepOf::UseAfterCommit);
        plan(&mut steps, EditStepOf::Start);
        plan(&mut steps, EditStepOf::SetText { text: next, must: true });
        plan(&mut steps, EditStepOf::MarkTyped);
        plan(&mut steps, EditStepOf::CaretToEnd);
    }
    assert(views(steps@) =~= commit_then_start_steps(composing, commit@, next@));
    steps
}

/// The steps that put a text into the document and end the composition.
pub open spec fn end_steps(composing: bool, text: Seq<char>) -> Seq<EditStepModel> {
    if composing {
        seq![
            EditStepModel::UseComposition,
            EditStepModel::SetText { text, must: true },
            EditStepModel::CaretToEnd,
            EditStepModel::End,
        ]
    } else if text.len() > 0 {
        seq![EditStepModel::UseInsertPoint, EditStepModel::SetText { text, must: false }]
    } else {
        seq![]
    }
}

/// Puts a text into the document and ends the composition. The caret is put behind the text
/// before the composition ends, as applications move it otherwise.
pub fn end_composition(composing: bool, text: String) -> (r: Vec<EditStep>)
    ensures
        views(r@) == end_steps(composing, text@),
{
    let has_text = !is_empty(text.as_str());
    let mut steps = no_steps();
    if composing {
        plan(&mut steps, EditStepOf::UseComposition);
        plan(&mut steps, EditStepOf::SetText { text, must: true });
        plan(&mut steps, EditStepOf::CaretToEnd);
        plan(&mut steps, EditStepOf::End);
    } else if has_text {
        plan(&mut steps, EditStepOf::UseInsertPoint);
        plan(&mut steps, EditStepOf::SetText { text, must: false });
    }
    assert(views(steps@) =~= end_steps(composing, text@));
    steps
}

/// Puts a text into the document at the caret.
pub fn commit_text(text: String) -> (r: Vec<EditStep>)
    ensures
        views(r@) == seq![
            EditStepModel::UseInsertPoint,
            EditStepModel::SetText { text: text@, must: true },
            EditStepModel::CaretToEnd,
        ],
{
    let mut steps = no_steps();
    plan(&mut steps, EditStepOf::UseInsertPoint);
    plan(&mut steps, EditStepOf::SetText { text, must: true });
    plan(&mut steps, EditStepOf::CaretToEnd);
    steps
}

/// What is to be done when a step fails.
#[derive(Clone, Copy, Debug, PartialEq, Eq, Structural)]
pub enum OnFailure {
    /// Go on with the next step.
    GoOn,
    /// Give up the rest without an error.
    Stop,
    /// Give up the rest with an error.
    Abort,
}

/// What is to be done when a step fails.
pub open spec fn on_failure_of<T>(step: EditStepOf<T>) -> OnFailure {
    match step {
        EditStepOf::UseComposition
        | EditStepOf::UseInsertPoint
        | EditStepOf::UseAfterCommit
        | EditStepOf::Start
        | EditStepOf::End => OnFailure::Abort,
        EditStepOf::SetText { must, .. } => if must {
            OnFailure::Abort
        } else {
            OnFailure::GoOn
        },
        EditStepOf::LockOrStop => OnFailure::Stop,
        EditStepOf::Shrink { .. }
        | EditStepOf::NoteEnd
        | EditStepOf::MarkTyped
        | EditStepOf::MarkConverted { .. }
        | EditStepOf::CaretToEnd => OnFailure::GoOn,
    }
}

/// What is to be done when a step fails.
pub fn on_failure(step: &EditStep) -> (r: OnFailure)
    ensures
        r == on_failure_of(*step),
{
    match step {
        EditStepOf::UseComposition
        | EditStepOf::UseInsertPoint
        | EditStepOf::UseAfterCommit
        | EditStepOf::Start
        | EditStepOf::End => OnFailure::Abort,
        EditStepOf::SetText { must, .. } => if *must {
            OnFailure::Abort
        } else {
            OnFailure::GoOn
        },
        EditStepOf::LockOrStop => OnFailure::Stop,
        _ => OnFailure::GoOn,
    }
}

/// The text that a list of steps leaves in the document: what is set last, or what a
/// composition is cut down to.
pub open spec fn texts_of(steps: Seq<EditStepModel>) -> Seq<Seq<char>>
    decreases steps.len(),
{
    if steps.len() == 0 {
        seq![]
    } else {
        let before = texts_of(steps.drop_last());
        match steps.last() {
            EditStepOf::SetText { text, .. } => before.push(text),
            EditStepOf::Shrink { text } => before.push(text),
            _ => before,
        }
    }
}

/// What is marked as converted is the converted part, neither more nor less.
pub proof fn marks_the_converted_part(prefix: Seq<char>, converted: Seq<char>, suffix: Seq<char>)
    requires
        utf16_len(prefix) <= i32::MAX,
        utf16_len(suffix) <= i32::MAX,
    ensures
        units(prefix) + utf16_len(converted) + units(suffix) == utf16_len(
            prefix + converted + suffix,
        ),
{
    utf16_len_adds_up(prefix, converted);
    utf16_len_adds_up(prefix + converted, suffix);
}

/// An outdated text is never shown: where the composition is another than at the time of the
/// request, or there is none any more, nothing is touched.
pub proof fn outdated_text_is_not_shown(
    requested: usize,
    current: usize,
    prefix: Seq<char>,
    converted: Seq<char>,
    suffix: Seq<char>,
)
    requires
        requested != current,
    ensures
        update_steps(requested, current, converted).len() == 0,
        parts_steps(requested, current, prefix, converted, suffix).len() == 0,
{
}

/// A composition never ends with more in it than is committed: it is cut down to that
/// before.
pub proof fn only_what_is_committed_stays(commit: Seq<char>, next: Seq<char>)
    ensures
        commit_then_start_steps(true, commit, next)[0] == (EditStepModel::Shrink { text: commit }),
        commit_then_start_steps(true, commit, next)[1] is End,
        texts_of(commit_then_start_steps(true, commit, next)) == (if next.len() > 0 {
            seq![commit, next]
        } else {
            seq![commit]
        }),
        texts_of(end_steps(true, commit)) == seq![commit],
{
    reveal_with_fuel(texts_of, 9);
    let s = commit_then_start_steps(true, commit, next);
    let a = EditStepModel::Shrink { text: commit };
    assert(s[0] == a && s[1] is End);
    if next.len() > 0 {
        let f = seq![
            a,
            EditStepModel::End,
            EditStepModel::UseAfterCommit,
            EditStepModel::Start,
            EditStepModel::SetText { text: next, must: true },
            EditStepModel::MarkTyped,
            EditStepModel::CaretToEnd,
        ];
        assert(s =~= f);
        assert(s.drop_last() =~= f.take(6));
        assert(f.take(6).drop_last() =~= f.take(5));
        assert(f.take(5).drop_last() =~= f.take(4));
        assert(f.take(4).drop_last() =~= f.take(3));
        assert(f.take(3).drop_last() =~= f.take(2));
        assert(f.take(2).drop_last() =~= f.take(1));
        assert(f.take(1).drop_last() =~= f.take(0));
        assert(texts_of(s) =~= seq![commit, next]);
    } else {
        assert(s =~= seq![a, EditStepModel::End]);
        assert(s.drop_last() =~= seq![a]);
        assert(s.drop_last().drop_last() =~= seq![]);
        assert(texts_of(s) =~= seq![commit]);
    }
    let e = end_steps(true, commit);
    assert(e.drop_last() =~= e.take(3));
    assert(e.take(3).drop_last() =~= e.take(2));
    assert(e.take(2).drop_last() =~= e.take(1));
    assert(e.take(1).drop_last() =~= e.take(0));
    assert(texts_of(e) =~= seq![commit]);
}

/// A document at the place where something is written: the text before it, the composition
/// there, whether steps go on with the composition, what is left unmarked at the ends of a
/// converted part, and whether the caret stands behind the text.
#[verifier::ext_equal]
pub struct Place {
    pub text: Seq<char>,
    pub composition: Option<Seq<char>>,
    pub inside: bool,
    pub converted: Option<(i32, i32)>,
    pub caret_behind: bool,
}

/// The document after one step that succeeds.
pub open spec fn stepped(d: Place, step: EditStepModel) -> Place {
    match step {
        EditStepOf::UseComposition => Place { inside: true, ..d },
        EditStepOf::UseInsertPoint => Place { inside: false, ..d },
        EditStepOf::UseAfterCommit => Place { inside: false, ..d },
        EditStepOf::Start => Place { inside: true, composition: Some(Seq::empty()), ..d },
        EditStepOf::SetText { text, .. } => if d.inside {
            Place { composition: Some(text), caret_behind: false, ..d }
        } else {
            Place { text: d.text + text, caret_behind: false, ..d }
        },
        EditStepOf::Shrink { text } => Place { composition: Some(text), ..d },
        EditStepOf::MarkTyped => Place { converted: None, ..d },
        EditStepOf::MarkConverted { front, back } => Place { converted: Some((front, back)), ..d },
        EditStepOf::CaretToEnd => Place { caret_behind: true, ..d },
        EditStepOf::End => Place {
            text: match d.composition {
                Some(c) => d.text + c,
                None => d.text,
            },
            composition: None,
            inside: false,
            ..d
        },
        _ => d,
    }
}

/// The document after the first `n` steps.
pub open spec fn stepped_to(d: Place, steps: Seq<EditStepModel>, n: int) -> Place
    decreases n,
{
    if n <= 0 {
        d
    } else {
        stepped(stepped_to(d, steps, n - 1), steps[n - 1])
    }
}

/// The document after an edit session.
pub open spec fn edited(d: Place, steps: Seq<EditStepModel>) -> Place {
    stepped_to(d, steps, steps.len() as int)
}

/// Showing a text in the composition leaves the document alone: the composition holds that
/// text, in the composition that there is or a new one, with the caret behind it. A converted
/// part between others is marked as such, and nothing else is.
pub proof fn composition_shows_the_text(
    d: Place,
    composition: usize,
    prefix: Seq<char>,
    converted: Seq<char>,
    suffix: Seq<char>,
)
    requires
        composition == 0 <==> d.composition is None,
    ensures
        ({
            let then = edited(d, update_steps(composition, composition, converted));
            &&& then.text == d.text
            &&& then.composition == Some(converted)
            &&& then.converted is None
            &&& then.caret_behind
        }),
        ({
            let then = edited(
                d,
                parts_steps(composition, composition, prefix, converted, suffix),
            );
            &&& then.text == d.text
            &&& then.composition == Some(prefix + converted + suffix)
            &&& then.caret_behind
            &&& prefix.len() == 0 && suffix.len() == 0 ==> then.converted is None
            &&& (prefix.len() > 0 || suffix.len() > 0) && utf16_len(prefix) <= i32::MAX
                && utf16_len(suffix) <= i32::MAX ==> then.converted == Some(
                (utf16_len(prefix) as i32, utf16_len(suffix) as i32),
            )
        }),
        update_steps(composition, composition, converted).contains(EditStepModel::LockOrStop),
        parts_steps(composition, composition, prefix, converted, suffix).contains(
            EditStepModel::LockOrStop,
        ),
{
    reveal_with_fuel(stepped_to, 8);
    let u = update_steps(composition, composition, converted);
    let p = parts_steps(composition, composition, prefix, converted, suffix);
    let at: int = if composition != 0 {
        1
    } else {
        2
    };
    assert(u[at] == EditStepModel::LockOrStop);
    assert(p[at] == EditStepModel::LockOrStop);
    if prefix.len() == 0 && suffix.len() == 0 {
        assert(prefix + converted + suffix =~= converted);
    }
}

/// Committing puts exactly the committed text into the document, whatever the composition
/// showed, and leaves no composition, or a new one with the text that follows.
pub proof fn commit_puts_text_into_document(d: Place, commit: Seq<char>, next: Seq<char>)
    ensures
        ({
            let then = edited(d, commit_then_start_steps(d.composition is Some, commit, next));
            &&& then.text == d.text + commit
            &&& next.len() == 0 ==> then.composition is None
            &&& next.len() > 0 ==> then.composition == Some(next) && then.caret_behind
                && then.converted is None
        }),
        ({
            let then = edited(d, end_steps(d.composition is Some, commit));
            &&& then.text == d.text + commit
            &&& then.composition is None
        }),
        d.composition is Some ==> ({
            let steps = end_steps(true, commit);
            let n = steps.len() as int;
            steps[n - 1] is End && steps[n - 2] is CaretToEnd
        }),
{
    reveal_with_fuel(stepped_to, 10);
    if commit.len() == 0 {
        assert(d.text + commit =~= d.text);
    }
}

/// A step without which the text would go to the wrong place or get lost aborts the session
/// when it fails; marks and the caret do not.
pub proof fn needed_steps_abort(step: EditStepModel, d: Place)
    ensures
        on_failure_of(step) is Abort <==> step is UseComposition || step is UseInsertPoint || step
            is UseAfterCommit || step is Start || step is End || (step is SetText
            && step->must),
        on_failure_of(step) is Stop <==> step is LockOrStop,
        on_failure_of(step) is GoOn && !(step is SetText) && !(step is Shrink) ==> stepped(
            d,
            step,
        ) == (Place {
            converted: stepped(d, step).converted,
            caret_behind: stepped(d, step).caret_behind,
            ..d
        }),
{
}

} // verus!
