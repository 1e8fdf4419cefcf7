//! Keys that move through candidates, and keys that mark part of the reading.

use crate::engine::conversion::{views, CandidateList};
use crate::engine::paging::{
    next_index, next_page_index, page_info_text, page_turn_goes_to_the_next_page,
    page_turns_are_inverse, pages_are_filled, prev_index, prev_page_index, stepping_goes_one_on,
};
use crate::engine::state::{
    open_page_holds_block_selection, open_page_holds_selection, SelectingModel, SessionModel,
    SessionState, SplitModel,
};
use crate::tsf::convert::shown;
use crate::tsf::effects::{
    done, done_model, emit, no_effects, Effect, EffectModel, EffectOf, EngineFacts, FactsModel,
    NextModel, Turn, TurnModel,
};
use crate::tsf::world::{played, played_to, World};
use vstd::prelude::*;

verus! {

/// A direction through the candidates.
#[derive(Clone, Copy, Debug, PartialEq, Eq, Structural)]
pub enum CandidateDir {
    Next,
    Prev,
}

/// Handlers of this module finish in one turn.
#[derive(Clone, Copy, Debug, PartialEq)]
pub struct NoPoint {
}

impl View for NoPoint {
    type V = NoPoint;

    open spec fn view(&self) -> NoPoint {
        *self
    }
}

pub type ChooseTurn = (TurnModel<NoPoint>, SessionModel);

/// What stands before an open choice.
pub open spec fn prefix_of(sess: SessionModel) -> Seq<char> {
    match sess {
        SessionModel::Selecting(s) => s.prefix,
        _ => Seq::empty(),
    }
}

/// What stands behind an open choice.
pub open spec fn remainder_of(sess: SessionModel) -> Seq<char> {
    match sess {
        SessionModel::Selecting(s) => s.remainder,
        _ => Seq::empty(),
    }
}

/// The list is shown with its new selection, and the composition with the candidate.
pub open spec fn reshown(
    before: Seq<EffectModel>,
    sess: SessionModel,
    x: i32,
    y: i32,
) -> Seq<EffectModel> {
    before.push(
        shown(
            sess.page(),
            sess.page_place(),
            page_info_text(sess.page_number(), sess.page_total()),
            x,
            y,
            None,
        ),
    ).push(
        EffectOf::UpdateParts {
            prefix: prefix_of(sess),
            text: sess.current_or_original(),
            suffix: remainder_of(sess),
        },
    )
}

/// The session one candidate further.
pub open spec fn stepped(dir: CandidateDir, sess: SessionModel) -> SessionModel {
    match dir {
        CandidateDir::Next => sess.move_selection(
            |len: int, sel: int, size: int| next_index(len, sel),
        ),
        CandidateDir::Prev => sess.move_selection(
            |len: int, sel: int, size: int| prev_index(len, sel),
        ),
    }
}

/// The session one page further.
pub open spec fn paged(dir: CandidateDir, sess: SessionModel) -> SessionModel {
    match dir {
        CandidateDir::Next => sess.move_selection(
            |len: int, sel: int, size: int| next_page_index(len, sel, size),
        ),
        CandidateDir::Prev => sess.move_selection(
            |len: int, sel: int, size: int| prev_page_index(len, sel, size),
        ),
    }
}

/// What a key for the next or previous candidate does.
pub open spec fn candidate_move_turn(
    dir: CandidateDir,
    has_preedit: bool,
    x: i32,
    y: i32,
    sess: SessionModel,
) -> ChooseTurn {
    if sess.list_shape() is None {
        (done_model(seq![], has_preedit), sess)
    } else {
        let s = stepped(dir, sess);
        (
            done_model(
                reshown(
                    seq![
                        EffectOf::UpdateSelection {
                            selected: s.page_place() as usize,
                            info: page_info_text(s.page_number(), s.page_total()),
                        },
                    ],
                    s,
                    x,
                    y,
                ),
                true,
            ),
            s,
        )
    }
}

/// What a key for the next or previous page does.
pub open spec fn candidate_page_turn(
    dir: CandidateDir,
    has_preedit: bool,
    x: i32,
    y: i32,
    sess: SessionModel,
) -> ChooseTurn {
    if sess.list_shape() is None {
        (done_model(seq![], has_preedit), sess)
    } else {
        let s = paged(dir, sess);
        (done_model(reshown(seq![], s, x, y), true), s)
    }
}

fn emit_reshown(fx: &mut Vec<Effect>, x: i32, y: i32, sess: &SessionState)
    requires
        sess@.wf(),
    ensures
        views(final(fx)@) == reshown(views(old(fx)@), sess@, x, y),
{
    emit(
        fx,
        EffectOf::ShowWindow {
            items: sess.page_candidates(),
            selected: sess.page_selected(),
            info: sess.page_info(),
            x,
            y,
            status: None,
        },
    );
    emit(
        fx,
        EffectOf::UpdateParts {
            prefix: sess.selecting_prefix_clone(),
            text: sess.current_or_original(),
            suffix: sess.selecting_remainder_clone(),
        },
    );
}

/// The next or previous candidate. `has_preedit` says whether something is composed,
/// `x` and `y` where the window stands.
pub fn on_candidate_move(
    dir: CandidateDir,
    has_preedit: bool,
    x: i32,
    y: i32,
    sess: &mut SessionState,
) -> (r: Turn<NoPoint>)
    requires
        old(sess)@.wf(),
    ensures
        (r@, final(sess)@) == candidate_move_turn(dir, has_preedit, x, y, old(sess)@),
        final(sess)@.wf(),
{
    let mut fx = no_effects();
    if !sess.is_candidate_list_active() {
        return done(fx, has_preedit);
    }
    match dir {
        CandidateDir::Next => sess.next_with_page_wrap(),
        CandidateDir::Prev => sess.prev(),
    }
    emit(
        &mut fx,
        EffectOf::UpdateSelection { selected: sess.page_selected(), info: sess.page_info() },
    );
    emit_reshown(&mut fx, x, y, sess);
    done(fx, true)
}

/// The next or previous page.
pub fn on_candidate_page(
    dir: CandidateDir,
    has_preedit: bool,
    x: i32,
    y: i32,
    sess: &mut SessionState,
) -> (r: Turn<NoPoint>)
    requires
        old(sess)@.wf(),
    ensures
        (r@, final(sess)@) == candidate_page_turn(dir, has_preedit, x, y, old(sess)@),
        final(sess)@.wf(),
{
    let mut fx = no_effects();
    if !sess.is_candidate_list_active() {
        return done(fx, has_preedit);
    }
    match dir {
        CandidateDir::Next => sess.next_page(),
        CandidateDir::Prev => sess.prev_page(),
    }
    emit_reshown(&mut fx, x, y, sess);
    done(fx, true)
}

/// The marked part of the reading is shown marked.
pub open spec fn range_shown(sess: SessionModel) -> EffectModel {
    EffectOf::UpdateParts {
        prefix: Seq::empty(),
        text: sess->full_reading.take(sess->select_end),
        suffix: sess->full_reading.skip(sess->select_end),
    }
}

/// A range of `reading` is being marked.
pub open spec fn marked(reading: Seq<char>, end: int, preview: Seq<char>) -> SessionModel {
    SessionModel::RangeSelect { full_reading: reading, select_end: end, original_preview: preview }
}

/// Where marking starts: before the last character for Shift+Left, behind the first
/// one for Shift+Right.
pub open spec fn first_mark(shrink: bool, reading: Seq<char>) -> int {
    if shrink {
        reading.len() - 1
    } else {
        1
    }
}

/// What Shift+Left (`shrink`) and Shift+Right do.
pub open spec fn segment_turn(shrink: bool, facts: FactsModel, sess: SessionModel) -> ChooseTurn {
    match sess {
        SessionModel::LiveConv { reading, preview } => if reading.len() == 0 {
            (done_model(seq![], true), sess)
        } else {
            let s = marked(reading, first_mark(shrink, reading), preview);
            (
                done_model(
                    seq![
                        EffectOf::HideWindow,
                        EffectOf::StopLiveTimer,
                        EffectOf::Reclaim,
                        range_shown(s),
                    ],
                    true,
                ),
                s,
            )
        },
        SessionModel::RangeSelect { full_reading, select_end, original_preview } => {
            let moves = if shrink {
                select_end > 1
            } else {
                select_end < full_reading.len()
            };
            if !moves {
                (done_model(seq![], true), sess)
            } else {
                let s = sess.with_select_end(
                    if shrink {
                        select_end - 1
                    } else {
                        select_end + 1
                    },
                );
                (done_model(seq![range_shown(s)], true), s)
            }
        },
        SessionModel::Selecting(c) => {
            let reading = c.original_preedit;
            if reading.len() == 0 {
                (done_model(seq![], shrink || !facts.preedit_empty), sess)
            } else {
                let s = marked(reading, first_mark(shrink, reading), Seq::empty());
                (
                    done_model(
                        seq![
                            EffectOf::HideWindow,
                            EffectOf::StopLiveTimer,
                            EffectOf::Reclaim,
                            EffectOf::ForcePreedit { text: reading },
                            range_shown(s),
                        ],
                        true,
                    ),
                    s,
                )
            }
        },
        SessionModel::Preedit { .. } => {
            let reading = facts.hiragana;
            if reading.len() > (if shrink {
                1int
            } else {
                0
            }) {
                let s = marked(reading, first_mark(shrink, reading), Seq::empty());
                (
                    done_model(
                        seq![EffectOf::StopLiveTimer, EffectOf::Reclaim, range_shown(s)],
                        true,
                    ),
                    s,
                )
            } else {
                (done_model(seq![], !facts.preedit_empty), sess)
            }
        },
        _ => (done_model(seq![], !facts.preedit_empty), sess),
    }
}

fn emit_range(fx: &mut Vec<Effect>, sess: &SessionState)
    requires
        sess@ is RangeSelect,
        sess@.wf(),
    ensures
        views(final(fx)@) == views(old(fx)@).push(range_shown(sess@)),
{
    let (selected, rest) = match sess.range_select_parts() {
        Some(parts) => parts,
        None => (String::new(), String::new()),
    };
    emit(fx, EffectOf::UpdateParts { prefix: String::new(), text: selected, suffix: rest });
}

fn start_marking(shrink: bool, reading: &String, preview: String, sess: &mut SessionState)
    requires
        reading@.len() > 0,
    ensures
        final(sess)@ == marked(reading@, first_mark(shrink, reading@), preview@),
        final(sess)@.wf(),
{
    let end: usize = if shrink {
        reading.as_str().unicode_len() - 1
    } else {
        1
    };
    sess.set_range_select(reading.clone(), end, preview);
}

fn on_segment(shrink: bool, facts: &EngineFacts, sess: &mut SessionState) -> (r: Turn<NoPoint>)
    requires
        old(sess)@.wf(),
    ensures
        (r@, final(sess)@) == segment_turn(shrink, facts@, old(sess)@),
        final(sess)@.wf(),
{
    let mut fx = no_effects();
    if sess.is_live_conv() {
        let (reading, preview) = match sess.live_conv_parts() {
            Some((reading, preview)) => (reading.to_owned(), preview.to_owned()),
            None => (String::new(), String::new()),
        };
        if reading.as_str().is_empty() {
            return done(fx, true);
        }
        start_marking(shrink, &reading, preview, sess);
        emit(&mut fx, EffectOf::HideWindow);
        emit(&mut fx, EffectOf::StopLiveTimer);
        emit(&mut fx, EffectOf::Reclaim);
        emit_range(&mut fx, sess);
        return done(fx, true);
    }
    if sess.is_range_select() {
        let moved = if shrink {
            sess.range_select_shrink()
        } else {
            sess.range_select_extend()
        };
        if moved {
            emit_range(&mut fx, sess);
        }
        return done(fx, true);
    }
    if sess.is_selecting() {
        let reading = match sess.original_preedit() {
            Some(t) => t.to_owned(),
            None => String::new(),
        };
        if reading.as_str().is_empty() {
            return done(fx, shrink || !facts.preedit_empty);
        }
        start_marking(shrink, &reading, String::new(), sess);
        emit(&mut fx, EffectOf::HideWindow);
        emit(&mut fx, EffectOf::StopLiveTimer);
        emit(&mut fx, EffectOf::Reclaim);
        emit(&mut fx, EffectOf::ForcePreedit { text: reading });
        emit_range(&mut fx, sess);
        return done(fx, true);
    }
    if sess.is_preedit() {
        let least: usize = if shrink {
            1
        } else {
            0
        };
        if facts.hiragana.as_str().unicode_len() > least {
            start_marking(shrink, &facts.hiragana, String::new(), sess);
            emit(&mut fx, EffectOf::StopLiveTimer);
            emit(&mut fx, EffectOf::Reclaim);
            emit_range(&mut fx, sess);
            return done(fx, true);
        }
    }
    done(fx, !facts.preedit_empty)
}

/// Shift+Left: moves the right end of the marked range to the left.
pub fn on_segment_shrink(facts: &EngineFacts, sess: &mut SessionState) -> (r: Turn<NoPoint>)
    requires
        old(sess)@.wf(),
    ensures
        (r@, final(sess)@) == segment_turn(true, facts@, old(sess)@),
        final(sess)@.wf(),
{
    on_segment(true, facts, sess)
}

/// Shift+Right: moves the right end of the marked range to the right.
pub fn on_segment_extend(facts: &EngineFacts, sess: &mut SessionState) -> (r: Turn<NoPoint>)
    requires
        old(sess)@.wf(),
    ensures
        (r@, final(sess)@) == segment_turn(false, facts@, old(sess)@),
        final(sess)@.wf(),
{
    on_segment(false, facts, sess)
}

/// Left and Right: used up while something is composed.
pub fn on_segment_move(facts: &EngineFacts) -> (r: Turn<NoPoint>)
    ensures
        r@ == done_model::<NoPoint>(seq![], !facts@.preedit_empty),
{
    done(no_effects(), !facts.preedit_empty)
}

/// Left.
pub fn on_segment_move_left(facts: &EngineFacts) -> (r: Turn<NoPoint>)
    ensures
        r@ == done_model::<NoPoint>(seq![], !facts@.preedit_empty),
{
    on_segment_move(facts)
}

/// Right.
pub fn on_segment_move_right(facts: &EngineFacts) -> (r: Turn<NoPoint>)
    ensures
        r@ == done_model::<NoPoint>(seq![], !facts@.preedit_empty),
{
    on_segment_move(facts)
}

/// Marking a range shows the whole reading and never changes it.
pub proof fn marking_keeps_reading(shrink: bool, facts: FactsModel, sess: SessionModel)
    requires
        sess is RangeSelect,
        sess.wf(),
    ensures
        ({
            let (turn, after) = segment_turn(shrink, facts, sess);
            &&& after is RangeSelect
            &&& after->full_reading == sess->full_reading
            &&& after->original_preview == sess->original_preview
            &&& after->full_reading.take(after->select_end) + after->full_reading.skip(
                after->select_end,
            ) == sess->full_reading
        }),
{
}

/// Shift+Left takes Shift+Right back, and the other way round.
pub proof fn marking_is_reversible(facts: FactsModel, sess: SessionModel)
    requires
        sess is RangeSelect,
        sess.wf(),
    ensures
        1 <= sess->select_end < sess->full_reading.len() ==> segment_turn(
            true,
            facts,
            segment_turn(false, facts, sess).1,
        ).1 == sess,
        sess->select_end > 1 ==> segment_turn(
            false,
            facts,
            segment_turn(true, facts, sess).1,
        ).1 == sess,
{
}

/// The place that a key for the next or previous candidate leads to, and the one that a key
/// for the next or previous page does.
pub open spec fn is_reached(dir: CandidateDir, paging: bool, at: int, len: int, sel: int, size: int)
    -> bool {
    let first = sel - sel % size;
    match (dir, paging) {
        (CandidateDir::Next, false) => at == (if sel + 1 < len {
            sel + 1
        } else {
            0
        }),
        (CandidateDir::Prev, false) => at == (if sel > 0 {
            sel - 1
        } else {
            len - 1
        }),
        (CandidateDir::Next, true) => at == (if first + size < len {
            first + size
        } else {
            0
        }),
        (CandidateDir::Prev, true) => if first > 0 {
            at == first - size
        } else {
            at % size == 0 && at < len <= at + size
        },
    }
}

/// Keys for candidates and pages select the candidate that they lead to and change nothing
/// else. The window shows the page with it, selected, and the composition shows it between
/// what stands before and behind the choice.
pub proof fn keys_lead_through_candidates(
    w: World,
    dir: CandidateDir,
    has: bool,
    x: i32,
    y: i32,
    s: SelectingModel,
)
    requires
        s.wf(),
        s.candidates.len() > 0,
        s.page_size <= usize::MAX,
    ensures
        ({
            let sess = SessionModel::Selecting(s);
            let len = s.candidates.len() as int;
            let (step, after_step) = candidate_move_turn(dir, has, x, y, sess);
            let (turn, after_turn) = candidate_page_turn(dir, has, x, y, sess);
            &&& after_step is Selecting && after_turn is Selecting
            &&& is_reached(
                dir,
                false,
                after_step->Selecting_0.selected,
                len,
                s.selected,
                s.page_size,
            )
            &&& is_reached(
                dir,
                true,
                after_turn->Selecting_0.selected,
                len,
                s.selected,
                s.page_size,
            )
            &&& shows_selection(w, step, after_step, s, x, y)
            &&& shows_selection(w, turn, after_turn, s, x, y)
        }),
{
    let len = s.candidates.len() as int;
    let sess = SessionModel::Selecting(s);
    stepping_goes_one_on(len, s.selected);
    page_turn_goes_to_the_next_page(len, s.selected, s.page_size);
    page_turns_are_inverse(len, s.selected, s.page_size);
    pages_are_filled(len, s.selected, s.page_size);
    let (step, after_step) = candidate_move_turn(dir, has, x, y, sess);
    let (turn, after_turn) = candidate_page_turn(dir, has, x, y, sess);
    let a = match dir {
        CandidateDir::Next => next_index(len, s.selected),
        CandidateDir::Prev => prev_index(len, s.selected),
    };
    let b = match dir {
        CandidateDir::Next => next_page_index(len, s.selected, s.page_size),
        CandidateDir::Prev => prev_page_index(len, s.selected, s.page_size),
    };
    assert(after_step == SessionModel::Selecting(s.select(a)));
    assert(after_turn == SessionModel::Selecting(s.select(b)));
    lemma_shown(w, true, step, s, a, x, y);
    lemma_shown(w, false, turn, s, b, x, y);
}

/// The list is shown with the selection of `after`, which is `s` but for the selection.
pub open spec fn shows_selection(
    w: World,
    turn: TurnModel<NoPoint>,
    after: SessionModel,
    s: SelectingModel,
    x: i32,
    y: i32,
) -> bool {
    let at = after->Selecting_0.selected;
    let then = played(w, turn.effects);
    &&& turn.next == (NextModel::<NoPoint>::Done { eaten: true })
    &&& after == SessionModel::Selecting(SelectingModel { selected: at, ..s })
    &&& 0 <= at < s.candidates.len()
    &&& then.document == w.document
    &&& then.engine == w.engine
    &&& then.composition == s.prefix + s.candidates[at] + s.remainder
    &&& then.window is Some
    &&& {
        let window = then.window->0;
        &&& window.selected == at % s.page_size
        &&& 0 <= window.selected < window.items.len() <= s.page_size
        &&& window.items[window.selected] == s.candidates[at]
        &&& window.items == s.candidates.subrange(
            at - at % s.page_size,
            at - at % s.page_size + window.items.len(),
        )
        &&& window.x == x && window.y == y
        &&& window.status is None
    }
}

proof fn lemma_shown(
    w: World,
    stepping: bool,
    turn: TurnModel<NoPoint>,
    s: SelectingModel,
    at: int,
    x: i32,
    y: i32,
)
    requires
        s.wf(),
        s.page_size <= usize::MAX,
        0 <= at < s.candidates.len(),
        ({
            let t = SessionModel::Selecting(s.select(at));
            turn == done_model::<NoPoint>(
                reshown(
                    if stepping {
                        seq![
                            EffectOf::UpdateSelection {
                                selected: t.page_place() as usize,
                                info: page_info_text(t.page_number(), t.page_total()),
                            },
                        ]
                    } else {
                        seq![]
                    },
                    t,
                    x,
                    y,
                ),
                true,
            )
        }),
    ensures
        shows_selection(w, turn, SessionModel::Selecting(s.select(at)), s, x, y),
{
    reveal_with_fuel(played_to, 4);
    open_page_holds_selection(s.select(at));
}

/// Where no candidates are shown, these keys do nothing, and are used up while something is
/// composed.
pub proof fn candidate_keys_need_candidates(
    dir: CandidateDir,
    has: bool,
    x: i32,
    y: i32,
    sess: SessionModel,
)
    requires
        !(sess is Selecting),
        sess is Split ==> sess->Split_0.list is None,
    ensures
        candidate_move_turn(dir, has, x, y, sess) == (
            TurnModel::<NoPoint> { effects: Seq::empty(), next: NextModel::Done { eaten: has } },
            sess,
        ),
        candidate_page_turn(dir, has, x, y, sess) == candidate_move_turn(dir, has, x, y, sess),
{
}

/// In a split composition these keys lead through the candidates of the selected block, and
/// the composition shows the selected one.
pub proof fn keys_lead_through_block_candidates(
    w: World,
    dir: CandidateDir,
    has: bool,
    x: i32,
    y: i32,
    s: SplitModel,
)
    requires
        s.wf(),
        s.list is Some,
        s.list->0.items.len() > 0,
    ensures
        ({
            let l = s.list->0;
            let sess = SessionModel::Split(s);
            let (turn, after) = candidate_move_turn(dir, has, x, y, sess);
            let (page, after_page) = candidate_page_turn(dir, has, x, y, sess);
            &&& after is Split && after->Split_0.list is Some
            &&& after_page is Split && after_page->Split_0.list is Some
            &&& {
                let at = after->Split_0.list->0.selected;
                let head = after_page->Split_0.list->0.selected;
                &&& is_reached(dir, false, at, l.items.len() as int, l.selected, l.page_size)
                &&& is_reached(dir, true, head, l.items.len() as int, l.selected, l.page_size)
                &&& after == SessionModel::Split(
                    SplitModel { list: Some(CandidateList { selected: at, ..l }), ..s },
                )
                &&& after_page == SessionModel::Split(
                    SplitModel { list: Some(CandidateList { selected: head, ..l }), ..s },
                )
                &&& played(w, turn.effects).composition == l.items[at].surface
                &&& played(w, page.effects).composition == l.items[head].surface
                &&& played(w, turn.effects).document == w.document
            }
        }),
{
    reveal_with_fuel(played_to, 4);
    let l = s.list->0;
    let len = l.items.len() as int;
    stepping_goes_one_on(len, l.selected);
    page_turn_goes_to_the_next_page(len, l.selected, l.page_size);
    page_turns_are_inverse(len, l.selected, l.page_size);
    pages_are_filled(len, l.selected, l.page_size);
    let (turn, after) = candidate_move_turn(dir, has, x, y, SessionModel::Split(s));
    let (page, after_page) = candidate_page_turn(dir, has, x, y, SessionModel::Split(s));
    let at = after->Split_0.list->0.selected;
    let head = after_page->Split_0.list->0.selected;
    open_page_holds_block_selection(SplitModel { list: Some(l.select(at)), ..s });
    open_page_holds_block_selection(SplitModel { list: Some(l.select(head)), ..s });
    let none = Seq::<char>::empty();
    assert(none + l.items[at].surface + none =~= l.items[at].surface);
    assert(none + l.items[head].surface + none =~= l.items[head].surface);
}

/// Shift+Left begins to mark a reading up to its last character, and Shift+Right up to its
/// first: that of a live preview, which is kept, that of a choice, which is given up, or what
/// is being typed. The composition shows the whole reading, and nothing else is lost.
pub proof fn marking_begins_at_the_ends(
    w: World,
    shrink: bool,
    facts: FactsModel,
    sess: SessionModel,
)
    requires
        sess is LiveConv || sess is Selecting || sess is Preedit,
    ensures
        ({
            let (turn, after) = segment_turn(shrink, facts, sess);
            let then = played(w, turn.effects);
            let reading = match sess {
                SessionModel::LiveConv { reading, .. } => reading,
                SessionModel::Selecting(s) => s.original_preedit,
                _ => facts.hiragana,
            };
            let begins = reading.len() > 0 && !(sess is Preedit && shrink && reading.len() == 1);
            if begins {
                &&& turn.next == (NextModel::<NoPoint>::Done { eaten: true })
                &&& after == (SessionModel::RangeSelect {
                    full_reading: reading,
                    select_end: if shrink {
                        reading.len() - 1
                    } else {
                        1
                    },
                    original_preview: if sess is LiveConv {
                        sess->preview
                    } else {
                        Seq::empty()
                    },
                })
                &&& then.document == w.document
                &&& then.composition == reading
                &&& then.background is None
                &&& !then.live
                &&& sess is Selecting ==> then.engine == reading && then.window is None
                &&& !(sess is Selecting) ==> then.engine == w.engine
            } else {
                &&& turn.effects.len() == 0
                &&& after == sess
            }
        }),
{
    reveal_with_fuel(played_to, 6);
    let (turn, after) = segment_turn(shrink, facts, sess);
    if let SessionModel::RangeSelect { full_reading, select_end, .. } = after {
        if 0 <= select_end <= full_reading.len() {
            assert(Seq::<char>::empty() + full_reading.take(select_end) + full_reading.skip(
                select_end,
            ) =~= full_reading);
        }
    }
}

/// Shift+Left and Shift+Right move the end of the mark by one character, and stop at the first
/// character and at the end.
pub proof fn mark_moves_by_one_character(
    w: World,
    facts: FactsModel,
    reading: Seq<char>,
    end: int,
    preview: Seq<char>,
)
    requires
        0 <= end <= reading.len(),
    ensures
        ({
            let sess = SessionModel::RangeSelect {
                full_reading: reading,
                select_end: end,
                original_preview: preview,
            };
            let (left, less) = segment_turn(true, facts, sess);
            let (right, more) = segment_turn(false, facts, sess);
            &&& left.next == (NextModel::<NoPoint>::Done { eaten: true })
            &&& right.next == (NextModel::<NoPoint>::Done { eaten: true })
            &&& less->select_end == if end > 1 {
                end - 1
            } else {
                end
            }
            &&& more->select_end == if end < reading.len() {
                end + 1
            } else {
                end
            }
            &&& end > 1 ==> left.effects == seq![
                EffectModel::UpdateParts {
                    prefix: Seq::empty(),
                    text: reading.take(end - 1),
                    suffix: reading.skip(end - 1),
                },
            ]
            &&& end < reading.len() ==> right.effects == seq![
                EffectModel::UpdateParts {
                    prefix: Seq::empty(),
                    text: reading.take(end + 1),
                    suffix: reading.skip(end + 1),
                },
            ]
        }),
{
}

/// A key that marks is used up while something is composed, also where the mark cannot move, and
/// changes nothing then. Where nothing can be marked the session stays.
pub proof fn marking_takes_the_key(shrink: bool, facts: FactsModel, sess: SessionModel)
    ensures
        ({
            let (turn, after) = segment_turn(shrink, facts, sess);
            &&& turn.next is Done
            &&& !facts.preedit_empty || sess is LiveConv || sess is RangeSelect ==> turn.next->eaten
            &&& after != sess ==> turn.next->eaten
            &&& after == sess ==> turn.effects.len() == 0 || sess is RangeSelect
            &&& facts.preedit_empty && (sess is Idle || sess is Waiting || sess is Split)
                ==> !turn.next->eaten
            &&& !(after is RangeSelect) ==> after == sess && turn.effects.len() == 0
        }),
{
}

/// A key that leads through the candidates of a block is used up.
pub proof fn block_candidates_take_the_key(
    dir: CandidateDir,
    has: bool,
    x: i32,
    y: i32,
    s: SplitModel,
)
    requires
        s.list is Some,
    ensures
        candidate_move_turn(dir, has, x, y, SessionModel::Split(s)).0.next == (
        NextModel::<NoPoint>::Done { eaten: true }),
        candidate_page_turn(dir, has, x, y, SessionModel::Split(s)).0.next == (
        NextModel::<NoPoint>::Done { eaten: true }),
{
}

} // verus!
