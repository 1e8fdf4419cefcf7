//! The composition session: what the user is typing, converting or selecting.

use crate::engine::conversion::{
    clamp_selection, clamped_end, clamped_start, conversion_from_blocks, lemma_join,
    lemma_join_one, merged, option_view, reading_of, segments_to_blocks, surface_of, views,
    windowed, CandidateList, CandidateModel, ConversionCandidateView, ConversionModel,
    ConversionState, SegmentCandidate, SegmentView, SplitBlock,
};
use crate::engine::paging;
use crate::engine::paging::{
    next_index, next_page_index, next_page_start, next_with_wrap, nth_in_page, page_count,
    page_end, page_info_text, page_range, page_start, pages, prev_index, prev_page_index,
    prev_page_start, prev_with_wrap, PAGE_SIZE,
};
use crate::text::{chars_of, string_of};
use vstd::prelude::*;

verus! {

/// What the composition stands for.
#[derive(Debug, PartialEq)]
pub enum SessionState {
    /// Nothing is being composed.
    Idle,
    /// A reading is being typed.
    Preedit { text: String },
    /// A conversion was asked for and has not come back yet. What the user left out
    /// of it follows in `remainder`.
    Waiting {
        text: String,
        pos_x: i32,
        pos_y: i32,
        remainder: String,
        remainder_reading: String,
    },
    /// The composition is split into blocks, `blocks[sel_start..sel_end]` selected.
    SplitPreedit {
        blocks: Vec<SplitBlock>,
        sel_start: usize,
        sel_end: usize,
        candidate_view: Option<ConversionCandidateView>,
    },
    /// A candidate is being chosen.
    Selecting {
        original_preedit: String,
        candidates: Vec<String>,
        structured_candidates: Vec<SegmentCandidate>,
        selected: usize,
        page_size: usize,
        llm_pending: bool,
        pos_x: i32,
        pos_y: i32,
        /// Punctuation to be put behind the candidate when it is committed.
        punct_pending: Option<char>,
        prefix: String,
        prefix_reading: String,
        /// What becomes the next preedit once the candidate is committed.
        remainder: String,
        remainder_reading: String,
        split_prefix_blocks: Vec<SplitBlock>,
        split_suffix_blocks: Vec<SplitBlock>,
    },
    /// The best conversion of `reading` is shown while the user keeps typing.
    LiveConv { reading: String, preview: String },
    /// The first `select_end` characters of `full_reading` are marked for conversion.
    RangeSelect { full_reading: String, select_end: usize, original_preview: String },
}

/// A split composition.
#[verifier::ext_equal]
pub struct SplitModel {
    pub blocks: Seq<SegmentView>,
    pub start: int,
    pub end: int,
    pub list: Option<CandidateList>,
}

impl SplitModel {
    /// At least one block is selected, and the candidates form a valid list.
    pub open spec fn wf(self) -> bool {
        &&& 0 <= self.start < self.end <= self.blocks.len()
        &&& self.list is Some ==> self.list->0.wf()
    }

    /// The blocks as segments, the selected ones merged into the focused segment.
    pub open spec fn conversion(self) -> ConversionModel {
        ConversionModel { list: self.list, ..windowed(self.blocks, self.start, self.end) }
    }

    /// Another selection of the same blocks, without candidates.
    pub open spec fn reselect(self, start: int, end: int) -> SplitModel {
        SplitModel { blocks: self.blocks, start, end, list: None }
    }

    /// The selection one block to the left. From the first block it goes to the last one,
    /// and stays where all blocks are selected.
    pub open spec fn moved_left(self) -> SplitModel {
        if self.start > 0 {
            self.reselect(self.start - 1, self.end - 1)
        } else if self.end < self.blocks.len() {
            self.reselect(self.blocks.len() - 1, self.blocks.len() as int)
        } else {
            self.reselect(self.start, self.end)
        }
    }
}

/// A choice among candidates.
#[verifier::ext_equal]
pub struct SelectingModel {
    pub original_preedit: Seq<char>,
    pub candidates: Seq<Seq<char>>,
    pub structured: Seq<CandidateModel>,
    pub selected: int,
    pub page_size: int,
    pub llm_pending: bool,
    pub pos_x: i32,
    pub pos_y: i32,
    pub punct_pending: Option<char>,
    pub prefix: Seq<char>,
    pub prefix_reading: Seq<char>,
    pub remainder: Seq<char>,
    pub remainder_reading: Seq<char>,
    pub prefix_blocks: Seq<SegmentView>,
    pub suffix_blocks: Seq<SegmentView>,
}

impl SelectingModel {
    /// The selection is one of the candidates, and pages hold something.
    pub open spec fn wf(self) -> bool {
        &&& self.page_size > 0
        &&& self.candidates.len() > 0 ==> 0 <= self.selected < self.candidates.len()
        &&& self.candidates.len() == 0 ==> self.selected == 0
    }

    /// The selected candidate.
    pub open spec fn current(self) -> Option<Seq<char>> {
        if 0 <= self.selected < self.candidates.len() {
            Some(self.candidates[self.selected])
        } else {
            None
        }
    }

    /// The same choice with another selection.
    pub open spec fn select(self, selected: int) -> SelectingModel {
        SelectingModel { selected, ..self }
    }

    /// The candidates on the open page.
    pub open spec fn page(self) -> Seq<Seq<char>> {
        if self.candidates.len() == 0 {
            Seq::empty()
        } else {
            self.candidates.subrange(
                page_start(self.selected, self.page_size),
                page_end(self.candidates.len() as int, self.selected, self.page_size),
            )
        }
    }

    /// The text that shows which page is open.
    pub open spec fn info(self) -> Seq<char> {
        page_info_text(
            self.selected / self.page_size,
            page_count(self.candidates.len() as int, self.page_size),
        )
    }

    /// The candidates come from a conversion that is finished now.
    pub open spec fn refreshed(self, candidates: Seq<Seq<char>>) -> SelectingModel {
        SelectingModel { candidates, selected: 0, llm_pending: false, ..self }
    }
}

/// What a session stands for.
#[verifier::ext_equal]
pub enum SessionModel {
    Idle,
    Preedit { text: Seq<char> },
    Waiting {
        text: Seq<char>,
        pos_x: i32,
        pos_y: i32,
        remainder: Seq<char>,
        remainder_reading: Seq<char>,
    },
    Split(SplitModel),
    Selecting(SelectingModel),
    LiveConv { reading: Seq<char>, preview: Seq<char> },
    RangeSelect { full_reading: Seq<char>, select_end: int, original_preview: Seq<char> },
}

impl SessionModel {
    /// Selections lie inside what they select from.
    pub open spec fn wf(self) -> bool {
        match self {
            SessionModel::Split(s) => s.wf(),
            SessionModel::Selecting(s) => s.wf(),
            SessionModel::RangeSelect { full_reading, select_end, .. } => 0 <= select_end
                <= full_reading.len(),
            _ => true,
        }
    }

    /// The text that the user typed.
    pub open spec fn original(self) -> Option<Seq<char>> {
        match self {
            SessionModel::Selecting(s) => Some(s.original_preedit),
            SessionModel::Preedit { text } => Some(text),
            SessionModel::Waiting { text, .. } => Some(text),
            SessionModel::LiveConv { reading, .. } => Some(reading),
            SessionModel::RangeSelect { full_reading, .. } => Some(full_reading),
            SessionModel::Split(_) => None,
            SessionModel::Idle => None,
        }
    }

    /// The text that the composition shows.
    pub open spec fn shown(self) -> Option<Seq<char>> {
        match self {
            SessionModel::Preedit { text } => Some(text),
            SessionModel::Waiting { text, .. } => Some(text),
            SessionModel::Selecting(s) => Some(s.original_preedit),
            SessionModel::LiveConv { preview, .. } => Some(preview),
            SessionModel::RangeSelect { full_reading, .. } => Some(full_reading),
            SessionModel::Split(_) => None,
            SessionModel::Idle => None,
        }
    }

    /// The selected candidate.
    pub open spec fn current(self) -> Option<Seq<char>> {
        match self {
            SessionModel::Selecting(s) => s.current(),
            SessionModel::Split(s) => match s.list {
                Some(l) => if 0 <= l.selected < l.items.len() {
                    Some(l.items[l.selected].surface)
                } else {
                    None
                },
                None => None,
            },
            _ => None,
        }
    }

    /// The selected candidate, else what the user typed, else nothing.
    pub open spec fn current_or_original(self) -> Seq<char> {
        match self.current() {
            Some(c) => c,
            None => match self.original() {
                Some(t) => t,
                None => Seq::empty(),
            },
        }
    }

    /// Whether keys belong to the composition even where they type nothing: a choice
    /// or a split composition is open.
    pub open spec fn holds_keys(self) -> bool {
        self is Selecting || self is Split
    }
}

impl View for SessionState {
    type V = SessionModel;

    open spec fn view(&self) -> SessionModel {
        match self {
            SessionState::Idle => SessionModel::Idle,
            SessionState::Preedit { text } => SessionModel::Preedit { text: text@ },
            SessionState::Waiting { text, pos_x, pos_y, remainder, remainder_reading } =>
                SessionModel::Waiting {
                text: text@,
                pos_x: *pos_x,
                pos_y: *pos_y,
                remainder: remainder@,
                remainder_reading: remainder_reading@,
            },
            SessionState::SplitPreedit { blocks, sel_start, sel_end, candidate_view } =>
                SessionModel::Split(
                SplitModel {
                    blocks: views(blocks@),
                    start: *sel_start as int,
                    end: *sel_end as int,
                    list: option_view(*candidate_view),
                },
            ),
            SessionState::Selecting {
                original_preedit,
                candidates,
                structured_candidates,
                selected,
                page_size,
                llm_pending,
                pos_x,
                pos_y,
                punct_pending,
                prefix,
                prefix_reading,
                remainder,
                remainder_reading,
                split_prefix_blocks,
                split_suffix_blocks,
            } => SessionModel::Selecting(
                SelectingModel {
                    original_preedit: original_preedit@,
                    candidates: views(candidates@),
                    structured: views(structured_candidates@),
                    selected: *selected as int,
                    page_size: *page_size as int,
                    llm_pending: *llm_pending,
                    pos_x: *pos_x,
                    pos_y: *pos_y,
                    punct_pending: *punct_pending,
                    prefix: prefix@,
                    prefix_reading: prefix_reading@,
                    remainder: remainder@,
                    remainder_reading: remainder_reading@,
                    prefix_blocks: views(split_prefix_blocks@),
                    suffix_blocks: views(split_suffix_blocks@),
                },
            ),
            SessionState::LiveConv { reading, preview } => SessionModel::LiveConv {
                reading: reading@,
                preview: preview@,
            },
            SessionState::RangeSelect { full_reading, select_end, original_preview } =>
                SessionModel::RangeSelect {
                full_reading: full_reading@,
                select_end: *select_end as int,
                original_preview: original_preview@,
            },
        }
    }
}

impl Default for SessionState {
    fn default() -> (r: Self)
        ensures
            r@ == SessionModel::Idle,
    {
        SessionState::Idle
    }
}

/// Whether keys belong to the session `sess` even where they type nothing.
pub fn session_is_selecting_fast(sess: &SessionState) -> (r: bool)
    ensures
        r == sess@.holds_keys(),
{
    match sess {
        SessionState::Selecting { .. } => true,
        SessionState::SplitPreedit { .. } => true,
        _ => false,
    }
}

/// A copy of `blocks`.
fn clone_blocks(blocks: &Vec<SplitBlock>) -> (r: Vec<SplitBlock>)
    ensures
        views(r@) == views(blocks@),
{
    let r = blocks.clone();
    assert(views(r@) =~= views(blocks@));
    r
}

/// A new choice among `candidates` for `original_preedit`, the first one selected.
pub open spec fn fresh_choice(
    candidates: Seq<Seq<char>>,
    original_preedit: Seq<char>,
    pos_x: i32,
    pos_y: i32,
    llm_pending: bool,
) -> SelectingModel {
    SelectingModel {
        original_preedit,
        candidates,
        structured: Seq::empty(),
        selected: 0,
        page_size: PAGE_SIZE as int,
        llm_pending,
        pos_x,
        pos_y,
        punct_pending: None,
        prefix: Seq::empty(),
        prefix_reading: Seq::empty(),
        remainder: Seq::empty(),
        remainder_reading: Seq::empty(),
        prefix_blocks: Seq::empty(),
        suffix_blocks: Seq::empty(),
    }
}

/// The split composition of `blocks` with a selection moved to fit; one empty block
/// where there is none.
pub open spec fn split_of(blocks: Seq<SegmentView>, sel_start: int, sel_end: int) -> SplitModel {
    if blocks.len() == 0 {
        SplitModel {
            blocks: seq![SegmentView { reading: Seq::empty(), surface: Seq::empty() }],
            start: 0,
            end: 1,
            list: None,
        }
    } else {
        let start = clamped_start(blocks.len() as int, sel_start);
        SplitModel {
            blocks,
            start,
            end: clamped_end(blocks.len() as int, start, sel_end),
            list: None,
        }
    }
}

impl SessionState {
    /// Ends the composition.
    pub fn set_idle(&mut self)
        ensures
            final(self)@ == SessionModel::Idle,
    {
        *self = SessionState::Idle;
    }

    /// A reading is being typed.
    pub fn set_preedit(&mut self, text: String)
        ensures
            final(self)@ == (SessionModel::Preedit { text: text@ }),
    {
        *self = SessionState::Preedit { text };
    }

    /// Shows `preview` for `reading` while the user keeps typing.
    pub fn set_live_conv(&mut self, reading: String, preview: String)
        ensures
            final(self)@ == (SessionModel::LiveConv { reading: reading@, preview: preview@ }),
    {
        *self = SessionState::LiveConv { reading, preview };
    }

    /// Whether a live conversion is shown.
    pub fn is_live_conv(&self) -> (r: bool)
        ensures
            r == (self@ is LiveConv),
    {
        match self {
            SessionState::LiveConv { .. } => true,
            _ => false,
        }
    }

    /// Reading and preview of a live conversion.
    pub fn live_conv_parts(&self) -> (r: Option<(&str, &str)>)
        ensures
            match self@ {
                SessionModel::LiveConv { reading, preview } => r is Some && (r->0).0@ == reading
                    && (r->0).1@ == preview,
                _ => r is None,
            },
    {
        match self {
            SessionState::LiveConv { reading, preview } => Some(
                (reading.as_str(), preview.as_str()),
            ),
            _ => None,
        }
    }

    /// A conversion of `text` was asked for.
    pub fn set_waiting(&mut self, text: String, pos_x: i32, pos_y: i32)
        ensures
            final(self)@ == (SessionModel::Waiting {
                text: text@,
                pos_x,
                pos_y,
                remainder: Seq::empty(),
                remainder_reading: Seq::empty(),
            }),
    {
        *self =
        SessionState::Waiting {
            text,
            pos_x,
            pos_y,
            remainder: String::new(),
            remainder_reading: String::new(),
        };
    }

    /// A conversion of `text` was asked for, with `remainder` left out of it.
    pub fn set_waiting_with_affixes(
        &mut self,
        text: String,
        pos_x: i32,
        pos_y: i32,
        remainder: String,
        remainder_reading: String,
    )
        ensures
            final(self)@ == (SessionModel::Waiting {
                text: text@,
                pos_x,
                pos_y,
                remainder: remainder@,
                remainder_reading: remainder_reading@,
            }),
    {
        *self = SessionState::Waiting { text, pos_x, pos_y, remainder, remainder_reading };
    }

    /// Splits the composition into `blocks` and selects `blocks[sel_start..sel_end]`,
    /// at least one of them.
    pub fn set_split_preedit_blocks(
        &mut self,
        blocks: Vec<SplitBlock>,
        sel_start: usize,
        sel_end: usize,
    )
        ensures
            final(self)@ == SessionModel::Split(
                split_of(views(blocks@), sel_start as int, sel_end as int),
            ),
            final(self)@.wf(),
    {
        if blocks.len() == 0 {
            let mut one: Vec<SplitBlock> = Vec::new();
            one.push(SplitBlock { reading: String::new(), display: String::new() });
            *self =
            SessionState::SplitPreedit {
                blocks: one,
                sel_start: 0,
                sel_end: 1,
                candidate_view: None,
            };
            assert(self@->Split_0.blocks =~= split_of(
                views(blocks@),
                sel_start as int,
                sel_end as int,
            ).blocks);
        } else {
            let (start, end) = clamp_selection(blocks.len(), sel_start, sel_end);
            *self =
            SessionState::SplitPreedit {
                blocks,
                sel_start: start,
                sel_end: end,
                candidate_view: None,
            };
        }
    }

    /// Whether the composition is split into blocks.
    pub fn is_split_preedit(&self) -> (r: bool)
        ensures
            r == (self@ is Split),
    {
        match self {
            SessionState::SplitPreedit { .. } => true,
            _ => false,
        }
    }

    /// The split composition as segments, the selected blocks merged.
    pub fn split_conversion_clone(&self) -> (r: Option<ConversionState>)
        requires
            self@.wf(),
        ensures
            match self@ {
                SessionModel::Split(s) => r is Some && r->0@ == s.conversion() && r->0@.wf(),
                _ => r is None,
            },
    {
        match self {
            SessionState::SplitPreedit { blocks, sel_start, sel_end, candidate_view } => {
                match conversion_from_blocks(blocks, *sel_start, *sel_end) {
                    Some(c) => {
                        let mut c = c;
                        c.candidate_view =
                        match candidate_view {
                            Some(v) => Some(v.clone()),
                            None => None,
                        };
                        Some(c)
                    },
                    None => None,
                }
            },
            _ => None,
        }
    }

    /// Splits the composition as `conversion` does, its focused segment selected.
    pub fn set_split_conversion(&mut self, conversion: ConversionState)
        requires
            conversion@.wf(),
        ensures
            final(self)@ == SessionModel::Split(
                SplitModel {
                    blocks: conversion@.segments,
                    start: conversion@.focused,
                    end: conversion@.focused + 1,
                    list: conversion@.list,
                },
            ),
    {
        let blocks = segments_to_blocks(&conversion.segments);
        assert(conversion.focused_index < conversion.segments.len());
        *self =
        SessionState::SplitPreedit {
            blocks,
            sel_start: conversion.focused_index,
            sel_end: conversion.focused_index + 1,
            candidate_view: conversion.candidate_view,
        };
    }

    /// Whether candidates are shown for a selected block.
    pub fn split_candidate_active(&self) -> (r: bool)
        ensures
            r == (self@ is Split && self@->Split_0.list is Some),
    {
        match self {
            SessionState::SplitPreedit { candidate_view, .. } => candidate_view.is_some(),
            _ => false,
        }
    }

    /// Stops showing candidates for a selected block. False where none were shown.
    pub fn clear_split_candidate_view(&mut self) -> (r: bool)
        ensures
            r == (old(self)@ is Split && old(self)@->Split_0.list is Some),
            !r ==> final(self)@ == old(self)@,
            r ==> final(self)@ == SessionModel::Split(
                SplitModel { list: None, ..old(self)@->Split_0 },
            ),
    {
        if let SessionState::SplitPreedit { candidate_view, .. } = self {
            if candidate_view.is_some() {
                *candidate_view = None;
                return true;
            }
        }
        false
    }

    /// The reading of the selected blocks.
    pub fn split_target(&self) -> (r: Option<String>)
        requires
            self@.wf(),
        ensures
            match self@ {
                SessionModel::Split(s) => r is Some && r->0@ == s.conversion().target().reading,
                _ => r is None,
            },
    {
        match self.split_conversion_clone() {
            Some(c) => Some(c.reading_parts().1),
            None => None,
        }
    }

    /// The reading before the selected blocks.
    pub fn split_prefix(&self) -> (r: Option<String>)
        requires
            self@.wf(),
        ensures
            match self@ {
                SessionModel::Split(s) => r is Some && r->0@ == reading_of(
                    s.conversion().before(),
                ),
                _ => r is None,
            },
    {
        match self.split_conversion_clone() {
            Some(c) => Some(c.reading_parts().0),
            None => None,
        }
    }

    /// The reading after the selected blocks.
    pub fn split_remainder(&self) -> (r: Option<String>)
        requires
            self@.wf(),
        ensures
            match self@ {
                SessionModel::Split(s) => r is Some && r->0@ == reading_of(s.conversion().after()),
                _ => r is None,
            },
    {
        match self.split_conversion_clone() {
            Some(c) => Some(c.reading_parts().2),
            None => None,
        }
    }

    /// The shown text before the selected blocks.
    pub fn split_display_prefix(&self) -> (r: Option<String>)
        requires
            self@.wf(),
        ensures
            match self@ {
                SessionModel::Split(s) => r is Some && r->0@ == surface_of(
                    s.conversion().before(),
                ),
                _ => r is None,
            },
    {
        match self.split_conversion_clone() {
            Some(c) => Some(c.display_parts().0),
            None => None,
        }
    }

    /// The shown text of the selected blocks.
    pub fn split_display_target(&self) -> (r: Option<String>)
        requires
            self@.wf(),
        ensures
            match self@ {
                SessionModel::Split(s) => r is Some && r->0@ == s.conversion().target().surface,
                _ => r is None,
            },
    {
        match self.split_conversion_clone() {
            Some(c) => Some(c.display_parts().1),
            None => None,
        }
    }

    /// The shown text after the selected blocks.
    pub fn split_display_remainder(&self) -> (r: Option<String>)
        requires
            self@.wf(),
        ensures
            match self@ {
                SessionModel::Split(s) => r is Some && r->0@ == surface_of(s.conversion().after()),
                _ => r is None,
            },
    {
        match self.split_conversion_clone() {
            Some(c) => Some(c.display_parts().2),
            None => None,
        }
    }

    /// Left: moves the selection one block to the left, from the first block to the last one.
    pub fn split_move_left(&mut self) -> (r: bool)
        requires
            old(self)@.wf(),
        ensures
            r == (old(self)@ is Split),
            !r ==> final(self)@ == old(self)@,
            r ==> final(self)@ == SessionModel::Split(old(self)@->Split_0.moved_left()),
            final(self)@.wf(),
    {
        if let SessionState::SplitPreedit { blocks, sel_start, sel_end, candidate_view } = self {
            if *sel_start > 0 {
                *sel_start = *sel_start - 1;
                *sel_end = *sel_end - 1;
            } else if *sel_end < blocks.len() {
                *sel_start = blocks.len() - 1;
                *sel_end = blocks.len();
            }
            *candidate_view = None;
            return true;
        }
        false
    }

    /// Right: moves the selection one block to the right. False at the last block.
    pub fn split_move_right(&mut self) -> (r: bool)
        requires
            old(self)@.wf(),
        ensures
            r == (old(self)@ is Split && old(self)@->Split_0.end
                < old(self)@->Split_0.blocks.len()),
            !r ==> final(self)@ == old(self)@,
            r ==> final(self)@ == SessionModel::Split(
                old(self)@->Split_0.reselect(
                    old(self)@->Split_0.start + 1,
                    old(self)@->Split_0.end + 1,
                ),
            ),
            final(self)@.wf(),
    {
        if let SessionState::SplitPreedit { blocks, sel_start, sel_end, candidate_view } = self {
            if *sel_end < blocks.len() {
                *sel_start = *sel_start + 1;
                *sel_end = *sel_end + 1;
                *candidate_view = None;
                return true;
            }
        }
        false
    }

    /// Shift+Left: takes the last block out of the selection. False where only one
    /// block is selected.
    pub fn split_shrink(&mut self) -> (r: bool)
        requires
            old(self)@.wf(),
        ensures
            r == (old(self)@ is Split && old(self)@->Split_0.start + 1
                < old(self)@->Split_0.end),
            !r ==> final(self)@ == old(self)@,
            r ==> final(self)@ == SessionModel::Split(
                old(self)@->Split_0.reselect(
                    old(self)@->Split_0.start,
                    old(self)@->Split_0.end - 1,
                ),
            ),
            final(self)@.wf(),
    {
        if let SessionState::SplitPreedit { sel_start, sel_end, candidate_view, .. } = self {
            if *sel_start + 1 < *sel_end {
                *sel_end = *sel_end - 1;
                *candidate_view = None;
                return true;
            }
        }
        false
    }

    /// Shift+Right: takes the next block into the selection. False where there is
    /// none.
    pub fn split_extend(&mut self) -> (r: bool)
        requires
            old(self)@.wf(),
        ensures
            r == (old(self)@ is Split && old(self)@->Split_0.end
                < old(self)@->Split_0.blocks.len()),
            !r ==> final(self)@ == old(self)@,
            r ==> final(self)@ == SessionModel::Split(
                old(self)@->Split_0.reselect(
                    old(self)@->Split_0.start,
                    old(self)@->Split_0.end + 1,
                ),
            ),
            final(self)@.wf(),
    {
        if let SessionState::SplitPreedit { blocks, sel_end, candidate_view, .. } = self {
            if *sel_end < blocks.len() {
                *sel_end = *sel_end + 1;
                *candidate_view = None;
                return true;
            }
        }
        false
    }

    /// Offers `candidates` for `original_preedit`.
    pub fn activate_selecting(
        &mut self,
        candidates: Vec<String>,
        original_preedit: String,
        pos_x: i32,
        pos_y: i32,
        llm_pending: bool,
    )
        ensures
            final(self)@ == SessionModel::Selecting(
                fresh_choice(views(candidates@), original_preedit@, pos_x, pos_y, llm_pending),
            ),
            final(self)@.wf(),
    {
        let none: Vec<SplitBlock> = Vec::new();
        let none2: Vec<SplitBlock> = Vec::new();
        assert(views(none@) =~= Seq::empty());
        assert(views(none2@) =~= Seq::empty());
        self.activate_selecting_with_affixes(
            candidates,
            original_preedit,
            pos_x,
            pos_y,
            llm_pending,
            String::new(),
            String::new(),
            String::new(),
            String::new(),
            none,
            none2,
        );
    }

    /// Offers `candidates` for `original_preedit`, which stands between a prefix and
    /// a remainder.
    pub fn activate_selecting_with_affixes(
        &mut self,
        candidates: Vec<String>,
        original_preedit: String,
        pos_x: i32,
        pos_y: i32,
        llm_pending: bool,
        prefix: String,
        prefix_reading: String,
        remainder: String,
        remainder_reading: String,
        split_prefix_blocks: Vec<SplitBlock>,
        split_suffix_blocks: Vec<SplitBlock>,
    )
        ensures
            final(self)@ == SessionModel::Selecting(
                SelectingModel {
                    prefix: prefix@,
                    prefix_reading: prefix_reading@,
                    remainder: remainder@,
                    remainder_reading: remainder_reading@,
                    prefix_blocks: views(split_prefix_blocks@),
                    suffix_blocks: views(split_suffix_blocks@),
                    ..fresh_choice(
                        views(candidates@),
                        original_preedit@,
                        pos_x,
                        pos_y,
                        llm_pending,
                    )
                },
            ),
            final(self)@.wf(),
    {
        let structured_candidates: Vec<SegmentCandidate> = Vec::new();
        assert(views(structured_candidates@) =~= Seq::empty());
        *self =
        SessionState::Selecting {
            original_preedit,
            candidates,
            structured_candidates,
            selected: 0,
            page_size: PAGE_SIZE,
            llm_pending,
            pos_x,
            pos_y,
            punct_pending: None,
            prefix,
            prefix_reading,
            remainder,
            remainder_reading,
            split_prefix_blocks,
            split_suffix_blocks,
        };
    }

    /// Puts the candidates of a finished conversion in the place of those that are
    /// offered, the first one selected. Nothing happens where no choice is open.
    pub fn refresh_candidates(&mut self, merged: Vec<String>)
        ensures
            match old(self)@ {
                SessionModel::Selecting(s) => final(self)@ == SessionModel::Selecting(
                    s.refreshed(views(merged@)),
                ),
                _ => final(self)@ == old(self)@,
            },
            old(self)@.wf() ==> final(self)@.wf(),
    {
        if let SessionState::Selecting { candidates, selected, llm_pending, .. } = self {
            *candidates = merged;
            *selected = 0;
            *llm_pending = false;
        }
    }

    /// Whether a choice among candidates is open.
    pub fn is_selecting(&self) -> (r: bool)
        ensures
            r == (self@ is Selecting),
    {
        match self {
            SessionState::Selecting { .. } => true,
            _ => false,
        }
    }

    /// Whether the open choice still waits for a conversion.
    pub fn is_llm_pending(&self) -> (r: bool)
        ensures
            r == (self@ is Selecting && self@->Selecting_0.llm_pending),
    {
        match self {
            SessionState::Selecting { llm_pending, .. } => *llm_pending,
            _ => false,
        }
    }

    /// Whether a list of candidates is shown.
    pub fn is_candidate_list_active(&self) -> (r: bool)
        ensures
            r == (self@ is Selecting || (self@ is Split && self@->Split_0.list is Some)),
    {
        self.is_selecting() || self.split_candidate_active()
    }

    /// Whether a conversion was asked for and has not come back.
    pub fn is_waiting(&self) -> (r: bool)
        ensures
            r == (self@ is Waiting),
    {
        match self {
            SessionState::Waiting { .. } => true,
            _ => false,
        }
    }

    /// Whether a reading is being typed.
    pub fn is_preedit(&self) -> (r: bool)
        ensures
            r == (self@ is Preedit),
    {
        match self {
            SessionState::Preedit { .. } => true,
            _ => false,
        }
    }

    /// The text that the composition shows.
    pub fn preedit_text(&self) -> (r: Option<&str>)
        ensures
            option_view(r) == self@.shown(),
    {
        match self {
            SessionState::Preedit { text } => Some(text.as_str()),
            SessionState::Waiting { text, .. } => Some(text.as_str()),
            SessionState::Selecting { original_preedit, .. } => Some(original_preedit.as_str()),
            SessionState::SplitPreedit { .. } => None,
            SessionState::LiveConv { preview, .. } => Some(preview.as_str()),
            SessionState::RangeSelect { full_reading, .. } => Some(full_reading.as_str()),
            SessionState::Idle => None,
        }
    }

    /// Text and window position of a conversion that has not come back.
    pub fn waiting_info(&self) -> (r: Option<(&str, i32, i32)>)
        ensures
            match self@ {
                SessionModel::Waiting { text, pos_x, pos_y, .. } => r is Some && (r->0).0@ == text
                    && (r->0).1 == pos_x && (r->0).2 == pos_y,
                _ => r is None,
            },
    {
        match self {
            SessionState::Waiting { text, pos_x, pos_y, .. } => Some(
                (text.as_str(), *pos_x, *pos_y),
            ),
            _ => None,
        }
    }

    /// The selected candidate.
    pub fn current_candidate(&self) -> (r: Option<&str>)
        ensures
            option_view(r) == self@.current(),
    {
        match self {
            SessionState::Selecting { candidates, selected, .. } => if *selected
                < candidates.len() {
                Some(candidates[*selected].as_str())
            } else {
                None
            },
            SessionState::SplitPreedit { candidate_view, .. } => match candidate_view {
                Some(view) => if view.selected < view.candidates.len() {
                    Some(view.candidates[view.selected].surface.as_str())
                } else {
                    None
                },
                None => None,
            },
            _ => None,
        }
    }

    /// The selected candidate, else what the user typed, else an empty text.
    pub fn current_or_original(&self) -> (r: String)
        ensures
            r@ == self@.current_or_original(),
    {
        match self.current_candidate() {
            Some(c) => c.to_owned(),
            None => match self.original_preedit() {
                Some(t) => t.to_owned(),
                None => String::new(),
            },
        }
    }

    /// The selected candidate with its segmentation.
    pub fn current_structured_candidate_clone(&self) -> (r: Option<SegmentCandidate>)
        ensures
            match self@ {
                SessionModel::Selecting(s) => option_view(r) == (if 0 <= s.selected
                    < s.structured.len() {
                    Some(s.structured[s.selected])
                } else {
                    None
                }),
                SessionModel::Split(s) => option_view(r) == (match s.list {
                    Some(l) => if 0 <= l.selected < l.items.len() {
                        Some(l.items[l.selected])
                    } else {
                        None
                    },
                    None => None,
                }),
                _ => r is None,
            },
    {
        match self {
            SessionState::Selecting { structured_candidates, selected, .. } => if *selected
                < structured_candidates.len() {
                Some(structured_candidates[*selected].clone())
            } else {
                None
            },
            SessionState::SplitPreedit { candidate_view, .. } => match candidate_view {
                Some(view) => if view.selected < view.candidates.len() {
                    Some(view.candidates[view.selected].clone())
                } else {
                    None
                },
                None => None,
            },
            _ => None,
        }
    }

    /// The text that the user typed.
    pub fn original_preedit(&self) -> (r: Option<&str>)
        ensures
            option_view(r) == self@.original(),
    {
        match self {
            SessionState::Selecting { original_preedit, .. } => Some(original_preedit.as_str()),
            SessionState::Preedit { text } => Some(text.as_str()),
            SessionState::Waiting { text, .. } => Some(text.as_str()),
            SessionState::SplitPreedit { .. } => None,
            SessionState::LiveConv { reading, .. } => Some(reading.as_str()),
            SessionState::RangeSelect { full_reading, .. } => Some(full_reading.as_str()),
            SessionState::Idle => None,
        }
    }

    /// Takes the remainder out of an open choice; empty elsewhere.
    pub fn take_selecting_remainder(&mut self) -> (r: String)
        ensures
            match old(self)@ {
                SessionModel::Selecting(s) => r@ == s.remainder && final(self)@
                    == SessionModel::Selecting(SelectingModel { remainder: Seq::empty(), ..s }),
                _ => r@ == Seq::<char>::empty() && final(self)@ == old(self)@,
            },
            old(self)@.wf() ==> final(self)@.wf(),
    {
        if let SessionState::Selecting { remainder, .. } = self {
            let r = remainder.clone();
            *remainder = String::new();
            return r;
        }
        String::new()
    }

    /// The remainder of an open choice; empty elsewhere.
    pub fn selecting_remainder_clone(&self) -> (r: String)
        ensures
            r@ == (if self@ is Selecting {
                self@->Selecting_0.remainder
            } else {
                Seq::empty()
            }),
    {
        match self {
            SessionState::Selecting { remainder, .. } => remainder.clone(),
            _ => String::new(),
        }
    }

    /// The reading of the remainder of an open choice; empty elsewhere.
    pub fn selecting_remainder_reading_clone(&self) -> (r: String)
        ensures
            r@ == (if self@ is Selecting {
                self@->Selecting_0.remainder_reading
            } else {
                Seq::empty()
            }),
    {
        match self {
            SessionState::Selecting { remainder_reading, .. } => remainder_reading.clone(),
            _ => String::new(),
        }
    }

    /// The prefix of an open choice; empty elsewhere.
    pub fn selecting_prefix_clone(&self) -> (r: String)
        ensures
            r@ == (if self@ is Selecting {
                self@->Selecting_0.prefix
            } else {
                Seq::empty()
            }),
    {
        match self {
            SessionState::Selecting { prefix, .. } => prefix.clone(),
            _ => String::new(),
        }
    }

    /// The reading of the prefix of an open choice; empty elsewhere.
    pub fn selecting_prefix_reading_clone(&self) -> (r: String)
        ensures
            r@ == (if self@ is Selecting {
                self@->Selecting_0.prefix_reading
            } else {
                Seq::empty()
            }),
    {
        match self {
            SessionState::Selecting { prefix_reading, .. } => prefix_reading.clone(),
            _ => String::new(),
        }
    }

    /// The blocks before an open choice; none elsewhere.
    pub fn selecting_prefix_blocks_clone(&self) -> (r: Vec<SplitBlock>)
        ensures
            views(r@) == (if self@ is Selecting {
                self@->Selecting_0.prefix_blocks
            } else {
                Seq::empty()
            }),
    {
        match self {
            SessionState::Selecting { split_prefix_blocks, .. } => clone_blocks(
                split_prefix_blocks,
            ),
            _ => {
                let none: Vec<SplitBlock> = Vec::new();
                assert(views(none@) =~= Seq::empty());
                none
            },
        }
    }

    /// The blocks after an open choice; none elsewhere.
    pub fn selecting_suffix_blocks_clone(&self) -> (r: Vec<SplitBlock>)
        ensures
            views(r@) == (if self@ is Selecting {
                self@->Selecting_0.suffix_blocks
            } else {
                Seq::empty()
            }),
    {
        match self {
            SessionState::Selecting { split_suffix_blocks, .. } => clone_blocks(
                split_suffix_blocks,
            ),
            _ => {
                let none: Vec<SplitBlock> = Vec::new();
                assert(views(none@) =~= Seq::empty());
                none
            },
        }
    }

    /// Number of the open page, counted from 0.
    pub fn current_page(&self) -> (r: usize)
        requires
            self@.wf(),
        ensures
            r == self@.page_number(),
    {
        match self {
            SessionState::Selecting { selected, page_size, .. } => *selected / *page_size,
            SessionState::SplitPreedit { candidate_view, .. } => match candidate_view {
                Some(view) => view.selected / view.page_size,
                None => 0,
            },
            _ => 0,
        }
    }

    /// Number of pages.
    pub fn total_pages(&self) -> (r: usize)
        requires
            self@.wf(),
        ensures
            r == self@.page_total(),
    {
        match self {
            SessionState::Selecting { candidates, page_size, .. } => pages(
                candidates.len(),
                *page_size,
            ),
            SessionState::SplitPreedit { candidate_view, .. } => match candidate_view {
                Some(view) => pages(view.candidates.len(), view.page_size),
                None => 0,
            },
            _ => 0,
        }
    }

    /// The candidates on the open page.
    pub fn page_candidates(&self) -> (r: Vec<String>)
        requires
            self@.wf(),
        ensures
            views(r@) == self@.page(),
    {
        let mut r: Vec<String> = Vec::new();
        assert(views(r@) =~= Seq::empty());
        match self {
            SessionState::Selecting { candidates, selected, page_size, .. } => {
                if candidates.len() > 0 {
                    proof {
                        paging::lemma_page_start_bounds(*selected as int, *page_size as int);
                    }
                    let (start, end) = page_range(candidates.len(), *selected, *page_size);
                    let mut i: usize = start;
                    while i < end
                        invariant
                            start <= i <= end <= candidates@.len(),
                            r@.len() == i - start,
                            forall|j: int|
                                0 <= j < r@.len() ==> (#[trigger] r@[j])@ == candidates@[start
                                    + j]@,
                        decreases end - i,
                    {
                        r.push(candidates[i].clone());
                        i += 1;
                    }
                    assert(views(r@) =~= self@->Selecting_0.page());
                }
            },
            SessionState::SplitPreedit { candidate_view, .. } => {
                if let Some(view) = candidate_view {
                    if view.candidates.len() > 0 {
                        proof {
                            paging::lemma_page_start_bounds(view@.selected, view@.page_size);
                        }
                        let (start, end) = page_range(
                            view.candidates.len(),
                            view.selected,
                            view.page_size,
                        );
                        let mut i: usize = start;
                        while i < end
                            invariant
                                start <= i <= end <= view.candidates@.len(),
                                r@.len() == i - start,
                                forall|j: int|
                                    0 <= j < r@.len() ==> (#[trigger] r@[j])@ == view@.items[start
                                        + j].surface,
                            decreases end - i,
                        {
                            r.push(view.candidates[i].surface.clone());
                            i += 1;
                        }
                        assert(views(r@) =~= view@.page());
                    }
                }
            },
            _ => {},
        }
        r
    }

    /// Place of the selection on the open page.
    pub fn page_selected(&self) -> (r: usize)
        requires
            self@.wf(),
        ensures
            r == self@.page_place(),
    {
        match self {
            SessionState::Selecting { selected, page_size, .. } => *selected % *page_size,
            SessionState::SplitPreedit { candidate_view, .. } => match candidate_view {
                Some(view) => view.selected % view.page_size,
                None => 0,
            },
            _ => 0,
        }
    }

    /// The text that shows which page is open, empty for a single page.
    pub fn page_info(&self) -> (r: String)
        requires
            self@.wf(),
        ensures
            r@ == page_info_text(self@.page_number(), self@.page_total()),
    {
        proof {
            match self@ {
                SessionModel::Selecting(s) => {
                    if s.candidates.len() > 0 {
                        paging::lemma_page_in_range(
                            s.candidates.len() as int,
                            s.selected,
                            s.page_size,
                        );
                    }
                },
                SessionModel::Split(s) => {
                    if s.list is Some && s.list->0.items.len() > 0 {
                        let l = s.list->0;
                        paging::lemma_page_in_range(l.items.len() as int, l.selected, l.page_size);
                    }
                },
                _ => {},
            }
        }
        paging::page_info(self.current_page(), self.total_pages())
    }

    fn select(&mut self, idx: usize)
        ensures
            final(self)@ == old(self)@.select(idx as int),
    {
        match self {
            SessionState::Selecting { selected, .. } => {
                *selected = idx;
            },
            SessionState::SplitPreedit { candidate_view, .. } => {
                if let Some(view) = candidate_view {
                    view.selected = idx;
                }
            },
            _ => {},
        }
    }

    /// Length and selection of the list that is shown, and its page size.
    fn list_shape(&self) -> (r: Option<(usize, usize, usize)>)
        ensures
            self@.list_shape() == (match r {
                Some(t) => Some((t.0 as int, t.1 as int, t.2 as int)),
                None => None,
            }),
    {
        match self {
            SessionState::Selecting { candidates, selected, page_size, .. } => Some(
                (candidates.len(), *selected, *page_size),
            ),
            SessionState::SplitPreedit { candidate_view, .. } => match candidate_view {
                Some(view) => Some((view.candidates.len(), view.selected, view.page_size)),
                None => None,
            },
            _ => None,
        }
    }

    /// Selects the next candidate, the first one after the last.
    pub fn next_with_page_wrap(&mut self)
        requires
            old(self)@.wf(),
        ensures
            final(self)@ == old(self)@.move_selection(
                |len: int, sel: int, size: int| next_index(len, sel),
            ),
            final(self)@.wf(),
    {
        if let Some((len, selected, page_size)) = self.list_shape() {
            if len > 0 {
                let next: usize = next_with_wrap(len, selected, page_size);
                self.select(next);
            }
        }
    }

    /// Selects the previous candidate, the last one before the first.
    pub fn prev(&mut self)
        requires
            old(self)@.wf(),
        ensures
            final(self)@ == old(self)@.move_selection(
                |len: int, sel: int, size: int| prev_index(len, sel),
            ),
            final(self)@.wf(),
    {
        if let Some((len, selected, _)) = self.list_shape() {
            if len > 0 {
                let prev: usize = prev_with_wrap(len, selected);
                self.select(prev);
            }
        }
    }

    /// Selects the first candidate of the next page.
    pub fn next_page(&mut self)
        requires
            old(self)@.wf(),
        ensures
            final(self)@ == old(self)@.move_selection(
                |len: int, sel: int, size: int| next_page_index(len, sel, size),
            ),
            final(self)@.wf(),
    {
        if let Some((len, selected, page_size)) = self.list_shape() {
            if len > 0 {
                let next: usize = next_page_start(len, selected, page_size);
                self.select(next);
            }
        }
    }

    /// Selects the first candidate of the previous page.
    pub fn prev_page(&mut self)
        requires
            old(self)@.wf(),
        ensures
            final(self)@ == old(self)@.move_selection(
                |len: int, sel: int, size: int| prev_page_index(len, sel, size),
            ),
            final(self)@.wf(),
    {
        if let Some((len, selected, page_size)) = self.list_shape() {
            if len > 0 {
                let prev: usize = prev_page_start(len, selected, page_size);
                self.select(prev);
            }
        }
    }

    /// Selects the `n`-th candidate of the open page, counted from 1. False where
    /// the list has none there.
    pub fn select_nth_in_page(&mut self, n: usize) -> (r: bool)
        requires
            old(self)@.wf(),
        ensures
            r == old(self)@.has_nth(n as int),
            !r ==> final(self)@ == old(self)@,
            r ==> final(self)@ == old(self)@.nth_selected(n as int),
            final(self)@.wf(),
    {
        if let Some((len, selected, page_size)) = self.list_shape() {
            match nth_in_page(len, selected, page_size, n) {
                Some(idx) => {
                    proof {
                        paging::lemma_page_start_bounds(selected as int, page_size as int);
                    }
                    self.select(idx);
                    true
                },
                None => false,
            }
        } else {
            false
        }
    }

    /// Keeps punctuation to be put behind the candidate when it is committed.
    pub fn set_punct_pending(&mut self, c: char)
        ensures
            match old(self)@ {
                SessionModel::Selecting(s) => final(self)@ == SessionModel::Selecting(
                    SelectingModel { punct_pending: Some(c), ..s },
                ),
                _ => final(self)@ == old(self)@,
            },
            old(self)@.wf() ==> final(self)@.wf(),
    {
        if let SessionState::Selecting { punct_pending, .. } = self {
            *punct_pending = Some(c);
        }
    }

    /// Takes the kept punctuation.
    pub fn take_punct_pending(&mut self) -> (r: Option<char>)
        ensures
            match old(self)@ {
                SessionModel::Selecting(s) => r == s.punct_pending && final(self)@
                    == SessionModel::Selecting(SelectingModel { punct_pending: None, ..s }),
                _ => r is None && final(self)@ == old(self)@,
            },
            old(self)@.wf() ==> final(self)@.wf(),
    {
        if let SessionState::Selecting { punct_pending, .. } = self {
            let r = *punct_pending;
            *punct_pending = None;
            return r;
        }
        None
    }

    /// Window position of an open choice.
    pub fn selecting_pos(&self) -> (r: Option<(i32, i32)>)
        ensures
            r == (if self@ is Selecting {
                Some((self@->Selecting_0.pos_x, self@->Selecting_0.pos_y))
            } else {
                None
            }),
    {
        match self {
            SessionState::Selecting { pos_x, pos_y, .. } => Some((*pos_x, *pos_y)),
            _ => None,
        }
    }

    /// Marks the first `select_end` characters of `full_reading` for conversion.
    pub fn set_range_select(
        &mut self,
        full_reading: String,
        select_end: usize,
        original_preview: String,
    )
        ensures
            final(self)@ == (SessionModel::RangeSelect {
                full_reading: full_reading@,
                select_end: select_end as int,
                original_preview: original_preview@,
            }),
    {
        *self = SessionState::RangeSelect { full_reading, select_end, original_preview };
    }

    /// Whether a range of the reading is being marked.
    pub fn is_range_select(&self) -> (r: bool)
        ensures
            r == (self@ is RangeSelect),
    {
        match self {
            SessionState::RangeSelect { .. } => true,
            _ => false,
        }
    }

    /// The marked and the unmarked part of the reading.
    pub fn range_select_parts(&self) -> (r: Option<(String, String)>)
        requires
            self@.wf(),
        ensures
            match self@ {
                SessionModel::RangeSelect { full_reading, select_end, .. } => r is Some
                    && (r->0).0@ == full_reading.take(select_end) && (r->0).1@ == full_reading.skip(
                    select_end,
                ),
                _ => r is None,
            },
    {
        match self {
            SessionState::RangeSelect { full_reading, select_end, .. } => {
                let chars = chars_of(full_reading.as_str());
                let head = string_of(&chars, 0, *select_end);
                let tail = string_of(&chars, *select_end, chars.len());
                Some((head, tail))
            },
            _ => None,
        }
    }

    /// Unmarks the last marked character. False where one is marked, or none.
    pub fn range_select_shrink(&mut self) -> (r: bool)
        requires
            old(self)@.wf(),
        ensures
            r == (old(self)@ is RangeSelect && old(self)@->select_end > 1),
            !r ==> final(self)@ == old(self)@,
            r ==> final(self)@ == old(self)@.with_select_end(old(self)@->select_end - 1),
            final(self)@.wf(),
    {
        if let SessionState::RangeSelect { select_end, .. } = self {
            if *select_end > 1 {
                *select_end = *select_end - 1;
                return true;
            }
        }
        false
    }

    /// Marks one more character. False where all are marked.
    pub fn range_select_extend(&mut self) -> (r: bool)
        requires
            old(self)@.wf(),
        ensures
            r == (old(self)@ is RangeSelect && old(self)@->select_end
                < old(self)@->full_reading.len()),
            !r ==> final(self)@ == old(self)@,
            r ==> final(self)@ == old(self)@.with_select_end(old(self)@->select_end + 1),
            final(self)@.wf(),
    {
        if let SessionState::RangeSelect { full_reading, select_end, .. } = self {
            if *select_end < full_reading.as_str().unicode_len() {
                *select_end = *select_end + 1;
                return true;
            }
        }
        false
    }
}

impl SessionModel {
    /// Length and selection of the list that is shown, and its page size.
    pub open spec fn list_shape(self) -> Option<(int, int, int)> {
        match self {
            SessionModel::Selecting(s) => Some(
                (s.candidates.len() as int, s.selected, s.page_size),
            ),
            SessionModel::Split(s) => match s.list {
                Some(l) => Some((l.items.len() as int, l.selected, l.page_size)),
                None => None,
            },
            _ => None,
        }
    }

    /// The same session with another candidate selected.
    pub open spec fn select(self, idx: int) -> SessionModel {
        match self {
            SessionModel::Selecting(s) => SessionModel::Selecting(s.select(idx)),
            SessionModel::Split(s) => SessionModel::Split(
                SplitModel {
                    list: match s.list {
                        Some(l) => Some(l.select(idx)),
                        None => None,
                    },
                    ..s
                },
            ),
            _ => self,
        }
    }

    /// The selection moved by `f`, from length, selection and page size; the same
    /// session where no candidate is shown.
    pub open spec fn move_selection(self, f: spec_fn(int, int, int) -> int) -> SessionModel {
        match self.list_shape() {
            Some((len, selected, page_size)) => if len > 0 {
                self.select(f(len, selected, page_size))
            } else {
                self
            },
            None => self,
        }
    }

    /// Whether the open page has an `n`-th candidate, counted from 1.
    pub open spec fn has_nth(self, n: int) -> bool {
        match self.list_shape() {
            Some((len, selected, page_size)) => n >= 1 && page_start(selected, page_size) + (n - 1)
                < len,
            None => false,
        }
    }

    /// The session with the `n`-th candidate of the open page selected.
    pub open spec fn nth_selected(self, n: int) -> SessionModel {
        match self.list_shape() {
            Some((len, selected, page_size)) => self.select(
                page_start(selected, page_size) + (n - 1),
            ),
            None => self,
        }
    }

    /// Number of the open page, counted from 0.
    pub open spec fn page_number(self) -> int {
        match self.list_shape() {
            Some((len, selected, page_size)) => selected / page_size,
            None => 0,
        }
    }

    /// Number of pages.
    pub open spec fn page_total(self) -> int {
        match self.list_shape() {
            Some((len, selected, page_size)) => page_count(len, page_size),
            None => 0,
        }
    }

    /// Place of the selection on the open page.
    pub open spec fn page_place(self) -> int {
        match self.list_shape() {
            Some((len, selected, page_size)) => selected % page_size,
            None => 0,
        }
    }

    /// The candidates on the open page.
    pub open spec fn page(self) -> Seq<Seq<char>> {
        match self {
            SessionModel::Selecting(s) => s.page(),
            SessionModel::Split(s) => match s.list {
                Some(l) => l.page(),
                None => Seq::empty(),
            },
            _ => Seq::empty(),
        }
    }

    /// The same range selection with another end.
    pub open spec fn with_select_end(self, end: int) -> SessionModel {
        match self {
            SessionModel::RangeSelect { full_reading, original_preview, .. } =>
                SessionModel::RangeSelect { full_reading, select_end: end, original_preview },
            _ => self,
        }
    }
}

/// Whatever blocks are selected, the split composition reads and shows the same text.
pub proof fn selection_keeps_text(s: SplitModel)
    requires
        s.wf(),
    ensures
        reading_of(s.conversion().segments) == reading_of(s.blocks),
        surface_of(s.conversion().segments) == surface_of(s.blocks),
        reading_of(s.conversion().before()) + s.conversion().target().reading + reading_of(
            s.conversion().after(),
        ) == reading_of(s.blocks),
        surface_of(s.conversion().before()) + s.conversion().target().surface + surface_of(
            s.conversion().after(),
        ) == surface_of(s.blocks),
{
    let c = s.conversion();
    let head = s.blocks.take(s.start);
    let mid = s.blocks.subrange(s.start, s.end);
    let tail = s.blocks.skip(s.end);
    let m = merged(s.blocks, s.start, s.end);
    assert(s.blocks == head + mid + tail);
    lemma_join(head + mid, tail);
    lemma_join(head, mid);
    assert(c.segments == head + seq![m] + tail);
    lemma_join(head + seq![m], tail);
    lemma_join(head, seq![m]);
    lemma_join_one(m);
    assert(c.before() == head);
    assert(c.after() == tail);
    assert(c.target() == m);
}

/// Moving the selection right and left again, or taking a block in and out again,
/// gives back the selection; and so the other way round.
pub proof fn split_moves_are_inverse(s: SplitModel)
    requires
        s.wf(),
        s.list is None,
    ensures
        s.end < s.blocks.len() ==> s.reselect(s.start + 1, s.end + 1).reselect(s.start, s.end) == s
            && s.reselect(s.start + 1, s.end + 1).wf() && s.reselect(s.start, s.end + 1).wf(),
        s.end < s.blocks.len() ==> s.reselect(s.start + 1, s.end + 1).moved_left() == s,
        s.start > 0 ==> s.moved_left().reselect(s.start, s.end) == s && s.moved_left().wf()
            && s.moved_left().end < s.blocks.len(),
        s.start + 1 < s.end ==> s.reselect(s.start, s.end - 1).reselect(s.start, s.end) == s
            && s.reselect(s.start, s.end - 1).wf(),
{
}

/// Moving left from the first segment of a split composition leads to its last one, and
/// reads and shows the same text.
pub proof fn left_of_first_is_last(s: SplitModel)
    requires
        s.wf(),
        s.start == 0,
    ensures
        s.moved_left().wf(),
        s.moved_left().conversion().target() == s.conversion().segments.last(),
        reading_of(s.moved_left().conversion().segments) == reading_of(s.conversion().segments),
        surface_of(s.moved_left().conversion().segments) == surface_of(s.conversion().segments),
{
    let n = s.blocks.len() as int;
    let left = s.moved_left();
    selection_keeps_text(s);
    selection_keeps_text(left);
    if s.end < n {
        let last = s.blocks.last();
        assert(s.blocks.subrange(n - 1, n) =~= seq![last]);
        lemma_join_one(last);
        assert(s.conversion().segments.last() == s.blocks.skip(s.end).last());
    }
}

/// A conversion that was made the split composition is read back as it was.
pub proof fn split_conversion_round_trip(c: ConversionModel)
    requires
        c.wf(),
    ensures
        (SplitModel {
            blocks: c.segments,
            start: c.focused,
            end: c.focused + 1,
            list: c.list,
        }).conversion() == c,
{
    let f = c.focused;
    let mid = c.segments.subrange(f, f + 1);
    assert(mid == seq![c.segments[f]]);
    lemma_join_one(c.segments[f]);
    assert(merged(c.segments, f, f + 1) == c.segments[f]);
    assert(windowed(c.segments, f, f + 1).segments =~= c.segments);
}

/// The marked and the unmarked part make up the whole reading.
pub proof fn range_parts_make_reading(s: SessionModel)
    requires
        s is RangeSelect,
        s.wf(),
    ensures
        s->full_reading.take(s->select_end) + s->full_reading.skip(s->select_end)
            == s->full_reading,
{
}

/// The open page of a choice holds the selected candidate and those around it, from the
/// multiple of the page size before it on; it is full unless the list ends.
pub proof fn open_page_holds_selection(s: SelectingModel)
    requires
        s.wf(),
        s.candidates.len() > 0,
    ensures
        ({
            let place = s.selected % s.page_size;
            let first = s.selected - place;
            let page = s.page();
            &&& s.current() == Some(s.candidates[s.selected])
            &&& 0 <= place < page.len() <= s.page_size
            &&& page[place] == s.candidates[s.selected]
            &&& page == s.candidates.subrange(first, first + page.len())
            &&& page.len() == s.page_size || first + page.len() == s.candidates.len()
        }),
        SessionModel::Selecting(s).page() == s.page(),
        SessionModel::Selecting(s).page_place() == s.selected % s.page_size,
        SessionModel::Selecting(s).current() == s.current(),
        SessionModel::Selecting(s).current_or_original() == s.candidates[s.selected],
{
    paging::pages_are_filled(s.candidates.len() as int, s.selected, s.page_size);
}

/// The same holds of the candidates for a block of a split composition.
pub proof fn open_page_holds_block_selection(s: SplitModel)
    requires
        s.wf(),
        s.list is Some,
        s.list->0.items.len() > 0,
    ensures
        ({
            let l = s.list->0;
            let place = l.selected % l.page_size;
            let first = l.selected - place;
            let page = SessionModel::Split(s).page();
            &&& SessionModel::Split(s).current() == Some(l.items[l.selected].surface)
            &&& SessionModel::Split(s).current_or_original() == l.items[l.selected].surface
            &&& SessionModel::Split(s).page_place() == place
            &&& 0 <= place < page.len() <= l.page_size
            &&& forall|i: int|
                0 <= i < page.len() ==> #[trigger] page[i] == l.items[first + i].surface
            &&& page.len() == l.page_size || first + page.len() == l.items.len()
        }),
{
    let l = s.list->0;
    paging::pages_are_filled(l.items.len() as int, l.selected, l.page_size);
}

/// What was typed is not forgotten in any session: the reading of a live preview, the whole
/// reading of a marked range, and what a choice or a conversion was asked for.
pub proof fn typed_text_is_known(text: Seq<char>, other: Seq<char>, s: SelectingModel, end: int)
    ensures
        (SessionModel::Preedit { text }).original() == Some(text),
        (SessionModel::LiveConv { reading: text, preview: other }).original() == Some(text),
        (SessionModel::LiveConv { reading: text, preview: other }).shown() == Some(other),
        (SessionModel::RangeSelect {
            full_reading: text,
            select_end: end,
            original_preview: other,
        }).original() == Some(text),
        SessionModel::Selecting(s).original() == Some(s.original_preedit),
        SessionModel::Selecting(s).holds_keys(),
        s.candidates.len() == 0 ==> SessionModel::Selecting(s).current_or_original()
            == s.original_preedit,
        SessionModel::Idle.original() is None,
        !SessionModel::Idle.holds_keys(),
{
}

/// However a selection of blocks is asked for, all blocks are kept, at least one of them is
/// selected, and a selection that fits is taken as it is.
pub proof fn asked_selection_is_made_to_fit(blocks: Seq<SegmentView>, start: int, end: int)
    requires
        0 <= start,
        0 <= end,
    ensures
        split_of(blocks, start, end).wf(),
        blocks.len() > 0 ==> split_of(blocks, start, end).blocks == blocks,
        0 <= start < end <= blocks.len() ==> split_of(blocks, start, end).start == start
            && split_of(blocks, start, end).end == end,
        split_of(blocks, start, end).list is None,
        blocks.len() == 0 ==> reading_of(split_of(blocks, start, end).blocks).len() == 0,
        blocks.len() > 0 && start >= blocks.len() ==> split_of(blocks, start, end).start
            == blocks.len() - 1,
{
    if blocks.len() == 0 {
        lemma_join_one(SegmentView { reading: Seq::empty(), surface: Seq::empty() });
    }
}

/// A new choice offers all its candidates with the first one selected, and keeps what it was
/// asked for; new candidates take the place of all others.
pub proof fn new_choice_offers_everything(
    items: Seq<Seq<char>>,
    typed: Seq<char>,
    x: i32,
    y: i32,
    pending: bool,
    s: SelectingModel,
)
    ensures
        ({
            let c = fresh_choice(items, typed, x, y, pending);
            &&& c.wf()
            &&& c.candidates == items && c.original_preedit == typed
            &&& c.selected == 0 && c.page_size == 9
            &&& c.llm_pending == pending && c.pos_x == x && c.pos_y == y
            &&& c.punct_pending is None
            &&& c.prefix.len() == 0 && c.remainder.len() == 0
            &&& c.prefix_reading.len() == 0 && c.remainder_reading.len() == 0
        }),
        s.refreshed(items) == (SelectingModel {
            candidates: items,
            selected: 0,
            llm_pending: false,
            ..s
        }),
{
}

/// Moving the selection changes nothing but the selection: it goes where the keys lead it from
/// where it is, in the list that is shown. Where there is no candidate nothing changes.
pub proof fn moving_changes_the_selection_alone(
    s: SelectingModel,
    split: SplitModel,
    text: Seq<char>,
    f: spec_fn(int, int, int) -> int,
)
    ensures
        s.candidates.len() > 0 ==> SessionModel::Selecting(s).move_selection(f)
            == SessionModel::Selecting(
            SelectingModel {
                selected: f(s.candidates.len() as int, s.selected, s.page_size),
                ..s
            },
        ),
        s.candidates.len() == 0 ==> SessionModel::Selecting(s).move_selection(f)
            == SessionModel::Selecting(s),
        split.list is None || split.list->0.items.len() == 0 ==> SessionModel::Split(
            split,
        ).move_selection(f) == SessionModel::Split(split),
        split.list is Some && split.list->0.items.len() > 0 ==> SessionModel::Split(
            split,
        ).move_selection(f) == SessionModel::Split(
            SplitModel {
                list: Some(
                    CandidateList {
                        selected: f(
                            split.list->0.items.len() as int,
                            split.list->0.selected,
                            split.list->0.page_size,
                        ),
                        ..split.list->0
                    },
                ),
                ..split
            },
        ),
        (SessionModel::Preedit { text }).move_selection(f) == (SessionModel::Preedit { text }),
        SessionModel::Idle.move_selection(f) == SessionModel::Idle,
{
}

/// A number selects the candidate that stands at its place on the open page, and none where the
/// list is over before.
pub proof fn number_selects_on_the_open_page(s: SelectingModel, n: int)
    requires
        s.wf(),
        s.candidates.len() > 0,
    ensures
        ({
            let sess = SessionModel::Selecting(s);
            let at = s.selected - s.selected % s.page_size + n - 1;
            &&& sess.has_nth(n) <==> n >= 1 && at < s.candidates.len()
            &&& sess.has_nth(n) ==> sess.nth_selected(n) == SessionModel::Selecting(
                SelectingModel { selected: at, ..s },
            ) && sess.nth_selected(n).current() == Some(s.candidates[at])
            &&& 1 <= n <= sess.page().len() ==> sess.has_nth(n) && sess.nth_selected(n).current()
                == Some(sess.page()[n - 1])
            &&& sess.page_number() * s.page_size <= s.selected < (sess.page_number() + 1)
                * s.page_size
        }),
{
    paging::pages_are_filled(s.candidates.len() as int, s.selected, s.page_size);
    let q = s.selected / s.page_size;
    let r = s.selected % s.page_size;
    vstd::arithmetic::div_mod::lemma_fundamental_div_mod(s.selected, s.page_size);
    vstd::arithmetic::div_mod::lemma_mod_bound(s.selected, s.page_size);
    assert(s.page_size * q == q * s.page_size) by (nonlinear_arith);
    assert((q + 1) * s.page_size == q * s.page_size + s.page_size) by (nonlinear_arith);
}

/// A selection of blocks moves left as it is. From the first block it goes to the last one,
/// unless it covers all of them; the candidates are closed in any case, and the blocks stay.
pub proof fn selected_blocks_move_left(s: SplitModel)
    requires
        s.wf(),
    ensures
        ({
            let then = s.moved_left();
            &&& then.wf()
            &&& then.blocks == s.blocks
            &&& then.list is None
            &&& s.start > 0 ==> then.start == s.start - 1 && then.end - then.start == s.end
                - s.start
            &&& s.start == 0 && s.end < s.blocks.len() ==> then.start == s.blocks.len() - 1
                && then.end == s.blocks.len()
            &&& s.start == 0 && s.end == s.blocks.len() ==> then.start == 0 && then.end == s.end
        }),
{
}

/// A split composition is converted as a whole: the selected blocks as one segment between the
/// others, with the candidates that are shown for them.
pub proof fn selected_blocks_are_one_segment(s: SplitModel)
    requires
        s.wf(),
    ensures
        ({
            let c = s.conversion();
            &&& c.list == s.list
            &&& c.before() == s.blocks.take(s.start)
            &&& c.after() == s.blocks.skip(s.end)
            &&& reading_of(c.segments) == reading_of(s.blocks)
            &&& surface_of(c.segments) == surface_of(s.blocks)
            &&& c.target().reading == reading_of(s.blocks.subrange(s.start, s.end))
            &&& c.target().surface == surface_of(s.blocks.subrange(s.start, s.end))
            &&& c.wf()
        }),
{
    crate::engine::conversion::merging_blocks_keeps_text(s.blocks, s.start, s.end);
    let c = windowed(s.blocks, s.start, s.end);
    assert(s.conversion().before() == c.before());
    assert(s.conversion().after() == c.after());
}

/// Candidates that arrive take the place of those that were offered: the first one is selected,
/// nothing is waited for, and all else of the choice stays.
pub proof fn arrived_candidates_are_offered(s: SelectingModel, items: Seq<Seq<char>>)
    ensures
        s.refreshed(items) == (SelectingModel {
            candidates: items,
            selected: 0,
            llm_pending: false,
            ..s
        }),
        s.page_size > 0 ==> s.refreshed(items).wf(),
        items.len() > 0 ==> s.refreshed(items).current() == Some(items[0]),
{
}

/// Marking another part of a reading changes nothing but how far the mark goes.
pub proof fn mark_changes_alone(full: Seq<char>, end: int, other: int, preview: Seq<char>)
    ensures
        (SessionModel::RangeSelect {
            full_reading: full,
            select_end: end,
            original_preview: preview,
        }).with_select_end(other) == (SessionModel::RangeSelect {
            full_reading: full,
            select_end: other,
            original_preview: preview,
        }),
{
}

/// Where no candidate is offered, none is selected.
pub proof fn empty_lists_have_no_selection(s: SelectingModel, split: SplitModel)
    ensures
        s.candidates.len() == 0 ==> SessionModel::Selecting(s).current() is None,
        split.list is None || split.list->0.items.len() == 0 ==> SessionModel::Split(
            split,
        ).current() is None,
        s.candidates.len() == 0 ==> s.page().len() == 0,
        split.list is Some && split.list->0.items.len() == 0 ==> split.list->0.page().len() == 0,
{
}

} // verus!
