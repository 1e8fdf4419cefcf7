//! A reading split into segments, one of which has the focus.

use crate::engine::paging;
use crate::engine::paging::{
    next_index, next_page_index, next_page_start, next_with_wrap, nth_in_page, page_count,
    page_end, page_info_text, page_range, page_start, pages, prev_index, prev_page_index,
    prev_page_start, prev_with_wrap, PAGE_SIZE,
};
use crate::text::{chars_of, string_of};
use vstd::prelude::*;

verus! {

/// A reading and the text that is shown for it.
#[verifier::ext_equal]
pub struct SegmentView {
    pub reading: Seq<char>,
    pub surface: Seq<char>,
}

/// What a sequence of values stands for, element by element.
pub open spec fn views<T: View>(s: Seq<T>) -> Seq<T::V> {
    s.map_values(|t: T| t@)
}

/// The readings of the segments, one after the other.
pub open spec fn reading_of(s: Seq<SegmentView>) -> Seq<char>
    decreases s.len(),
{
    if s.len() == 0 {
        Seq::empty()
    } else {
        reading_of(s.drop_last()) + s.last().reading
    }
}

/// The surfaces of the segments, one after the other.
pub open spec fn surface_of(s: Seq<SegmentView>) -> Seq<char>
    decreases s.len(),
{
    if s.len() == 0 {
        Seq::empty()
    } else {
        surface_of(s.drop_last()) + s.last().surface
    }
}

pub proof fn lemma_join(a: Seq<SegmentView>, b: Seq<SegmentView>)
    ensures
        reading_of(a + b) == reading_of(a) + reading_of(b),
        surface_of(a + b) == surface_of(a) + surface_of(b),
    decreases b.len(),
{
    if b.len() == 0 {
        assert(a + b == a);
    } else {
        lemma_join(a, b.drop_last());
        assert((a + b).drop_last() == a + b.drop_last());
        assert((a + b).last() == b.last());
    }
}

pub proof fn lemma_join_one(s: SegmentView)
    ensures
        reading_of(seq![s]) == s.reading,
        surface_of(seq![s]) == s.surface,
{
    assert(seq![s].drop_last() == Seq::<SegmentView>::empty());
    assert(reading_of(seq![s].drop_last()) == Seq::<char>::empty());
    assert(surface_of(seq![s].drop_last()) == Seq::<char>::empty());
}

/// One block of a split composition: a reading and how it is displayed.
#[derive(Debug, PartialEq)]
pub struct SplitBlock {
    pub reading: String,
    pub display: String,
}

impl View for SplitBlock {
    type V = SegmentView;

    open spec fn view(&self) -> SegmentView {
        SegmentView { reading: self.reading@, surface: self.display@ }
    }
}

impl Clone for SplitBlock {
    fn clone(&self) -> (r: Self)
        ensures
            r@ == self@,
    {
        SplitBlock { reading: self.reading.clone(), display: self.display.clone() }
    }
}

/// One segment of a conversion.
#[derive(Debug, PartialEq)]
pub struct ConversionSegment {
    pub reading: String,
    pub surface: String,
}

impl View for ConversionSegment {
    type V = SegmentView;

    open spec fn view(&self) -> SegmentView {
        SegmentView { reading: self.reading@, surface: self.surface@ }
    }
}

impl Clone for ConversionSegment {
    fn clone(&self) -> (r: Self)
        ensures
            r@ == self@,
    {
        ConversionSegment { reading: self.reading.clone(), surface: self.surface.clone() }
    }
}

/// A candidate that the engine offers for a segment, with its own segmentation.
#[derive(Debug, PartialEq)]
pub struct SegmentCandidate {
    pub surface: String,
    pub segments: Vec<ConversionSegment>,
}

#[verifier::ext_equal]
pub struct CandidateModel {
    pub surface: Seq<char>,
    pub segments: Seq<SegmentView>,
}

impl View for SegmentCandidate {
    type V = CandidateModel;

    open spec fn view(&self) -> CandidateModel {
        CandidateModel { surface: self.surface@, segments: views(self.segments@) }
    }
}

impl Clone for SegmentCandidate {
    fn clone(&self) -> (r: Self)
        ensures
            r@ == self@,
    {
        let r = SegmentCandidate {
            surface: self.surface.clone(),
            segments: self.segments.clone(),
        };
        assert(views(r.segments@) =~= views(self.segments@));
        r
    }
}

/// The candidates for the focused segment, shown in pages.
#[derive(Debug, PartialEq)]
pub struct ConversionCandidateView {
    pub candidates: Vec<SegmentCandidate>,
    pub selected: usize,
    pub page_size: usize,
}

#[verifier::ext_equal]
pub struct CandidateList {
    pub items: Seq<CandidateModel>,
    pub selected: int,
    pub page_size: int,
}

impl CandidateList {
    /// The selection is one of the candidates, and pages hold something.
    pub open spec fn wf(self) -> bool {
        &&& self.page_size > 0
        &&& self.items.len() > 0 ==> 0 <= self.selected < self.items.len()
        &&& self.items.len() == 0 ==> self.selected == 0
    }

    /// The same list with another selection.
    pub open spec fn select(self, selected: int) -> CandidateList {
        CandidateList { selected, ..self }
    }

    /// The surfaces shown on the open page.
    pub open spec fn page(self) -> Seq<Seq<char>> {
        if self.items.len() == 0 {
            Seq::empty()
        } else {
            self.items.subrange(
                page_start(self.selected, self.page_size),
                page_end(self.items.len() as int, self.selected, self.page_size),
            ).map_values(|c: CandidateModel| c.surface)
        }
    }
}

impl View for ConversionCandidateView {
    type V = CandidateList;

    open spec fn view(&self) -> CandidateList {
        CandidateList {
            items: views(self.candidates@),
            selected: self.selected as int,
            page_size: self.page_size as int,
        }
    }
}

impl Clone for ConversionCandidateView {
    fn clone(&self) -> (r: Self)
        ensures
            r@ == self@,
    {
        let r = ConversionCandidateView {
            candidates: self.candidates.clone(),
            selected: self.selected,
            page_size: self.page_size,
        };
        assert(views(r.candidates@) =~= views(self.candidates@));
        r
    }
}

/// A reading split into segments, the focused segment, and the candidates for it
/// while they are shown.
#[derive(Debug, PartialEq)]
pub struct ConversionState {
    pub segments: Vec<ConversionSegment>,
    pub focused_index: usize,
    pub candidate_view: Option<ConversionCandidateView>,
}

#[verifier::ext_equal]
pub struct ConversionModel {
    pub segments: Seq<SegmentView>,
    pub focused: int,
    pub list: Option<CandidateList>,
}

/// The view of an optional value.
pub open spec fn option_view<T: View>(o: Option<T>) -> Option<T::V> {
    match o {
        Some(t) => Some(t@),
        None => None,
    }
}

impl ConversionModel {
    /// One of the segments has the focus.
    pub open spec fn wf(self) -> bool {
        0 <= self.focused < self.segments.len()
    }

    /// The segments before the focused one.
    pub open spec fn before(self) -> Seq<SegmentView> {
        self.segments.take(self.focused)
    }

    /// The focused segment.
    pub open spec fn target(self) -> SegmentView {
        self.segments[self.focused]
    }

    /// The segments after the focused one.
    pub open spec fn after(self) -> Seq<SegmentView> {
        self.segments.skip(self.focused + 1)
    }

    /// Whether a character of the next segment can move into the focused one.
    pub open spec fn can_expand(self) -> bool {
        self.focused + 1 < self.segments.len() && self.segments[self.focused + 1].reading.len() > 0
    }

    /// The first character of the next segment moves to the end of the focused one.
    /// Both show their readings then; a segment left without a reading is removed.
    pub open spec fn expanded(self) -> ConversionModel {
        let next = self.segments[self.focused + 1].reading;
        let grown = unconverted(self.target().reading.push(next[0]));
        let rest = next.skip(1);
        let tail = self.segments.skip(self.focused + 2);
        ConversionModel {
            segments: self.before().push(grown) + (if rest.len() == 0 {
                tail
            } else {
                seq![unconverted(rest)] + tail
            }),
            focused: self.focused,
            list: None,
        }
    }

    /// Whether the focused segment has a character to give away.
    pub open spec fn can_shrink(self) -> bool {
        self.wf() && self.target().reading.len() > 1
    }

    /// The last character of the focused segment moves to the front of the next one,
    /// which is created where there is none. The focused segment keeps its surface
    /// unless that was its reading.
    pub open spec fn shrunk(self) -> ConversionModel {
        let r = self.target().reading;
        let kept = r.drop_last();
        let left = SegmentView {
            reading: kept,
            surface: if self.target().surface == r {
                kept
            } else {
                self.target().surface
            },
        };
        let next = if self.focused + 1 < self.segments.len() {
            seq![r.last()] + self.segments[self.focused + 1].reading
        } else {
            seq![r.last()]
        };
        ConversionModel {
            segments: self.before().push(left).push(unconverted(next)) + (if self.focused + 1
                < self.segments.len() {
                self.segments.skip(self.focused + 2)
            } else {
                Seq::empty()
            }),
            focused: self.focused,
            list: None,
        }
    }
}

/// A segment that shows its reading.
pub open spec fn unconverted(reading: Seq<char>) -> SegmentView {
    SegmentView { reading, surface: reading }
}

impl View for ConversionState {
    type V = ConversionModel;

    open spec fn view(&self) -> ConversionModel {
        ConversionModel {
            segments: views(self.segments@),
            focused: self.focused_index as int,
            list: option_view(self.candidate_view),
        }
    }
}

impl Clone for ConversionState {
    fn clone(&self) -> (r: Self)
        ensures
            r@ == self@,
    {
        let r = ConversionState {
            segments: self.segments.clone(),
            focused_index: self.focused_index,
            candidate_view: match &self.candidate_view {
                Some(v) => Some(v.clone()),
                None => None,
            },
        };
        assert(views(r.segments@) =~= views(self.segments@));
        r
    }
}

/// The readings of `v[from..to]`, one after the other.
fn join_readings(v: &Vec<ConversionSegment>, from: usize, to: usize) -> (r: String)
    requires
        from <= to <= v@.len(),
    ensures
        r@ == reading_of(views(v@).subrange(from as int, to as int)),
{
    let mut r = String::new();
    let mut i: usize = from;
    while i < to
        invariant
            from <= i <= to <= v@.len(),
            r@ == reading_of(views(v@).subrange(from as int, i as int)),
        decreases to - i,
    {
        proof {
            let s = views(v@);
            assert(s.subrange(from as int, i + 1).drop_last() == s.subrange(from as int, i as int));
        }
        r.append(v[i].reading.as_str());
        i += 1;
    }
    r
}

/// The surfaces of `v[from..to]`, one after the other.
fn join_surfaces(v: &Vec<ConversionSegment>, from: usize, to: usize) -> (r: String)
    requires
        from <= to <= v@.len(),
    ensures
        r@ == surface_of(views(v@).subrange(from as int, to as int)),
{
    let mut r = String::new();
    let mut i: usize = from;
    while i < to
        invariant
            from <= i <= to <= v@.len(),
            r@ == surface_of(views(v@).subrange(from as int, i as int)),
        decreases to - i,
    {
        proof {
            let s = views(v@);
            assert(s.subrange(from as int, i + 1).drop_last() == s.subrange(from as int, i as int));
        }
        r.append(v[i].surface.as_str());
        i += 1;
    }
    r
}

/// `text` without its first character, and that character.
pub fn take_first_char(text: &mut String) -> (r: Option<char>)
    ensures
        old(text)@.len() == 0 ==> r is None && final(text)@ == old(text)@,
        old(text)@.len() > 0 ==> r == Some(old(text)@[0]) && final(text)@ == old(text)@.skip(1),
{
    let chars = chars_of(text.as_str());
    if chars.len() == 0 {
        return None;
    }
    let ch = chars[0];
    *text = string_of(&chars, 1, chars.len());
    Some(ch)
}

/// `text` without its last character, and that character.
pub fn take_last_char(text: &mut String) -> (r: Option<char>)
    ensures
        old(text)@.len() == 0 ==> r is None && final(text)@ == old(text)@,
        old(text)@.len() > 0 ==> r == Some(old(text)@.last()) && final(text)@
            == old(text)@.drop_last(),
{
    let chars = chars_of(text.as_str());
    if chars.len() == 0 {
        return None;
    }
    let ch = chars[chars.len() - 1];
    *text = string_of(&chars, 0, chars.len() - 1);
    Some(ch)
}

/// The segment that shows a block.
pub fn block_to_segment(block: &SplitBlock) -> (r: ConversionSegment)
    ensures
        r@ == block@,
{
    ConversionSegment { reading: block.reading.clone(), surface: block.display.clone() }
}

/// A copy of segments as blocks.
pub fn segments_to_blocks(segments: &Vec<ConversionSegment>) -> (r: Vec<SplitBlock>)
    ensures
        views(r@) == views(segments@),
{
    let mut r: Vec<SplitBlock> = Vec::new();
    let mut i: usize = 0;
    while i < segments.len()
        invariant
            i <= segments@.len(),
            r@.len() == i,
            forall|j: int| 0 <= j < i ==> (#[trigger] r@[j])@ == segments@[j]@,
        decreases segments.len() - i,
    {
        let b = SplitBlock {
            reading: segments[i].reading.clone(),
            display: segments[i].surface.clone(),
        };
        r.push(b);
        i += 1;
    }
    assert(views(r@) =~= views(segments@));
    r
}

/// `blocks[from..to]` as one segment.
pub open spec fn merged(blocks: Seq<SegmentView>, from: int, to: int) -> SegmentView {
    SegmentView {
        reading: reading_of(blocks.subrange(from, to)),
        surface: surface_of(blocks.subrange(from, to)),
    }
}

/// The first block of a selection that was asked for at `sel_start`.
pub open spec fn clamped_start(len: int, sel_start: int) -> int {
    if sel_start < len {
        sel_start
    } else {
        len - 1
    }
}

/// The block past a selection from `start` that was asked to end at `sel_end`.
pub open spec fn clamped_end(len: int, start: int, sel_end: int) -> int {
    if sel_end < start + 1 {
        start + 1
    } else if sel_end > len {
        len
    } else {
        sel_end
    }
}

/// The conversion in which `blocks[start..end]` form the focused segment.
pub open spec fn windowed(blocks: Seq<SegmentView>, start: int, end: int) -> ConversionModel {
    ConversionModel {
        segments: blocks.take(start).push(merged(blocks, start, end)) + blocks.skip(end),
        focused: start,
        list: None,
    }
}

/// The bounds of a selection, moved so that at least one of `len` blocks is selected.
pub fn clamp_selection(len: usize, sel_start: usize, sel_end: usize) -> (r: (usize, usize))
    requires
        len > 0,
    ensures
        r.0 == clamped_start(len as int, sel_start as int),
        r.1 == clamped_end(len as int, r.0 as int, sel_end as int),
        r.0 < r.1 <= len,
{
    let start: usize = if sel_start < len {
        sel_start
    } else {
        len - 1
    };
    let end: usize = if sel_end < start + 1 {
        start + 1
    } else if sel_end > len {
        len
    } else {
        sel_end
    };
    (start, end)
}

/// Segments for `blocks`, with the selected ones merged into the focused segment.
pub fn conversion_from_blocks(
    blocks: &Vec<SplitBlock>,
    sel_start: usize,
    sel_end: usize,
) -> (r: Option<ConversionState>)
    ensures
        blocks@.len() == 0 ==> r is None,
        blocks@.len() > 0 ==> ({
            let start = clamped_start(blocks@.len() as int, sel_start as int);
            let end = clamped_end(blocks@.len() as int, start, sel_end as int);
            &&& r is Some
            &&& r->0@ == windowed(views(blocks@), start, end)
            &&& r->0@.wf()
        }),
{
    if blocks.len() == 0 {
        return None;
    }
    let len: usize = blocks.len();
    let (start, end) = clamp_selection(len, sel_start, sel_end);
    let ghost all = views(blocks@);
    let mut segments: Vec<ConversionSegment> = Vec::new();
    let mut i: usize = 0;
    while i < start
        invariant
            i <= start < blocks@.len(),
            all == views(blocks@),
            views(segments@) == all.take(i as int),
        decreases start - i,
    {
        let ghost before = segments@;
        segments.push(block_to_segment(&blocks[i]));
        assert(views(segments@) =~= views(before).push(all[i as int]));
        i += 1;
    }
    let mut reading = String::new();
    let mut surface = String::new();
    while i < end
        invariant
            start <= i <= end <= blocks@.len(),
            all == views(blocks@),
            reading@ == reading_of(all.subrange(start as int, i as int)),
            surface@ == surface_of(all.subrange(start as int, i as int)),
        decreases end - i,
    {
        proof {
            assert(all.subrange(start as int, i + 1).drop_last() == all.subrange(
                start as int,
                i as int,
            ));
        }
        reading.append(blocks[i].reading.as_str());
        surface.append(blocks[i].display.as_str());
        i += 1;
    }
    let ghost before = segments@;
    segments.push(ConversionSegment { reading, surface });
    let ghost head = all.take(start as int).push(merged(all, start as int, end as int));
    assert(views(segments@) =~= head);
    while i < len
        invariant
            end <= i <= len == blocks@.len(),
            all == views(blocks@),
            views(segments@) == head + all.subrange(end as int, i as int),
        decreases len - i,
    {
        let ghost before = segments@;
        segments.push(block_to_segment(&blocks[i]));
        assert(views(segments@) =~= views(before).push(all[i as int]));
        assert(head + all.subrange(end as int, i + 1) =~= (head + all.subrange(
            end as int,
            i as int,
        )).push(all[i as int]));
        i += 1;
    }
    assert(all.subrange(end as int, len as int) == all.skip(end as int));
    Some(ConversionState { segments, focused_index: start, candidate_view: None })
}

impl ConversionState {
    /// One segment for each block, the one at `focused_index` (or the last) focused.
    pub fn from_split_blocks(blocks: &Vec<SplitBlock>, focused_index: usize) -> (r: Option<Self>)
        ensures
            blocks@.len() == 0 ==> r is None,
            blocks@.len() > 0 ==> r is Some && r->0@ == (ConversionModel {
                segments: views(blocks@),
                focused: clamped_start(blocks@.len() as int, focused_index as int),
                list: None,
            }),
    {
        if blocks.len() == 0 {
            return None;
        }
        let mut segments: Vec<ConversionSegment> = Vec::new();
        let mut i: usize = 0;
        while i < blocks.len()
            invariant
                i <= blocks@.len(),
                segments@.len() == i,
                forall|j: int| 0 <= j < i ==> (#[trigger] segments@[j])@ == blocks@[j]@,
            decreases blocks.len() - i,
        {
            segments.push(block_to_segment(&blocks[i]));
            i += 1;
        }
        assert(views(segments@) =~= views(blocks@));
        let focused_index: usize = if focused_index < segments.len() {
            focused_index
        } else {
            segments.len() - 1
        };
        Some(ConversionState { segments, focused_index, candidate_view: None })
    }

    /// The focused segment.
    pub fn focused(&self) -> (r: Option<&ConversionSegment>)
        ensures
            r is Some <==> self@.wf(),
            r is Some ==> *r->0 == self.segments@[self.focused_index as int] && r->0@
                == self@.target(),
    {
        if self.focused_index < self.segments.len() {
            Some(&self.segments[self.focused_index])
        } else {
            None
        }
    }

    /// The focused segment, to be changed in place.
    pub fn focused_mut(&mut self) -> (r: Option<&mut ConversionSegment>)
        ensures
            r is Some <==> old(self)@.wf(),
            final(self).focused_index == old(self).focused_index,
            final(self).candidate_view == old(self).candidate_view,
            match r {
                None => final(self).segments@ == old(self).segments@,
                Some(seg) => *seg == old(self).segments@[old(self).focused_index as int]
                    && final(self).segments@ == old(self).segments@.update(
                    old(self).focused_index as int,
                    *final(seg),
                ),
            },
    {
        if self.focused_index < self.segments.len() {
            let i: usize = self.focused_index;
            Some(&mut self.segments[i])
        } else {
            None
        }
    }

    /// The text that the segments show together.
    pub fn composed_surface(&self) -> (r: String)
        ensures
            r@ == surface_of(self@.segments),
    {
        assert(self@.segments.subrange(0, self@.segments.len() as int) == self@.segments);
        join_surfaces(&self.segments, 0, self.segments.len())
    }

    /// The reading of the segments together.
    pub fn composed_reading(&self) -> (r: String)
        ensures
            r@ == reading_of(self@.segments),
    {
        assert(self@.segments.subrange(0, self@.segments.len() as int) == self@.segments);
        join_readings(&self.segments, 0, self.segments.len())
    }

    /// The shown text before the focused segment, of it, and after it.
    pub fn display_parts(&self) -> (r: (String, String, String))
        requires
            self@.wf(),
        ensures
            r.0@ == surface_of(self@.before()),
            r.1@ == self@.target().surface,
            r.2@ == surface_of(self@.after()),
    {
        let n: usize = self.segments.len();
        let f: usize = self.focused_index;
        assert(self@.segments.subrange(0, f as int) == self@.before());
        assert(self@.segments.subrange(f + 1, n as int) == self@.after());
        let prefix = join_surfaces(&self.segments, 0, f);
        let target = self.segments[f].surface.clone();
        let suffix = join_surfaces(&self.segments, f + 1, n);
        (prefix, target, suffix)
    }

    /// The reading before the focused segment, of it, and after it.
    pub fn reading_parts(&self) -> (r: (String, String, String))
        requires
            self@.wf(),
        ensures
            r.0@ == reading_of(self@.before()),
            r.1@ == self@.target().reading,
            r.2@ == reading_of(self@.after()),
    {
        let n: usize = self.segments.len();
        let f: usize = self.focused_index;
        assert(self@.segments.subrange(0, f as int) == self@.before());
        assert(self@.segments.subrange(f + 1, n as int) == self@.after());
        let prefix = join_readings(&self.segments, 0, f);
        let target = self.segments[f].reading.clone();
        let suffix = join_readings(&self.segments, f + 1, n);
        (prefix, target, suffix)
    }

    /// Focuses the segment to the left, the last one from the first. False where
    /// there is no segment.
    pub fn focus_left(&mut self) -> (r: bool)
        ensures
            r == (old(self)@.segments.len() > 0),
            !r ==> final(self)@ == old(self)@,
            r ==> final(self)@ == (ConversionModel {
                segments: old(self)@.segments,
                focused: prev_index(old(self)@.segments.len() as int, old(self)@.focused),
                list: None,
            }),
    {
        if self.segments.len() == 0 {
            return false;
        }
        if self.focused_index == 0 {
            self.focused_index = self.segments.len() - 1;
        } else {
            self.focused_index = self.focused_index - 1;
        }
        self.clear_candidate_view();
        true
    }

    /// Focuses the segment to the right, the first one from the last. False where
    /// there is no segment.
    pub fn focus_right(&mut self) -> (r: bool)
        requires
            old(self).focused_index < usize::MAX,
        ensures
            r == (old(self)@.segments.len() > 0),
            !r ==> final(self)@ == old(self)@,
            r ==> final(self)@ == (ConversionModel {
                segments: old(self)@.segments,
                focused: next_index(old(self)@.segments.len() as int, old(self)@.focused),
                list: None,
            }),
    {
        if self.segments.len() == 0 {
            return false;
        }
        self.focused_index = (self.focused_index + 1) % self.segments.len();
        self.clear_candidate_view();
        true
    }

    /// Moves the first character of the next segment into the focused one.
    pub fn width_expand_right(&mut self) -> (r: bool)
        requires
            old(self).focused_index < usize::MAX,
        ensures
            r == old(self)@.can_expand(),
            !r ==> final(self)@ == old(self)@,
            r ==> final(self)@ == old(self)@.expanded(),
    {
        let f: usize = self.focused_index;
        if f + 1 >= self.segments.len() {
            return false;
        }
        let ghost m = self@;
        let mut next_reading = self.segments[f + 1].reading.clone();
        let moved = match take_first_char(&mut next_reading) {
            Some(ch) => ch,
            None => {
                return false;
            },
        };
        let mut reading = self.segments[f].reading.clone();
        reading.push(moved);
        let surface = reading.clone();
        self.segments.set(f, ConversionSegment { reading, surface });
        if next_reading.as_str().is_empty() {
            let _ = self.segments.remove(f + 1);
            proof {
                let e = m.expanded();
                assert(views(self.segments@) =~= e.segments);
            }
        } else {
            let surface = next_reading.clone();
            self.segments.set(f + 1, ConversionSegment { reading: next_reading, surface });
            proof {
                let e = m.expanded();
                assert(views(self.segments@) =~= e.segments);
            }
        }
        self.clear_candidate_view();
        true
    }

    /// Moves the last character of the focused segment to the next one, which is
    /// created where there is none. A segment keeps at least one character.
    pub fn width_shrink_right(&mut self) -> (r: bool)
        ensures
            r == old(self)@.can_shrink(),
            !r ==> final(self)@ == old(self)@,
            r ==> final(self)@ == old(self)@.shrunk(),
    {
        let f: usize = self.focused_index;
        if f >= self.segments.len() {
            return false;
        }
        let ghost m = self@;
        if self.segments[f].reading.as_str().unicode_len() <= 1 {
            return false;
        }
        let whole = self.segments[f].reading.clone();
        let mut reading = whole.clone();
        let moved = match take_last_char(&mut reading) {
            Some(ch) => ch,
            None => {
                return false;
            },
        };
        let surface = if self.segments[f].surface == whole {
            reading.clone()
        } else {
            self.segments[f].surface.clone()
        };
        self.segments.set(f, ConversionSegment { reading, surface });
        let mut next = String::new();
        next.push(moved);
        if f + 1 < self.segments.len() {
            next.append(self.segments[f + 1].reading.as_str());
            let surface = next.clone();
            self.segments.set(f + 1, ConversionSegment { reading: next, surface });
        } else {
            let surface = next.clone();
            self.segments.push(ConversionSegment { reading: next, surface });
        }
        proof {
            let e = m.shrunk();
            assert(views(self.segments@)[f as int] == e.segments[f as int]);
            assert(views(self.segments@)[f + 1] == e.segments[f + 1]);
            assert(views(self.segments@) =~= e.segments);
        }
        self.clear_candidate_view();
        true
    }

    /// Shows `candidates` for the focused segment, the first one selected.
    pub fn set_candidate_view(&mut self, candidates: Vec<SegmentCandidate>)
        ensures
            final(self)@ == (ConversionModel {
                list: Some(
                    CandidateList {
                        items: views(candidates@),
                        selected: 0,
                        page_size: PAGE_SIZE as int,
                    },
                ),
                ..old(self)@
            }),
    {
        self.candidate_view = Some(
            ConversionCandidateView { candidates, selected: 0, page_size: PAGE_SIZE },
        );
    }

    /// Stops showing candidates.
    pub fn clear_candidate_view(&mut self)
        ensures
            final(self)@ == (ConversionModel { list: None, ..old(self)@ }),
            final(self).segments == old(self).segments,
            final(self).focused_index == old(self).focused_index,
            final(self).candidate_view is None,
    {
        self.candidate_view = None;
    }

    /// Whether candidates are shown.
    pub fn has_candidate_view(&self) -> (r: bool)
        ensures
            r == (self@.list is Some),
    {
        self.candidate_view.is_some()
    }

    /// The surface of the selected candidate.
    pub fn candidate_surface(&self) -> (r: Option<&str>)
        ensures
            r is Some <==> self@.list is Some && self@.list->0.selected
                < self@.list->0.items.len(),
            r is Some ==> r->0@ == self@.list->0.items[self@.list->0.selected].surface,
    {
        match &self.candidate_view {
            Some(view) => if view.selected < view.candidates.len() {
                Some(view.candidates[view.selected].surface.as_str())
            } else {
                None
            },
            None => None,
        }
    }

    /// A copy of the selected candidate.
    pub fn current_structured_candidate_clone(&self) -> (r: Option<SegmentCandidate>)
        ensures
            r is Some <==> self@.list is Some && self@.list->0.selected
                < self@.list->0.items.len(),
            r is Some ==> r->0@ == self@.list->0.items[self@.list->0.selected],
    {
        match &self.candidate_view {
            Some(view) => if view.selected < view.candidates.len() {
                Some(view.candidates[view.selected].clone())
            } else {
                None
            },
            None => None,
        }
    }

    /// Whether there is a candidate to select.
    pub open spec fn has_candidates(&self) -> bool {
        self@.list is Some && self@.list->0.items.len() > 0
    }

    /// The candidates, where they are shown, form a valid list.
    pub open spec fn list_wf(&self) -> bool {
        self@.list is Some ==> self@.list->0.wf()
    }

    fn select(&mut self, selected: usize)
        requires
            old(self)@.list is Some,
        ensures
            final(self)@ == (ConversionModel {
                list: Some(old(self)@.list->0.select(selected as int)),
                ..old(self)@
            }),
    {
        if let Some(view) = &mut self.candidate_view {
            view.selected = selected;
        }
    }

    /// Selects the next candidate, the first one after the last. False where there
    /// is none.
    pub fn next_candidate(&mut self) -> (r: bool)
        requires
            old(self).list_wf(),
        ensures
            r == old(self).has_candidates(),
            !r ==> final(self)@ == old(self)@,
            r ==> final(self)@ == (ConversionModel {
                list: Some(
                    old(self)@.list->0.select(
                        next_index(
                            old(self)@.list->0.items.len() as int,
                            old(self)@.list->0.selected,
                        ),
                    ),
                ),
                ..old(self)@
            }),
    {
        let next: usize = match &self.candidate_view {
            None => {
                return false;
            },
            Some(view) => {
                if view.candidates.len() == 0 {
                    return false;
                }
                (view.selected + 1) % view.candidates.len()
            },
        };
        self.select(next);
        true
    }

    /// Selects the previous candidate, the last one before the first. False where
    /// there is none.
    pub fn prev_candidate(&mut self) -> (r: bool)
        ensures
            r == old(self).has_candidates(),
            !r ==> final(self)@ == old(self)@,
            r ==> final(self)@ == (ConversionModel {
                list: Some(
                    old(self)@.list->0.select(
                        prev_index(
                            old(self)@.list->0.items.len() as int,
                            old(self)@.list->0.selected,
                        ),
                    ),
                ),
                ..old(self)@
            }),
    {
        let prev: usize = match &self.candidate_view {
            None => {
                return false;
            },
            Some(view) => {
                if view.candidates.len() == 0 {
                    return false;
                }
                prev_with_wrap(view.candidates.len(), view.selected)
            },
        };
        self.select(prev);
        true
    }

    /// Number of the open page, counted from 0.
    pub fn current_page(&self) -> (r: usize)
        requires
            self.list_wf(),
        ensures
            r == (if self@.list is Some {
                self@.list->0.selected / self@.list->0.page_size
            } else {
                0
            }),
    {
        match &self.candidate_view {
            Some(view) => view.selected / view.page_size,
            None => 0,
        }
    }

    /// Number of pages.
    pub fn total_pages(&self) -> (r: usize)
        requires
            self.list_wf(),
        ensures
            r == (if self@.list is Some {
                page_count(self@.list->0.items.len() as int, self@.list->0.page_size)
            } else {
                0
            }),
    {
        match &self.candidate_view {
            Some(view) => pages(view.candidates.len(), view.page_size),
            None => 0,
        }
    }

    /// The surfaces on the open page.
    pub fn page_candidates(&self) -> (r: Vec<String>)
        requires
            self.list_wf(),
        ensures
            views(r@) == (if self@.list is Some {
                self@.list->0.page()
            } else {
                Seq::empty()
            }),
    {
        let mut r: Vec<String> = Vec::new();
        match &self.candidate_view {
            None => {
                assert(views(r@) =~= Seq::empty());
            },
            Some(view) => {
                if view.candidates.len() > 0 {
                    proof {
                        paging::lemma_page_start_bounds(view@.selected, view@.page_size);
                    }
                    let (start, end) = page_range(
                        view.candidates.len(),
                        view.selected,
                        view.page_size,
                    );
                    let mut i: usize = start;
                    while i < end
                        invariant
                            start <= i <= end <= view.candidates@.len(),
                            r@.len() == i - start,
                            forall|j: int|
                                0 <= j < r@.len() ==> (#[trigger] r@[j])@
                                    == view@.items[start + j].surface,
                        decreases end - i,
                    {
                        r.push(view.candidates[i].surface.clone());
                        i += 1;
                    }
                    assert(views(r@) =~= view@.page());
                } else {
                    assert(views(r@) =~= Seq::empty());
                }
            },
        }
        r
    }

    /// Place of the selection on the open page.
    pub fn page_selected(&self) -> (r: usize)
        requires
            self.list_wf(),
        ensures
            r == (if self@.list is Some {
                self@.list->0.selected % self@.list->0.page_size
            } else {
                0
            }),
    {
        match &self.candidate_view {
            Some(view) => view.selected % view.page_size,
            None => 0,
        }
    }

    /// The text that shows which page is open, empty for a single page.
    pub fn page_info(&self) -> (r: String)
        requires
            self.list_wf(),
        ensures
            r@ == (if self@.list is Some {
                page_info_text(
                    self@.list->0.selected / self@.list->0.page_size,
                    page_count(self@.list->0.items.len() as int, self@.list->0.page_size),
                )
            } else {
                Seq::empty()
            }),
    {
        proof {
            if self.has_candidates() {
                let l = self@.list->0;
                paging::lemma_page_in_range(l.items.len() as int, l.selected, l.page_size);
            }
        }
        paging::page_info(self.current_page(), self.total_pages())
    }

    /// Selects the next candidate; on a page that this opens, its first one.
    pub fn next_candidate_with_page_wrap(&mut self) -> (r: bool)
        requires
            old(self).list_wf(),
        ensures
            r == old(self).has_candidates(),
            !r ==> final(self)@ == old(self)@,
            r ==> final(self)@ == (ConversionModel {
                list: Some(
                    old(self)@.list->0.select(
                        next_index(
                            old(self)@.list->0.items.len() as int,
                            old(self)@.list->0.selected,
                        ),
                    ),
                ),
                ..old(self)@
            }),
    {
        let next: usize = match &self.candidate_view {
            None => {
                return false;
            },
            Some(view) => {
                if view.candidates.len() == 0 {
                    return false;
                }
                next_with_wrap(view.candidates.len(), view.selected, view.page_size)
            },
        };
        self.select(next);
        true
    }

    /// Selects the first candidate of the next page.
    pub fn next_candidate_page(&mut self) -> (r: bool)
        requires
            old(self).list_wf(),
        ensures
            r == old(self).has_candidates(),
            !r ==> final(self)@ == old(self)@,
            r ==> final(self)@ == (ConversionModel {
                list: Some(
                    old(self)@.list->0.select(
                        next_page_index(
                            old(self)@.list->0.items.len() as int,
                            old(self)@.list->0.selected,
                            old(self)@.list->0.page_size,
                        ),
                    ),
                ),
                ..old(self)@
            }),
    {
        let next: usize = match &self.candidate_view {
            None => {
                return false;
            },
            Some(view) => {
                if view.candidates.len() == 0 {
                    return false;
                }
                next_page_start(view.candidates.len(), view.selected, view.page_size)
            },
        };
        self.select(next);
        true
    }

    /// Selects the first candidate of the previous page.
    pub fn prev_candidate_page(&mut self) -> (r: bool)
        requires
            old(self).list_wf(),
        ensures
            r == old(self).has_candidates(),
            !r ==> final(self)@ == old(self)@,
            r ==> final(self)@ == (ConversionModel {
                list: Some(
                    old(self)@.list->0.select(
                        prev_page_index(
                            old(self)@.list->0.items.len() as int,
                            old(self)@.list->0.selected,
                            old(self)@.list->0.page_size,
                        ),
                    ),
                ),
                ..old(self)@
            }),
    {
        let prev: usize = match &self.candidate_view {
            None => {
                return false;
            },
            Some(view) => {
                if view.candidates.len() == 0 {
                    return false;
                }
                prev_page_start(view.candidates.len(), view.selected, view.page_size)
            },
        };
        self.select(prev);
        true
    }

    /// Selects the `n`-th candidate of the open page, counted from 1. False where
    /// the list has none there.
    pub fn select_nth_candidate_in_page(&mut self, n: usize) -> (r: bool)
        requires
            old(self).list_wf(),
        ensures
            r == (old(self)@.list is Some && n >= 1 && page_start(
                old(self)@.list->0.selected,
                old(self)@.list->0.page_size,
            ) + (n - 1) < old(self)@.list->0.items.len()),
            !r ==> final(self)@ == old(self)@,
            r ==> final(self)@ == (ConversionModel {
                list: Some(
                    old(self)@.list->0.select(
                        page_start(old(self)@.list->0.selected, old(self)@.list->0.page_size) + (n
                            - 1),
                    ),
                ),
                ..old(self)@
            }),
    {
        let idx: usize = match &self.candidate_view {
            None => {
                return false;
            },
            Some(view) => match nth_in_page(
                view.candidates.len(),
                view.selected,
                view.page_size,
                n,
            ) {
                Some(idx) => idx,
                None => {
                    return false;
                },
            },
        };
        self.select(idx);
        true
    }

    /// Puts the segments of `candidate` in the place of the focused segment (of the
    /// last one where the focus lies past the end). False where there is nothing to
    /// replace or to put there.
    pub fn replace_focused_with_candidate(&mut self, candidate: &SegmentCandidate) -> (r: bool)
        ensures
            r == (old(self)@.segments.len() > 0 && candidate@.segments.len() > 0),
            !r ==> final(self)@ == old(self)@,
            r ==> ({
                let f = clamped_start(old(self)@.segments.len() as int, old(self)@.focused);
                final(self)@ == (ConversionModel {
                    segments: old(self)@.segments.take(f) + candidate@.segments
                        + old(self)@.segments.skip(f + 1),
                    focused: f,
                    list: None,
                })
            }),
    {
        if self.segments.len() == 0 || candidate.segments.len() == 0 {
            return false;
        }
        let f: usize = if self.focused_index < self.segments.len() {
            self.focused_index
        } else {
            self.segments.len() - 1
        };
        let ghost m = self@;
        let mut tail = self.segments.split_off(f);
        let ghost tail_all = views(tail@);
        assert(tail_all =~= m.segments.skip(f as int));
        assert(views(self.segments@) =~= m.segments.take(f as int));
        let _ = tail.remove(0);
        assert(views(tail@) =~= m.segments.skip(f + 1));
        let mut replacement = candidate.segments.clone();
        assert(views(replacement@) =~= views(candidate.segments@));
        self.segments.append(&mut replacement);
        self.segments.append(&mut tail);
        assert(views(self.segments@) =~= m.segments.take(f as int) + candidate@.segments
            + m.segments.skip(f + 1));
        self.focused_index = f;
        self.clear_candidate_view();
        true
    }
}

/// Taking a character from the next segment loses no part of the reading, and leaves
/// what stands before the focused segment alone.
pub proof fn expanding_keeps_reading(c: ConversionModel)
    requires
        c.wf(),
        c.can_expand(),
    ensures
        reading_of(c.expanded().segments) == reading_of(c.segments),
        c.expanded().before() == c.before(),
        c.expanded().wf(),
{
    let f = c.focused;
    let t = c.target();
    let e = c.expanded();
    let n = c.segments[f + 1];
    let rest = n.reading.skip(1);
    let tail = c.segments.skip(f + 2);
    let grown = unconverted(t.reading.push(n.reading[0]));
    let moved = if rest.len() == 0 {
        Seq::<SegmentView>::empty()
    } else {
        seq![unconverted(rest)]
    };
    assert(c.segments == c.before() + seq![t, n] + tail);
    assert(e.segments == c.before() + (seq![grown] + moved) + tail);
    lemma_join(c.before() + seq![t, n], tail);
    lemma_join(c.before(), seq![t, n]);
    lemma_join(c.before() + (seq![grown] + moved), tail);
    lemma_join(c.before(), seq![grown] + moved);
    assert(seq![t, n] == seq![t] + seq![n]);
    lemma_join(seq![t], seq![n]);
    lemma_join_one(t);
    lemma_join_one(n);
    lemma_join(seq![grown], moved);
    lemma_join_one(grown);
    lemma_join_one(unconverted(rest));
    assert(reading_of(moved) == rest);
    assert(t.reading + n.reading == grown.reading + rest);
    assert(e.before() == c.before());
}

/// Giving a character to the next segment loses no part of the reading, and leaves
/// what stands before the focused segment alone.
pub proof fn shrinking_keeps_reading(c: ConversionModel)
    requires
        c.can_shrink(),
    ensures
        reading_of(c.shrunk().segments) == reading_of(c.segments),
        c.shrunk().before() == c.before(),
        c.shrunk().wf(),
{
    let f = c.focused;
    let t = c.target();
    let s = c.shrunk();
    let left = s.segments[f];
    let next = s.segments[f + 1];
    let more = f + 1 < c.segments.len();
    let taken = if more {
        seq![c.segments[f + 1]]
    } else {
        Seq::<SegmentView>::empty()
    };
    let tail = if more {
        c.segments.skip(f + 2)
    } else {
        Seq::<SegmentView>::empty()
    };
    assert(c.segments == c.before() + (seq![t] + taken) + tail);
    assert(s.segments == c.before() + (seq![left] + seq![next]) + tail);
    lemma_join(c.before() + (seq![t] + taken), tail);
    lemma_join(c.before(), seq![t] + taken);
    lemma_join(seq![t], taken);
    lemma_join(c.before() + (seq![left] + seq![next]), tail);
    lemma_join(c.before(), seq![left] + seq![next]);
    lemma_join(seq![left], seq![next]);
    lemma_join_one(t);
    lemma_join_one(left);
    lemma_join_one(next);
    if more {
        lemma_join_one(c.segments[f + 1]);
    }
    assert(left.reading + next.reading == t.reading + reading_of(taken));
    assert(s.before() == c.before());
}

/// Shrinking and expanding again gives every reading back.
pub proof fn expand_undoes_shrink(c: ConversionModel)
    requires
        c.can_shrink(),
    ensures
        c.shrunk().can_expand(),
        c.shrunk().expanded().target().reading == c.target().reading,
        reading_of(c.shrunk().expanded().segments) == reading_of(c.segments),
{
    shrinking_keeps_reading(c);
    expanding_keeps_reading(c.shrunk());
    let r = c.target().reading;
    assert(r.drop_last().push(r.last()) == r);
}

/// Expanding gives the focused segment exactly one character, the first of the next segment;
/// both show what is read then. A segment that had no other character is gone, and what stands
/// after it stays.
pub proof fn expanding_takes_one_character(c: ConversionModel)
    requires
        c.wf(),
        c.can_expand(),
    ensures
        ({
            let next = c.segments[c.focused + 1].reading;
            let then = c.expanded();
            &&& then.focused == c.focused
            &&& then.list is None
            &&& then.target().reading == c.target().reading.push(next[0])
            &&& then.target().surface == then.target().reading
            &&& next.len() == 1 ==> then.after() == c.segments.skip(c.focused + 2)
            &&& next.len() > 1 ==> then.segments.len() == c.segments.len()
                && then.after()[0].reading == next.skip(1) && then.after()[0].surface
                == then.after()[0].reading && then.after().skip(1) == c.segments.skip(c.focused + 2)
        }),
{
    let then = c.expanded();
    let tail = c.segments.skip(c.focused + 2);
    let rest = c.segments[c.focused + 1].reading.skip(1);
    if rest.len() == 0 {
        assert(then.after() =~= tail);
    } else {
        assert(then.after() =~= seq![unconverted(rest)] + tail);
        assert(then.after().skip(1) =~= tail);
    }
}

/// Shrinking takes exactly one character from the focused segment, its last, and puts it in
/// front of the next segment, which shows what is read then; what stands after it stays. A
/// conversion that the focused segment shows stays too.
pub proof fn shrinking_gives_one_character(c: ConversionModel)
    requires
        c.can_shrink(),
    ensures
        ({
            let r = c.target().reading;
            let then = c.shrunk();
            let has_next = c.focused + 1 < c.segments.len();
            &&& then.focused == c.focused
            &&& then.list is None
            &&& then.target().reading.push(r.last()) == r
            &&& c.target().surface != r ==> then.target().surface == c.target().surface
            &&& c.target().surface == r ==> then.target().surface == then.target().reading
            &&& then.after().len() > 0
            &&& then.after()[0].surface == then.after()[0].reading
            &&& !has_next ==> then.after().len() == 1 && then.after()[0].reading == seq![r.last()]
            &&& has_next ==> then.after()[0].reading == seq![r.last()] + c.segments[c.focused
                + 1].reading && then.after().skip(1) == c.segments.skip(c.focused + 2)
        }),
{
    let then = c.shrunk();
    let r = c.target().reading;
    assert(r.drop_last().push(r.last()) =~= r);
    if c.focused + 1 < c.segments.len() {
        assert(then.after().skip(1) =~= c.segments.skip(c.focused + 2));
    }
}

/// Making one segment of some blocks changes neither what is read nor what is shown, and leaves
/// the blocks before and after them as they are. The new segment has the focus.
pub proof fn merging_blocks_keeps_text(blocks: Seq<SegmentView>, start: int, end: int)
    requires
        0 <= start < end <= blocks.len(),
    ensures
        ({
            let c = windowed(blocks, start, end);
            &&& c.wf()
            &&& reading_of(c.segments) == reading_of(blocks)
            &&& surface_of(c.segments) == surface_of(blocks)
            &&& c.before() == blocks.take(start)
            &&& c.after() == blocks.skip(end)
            &&& c.list is None
            &&& end == start + 1 ==> c.target() == blocks[start]
        }),
{
    let c = windowed(blocks, start, end);
    let front = blocks.take(start);
    let mid = blocks.subrange(start, end);
    let back = blocks.skip(end);
    let one = merged(blocks, start, end);
    assert(c.segments =~= front + seq![one] + back);
    assert(blocks =~= front + mid + back);
    lemma_join(front + seq![one], back);
    lemma_join(front, seq![one]);
    lemma_join(front + mid, back);
    lemma_join(front, mid);
    lemma_join_one(one);
    assert(c.before() =~= front);
    assert(c.after() =~= back);
    if end == start + 1 {
        assert(mid =~= seq![blocks[start]]);
        lemma_join_one(blocks[start]);
    }
}

/// A selection that lies within the blocks is taken as it is. Of any other, the blocks that
/// there are are taken, or the one next to it.
pub proof fn selection_is_made_to_fit(len: int, sel_start: int, sel_end: int)
    requires
        len > 0,
        0 <= sel_start,
    ensures
        ({
            let start = clamped_start(len, sel_start);
            let end = clamped_end(len, start, sel_end);
            &&& 0 <= start < end <= len
            &&& sel_start < len ==> start == sel_start
            &&& sel_start >= len ==> start == len - 1
            &&& sel_start < sel_end <= len ==> end == sel_end
            &&& sel_end > len ==> end == len
            &&& sel_end <= start ==> end == start + 1
        }),
{
}

} // verus!
