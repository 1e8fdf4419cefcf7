//! Layout of the candidate window.
//!
//! The window lists candidates with their numbers, a status line above them and the
//! page number below. All measures grow with the font in the same proportion.

use crate::engine::conversion::{option_view, views};
use crate::text::{concat3, decimal, decimal_u64};
use vstd::prelude::*;

verus! {

/// The font height for which the measures below are given.
pub const FONT_HEIGHT: i32 = 17;

pub const FONT_HEIGHT_MIN: i32 = 10;

pub const FONT_HEIGHT_MAX: i32 = 72;

pub const PADDING_X: i32 = 10;

pub const PADDING_Y: i32 = 4;

pub const ITEM_HEIGHT: i32 = 26;

/// Least width of the window.
pub const WIN_WIDTH_MIN: i32 = 260;

/// Greatest width of the window.
pub const WIN_WIDTH_MAX: i32 = 900;

/// Height of the line with the page number.
pub const PAGER_HEIGHT: i32 = 22;

/// Height of the status line.
pub const STATUS_HEIGHT: i32 = 22;

/// Assumed height of the caret, where the window is put above it.
pub const CARET_HEIGHT_ESTIMATE: i32 = 24;

/// A measure that is `base` for the usual font, for a font of height `font`.
pub open spec fn scaled_to(base: int, font: int) -> int {
    base * font / 17
}

/// Whether a font height is one that can be set.
pub open spec fn is_font_height(font: int) -> bool {
    FONT_HEIGHT_MIN <= font <= FONT_HEIGHT_MAX
}

fn scaled(base: i32, font: i32) -> (r: i32)
    requires
        0 <= base <= 1000,
        is_font_height(font as int),
    ensures
        r == scaled_to(base as int, font as int),
        0 <= r <= 4236,
{
    assert(0 <= base * font <= 1000 * 72) by (nonlinear_arith)
        requires
            0 <= base <= 1000,
            10 <= font <= 72,
    ;
    base * font / 17
}

/// What the window shows.
#[derive(Debug, PartialEq)]
pub struct CandData {
    /// The candidates of the open page.
    pub candidates: Vec<String>,
    /// Place of the selection on the page.
    pub selected: usize,
    /// Which page is open, empty for a single page.
    pub page_info: String,
    /// A line above the candidates.
    pub status_line: Option<String>,
}

#[verifier::ext_equal]
pub struct CandModel {
    pub candidates: Seq<Seq<char>>,
    pub selected: int,
    pub page_info: Seq<char>,
    pub status_line: Option<Seq<char>>,
}

impl View for CandData {
    type V = CandModel;

    open spec fn view(&self) -> CandModel {
        CandModel {
            candidates: views(self.candidates@),
            selected: self.selected as int,
            page_info: self.page_info@,
            status_line: option_view(self.status_line),
        }
    }
}

impl CandModel {
    pub open spec fn has_pager(self) -> bool {
        self.page_info.len() > 0
    }

    pub open spec fn has_status(self) -> bool {
        self.status_line is Some
    }
}

impl Default for CandData {
    fn default() -> (r: Self)
        ensures
            r@ == (CandModel {
                candidates: Seq::empty(),
                selected: 0,
                page_info: Seq::empty(),
                status_line: None,
            }),
    {
        let candidates: Vec<String> = Vec::new();
        assert(views(candidates@) =~= Seq::empty());
        CandData { candidates, selected: 0, page_info: String::new(), status_line: None }
    }
}

/// Height of a window with `n` candidates in a font of height `font`.
pub open spec fn height_of(font: int, n: int, has_pager: bool, has_status: bool) -> int {
    scaled_to(PADDING_Y as int, font) * 2 + n * scaled_to(ITEM_HEIGHT as int, font) + (
    if has_pager {
        scaled_to(PAGER_HEIGHT as int, font)
    } else {
        0
    }) + (if has_status {
        scaled_to(STATUS_HEIGHT as int, font)
    } else {
        0
    })
}

/// Height of a window with `n` candidates.
pub fn window_height(font: i32, n: usize, has_pager: bool, has_status: bool) -> (r: i32)
    requires
        is_font_height(font as int),
        height_of(font as int, n as int, has_pager, has_status) <= i32::MAX,
    ensures
        r == height_of(font as int, n as int, has_pager, has_status),
{
    let pad: i32 = scaled(PADDING_Y, font);
    let item: i32 = scaled(ITEM_HEIGHT, font);
    let pager: i32 = if has_pager {
        scaled(PAGER_HEIGHT, font)
    } else {
        0
    };
    let status: i32 = if has_status {
        scaled(STATUS_HEIGHT, font)
    } else {
        0
    };
    proof {
        let i = scaled_to(ITEM_HEIGHT as int, font as int);
        assert(i >= 1) by (nonlinear_arith)
            requires
                i == 26 * font / 17,
                font >= 10,
        ;
        assert(0 <= n <= n * i) by (nonlinear_arith)
            requires
                i >= 1,
                n >= 0,
        ;
        assert(n as i32 == n);
    }
    pad * 2 + n as i32 * item + pager + status
}

/// The greatest font height up to `wanted` in which the window fits into
/// `work_height`; the least font height where none does.
pub fn fit_font_height(
    wanted: i32,
    n: usize,
    has_pager: bool,
    has_status: bool,
    work_height: i32,
) -> (r: i32)
    requires
        is_font_height(wanted as int),
        height_of(FONT_HEIGHT_MAX as int, n as int, has_pager, has_status) <= i32::MAX,
    ensures
        FONT_HEIGHT_MIN <= r <= wanted,
        r > FONT_HEIGHT_MIN ==> height_of(r as int, n as int, has_pager, has_status)
            <= work_height,
        forall|h: int|
            r < h <= wanted ==> #[trigger] height_of(h, n as int, has_pager, has_status)
                > work_height,
{
    let mut font: i32 = wanted;
    while font > FONT_HEIGHT_MIN
        invariant
            FONT_HEIGHT_MIN <= font <= wanted <= FONT_HEIGHT_MAX,
            height_of(FONT_HEIGHT_MAX as int, n as int, has_pager, has_status) <= i32::MAX,
            forall|h: int|
                font < h <= wanted ==> #[trigger] height_of(h, n as int, has_pager, has_status)
                    > work_height,
        decreases font,
    {
        proof {
            lemma_height_grows(
                font as int,
                FONT_HEIGHT_MAX as int,
                n as int,
                has_pager,
                has_status,
            );
        }
        if window_height(font, n, has_pager, has_status) <= work_height {
            return font;
        }
        font -= 1;
    }
    font
}

proof fn lemma_scaled_grows(base: int, a: int, b: int)
    requires
        0 <= base,
        0 <= a <= b,
    ensures
        0 <= scaled_to(base, a) <= scaled_to(base, b),
{
    assert(0 <= base * a <= base * b) by (nonlinear_arith)
        requires
            0 <= base,
            0 <= a <= b,
    ;
}

proof fn lemma_height_grows(a: int, b: int, n: int, has_pager: bool, has_status: bool)
    requires
        0 <= a <= b,
        n >= 0,
    ensures
        height_of(a, n, has_pager, has_status) <= height_of(b, n, has_pager, has_status),
{
    lemma_scaled_grows(PADDING_Y as int, a, b);
    lemma_scaled_grows(ITEM_HEIGHT as int, a, b);
    lemma_scaled_grows(PAGER_HEIGHT as int, a, b);
    lemma_scaled_grows(STATUS_HEIGHT as int, a, b);
    let x = scaled_to(ITEM_HEIGHT as int, a);
    let y = scaled_to(ITEM_HEIGHT as int, b);
    assert(n * x <= n * y) by (nonlinear_arith)
        requires
            n >= 0,
            x <= y,
    ;
}

/// A candidate as it is written, with its number on the page.
pub open spec fn item_line(i: int, candidate: Seq<char>) -> Seq<char> {
    decimal((i + 1) as nat) + " "@ + candidate
}

/// The page number as it is written.
pub open spec fn pager_line(page_info: Seq<char>) -> Seq<char> {
    "◀  "@ + page_info + "  ▶"@
}

fn item_text(i: usize, candidate: &String) -> (r: String)
    requires
        i < usize::MAX,
    ensures
        r@ == item_line(i as int, candidate@),
{
    concat3(decimal_u64((i + 1) as u64).as_str(), " ", candidate.as_str())
}

fn pager_text(page_info: &String) -> (r: String)
    ensures
        r@ == pager_line(page_info@),
{
    concat3("◀  ", page_info.as_str(), "  ▶")
}

/// The lines of the window, in the order in which their widths are compared.
pub open spec fn all_lines(d: CandModel) -> Seq<Seq<char>> {
    Seq::new(d.candidates.len(), |i: int| item_line(i, d.candidates[i])) + (match d.status_line {
        Some(s) => seq![s],
        None => seq![],
    }) + (if d.has_pager() {
        seq![pager_line(d.page_info)]
    } else {
        seq![]
    })
}

/// The lines whose widths decide how wide the window is.
pub fn lines_to_measure(d: &CandData) -> (r: Vec<String>)
    ensures
        views(r@) == all_lines(d@),
{
    let mut r: Vec<String> = Vec::new();
    let ghost items = Seq::new(d@.candidates.len(), |i: int| item_line(i, d@.candidates[i]));
    let mut i: usize = 0;
    while i < d.candidates.len()
        invariant
            i <= d.candidates@.len(),
            items == Seq::new(d@.candidates.len(), |i: int| item_line(i, d@.candidates[i])),
            r@.len() == i,
            forall|j: int| 0 <= j < i ==> (#[trigger] r@[j])@ == items[j],
        decreases d.candidates.len() - i,
    {
        r.push(item_text(i, &d.candidates[i]));
        i += 1;
    }
    assert(views(r@) =~= items);
    if let Some(s) = &d.status_line {
        let ghost before = r@;
        r.push(s.clone());
        assert(views(r@) =~= views(before).push(s@));
    }
    let ghost before = r@;
    if !d.page_info.as_str().is_empty() {
        r.push(pager_text(&d.page_info));
        assert(views(r@) =~= views(before).push(pager_line(d.page_info@)));
    }
    assert(views(r@) =~= all_lines(d@));
    r
}

/// How many of the characters are ASCII.
pub open spec fn ascii_count(s: Seq<char>) -> int
    decreases s.len(),
{
    if s.len() == 0 {
        0
    } else {
        ascii_count(s.drop_last()) + (if (s.last() as u32) < 128 {
            1int
        } else {
            0
        })
    }
}

/// The width of a line by rule of thumb: half a square for ASCII, a square for others.
pub open spec fn rough_width(s: Seq<char>) -> int {
    ascii_count(s) * 9 + (s.len() - ascii_count(s)) * 18
}

/// The width of a line that could not be measured.
pub fn estimate_width(text: &str) -> (r: i32)
    requires
        text@.len() * 18 <= i32::MAX,
    ensures
        r == rough_width(text@),
{
    let mut ascii: i32 = 0;
    let mut other: i32 = 0;
    for c in it: text.chars()
        invariant
            it.seq() == text@,
            text@.len() * 18 <= i32::MAX,
            ascii == ascii_count(text@.take(it.index() as int)),
            ascii + other == it.index(),
            0 <= ascii,
            0 <= other,
    {
        proof {
            let n = it.index() as int;
            assert(text@.take(n + 1).drop_last() == text@.take(n));
        }
        let n: u32 = c as u32;
        if n < 128 {
            ascii += 1;
        } else {
            other += 1;
        }
    }
    assert(text@.take(text@.len() as int) == text@);
    ascii * 9 + other * 18
}

/// The greatest of some widths, 0 where there is none above.
pub open spec fn widest(widths: Seq<i32>) -> int
    decreases widths.len(),
{
    if widths.len() == 0 {
        0
    } else if widths.last() > widest(widths.drop_last()) {
        widths.last() as int
    } else {
        widest(widths.drop_last())
    }
}

/// The width of a window whose widest line is `text` wide.
pub open spec fn width_of(font: int, text: int) -> int {
    let needed = scaled_to(PADDING_X as int, font) + text + scaled_to(PADDING_X as int, font) + 2;
    let min = scaled_to(WIN_WIDTH_MIN as int, font);
    let max = scaled_to(WIN_WIDTH_MAX as int, font);
    if needed < min {
        min
    } else if needed > max {
        max
    } else {
        needed
    }
}

/// How wide the window is, from the widths of its lines; the least width where they
/// could not be measured at all.
pub fn compute_needed_width(font: i32, widths: Option<&Vec<i32>>) -> (r: i32)
    requires
        is_font_height(font as int),
        widths is Some ==> width_limit(font as int, widest(widths->0@)),
    ensures
        r == (match widths {
            Some(w) => width_of(font as int, widest(w@)),
            None => scaled_to(WIN_WIDTH_MIN as int, font as int),
        }),
        scaled_to(WIN_WIDTH_MIN as int, font as int) <= r <= scaled_to(
            WIN_WIDTH_MAX as int,
            font as int,
        ),
{
    let min: i32 = scaled(WIN_WIDTH_MIN, font);
    let max: i32 = scaled(WIN_WIDTH_MAX, font);
    proof {
        assert(260 * font / 17 <= 900 * font / 17) by (nonlinear_arith)
            requires
                font >= 0,
        ;
    }
    let w = match widths {
        Some(w) => w,
        None => {
            return min;
        },
    };
    let mut text: i32 = 0;
    let mut i: usize = 0;
    while i < w.len()
        invariant
            i <= w@.len(),
            text == widest(w@.take(i as int)),
            0 <= text,
        decreases w.len() - i,
    {
        assert(w@.take(i + 1).drop_last() == w@.take(i as int));
        if w[i] > text {
            text = w[i];
        }
        i += 1;
    }
    assert(w@.take(i as int) == w@);
    let pad: i32 = scaled(PADDING_X, font);
    let needed: i32 = pad + text + pad + 2;
    if needed < min {
        min
    } else if needed > max {
        max
    } else {
        needed
    }
}

/// The line widths that still fit the arithmetic of screen coordinates.
pub open spec fn width_limit(font: int, text: int) -> bool {
    scaled_to(PADDING_X as int, font) * 2 + text + 2 <= i32::MAX
}

/// Top of the window: under the caret, or above it where the window would leave the
/// usable part of the screen at the bottom.
pub open spec fn window_top(caret_bottom: int, height: int, work: Option<(i32, i32)>) -> int {
    match work {
        Some((_, bottom)) => if caret_bottom + height > bottom {
            caret_bottom - CARET_HEIGHT_ESTIMATE - height
        } else {
            caret_bottom + 1
        },
        None => caret_bottom + 1,
    }
}

/// Top of the window. `work` holds top and bottom of the usable part of the screen,
/// where it is known.
pub fn calc_window_y(caret_bottom: i32, win_h: i32, work: Option<(i32, i32)>) -> (r: i32)
    requires
        0 <= win_h,
        caret_bottom + win_h <= i32::MAX,
        caret_bottom < i32::MAX,
        caret_bottom - CARET_HEIGHT_ESTIMATE - win_h >= i32::MIN,
    ensures
        r == window_top(caret_bottom as int, win_h as int, work),
{
    if let Some((_, bottom)) = work {
        if caret_bottom + win_h > bottom {
            return caret_bottom - CARET_HEIGHT_ESTIMATE - win_h;
        }
    }
    caret_bottom + 1
}

/// Which kind of line a row is.
#[derive(Clone, Copy, Debug, PartialEq, Eq, Structural)]
pub enum RowKind {
    Status,
    Item { selected: bool },
    Pager,
}

/// One line of the window: its edges and where its text begins.
#[derive(Debug, PartialEq)]
pub struct Row {
    pub kind: RowKind,
    pub top: i32,
    pub bottom: i32,
    pub text_x: i32,
    pub text_y: i32,
    pub text: String,
}

#[verifier::ext_equal]
pub struct RowModel {
    pub kind: RowKind,
    pub top: int,
    pub bottom: int,
    pub text_x: int,
    pub text_y: int,
    pub text: Seq<char>,
}

impl View for Row {
    type V = RowModel;

    open spec fn view(&self) -> RowModel {
        RowModel {
            kind: self.kind,
            top: self.top as int,
            bottom: self.bottom as int,
            text_x: self.text_x as int,
            text_y: self.text_y as int,
            text: self.text@,
        }
    }
}

/// A row of the given height with its text centred.
pub open spec fn row_at(
    font: int,
    kind: RowKind,
    top: int,
    height: int,
    text: Seq<char>,
) -> RowModel {
    RowModel {
        kind,
        top,
        bottom: top + height,
        text_x: scaled_to(PADDING_X as int, font),
        text_y: top + (height - font) / 2,
        text,
    }
}

/// Where the candidates begin.
pub open spec fn items_top(font: int, has_status: bool) -> int {
    scaled_to(PADDING_Y as int, font) + if has_status {
        scaled_to(STATUS_HEIGHT as int, font)
    } else {
        0
    }
}

/// The rows of the window, from top to bottom.
#[verifier::opaque]
pub open spec fn rows_of(font: int, d: CandModel) -> Seq<RowModel> {
    let item = scaled_to(ITEM_HEIGHT as int, font);
    let first = items_top(font, d.has_status());
    (match d.status_line {
        Some(s) => seq![
            row_at(
                font,
                RowKind::Status,
                scaled_to(PADDING_Y as int, font),
                scaled_to(STATUS_HEIGHT as int, font),
                s,
            ),
        ],
        None => seq![],
    }) + Seq::new(
        d.candidates.len(),
        |i: int|
            row_at(
                font,
                RowKind::Item { selected: i == d.selected },
                first + i * item,
                item,
                item_line(i, d.candidates[i]),
            ),
    ) + (if d.has_pager() {
        seq![
            row_at(
                font,
                RowKind::Pager,
                first + d.candidates.len() * item,
                scaled_to(PAGER_HEIGHT as int, font),
                pager_line(d.page_info),
            ),
        ]
    } else {
        seq![]
    })
}

fn make_row(font: i32, kind: RowKind, top: i32, height: i32, text: String) -> (r: Row)
    requires
        is_font_height(font as int),
        0 <= top,
        font <= height,
        top + height <= i32::MAX,
    ensures
        r@ == row_at(font as int, kind, top as int, height as int, text@),
{
    Row {
        kind,
        top,
        bottom: top + height,
        text_x: scaled(PADDING_X, font),
        text_y: top + (height - font) / 2,
        text,
    }
}

/// What is painted: the rows of the window, none where there is no candidate.
pub fn draw(font: i32, d: &CandData) -> (r: Vec<Row>)
    requires
        is_font_height(font as int),
        height_of(
            font as int,
            d@.candidates.len() as int,
            d@.has_pager(),
            d@.has_status(),
        ) <= i32::MAX,
    ensures
        views(r@) == (if d@.candidates.len() == 0 {
            Seq::empty()
        } else {
            rows_of(font as int, d@)
        }),
{
    let mut rows: Vec<Row> = Vec::new();
    assert(views(rows@) =~= Seq::empty());
    if d.candidates.len() == 0 {
        return rows;
    }
    let ghost f = font as int;
    let pad: i32 = scaled(PADDING_Y, font);
    let item: i32 = scaled(ITEM_HEIGHT, font);
    let n: usize = d.candidates.len();
    proof {
        let i = scaled_to(ITEM_HEIGHT as int, f);
        assert(26 * f / 17 >= f) by (nonlinear_arith)
            requires
                f >= 0,
        ;
        assert(22 * f / 17 >= f) by (nonlinear_arith)
            requires
                f >= 0,
        ;
        assert(0 <= n <= n * i) by (nonlinear_arith)
            requires
                i >= 1,
                n >= 0,
        ;
        assert(n as i32 == n);
    }
    let mut top: i32 = pad;
    if let Some(s) = &d.status_line {
        let height: i32 = scaled(STATUS_HEIGHT, font);
        rows.push(make_row(font, RowKind::Status, top, height, s.clone()));
        top = top + height;
    }
    let ghost status = match d@.status_line {
        Some(s) => seq![
            row_at(
                f,
                RowKind::Status,
                scaled_to(PADDING_Y as int, f),
                scaled_to(STATUS_HEIGHT as int, f),
                s,
            ),
        ],
        None => seq![],
    };
    assert(views(rows@) =~= status);
    let first: i32 = top;
    assert(first == items_top(f, d@.has_status()));
    let ghost items = Seq::new(
        n as nat,
        |i: int|
            row_at(
                f,
                RowKind::Item { selected: i == d@.selected },
                first + i * item,
                item as int,
                item_line(i, d@.candidates[i]),
            ),
    );
    let mut i: usize = 0;
    proof {
        assert(0 * item == 0);
        assert(status + items.take(0) =~= status);
    }
    while i < n
        invariant
            i <= n == d.candidates@.len(),
            f == font,
            is_font_height(f),
            0 < item,
            font <= item,
            0 <= first,
            first + n * item <= i32::MAX,
            top == first + i * item,
            items == Seq::new(
                n as nat,
                |i: int|
                    row_at(
                        f,
                        RowKind::Item { selected: i == d@.selected },
                        first + i * item,
                        item as int,
                        item_line(i, d@.candidates[i]),
                    ),
            ),
            views(rows@) == status + items.take(i as int),
        decreases n - i,
    {
        proof {
            assert(i * item + item == (i + 1) * item && (i + 1) * item <= n * item && 0 <= i * item)
                by (nonlinear_arith)
                requires
                    0 <= i < n,
                    0 < item,
            ;
        }
        let ghost before = rows@;
        rows.push(
            make_row(
                font,
                RowKind::Item { selected: i == d.selected },
                top,
                item,
                item_text(i, &d.candidates[i]),
            ),
        );
        assert(views(rows@) =~= views(before).push(items[i as int]));
        assert(status + items.take(i + 1) =~= (status + items.take(i as int)).push(
            items[i as int],
        ));
        top = top + item;
        i += 1;
    }
    assert(items.take(n as int) == items);
    let ghost before = rows@;
    if !d.page_info.as_str().is_empty() {
        let height: i32 = scaled(PAGER_HEIGHT, font);
        rows.push(make_row(font, RowKind::Pager, top, height, pager_text(&d.page_info)));
        assert(views(rows@) =~= views(before).push(
            row_at(
                f,
                RowKind::Pager,
                first + n * item,
                height as int,
                pager_line(d.page_info@),
            ),
        ));
    }
    proof {
        reveal(rows_of);
        assert(views(rows@) =~= rows_of(f, d@));
    }
    rows
}

/// The new contents of the window: nothing where there is no candidate, and the window
/// is hidden then.
pub fn show_with_status(
    page_candidates: Vec<String>,
    page_selected: usize,
    page_info: String,
    status_line: Option<String>,
) -> (r: Option<CandData>)
    ensures
        page_candidates@.len() == 0 ==> r is None,
        page_candidates@.len() > 0 ==> r is Some && r->0@ == (CandModel {
            candidates: views(page_candidates@),
            selected: page_selected as int,
            page_info: page_info@,
            status_line: option_view(status_line),
        }),
{
    if page_candidates.len() == 0 {
        None
    } else {
        Some(
            CandData {
                candidates: page_candidates,
                selected: page_selected,
                page_info,
                status_line,
            },
        )
    }
}

/// The new contents of the window, without a status line.
pub fn show(page_candidates: Vec<String>, page_selected: usize, page_info: String) -> (r: Option<
    CandData,
>)
    ensures
        page_candidates@.len() == 0 ==> r is None,
        page_candidates@.len() > 0 ==> r is Some && r->0@ == (CandModel {
            candidates: views(page_candidates@),
            selected: page_selected as int,
            page_info: page_info@,
            status_line: None,
        }),
{
    show_with_status(page_candidates, page_selected, page_info, None)
}

/// The window has to be painted.
pub const WM_PAINT: u32 = 0x000f;

/// The background of the window is to be erased.
pub const WM_ERASEBKGND: u32 = 0x0014;

/// A timer has run out.
pub const WM_TIMER: u32 = 0x0113;

/// Changes of focus wait to be worked off.
pub const WM_APP_FOCUS_CHANGED: u32 = 0x8001;

/// The timer that asks whether a conversion is finished.
pub const WAITING_TIMER_ID: usize = 0x1234;

/// The timer of live conversion.
pub const LIVE_TIMER_ID: usize = 0x1235;

/// What a message to the window asks for.
#[derive(Clone, Copy, Debug, PartialEq, Eq, Structural)]
pub enum WindowTask {
    Paint,
    /// Nothing, as everything is painted over: the background counts as erased.
    KeepBackground,
    /// Ask whether a conversion is finished.
    PollWaiting,
    /// A tick of live conversion.
    PollLive,
    /// Work off the changes of focus.
    WorkOffFocus,
    /// Nothing.
    Nothing,
    /// What the system does with it.
    Default,
}

/// What a message to the window asks for.
pub open spec fn task_of(msg: u32, wparam: usize) -> WindowTask {
    if msg == WM_PAINT {
        WindowTask::Paint
    } else if msg == WM_ERASEBKGND {
        WindowTask::KeepBackground
    } else if msg == WM_TIMER {
        if wparam == WAITING_TIMER_ID {
            WindowTask::PollWaiting
        } else if wparam == LIVE_TIMER_ID {
            WindowTask::PollLive
        } else {
            WindowTask::Nothing
        }
    } else if msg == WM_APP_FOCUS_CHANGED {
        WindowTask::WorkOffFocus
    } else {
        WindowTask::Default
    }
}

/// What a message to the window asks for.
pub fn wnd_proc(msg: u32, wparam: usize) -> (r: WindowTask)
    ensures
        r == task_of(msg, wparam),
{
    if msg == WM_PAINT {
        WindowTask::Paint
    } else if msg == WM_ERASEBKGND {
        WindowTask::KeepBackground
    } else if msg == WM_TIMER {
        if wparam == WAITING_TIMER_ID {
            WindowTask::PollWaiting
        } else if wparam == LIVE_TIMER_ID {
            WindowTask::PollLive
        } else {
            WindowTask::Nothing
        }
    } else if msg == WM_APP_FOCUS_CHANGED {
        WindowTask::WorkOffFocus
    } else {
        WindowTask::Default
    }
}

/// Moves the selection of the window.
pub fn update_selection(d: &mut CandData, page_selected: usize, page_info: String)
    ensures
        final(d)@ == (CandModel {
            selected: page_selected as int,
            page_info: page_info@,
            ..old(d)@
        }),
{
    d.selected = page_selected;
    d.page_info = page_info;
}

spec fn status_rows(d: CandModel) -> int {
    if d.has_status() {
        1
    } else {
        0
    }
}

proof fn lemma_rows(font: int, d: CandModel)
    ensures
        rows_of(font, d).len() == status_rows(d) + d.candidates.len() + (if d.has_pager() {
            1int
        } else {
            0
        }),
        d.has_status() ==> rows_of(font, d)[0].top == scaled_to(PADDING_Y as int, font)
            && rows_of(font, d)[0].bottom == items_top(font, true),
        d.has_pager() ==> rows_of(font, d).last().top == items_top(font, d.has_status())
            + d.candidates.len() * scaled_to(ITEM_HEIGHT as int, font) && rows_of(
            font,
            d,
        ).last().bottom == rows_of(font, d).last().top + scaled_to(PAGER_HEIGHT as int, font),
{
    reveal(rows_of);
}

proof fn lemma_item_row(font: int, d: CandModel, k: int)
    requires
        0 <= k < d.candidates.len(),
    ensures
        rows_of(font, d)[status_rows(d) + k].top == items_top(font, d.has_status()) + k * scaled_to(
            ITEM_HEIGHT as int,
            font,
        ),
        rows_of(font, d)[status_rows(d) + k].bottom == items_top(font, d.has_status()) + (k + 1)
            * scaled_to(ITEM_HEIGHT as int, font),
{
    reveal(rows_of);
    let item = scaled_to(ITEM_HEIGHT as int, font);
    assert(k * item + item == (k + 1) * item) by (nonlinear_arith);
}

/// The rows lie under each other without gap or overlap, and fill the window between
/// its upper and lower padding.
#[verifier::spinoff_prover]
#[verifier::rlimit(50)]
pub proof fn rows_fill_the_window(font: int, d: CandModel)
    requires
        is_font_height(font),
        d.candidates.len() > 0,
    ensures
        rows_of(font, d).len() > 0,
        rows_of(font, d)[0].top == scaled_to(PADDING_Y as int, font),
        rows_of(font, d).last().bottom + scaled_to(PADDING_Y as int, font) == height_of(
            font,
            d.candidates.len() as int,
            d.has_pager(),
            d.has_status(),
        ),
        forall|i: int|
            0 <= i < rows_of(font, d).len() - 1 ==> (#[trigger] rows_of(font, d)[i]).bottom
                == rows_of(font, d)[i + 1].top,
{
    let n = d.candidates.len() as int;
    let s = status_rows(d);
    let item = scaled_to(ITEM_HEIGHT as int, font);
    let first = items_top(font, d.has_status());
    lemma_rows(font, d);
    assert(rows_of(font, d)[s].top == first) by {
        lemma_item_row(font, d, 0);
        assert(0 * item == 0) by (nonlinear_arith);
    }
    assert(rows_of(font, d)[s + n - 1].bottom == first + n * item) by {
        lemma_item_row(font, d, n - 1);
        assert(n - 1 + 1 == n);
    }
    assert forall|i: int| 0 <= i < rows_of(font, d).len() - 1 implies (#[trigger] rows_of(
        font,
        d,
    )[i]).bottom == rows_of(font, d)[i + 1].top by {
        if s <= i {
            let k = i - s;
            lemma_item_row(font, d, k);
            if k + 1 < n {
                lemma_item_row(font, d, k + 1);
            } else {
                assert(k + 1 == n);
            }
        }
    }
}

/// The window is under the caret and within the usable part of the screen but for one dot,
/// or it ends above the line of the caret.
pub proof fn window_is_beside_caret(caret_bottom: int, height: int, top: i32, bottom: i32)
    ensures
        ({
            let y = window_top(caret_bottom, height, Some((top, bottom)));
            ||| y > caret_bottom && y + height <= bottom + 1
            ||| y + height == caret_bottom - CARET_HEIGHT_ESTIMATE
        }),
{
}

/// For the usual font every measure is the one given for it.
pub proof fn usual_font_is_unscaled(base: int)
    ensures
        scaled_to(base, FONT_HEIGHT as int) == base,
{
}

/// Measures grow with the font in proportion, rounded down.
pub proof fn measures_follow_the_font(base: int, font: int)
    ensures
        scaled_to(base, font) * FONT_HEIGHT <= base * font < scaled_to(base, font) * FONT_HEIGHT
            + FONT_HEIGHT,
{
    let p = base * font;
    assert((p / 17) * 17 <= p < (p / 17) * 17 + 17);
}

/// Every candidate has a row with its number and its text, the selected one and no other is
/// marked; the status line stands above and the page number below. The text of a row lies
/// within the row, as far from its top as from its bottom.
pub proof fn every_candidate_has_its_row(font: int, d: CandModel, i: int)
    requires
        is_font_height(font),
        0 <= i < d.candidates.len(),
    ensures
        ({
            let rows = rows_of(font, d);
            let first: int = if d.status_line is Some {
                1
            } else {
                0
            };
            let row = rows[first + i];
            &&& rows.len() == first + d.candidates.len() + (if d.page_info.len() > 0 {
                1int
            } else {
                0
            })
            &&& row.kind is Item
            &&& row.kind->selected == (i == d.selected)
            &&& row.text == decimal((i + 1) as nat) + " "@ + d.candidates[i]
            &&& d.status_line is Some ==> rows[0].kind is Status && rows[0].text
                == d.status_line->0
            &&& d.page_info.len() > 0 ==> rows.last().kind is Pager && rows.last().text
                == "◀  "@ + d.page_info + "  ▶"@
            &&& forall|k: int|
                0 <= k < rows.len() ==> {
                    let r = #[trigger] rows[k];
                    let above = r.text_y - r.top;
                    let below = r.bottom - (r.text_y + font);
                    &&& 0 <= above <= below <= above + 1
                    &&& r.text_x * 17 <= 10 * font < r.text_x * 17 + 17
                }
        }),
{
    reveal(rows_of);
    let rows = rows_of(font, d);
    measures_follow_the_font(PADDING_X as int, font);
    measures_follow_the_font(ITEM_HEIGHT as int, font);
    measures_follow_the_font(STATUS_HEIGHT as int, font);
    measures_follow_the_font(PAGER_HEIGHT as int, font);
    assert(d.page_info.len() > 0 ==> rows.last().kind is Pager);
    assert forall|k: int| 0 <= k < rows.len() implies {
        let r = #[trigger] rows[k];
        let above = r.text_y - r.top;
        let below = r.bottom - (r.text_y + font);
        &&& 0 <= above <= below <= above + 1
        &&& r.text_x * 17 <= 10 * font < r.text_x * 17 + 17
    } by {
        let r = rows[k];
        let h = r.bottom - r.top;
        assert(r.kind is Item ==> h == scaled_to(ITEM_HEIGHT as int, font));
        assert(r.kind is Status ==> h == scaled_to(STATUS_HEIGHT as int, font));
        assert(r.kind is Pager ==> h == scaled_to(PAGER_HEIGHT as int, font));
    }
}

/// Every row that is painted is measured, and nothing else is.
pub proof fn every_row_is_measured(font: int, d: CandModel)
    ensures
        all_lines(d).len() == rows_of(font, d).len(),
        forall|k: int|
            0 <= k < rows_of(font, d).len() ==> all_lines(d).contains(
                (#[trigger] rows_of(font, d)[k]).text,
            ),
{
    reveal(rows_of);
    let rows = rows_of(font, d);
    let lines = all_lines(d);
    assert forall|k: int| 0 <= k < rows.len() implies lines.contains(
        (#[trigger] rows[k]).text,
    ) by {
        let s: int = if d.has_status() {
            1
        } else {
            0
        };
        let n = d.candidates.len() as int;
        if k < s {
            assert(lines[n] == rows[k].text);
        } else if k < s + n {
            assert(lines[k - s] == rows[k].text);
        } else {
            assert(lines[n + s] == rows[k].text);
        }
    }
}

/// The widest line is at least as wide as every line, and one of them unless there is none.
pub proof fn widest_line_is_one_of_them(widths: Seq<i32>)
    ensures
        widest(widths) >= 0,
        forall|k: int| 0 <= k < widths.len() ==> #[trigger] widths[k] <= widest(widths),
        widest(widths) > 0 ==> exists|k: int|
            0 <= k < widths.len() && #[trigger] widths[k] == widest(widths),
    decreases widths.len(),
{
    if widths.len() > 0 {
        let front = widths.drop_last();
        widest_line_is_one_of_them(front);
        assert(widths[widths.len() - 1] == widths.last());
        assert forall|k: int| 0 <= k < widths.len() implies #[trigger] widths[k] <= widest(
            widths,
        ) by {
            if k < front.len() {
                assert(widths[k] == front[k]);
            }
        }
        if widest(widths) > 0 && widths.last() <= widest(front) {
            let k = choose|k: int| 0 <= k < front.len() && #[trigger] front[k] == widest(front);
            assert(widths[k] == front[k]);
        }
    }
}

/// The window is wide enough for its widest line with the space beside it, unless it has its
/// greatest width; it is no wider than that, unless it has its least width.
pub proof fn window_fits_its_lines(font: int, text: int)
    requires
        is_font_height(font),
    ensures
        ({
            let needed = text + 2 * scaled_to(10, font) + 2;
            let w = width_of(font, text);
            &&& scaled_to(260, font) <= w <= scaled_to(900, font)
            &&& w < needed ==> w == scaled_to(900, font)
            &&& w > needed ==> w == scaled_to(260, font)
        }),
{
}

/// The rough width of a text is the sum of those of its characters, and characters other than
/// ASCII are twice as wide.
pub proof fn rough_width_goes_by_characters(a: Seq<char>, b: Seq<char>, c: char)
    ensures
        rough_width(a + b) == rough_width(a) + rough_width(b),
        rough_width(seq![c]) == (if (c as u32) < 128 {
            9int
        } else {
            18
        }),
    decreases b.len(),
{
    reveal_with_fuel(ascii_count, 2);
    assert(seq![c].drop_last() =~= Seq::<char>::empty());
    if b.len() == 0 {
        assert(a + b =~= a);
    } else {
        rough_width_goes_by_characters(a, b.drop_last(), c);
        assert((a + b).drop_last() =~= a + b.drop_last());
    }
}

/// The window is right under the caret wherever it fits there, or where nothing is known of the
/// screen.
pub proof fn window_is_under_caret_where_it_fits(
    caret_bottom: int,
    height: int,
    top: i32,
    bottom: i32,
)
    ensures
        window_top(caret_bottom, height, None) == caret_bottom + 1,
        caret_bottom + height <= bottom ==> window_top(
            caret_bottom,
            height,
            Some((top, bottom)),
        ) == caret_bottom + 1,
{
}

/// Timers and messages of the window lead each to its own task, and no other message does.
pub proof fn messages_have_their_tasks(msg: u32, wparam: usize)
    ensures
        task_of(msg, wparam) is Paint <==> msg == 0x000f,
        task_of(msg, wparam) is KeepBackground <==> msg == 0x0014,
        task_of(msg, wparam) is PollWaiting <==> msg == 0x0113 && wparam == 0x1234,
        task_of(msg, wparam) is PollLive <==> msg == 0x0113 && wparam == 0x1235,
        task_of(msg, wparam) is WorkOffFocus <==> msg == 0x8001,
        task_of(msg, wparam) is Nothing <==> msg == 0x0113 && wparam != 0x1234 && wparam != 0x1235,
{
}

} // verus!
