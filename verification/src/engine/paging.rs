//! A list of candidates shown in pages, with one candidate selected.

use vstd::prelude::*;

verus! {

/// Number of candidates on a page of the candidate window.
pub const PAGE_SIZE: usize = 9;

/// How many pages `len` candidates fill.
pub open spec fn page_count(len: int, page_size: int) -> int {
    if len == 0 {
        0
    } else {
        (len - 1) / page_size + 1
    }
}

/// Index of the first candidate of the page that shows `selected`.
pub open spec fn page_start(selected: int, page_size: int) -> int {
    (selected / page_size) * page_size
}

/// Index past the last candidate of the page that shows `selected`.
pub open spec fn page_end(len: int, selected: int, page_size: int) -> int {
    if page_start(selected, page_size) + page_size < len {
        page_start(selected, page_size) + page_size
    } else {
        len
    }
}

/// The selection after the current one, the first after the last.
pub open spec fn next_index(len: int, selected: int) -> int {
    (selected + 1) % len
}

/// The selection before the current one, the last before the first.
pub open spec fn prev_index(len: int, selected: int) -> int {
    if selected == 0 {
        len - 1
    } else {
        selected - 1
    }
}

/// The first candidate of the next page, of the first page after the last.
pub open spec fn next_page_index(len: int, selected: int, page_size: int) -> int {
    ((selected / page_size + 1) % page_count(len, page_size)) * page_size
}

/// The first candidate of the previous page, of the last page before the first.
pub open spec fn prev_page_index(len: int, selected: int, page_size: int) -> int {
    if selected / page_size == 0 {
        (page_count(len, page_size) - 1) * page_size
    } else {
        (selected / page_size - 1) * page_size
    }
}

/// The text beside a candidate list that shows which of several pages is open.
pub open spec fn page_info_text(page: int, pages: int) -> Seq<char> {
    if pages <= 1 {
        Seq::empty()
    } else {
        crate::text::decimal((page + 1) as nat) + seq!['/'] + crate::text::decimal(pages as nat)
    }
}

/// Number of pages.
pub fn pages(len: usize, page_size: usize) -> (r: usize)
    requires
        page_size > 0,
    ensures
        r == page_count(len as int, page_size as int),
{
    if len == 0 {
        0
    } else {
        assert((len - 1) / page_size as int <= len - 1) by (nonlinear_arith)
            requires
                page_size > 0,
                len > 0,
        ;
        (len - 1) / page_size + 1
    }
}

/// First and past-the-last index of the page that shows `selected`.
pub fn page_range(len: usize, selected: usize, page_size: usize) -> (r: (usize, usize))
    requires
        page_size > 0,
        page_start(selected as int, page_size as int) <= len,
    ensures
        r.0 == page_start(selected as int, page_size as int),
        r.1 == page_end(len as int, selected as int, page_size as int),
        r.0 <= r.1 <= len,
{
    proof {
        lemma_page_start_bounds(selected as int, page_size as int);
    }
    let start: usize = (selected / page_size) * page_size;
    let end: usize = if page_size < len - start {
        start + page_size
    } else {
        len
    };
    (start, end)
}

/// The next selection. Where it lies on another page it is that page's first
/// candidate.
pub fn next_with_wrap(len: usize, selected: usize, page_size: usize) -> (r: usize)
    requires
        len > 0,
        page_size > 0,
        selected < len,
    ensures
        r == next_index(len as int, selected as int),
        r < len,
{
    let next_idx: usize = if selected + 1 == len {
        0
    } else {
        selected + 1
    };
    proof {
        if selected + 1 < len {
            vstd::arithmetic::div_mod::lemma_small_mod((selected + 1) as nat, len as nat);
        } else {
            vstd::arithmetic::div_mod::lemma_mod_self_0(len as int);
        }
        lemma_page_start_bounds(next_idx as int, page_size as int);
        lemma_page_start_bounds(selected as int, page_size as int);
        lemma_page_crossing(selected as int, page_size as int);
        assert((0int / page_size as int) * page_size == 0) by (nonlinear_arith)
            requires
                page_size > 0,
        ;
    }
    let cur_page: usize = selected / page_size;
    let next_page: usize = next_idx / page_size;
    if next_page != cur_page {
        next_page * page_size
    } else {
        next_idx
    }
}

/// The previous selection.
pub fn prev_with_wrap(len: usize, selected: usize) -> (r: usize)
    requires
        len > 0,
    ensures
        r == prev_index(len as int, selected as int),
{
    if selected == 0 {
        len - 1
    } else {
        selected - 1
    }
}

/// The first candidate of the next page.
pub fn next_page_start(len: usize, selected: usize, page_size: usize) -> (r: usize)
    requires
        len > 0,
        page_size > 0,
        selected < len,
    ensures
        r == next_page_index(len as int, selected as int, page_size as int),
        r < len,
{
    let total: usize = pages(len, page_size);
    let cur: usize = selected / page_size;
    proof {
        lemma_page_in_range(len as int, selected as int, page_size as int);
        lemma_page_head_in_range(
            len as int,
            (selected as int / page_size as int + 1) % page_count(len as int, page_size as int),
            page_size as int,
        );
    }
    let next: usize = (cur + 1) % total;
    next * page_size
}

/// The first candidate of the previous page.
pub fn prev_page_start(len: usize, selected: usize, page_size: usize) -> (r: usize)
    requires
        len > 0,
        page_size > 0,
        selected < len,
    ensures
        r == prev_page_index(len as int, selected as int, page_size as int),
        r < len,
{
    let total: usize = pages(len, page_size);
    let cur: usize = selected / page_size;
    proof {
        lemma_page_in_range(len as int, selected as int, page_size as int);
    }
    let prev: usize = if cur == 0 {
        total - 1
    } else {
        cur - 1
    };
    proof {
        lemma_page_head_in_range(len as int, prev as int, page_size as int);
    }
    prev * page_size
}

/// The `n`-th candidate, counted from 1, of the page that shows `selected`.
pub fn nth_in_page(len: usize, selected: usize, page_size: usize, n: usize) -> (r: Option<usize>)
    requires
        page_size > 0,
    ensures
        r == (if n >= 1 && page_start(selected as int, page_size as int) + (n - 1) < len {
            Some((page_start(selected as int, page_size as int) + (n - 1)) as usize)
        } else {
            None
        }),
{
    proof {
        lemma_page_start_bounds(selected as int, page_size as int);
    }
    if n < 1 {
        return None;
    }
    let start: usize = (selected / page_size) * page_size;
    if start < len && n - 1 < len - start {
        Some(start + (n - 1))
    } else {
        None
    }
}

/// The text that shows which page is open.
pub fn page_info(page: usize, total: usize) -> (r: String)
    requires
        total > 1 ==> page < total,
    ensures
        r@ == page_info_text(page as int, total as int),
{
    if total <= 1 {
        String::new()
    } else {
        let mut s = crate::text::decimal_u64((page + 1) as u64);
        s.push('/');
        s.append(crate::text::decimal_u64(total as u64).as_str());
        assert(s@ == page_info_text(page as int, total as int));
        s
    }
}

pub proof fn lemma_page_start_bounds(selected: int, page_size: int)
    requires
        page_size > 0,
        selected >= 0,
    ensures
        0 <= page_start(selected, page_size) <= selected < page_start(selected, page_size)
            + page_size,
        0 <= selected / page_size <= selected,
{
    vstd::arithmetic::div_mod::lemma_fundamental_div_mod(selected, page_size);
    assert(page_start(selected, page_size) + selected % page_size == selected) by (nonlinear_arith)
        requires
            selected == page_size * (selected / page_size) + selected % page_size,
            page_start(selected, page_size) == (selected / page_size) * page_size,
    ;
    assert(0 <= selected / page_size <= selected) by (nonlinear_arith)
        requires
            page_size > 0,
            selected >= 0,
    ;
    assert(0 <= (selected / page_size) * page_size) by (nonlinear_arith)
        requires
            page_size > 0,
            0 <= selected / page_size,
    ;
}

proof fn lemma_page_crossing(selected: int, page_size: int)
    requires
        page_size > 0,
        selected >= 0,
    ensures
        (selected + 1) / page_size != selected / page_size ==> page_start(selected + 1, page_size)
            == selected + 1,
{
    lemma_page_start_bounds(selected, page_size);
    lemma_page_start_bounds(selected + 1, page_size);
    let a = selected / page_size;
    let b = (selected + 1) / page_size;
    if a != b && page_start(selected + 1, page_size) != selected + 1 {
        assert(b * page_size <= selected < a * page_size + page_size);
        assert(a * page_size <= selected < b * page_size + page_size);
        assert(b < a + 1) by (nonlinear_arith)
            requires
                b * page_size < a * page_size + page_size,
                page_size > 0,
        ;
        assert(a < b + 1) by (nonlinear_arith)
            requires
                a * page_size < b * page_size + page_size,
                page_size > 0,
        ;
    }
}

pub proof fn lemma_page_in_range(len: int, selected: int, page_size: int)
    requires
        page_size > 0,
        0 <= selected < len,
    ensures
        0 <= selected / page_size < page_count(len, page_size) <= len,
{
    lemma_page_start_bounds(selected, page_size);
    lemma_page_start_bounds(len - 1, page_size);
    vstd::arithmetic::div_mod::lemma_div_is_ordered(selected, len - 1, page_size);
}

proof fn lemma_page_head_in_range(len: int, page: int, page_size: int)
    requires
        page_size > 0,
        len > 0,
        0 <= page < page_count(len, page_size),
    ensures
        0 <= page * page_size < len,
        (page * page_size) / page_size == page,
{
    lemma_page_start_bounds(len - 1, page_size);
    let last = (len - 1) / page_size;
    assert(0 <= page * page_size <= last * page_size) by (nonlinear_arith)
        requires
            page_size > 0,
            0 <= page <= last,
    ;
    vstd::arithmetic::div_mod::lemma_div_multiples_vanish(page, page_size);
    assert(page * page_size == page_size * page) by (nonlinear_arith);
}

/// Going one candidate on and one back returns to the same candidate, and so the
/// other way round.
pub proof fn next_and_prev_are_inverse(len: int, selected: int)
    requires
        0 <= selected < len,
    ensures
        0 <= next_index(len, selected) < len,
        0 <= prev_index(len, selected) < len,
        prev_index(len, next_index(len, selected)) == selected,
        next_index(len, prev_index(len, selected)) == selected,
{
    if selected + 1 < len {
        vstd::arithmetic::div_mod::lemma_small_mod((selected + 1) as nat, len as nat);
    } else {
        vstd::arithmetic::div_mod::lemma_mod_self_0(len);
    }
    if selected == 0 {
        vstd::arithmetic::div_mod::lemma_mod_self_0(len);
    } else {
        vstd::arithmetic::div_mod::lemma_small_mod(selected as nat, len as nat);
    }
}

/// Turning a page forward and back returns to the first candidate of the page that
/// was open, and so the other way round.
pub proof fn page_turns_are_inverse(len: int, selected: int, page_size: int)
    requires
        0 <= selected < len,
        page_size > 0,
    ensures
        0 <= next_page_index(len, selected, page_size) < len,
        0 <= prev_page_index(len, selected, page_size) < len,
        prev_page_index(len, next_page_index(len, selected, page_size), page_size) == page_start(
            selected,
            page_size,
        ),
        next_page_index(len, prev_page_index(len, selected, page_size), page_size) == page_start(
            selected,
            page_size,
        ),
{
    let pages = page_count(len, page_size);
    let cur = selected / page_size;
    lemma_page_in_range(len, selected, page_size);
    let next = (cur + 1) % pages;
    let prev = if cur == 0 {
        pages - 1
    } else {
        cur - 1
    };
    if cur + 1 < pages {
        vstd::arithmetic::div_mod::lemma_small_mod((cur + 1) as nat, pages as nat);
    } else {
        vstd::arithmetic::div_mod::lemma_mod_self_0(pages);
    }
    lemma_page_head_in_range(len, next, page_size);
    lemma_page_head_in_range(len, prev, page_size);
    if cur == 0 {
        vstd::arithmetic::div_mod::lemma_mod_self_0(pages);
    } else {
        vstd::arithmetic::div_mod::lemma_small_mod(cur as nat, pages as nat);
    }
}

/// The next candidate is the one behind the selected one, and the first one behind the last;
/// the previous one likewise the other way.
pub proof fn stepping_goes_one_on(len: int, selected: int)
    requires
        0 <= selected < len,
    ensures
        selected + 1 < len ==> next_index(len, selected) == selected + 1,
        next_index(len, len - 1) == 0,
        selected > 0 ==> prev_index(len, selected) == selected - 1,
        prev_index(len, 0) == len - 1,
{
    assert(len % len == 0) by (nonlinear_arith)
        requires
            len > 0,
    ;
    if selected + 1 < len {
        assert((selected + 1) % len == selected + 1) by (nonlinear_arith)
            requires
                0 <= selected,
                selected + 1 < len,
        ;
    }
}

/// Pages are full but for the last one: the page of a candidate begins at the multiple of the
/// page size before it and ends a page size behind or with the list.
pub proof fn pages_are_filled(len: int, selected: int, page_size: int)
    requires
        0 <= selected < len,
        page_size > 0,
    ensures
        ({
            let first = selected - selected % page_size;
            &&& page_start(selected, page_size) == first
            &&& 0 <= first <= selected < first + page_size
            &&& first + page_size <= len ==> page_end(len, selected, page_size) == first
                + page_size
            &&& first + page_size >= len ==> page_end(len, selected, page_size) == len
        }),
        (page_count(len, page_size) - 1) * page_size < len <= page_count(len, page_size) * page_size,
        page_count(0, page_size) == 0,
{
    lemma_page_start_bounds(selected, page_size);
    assert((selected / page_size) * page_size == selected - selected % page_size) by (
        nonlinear_arith)
        requires
            page_size > 0,
            selected >= 0,
    ;
    let q = (len - 1) / page_size;
    assert(q * page_size <= len - 1 && len - 1 < (q + 1) * page_size) by (nonlinear_arith)
        requires
            q == (len - 1) / page_size,
            page_size > 0,
            len > 0,
    ;
}

/// Turning the page forward selects the first candidate of the page behind, or of the first
/// page from the last one; turning it back, of the page before, or of the last page.
pub proof fn page_turn_goes_to_the_next_page(len: int, selected: int, page_size: int)
    requires
        0 <= selected < len,
        page_size > 0,
    ensures
        ({
            let first = selected - selected % page_size;
            let next = next_page_index(len, selected, page_size);
            let prev = prev_page_index(len, selected, page_size);
            &&& first + page_size < len ==> next == first + page_size
            &&& first + page_size >= len ==> next == 0
            &&& first > 0 ==> prev == first - page_size
            &&& first == 0 ==> prev % page_size == 0 && prev < len <= prev + page_size
        }),
{
    pages_are_filled(len, selected, page_size);
    lemma_page_start_bounds(selected, page_size);
    let p = selected / page_size;
    let n = page_count(len, page_size);
    let first = p * page_size;
    assert(first == selected - selected % page_size);
    lemma_page_in_range(len, selected, page_size);
    if p + 1 < n {
        assert((p + 1) % n == p + 1) by (nonlinear_arith)
            requires
                0 <= p,
                p + 1 < n,
        ;
        assert((p + 1) * page_size == first + page_size) by (nonlinear_arith)
            requires
                first == p * page_size,
        ;
        assert((p + 1) * page_size <= (n - 1) * page_size) by (nonlinear_arith)
            requires
                p + 1 <= n - 1,
                page_size > 0,
        ;
    } else {
        assert(p + 1 == n);
        assert((p + 1) % n == 0) by (nonlinear_arith)
            requires
                p + 1 == n,
                n > 0,
        ;
        assert(n * page_size == first + page_size) by (nonlinear_arith)
            requires
                first == p * page_size,
                n == p + 1,
        ;
        assert(0 * page_size == 0);
    }
    if p > 0 {
        assert((p - 1) * page_size == first - page_size) by (nonlinear_arith)
            requires
                first == p * page_size,
        ;
        assert(first > 0) by (nonlinear_arith)
            requires
                first == p * page_size,
                p > 0,
                page_size > 0,
        ;
    } else {
        assert(first == 0);
        let last = (n - 1) * page_size;
        assert(n * page_size == last + page_size) by (nonlinear_arith)
            requires
                last == (n - 1) * page_size,
        ;
        assert(last % page_size == 0) by (nonlinear_arith)
            requires
                last == (n - 1) * page_size,
                page_size > 0,
        ;
    }
}

/// The text beside the list is empty for a single page, and else names the open page, counted
/// from 1, and the number of pages, with a stroke between them.
pub proof fn page_text_can_be_read(page: int, pages: int)
    requires
        0 <= page < pages || pages == 0,
    ensures
        pages <= 1 <==> page_info_text(page, pages).len() == 0,
        pages > 1 ==> ({
            let text = page_info_text(page, pages);
            let at = crate::text::decimal((page + 1) as nat).len() as int;
            &&& 0 < at < text.len() - 1
            &&& text[at] == '/'
            &&& crate::scan::is_number(text.take(at))
            &&& crate::scan::number_of(text.take(at)) == page + 1
            &&& crate::scan::is_number(text.skip(at + 1))
            &&& crate::scan::number_of(text.skip(at + 1)) == pages
        }),
{
    if pages > 1 {
        let a = crate::text::decimal((page + 1) as nat);
        let b = crate::text::decimal(pages as nat);
        let text = page_info_text(page, pages);
        crate::text::decimal_can_be_read((page + 1) as nat);
        crate::text::decimal_can_be_read(pages as nat);
        assert(text.take(a.len() as int) =~= a);
        assert(text.skip(a.len() as int + 1) =~= b);
    }
}

} // verus!
