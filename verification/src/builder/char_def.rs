//! Whether the tokenizer can be given a character definition at all.
//!
//! The tokenizer refuses most definitions that it does not understand, but on some it does
//! not return: a category with too large a length, too many categories, a range without a
//! category, with one that is not defined or with one whose number does not fit its set of
//! bits, or a range that ends at the largest number there is. This module reads a definition
//! as the tokenizer does and tells such definitions from the others.

use crate::scan::{
    find, find_from, is_space, lemma_find_from, parse_number, parsed_number, space, spaces,
    trim_range, trim_start, trimmed,
};
use crate::text::{chars_of, hex_byte, hex_digit_char, hexadecimal};
use vstd::prelude::*;

verus! {

/// What the tokenizer makes of a definition.
#[derive(Clone, Copy, Debug, PartialEq, Eq, Structural)]
pub enum CharDefOutcome {
    Taken,
    Refused,
    /// The tokenizer does not return.
    Panics,
}

/// How far a list of words goes.
pub open spec fn words(v: Seq<Vec<char>>) -> Seq<Seq<char>> {
    v.map_values(|w: Vec<char>| w@)
}

/// Where the word ends that `i` lies in.
pub open spec fn word_end(s: Seq<char>, i: int) -> int
    decreases s.len() - i,
{
    if 0 <= i < s.len() && !is_space(s[i]) {
        word_end(s, i + 1)
    } else {
        i
    }
}

proof fn lemma_word_end(s: Seq<char>, i: int)
    requires
        0 <= i <= s.len(),
    ensures
        i <= word_end(s, i) <= s.len(),
        i < s.len() && !is_space(s[i]) ==> i < word_end(s, i),
    decreases s.len() - i,
{
    if i < s.len() && !is_space(s[i]) {
        lemma_word_end(s, i + 1);
    }
}

proof fn lemma_trim_start_shrinks(s: Seq<char>)
    ensures
        trim_start(s, spaces()).len() <= s.len(),
        trim_start(s, spaces()).len() > 0 ==> !is_space(trim_start(s, spaces())[0]),
    decreases s.len(),
{
    if s.len() > 0 && spaces()(s[0]) {
        lemma_trim_start_shrinks(s.skip(1));
    }
}

/// The words of a line.
pub open spec fn columns(s: Seq<char>) -> Seq<Seq<char>>
    decreases s.len(),
    via columns_shrink
{
    let t = trim_start(s, spaces());
    if t.len() == 0 {
        Seq::empty()
    } else {
        let e = word_end(t, 0);
        seq![t.take(e)] + columns(t.skip(e))
    }
}

#[via_fn]
proof fn columns_shrink(s: Seq<char>) {
    let t = trim_start(s, spaces());
    lemma_trim_start_shrinks(s);
    if t.len() > 0 {
        lemma_word_end(t, 0);
    }
}

fn copy_range(v: &Vec<char>, from: usize, to: usize) -> (r: Vec<char>)
    requires
        from <= to <= v@.len(),
    ensures
        r@ == v@.subrange(from as int, to as int),
{
    let mut r: Vec<char> = Vec::new();
    let mut i: usize = from;
    while i < to
        invariant
            from <= i <= to <= v@.len(),
            r@ == v@.subrange(from as int, i as int),
        decreases to - i,
    {
        r.push(v[i]);
        i += 1;
    }
    r
}

fn split_columns(v: &Vec<char>) -> (r: Vec<Vec<char>>)
    ensures
        words(r@) == columns(v@),
{
    let mut out: Vec<Vec<char>> = Vec::new();
    let mut i: usize = 0;
    assert(words(out@) =~= Seq::<Seq<char>>::empty());
    assert(v@.skip(0) =~= v@);
    assert(words(out@) + columns(v@) =~= columns(v@));
    while i < v.len()
        invariant
            i <= v@.len(),
            words(out@) + columns(v@.skip(i as int)) == columns(v@),
        decreases v.len() - i,
    {
        let ghost rest = v@.skip(i as int);
        if space(v[i]) {
            proof {
                assert(rest[0] == v@[i as int]);
                assert(spaces()(rest[0]));
                assert(rest.skip(1) =~= v@.skip(i + 1));
                assert(trim_start(rest, spaces()) == trim_start(rest.skip(1), spaces()));
                assert(columns(rest) == columns(v@.skip(i + 1)));
            }
            i += 1;
        } else {
            proof {
                assert(rest[0] == v@[i as int]);
                assert(trim_start(rest, spaces()) == rest);
            }
            let start: usize = i;
            while i < v.len() && !space(v[i])
                invariant
                    start <= i <= v@.len(),
                    rest == v@.skip(start as int),
                    word_end(rest, 0) == word_end(rest, i - start),
                decreases v.len() - i,
            {
                assert(rest[i - start] == v@[i as int]);
                i += 1;
            }
            let word = copy_range(v, start, i);
            let ghost before = out@;
            proof {
                if i < v@.len() {
                    assert(rest[i - start] == v@[i as int]);
                }
                assert(word_end(rest, 0) == i - start);
                assert(word@ =~= rest.take(i - start));
                assert(rest.skip(i - start) =~= v@.skip(i as int));
            }
            out.push(word);
            proof {
                lemma_word_end(rest, 0);
                assert(words(out@) =~= words(before).push(word@));
                assert(columns(rest) == seq![word@] + columns(v@.skip(i as int)));
                assert(words(out@) + columns(v@.skip(i as int)) =~= words(before) + columns(rest));
            }
        }
    }
    proof {
        assert(v@.skip(i as int).len() == 0);
        assert(columns(v@.skip(i as int)) =~= Seq::<Seq<char>>::empty());
        assert(words(out@) + columns(v@.skip(i as int)) =~= words(out@));
    }
    out
}

/// Where the first pair of dots is from `from` on, or the end.
pub open spec fn find_dots(s: Seq<char>, from: int) -> int
    decreases s.len() - from,
{
    if from < 0 || from >= s.len() {
        s.len() as int
    } else if from + 1 < s.len() && s[from] == '.' && s[from + 1] == '.' {
        from
    } else {
        find_dots(s, from + 1)
    }
}

fn dots(v: &Vec<char>, from: usize) -> (r: usize)
    requires
        from <= v@.len(),
    ensures
        r == find_dots(v@, from as int),
        from <= r <= v@.len(),
        r < v@.len() ==> r + 2 <= v@.len(),
{
    let mut i: usize = from;
    while i < v.len()
        invariant
            from <= i <= v@.len(),
            find_dots(v@, from as int) == find_dots(v@, i as int),
        decreases v.len() - i,
    {
        if v.len() - i > 1 && v[i] == '.' && v[i + 1] == '.' {
            return i;
        }
        i += 1;
    }
    i
}

/// `s` without the marks of a hexadecimal number before it.
pub open spec fn without_marks(s: Seq<char>) -> Seq<char>
    decreases s.len(),
{
    if s.len() >= 2 && s[0] == '0' && s[1] == 'x' {
        without_marks(s.skip(2))
    } else {
        s
    }
}

/// What a hexadecimal digit stands for.
pub open spec fn hex_value(c: char) -> Option<nat> {
    if '0' <= c && c <= '9' {
        Some((c as nat - '0' as nat) as nat)
    } else if 'a' <= c && c <= 'f' {
        Some((c as nat - 'a' as nat + 10) as nat)
    } else if 'A' <= c && c <= 'F' {
        Some((c as nat - 'A' as nat + 10) as nat)
    } else {
        None
    }
}

/// What hexadecimal digits stand for.
pub open spec fn hex_digits_value(s: Seq<char>) -> Option<nat>
    decreases s.len(),
{
    if s.len() == 0 {
        Some(0)
    } else {
        match (hex_digits_value(s.drop_last()), hex_value(s.last())) {
            (Some(n), Some(d)) => Some(n * 16 + d),
            _ => None,
        }
    }
}

/// What a hexadecimal number stands for, where it is one that fits; a plus sign may stand
/// before it.
pub open spec fn hex_number(s: Seq<char>) -> Option<nat> {
    let digits = if s.len() > 1 && s[0] == '+' {
        s.skip(1)
    } else {
        s
    };
    match hex_digits_value(digits) {
        Some(n) => if digits.len() > 0 && n <= usize::MAX {
            Some(n)
        } else {
            None
        },
        None => None,
    }
}

proof fn lemma_hex_grows(s: Seq<char>, k: int)
    requires
        0 <= k <= s.len(),
        hex_digits_value(s) is Some,
    ensures
        hex_digits_value(s.take(k)) is Some,
        hex_digits_value(s.take(k))->0 <= hex_digits_value(s)->0,
    decreases s.len(),
{
    if k < s.len() {
        lemma_hex_grows(s.drop_last(), k);
        assert(s.drop_last().take(k) =~= s.take(k));
    } else {
        assert(s.take(k) =~= s);
    }
}

fn digit_of(c: char) -> (r: Option<u8>)
    ensures
        (match r {
            Some(d) => Some(d as nat),
            None => None,
        }) == hex_value(c),
        r matches Some(d) ==> d < 16,
{
    let u: u32 = c as u32;
    if '0' <= c && c <= '9' {
        Some((u - 48) as u8)
    } else if 'a' <= c && c <= 'f' {
        Some((u - 87) as u8)
    } else if 'A' <= c && c <= 'F' {
        Some((u - 55) as u8)
    } else {
        None
    }
}

fn parse_hex(v: &Vec<char>) -> (r: Option<usize>)
    ensures
        (match r {
            Some(n) => Some(n as nat),
            None => None,
        }) == hex_number(v@),
{
    let mut from: usize = 0;
    if v.len() > 1 && v[0] == '+' {
        from = 1;
    }
    let ghost digits = if v@.len() > 1 && v@[0] == '+' {
        v@.skip(1)
    } else {
        v@
    };
    assert(digits =~= v@.skip(from as int));
    if from >= v.len() {
        return None;
    }
    let mut n: usize = 0;
    let mut i: usize = from;
    assert(digits.take(0) =~= Seq::<char>::empty());
    while i < v.len()
        invariant
            from <= i <= v@.len(),
            from < v@.len(),
            digits == v@.skip(from as int),
            digits == (if v@.len() > 1 && v@[0] == '+' {
                v@.skip(1)
            } else {
                v@
            }),
            hex_digits_value(digits.take(i - from)) == Some(n as nat),
        decreases v.len() - i,
    {
        let ghost next = digits.take(i - from + 1);
        proof {
            assert(next.drop_last() =~= digits.take(i - from));
            assert(next.last() == v@[i as int]);
            if hex_digits_value(digits) is Some {
                lemma_hex_grows(digits, i - from + 1);
            }
        }
        match digit_of(v[i]) {
            None => {
                return None;
            },
            Some(d) => {
                if n > (usize::MAX - d as usize) / 16 {
                    assert(n * 16 + d > usize::MAX);
                    return None;
                }
                n = n * 16 + d as usize;
            },
        }
        i += 1;
    }
    assert(digits.take(i - from) =~= digits);
    Some(n)
}

proof fn lemma_marks(s: Seq<char>, i: int)
    requires
        0 <= i <= s.len(),
    ensures
        i + 2 <= s.len() && s[i] == '0' && s[i + 1] == 'x' ==> without_marks(s.skip(i))
            == without_marks(s.skip(i + 2)),
        !(i + 2 <= s.len() && s[i] == '0' && s[i + 1] == 'x') ==> without_marks(s.skip(i))
            == s.subrange(i, s.len() as int),
{
    let rest = s.skip(i);
    assert(rest =~= s.subrange(i, s.len() as int));
    if i + 2 <= s.len() {
        assert(rest[0] == s[i] && rest[1] == s[i + 1]);
        assert(rest.skip(2) =~= s.skip(i + 2));
    }
}

fn strip_marks_from(v: &Vec<char>, i: usize) -> (r: Vec<char>)
    requires
        i <= v@.len(),
    ensures
        r@ == without_marks(v@.skip(i as int)),
    decreases v@.len() - i,
{
    proof {
        lemma_marks(v@, i as int);
    }
    if v.len() - i >= 2 && v[i] == '0' && v[i + 1] == 'x' {
        strip_marks_from(v, i + 2)
    } else {
        copy_range(v, i, v.len())
    }
}

fn strip_marks(v: &Vec<char>) -> (r: Vec<char>)
    ensures
        r@ == without_marks(v@),
{
    assert(v@.skip(0) =~= v@);
    strip_marks_from(v, 0)
}

/// What was read of a definition.
#[verifier::ext_equal]
pub struct DefModel {
    /// The categories, in the order of their numbers.
    pub categories: Seq<Seq<char>>,
    /// Whether the category that all characters have unless another one is given is defined.
    pub has_default: bool,
    /// The categories of each range.
    pub ranges: Seq<Seq<Seq<char>>>,
}

/// What became of a line.
#[verifier::ext_equal]
pub enum LineOutcome {
    Next { def: DefModel },
    Refused,
    Panics,
}

/// The number of a category, or how many there are where it is none of them.
pub open spec fn number_of_category(categories: Seq<Seq<char>>, name: Seq<char>) -> int
    decreases categories.len(),
{
    if categories.len() == 0 {
        0
    } else {
        let before = number_of_category(categories.drop_last(), name);
        if before < categories.len() - 1 || categories.last() == name {
            before
        } else {
            categories.len() as int
        }
    }
}

proof fn lemma_number_of_category(categories: Seq<Seq<char>>, name: Seq<char>, i: int)
    requires
        0 <= i <= categories.len(),
        i < categories.len() ==> categories[i] == name,
        forall|k: int| 0 <= k < i ==> categories[k] != name,
    ensures
        number_of_category(categories, name) == i,
    decreases categories.len(),
{
    if categories.len() > 0 {
        let front = categories.drop_last();
        if i == categories.len() {
            lemma_number_of_category(front, name, i - 1);
        } else {
            lemma_number_of_category(front, name, i);
        }
    }
}

/// Whether a word says yes or no.
pub open spec fn is_flag(s: Seq<char>) -> bool {
    s == seq!['0'] || s == seq!['1']
}

/// The name of the category that all characters have unless another one is given.
pub open spec fn default_name() -> Seq<char> {
    seq!['D', 'E', 'F', 'A', 'U', 'L', 'T']
}

/// What a line that defines a category does.
pub open spec fn category_line(def: DefModel, cols: Seq<Seq<char>>) -> LineOutcome {
    if cols.len() < 4 || !is_flag(cols[1]) || !is_flag(cols[2]) {
        LineOutcome::Refused
    } else {
        match parsed_number(cols[3]) {
            None => LineOutcome::Refused,
            Some(length) => {
                let number = number_of_category(def.categories, cols[0]);
                if length > 65535 {
                    LineOutcome::Refused
                } else if length >= 16 || number >= 256 {
                    LineOutcome::Panics
                } else {
                    LineOutcome::Next {
                        def: DefModel {
                            categories: if number < def.categories.len() {
                                def.categories
                            } else {
                                def.categories.push(cols[0])
                            },
                            has_default: def.has_default || number == 0,
                            ..def
                        },
                    }
                }
            },
        }
    }
}

/// The categories that a line gives to a range: up to a remark.
pub open spec fn targets_of(cols: Seq<Seq<char>>) -> Seq<Seq<char>>
    decreases cols.len(),
{
    if cols.len() == 0 || (cols[0].len() > 0 && cols[0][0] == '#') {
        Seq::empty()
    } else {
        seq![cols[0]] + targets_of(cols.skip(1))
    }
}

/// What a line that gives categories to a range does.
pub open spec fn range_line(def: DefModel, cols: Seq<Seq<char>>) -> LineOutcome {
    if cols.len() < 2 {
        LineOutcome::Refused
    } else {
        let range = cols[0];
        let a = find_dots(range, 0);
        let first = hex_number(without_marks(range.take(a)));
        let last = if a < range.len() {
            hex_number(without_marks(range.subrange(a + 2, find_dots(range, a + 2))))
        } else {
            first
        };
        match (first, last) {
            (Some(start), Some(end)) => if end == usize::MAX {
                LineOutcome::Panics
            } else if start > end || end > 0xffff {
                LineOutcome::Refused
            } else {
                LineOutcome::Next {
                    def: DefModel { ranges: def.ranges.push(targets_of(cols.skip(1))), ..def },
                }
            },
            _ => LineOutcome::Refused,
        }
    }
}

/// What a line does.
pub open spec fn line_outcome(def: DefModel, line: Seq<char>) -> LineOutcome {
    let t = trimmed(line, spaces());
    if t.len() == 0 || t[0] == '#' {
        LineOutcome::Next { def }
    } else if t.len() >= 2 && t[0] == '0' && t[1] == 'x' {
        range_line(def, columns(t))
    } else {
        category_line(def, columns(t))
    }
}

/// What becomes of the categories of a range.
pub open spec fn targets_outcome(categories: Seq<Seq<char>>, targets: Seq<Seq<char>>) -> CharDefOutcome {
    if targets.len() == 0 {
        CharDefOutcome::Panics
    } else if number_of_category(categories, targets[0]) >= categories.len() {
        CharDefOutcome::Refused
    } else if exists|k: int|
        0 <= k < targets.len() && (number_of_category(categories, #[trigger] targets[k])
            >= categories.len() || number_of_category(categories, targets[k]) >= 32) {
        CharDefOutcome::Panics
    } else {
        CharDefOutcome::Taken
    }
}

/// What becomes of the ranges from `i` on.
pub open spec fn ranges_outcome(def: DefModel, i: int) -> CharDefOutcome
    decreases def.ranges.len() - i,
{
    if i < 0 || i >= def.ranges.len() {
        CharDefOutcome::Taken
    } else {
        match targets_outcome(def.categories, def.ranges[i]) {
            CharDefOutcome::Taken => ranges_outcome(def, i + 1),
            other => other,
        }
    }
}

/// What becomes of a definition when all its lines are read.
pub open spec fn whole_outcome(def: DefModel) -> CharDefOutcome {
    if def.has_default {
        ranges_outcome(def, 0)
    } else {
        CharDefOutcome::Refused
    }
}

/// What becomes of a definition whose lines up to `from` came to `def`.
pub open spec fn outcome_from(def: DefModel, text: Seq<char>, from: int) -> CharDefOutcome
    decreases text.len() - from,
{
    if from < 0 || from >= text.len() {
        whole_outcome(def)
    } else {
        let end = find_from(text, '\n', from);
        match line_outcome(def, text.subrange(from, end)) {
            LineOutcome::Refused => CharDefOutcome::Refused,
            LineOutcome::Panics => CharDefOutcome::Panics,
            LineOutcome::Next { def: next } => if from <= end < text.len() {
                outcome_from(next, text, end + 1)
            } else {
                whole_outcome(next)
            },
        }
    }
}

/// A definition of which nothing was read: the category that all characters have is known.
pub open spec fn empty_def() -> DefModel {
    DefModel { categories: seq![default_name()], has_default: false, ranges: Seq::empty() }
}

/// What the tokenizer makes of a definition.
pub open spec fn char_def_outcome(text: Seq<char>) -> CharDefOutcome {
    outcome_from(empty_def(), text, 0)
}

struct Definition {
    categories: Vec<Vec<char>>,
    has_default: bool,
    ranges: Vec<Vec<Vec<char>>>,
}

spec fn lists(v: Seq<Vec<Vec<char>>>) -> Seq<Seq<Seq<char>>> {
    v.map_values(|l: Vec<Vec<char>>| words(l@))
}

impl View for Definition {
    type V = DefModel;

    closed spec fn view(&self) -> DefModel {
        DefModel {
            categories: words(self.categories@),
            has_default: self.has_default,
            ranges: lists(self.ranges@),
        }
    }
}

fn same_word(a: &Vec<char>, b: &Vec<char>) -> (r: bool)
    ensures
        r == (a@ == b@),
{
    if a.len() != b.len() {
        return false;
    }
    let mut i: usize = 0;
    while i < a.len()
        invariant
            i <= a@.len() == b@.len(),
            forall|k: int| 0 <= k < i ==> a@[k] == b@[k],
        decreases a.len() - i,
    {
        if a[i] != b[i] {
            return false;
        }
        i += 1;
    }
    assert(a@ =~= b@);
    true
}

fn category_number(categories: &Vec<Vec<char>>, name: &Vec<char>) -> (r: usize)
    ensures
        r == number_of_category(words(categories@), name@),
        r <= categories@.len(),
{
    let mut i: usize = 0;
    let ghost all = words(categories@);
    while i < categories.len()
        invariant
            i <= categories@.len(),
            all == words(categories@),
            forall|k: int| 0 <= k < i ==> all[k] != name@,
        decreases categories.len() - i,
    {
        assert(all[i as int] == categories@[i as int]@);
        if same_word(&categories[i], name) {
            proof {
                lemma_number_of_category(all, name@, i as int);
            }
            return i;
        }
        i += 1;
    }
    proof {
        lemma_number_of_category(all, name@, i as int);
    }
    i
}

fn flag(v: &Vec<char>) -> (r: bool)
    ensures
        r == is_flag(v@),
{
    let r = v.len() == 1 && (v[0] == '0' || v[0] == '1');
    proof {
        if v@.len() == 1 {
            assert(v@ =~= seq![v@[0]]);
        } else {
            assert(seq!['0'].len() == 1 && seq!['1'].len() == 1);
        }
        if is_flag(v@) {
            assert(v@[0] == '0' || v@[0] == '1') by {
                assert(seq!['0'][0] == '0' && seq!['1'][0] == '1');
            }
        }
    }
    r
}

fn read_category(def: &mut Definition, cols: Vec<Vec<char>>) -> (r: CharDefOutcome)
    ensures
        match category_line(old(def)@, words(cols@)) {
            LineOutcome::Next { def: next } => r is Taken && final(def)@ == next,
            LineOutcome::Refused => r is Refused,
            LineOutcome::Panics => r is Panics,
        },
{
    let ghost all = words(cols@);
    if cols.len() < 4 {
        return CharDefOutcome::Refused;
    }
    assert(all[0] == cols@[0]@ && all[1] == cols@[1]@ && all[2] == cols@[2]@ && all[3]
        == cols@[3]@);
    if !flag(&cols[1]) || !flag(&cols[2]) {
        return CharDefOutcome::Refused;
    }
    assert(cols@[3]@.skip(0) =~= cols@[3]@);
    match parse_number(&cols[3], 0) {
        None => CharDefOutcome::Refused,
        Some(length) => {
            let number = category_number(&def.categories, &cols[0]);
            if length > 65535 {
                return CharDefOutcome::Refused;
            }
            if length >= 16 || number >= 256 {
                return CharDefOutcome::Panics;
            }
            if number == 0 {
                def.has_default = true;
            }
            if number >= def.categories.len() {
                let name = copy_range(&cols[0], 0, cols[0].len());
                assert(name@ =~= all[0]);
                let ghost before = def.categories@;
                def.categories.push(name);
                assert(words(def.categories@) =~= words(before).push(name@));
            }
            CharDefOutcome::Taken
        },
    }
}

fn read_targets(cols: &Vec<Vec<char>>, from: usize) -> (r: Vec<Vec<char>>)
    requires
        from <= cols@.len(),
    ensures
        words(r@) == targets_of(words(cols@).skip(from as int)),
{
    let mut out: Vec<Vec<char>> = Vec::new();
    let mut i: usize = from;
    let ghost all = words(cols@);
    assert(words(out@) =~= Seq::<Seq<char>>::empty());
    assert(words(out@) + targets_of(all.skip(from as int)) =~= targets_of(all.skip(from as int)));
    while i < cols.len()
        invariant
            from <= i <= cols@.len(),
            all == words(cols@),
            words(out@) + targets_of(all.skip(i as int)) == targets_of(all.skip(from as int)),
        decreases cols.len() - i,
    {
        let ghost rest = all.skip(i as int);
        assert(rest[0] == cols@[i as int]@);
        if cols[i].len() > 0 && cols[i][0] == '#' {
            assert(targets_of(rest) =~= Seq::<Seq<char>>::empty());
            assert(words(out@) + targets_of(rest) =~= words(out@));
            return out;
        }
        let word = copy_range(&cols[i], 0, cols[i].len());
        assert(word@ =~= rest[0]);
        let ghost before = out@;
        out.push(word);
        proof {
            assert(words(out@) =~= words(before).push(word@));
            assert(rest.skip(1) =~= all.skip(i + 1));
            assert(targets_of(rest) == seq![rest[0]] + targets_of(rest.skip(1)));
            assert(words(out@) + targets_of(all.skip(i + 1)) =~= words(before) + targets_of(rest));
        }
        i += 1;
    }
    assert(all.skip(i as int).len() == 0);
    assert(words(out@) + targets_of(all.skip(i as int)) =~= words(out@));
    out
}

fn read_range(def: &mut Definition, cols: Vec<Vec<char>>) -> (r: CharDefOutcome)
    ensures
        match range_line(old(def)@, words(cols@)) {
            LineOutcome::Next { def: next } => r is Taken && final(def)@ == next,
            LineOutcome::Refused => r is Refused,
            LineOutcome::Panics => r is Panics,
        },
{
    if cols.len() < 2 {
        return CharDefOutcome::Refused;
    }
    let ghost all = words(cols@);
    assert(all[0] == cols@[0]@);
    let range = &cols[0];
    let a = dots(range, 0);
    let first = copy_range(range, 0, a);
    assert(first@ =~= range@.take(a as int));
    let start = parse_hex(&strip_marks(&first));
    let end = if a < range.len() {
        let b = dots(range, a + 2);
        let second = copy_range(range, a + 2, b);
        parse_hex(&strip_marks(&second))
    } else {
        start
    };
    match (start, end) {
        (Some(s), Some(e)) => {
            if e == usize::MAX {
                return CharDefOutcome::Panics;
            }
            if s > e || e > 0xffff {
                return CharDefOutcome::Refused;
            }
            let targets = read_targets(&cols, 1);
            let ghost before = def.ranges@;
            def.ranges.push(targets);
            assert(lists(def.ranges@) =~= lists(before).push(words(targets@)));
            CharDefOutcome::Taken
        },
        _ => CharDefOutcome::Refused,
    }
}

fn read_line(def: &mut Definition, v: &Vec<char>, from: usize, to: usize) -> (r: CharDefOutcome)
    requires
        from <= to <= v@.len(),
    ensures
        match line_outcome(old(def)@, v@.subrange(from as int, to as int)) {
            LineOutcome::Next { def: next } => r is Taken && final(def)@ == next,
            LineOutcome::Refused => r is Refused,
            LineOutcome::Panics => r is Panics,
        },
{
    let (a, b) = trim_range(v, from, to, false);
    let line = copy_range(v, a, b);
    if line.len() == 0 || line[0] == '#' {
        return CharDefOutcome::Taken;
    }
    let cols = split_columns(&line);
    if line.len() >= 2 && line[0] == '0' && line[1] == 'x' {
        read_range(def, cols)
    } else {
        read_category(def, cols)
    }
}

fn check_targets(categories: &Vec<Vec<char>>, targets: &Vec<Vec<char>>) -> (r: CharDefOutcome)
    ensures
        r == targets_outcome(words(categories@), words(targets@)),
{
    let ghost cats = words(categories@);
    let ghost all = words(targets@);
    if targets.len() == 0 {
        return CharDefOutcome::Panics;
    }
    assert(all[0] == targets@[0]@);
    if category_number(categories, &targets[0]) >= categories.len() {
        return CharDefOutcome::Refused;
    }
    let mut i: usize = 0;
    while i < targets.len()
        invariant
            i <= targets@.len(),
            cats == words(categories@),
            all == words(targets@),
            all.len() > 0,
            number_of_category(cats, all[0]) < cats.len(),
            forall|k: int|
                0 <= k < i ==> number_of_category(cats, #[trigger] all[k]) < cats.len()
                    && number_of_category(cats, all[k]) < 32,
        decreases targets.len() - i,
    {
        assert(all[i as int] == targets@[i as int]@);
        let number = category_number(categories, &targets[i]);
        if number >= categories.len() || number >= 32 {
            return CharDefOutcome::Panics;
        }
        i += 1;
    }
    CharDefOutcome::Taken
}

/// What the tokenizer makes of a definition.
pub fn check_char_def(text: &str) -> (r: CharDefOutcome)
    ensures
        r == char_def_outcome(text@),
{
    let v = chars_of(text);
    let mut name: Vec<char> = Vec::new();
    name.push('D');
    name.push('E');
    name.push('F');
    name.push('A');
    name.push('U');
    name.push('L');
    name.push('T');
    assert(name@ =~= default_name());
    let mut categories: Vec<Vec<char>> = Vec::new();
    categories.push(name);
    let mut def = Definition { categories, has_default: false, ranges: Vec::new() };
    proof {
        assert(words(def.categories@) =~= seq![default_name()]);
        assert(lists(def.ranges@) =~= Seq::<Seq<Seq<char>>>::empty());
        assert(def@ == empty_def());
    }
    let mut from: usize = 0;
    while from < v.len()
        invariant
            v@ == text@,
            from <= v@.len(),
            char_def_outcome(text@) == outcome_from(def@, text@, from as int),
        decreases v.len() - from,
    {
        proof {
            lemma_find_from(text@, '\n', from as int);
        }
        let end: usize = find(&v, '\n', from);
        match read_line(&mut def, &v, from, end) {
            CharDefOutcome::Taken => {},
            other => {
                return other;
            },
        }
        if end >= v.len() {
            from = v.len();
        } else {
            from = end + 1;
        }
    }
    if !def.has_default {
        return CharDefOutcome::Refused;
    }
    let mut i: usize = 0;
    while i < def.ranges.len()
        invariant
            i <= def.ranges@.len(),
            char_def_outcome(text@) == ranges_outcome(def@, i as int),
        decreases def.ranges.len() - i,
    {
        assert(def@.ranges[i as int] == words(def.ranges@[i as int]@));
        match check_targets(&def.categories, &def.ranges[i]) {
            CharDefOutcome::Taken => {},
            other => {
                return other;
            },
        }
        i += 1;
    }
    CharDefOutcome::Taken
}

/// A hexadecimal notation can be read: it stands for the number it was made of, in either case
/// of its letters.
pub proof fn hexadecimal_can_be_read(n: nat)
    ensures
        hex_digits_value(hexadecimal(n)) == Some(n),
        n <= usize::MAX ==> hex_number(hexadecimal(n)) == Some(n),
        hexadecimal(n).len() > 0,
        n > 0 ==> hexadecimal(n)[0] != '0',
        hexadecimal(n)[0] != '+',
    decreases n,
{
    reveal_with_fuel(hex_digits_value, 2);
    if n < 16 {
        assert(seq![hex_digit_char(n)].drop_last() =~= Seq::<char>::empty());
        lemma_hex_digit(n);
    } else {
        hexadecimal_can_be_read(n / 16);
        lemma_hex_digit(n % 16);
        assert(hexadecimal(n).drop_last() =~= hexadecimal(n / 16));
        assert(hexadecimal(n)[0] == hexadecimal(n / 16)[0]);
    }
}

proof fn lemma_hex_digit(d: nat)
    requires
        d < 16,
    ensures
        hex_value(hex_digit_char(d)) == Some(d),
        hex_digit_char(d) == '0' <==> d == 0,
        hex_digit_char(d) != '+',
{
}

/// The two digits of a byte stand for it.
pub proof fn byte_can_be_read(b: u8)
    ensures
        hex_digits_value(hex_byte(b)) == Some(b as nat),
        hex_byte(b).len() == 2,
{
    reveal_with_fuel(hex_digits_value, 3);
    lemma_hex_digit((b / 16) as nat);
    lemma_hex_digit((b % 16) as nat);
    let s = hex_byte(b);
    assert(s.drop_last().drop_last() =~= Seq::<char>::empty());
    assert(s.drop_last().last() == s[0]);
    assert(s.last() == s[1]);
}

/// Remarks and empty lines change nothing of a definition.
pub proof fn remarks_change_nothing(def: DefModel, line: Seq<char>)
    requires
        line.len() == 0 || line[0] == '#',
    ensures
        line_outcome(def, line) == (LineOutcome::Next { def }),
{
    if line.len() > 0 {
        lemma_first_stays(line);
    }
}

proof fn lemma_first_stays(s: Seq<char>)
    requires
        s.len() > 0,
        !is_space(s[0]),
    ensures
        crate::scan::trim_end(s, spaces()).len() > 0,
        crate::scan::trim_end(s, spaces())[0] == s[0],
    decreases s.len(),
{
    if is_space(s.last()) {
        lemma_first_stays(s.drop_last());
    }
}

/// A range whose first category is not defined is refused, one without a category or with a
/// later one that is not defined makes the tokenizer fail, and a definition without the category
/// that all characters have is refused.
pub proof fn undefined_categories_are_told(
    def: DefModel,
    targets: Seq<Seq<char>>,
    k: int,
)
    requires
        0 <= k < targets.len(),
        !def.categories.contains(targets[k]),
    ensures
        k == 0 ==> targets_outcome(def.categories, targets) is Refused,
        k > 0 && def.categories.contains(targets[0]) ==> targets_outcome(
            def.categories,
            targets,
        ) is Panics,
        targets_outcome(def.categories, Seq::empty()) is Panics,
        !def.has_default ==> whole_outcome(def) is Refused,
{
    let n = def.categories.len() as int;
    assert forall|i: int| 0 <= i < n implies def.categories[i] != targets[k] by {
        assert(def.categories.contains(def.categories[i]));
    }
    lemma_number_of_category(def.categories, targets[k], n);
    if k > 0 && def.categories.contains(targets[0]) {
        lemma_known_category(def.categories, targets[0]);
    }
}

proof fn lemma_known_category(categories: Seq<Seq<char>>, name: Seq<char>)
    requires
        categories.contains(name),
    ensures
        number_of_category(categories, name) < categories.len(),
    decreases categories.len(),
{
    let i = choose|i: int| 0 <= i < categories.len() && categories[i] == name;
    let front = categories.drop_last();
    lemma_category_bound(front, name);
    if i < front.len() {
        assert(front[i] == name);
        lemma_known_category(front, name);
    }
}

proof fn lemma_category_bound(categories: Seq<Seq<char>>, name: Seq<char>)
    ensures
        0 <= number_of_category(categories, name) <= categories.len(),
    decreases categories.len(),
{
    if categories.len() > 0 {
        lemma_category_bound(categories.drop_last(), name);
    }
}

} // verus!
