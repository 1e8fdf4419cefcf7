//! Taking texts apart.

use vstd::prelude::*;

verus! {

/// Whether a character is a space, a line break or the like.
pub open spec fn is_space(c: char) -> bool {
    let u = c as u32;
    (0x09 <= u <= 0x0d) || u == 0x20 || u == 0x85 || u == 0xa0 || u == 0x1680 || (0x2000 <= u
        <= 0x200a) || u == 0x2028 || u == 0x2029 || u == 0x202f || u == 0x205f || u == 0x3000
}

/// Whether a character is a space, a line break or the like.
pub fn space(c: char) -> (r: bool)
    ensures
        r == is_space(c),
{
    let u: u32 = c as u32;
    (0x09 <= u && u <= 0x0d) || u == 0x20 || u == 0x85 || u == 0xa0 || u == 0x1680 || (0x2000 <= u
        && u <= 0x200a) || u == 0x2028 || u == 0x2029 || u == 0x202f || u == 0x205f || u == 0x3000
}

/// Where the first `c` is from `from` on, or the end.
pub open spec fn find_from(s: Seq<char>, c: char, from: int) -> int
    decreases s.len() - from,
{
    if from < 0 || from >= s.len() || s[from] == c {
        from
    } else {
        find_from(s, c, from + 1)
    }
}

/// What `find_from` finds.
pub proof fn lemma_find_from(s: Seq<char>, c: char, from: int)
    requires
        0 <= from <= s.len(),
    ensures
        from <= find_from(s, c, from) <= s.len(),
        find_from(s, c, from) < s.len() ==> s[find_from(s, c, from)] == c,
        forall|k: int| from <= k < find_from(s, c, from) ==> s[k] != c,
    decreases s.len() - from,
{
    if from < s.len() && s[from] != c {
        lemma_find_from(s, c, from + 1);
    }
}

/// Where the first `c` is from `from` on, or the end.
pub fn find(v: &Vec<char>, c: char, from: usize) -> (r: usize)
    requires
        from <= v@.len(),
    ensures
        r == find_from(v@, c, from as int),
        from <= r <= v@.len(),
{
    let mut i: usize = from;
    while i < v.len() && v[i] != c
        invariant
            from <= i <= v@.len(),
            find_from(v@, c, from as int) == find_from(v@, c, i as int),
        decreases v.len() - i,
    {
        i += 1;
    }
    i
}

/// `s` without what stands at its beginning and satisfies `drop`.
pub open spec fn trim_start(s: Seq<char>, drop: spec_fn(char) -> bool) -> Seq<char>
    decreases s.len(),
{
    if s.len() > 0 && drop(s[0]) {
        trim_start(s.skip(1), drop)
    } else {
        s
    }
}

/// `s` without what stands at its end and satisfies `drop`.
pub open spec fn trim_end(s: Seq<char>, drop: spec_fn(char) -> bool) -> Seq<char>
    decreases s.len(),
{
    if s.len() > 0 && drop(s.last()) {
        trim_end(s.drop_last(), drop)
    } else {
        s
    }
}

/// `s` without what stands at either end and satisfies `drop`.
pub open spec fn trimmed(s: Seq<char>, drop: spec_fn(char) -> bool) -> Seq<char> {
    trim_end(trim_start(s, drop), drop)
}

/// Spaces.
pub open spec fn spaces() -> spec_fn(char) -> bool {
    |c: char| is_space(c)
}

/// Quotes.
pub open spec fn quotes() -> spec_fn(char) -> bool {
    |c: char| c == '"'
}

fn dropped(c: char, quote: bool) -> (r: bool)
    ensures
        r == (if quote {
            quotes()
        } else {
            spaces()
        })(c),
{
    if quote {
        c == '"'
    } else {
        space(c)
    }
}

/// The bounds of what is left of `v[from..to]` without the quotes or the spaces round it.
pub fn trim_range(v: &Vec<char>, from: usize, to: usize, quote: bool) -> (r: (usize, usize))
    requires
        from <= to <= v@.len(),
    ensures
        from <= r.0 <= r.1 <= to,
        v@.subrange(r.0 as int, r.1 as int) == trimmed(
            v@.subrange(from as int, to as int),
            if quote {
                quotes()
            } else {
                spaces()
            },
        ),
{
    let ghost drop = if quote {
        quotes()
    } else {
        spaces()
    };
    let ghost whole = v@.subrange(from as int, to as int);
    let mut a: usize = from;
    while a < to && dropped(v[a], quote)
        invariant
            from <= a <= to <= v@.len(),
            drop == (if quote {
                quotes()
            } else {
                spaces()
            }),
            trim_start(whole, drop) == trim_start(v@.subrange(a as int, to as int), drop),
        decreases to - a,
    {
        assert(v@.subrange(a as int, to as int).skip(1) =~= v@.subrange(a + 1, to as int));
        a += 1;
    }
    let ghost front = v@.subrange(a as int, to as int);
    assert(trim_start(whole, drop) == front);
    let mut b: usize = to;
    while b > a && dropped(v[b - 1], quote)
        invariant
            a <= b <= to <= v@.len(),
            drop == (if quote {
                quotes()
            } else {
                spaces()
            }),
            trim_end(front, drop) == trim_end(v@.subrange(a as int, b as int), drop),
        decreases b - a,
    {
        assert(v@.subrange(a as int, b as int).drop_last() =~= v@.subrange(a as int, b - 1));
        b -= 1;
    }
    assert(trim_end(front, drop) == v@.subrange(a as int, b as int));
    (a, b)
}

/// Whether a character is a decimal digit.
pub open spec fn is_digit(c: char) -> bool {
    '0' <= c && c <= '9'
}

/// Whether a text consists of digits, and is not empty.
pub open spec fn is_number(s: Seq<char>) -> bool {
    s.len() > 0 && forall|k: int| 0 <= k < s.len() ==> is_digit(#[trigger] s[k])
}

/// The number that digits stand for.
pub open spec fn number_of(s: Seq<char>) -> nat
    decreases s.len(),
{
    if s.len() == 0 {
        0
    } else {
        number_of(s.drop_last()) * 10 + (s.last() as nat - '0' as nat) as nat
    }
}

/// The number that a text stands for where it is one that fits; a plus sign may stand
/// before it.
pub open spec fn parsed_number(s: Seq<char>) -> Option<u128> {
    let digits = if s.len() > 1 && s[0] == '+' {
        s.skip(1)
    } else {
        s
    };
    if is_number(digits) && number_of(digits) <= u128::MAX {
        Some(number_of(digits) as u128)
    } else {
        None
    }
}

proof fn lemma_number_grows(s: Seq<char>, k: int)
    requires
        0 <= k <= s.len(),
        forall|j: int| 0 <= j < s.len() ==> is_digit(#[trigger] s[j]),
    ensures
        number_of(s.take(k)) <= number_of(s),
    decreases s.len() - k,
{
    if k < s.len() {
        lemma_number_grows(s, k + 1);
        let t = s.take(k + 1);
        assert(t.drop_last() =~= s.take(k));
        assert(t.last() == s[k]);
    } else {
        assert(s.take(k) =~= s);
    }
}

/// The number that `v[start..]` stands for.
pub fn parse_number(v: &Vec<char>, start: usize) -> (r: Option<u128>)
    requires
        start <= v@.len(),
    ensures
        r == parsed_number(v@.skip(start as int)),
{
    let mut from: usize = start;
    let ghost s = v@.skip(start as int);
    if v.len() - start > 1 && v[start] == '+' {
        from = start + 1;
    }
    let ghost digits = if s.len() > 1 && s[0] == '+' {
        s.skip(1)
    } else {
        s
    };
    assert(digits =~= v@.skip(from as int));
    if from == v.len() {
        return None;
    }
    let mut n: u128 = 0;
    let mut i: usize = from;
    assert(digits.take(0) =~= Seq::<char>::empty());
    while i < v.len()
        invariant
            start <= from <= i <= v@.len(),
            s == v@.skip(start as int),
            digits == v@.skip(from as int),
            digits == (if s.len() > 1 && s[0] == '+' {
                s.skip(1)
            } else {
                s
            }),
            digits.len() > 0,
            n == number_of(digits.take(i - from)),
            forall|k: int| 0 <= k < i - from ==> is_digit(#[trigger] digits[k]),
        decreases v.len() - i,
    {
        let c = v[i];
        assert(digits[i - from] == c);
        if !('0' <= c && c <= '9') {
            assert(!is_number(digits));
            return None;
        }
        let d: u128 = (c as u32 - 48) as u128;
        proof {
            let t = digits.take(i - from + 1);
            assert(t.drop_last() =~= digits.take(i - from));
            assert(t.last() == c);
            assert(number_of(t) == n * 10 + d);
            if is_number(digits) {
                lemma_number_grows(digits, i - from + 1);
            }
        }
        if n > (u128::MAX - d) / 10 {
            assert(n * 10 + d > u128::MAX);
            return None;
        }
        n = n * 10 + d;
        i += 1;
    }
    assert(digits.take(i - from) =~= digits);
    Some(n)
}

proof fn lemma_trim_start(a: Seq<char>, t: Seq<char>, drop: spec_fn(char) -> bool)
    requires
        forall|k: int| 0 <= k < a.len() ==> drop(#[trigger] a[k]),
        t.len() > 0 ==> !drop(t[0]),
    ensures
        trim_start(a + t, drop) == t,
    decreases a.len(),
{
    if a.len() == 0 {
        assert(a + t =~= t);
    } else {
        let rest = a.skip(1);
        assert forall|k: int| 0 <= k < rest.len() implies drop(#[trigger] rest[k]) by {
            assert(rest[k] == a[k + 1]);
        }
        lemma_trim_start(rest, t, drop);
        assert((a + t).skip(1) =~= rest + t);
        assert((a + t)[0] == a[0]);
    }
}

proof fn lemma_trim_end(t: Seq<char>, b: Seq<char>, drop: spec_fn(char) -> bool)
    requires
        forall|k: int| 0 <= k < b.len() ==> drop(#[trigger] b[k]),
        t.len() > 0 ==> !drop(t.last()),
    ensures
        trim_end(t + b, drop) == t,
    decreases b.len(),
{
    if b.len() == 0 {
        assert(t + b =~= t);
    } else {
        let rest = b.drop_last();
        assert forall|k: int| 0 <= k < rest.len() implies drop(#[trigger] rest[k]) by {
            assert(rest[k] == b[k]);
        }
        lemma_trim_end(t, rest, drop);
        assert((t + b).drop_last() =~= t + rest);
        assert((t + b).last() == b[b.len() - 1]);
    }
}

/// Trimming takes away all that is to go at both ends, and nothing else.
pub proof fn trimming_takes_away_the_ends(
    a: Seq<char>,
    s: Seq<char>,
    b: Seq<char>,
    drop: spec_fn(char) -> bool,
)
    requires
        forall|k: int| 0 <= k < a.len() ==> drop(#[trigger] a[k]),
        forall|k: int| 0 <= k < b.len() ==> drop(#[trigger] b[k]),
        s.len() > 0 ==> !drop(s[0]) && !drop(s.last()),
    ensures
        trimmed(a + s + b, drop) == s,
        s.len() > 0 ==> trim_start(a + s + b, drop) == s + b,
{
    assert(a + s + b =~= a + (s + b));
    if s.len() > 0 {
        assert((s + b)[0] == s[0]);
        lemma_trim_start(a, s + b, drop);
        lemma_trim_end(s, b, drop);
    } else {
        let all = a + b;
        assert(a + s + b =~= all + s);
        assert forall|k: int| 0 <= k < all.len() implies drop(#[trigger] all[k]) by {
            if k < a.len() {
                assert(all[k] == a[k]);
            } else {
                assert(all[k] == b[k - a.len()]);
            }
        }
        lemma_trim_start(all, s, drop);
        assert(s + s =~= s);
    }
}

/// A text stands for a number where it consists of digits, with one plus sign before them at
/// most, and the number fits; the sign changes nothing.
pub proof fn numbers_consist_of_digits(s: Seq<char>)
    ensures
        parsed_number(s) is Some ==> s.len() > 0 && forall|k: int|
            1 <= k < s.len() ==> '0' <= #[trigger] s[k] <= '9',
        parsed_number(s) is Some ==> '0' <= s[0] <= '9' || (s[0] == '+' && s.len() > 1),
        is_number(s) ==> parsed_number(seq!['+'] + s) == parsed_number(s),
        is_number(s) && number_of(s) <= u128::MAX ==> parsed_number(s) == Some(
            number_of(s) as u128,
        ),
        is_number(s) && number_of(s) > u128::MAX ==> parsed_number(s) is None,
{
    if parsed_number(s) is Some {
        if s.len() > 1 && s[0] == '+' {
            assert forall|k: int| 1 <= k < s.len() implies '0' <= #[trigger] s[k] <= '9' by {
                assert(is_digit(s.skip(1)[k - 1]));
            }
        } else {
            assert(is_digit(s[0]));
            assert forall|k: int| 1 <= k < s.len() implies '0' <= #[trigger] s[k] <= '9' by {
                assert(is_digit(s[k]));
            }
        }
    }
    if is_number(s) {
        assert(is_digit(s[0]));
        assert((seq!['+'] + s).skip(1) =~= s);
    }
}

/// A text is searched as well where something stands before it.
pub proof fn search_does_not_mind_what_is_before(p: Seq<char>, s: Seq<char>, c: char, from: int)
    requires
        0 <= from <= s.len(),
    ensures
        find_from(p + s, c, p.len() + from) == p.len() + find_from(s, c, from),
    decreases s.len() - from,
{
    if from < s.len() {
        assert((p + s)[p.len() + from] == s[from]);
        if s[from] != c {
            search_does_not_mind_what_is_before(p, s, c, from + 1);
        }
    }
}

/// The first `c` behind a part that has none is found right there.
pub proof fn search_finds_the_first(a: Seq<char>, c: char, b: Seq<char>)
    requires
        forall|k: int| 0 <= k < a.len() ==> #[trigger] a[k] != c,
    ensures
        find_from(a.push(c) + b, c, 0) == a.len(),
        find_from(a, c, 0) == a.len(),
{
    let s = a.push(c) + b;
    lemma_find_from(s, c, 0);
    lemma_find_from(a, c, 0);
    assert(s[a.len() as int] == c);
    let f = find_from(s, c, 0);
    if f < a.len() {
        assert(s[f] == a[f]);
    }
    let g = find_from(a, c, 0);
    if g < a.len() {
        assert(a[g] == c);
    }
}

} // verus!
