//! Helpers on strings shared by the other modules.

use vstd::prelude::*;

verus! {

/// `String::push` appends one character at the end.
pub assume_specification[ String::push ](s: &mut String, c: char)
    ensures
        final(s)@ == old(s)@.push(c),
;

/// What `std::str::from_utf8` says of bytes that are not UTF-8.
pub uninterp spec fn utf8_error_text(bytes: Seq<u8>) -> Seq<char>;

/// Calls `std::str::from_utf8`: bytes that are UTF-8 are decoded, others are refused with
/// the text of the error, which depends on the bytes alone.
#[verifier::external_body]
pub(crate) fn utf8_text(bytes: &[u8]) -> (r: Result<String, String>)
    ensures
        r is Ok <==> vstd::utf8::valid_utf8(bytes@),
        r is Ok ==> r->Ok_0@ == vstd::utf8::decode_utf8(bytes@),
        r is Err ==> r->Err_0@ == utf8_error_text(bytes@),
{
    match std::str::from_utf8(bytes) {
        Ok(s) => Ok(s.to_owned()),
        Err(e) => Err(e.to_string()),
    }
}

/// The characters of `s`, in order.
pub fn chars_of(s: &str) -> (v: Vec<char>)
    ensures
        v@ == s@,
{
    let mut v: Vec<char> = Vec::new();
    for c in it: s.chars()
        invariant
            v@ == s@.take(it.index() as int),
            it.seq() == s@,
    {
        v.push(c);
    }
    assert(s@.take(s@.len() as int) == s@);
    v
}

/// The string made of the characters `v[from..to]`.
pub fn string_of(v: &Vec<char>, from: usize, to: usize) -> (s: String)
    requires
        from <= to <= v@.len(),
    ensures
        s@ == v@.subrange(from as int, to as int),
{
    let mut s = String::new();
    let mut i: usize = from;
    while i < to
        invariant
            from <= i <= to <= v@.len(),
            s@ == v@.subrange(from as int, i as int),
        decreases to - i,
    {
        s.push(v[i]);
        i += 1;
    }
    s
}

/// A copy of `s` as an owned string.
pub fn owned(s: &str) -> (r: String)
    ensures
        r@ == s@,
{
    s.to_owned()
}

/// `a` followed by `b`.
pub fn concat2(a: &str, b: &str) -> (r: String)
    ensures
        r@ == a@ + b@,
{
    let mut r = a.to_owned();
    r.append(b);
    r
}

/// `a`, `b` and `c` one after the other.
pub fn concat3(a: &str, b: &str, c: &str) -> (r: String)
    ensures
        r@ == a@ + b@ + c@,
{
    let mut r = a.to_owned();
    r.append(b);
    r.append(c);
    r
}

/// Whether the two strings hold the same characters.
pub fn same(a: &str, b: &str) -> (r: bool)
    ensures
        r == (a@ == b@),
{
    a.to_owned() == b.to_owned()
}

/// Whether `full` begins with `prefix`.
pub open spec fn starts_with(full: Seq<char>, prefix: Seq<char>) -> bool {
    prefix.len() <= full.len() && full.take(prefix.len() as int) == prefix
}

/// What follows `prefix` in `full`, or nothing where `full` does not begin with it.
pub fn after_prefix(full: &str, prefix: &str) -> (r: Option<String>)
    ensures
        r is Some <==> starts_with(full@, prefix@),
        r is Some ==> r->0@ == full@.skip(prefix@.len() as int),
{
    let f = chars_of(full);
    let p = chars_of(prefix);
    if p.len() > f.len() {
        return None;
    }
    let mut i: usize = 0;
    while i < p.len()
        invariant
            i <= p@.len() <= f@.len(),
            f@ == full@,
            p@ == prefix@,
            f@.take(i as int) == p@.take(i as int),
        decreases p.len() - i,
    {
        if f[i] != p[i] {
            proof {
                if full@.take(prefix@.len() as int) == prefix@ {
                    assert(full@.take(prefix@.len() as int)[i as int] == prefix@[i as int]);
                }
            }
            return None;
        }
        assert(f@.take(i + 1) == f@.take(i as int).push(f@[i as int]));
        assert(p@.take(i + 1) == p@.take(i as int).push(p@[i as int]));
        i += 1;
    }
    assert(p@.take(i as int) == p@);
    Some(string_of(&f, p.len(), f.len()))
}

/// The decimal digit `d` as a character.
pub open spec fn digit_char(d: nat) -> char {
    (('0' as u32) + d) as char
}

/// The decimal notation of `n`, without leading zeros.
pub open spec fn decimal(n: nat) -> Seq<char>
    decreases n,
{
    if n < 10 {
        seq![digit_char(n)]
    } else {
        decimal(n / 10).push(digit_char(n % 10))
    }
}

/// The decimal notation of `i`, with a leading `-` where it is negative.
pub open spec fn signed_decimal(i: int) -> Seq<char> {
    if i < 0 {
        seq!['-'] + decimal((-i) as nat)
    } else {
        decimal(i as nat)
    }
}

fn digit(d: u8) -> (c: char)
    requires
        d < 10,
    ensures
        c == digit_char(d as nat),
{
    (48u8 + d) as char
}

/// Writes `n` in decimal.
pub fn decimal_u64(n: u64) -> (s: String)
    ensures
        s@ == decimal(n as nat),
    decreases n,
{
    if n < 10 {
        let mut s = String::new();
        s.push(digit(n as u8));
        assert(s@ == seq![digit_char(n as nat)]);
        s
    } else {
        let mut s = decimal_u64(n / 10);
        s.push(digit((n % 10) as u8));
        s
    }
}

/// Writes `i` in decimal.
pub fn decimal_i32(i: i32) -> (s: String)
    ensures
        s@ == signed_decimal(i as int),
{
    if i < 0 {
        let mut s = String::new();
        s.push('-');
        let m = decimal_u64((0 - (i as i64)) as u64);
        s.append(m.as_str());
        s
    } else {
        decimal_u64(i as u64)
    }
}

/// How many UTF-16 units a text takes up.
pub open spec fn utf16_len(s: Seq<char>) -> nat
    decreases s.len(),
{
    if s.len() == 0 {
        0
    } else {
        utf16_len(s.drop_last()) + if s.last() as u32 >= 0x10000 {
            2nat
        } else {
            1nat
        }
    }
}

/// How many UTF-16 units a text takes up, as far as the number fits.
pub fn utf16_count(s: &str) -> (r: i32)
    ensures
        r == (if utf16_len(s@) <= i32::MAX {
            utf16_len(s@) as int
        } else {
            i32::MAX as int
        }),
{
    let v = chars_of(s);
    let mut n: i32 = 0;
    let mut i: usize = 0;
    assert(v@.take(0) =~= Seq::<char>::empty());
    while i < v.len()
        invariant
            i <= v@.len(),
            v@ == s@,
            n == (if utf16_len(v@.take(i as int)) <= i32::MAX {
                utf16_len(v@.take(i as int)) as int
            } else {
                i32::MAX as int
            }),
        decreases v.len() - i,
    {
        proof {
            let next = v@.take(i + 1);
            assert(next.drop_last() =~= v@.take(i as int));
            assert(next.last() == v@[i as int]);
        }
        let wide: i32 = if v[i] as u32 >= 0x10000 {
            2
        } else {
            1
        };
        n = if n > i32::MAX - wide {
            i32::MAX
        } else {
            n + wide
        };
        i += 1;
    }
    assert(v@.take(i as int) =~= v@);
    n
}

/// The UTF-16 units of a character.
pub open spec fn char_units(c: char) -> Seq<u16> {
    let u = c as u32;
    if u < 0x10000 {
        seq![u as u16]
    } else {
        seq![
            (0xd800 + (u - 0x10000) / 0x400) as u16,
            (0xdc00 + (u - 0x10000) % 0x400) as u16,
        ]
    }
}

/// The UTF-16 units of a text.
pub open spec fn utf16_units(s: Seq<char>) -> Seq<u16>
    decreases s.len(),
{
    if s.len() == 0 {
        Seq::empty()
    } else {
        utf16_units(s.drop_last()) + char_units(s.last())
    }
}

/// A text in UTF-16.
pub fn utf16(s: &str) -> (r: Vec<u16>)
    ensures
        r@ == utf16_units(s@),
{
    let v = chars_of(s);
    let mut r: Vec<u16> = Vec::new();
    let mut i: usize = 0;
    assert(v@.take(0) =~= Seq::<char>::empty());
    while i < v.len()
        invariant
            i <= v@.len(),
            v@ == s@,
            r@ == utf16_units(v@.take(i as int)),
        decreases v.len() - i,
    {
        proof {
            let next = v@.take(i + 1);
            assert(next.drop_last() =~= v@.take(i as int));
            assert(next.last() == v@[i as int]);
        }
        let ghost before = r@;
        let u: u32 = v[i] as u32;
        if u < 0x10000 {
            r.push(u as u16);
        } else {
            r.push((0xd800 + (u - 0x10000) / 0x400) as u16);
            r.push((0xdc00 + (u - 0x10000) % 0x400) as u16);
        }
        assert(r@ =~= before + char_units(v@[i as int]));
        i += 1;
    }
    assert(v@.take(i as int) =~= v@);
    r
}

/// A text in UTF-16 with a zero at its end, as the system takes it.
pub fn to_wide_text(s: &str) -> (r: Vec<u16>)
    ensures
        r@ == utf16_units(s@).push(0),
{
    let mut r = utf16(s);
    r.push(0);
    r
}

/// The character of two UTF-16 units that belong together.
pub open spec fn pair_char(high: u16, low: u16) -> char {
    (0x10000 + (high - 0xd800) * 0x400 + (low - 0xdc00)) as char
}

/// Whether a unit is the first of two that belong together.
pub open spec fn is_high(unit: u16) -> bool {
    0xd800 <= unit < 0xdc00
}

/// Whether a unit is the second of two that belong together.
pub open spec fn is_low(unit: u16) -> bool {
    0xdc00 <= unit < 0xe000
}

/// The text of UTF-16 units, with a mark in place of each unit that lacks the one it belongs
/// to.
pub open spec fn utf16_chars(units: Seq<u16>) -> Seq<char>
    decreases units.len(),
{
    if units.len() == 0 {
        Seq::empty()
    } else if !is_high(units[0]) && !is_low(units[0]) {
        seq![units[0] as char] + utf16_chars(units.skip(1))
    } else if is_high(units[0]) && units.len() > 1 && is_low(units[1]) {
        seq![pair_char(units[0], units[1])] + utf16_chars(units.skip(2))
    } else {
        seq!['\u{fffd}'] + utf16_chars(units.skip(1))
    }
}

/// The text of UTF-16 units, with a mark in place of each fault.
pub fn utf16_text(units: &Vec<u16>) -> (r: String)
    ensures
        r@ == utf16_chars(units@),
{
    let mut r = String::new();
    let mut i: usize = 0;
    assert(units@.skip(0) =~= units@);
    assert(r@ + utf16_chars(units@) =~= utf16_chars(units@));
    while i < units.len()
        invariant
            i <= units@.len(),
            r@ + utf16_chars(units@.skip(i as int)) == utf16_chars(units@),
        decreases units.len() - i,
    {
        let unit: u16 = units[i];
        let ghost before = r@;
        let ghost rest = units@.skip(i as int);
        assert(rest.skip(1) =~= units@.skip(i + 1));
        if unit < 0xd800 || unit >= 0xe000 {
            r.push(char_of(unit as u32));
            i += 1;
        } else if unit < 0xdc00 && i + 1 < units.len() && 0xdc00 <= units[i + 1] && units[i + 1]
            < 0xe000 {
            assert(rest.skip(2) =~= units@.skip(i + 2));
            let high: u32 = unit as u32 - 0xd800;
            let low: u32 = units[i + 1] as u32 - 0xdc00;
            r.push(char_of(0x10000 + high * 0x400 + low));
            i += 2;
        } else {
            r.push('\u{fffd}');
            i += 1;
        }
        assert(before + utf16_chars(rest) =~= r@ + utf16_chars(units@.skip(i as int)));
    }
    assert(r@ + utf16_chars(units@.skip(i as int)) =~= r@);
    r
}

fn char_of(n: u32) -> (r: char)
    requires
        n <= 0xD7FF || 0xE000 <= n <= 0x10FFFF,
    ensures
        r == n as char,
{
    match char::from_u32(n) {
        Some(c) => c,
        None => '\u{fffd}',
    }
}

/// Where the first zero is, or the end.
pub open spec fn first_zero(units: Seq<u16>, from: int) -> int
    decreases units.len() - from,
{
    if from < 0 || from >= units.len() || units[from] == 0 {
        from
    } else {
        first_zero(units, from + 1)
    }
}

/// The text in a field of UTF-16 units: it goes up to the first zero.
pub fn wides_to_string(wides: &Vec<u16>) -> (r: String)
    ensures
        first_zero(wides@, 0) <= wides@.len(),
        r@ == utf16_chars(wides@.take(first_zero(wides@, 0))),
{
    let mut len: usize = 0;
    let mut head: Vec<u16> = Vec::new();
    assert(wides@.take(0) =~= head@);
    while len < wides.len() && wides[len] != 0
        invariant
            len <= wides@.len(),
            first_zero(wides@, 0) == first_zero(wides@, len as int),
            head@ == wides@.take(len as int),
        decreases wides.len() - len,
    {
        head.push(wides[len]);
        assert(head@ =~= wides@.take(len + 1));
        len += 1;
    }
    utf16_text(&head)
}

/// A text takes up as many units as it has.
pub proof fn utf16_len_counts_units(s: Seq<char>)
    ensures
        utf16_len(s) == utf16_units(s).len(),
    decreases s.len(),
{
    if s.len() > 0 {
        utf16_len_counts_units(s.drop_last());
    }
}

proof fn lemma_units_from_front(s: Seq<char>)
    requires
        s.len() > 0,
    ensures
        utf16_units(s) == char_units(s[0]) + utf16_units(s.skip(1)),
    decreases s.len(),
{
    if s.len() == 1 {
        assert(s.skip(1) =~= Seq::<char>::empty());
        assert(s.drop_last() =~= Seq::<char>::empty());
        assert(utf16_units(s) =~= char_units(s[0]) + utf16_units(s.skip(1)));
    } else {
        let front = s.drop_last();
        lemma_units_from_front(front);
        assert(front[0] == s[0]);
        assert(front.skip(1) =~= s.skip(1).drop_last());
        assert(s.skip(1).last() == s.last());
        assert(utf16_units(s) =~= char_units(s[0]) + utf16_units(s.skip(1)));
    }
}

proof fn lemma_char_units(c: char)
    ensures
        ({
            let units = char_units(c);
            if (c as u32) < 0x10000 {
                &&& units.len() == 1
                &&& !is_high(units[0]) && !is_low(units[0])
                &&& units[0] as char == c
            } else {
                &&& units.len() == 2
                &&& is_high(units[0]) && is_low(units[1])
                &&& pair_char(units[0], units[1]) == c
            }
        }),
        c != '\0' ==> forall|i: int|
            0 <= i < char_units(c).len() ==> #[trigger] char_units(c)[i] != 0,
{
    let u = c as u32;
    let over = u - 0x10000;
    assert(u <= 0x10ffff);
    if u >= 0x10000 {
        assert(0 <= over / 0x400 < 0x400);
        assert(0 <= over % 0x400 < 0x400);
        assert(over == (over / 0x400) * 0x400 + over % 0x400);
    }
}

/// What a text is in UTF-16 gives the text back.
pub proof fn utf16_comes_back(s: Seq<char>)
    ensures
        utf16_chars(utf16_units(s)) == s,
    decreases s.len(),
{
    if s.len() > 0 {
        let c = s[0];
        let rest = utf16_units(s.skip(1));
        let units = utf16_units(s);
        lemma_units_from_front(s);
        utf16_comes_back(s.skip(1));
        lemma_char_units(c);
        assert(units == char_units(c) + rest);
        if (c as u32) < 0x10000 {
            assert(units.skip(1) =~= rest);
        } else {
            assert(units.skip(2) =~= rest);
        }
        assert(seq![c] + s.skip(1) =~= s);
    }
}

proof fn lemma_no_zero(s: Seq<char>)
    requires
        forall|i: int| 0 <= i < s.len() ==> #[trigger] s[i] != '\0',
    ensures
        forall|i: int| 0 <= i < utf16_units(s).len() ==> #[trigger] utf16_units(s)[i] != 0,
    decreases s.len(),
{
    if s.len() > 0 {
        let front = s.drop_last();
        assert forall|i: int| 0 <= i < front.len() implies #[trigger] front[i] != '\0' by {
            assert(front[i] == s[i]);
        }
        lemma_no_zero(front);
        let units = utf16_units(s);
        let c = s[s.len() - 1];
        assert(c != '\0');
        lemma_char_units(c);
        assert forall|i: int| 0 <= i < units.len() implies #[trigger] units[i] != 0 by {
            if i < utf16_units(front).len() {
                assert(units[i] == utf16_units(front)[i]);
            } else {
                let k = i - utf16_units(front).len();
                assert(units[i] == char_units(c)[k]);
            }
        }
    }
}

proof fn lemma_first_zero(units: Seq<u16>, from: int)
    requires
        0 <= from <= units.len(),
        forall|i: int| 0 <= i < units.len() ==> #[trigger] units[i] != 0,
    ensures
        first_zero(units.push(0), from) == units.len(),
    decreases units.len() - from,
{
    if from < units.len() {
        assert(units.push(0)[from] == units[from]);
        lemma_first_zero(units, from + 1);
    }
}

/// A text without zeros is given back by the field that the system takes it in.
pub proof fn wide_text_comes_back(s: Seq<char>)
    requires
        forall|i: int| 0 <= i < s.len() ==> #[trigger] s[i] != '\0',
    ensures
        ({
            let field = utf16_units(s).push(0);
            utf16_chars(field.take(first_zero(field, 0))) == s
        }),
{
    let units = utf16_units(s);
    lemma_no_zero(s);
    lemma_first_zero(units, 0);
    assert(units.push(0).take(units.len() as int) =~= units);
    utf16_comes_back(s);
}

/// The units of two texts one after the other are those of both.
pub proof fn utf16_len_adds_up(a: Seq<char>, b: Seq<char>)
    ensures
        utf16_len(a + b) == utf16_len(a) + utf16_len(b),
    decreases b.len(),
{
    if b.len() == 0 {
        assert(a + b =~= a);
    } else {
        utf16_len_adds_up(a, b.drop_last());
        assert((a + b).drop_last() =~= a + b.drop_last());
        assert((a + b).last() == b.last());
    }
}

/// The hexadecimal digit `d` as a lower-case character.
pub open spec fn hex_digit_char(d: nat) -> char {
    if d < 10 {
        digit_char(d)
    } else {
        (('a' as u32) + (d - 10)) as char
    }
}

/// The hexadecimal notation of `n` in lower case, without leading zeros.
pub open spec fn hexadecimal(n: nat) -> Seq<char>
    decreases n,
{
    if n < 16 {
        seq![hex_digit_char(n)]
    } else {
        hexadecimal(n / 16).push(hex_digit_char(n % 16))
    }
}

/// One hexadecimal digit.
pub fn hex_digit(d: u8) -> (c: char)
    requires
        d < 16,
    ensures
        c == hex_digit_char(d as nat),
{
    if d < 10 {
        digit(d)
    } else {
        (97u8 + (d - 10)) as char
    }
}

/// A byte as two hexadecimal digits.
pub open spec fn hex_byte(b: u8) -> Seq<char> {
    seq![hex_digit_char((b / 16) as nat), hex_digit_char((b % 16) as nat)]
}

/// Bytes, each as two hexadecimal digits.
pub open spec fn hex_bytes(bytes: Seq<u8>) -> Seq<char>
    decreases bytes.len(),
{
    if bytes.len() == 0 {
        Seq::empty()
    } else {
        hex_bytes(bytes.drop_last()) + hex_byte(bytes.last())
    }
}

/// Writes the first `n` bytes in hexadecimal.
pub fn hex_prefix(bytes: &[u8], n: usize) -> (s: String)
    requires
        n <= bytes@.len(),
    ensures
        s@ == hex_bytes(bytes@.take(n as int)),
{
    let mut s = String::new();
    let mut i: usize = 0;
    assert(s@ =~= hex_bytes(bytes@.take(0)));
    while i < n
        invariant
            i <= n <= bytes@.len(),
            s@ == hex_bytes(bytes@.take(i as int)),
        decreases n - i,
    {
        let b = bytes[i];
        proof {
            let next = bytes@.take(i + 1);
            assert(next.drop_last() =~= bytes@.take(i as int));
            assert(next.last() == b);
        }
        let ghost before = s@;
        s.push(hex_digit(b / 16));
        s.push(hex_digit(b % 16));
        assert(s@ =~= before + hex_byte(b));
        i += 1;
    }
    s
}

/// Writes `n` in hexadecimal.
pub fn hexadecimal_u64(n: u64) -> (s: String)
    ensures
        s@ == hexadecimal(n as nat),
    decreases n,
{
    if n < 16 {
        let mut s = String::new();
        s.push(hex_digit(n as u8));
        assert(s@ == seq![hex_digit_char(n as nat)]);
        s
    } else {
        let mut s = hexadecimal_u64(n / 16);
        s.push(hex_digit((n % 16) as u8));
        s
    }
}

/// The decimal notation of a number consists of digits, reads as that number, and has no
/// leading zero.
pub proof fn decimal_can_be_read(n: nat)
    ensures
        crate::scan::is_number(decimal(n)),
        crate::scan::number_of(decimal(n)) == n,
        n > 0 ==> decimal(n)[0] != '0',
        decimal(n).len() > 1 ==> decimal(n)[0] != '0',
    decreases n,
{
    let d = decimal(n);
    let last = digit_char(n % 10);
    assert(crate::scan::is_digit(last) && last as nat - '0' as nat == n % 10);
    if n >= 10 {
        decimal_can_be_read(n / 10);
        assert(d.drop_last() =~= decimal(n / 10));
        assert(d.last() == last);
        assert(d[0] == decimal(n / 10)[0]);
        assert forall|k: int| 0 <= k < d.len() implies crate::scan::is_digit(#[trigger] d[k]) by {
            if k < d.len() - 1 {
                assert(d[k] == decimal(n / 10)[k]);
            }
        }
    } else {
        assert(d.drop_last() =~= Seq::<char>::empty());
        assert(d.last() == last);
        assert(crate::scan::number_of(d.drop_last()) == 0);
    }
}

/// A negative number is written as its opposite with a minus sign before it, any other as it is.
pub proof fn sign_stands_before_number(i: int)
    ensures
        i >= 0 ==> signed_decimal(i) == decimal(i as nat),
        i < 0 ==> signed_decimal(i).len() > 1 && signed_decimal(i)[0] == '-' && signed_decimal(
            i,
        ).skip(1) == decimal((-i) as nat),
{
    if i < 0 {
        decimal_can_be_read((-i) as nat);
        assert(signed_decimal(i).skip(1) =~= decimal((-i) as nat));
    }
}

/// The notations of bytes follow each other in their order, two digits for each.
pub proof fn bytes_follow_each_other(a: Seq<u8>, b: Seq<u8>)
    ensures
        hex_bytes(a + b) == hex_bytes(a) + hex_bytes(b),
        hex_bytes(a).len() == 2 * a.len(),
        hex_bytes(Seq::empty()) == Seq::<char>::empty(),
    decreases a.len() + b.len(),
{
    if b.len() > 0 {
        bytes_follow_each_other(a, b.drop_last());
        assert((a + b).drop_last() =~= a + b.drop_last());
        assert(hex_bytes(a + b) =~= hex_bytes(a) + hex_bytes(b));
    } else {
        assert(a + b =~= a);
        assert(hex_bytes(a) + hex_bytes(b) =~= hex_bytes(a));
        if a.len() > 0 {
            bytes_follow_each_other(a.drop_last(), b);
        }
    }
}

} // verus!
