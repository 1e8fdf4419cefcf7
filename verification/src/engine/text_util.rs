//! Width and kana conversion of whole strings (the F6 to F10 keys).

use crate::text::{chars_of, same};
use vstd::prelude::*;

verus! {

/// Half-width voiced sound mark.
pub const DAKUTEN: char = '\u{FF9E}';

/// Half-width semi-voiced sound mark.
pub const HANDAKUTEN: char = '\u{FF9F}';

/// `char::from_u32` gives the character with code point `i`, and nothing where
/// `i` is a surrogate or lies past the last code point.
pub assume_specification[ char::from_u32 ](i: u32) -> (r: Option<char>)
    ensures
        r == (if i <= 0xD7FF || 0xE000 <= i <= 0x10FFFF {
            Some(i as char)
        } else {
            None
        }),
;

/// A hiragana letter that has a katakana counterpart.
pub open spec fn is_hiragana(c: char) -> bool {
    0x3041 <= c as u32 <= 0x3096
}

/// A katakana letter that has a hiragana counterpart.
pub open spec fn is_katakana(c: char) -> bool {
    0x30A1 <= c as u32 <= 0x30F6
}

/// A half-width katakana letter or mark that the kana keys widen.
pub open spec fn is_half_kana(c: char) -> bool {
    0xFF65 <= c as u32 <= 0xFF9F
}

/// A printable ASCII character other than the space.
pub open spec fn is_half_latin(c: char) -> bool {
    0x21 <= c as u32 <= 0x7E
}

/// The full-width form of a printable ASCII character.
pub open spec fn is_full_latin(c: char) -> bool {
    0xFF01 <= c as u32 <= 0xFF5E
}

/// The full-width form of `c`, which is `c` itself outside printable ASCII.
pub open spec fn full_latin_char(c: char) -> char {
    if is_half_latin(c) {
        (c as u32 - 0x21 + 0xFF01) as char
    } else {
        c
    }
}

/// The ASCII character of which `c` is the full-width form, else `c`.
pub open spec fn half_latin_char(c: char) -> char {
    if is_full_latin(c) {
        (c as u32 - 0xFF01 + 0x21) as char
    } else {
        c
    }
}

/// Hiragana to katakana, anything else unchanged.
pub open spec fn katakana_char(c: char) -> char {
    if is_hiragana(c) {
        (c as u32 + 0x60) as char
    } else {
        c
    }
}

/// Katakana to hiragana, anything else unchanged.
pub open spec fn hiragana_char(c: char) -> char {
    if is_katakana(c) {
        (c as u32 - 0x60) as char
    } else {
        c
    }
}

/// The full-width form of a half-width kana without a sound mark.
pub open spec fn full_kana(c: char) -> Option<char> {
    match c {
        'ｦ' => Some('ヲ'), 'ｧ' => Some('ァ'), 'ｨ' => Some('ィ'), 'ｩ' => Some('ゥ'),
        'ｪ' => Some('ェ'), 'ｫ' => Some('ォ'), 'ｬ' => Some('ャ'), 'ｭ' => Some('ュ'),
        'ｮ' => Some('ョ'), 'ｯ' => Some('ッ'), 'ｰ' => Some('ー'), 'ｱ' => Some('ア'),
        'ｲ' => Some('イ'), 'ｳ' => Some('ウ'), 'ｴ' => Some('エ'), 'ｵ' => Some('オ'),
        'ｶ' => Some('カ'), 'ｷ' => Some('キ'), 'ｸ' => Some('ク'), 'ｹ' => Some('ケ'),
        'ｺ' => Some('コ'), 'ｻ' => Some('サ'), 'ｼ' => Some('シ'), 'ｽ' => Some('ス'),
        'ｾ' => Some('セ'), 'ｿ' => Some('ソ'), 'ﾀ' => Some('タ'), 'ﾁ' => Some('チ'),
        'ﾂ' => Some('ツ'), 'ﾃ' => Some('テ'), 'ﾄ' => Some('ト'), 'ﾅ' => Some('ナ'),
        'ﾆ' => Some('ニ'), 'ﾇ' => Some('ヌ'), 'ﾈ' => Some('ネ'), 'ﾉ' => Some('ノ'),
        'ﾊ' => Some('ハ'), 'ﾋ' => Some('ヒ'), 'ﾌ' => Some('フ'), 'ﾍ' => Some('ヘ'),
        'ﾎ' => Some('ホ'), 'ﾏ' => Some('マ'), 'ﾐ' => Some('ミ'), 'ﾑ' => Some('ム'),
        'ﾒ' => Some('メ'), 'ﾓ' => Some('モ'), 'ﾔ' => Some('ヤ'), 'ﾕ' => Some('ユ'),
        'ﾖ' => Some('ヨ'), 'ﾗ' => Some('ラ'), 'ﾘ' => Some('リ'), 'ﾙ' => Some('ル'),
        'ﾚ' => Some('レ'), 'ﾛ' => Some('ロ'), 'ﾜ' => Some('ワ'), 'ﾝ' => Some('ン'),
        '｡' => Some('。'), '｢' => Some('「'), '｣' => Some('」'), '､' => Some('、'),
        '･' => Some('・'),
        _ => None,
    }
}

/// The half-width kana that a following voiced mark can join.
pub open spec fn takes_dakuten(c: char) -> bool {
    c == 'ｳ' || 'ｶ' as u32 <= c as u32 <= 'ﾄ' as u32 || takes_handakuten(c)
}

/// The half-width kana that a following semi-voiced mark can join.
pub open spec fn takes_handakuten(c: char) -> bool {
    'ﾊ' as u32 <= c as u32 <= 'ﾎ' as u32
}

/// The voiced form of a full-width katakana: it follows the plain form in code
/// order, except for `ヴ`.
pub open spec fn voiced(k: char) -> char {
    if k == 'ウ' {
        'ヴ'
    } else {
        (k as u32 + 1) as char
    }
}

/// The semi-voiced form of a full-width katakana of the `ハ` row.
pub open spec fn semi_voiced(k: char) -> char {
    (k as u32 + 2) as char
}

/// The full-width katakana for the half-width `c` with `next` after it, and
/// whether `next` is the sound mark that it absorbs.
pub open spec fn full_kana_with(c: char, next: Option<char>) -> Option<(char, bool)> {
    match full_kana(c) {
        None => None,
        Some(k) => if next == Some(DAKUTEN) && takes_dakuten(c) {
            Some((voiced(k), true))
        } else if next == Some(HANDAKUTEN) && takes_handakuten(c) {
            Some((semi_voiced(k), true))
        } else {
            Some((k, false))
        },
    }
}

/// The character after the first one.
pub open spec fn second(s: Seq<char>) -> Option<char> {
    if s.len() > 1 {
        Some(s[1])
    } else {
        None
    }
}

/// The first full-width character of the widened `s`, and how many characters of
/// `s` it stands for.
pub open spec fn widen_first(s: Seq<char>) -> (char, int)
    recommends
        s.len() > 0,
{
    let c = s[0];
    if is_half_kana(c) {
        match full_kana_with(c, second(s)) {
            Some((k, true)) => (k, 2),
            Some((k, false)) => (k, 1),
            None => (c, 1),
        }
    } else {
        (full_latin_char(c), 1)
    }
}

/// `s` with half-width kana and printable ASCII made full-width; a sound mark
/// joins the kana before it where it can.
pub open spec fn widen(s: Seq<char>) -> Seq<char>
    decreases s.len(),
{
    if s.len() == 0 {
        Seq::empty()
    } else {
        let (k, used) = widen_first(s);
        seq![k] + widen(s.skip(used))
    }
}

/// What the katakana key makes of `s`.
pub open spec fn katakana_text(s: Seq<char>) -> Seq<char> {
    widen(s).map_values(|c: char| katakana_char(c))
}

/// What the hiragana key makes of `s`.
pub open spec fn hiragana_text(s: Seq<char>) -> Seq<char> {
    widen(s).map_values(|c: char| hiragana_char(c))
}

/// `s` with printable ASCII made full-width.
pub open spec fn full_latin_text(s: Seq<char>) -> Seq<char> {
    s.map_values(|c: char| full_latin_char(c))
}

/// `s` with full-width forms of printable ASCII made half-width.
pub open spec fn half_latin_text(s: Seq<char>) -> Seq<char> {
    s.map_values(|c: char| half_latin_char(c))
}

/// The half-width form of a katakana without a sound mark. `ヮ` has no small
/// half-width form and shares that of `ワ`.
pub open spec fn half_kana(k: char) -> Option<char> {
    match k {
        'ヲ' => Some('ｦ'), 'ァ' => Some('ｧ'), 'ィ' => Some('ｨ'), 'ゥ' => Some('ｩ'),
        'ェ' => Some('ｪ'), 'ォ' => Some('ｫ'), 'ャ' => Some('ｬ'), 'ュ' => Some('ｭ'),
        'ョ' => Some('ｮ'), 'ッ' => Some('ｯ'), 'ー' => Some('ｰ'), 'ア' => Some('ｱ'),
        'イ' => Some('ｲ'), 'ウ' => Some('ｳ'), 'エ' => Some('ｴ'), 'オ' => Some('ｵ'),
        'カ' => Some('ｶ'), 'キ' => Some('ｷ'), 'ク' => Some('ｸ'), 'ケ' => Some('ｹ'),
        'コ' => Some('ｺ'), 'サ' => Some('ｻ'), 'シ' => Some('ｼ'), 'ス' => Some('ｽ'),
        'セ' => Some('ｾ'), 'ソ' => Some('ｿ'), 'タ' => Some('ﾀ'), 'チ' => Some('ﾁ'),
        'ツ' => Some('ﾂ'), 'テ' => Some('ﾃ'), 'ト' => Some('ﾄ'), 'ナ' => Some('ﾅ'),
        'ニ' => Some('ﾆ'), 'ヌ' => Some('ﾇ'), 'ネ' => Some('ﾈ'), 'ノ' => Some('ﾉ'),
        'ハ' => Some('ﾊ'), 'ヒ' => Some('ﾋ'), 'フ' => Some('ﾌ'), 'ヘ' => Some('ﾍ'),
        'ホ' => Some('ﾎ'), 'マ' => Some('ﾏ'), 'ミ' => Some('ﾐ'), 'ム' => Some('ﾑ'),
        'メ' => Some('ﾒ'), 'モ' => Some('ﾓ'), 'ヤ' => Some('ﾔ'), 'ユ' => Some('ﾕ'),
        'ヨ' => Some('ﾖ'), 'ラ' => Some('ﾗ'), 'リ' => Some('ﾘ'), 'ル' => Some('ﾙ'),
        'レ' => Some('ﾚ'), 'ロ' => Some('ﾛ'), 'ワ' => Some('ﾜ'), 'ン' => Some('ﾝ'),
        '。' => Some('｡'), '「' => Some('｢'), '」' => Some('｣'), '、' => Some('､'),
        '・' => Some('･'), 'ヮ' => Some('ﾜ'),
        _ => None,
    }
}

/// The plain katakana of which `k` is the voiced form.
pub open spec fn unvoiced(k: char) -> Option<char> {
    if k == 'ヴ' {
        Some('ウ')
    } else if !is_katakana(k) {
        None
    } else {
        match half_kana((k as u32 - 1) as char) {
            Some(h) => if h != 'ｳ' && takes_dakuten(h) && half_kana(k) is None {
                Some((k as u32 - 1) as char)
            } else {
                None
            },
            None => None,
        }
    }
}

/// The plain katakana of which `k` is the semi-voiced form.
pub open spec fn unsemivoiced(k: char) -> Option<char> {
    if !is_katakana(k) {
        None
    } else {
        match half_kana((k as u32 - 2) as char) {
            Some(h) => if takes_handakuten(h) && half_kana(k) is None {
                Some((k as u32 - 2) as char)
            } else {
                None
            },
            None => None,
        }
    }
}

/// The half-width form of one katakana: a letter, and a sound mark after it where
/// the katakana is voiced or semi-voiced.
pub open spec fn half_kana_parts(k: char) -> (char, Option<char>) {
    if half_kana(k) is Some {
        (half_kana(k)->0, None)
    } else if unvoiced(k) is Some {
        (half_kana(unvoiced(k)->0)->0, Some(DAKUTEN))
    } else if unsemivoiced(k) is Some {
        (half_kana(unsemivoiced(k)->0)->0, Some(HANDAKUTEN))
    } else {
        (k, None)
    }
}

/// What the half-width katakana key makes of one character.
pub open spec fn half_katakana_char(c: char) -> Seq<char> {
    if is_full_latin(c) {
        seq![half_latin_char(c)]
    } else {
        match half_kana_parts(katakana_char(c)) {
            (base, Some(mark)) => seq![base, mark],
            (base, None) => seq![base],
        }
    }
}

/// What the half-width katakana key makes of `s`.
pub open spec fn half_katakana_text(s: Seq<char>) -> Seq<char>
    decreases s.len(),
{
    if s.len() == 0 {
        Seq::empty()
    } else {
        half_katakana_text(s.drop_last()) + half_katakana_char(s.last())
    }
}

fn code_char(n: u32, c: char) -> (r: char)
    requires
        n <= 0xD7FF || 0xE000 <= n <= 0x10FFFF,
    ensures
        r == n as char,
{
    match char::from_u32(n) {
        Some(k) => k,
        None => c,
    }
}

/// Converts to katakana (F7): hiragana and half-width katakana become full-width
/// katakana, printable ASCII becomes full-width, the rest stays.
pub fn to_katakana(s: &str) -> (r: String)
    ensures
        r@ == katakana_text(s@),
{
    let chars = chars_of(s);
    let len: usize = chars.len();
    let mut result = String::new();
    let mut i: usize = 0;
    proof {
        assert(s@.skip(0) == s@);
    }
    while i < len
        invariant
            i <= len == chars@.len(),
            chars@ == s@,
            result@ + katakana_text(s@.skip(i as int)) == katakana_text(s@),
        decreases len - i,
    {
        let c = chars[i];
        let ghost rest = s@.skip(i as int);
        let (k, used) = widen_at(&chars, i);
        let n: u32 = k as u32;
        if 0x3041 <= n && n <= 0x3096 {
            result.push(code_char(n + 0x60, c));
        } else {
            result.push(k);
        }
        proof {
            lemma_widen_step(rest);
            assert(rest.skip(used as int) == s@.skip(i + used));
            assert(katakana_text(rest) == seq![katakana_char(k)] + katakana_text(
                s@.skip(i + used),
            ));
        }
        i += used;
    }
    assert(s@.skip(i as int) == Seq::<char>::empty());
    result
}

/// Converts to hiragana (F6): katakana of either width become hiragana, printable
/// ASCII becomes full-width, the rest stays.
pub fn to_hiragana(s: &str) -> (r: String)
    ensures
        r@ == hiragana_text(s@),
{
    let chars = chars_of(s);
    let len: usize = chars.len();
    let mut result = String::new();
    let mut i: usize = 0;
    proof {
        assert(s@.skip(0) == s@);
    }
    while i < len
        invariant
            i <= len == chars@.len(),
            chars@ == s@,
            result@ + hiragana_text(s@.skip(i as int)) == hiragana_text(s@),
        decreases len - i,
    {
        let c = chars[i];
        let ghost rest = s@.skip(i as int);
        let (k, used) = widen_at(&chars, i);
        let n: u32 = k as u32;
        if 0x30A1 <= n && n <= 0x30F6 {
            result.push(code_char(n - 0x60, c));
        } else {
            result.push(k);
        }
        proof {
            lemma_widen_step(rest);
            assert(rest.skip(used as int) == s@.skip(i + used));
            assert(hiragana_text(rest) == seq![hiragana_char(k)] + hiragana_text(
                s@.skip(i + used),
            ));
        }
        i += used;
    }
    assert(s@.skip(i as int) == Seq::<char>::empty());
    result
}

/// Widens the character at `i`, with the sound mark after it where it absorbs one.
fn widen_at(chars: &Vec<char>, i: usize) -> (r: (char, usize))
    requires
        i < chars@.len(),
    ensures
        (r.0, r.1 as int) == widen_first(chars@.skip(i as int)),
        1 <= r.1 <= chars@.len() - i,
{
    let c = chars[i];
    let n: u32 = c as u32;
    if 0xFF65 <= n && n <= 0xFF9F {
        let next = if chars.len() - i > 1 {
            Some(chars[i + 1])
        } else {
            None
        };
        match half_kata_to_full(c, next) {
            Some((k, true)) => (k, 2),
            Some((k, false)) => (k, 1),
            None => (c, 1),
        }
    } else if 0x21 <= n && n <= 0x7E {
        (code_char(n - 0x21 + 0xFF01, c), 1)
    } else {
        (c, 1)
    }
}

/// Half-width katakana `c`, with a sound mark in `next` or not, to full width. The
/// flag says whether the mark was absorbed.
pub fn half_kata_to_full(c: char, next: Option<char>) -> (r: Option<(char, bool)>)
    ensures
        r == full_kana_with(c, next),
{
    let (dakuten, handaku) = match next {
        Some(m) => (m == DAKUTEN, m == HANDAKUTEN),
        None => (false, false),
    };
    let r = match c {
        'ｦ' => ('ヲ', false),
        'ｧ' => ('ァ', false),
        'ｨ' => ('ィ', false),
        'ｩ' => ('ゥ', false),
        'ｪ' => ('ェ', false),
        'ｫ' => ('ォ', false),
        'ｬ' => ('ャ', false),
        'ｭ' => ('ュ', false),
        'ｮ' => ('ョ', false),
        'ｯ' => ('ッ', false),
        'ｰ' => ('ー', false),
        'ｱ' => ('ア', false),
        'ｲ' => ('イ', false),
        'ｳ' => if dakuten { ('ヴ', true) } else { ('ウ', false) },
        'ｴ' => ('エ', false),
        'ｵ' => ('オ', false),
        'ｶ' => if dakuten { ('ガ', true) } else { ('カ', false) },
        'ｷ' => if dakuten { ('ギ', true) } else { ('キ', false) },
        'ｸ' => if dakuten { ('グ', true) } else { ('ク', false) },
        'ｹ' => if dakuten { ('ゲ', true) } else { ('ケ', false) },
        'ｺ' => if dakuten { ('ゴ', true) } else { ('コ', false) },
        'ｻ' => if dakuten { ('ザ', true) } else { ('サ', false) },
        'ｼ' => if dakuten { ('ジ', true) } else { ('シ', false) },
        'ｽ' => if dakuten { ('ズ', true) } else { ('ス', false) },
        'ｾ' => if dakuten { ('ゼ', true) } else { ('セ', false) },
        'ｿ' => if dakuten { ('ゾ', true) } else { ('ソ', false) },
        'ﾀ' => if dakuten { ('ダ', true) } else { ('タ', false) },
        'ﾁ' => if dakuten { ('ヂ', true) } else { ('チ', false) },
        'ﾂ' => if dakuten { ('ヅ', true) } else { ('ツ', false) },
        'ﾃ' => if dakuten { ('デ', true) } else { ('テ', false) },
        'ﾄ' => if dakuten { ('ド', true) } else { ('ト', false) },
        'ﾅ' => ('ナ', false),
        'ﾆ' => ('ニ', false),
        'ﾇ' => ('ヌ', false),
        'ﾈ' => ('ネ', false),
        'ﾉ' => ('ノ', false),
        'ﾊ' => if dakuten { ('バ', true) } else if handaku { ('パ', true) } else { ('ハ', false) },
        'ﾋ' => if dakuten { ('ビ', true) } else if handaku { ('ピ', true) } else { ('ヒ', false) },
        'ﾌ' => if dakuten { ('ブ', true) } else if handaku { ('プ', true) } else { ('フ', false) },
        'ﾍ' => if dakuten { ('ベ', true) } else if handaku { ('ペ', true) } else { ('ヘ', false) },
        'ﾎ' => if dakuten { ('ボ', true) } else if handaku { ('ポ', true) } else { ('ホ', false) },
        'ﾏ' => ('マ', false),
        'ﾐ' => ('ミ', false),
        'ﾑ' => ('ム', false),
        'ﾒ' => ('メ', false),
        'ﾓ' => ('モ', false),
        'ﾔ' => ('ヤ', false),
        'ﾕ' => ('ユ', false),
        'ﾖ' => ('ヨ', false),
        'ﾗ' => ('ラ', false),
        'ﾘ' => ('リ', false),
        'ﾙ' => ('ル', false),
        'ﾚ' => ('レ', false),
        'ﾛ' => ('ロ', false),
        'ﾜ' => ('ワ', false),
        'ﾝ' => ('ン', false),
        '｡' => ('。', false),
        '｢' => ('「', false),
        '｣' => ('」', false),
        '､' => ('、', false),
        '･' => ('・', false),
        _ => {
            return None;
        },
    };
    Some(r)
}

/// Makes printable ASCII full-width (F9).
pub fn to_full_latin(s: &str) -> (r: String)
    ensures
        r@ == full_latin_text(s@),
{
    let mut result = String::new();
    for c in it: s.chars()
        invariant
            it.seq() == s@,
            result@ == full_latin_text(s@.take(it.index() as int)),
    {
        let n: u32 = c as u32;
        if 0x21 <= n && n <= 0x7E {
            result.push(code_char(n - 0x21 + 0xFF01, c));
        } else {
            result.push(c);
        }
    }
    assert(s@.take(s@.len() as int) == s@);
    result
}

/// Makes full-width forms of printable ASCII half-width (F10).
pub fn to_half_latin(s: &str) -> (r: String)
    ensures
        r@ == half_latin_text(s@),
{
    let mut result = String::new();
    for c in it: s.chars()
        invariant
            it.seq() == s@,
            result@ == half_latin_text(s@.take(it.index() as int)),
    {
        let n: u32 = c as u32;
        if 0xFF01 <= n && n <= 0xFF5E {
            result.push(code_char(n - 0xFF01 + 0x21, c));
        } else {
            result.push(c);
        }
    }
    assert(s@.take(s@.len() as int) == s@);
    result
}

/// One full-width katakana as a half-width letter and a sound mark where it has one.
pub fn kata_to_half(c: char) -> (r: (char, Option<char>))
    ensures
        r == half_kana_parts(c),
{
    match c {
        'ヲ' => ('ｦ', None),
        'ァ' => ('ｧ', None),
        'ィ' => ('ｨ', None),
        'ゥ' => ('ｩ', None),
        'ェ' => ('ｪ', None),
        'ォ' => ('ｫ', None),
        'ャ' => ('ｬ', None),
        'ュ' => ('ｭ', None),
        'ョ' => ('ｮ', None),
        'ッ' => ('ｯ', None),
        'ー' => ('ｰ', None),
        'ア' => ('ｱ', None),
        'イ' => ('ｲ', None),
        'ウ' => ('ｳ', None),
        'ヴ' => ('ｳ', Some(DAKUTEN)),
        'エ' => ('ｴ', None),
        'オ' => ('ｵ', None),
        'カ' => ('ｶ', None),
        'ガ' => ('ｶ', Some(DAKUTEN)),
        'キ' => ('ｷ', None),
        'ギ' => ('ｷ', Some(DAKUTEN)),
        'ク' => ('ｸ', None),
        'グ' => ('ｸ', Some(DAKUTEN)),
        'ケ' => ('ｹ', None),
        'ゲ' => ('ｹ', Some(DAKUTEN)),
        'コ' => ('ｺ', None),
        'ゴ' => ('ｺ', Some(DAKUTEN)),
        'サ' => ('ｻ', None),
        'ザ' => ('ｻ', Some(DAKUTEN)),
        'シ' => ('ｼ', None),
        'ジ' => ('ｼ', Some(DAKUTEN)),
        'ス' => ('ｽ', None),
        'ズ' => ('ｽ', Some(DAKUTEN)),
        'セ' => ('ｾ', None),
        'ゼ' => ('ｾ', Some(DAKUTEN)),
        'ソ' => ('ｿ', None),
        'ゾ' => ('ｿ', Some(DAKUTEN)),
        'タ' => ('ﾀ', None),
        'ダ' => ('ﾀ', Some(DAKUTEN)),
        'チ' => ('ﾁ', None),
        'ヂ' => ('ﾁ', Some(DAKUTEN)),
        'ツ' => ('ﾂ', None),
        'ヅ' => ('ﾂ', Some(DAKUTEN)),
        'テ' => ('ﾃ', None),
        'デ' => ('ﾃ', Some(DAKUTEN)),
        'ト' => ('ﾄ', None),
        'ド' => ('ﾄ', Some(DAKUTEN)),
        'ナ' => ('ﾅ', None),
        'ニ' => ('ﾆ', None),
        'ヌ' => ('ﾇ', None),
        'ネ' => ('ﾈ', None),
        'ノ' => ('ﾉ', None),
        'ハ' => ('ﾊ', None),
        'バ' => ('ﾊ', Some(DAKUTEN)),
        'パ' => ('ﾊ', Some(HANDAKUTEN)),
        'ヒ' => ('ﾋ', None),
        'ビ' => ('ﾋ', Some(DAKUTEN)),
        'ピ' => ('ﾋ', Some(HANDAKUTEN)),
        'フ' => ('ﾌ', None),
        'ブ' => ('ﾌ', Some(DAKUTEN)),
        'プ' => ('ﾌ', Some(HANDAKUTEN)),
        'ヘ' => ('ﾍ', None),
        'ベ' => ('ﾍ', Some(DAKUTEN)),
        'ペ' => ('ﾍ', Some(HANDAKUTEN)),
        'ホ' => ('ﾎ', None),
        'ボ' => ('ﾎ', Some(DAKUTEN)),
        'ポ' => ('ﾎ', Some(HANDAKUTEN)),
        'マ' => ('ﾏ', None),
        'ミ' => ('ﾐ', None),
        'ム' => ('ﾑ', None),
        'メ' => ('ﾒ', None),
        'モ' => ('ﾓ', None),
        'ヤ' => ('ﾔ', None),
        'ユ' => ('ﾕ', None),
        'ヨ' => ('ﾖ', None),
        'ラ' => ('ﾗ', None),
        'リ' => ('ﾘ', None),
        'ル' => ('ﾙ', None),
        'レ' => ('ﾚ', None),
        'ロ' => ('ﾛ', None),
        'ワ' => ('ﾜ', None),
        'ン' => ('ﾝ', None),
        '。' => ('｡', None),
        '「' => ('｢', None),
        '」' => ('｣', None),
        '、' => ('､', None),
        '・' => ('･', None),
        'ヮ' => ('ﾜ', None),
        _ => (c, None),
    }
}

/// Converts to half-width katakana (F8). Voiced and semi-voiced kana become a
/// letter and a mark; full-width forms of ASCII become half-width too.
pub fn to_half_katakana(s: &str) -> (r: String)
    ensures
        r@ == half_katakana_text(s@),
{
    let mut result = String::new();
    for c in it: s.chars()
        invariant
            it.seq() == s@,
            result@ == half_katakana_text(s@.take(it.index() as int)),
    {
        proof {
            let n = it.index() as int;
            assert(s@.take(n + 1).drop_last() == s@.take(n));
        }
        let n: u32 = c as u32;
        if 0xFF01 <= n && n <= 0xFF5E {
            result.push(code_char(n - 0xFF01 + 0x21, c));
        } else {
            let kata = if 0x3041 <= n && n <= 0x3096 {
                code_char(n + 0x60, c)
            } else {
                c
            };
            let (base, combining) = kata_to_half(kata);
            result.push(base);
            if let Some(d) = combining {
                result.push(d);
            }
        }
    }
    assert(s@.take(s@.len() as int) == s@);
    result
}

/// A character that the kana keys work on.
pub open spec fn is_kana(c: char) -> bool {
    is_hiragana(c) || 0x30A1 <= c as u32 <= 0x30FC || is_half_kana(c)
}

/// Whether a text holds kana.
pub open spec fn holds_kana(s: Seq<char>) -> bool {
    exists|i: int| 0 <= i < s.len() && is_kana(#[trigger] s[i])
}

/// A capital letter of either width.
pub open spec fn is_capital(c: char) -> bool {
    0x41 <= c as u32 <= 0x5A || 0xFF21 <= c as u32 <= 0xFF3A
}

/// A small letter of either width.
pub open spec fn is_small(c: char) -> bool {
    0x61 <= c as u32 <= 0x7A || 0xFF41 <= c as u32 <= 0xFF5A
}

/// The small form of a letter of either width.
pub open spec fn small_char(c: char) -> char {
    if is_capital(c) {
        (c as u32 + 0x20) as char
    } else {
        c
    }
}

/// The capital form of a letter of either width.
pub open spec fn capital_char(c: char) -> char {
    if is_small(c) {
        (c as u32 - 0x20) as char
    } else {
        c
    }
}

/// A text in small letters.
pub open spec fn small_text(s: Seq<char>) -> Seq<char> {
    s.map_values(|c: char| small_char(c))
}

/// A text in capital letters.
pub open spec fn capital_text(s: Seq<char>) -> Seq<char> {
    s.map_values(|c: char| capital_char(c))
}

/// A text in small letters with a capital at the front.
pub open spec fn titled_text(s: Seq<char>) -> Seq<char> {
    s.map(|i: int, c: char| if i == 0 { capital_char(c) } else { small_char(c) })
}

/// The step of a letter key from one way of writing to the next: small, capital,
/// capital at the front, small again. Ways that do not differ count once.
pub open spec fn next_style(
    s: Seq<char>,
    small: Seq<char>,
    capital: Seq<char>,
    titled: Seq<char>,
) -> Seq<char> {
    if s == small && capital != small {
        capital
    } else if s == capital && titled != capital {
        titled
    } else {
        small
    }
}

/// What is full-width is written in the next way; what is not becomes so and keeps its letters.
pub open spec fn next_full_latin(s: Seq<char>) -> Seq<char> {
    if full_latin_text(s) != s {
        full_latin_text(s)
    } else {
        next_style(
            s,
            full_latin_text(small_text(s)),
            full_latin_text(capital_text(s)),
            full_latin_text(titled_text(s)),
        )
    }
}

/// What is half-width is written in the next way; what is not becomes so and keeps its letters.
pub open spec fn next_half_latin(s: Seq<char>) -> Seq<char> {
    if half_latin_text(s) != s {
        half_latin_text(s)
    } else {
        next_style(
            s,
            half_latin_text(small_text(s)),
            half_latin_text(capital_text(s)),
            half_latin_text(titled_text(s)),
        )
    }
}

/// Whether `s` holds kana.
pub fn has_kana(s: &str) -> (r: bool)
    ensures
        r == holds_kana(s@),
{
    let chars = chars_of(s);
    let mut i: usize = 0;
    while i < chars.len()
        invariant
            i <= chars@.len(),
            chars@ == s@,
            forall|j: int| 0 <= j < i ==> !is_kana(#[trigger] s@[j]),
        decreases chars.len() - i,
    {
        let n: u32 = chars[i] as u32;
        if (0x3041 <= n && n <= 0x3096) || (0x30A1 <= n && n <= 0x30FC) || (0xFF65 <= n && n
            <= 0xFF9F) {
            assert(is_kana(s@[i as int]));
            return true;
        }
        i += 1;
    }
    false
}

fn to_small(c: char) -> (r: char)
    ensures
        r == small_char(c),
{
    let n: u32 = c as u32;
    if (0x41 <= n && n <= 0x5A) || (0xFF21 <= n && n <= 0xFF3A) {
        code_char(n + 0x20, c)
    } else {
        c
    }
}

fn to_capital(c: char) -> (r: char)
    ensures
        r == capital_char(c),
{
    let n: u32 = c as u32;
    if (0x61 <= n && n <= 0x7A) || (0xFF41 <= n && n <= 0xFF5A) {
        code_char(n - 0x20, c)
    } else {
        c
    }
}

/// `s` in small letters, in capitals, and with a capital at the front.
fn styles(s: &str) -> (r: (String, String, String))
    ensures
        r.0@ == small_text(s@),
        r.1@ == capital_text(s@),
        r.2@ == titled_text(s@),
{
    let chars = chars_of(s);
    let mut small = String::new();
    let mut capital = String::new();
    let mut titled = String::new();
    let mut i: usize = 0;
    while i < chars.len()
        invariant
            i <= chars@.len(),
            chars@ == s@,
            small@ == small_text(s@).take(i as int),
            capital@ == capital_text(s@).take(i as int),
            titled@ == titled_text(s@).take(i as int),
        decreases chars.len() - i,
    {
        let c = chars[i];
        small.push(to_small(c));
        capital.push(to_capital(c));
        if i == 0 {
            titled.push(to_capital(c));
        } else {
            titled.push(to_small(c));
        }
        i += 1;
    }
    assert(small_text(s@).take(i as int) == small_text(s@));
    assert(capital_text(s@).take(i as int) == capital_text(s@));
    assert(titled_text(s@).take(i as int) == titled_text(s@));
    (small, capital, titled)
}

fn pick_style(s: &str, small: String, capital: String, titled: String) -> (r: String)
    ensures
        r@ == next_style(s@, small@, capital@, titled@),
{
    if same(s, small.as_str()) && capital != small {
        capital
    } else if same(s, capital.as_str()) && titled != capital {
        titled
    } else {
        small
    }
}

/// `s` in full-width letters, or the next way of writing it where it is so already (F9 pressed again).
pub fn cycle_full_latin(s: &str) -> (r: String)
    ensures
        r@ == next_full_latin(s@),
{
    let sized = to_full_latin(s);
    if !same(s, sized.as_str()) {
        return sized;
    }
    let (small, capital, titled) = styles(s);
    pick_style(
        s,
        to_full_latin(small.as_str()),
        to_full_latin(capital.as_str()),
        to_full_latin(titled.as_str()),
    )
}

/// `s` in half-width letters, or the next way of writing it where it is so already (F10 pressed again).
pub fn cycle_half_latin(s: &str) -> (r: String)
    ensures
        r@ == next_half_latin(s@),
{
    let sized = to_half_latin(s);
    if !same(s, sized.as_str()) {
        return sized;
    }
    let (small, capital, titled) = styles(s);
    pick_style(
        s,
        to_half_latin(small.as_str()),
        to_half_latin(capital.as_str()),
        to_half_latin(titled.as_str()),
    )
}

/// Typed letters in small full-width form.
pub fn romaji_to_fullwidth_latin(romaji: &str) -> (r: String)
    ensures
        r@ == full_latin_text(small_text(romaji@)),
{
    let (small, _, _) = styles(romaji);
    to_full_latin(small.as_str())
}

/// Typed letters in small half-width form.
pub fn romaji_to_halfwidth_latin(romaji: &str) -> (r: String)
    ensures
        r@ == half_latin_text(small_text(romaji@)),
{
    let (small, _, _) = styles(romaji);
    to_half_latin(small.as_str())
}

proof fn lemma_widen_step(s: Seq<char>)
    requires
        s.len() > 0,
    ensures
        1 <= widen_first(s).1 <= s.len(),
        widen(s) == seq![widen_first(s).0] + widen(s.skip(widen_first(s).1)),
{
}

/// A character that widening leaves alone wherever it stands.
spec fn is_wide(c: char) -> bool {
    !is_half_latin(c) && (!is_half_kana(c) || full_kana(c) is None)
}

proof fn lemma_widen_wide(s: Seq<char>)
    requires
        forall|i: int| 0 <= i < s.len() ==> is_wide(#[trigger] s[i]),
    ensures
        widen(s) == s,
    decreases s.len(),
{
    if s.len() > 0 {
        assert(is_wide(s[0]));
        assert forall|i: int| 0 <= i < s.skip(1).len() implies is_wide(#[trigger] s.skip(1)[i]) by {
            assert(is_wide(s[i + 1]));
        }
        lemma_widen_wide(s.skip(1));
        assert(seq![s[0]] + s.skip(1) == s);
    }
}

proof fn lemma_widen_is_wide(s: Seq<char>)
    ensures
        forall|i: int| 0 <= i < widen(s).len() ==> is_wide(#[trigger] widen(s)[i]),
    decreases s.len(),
{
    if s.len() > 0 {
        let (k, used) = widen_first(s);
        let rest = widen(s.skip(used));
        lemma_widen_is_wide(s.skip(used));
        assert(is_wide(k));
        assert(widen(s) == seq![k] + rest);
        assert forall|i: int| 0 <= i < widen(s).len() implies is_wide(#[trigger] widen(s)[i]) by {
            if i > 0 {
                assert(is_wide(rest[i - 1]));
            }
        }
    }
}

/// The hiragana key leaves hiragana alone.
pub proof fn lemma_hiragana_stays(s: Seq<char>)
    requires
        forall|i: int| 0 <= i < s.len() ==> is_hiragana(#[trigger] s[i]),
    ensures
        hiragana_text(s) == s,
{
    assert forall|i: int| 0 <= i < s.len() implies is_wide(#[trigger] s[i]) by {
        assert(is_hiragana(s[i]));
    }
    lemma_widen_wide(s);
    assert forall|i: int| 0 <= i < s.len() implies hiragana_text(s)[i] == s[i] by {
        assert(is_hiragana(s[i]));
    }
    assert(hiragana_text(s) =~= s);
}

/// The kana keys do not depend on each other's work: converting to hiragana first
/// changes nothing about the katakana that comes out.
pub proof fn katakana_after_hiragana(s: Seq<char>)
    ensures
        katakana_text(hiragana_text(s)) == katakana_text(s),
{
    lemma_widen_is_wide(s);
    let h = hiragana_text(s);
    assert forall|i: int| 0 <= i < h.len() implies is_wide(#[trigger] h[i]) by {
        assert(is_wide(widen(s)[i]));
    }
    lemma_widen_wide(h);
}

/// Converting to katakana first changes nothing about the hiragana that comes out.
pub proof fn hiragana_after_katakana(s: Seq<char>)
    ensures
        hiragana_text(katakana_text(s)) == hiragana_text(s),
{
    lemma_widen_is_wide(s);
    let k = katakana_text(s);
    assert forall|i: int| 0 <= i < k.len() implies is_wide(#[trigger] k[i]) by {
        assert(is_wide(widen(s)[i]));
    }
    lemma_widen_wide(k);
}

/// Pressing the same kana key again changes nothing.
pub proof fn kana_keys_are_idempotent(s: Seq<char>)
    ensures
        katakana_text(katakana_text(s)) == katakana_text(s),
        hiragana_text(hiragana_text(s)) == hiragana_text(s),
{
    lemma_widen_is_wide(s);
    let k = katakana_text(s);
    let h = hiragana_text(s);
    assert forall|i: int| 0 <= i < k.len() implies is_wide(#[trigger] k[i]) by {
        assert(is_wide(widen(s)[i]));
    }
    assert forall|i: int| 0 <= i < h.len() implies is_wide(#[trigger] h[i]) by {
        assert(is_wide(widen(s)[i]));
    }
    lemma_widen_wide(k);
    lemma_widen_wide(h);
}

proof fn lemma_latin_char(c: char)
    ensures
        !is_full_latin(c) ==> half_latin_char(full_latin_char(c)) == c,
        !is_half_latin(c) ==> full_latin_char(half_latin_char(c)) == c,
{
}

/// Widening latin text and narrowing it again gives back a text without full-width
/// forms, and narrowing then widening one without printable ASCII.
pub proof fn latin_width_round_trip(s: Seq<char>)
    ensures
        (forall|i: int| 0 <= i < s.len() ==> !is_full_latin(#[trigger] s[i])) ==> half_latin_text(
            full_latin_text(s),
        ) == s,
        (forall|i: int| 0 <= i < s.len() ==> !is_half_latin(#[trigger] s[i])) ==> full_latin_text(
            half_latin_text(s),
        ) == s,
{
    if forall|i: int| 0 <= i < s.len() ==> !is_full_latin(#[trigger] s[i]) {
        assert forall|i: int| 0 <= i < s.len() implies half_latin_text(full_latin_text(s))[i]
            == s[i] by {
            assert(!is_full_latin(s[i]));
            lemma_latin_char(s[i]);
        }
        assert(half_latin_text(full_latin_text(s)) =~= s);
    }
    if forall|i: int| 0 <= i < s.len() ==> !is_half_latin(#[trigger] s[i]) {
        assert forall|i: int| 0 <= i < s.len() implies full_latin_text(half_latin_text(s))[i]
            == s[i] by {
            assert(!is_half_latin(s[i]));
            lemma_latin_char(s[i]);
        }
        assert(full_latin_text(half_latin_text(s)) =~= s);
    }
}

/// A full-width katakana text character that has a half-width spelling of its own.
/// `ヮ` has none.
pub open spec fn has_own_half_form(c: char) -> bool {
    is_katakana(c) && c != 'ヮ' || c == 'ー' || c == '・'
}

proof fn lemma_half_push_left(s: Seq<char>)
    requires
        s.len() > 0,
    ensures
        half_katakana_text(s) == half_katakana_char(s[0]) + half_katakana_text(s.skip(1)),
    decreases s.len(),
{
    if s.len() == 1 {
        assert(s.drop_last() == Seq::<char>::empty());
        assert(s.skip(1) == Seq::<char>::empty());
        assert(half_katakana_text(s.skip(1)) == Seq::<char>::empty());
        assert(half_katakana_text(s.drop_last()) == Seq::<char>::empty());
        assert(s.last() == s[0]);
    } else {
        lemma_half_push_left(s.drop_last());
        assert(s.drop_last().skip(1) == s.skip(1).drop_last());
        assert(s.skip(1).last() == s.last());
        assert(s.drop_last()[0] == s[0]);
        assert(half_katakana_text(s.skip(1)) == half_katakana_text(s.skip(1).drop_last())
            + half_katakana_char(s.last()));
    }
}

proof fn lemma_half_first(s: Seq<char>)
    requires
        s.len() > 0,
        has_own_half_form(s[0]),
    ensures
        half_katakana_text(s).len() > 0,
        half_katakana_text(s)[0] == half_katakana_char(s[0])[0],
        half_katakana_text(s)[0] != DAKUTEN,
        half_katakana_text(s)[0] != HANDAKUTEN,
{
    lemma_half_push_left(s);
}

/// Half-width katakana widen back to the katakana that they came from.
pub proof fn half_katakana_round_trip(s: Seq<char>)
    requires
        forall|i: int| 0 <= i < s.len() ==> has_own_half_form(#[trigger] s[i]),
    ensures
        katakana_text(half_katakana_text(s)) == s,
    decreases s.len(),
{
    if s.len() > 0 {
        let c = s[0];
        let rest = s.skip(1);
        assert(has_own_half_form(s[0]));
        assert forall|i: int| 0 <= i < rest.len() implies has_own_half_form(#[trigger] rest[i]) by {
            assert(has_own_half_form(s[i + 1]));
        }
        half_katakana_round_trip(rest);
        lemma_half_push_left(s);
        let h = half_katakana_text(s);
        let hc = half_katakana_char(c);
        let hr = half_katakana_text(rest);
        if rest.len() > 0 {
            lemma_half_first(rest);
        } else {
            assert(hr == Seq::<char>::empty());
        }
        assert(h == hc + hr);
        assert(h.skip(hc.len() as int) == hr);
        assert(second(h) == if hc.len() > 1 {
            Some(hc[1])
        } else if hr.len() > 0 {
            Some(hr[0])
        } else {
            None
        });
        lemma_half_char(c, second(h));
        assert(widen_first(h) == (c, hc.len() as int));
        assert(widen(h) == seq![c] + widen(hr));
        assert(katakana_text(h) == seq![katakana_char(c)] + katakana_text(hr));
        assert(katakana_char(c) == c);
        assert(seq![c] + rest == s);
    } else {
        assert(half_katakana_text(s) == Seq::<char>::empty());
        assert(katakana_text(half_katakana_text(s)) == s);
    }
}

proof fn lemma_half_char(c: char, next: Option<char>)
    requires
        has_own_half_form(c),
        half_katakana_char(c).len() == 1 ==> next != Some(DAKUTEN) && next != Some(HANDAKUTEN),
        half_katakana_char(c).len() == 2 ==> next == Some(half_katakana_char(c)[1]),
    ensures
        1 <= half_katakana_char(c).len() <= 2,
        ({
            let h = half_katakana_char(c);
            if is_half_kana(h[0]) {
                full_kana_with(h[0], next) == Some((c, h.len() == 2))
            } else {
                h == seq![c] && !is_half_latin(c)
            }
        }),
{
}

proof fn lemma_full_stays(s: Seq<char>)
    ensures
        full_latin_text(full_latin_text(s)) == full_latin_text(s),
{
}

proof fn lemma_full_styles(s: Seq<char>)
    ensures
        full_latin_text(small_text(full_latin_text(small_text(s)))) == full_latin_text(
            small_text(s),
        ),
        full_latin_text(capital_text(full_latin_text(small_text(s)))) == full_latin_text(
            capital_text(s),
        ),
        full_latin_text(titled_text(full_latin_text(small_text(s)))) == full_latin_text(
            titled_text(s),
        ),
        full_latin_text(small_text(full_latin_text(capital_text(s)))) == full_latin_text(
            small_text(s),
        ),
        full_latin_text(capital_text(full_latin_text(capital_text(s)))) == full_latin_text(
            capital_text(s),
        ),
        full_latin_text(titled_text(full_latin_text(capital_text(s)))) == full_latin_text(
            titled_text(s),
        ),
        full_latin_text(small_text(full_latin_text(titled_text(s)))) == full_latin_text(
            small_text(s),
        ),
        full_latin_text(capital_text(full_latin_text(titled_text(s)))) == full_latin_text(
            capital_text(s),
        ),
        full_latin_text(titled_text(full_latin_text(titled_text(s)))) == full_latin_text(
            titled_text(s),
        ),
{
}

/// Pressing F9 again walks through small letters, capitals and a capital at the front,
/// and comes back to small letters.
pub proof fn full_latin_key_cycles(s: Seq<char>)
    requires
        full_latin_text(small_text(s)) != full_latin_text(capital_text(s)),
        full_latin_text(capital_text(s)) != full_latin_text(titled_text(s)),
        full_latin_text(titled_text(s)) != full_latin_text(small_text(s)),
    ensures
        next_full_latin(full_latin_text(small_text(s))) == full_latin_text(capital_text(s)),
        next_full_latin(full_latin_text(capital_text(s))) == full_latin_text(titled_text(s)),
        next_full_latin(full_latin_text(titled_text(s))) == full_latin_text(small_text(s)),
{
    lemma_full_styles(s);
    lemma_full_stays(small_text(s));
    lemma_full_stays(capital_text(s));
    lemma_full_stays(titled_text(s));
}

proof fn lemma_half_stays(s: Seq<char>)
    ensures
        half_latin_text(half_latin_text(s)) == half_latin_text(s),
{
}

proof fn lemma_half_styles(s: Seq<char>)
    ensures
        half_latin_text(small_text(half_latin_text(small_text(s)))) == half_latin_text(
            small_text(s),
        ),
        half_latin_text(capital_text(half_latin_text(small_text(s)))) == half_latin_text(
            capital_text(s),
        ),
        half_latin_text(titled_text(half_latin_text(small_text(s)))) == half_latin_text(
            titled_text(s),
        ),
        half_latin_text(small_text(half_latin_text(capital_text(s)))) == half_latin_text(
            small_text(s),
        ),
        half_latin_text(capital_text(half_latin_text(capital_text(s)))) == half_latin_text(
            capital_text(s),
        ),
        half_latin_text(titled_text(half_latin_text(capital_text(s)))) == half_latin_text(
            titled_text(s),
        ),
        half_latin_text(small_text(half_latin_text(titled_text(s)))) == half_latin_text(
            small_text(s),
        ),
        half_latin_text(capital_text(half_latin_text(titled_text(s)))) == half_latin_text(
            capital_text(s),
        ),
        half_latin_text(titled_text(half_latin_text(titled_text(s)))) == half_latin_text(
            titled_text(s),
        ),
{
}

/// Pressing F10 again walks through small letters, capitals and a capital at the
/// front, and comes back to small letters.
pub proof fn half_latin_key_cycles(s: Seq<char>)
    requires
        half_latin_text(small_text(s)) != half_latin_text(capital_text(s)),
        half_latin_text(capital_text(s)) != half_latin_text(titled_text(s)),
        half_latin_text(titled_text(s)) != half_latin_text(small_text(s)),
    ensures
        next_half_latin(half_latin_text(small_text(s))) == half_latin_text(capital_text(s)),
        next_half_latin(half_latin_text(capital_text(s))) == half_latin_text(titled_text(s)),
        next_half_latin(half_latin_text(titled_text(s))) == half_latin_text(small_text(s)),
{
    lemma_half_styles(s);
    lemma_half_stays(small_text(s));
    lemma_half_stays(capital_text(s));
    lemma_half_stays(titled_text(s));
}

/// Going from one width to the other and back keeps small and capital letters as they are,
/// where the text has letters of one width alone.
pub proof fn width_keys_keep_letters(s: Seq<char>)
    requires
        forall|i: int| 0 <= i < s.len() ==> !is_full_latin(#[trigger] s[i]),
        full_latin_text(s) != s,
    ensures
        next_full_latin(s) == full_latin_text(s),
        next_half_latin(next_full_latin(s)) == s,
{
    latin_width_round_trip(s);
}

proof fn lemma_kana_codes(c: char)
    ensures
        is_hiragana(c) ==> katakana_char(c) as u32 == c as u32 + 0x60,
        !is_hiragana(c) ==> katakana_char(c) == c,
        is_katakana(c) ==> hiragana_char(c) as u32 == c as u32 - 0x60,
        !is_katakana(c) ==> hiragana_char(c) == c,
        is_half_latin(c) ==> full_latin_char(c) as u32 == c as u32 + 0xFEE0,
        !is_half_latin(c) ==> full_latin_char(c) == c,
        is_full_latin(c) ==> half_latin_char(c) as u32 == c as u32 - 0xFEE0,
        !is_full_latin(c) ==> half_latin_char(c) == c,
        is_capital(c) ==> small_char(c) as u32 == c as u32 + 0x20,
        is_small(c) ==> capital_char(c) as u32 == c as u32 - 0x20,
{
}

/// The kana keys exchange hiragana and katakana letter by letter, and leave other full-width
/// characters alone.
pub proof fn kana_keys_exchange_letters(s: Seq<char>, i: int)
    requires
        forall|k: int|
            0 <= k < s.len() ==> !(0x21 <= (#[trigger] s[k]) as u32 <= 0x7E) && !(0xFF61
                <= s[k] as u32 <= 0xFF9F),
        0 <= i < s.len(),
    ensures
        katakana_text(s).len() == s.len(),
        hiragana_text(s).len() == s.len(),
        0x3041 <= s[i] as u32 <= 0x3096 ==> katakana_text(s)[i] as u32 == s[i] as u32 + 0x60
            && hiragana_text(s)[i] == s[i],
        0x30A1 <= s[i] as u32 <= 0x30F6 ==> hiragana_text(s)[i] as u32 == s[i] as u32 - 0x60
            && katakana_text(s)[i] == s[i],
        !(0x3041 <= s[i] as u32 <= 0x3096) && !(0x30A1 <= s[i] as u32 <= 0x30F6)
            ==> katakana_text(s)[i] == s[i] && hiragana_text(s)[i] == s[i],
{
    assert forall|k: int| 0 <= k < s.len() implies is_wide(#[trigger] s[k]) by {}
    lemma_widen_wide(s);
    lemma_kana_codes(s[i]);
}

proof fn lemma_widen_latin(s: Seq<char>)
    requires
        forall|k: int| 0 <= k < s.len() ==> 0x21 <= (#[trigger] s[k]) as u32 <= 0x7E,
    ensures
        widen(s) == full_latin_text(s),
    decreases s.len(),
{
    if s.len() > 0 {
        let rest = s.skip(1);
        assert forall|k: int| 0 <= k < rest.len() implies 0x21 <= (#[trigger] rest[k]) as u32
            <= 0x7E by {
            assert(rest[k] == s[k + 1]);
        }
        lemma_widen_latin(rest);
        assert(s[0] as u32 <= 0x7E);
        assert(widen(s) =~= full_latin_text(s));
    } else {
        assert(widen(s) =~= full_latin_text(s));
    }
}

/// The kana keys write typed letters in their full-width form.
pub proof fn kana_keys_widen_letters(s: Seq<char>, i: int)
    requires
        forall|k: int| 0 <= k < s.len() ==> 0x21 <= (#[trigger] s[k]) as u32 <= 0x7E,
        0 <= i < s.len(),
    ensures
        katakana_text(s).len() == s.len(),
        katakana_text(s)[i] as u32 == s[i] as u32 + 0xFEE0,
        hiragana_text(s) == katakana_text(s),
{
    lemma_widen_latin(s);
    assert forall|k: int| 0 <= k < s.len() implies katakana_char(full_latin_char(s[k]))
        == full_latin_char(s[k]) && hiragana_char(full_latin_char(s[k])) == full_latin_char(
        s[k],
    ) && full_latin_char(#[trigger] s[k]) as u32 == s[k] as u32 + 0xFEE0 by {
        lemma_kana_codes(s[k]);
        lemma_kana_codes(full_latin_char(s[k]));
    }
    assert(hiragana_text(s) =~= katakana_text(s));
}

/// The letter keys change the width of printable ASCII and nothing else, and the ways of
/// writing differ in the case of letters alone.
pub proof fn letter_keys_change_width_and_case(s: Seq<char>, i: int)
    requires
        0 <= i < s.len(),
    ensures
        full_latin_text(s).len() == s.len(),
        half_latin_text(s).len() == s.len(),
        small_text(s).len() == s.len(),
        capital_text(s).len() == s.len(),
        titled_text(s).len() == s.len(),
        full_latin_text(s)[i] as u32 == (if 0x21 <= s[i] as u32 <= 0x7E {
            s[i] as u32 + 0xFEE0
        } else {
            s[i] as int
        }),
        half_latin_text(s)[i] as u32 == (if 0xFF01 <= s[i] as u32 <= 0xFF5E {
            s[i] as u32 - 0xFEE0
        } else {
            s[i] as int
        }),
        small_text(s)[i] as u32 == (if 'A' <= s[i] <= 'Z' || 'Ａ' <= s[i] <= 'Ｚ' {
            s[i] as u32 + 0x20
        } else {
            s[i] as int
        }),
        capital_text(s)[i] as u32 == (if 'a' <= s[i] <= 'z' || 'ａ' <= s[i] <= 'ｚ' {
            s[i] as u32 - 0x20
        } else {
            s[i] as int
        }),
        titled_text(s)[i] == (if i == 0 {
            capital_text(s)[i]
        } else {
            small_text(s)[i]
        }),
{
    lemma_kana_codes(s[i]);
}

/// A katakana letter that is voiced or semi-voiced.
pub open spec fn is_voiced(c: char) -> bool {
    c == 'ヴ' || ('ガ' <= c <= 'ヂ' && (c as u32 - 'カ' as u32) % 2 == 1) || c == 'ヅ' || c == 'デ'
        || c == 'ド' || ('ハ' <= c <= 'ポ' && (c as u32 - 'ハ' as u32) % 3 != 0)
}

proof fn lemma_half_letter(c: char)
    requires
        'ァ' <= c <= 'ヴ',
        c != 'ヰ',
        c != 'ヱ',
    ensures
        ({
            let h = half_katakana_char(c);
            &&& h.len() == if is_voiced(c) {
                2int
            } else {
                1
            }
            &&& 'ｦ' <= h[0] <= 'ﾝ'
            &&& is_voiced(c) && (c == 'ヴ' || c < 'ハ' || (c as u32 - 'ハ' as u32) % 3 == 1)
                ==> h[1] == '\u{FF9E}'
            &&& is_voiced(c) && 'ハ' <= c <= 'ポ' && (c as u32 - 'ハ' as u32) % 3 == 2 ==> h[1]
                == '\u{FF9F}'
        }),
{
}

/// The half-width katakana key writes every katakana letter in half width, with a sound mark
/// of its own where it is voiced or semi-voiced, and hiragana as the katakana of the same
/// sound.
pub proof fn half_katakana_is_half_width(c: char)
    requires
        'ァ' <= c <= 'ヴ',
        c != 'ヰ',
        c != 'ヱ',
    ensures
        'ｦ' <= half_katakana_char(c)[0] <= 'ﾝ',
        half_katakana_char(c).len() == (if is_voiced(c) {
            2int
        } else {
            1
        }),
        is_voiced(c) ==> half_katakana_char(c)[1] == '\u{FF9E}' || half_katakana_char(c)[1]
            == '\u{FF9F}',
        half_katakana_char((c as u32 - 0x60) as char) == half_katakana_char(c),
{
    lemma_half_letter(c);
    lemma_kana_codes((c as u32 - 0x60) as char);
}

/// A text is rewritten in half-width katakana character by character.
pub proof fn half_katakana_goes_by_characters(a: Seq<char>, b: Seq<char>, c: char)
    ensures
        half_katakana_text(a + b) == half_katakana_text(a) + half_katakana_text(b),
        half_katakana_text(seq![c]) == half_katakana_char(c),
    decreases b.len(),
{
    assert(seq![c].drop_last() =~= Seq::<char>::empty());
    assert(half_katakana_text(seq![c].drop_last()) =~= Seq::<char>::empty());
    assert(half_katakana_text(seq![c]) =~= half_katakana_char(c));
    if b.len() == 0 {
        assert(a + b =~= a);
        assert(half_katakana_text(a) + half_katakana_text(b) =~= half_katakana_text(a));
    } else {
        half_katakana_goes_by_characters(a, b.drop_last(), c);
        assert((a + b).drop_last() =~= a + b.drop_last());
        assert((a + b).last() == b.last());
        assert(half_katakana_text(a + b) =~= half_katakana_text(a) + half_katakana_text(b));
    }
}

} // verus!
