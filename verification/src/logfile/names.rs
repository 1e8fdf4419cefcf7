//! Names of log files, and what the log is to hold.
//!
//! Every run writes a file of its own, named after the process and the time at which it
//! started. Beside it stand its older generations, one that is being moved, and a file
//! whose lock says that the run goes on.

use crate::scan::{
    find, find_from, is_digit, is_number, is_space, lemma_find_from, number_of, parse_number,
    parsed_number, quotes, search_does_not_mind_what_is_before, search_finds_the_first, space,
    spaces, trim_range, trim_start, trimmed, trimming_takes_away_the_ends,
};
use crate::text::{
    chars_of, concat2, concat3, decimal, decimal_u64, digit_char, owned, same, string_of,
};
use vstd::prelude::*;

verus! {

/// How the names of all log files begin.
pub const LOG_FILE_PREFIX: &'static str = "rakukan-tsf-";

/// How many older generations are kept.
pub const LOG_ROTATE_GENERATIONS: usize = 5;

/// What the log holds unless the environment says otherwise: the text service and the
/// connection to the engine, from a level on.
pub fn default_log_filter_spec(level: &str) -> (r: String)
    ensures
        r@ == "rakukan_tsf="@ + level@ + ",rakukan_engine_rpc="@ + level@,
{
    let mut s = concat3("rakukan_tsf=", level, ",rakukan_engine_rpc=");
    s.append(level);
    s
}

/// Whether a line sets the level of the log.
pub open spec fn sets_level(line: Seq<char>) -> bool {
    crate::text::starts_with(trim_start(line, spaces()), "log_level"@)
}

/// What a line sets: what stands behind the first `=`, without the spaces and then the
/// quotes round it. Nothing where there is no `=`.
pub open spec fn level_in_line(line: Seq<char>) -> Option<Seq<char>> {
    let eq = find_from(line, '=', 0);
    if eq >= line.len() {
        None
    } else {
        let end = find_from(line, '=', eq + 1);
        Some(trimmed(trimmed(line.subrange(eq + 1, end), spaces()), quotes()))
    }
}

/// What the first line of `text` from `from` on that sets the level sets it to.
pub open spec fn level_from(text: Seq<char>, from: int) -> Option<Seq<char>>
    decreases text.len() - from,
{
    if from < 0 || from >= text.len() {
        None
    } else {
        let end = find_from(text, '\n', from);
        let line = text.subrange(from, end);
        if sets_level(line) {
            level_in_line(line)
        } else if end < from || end >= text.len() {
            None
        } else {
            level_from(text, end + 1)
        }
    }
}

/// The level of the log that a settings file sets, `debug` where it sets none. The file is
/// only looked through, as the log is needed before the settings are read.
pub fn config_log_level(text: &str) -> (r: String)
    ensures
        r@ == (match level_from(text@, 0) {
            Some(level) => level,
            None => "debug"@,
        }),
{
    let v = chars_of(text);
    let mut from: usize = 0;
    while from < v.len()
        invariant
            from <= v@.len(),
            v@ == text@,
            level_from(text@, 0) == level_from(text@, from as int),
        decreases v.len() - from,
    {
        proof {
            lemma_find_from(text@, '\n', from as int);
        }
        let end: usize = find(&v, '\n', from);
        let line = string_of(&v, from, end);
        let lv = chars_of(line.as_str());
        if line_sets_level(&lv) {
            return match line_level(&lv) {
                Some(level) => level,
                None => owned("debug"),
            };
        }
        if end >= v.len() {
            return owned("debug");
        }
        from = end + 1;
    }
    owned("debug")
}

fn line_sets_level(v: &Vec<char>) -> (r: bool)
    ensures
        r == sets_level(v@),
{
    let mut a: usize = 0;
    assert(v@.skip(0) =~= v@);
    while a < v.len() && space(v[a])
        invariant
            a <= v@.len(),
            trim_start(v@, spaces()) == trim_start(v@.skip(a as int), spaces()),
        decreases v.len() - a,
    {
        assert(v@.skip(a as int).skip(1) =~= v@.skip(a + 1));
        a += 1;
    }
    let rest = string_of(v, a, v.len());
    assert(v@.skip(a as int) =~= v@.subrange(a as int, v@.len() as int));
    crate::text::after_prefix(rest.as_str(), "log_level").is_some()
}

fn line_level(v: &Vec<char>) -> (r: Option<String>)
    ensures
        match r {
            Some(level) => level_in_line(v@) == Some(level@),
            None => level_in_line(v@) is None,
        },
{
    let eq: usize = find(v, '=', 0);
    if eq >= v.len() {
        return None;
    }
    let end: usize = find(v, '=', eq + 1);
    let (a, b) = trim_range(v, eq + 1, end, false);
    let (c, d) = trim_range(v, a, b, true);
    Some(string_of(v, c, d))
}

/// What a run is known by: its process and when it started.
pub open spec fn stem_of(pid: nat, id: nat) -> Seq<char> {
    decimal(pid) + "-"@ + decimal(id)
}

/// Writes a number in decimal.
fn decimal_u128(n: u128) -> (s: String)
    ensures
        s@ == decimal(n as nat),
    decreases n,
{
    if n < 10 {
        decimal_u64(n as u64)
    } else {
        let mut s = decimal_u128(n / 10);
        let last = decimal_u64((n % 10) as u64);
        s.append(last.as_str());
        assert(s@ =~= decimal((n / 10) as nat).push(digit_char((n % 10) as nat)));
        s
    }
}

/// What a run is known by.
pub fn instance_stem(pid: u32, id: u128) -> (r: String)
    ensures
        r@ == stem_of(pid as nat, id as nat),
{
    concat3(decimal_u64(pid as u64).as_str(), "-", decimal_u128(id).as_str())
}

/// Name of the log of a run.
pub open spec fn log_name(stem: Seq<char>) -> Seq<char> {
    LOG_FILE_PREFIX@ + stem + ".log"@
}

/// Name of the log of a run.
pub fn instance_log_name(stem: &str) -> (r: String)
    ensures
        r@ == log_name(stem@),
{
    concat3(LOG_FILE_PREFIX, stem, ".log")
}

/// Name of the file whose lock says that a run goes on.
pub open spec fn lock_name(stem: Seq<char>) -> Seq<char> {
    LOG_FILE_PREFIX@ + stem + ".lock"@
}

/// Name of the file whose lock says that a run goes on.
pub fn instance_lock_name(stem: &str) -> (r: String)
    ensures
        r@ == lock_name(stem@),
{
    concat3(LOG_FILE_PREFIX, stem, ".lock")
}

/// Name of an older generation of a log.
pub fn rotated_log_name(log: &str, generation: usize) -> (r: String)
    ensures
        r@ == log@ + "."@ + decimal(generation as nat),
{
    concat3(log, ".", decimal_u64(generation as u64).as_str())
}

/// Name of a log while it is being made an older generation.
pub fn staged_log_name(log: &str) -> (r: String)
    ensures
        r@ == log@ + ".tmp"@,
{
    concat2(log, ".tmp")
}

/// Whether a text has the form of what a run is known by.
pub open spec fn is_stem(s: Seq<char>) -> bool {
    exists|i: int|
        0 <= i < s.len() && #[trigger] s[i] == '-' && is_number(s.take(i)) && is_number(
            s.skip(i + 1),
        )
}

/// What can follow the name of a log: nothing, the number of a generation, or the mark of
/// one that is being moved.
pub open spec fn log_tail(t: Seq<char>) -> bool {
    t == ""@ || t == ".1"@ || t == ".2"@ || t == ".3"@ || t == ".4"@ || t == ".5"@ || t == ".tmp"@
}

/// Whether `name` is the name of a log of the run `stem`, of any generation.
pub open spec fn names_log_of(name: Seq<char>, stem: Seq<char>) -> bool {
    is_stem(stem) && exists|tail: Seq<char>|
        #[trigger] log_tail(tail) && name == log_name(stem) + tail
}

/// The digits from `from` on end here.
pub open spec fn digits_end(s: Seq<char>, from: int) -> int
    decreases s.len() - from,
{
    if 0 <= from < s.len() && is_digit(s[from]) {
        digits_end(s, from + 1)
    } else {
        from
    }
}

proof fn lemma_digits_end(s: Seq<char>, from: int, to: int)
    requires
        0 <= from <= to <= s.len(),
        forall|k: int| from <= k < to ==> is_digit(#[trigger] s[k]),
        to < s.len() ==> !is_digit(s[to]),
    ensures
        digits_end(s, from) == to,
    decreases to - from,
{
    if from < to {
        lemma_digits_end(s, from + 1, to);
    }
}

fn skip_digits(v: &Vec<char>, from: usize) -> (r: usize)
    requires
        from <= v@.len(),
    ensures
        from <= r <= v@.len(),
        r == digits_end(v@, from as int),
        forall|k: int| from <= k < r ==> is_digit(#[trigger] v@[k]),
{
    let mut i: usize = from;
    while i < v.len() && '0' <= v[i] && v[i] <= '9'
        invariant
            from <= i <= v@.len(),
            digits_end(v@, from as int) == digits_end(v@, i as int),
            forall|k: int| from <= k < i ==> is_digit(#[trigger] v@[k]),
        decreases v.len() - i,
    {
        i += 1;
    }
    i
}

/// Where the two numbers of a stem end is fixed by what the name looks like.
proof fn lemma_stem_is_scanned(rest: Seq<char>, stem: Seq<char>, tail: Seq<char>)
    requires
        is_stem(stem),
        rest == stem + ".log"@ + tail,
    ensures
        ({
            let a = digits_end(rest, 0);
            let b = digits_end(rest, a + 1);
            &&& 0 < a < b
            &&& b < rest.len()
            &&& rest[a] == '-'
            &&& a + 1 < b
            &&& rest.take(b) == stem
            &&& rest.skip(b) == ".log"@ + tail
        }),
{
    reveal_strlit(".log");
    let i = choose|i: int|
        0 <= i < stem.len() && #[trigger] stem[i] == '-' && is_number(stem.take(i)) && is_number(
            stem.skip(i + 1),
        );
    assert forall|k: int| 0 <= k < i implies is_digit(#[trigger] rest[k]) by {
        assert(stem.take(i)[k] == stem[k]);
    }
    assert(rest[i] == '-');
    lemma_digits_end(rest, 0, i);
    let n = stem.len() as int;
    assert forall|k: int| i + 1 <= k < n implies is_digit(#[trigger] rest[k]) by {
        assert(stem.skip(i + 1)[k - i - 1] == stem[k]);
    }
    assert(rest[n] == '.');
    lemma_digits_end(rest, i + 1, n);
    assert(stem.skip(i + 1).len() > 0);
    assert(rest.take(n) =~= stem);
    assert(rest.skip(n) =~= ".log"@ + tail);
}

/// The run whose log has that name. Files with any other name, even one that begins alike,
/// are nobody's log.
pub fn instance_stem_of(file_name: &str) -> (r: Option<String>)
    ensures
        r is Some ==> names_log_of(file_name@, r->0@),
        r is None ==> forall|stem: Seq<char>| !names_log_of(file_name@, stem),
{
    let rest: String = match crate::text::after_prefix(file_name, LOG_FILE_PREFIX) {
        Some(rest) => rest,
        None => {
            proof {
                assert forall|stem: Seq<char>| !names_log_of(file_name@, stem) by {
                    if names_log_of(file_name@, stem) {
                        let tail = choose|tail: Seq<char>|
                            #[trigger] log_tail(tail) && file_name@ == log_name(stem) + tail;
                        let p = LOG_FILE_PREFIX@;
                        assert(file_name@ =~= p + (stem + ".log"@ + tail));
                        assert(file_name@.take(p.len() as int) =~= p);
                    }
                }
            }
            return None;
        },
    };
    let v = chars_of(rest.as_str());
    let ghost p = LOG_FILE_PREFIX@;
    proof {
        assert(file_name@ =~= p + v@);
        assert forall|stem: Seq<char>, tail: Seq<char>|
            is_stem(stem) && #[trigger] log_tail(tail) && file_name@ == #[trigger] log_name(stem)
                + tail implies v@ == stem + ".log"@ + tail by {
            assert(file_name@ =~= p + (stem + ".log"@ + tail));
            assert(file_name@.skip(p.len() as int) =~= stem + ".log"@ + tail);
        }
        assert forall|stem: Seq<char>| #[trigger] names_log_of(file_name@, stem) implies ({
            let a = digits_end(v@, 0);
            let b = digits_end(v@, a + 1);
            &&& 0 < a < v@.len()
            &&& v@[a] == '-'
            &&& a + 1 < b <= v@.len()
            &&& v@.take(b) == stem
            &&& exists|tail: Seq<char>| #[trigger] log_tail(tail) && v@.skip(b) == ".log"@ + tail
        }) by {
            let tail = choose|tail: Seq<char>|
                #[trigger] log_tail(tail) && file_name@ == log_name(stem) + tail;
            lemma_stem_is_scanned(v@, stem, tail);
        }
    }
    let a: usize = skip_digits(&v, 0);
    if a == 0 || a >= v.len() || v[a] != '-' {
        return None;
    }
    let b: usize = skip_digits(&v, a + 1);
    if b == a + 1 {
        return None;
    }
    let tail = string_of(&v, b, v.len());
    assert(tail@ =~= v@.skip(b as int));
    proof {
        reveal_strlit("");
        reveal_strlit(".log");
        reveal_strlit(".1");
        reveal_strlit(".2");
        reveal_strlit(".3");
        reveal_strlit(".4");
        reveal_strlit(".5");
        reveal_strlit(".tmp");
        reveal_strlit(".log.1");
        reveal_strlit(".log.2");
        reveal_strlit(".log.3");
        reveal_strlit(".log.4");
        reveal_strlit(".log.5");
        reveal_strlit(".log.tmp");
        assert(".log"@ =~= ".log"@ + ""@);
        assert(".log.1"@ =~= ".log"@ + ".1"@);
        assert(".log.2"@ =~= ".log"@ + ".2"@);
        assert(".log.3"@ =~= ".log"@ + ".3"@);
        assert(".log.4"@ =~= ".log"@ + ".4"@);
        assert(".log.5"@ =~= ".log"@ + ".5"@);
        assert(".log.tmp"@ =~= ".log"@ + ".tmp"@);
    }
    let t = tail.as_str();
    if same(t, ".log") || same(t, ".log.1") || same(t, ".log.2") || same(t, ".log.3") || same(
        t,
        ".log.4",
    ) || same(t, ".log.5") || same(t, ".log.tmp") {
        let stem = string_of(&v, 0, b);
        proof {
            let s = stem@;
            assert(s[a as int] == '-');
            assert(s.take(a as int) =~= v@.take(a as int));
            assert(s.skip(a + 1) =~= v@.subrange(a + 1, b as int));
            assert(is_number(s.take(a as int)));
            assert(is_number(s.skip(a + 1)));
            assert(is_stem(s));
            let short: Seq<char> = tail@.skip(4);
            assert(log_tail(short)) by {
                assert((".log"@ + ""@).skip(4) =~= ""@);
                assert((".log"@ + ".1"@).skip(4) =~= ".1"@);
                assert((".log"@ + ".2"@).skip(4) =~= ".2"@);
                assert((".log"@ + ".3"@).skip(4) =~= ".3"@);
                assert((".log"@ + ".4"@).skip(4) =~= ".4"@);
                assert((".log"@ + ".5"@).skip(4) =~= ".5"@);
                assert((".log"@ + ".tmp"@).skip(4) =~= ".tmp"@);
            }
            assert(tail@ =~= ".log"@ + short);
            assert(v@ =~= s + tail@);
            assert(file_name@ =~= log_name(s) + short);
        }
        Some(stem)
    } else {
        None
    }
}

/// Where the last `c` is, or -1.
pub open spec fn find_last(s: Seq<char>, c: char) -> int
    decreases s.len(),
{
    if s.len() == 0 {
        -1
    } else if s.last() == c {
        s.len() - 1
    } else {
        find_last(s.drop_last(), c)
    }
}

proof fn lemma_find_last(s: Seq<char>, c: char, i: int)
    requires
        -1 <= i < s.len(),
        i >= 0 ==> s[i] == c,
        forall|k: int| i < k < s.len() ==> s[k] != c,
    ensures
        find_last(s, c) == i,
    decreases s.len(),
{
    if s.len() > 0 && i < s.len() - 1 {
        lemma_find_last(s.drop_last(), c, i);
    }
}

/// When a run started. A stem that does not say counts as the oldest.
pub open spec fn started_at(stem: Seq<char>) -> u128 {
    let i = find_last(stem, '-');
    if i < 0 {
        0
    } else {
        match parsed_number(stem.skip(i + 1)) {
            Some(id) => id,
            None => 0,
        }
    }
}

/// When a run started.
pub fn startup_id_of(stem: &str) -> (r: u128)
    ensures
        r == started_at(stem@),
{
    let v = chars_of(stem);
    let mut i: usize = v.len();
    assert(v@.take(i as int) =~= v@);
    while i > 0
        invariant
            i <= v@.len(),
            v@ == stem@,
            forall|k: int| i <= k < v@.len() ==> v@[k] != '-',
        decreases i,
    {
        if v[i - 1] == '-' {
            proof {
                lemma_find_last(stem@, '-', i - 1);
            }
            return match parse_number(&v, i) {
                Some(id) => id,
                None => 0,
            };
        }
        i -= 1;
    }
    proof {
        lemma_find_last(stem@, '-', -1);
    }
    0
}

/// A decimal notation consists of digits and stands for its number.
proof fn lemma_decimal_is_number(n: nat)
    ensures
        is_number(decimal(n)),
        number_of(decimal(n)) == n,
    decreases n,
{
    if n < 10 {
        assert(decimal(n) =~= seq![digit_char(n)]);
        assert(decimal(n).drop_last() =~= Seq::<char>::empty());
        assert(number_of(Seq::<char>::empty()) == 0);
        assert(decimal(n).last() == digit_char(n));
    } else {
        lemma_decimal_is_number(n / 10);
        let front = decimal(n / 10);
        let s = decimal(n);
        assert(s == front.push(digit_char(n % 10)));
        assert(s.drop_last() =~= front);
        assert forall|k: int| 0 <= k < s.len() implies is_digit(#[trigger] s[k]) by {
            if k < front.len() {
                assert(s[k] == front[k]);
            }
        }
    }
}

proof fn lemma_stem_parts(pid: nat, id: nat)
    ensures
        is_stem(stem_of(pid, id)),
        find_last(stem_of(pid, id), '-') == decimal(pid).len(),
        stem_of(pid, id).skip(decimal(pid).len() as int + 1) == decimal(id),
{
    reveal_strlit("-");
    lemma_decimal_is_number(pid);
    lemma_decimal_is_number(id);
    let s = stem_of(pid, id);
    let i = decimal(pid).len() as int;
    assert(s[i] == '-');
    assert(s.take(i) =~= decimal(pid));
    assert(s.skip(i + 1) =~= decimal(id));
    assert forall|k: int| i < k < s.len() implies s[k] != '-' by {
        assert(s[k] == decimal(id)[k - i - 1]);
    }
    lemma_find_last(s, '-', i);
}

/// The names that are given to the files of a run lead back to it, in every generation and
/// while one is being moved; so does the time at which it started.
pub proof fn names_lead_back(pid: u32, id: u128)
    ensures
        ({
            let stem = stem_of(pid as nat, id as nat);
            &&& names_log_of(log_name(stem), stem)
            &&& forall|g: nat|
                1 <= g <= LOG_ROTATE_GENERATIONS ==> names_log_of(
                    log_name(stem) + "."@ + #[trigger] decimal(g),
                    stem,
                )
            &&& names_log_of(log_name(stem) + ".tmp"@, stem)
            &&& started_at(stem) == id
        }),
{
    let stem = stem_of(pid as nat, id as nat);
    lemma_stem_parts(pid as nat, id as nat);
    lemma_decimal_is_number(id as nat);
    assert(decimal(id as nat).len() > 1 ==> is_digit(decimal(id as nat)[0]));
    reveal_strlit("");
    reveal_strlit(".");
    reveal_strlit(".1");
    reveal_strlit(".2");
    reveal_strlit(".3");
    reveal_strlit(".4");
    reveal_strlit(".5");
    assert(log_tail(""@));
    assert(log_name(stem) =~= log_name(stem) + ""@);
    assert(log_tail(".tmp"@));
    assert forall|g: nat| 1 <= g <= LOG_ROTATE_GENERATIONS implies names_log_of(
        log_name(stem) + "."@ + #[trigger] decimal(g),
        stem,
    ) by {
        let tail = "."@ + decimal(g);
        assert(decimal(g) =~= seq![digit_char(g)]);
        assert(g == 1 ==> tail =~= ".1"@);
        assert(g == 2 ==> tail =~= ".2"@);
        assert(g == 3 ==> tail =~= ".3"@);
        assert(g == 4 ==> tail =~= ".4"@);
        assert(g == 5 ==> tail =~= ".5"@);
        assert(log_tail(tail));
        assert(log_name(stem) + "."@ + decimal(g) =~= log_name(stem) + tail);
    }
}

/// A name is the log of one run at most, and the file with the lock is nobody's log.
pub proof fn name_has_one_run(name: Seq<char>, a: Seq<char>, b: Seq<char>)
    ensures
        names_log_of(name, a) && names_log_of(name, b) ==> a == b,
        is_stem(a) ==> !names_log_of(lock_name(a), b),
{
    let p = LOG_FILE_PREFIX@;
    if names_log_of(name, a) && names_log_of(name, b) {
        let ta = choose|tail: Seq<char>| #[trigger] log_tail(tail) && name == log_name(a) + tail;
        let tb = choose|tail: Seq<char>| #[trigger] log_tail(tail) && name == log_name(b) + tail;
        assert(name.skip(p.len() as int) =~= a + ".log"@ + ta);
        assert(name.skip(p.len() as int) =~= b + ".log"@ + tb);
        lemma_stem_is_scanned(a + ".log"@ + ta, a, ta);
        lemma_stem_is_scanned(a + ".log"@ + ta, b, tb);
    }
    if is_stem(a) && names_log_of(lock_name(a), b) {
        reveal_strlit(".log");
        reveal_strlit(".lock");
        let tb = choose|tail: Seq<char>|
            #[trigger] log_tail(tail) && lock_name(a) == log_name(b) + tail;
        let rest = a + ".lock"@;
        assert(lock_name(a).skip(p.len() as int) =~= rest);
        assert(lock_name(a).skip(p.len() as int) =~= b + ".log"@ + tb);
        lemma_stem_is_scanned(rest, b, tb);
        lemma_stem_digits(a, ".lock"@);
        let n = b.len() as int;
        assert(rest.skip(n)[3] == 'g');
        assert(rest.skip(n) =~= ".lock"@);
    }
}

proof fn lemma_stem_digits(stem: Seq<char>, tail: Seq<char>)
    requires
        is_stem(stem),
        tail.len() > 0,
        tail[0] == '.',
    ensures
        ({
            let rest = stem + tail;
            digits_end(rest, digits_end(rest, 0) + 1) == stem.len()
        }),
{
    let rest = stem + tail;
    let i = choose|i: int|
        0 <= i < stem.len() && #[trigger] stem[i] == '-' && is_number(stem.take(i)) && is_number(
            stem.skip(i + 1),
        );
    assert forall|k: int| 0 <= k < i implies is_digit(#[trigger] rest[k]) by {
        assert(stem.take(i)[k] == stem[k]);
    }
    assert(rest[i] == '-');
    lemma_digits_end(rest, 0, i);
    let n = stem.len() as int;
    assert forall|k: int| i + 1 <= k < n implies is_digit(#[trigger] rest[k]) by {
        assert(stem.skip(i + 1)[k - i - 1] == stem[k]);
    }
    assert(rest[n] == '.');
    lemma_digits_end(rest, i + 1, n);
}

proof fn lemma_level_behind(p: Seq<char>, rest: Seq<char>, from: int)
    requires
        0 <= from <= rest.len(),
    ensures
        level_from(p + rest, p.len() + from) == level_from(rest, from),
    decreases rest.len() - from,
{
    let text = p + rest;
    if from < rest.len() {
        search_does_not_mind_what_is_before(p, rest, '\n', from);
        lemma_find_from(rest, '\n', from);
        let end = find_from(rest, '\n', from);
        assert(text.subrange(p.len() + from, p.len() + end) =~= rest.subrange(from, end));
        if end < rest.len() {
            lemma_level_behind(p, rest, end + 1);
        }
    }
}

/// The first line that sets the level counts: lines before it that do not are passed over, and
/// what follows it is not looked at.
pub proof fn first_level_counts(line: Seq<char>, rest: Seq<char>)
    requires
        forall|k: int| 0 <= k < line.len() ==> #[trigger] line[k] != '\n',
    ensures
        ({
            let text = line.push('\n') + rest;
            &&& sets_level(line) ==> level_from(text, 0) == level_in_line(line)
            &&& !sets_level(line) ==> level_from(text, 0) == level_from(rest, 0)
        }),
        line.len() > 0 && sets_level(line) ==> level_from(line, 0) == level_in_line(line),
        !sets_level(line) ==> level_from(line, 0) is None,
        level_from(Seq::empty(), 0) is None,
{
    let text = line.push('\n') + rest;
    search_finds_the_first(line, '\n', rest);
    assert(text.subrange(0, line.len() as int) =~= line);
    assert(line.subrange(0, line.len() as int) =~= line);
    if !sets_level(line) {
        lemma_level_behind(line.push('\n'), rest, 0);
    }
}

/// A level between quotes behind the name and the sign is the level that is set, whatever spaces
/// stand before the name and round the quotes.
pub proof fn quoted_level_is_set(
    indent: Seq<char>,
    gap: Seq<char>,
    before: Seq<char>,
    level: Seq<char>,
    after: Seq<char>,
)
    requires
        forall|k: int| 0 <= k < indent.len() ==> is_space(#[trigger] indent[k]),
        forall|k: int| 0 <= k < gap.len() ==> is_space(#[trigger] gap[k]),
        forall|k: int| 0 <= k < before.len() ==> is_space(#[trigger] before[k]),
        forall|k: int| 0 <= k < after.len() ==> is_space(#[trigger] after[k]),
        forall|k: int| 0 <= k < level.len() ==> #[trigger] level[k] != '"' && level[k] != '=',
    ensures
        ({
            let line = (indent + "log_level"@ + gap).push('=') + (before + (seq!['"'] + level
                + seq!['"']) + after);
            sets_level(line) && level_in_line(line) == Some(level)
        }),
{
    reveal_strlit("log_level");
    let name = "log_level"@;
    let start = indent + name + gap;
    let quoted = seq!['"'] + level + seq!['"'];
    let value = before + quoted + after;
    let line = start.push('=') + value;
    assert forall|k: int| 0 <= k < start.len() implies #[trigger] start[k] != '=' by {
        if k < indent.len() {
            assert(start[k] == indent[k]);
        } else if k < indent.len() + name.len() {
            assert(start[k] == name[k - indent.len()]);
        } else {
            assert(start[k] == gap[k - indent.len() - name.len()]);
        }
    }
    search_finds_the_first(start, '=', value);
    let tail = gap.push('=') + value;
    assert(line =~= indent + name + tail);
    assert(line =~= indent + (name + tail) + Seq::<char>::empty());
    assert forall|k: int| 0 <= k < indent.len() implies spaces()(#[trigger] indent[k]) by {}
    assert(!is_space(name[0]));
    lemma_starts(indent, name, tail);
    assert(trim_start(line, spaces()) == name + tail);
    assert((name + tail).take(name.len() as int) =~= name);
    let eq = start.len() as int;
    assert forall|k: int| 0 <= k < value.len() implies #[trigger] value[k] != '=' by {
        if k < before.len() {
            assert(value[k] == before[k]);
        } else if k < before.len() + quoted.len() {
            let j = k - before.len();
            assert(value[k] == quoted[j]);
            if 1 <= j <= level.len() {
                assert(quoted[j] == level[j - 1]);
            }
        } else {
            assert(value[k] == after[k - before.len() - quoted.len()]);
        }
    }
    search_does_not_mind_what_is_before(start.push('='), value, '=', 0);
    search_finds_the_first(value, '=', Seq::empty());
    assert(find_from(line, '=', eq + 1) == line.len());
    assert(line.subrange(eq + 1, line.len() as int) =~= value);
    assert forall|k: int| 0 <= k < before.len() implies spaces()(#[trigger] before[k]) by {}
    assert forall|k: int| 0 <= k < after.len() implies spaces()(#[trigger] after[k]) by {}
    assert(quoted[0] == '"' && quoted.last() == '"');
    trimming_takes_away_the_ends(before, quoted, after, spaces());
    let q = seq!['"'];
    assert(q[0] == '"');
    assert forall|k: int| 0 <= k < q.len() implies quotes()(#[trigger] q[k]) by {}
    if level.len() > 0 {
        assert(level[level.len() - 1] != '"');
    }
    trimming_takes_away_the_ends(q, level, q, quotes());
}

proof fn lemma_starts(indent: Seq<char>, name: Seq<char>, tail: Seq<char>)
    requires
        forall|k: int| 0 <= k < indent.len() ==> is_space(#[trigger] indent[k]),
        name.len() > 0,
        !is_space(name[0]),
    ensures
        trim_start(indent + name + tail, spaces()) == name + tail,
    decreases indent.len(),
{
    if indent.len() == 0 {
        assert(indent + name + tail =~= name + tail);
        assert((name + tail)[0] == name[0]);
    } else {
        let rest = indent.skip(1);
        assert forall|k: int| 0 <= k < rest.len() implies is_space(#[trigger] rest[k]) by {
            assert(rest[k] == indent[k + 1]);
        }
        lemma_starts(rest, name, tail);
        assert((indent + name + tail).skip(1) =~= rest + name + tail);
        assert((indent + name + tail)[0] == indent[0]);
    }
}

/// A line sets the level only where it begins with the name, and a name without a sign behind it
/// sets nothing.
pub proof fn level_needs_name_and_sign(line: Seq<char>)
    ensures
        (forall|k: int| 0 <= k < line.len() ==> #[trigger] line[k] != '=') <==> level_in_line(
            line,
        ) is None,
        line.len() > 0 && !is_space(line[0]) ==> (sets_level(line) <==> line.len()
            >= "log_level"@.len() && line.take("log_level"@.len() as int) == "log_level"@),
{
    lemma_find_from(line, '=', 0);
}

} // verus!
