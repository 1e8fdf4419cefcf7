//! The word lists of IPADIC: which files they are, in which order they are read, and how
//! they become one.

use crate::engine::conversion::views;
use crate::scan::trim_end;
use crate::text::{chars_of, concat3, decimal, decimal_u64, string_of};
use vstd::prelude::*;

verus! {

/// Why no dictionary is built.
#[derive(Debug, PartialEq)]
pub enum BuildError {
    /// There are no word lists.
    NoLexicon,
    /// A file is neither UTF-8 nor EUC-JP.
    Undecodable,
    /// The tokenizer does not take the files, and says why.
    Rejected { message: String },
}

/// Whether a file of that name is a word list. A name that consists of the ending alone has
/// no ending.
pub open spec fn is_csv_name(name: Seq<char>) -> bool {
    name.len() > 4 && name.skip(name.len() - 4) == ".csv"@
}

/// Whether a file of that name is a word list.
pub fn is_lexicon_csv(name: &str) -> (r: bool)
    ensures
        r == is_csv_name(name@),
{
    let v = chars_of(name);
    if v.len() <= 4 {
        return false;
    }
    let tail = string_of(&v, v.len() - 4, v.len());
    assert(tail@ =~= name@.skip(name@.len() - 4));
    crate::text::same(tail.as_str(), ".csv")
}

/// Whether `a` stands before `b` in the order of their characters, or is the same.
pub open spec fn text_le(a: Seq<char>, b: Seq<char>) -> bool
    decreases a.len(),
{
    if a.len() == 0 {
        true
    } else if b.len() == 0 {
        false
    } else if a[0] != b[0] {
        a[0] < b[0]
    } else {
        text_le(a.skip(1), b.skip(1))
    }
}

/// Any two texts stand in order one way or the other.
pub proof fn text_order_is_total(a: Seq<char>, b: Seq<char>)
    ensures
        text_le(a, b) || text_le(b, a),
    decreases a.len(),
{
    if a.len() > 0 && b.len() > 0 && a[0] == b[0] {
        text_order_is_total(a.skip(1), b.skip(1));
    }
}

proof fn lemma_text_le_transitive(a: Seq<char>, b: Seq<char>, c: Seq<char>)
    requires
        text_le(a, b),
        text_le(b, c),
    ensures
        text_le(a, c),
    decreases a.len(),
{
    if a.len() > 0 && b.len() > 0 && c.len() > 0 && a[0] == b[0] && b[0] == c[0] {
        lemma_text_le_transitive(a.skip(1), b.skip(1), c.skip(1));
    }
}

fn stands_before(a: &Vec<char>, b: &Vec<char>) -> (r: bool)
    ensures
        r == text_le(a@, b@),
{
    let mut i: usize = 0;
    assert(a@.skip(0) =~= a@);
    assert(b@.skip(0) =~= b@);
    while i < a.len() && i < b.len()
        invariant
            i <= a@.len(),
            i <= b@.len(),
            text_le(a@, b@) == text_le(a@.skip(i as int), b@.skip(i as int)),
        decreases a.len() - i,
    {
        assert(a@.skip(i as int)[0] == a@[i as int]);
        assert(b@.skip(i as int)[0] == b@[i as int]);
        if a[i] != b[i] {
            return a[i] < b[i];
        }
        assert(a@.skip(i as int).skip(1) =~= a@.skip(i + 1));
        assert(b@.skip(i as int).skip(1) =~= b@.skip(i + 1));
        i += 1;
    }
    i == a.len()
}

/// Whether `order` lists the word lists among the first `n` names, each once, in the order
/// of their names.
pub open spec fn lists_lexicon(names: Seq<Seq<char>>, n: int, order: Seq<usize>) -> bool {
    &&& forall|i: int|
        0 <= i < order.len() ==> (#[trigger] order[i]) < n && is_csv_name(names[order[i] as int])
    &&& forall|k: int|
        0 <= k < n && is_csv_name(#[trigger] names[k]) ==> order.contains(k as usize)
    &&& order.no_duplicates()
    &&& forall|i: int, j: int|
        0 <= i < j < order.len() ==> text_le(
            names[#[trigger] order[i] as int],
            names[#[trigger] order[j] as int],
        )
}

proof fn lemma_inserted(names: Seq<Seq<char>>, n: int, order: Seq<usize>, at: int)
    requires
        0 <= n < names.len(),
        n < usize::MAX,
        lists_lexicon(names, n, order),
        is_csv_name(names[n]),
        0 <= at <= order.len(),
        forall|i: int| 0 <= i < at ==> text_le(names[#[trigger] order[i] as int], names[n]),
        at < order.len() ==> !text_le(names[order[at] as int], names[n]),
    ensures
        lists_lexicon(names, n + 1, order.insert(at, n as usize)),
{
    let after = order.insert(at, n as usize);
    assert forall|i: int| at <= i < order.len() implies text_le(
        names[n],
        names[#[trigger] order[i] as int],
    ) by {
        text_order_is_total(names[order[at] as int], names[n]);
        if i > at {
            lemma_text_le_transitive(names[n], names[order[at] as int], names[order[i] as int]);
        }
    }
    assert forall|i: int| 0 <= i < after.len() implies (#[trigger] after[i]) < n + 1 && is_csv_name(
        names[after[i] as int],
    ) by {
        if i < at {
            assert(after[i] == order[i]);
        } else if i > at {
            assert(after[i] == order[i - 1]);
        }
    }
    assert forall|k: int| 0 <= k < n + 1 && is_csv_name(#[trigger] names[k]) implies after.contains(
        k as usize,
    ) by {
        if k == n {
            assert(after[at] == n as usize);
        } else {
            assert(order.contains(k as usize));
            let i = choose|i: int| 0 <= i < order.len() && order[i] == k as usize;
            if i < at {
                assert(after[i] == k as usize);
            } else {
                assert(after[i + 1] == k as usize);
            }
        }
    }
    assert forall|i: int, j: int| 0 <= i < j < after.len() implies after[i] != after[j] && text_le(
        names[#[trigger] after[i] as int],
        names[#[trigger] after[j] as int],
    ) by {
        let oi = if i < at {
            i
        } else {
            i - 1
        };
        let oj = if j < at {
            j
        } else {
            j - 1
        };
        if i != at {
            assert(after[i] == order[oi]);
        }
        if j != at {
            assert(after[j] == order[oj]);
        }
        if i != at && j != at {
            assert(order[oi] != order[oj]);
            assert(text_le(names[order[oi] as int], names[order[oj] as int]));
        }
    }
}

/// The word lists among the files of a directory, as places in `names`, in the order in
/// which they are read.
pub fn lexicon_csv_paths(names: &Vec<String>) -> (r: Vec<usize>)
    ensures
        lists_lexicon(views(names@), names@.len() as int, r@),
{
    let mut order: Vec<usize> = Vec::new();
    let ghost all = views(names@);
    let mut k: usize = 0;
    while k < names.len()
        invariant
            k <= names@.len(),
            all == views(names@),
            lists_lexicon(all, k as int, order@),
        decreases names.len() - k,
    {
        assert(all[k as int] == names@[k as int]@);
        if is_lexicon_csv(names[k].as_str()) {
            let name = chars_of(names[k].as_str());
            let mut at: usize = 0;
            let mut here = true;
            while here && at < order.len()
                invariant
                    at <= order@.len(),
                    k < names@.len(),
                    all == views(names@),
                    name@ == all[k as int],
                    lists_lexicon(all, k as int, order@),
                    forall|i: int|
                        0 <= i < at ==> text_le(all[#[trigger] order@[i] as int], all[k as int]),
                    !here ==> at < order@.len() && !text_le(
                        all[order@[at as int] as int],
                        all[k as int],
                    ),
                decreases order.len() - at + (if here {
                    1int
                } else {
                    0
                }),
            {
                assert(order@[at as int] < k);
                let other = chars_of(names[order[at]].as_str());
                assert(other@ == all[order@[at as int] as int]);
                if stands_before(&other, &name) {
                    at += 1;
                } else {
                    here = false;
                }
            }
            proof {
                lemma_inserted(all, k as int, order@, at as int);
            }
            order.insert(at, k);
        }
        k += 1;
    }
    order
}

/// Line breaks.
pub open spec fn breaks() -> spec_fn(char) -> bool {
    |c: char| c == '\r' || c == '\n'
}

/// The word lists one after the other, each with one line break at its end.
pub open spec fn merged(texts: Seq<Seq<char>>) -> Seq<char>
    decreases texts.len(),
{
    if texts.len() == 0 {
        Seq::empty()
    } else {
        merged(texts.drop_last()) + trim_end(texts.last(), breaks()) + "\n"@
    }
}

fn without_breaks(text: &str) -> (r: String)
    ensures
        r@ == trim_end(text@, breaks()),
{
    let v = chars_of(text);
    let mut end: usize = v.len();
    assert(v@.take(end as int) =~= v@);
    while end > 0 && (v[end - 1] == '\r' || v[end - 1] == '\n')
        invariant
            end <= v@.len(),
            trim_end(v@, breaks()) == trim_end(v@.take(end as int), breaks()),
        decreases end,
    {
        assert(v@.take(end as int).drop_last() =~= v@.take(end - 1));
        assert(v@.take(end as int).last() == v@[end - 1]);
        end -= 1;
    }
    let r = string_of(&v, 0, end);
    proof {
        if end > 0 {
            assert(v@.take(end as int).last() == v@[end - 1]);
        }
        assert(r@ =~= v@.take(end as int));
    }
    r
}

/// Makes one word list out of several; there must be one at least.
pub fn build_lexicon_csv(texts: &Vec<String>) -> (r: Result<String, BuildError>)
    ensures
        texts@.len() == 0 ==> r == Err::<String, BuildError>(BuildError::NoLexicon),
        texts@.len() > 0 ==> r is Ok && r->Ok_0@ == merged(views(texts@)),
{
    if texts.len() == 0 {
        return Err(BuildError::NoLexicon);
    }
    let mut all = String::new();
    let mut i: usize = 0;
    assert(views(texts@).take(0) =~= Seq::<Seq<char>>::empty());
    assert(all@ =~= merged(views(texts@).take(0)));
    while i < texts.len()
        invariant
            i <= texts@.len(),
            all@ == merged(views(texts@).take(i as int)),
        decreases texts.len() - i,
    {
        proof {
            let next = views(texts@).take(i + 1);
            assert(next.drop_last() =~= views(texts@).take(i as int));
            assert(next.last() == texts@[i as int]@);
        }
        all.append(without_breaks(texts[i].as_str()).as_str());
        all.append("\n");
        i += 1;
    }
    assert(views(texts@).take(i as int) =~= views(texts@));
    Ok(all)
}

/// What is said at the end.
pub fn built_message(input: &str, output: &str, bytes: usize, csv_files: usize) -> (r: String)
    ensures
        r@ == "built Vibrato dictionary: input="@ + input@ + " output="@ + output@ + " bytes="@
            + decimal(bytes as nat) + " csv_files="@ + decimal(csv_files as nat),
{
    let mut s = concat3("built Vibrato dictionary: input=", input, " output=");
    s.append(output);
    s.append(" bytes=");
    s.append(decimal_u64(bytes as u64).as_str());
    s.append(" csv_files=");
    s.append(decimal_u64(csv_files as u64).as_str());
    s
}

proof fn lemma_trim_end_keeps_start(s: Seq<char>, drop: spec_fn(char) -> bool)
    ensures
        trim_end(s, drop).len() == 0 || !drop(trim_end(s, drop).last()),
    decreases s.len(),
{
    if s.len() > 0 && drop(s.last()) {
        lemma_trim_end_keeps_start(s.drop_last(), drop);
    }
}

/// The word list ends with one line break, however the files end.
pub proof fn merged_ends_with_one_break(texts: Seq<Seq<char>>)
    requires
        texts.len() > 0,
        trim_end(texts.last(), breaks()).len() > 0,
    ensures
        merged(texts).len() >= 2,
        merged(texts).last() == '\n',
        !breaks()(merged(texts)[merged(texts).len() - 2]),
{
    reveal_strlit("\n");
    lemma_trim_end_keeps_start(texts.last(), breaks());
    let cut = trim_end(texts.last(), breaks());
    let before = merged(texts.drop_last());
    let all = before + cut + "\n"@;
    assert(all[all.len() - 2] == cut.last());
}

/// No word list is lost, and none changes place: lists that are put together in two goes
/// stand one behind the other.
pub proof fn lists_follow_each_other(a: Seq<Seq<char>>, b: Seq<Seq<char>>)
    ensures
        merged(Seq::empty()) == Seq::<char>::empty(),
        merged(a + b) == merged(a) + merged(b),
    decreases b.len(),
{
    if b.len() == 0 {
        assert(a + b =~= a);
        assert(merged(a) + merged(b) =~= merged(a));
    } else {
        lists_follow_each_other(a, b.drop_last());
        assert((a + b).drop_last() =~= a + b.drop_last());
        let last = trim_end(b.last(), breaks());
        assert(merged(a) + merged(b.drop_last()) + last + "\n"@ =~= merged(a) + (merged(
            b.drop_last(),
        ) + last + "\n"@));
    }
}

/// A word list keeps all its characters up to the line breaks at its end, in the place of
/// which there is one line feed.
pub proof fn list_keeps_its_lines(lines: Seq<char>, ending: Seq<char>)
    requires
        lines.len() > 0 ==> lines.last() != '\r' && lines.last() != '\n',
        forall|i: int|
            0 <= i < ending.len() ==> (#[trigger] ending[i]) == '\r' || ending[i] == '\n',
    ensures
        merged(seq![lines + ending]) == lines.push('\n'),
    decreases ending.len(),
{
    reveal_strlit("\n");
    lemma_breaks_go(lines, ending);
    let one = seq![lines + ending];
    assert(one.drop_last() =~= Seq::<Seq<char>>::empty());
    assert(one.last() == lines + ending);
    assert(merged(one.drop_last()) =~= Seq::<char>::empty());
    assert(merged(one) =~= lines.push('\n'));
}

proof fn lemma_breaks_go(lines: Seq<char>, ending: Seq<char>)
    requires
        lines.len() > 0 ==> lines.last() != '\r' && lines.last() != '\n',
        forall|i: int|
            0 <= i < ending.len() ==> (#[trigger] ending[i]) == '\r' || ending[i] == '\n',
    ensures
        trim_end(lines + ending, breaks()) == lines,
    decreases ending.len(),
{
    if ending.len() == 0 {
        assert(lines + ending =~= lines);
    } else {
        lemma_breaks_go(lines, ending.drop_last());
        assert((lines + ending).drop_last() =~= lines + ending.drop_last());
        assert((lines + ending).last() == ending.last());
    }
}

/// The word lists of a directory are all files that end in `.csv` and have a name before
/// that, each once, sorted by name.
pub proof fn every_list_is_read_once(names: Seq<Seq<char>>, order: Seq<usize>, k: int)
    requires
        lists_lexicon(names, names.len() as int, order),
        0 <= k < names.len() <= usize::MAX,
    ensures
        order.contains(k as usize) <==> {
            let name = names[k];
            let n = name.len();
            n > 4 && name[n - 4] == '.' && name[n - 3] == 'c' && name[n - 2] == 's' && name[n - 1]
                == 'v'
        },
        order.no_duplicates(),
        forall|i: int, j: int|
            0 <= i < j < order.len() ==> text_le(
                names[#[trigger] order[i] as int],
                names[#[trigger] order[j] as int],
            ),
{
    reveal_strlit(".csv");
    let name = names[k];
    if name.len() > 4 {
        let tail = name.skip(name.len() - 4);
        assert(tail =~= ".csv"@ <==> tail[0] == '.' && tail[1] == 'c' && tail[2] == 's' && tail[3]
            == 'v');
    }
    if order.contains(k as usize) {
        let i = choose|i: int| 0 <= i < order.len() && order[i] == k as usize;
        assert(is_csv_name(names[order[i] as int]));
    }
}

/// Names are sorted by the first character in which they differ, and a name stands before its
/// continuations; so the order of two names is never open.
pub proof fn names_are_sorted_by_first_difference(
    common: Seq<char>,
    a: Seq<char>,
    b: Seq<char>,
)
    ensures
        text_le(common, common + a),
        a.len() > 0 ==> !text_le(common + a, common),
        a.len() > 0 && b.len() > 0 && a[0] < b[0] ==> text_le(common + a, common + b) && !text_le(
            common + b,
            common + a,
        ),
    decreases common.len(),
{
    if common.len() == 0 {
        assert(common + a =~= a);
        assert(common + b =~= b);
    } else {
        let rest = common.skip(1);
        names_are_sorted_by_first_difference(rest, a, b);
        assert((common + a).skip(1) =~= rest + a);
        assert((common + b).skip(1) =~= rest + b);
        assert((common + a)[0] == common[0]);
        assert((common + b)[0] == common[0]);
    }
}

} // verus!
