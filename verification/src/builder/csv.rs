//! Whether the tokenizer can be given a list of words at all.
//!
//! A list has a word in each line: the word, the numbers of its two contexts, its cost, and
//! further fields. The tokenizer refuses most lists that it does not understand, but on one
//! whose text is over right behind the comma after the cost it does not return. This module
//! reads a list as the tokenizer does and tells such lists from the others.

use crate::scan::{parse_number, parsed_number};
use crate::text::chars_of;
use vstd::prelude::*;

verus! {

/// Where in a list the reader is.
#[derive(Clone, Copy, Debug, PartialEq, Eq, Structural)]
pub enum Place {
    /// Before a line.
    LineStart,
    /// Behind a comma.
    FieldStart,
    /// In a field, and not between quotes.
    Plain,
    /// Between quotes.
    Quoted,
    /// Behind a quote that ends the quoted part, unless another follows.
    QuoteEnd,
}

/// What the reader knows: where it is, how many fields of the line it has read, what the
/// field holds so far, how many bytes that takes, and whether it has refused the list.
#[verifier::ext_equal]
pub struct ListModel {
    pub place: Place,
    pub fields: nat,
    pub field: Seq<char>,
    pub bytes: nat,
    pub refused: bool,
}

/// The reader at the beginning.
pub open spec fn list_start() -> ListModel {
    ListModel {
        place: Place::LineStart,
        fields: 0,
        field: Seq::empty(),
        bytes: 0,
        refused: false,
    }
}

/// How many bytes a character takes in UTF-8.
pub open spec fn utf8_size(c: char) -> nat {
    if (c as u32) < 0x80 {
        1
    } else if (c as u32) < 0x800 {
        2
    } else if (c as u32) < 0x10000 {
        3
    } else {
        4
    }
}

/// Whether a text stands for a number of a context.
pub open spec fn is_context(s: Seq<char>) -> bool {
    parsed_number(s) matches Some(n) && n <= 65535
}

/// Whether a text stands for a cost, which may be negative.
pub open spec fn is_cost(s: Seq<char>) -> bool {
    if s.len() > 1 && s[0] == '-' {
        s[1] != '+' && (parsed_number(s.skip(1)) matches Some(n) && n <= 32768)
    } else {
        parsed_number(s) matches Some(n) && n <= 32767
    }
}

/// Whether the field with the number `n`, counted from 0, can hold `s`.
pub open spec fn fits(n: nat, s: Seq<char>) -> bool {
    if n == 1 || n == 2 {
        is_context(s)
    } else if n == 3 {
        is_cost(s)
    } else {
        true
    }
}

/// The list is refused.
pub open spec fn refuse(m: ListModel) -> ListModel {
    ListModel { refused: true, ..m }
}

/// `c` belongs to the field. A field has room for 4096 bytes.
pub open spec fn keep(m: ListModel, c: char, place: Place) -> ListModel {
    if m.bytes + utf8_size(c) > 4096 {
        refuse(m)
    } else {
        ListModel { place, field: m.field.push(c), bytes: m.bytes + utf8_size(c), ..m }
    }
}

/// The field is over, with a comma or with the line. A line has four fields or more.
pub open spec fn close(m: ListModel, line: bool) -> ListModel {
    if !fits(m.fields, m.field) || (line && m.fields < 3) {
        refuse(m)
    } else {
        ListModel {
            place: if line {
                Place::LineStart
            } else {
                Place::FieldStart
            },
            fields: if line {
                0
            } else {
                m.fields + 1
            },
            field: Seq::empty(),
            bytes: 0,
            ..m
        }
    }
}

/// The reader reads `c`.
pub open spec fn list_step(m: ListModel, c: char) -> ListModel {
    let at_break = c == '\r' || c == '\n';
    if m.refused {
        m
    } else if m.bytes >= 4096 {
        refuse(m)
    } else if m.place is Quoted {
        if c == '"' {
            ListModel { place: Place::QuoteEnd, ..m }
        } else {
            keep(m, c, Place::Quoted)
        }
    } else if c == '"' && (m.place is LineStart || m.place is FieldStart) {
        ListModel { place: Place::Quoted, ..m }
    } else if c == '"' && m.place is QuoteEnd {
        keep(m, c, Place::Quoted)
    } else if c == ',' {
        close(m, false)
    } else if at_break && m.place is LineStart {
        m
    } else if at_break {
        close(m, true)
    } else {
        keep(m, c, Place::Plain)
    }
}

/// What the reader knows once it has read `s`.
pub open spec fn list_read(s: Seq<char>) -> ListModel
    decreases s.len(),
{
    if s.len() == 0 {
        list_start()
    } else {
        list_step(list_read(s.drop_last()), s.last())
    }
}

/// A text without the mark of UTF-8 at its beginning.
pub open spec fn without_mark(s: Seq<char>) -> Seq<char> {
    if s.len() > 0 && s[0] == '\u{feff}' {
        s.skip(1)
    } else {
        s
    }
}

/// Whether a list is over right behind the comma after a cost: the one kind of list on which
/// the tokenizer does not return.
pub open spec fn cut_off(list: Seq<char>) -> bool {
    let m = list_read(without_mark(list));
    !m.refused && m.place is FieldStart && m.fields == 4
}

/// A reader of lists.
struct ListReader {
    place: Place,
    fields: usize,
    field: Vec<char>,
    bytes: usize,
    refused: bool,
}

impl View for ListReader {
    type V = ListModel;

    closed spec fn view(&self) -> ListModel {
        ListModel {
            place: self.place,
            fields: self.fields as nat,
            field: self.field@,
            bytes: self.bytes as nat,
            refused: self.refused,
        }
    }
}

fn utf8_bytes(c: char) -> (r: usize)
    ensures
        r == utf8_size(c),
        r <= 4,
{
    let n: u32 = c as u32;
    if n < 0x80 {
        1
    } else if n < 0x800 {
        2
    } else if n < 0x10000 {
        3
    } else {
        4
    }
}

fn field_fits(n: usize, field: &Vec<char>) -> (r: bool)
    ensures
        r == fits(n as nat, field@),
{
    assert(field@.skip(0) =~= field@);
    if n == 1 || n == 2 {
        match parse_number(field, 0) {
            Some(number) => number <= 65535,
            None => false,
        }
    } else if n == 3 {
        if field.len() > 1 && field[0] == '-' {
            if field[1] == '+' {
                return false;
            }
            match parse_number(field, 1) {
                Some(number) => number <= 32768,
                None => false,
            }
        } else {
            match parse_number(field, 0) {
                Some(number) => number <= 32767,
                None => false,
            }
        }
    } else {
        true
    }
}

impl ListReader {
    fn keep(&mut self, c: char, place: Place)
        requires
            old(self).bytes <= 4096,
        ensures
            final(self)@ == keep(old(self)@, c, place),
            final(self).bytes <= 4096,
            final(self).fields == old(self).fields,
    {
        let size = utf8_bytes(c);
        if self.bytes + size > 4096 {
            self.refused = true;
        } else {
            self.place = place;
            self.field.push(c);
            self.bytes = self.bytes + size;
        }
    }

    fn close(&mut self, line: bool)
        requires
            old(self).bytes <= 4096,
            old(self).fields < usize::MAX,
        ensures
            final(self)@ == close(old(self)@, line),
            final(self).bytes <= 4096,
            final(self).fields <= old(self).fields + 1,
    {
        if !field_fits(self.fields, &self.field) || (line && self.fields < 3) {
            self.refused = true;
            return;
        }
        if line {
            self.place = Place::LineStart;
            self.fields = 0;
        } else {
            self.place = Place::FieldStart;
            self.fields = self.fields + 1;
        }
        self.field = Vec::new();
        self.bytes = 0;
    }

    fn step(&mut self, c: char)
        requires
            old(self).bytes <= 4096,
            old(self).fields < usize::MAX,
        ensures
            final(self)@ == list_step(old(self)@, c),
            final(self).bytes <= 4096,
            final(self).fields <= old(self).fields + 1,
    {
        if self.refused {
            return;
        }
        if self.bytes >= 4096 {
            self.refused = true;
            return;
        }
        let at_break = c == '\r' || c == '\n';
        match self.place {
            Place::Quoted => {
                if c == '"' {
                    self.place = Place::QuoteEnd;
                } else {
                    self.keep(c, Place::Quoted);
                }
            },
            Place::LineStart => {
                if c == '"' {
                    self.place = Place::Quoted;
                } else if c == ',' {
                    self.close(false);
                } else if !at_break {
                    self.keep(c, Place::Plain);
                }
            },
            place => {
                if c == '"' && place == Place::FieldStart {
                    self.place = Place::Quoted;
                } else if c == '"' && place == Place::QuoteEnd {
                    self.keep(c, Place::Quoted);
                } else if c == ',' {
                    self.close(false);
                } else if at_break {
                    self.close(true);
                } else {
                    self.keep(c, Place::Plain);
                }
            },
        }
    }
}

/// Whether a list is over right behind the comma after a cost.
pub fn is_cut_off(list: &str) -> (r: bool)
    ensures
        r == cut_off(list@),
{
    let v = chars_of(list);
    let mut start: usize = 0;
    if v.len() > 0 && v[0] == '\u{feff}' {
        start = 1;
    }
    let ghost s = without_mark(list@);
    assert(s =~= v@.skip(start as int));
    let mut reader = ListReader {
        place: Place::LineStart,
        fields: 0,
        field: Vec::new(),
        bytes: 0,
        refused: false,
    };
    let mut i: usize = start;
    assert(s.take(0) =~= Seq::<char>::empty());
    assert(reader@ =~= list_start());
    while i < v.len()
        invariant
            start <= i <= v@.len(),
            s == v@.skip(start as int),
            reader@ == list_read(s.take(i - start)),
            reader.bytes <= 4096,
            reader.fields <= i,
        decreases v.len() - i,
    {
        let c = v[i];
        proof {
            let t = s.take(i - start + 1);
            assert(t.drop_last() =~= s.take(i - start));
            assert(t.last() == c);
        }
        reader.step(c);
        i += 1;
    }
    assert(s.take(i - start) =~= s);
    !reader.refused && reader.place == Place::FieldStart && reader.fields == 4
}

/// Only a list that ends with a comma can be over right behind one.
pub proof fn only_a_comma_cuts_off(list: Seq<char>)
    requires
        cut_off(list),
    ensures
        list.len() > 0,
        list.last() == ',',
{
    let s = without_mark(list);
    lemma_field_starts_behind_comma(s);
}

proof fn lemma_field_starts_behind_comma(s: Seq<char>)
    ensures
        list_read(s).place is FieldStart && !list_read(s).refused ==> s.len() > 0 && s.last()
            == ',',
{
}

/// Whether a character has no meaning of its own in a list.
pub open spec fn is_plain(c: char) -> bool {
    c != ',' && c != '"' && c != '\r' && c != '\n'
}

/// A short text of plain characters.
pub open spec fn is_plain_field(s: Seq<char>) -> bool {
    s.len() < 1000 && forall|k: int| 0 <= k < s.len() ==> is_plain(#[trigger] s[k])
}

proof fn lemma_plain_field(s: Seq<char>, f: Seq<char>)
    requires
        is_plain_field(f),
        ({
            let m = list_read(s);
            !m.refused && m.field.len() == 0 && m.bytes == 0 && (m.place is LineStart
                || m.place is FieldStart)
        }),
    ensures
        ({
            let m = list_read(s);
            let then = list_read(s + f);
            &&& !then.refused
            &&& then.fields == m.fields
            &&& then.field == f
            &&& then.bytes <= 4 * f.len()
            &&& then.place == (if f.len() == 0 {
                m.place
            } else {
                Place::Plain
            })
        }),
    decreases f.len(),
{
    if f.len() == 0 {
        assert(s + f =~= s);
        assert(list_read(s).field =~= f);
    } else {
        let front = f.drop_last();
        assert forall|k: int| 0 <= k < front.len() implies is_plain(#[trigger] front[k]) by {
            assert(front[k] == f[k]);
        }
        lemma_plain_field(s, front);
        assert((s + f).drop_last() =~= s + front);
        assert((s + f).last() == f[f.len() - 1]);
        assert(front.push(f.last()) =~= f);
    }
}

/// A line with a word, two contexts and a cost is cut off right behind the comma after the cost,
/// and not where the comma is missing or a further field follows it.
pub proof fn comma_after_cost_cuts_off(
    word: Seq<char>,
    left: Seq<char>,
    right: Seq<char>,
    cost: Seq<char>,
    more: Seq<char>,
)
    requires
        is_plain_field(word) && is_plain_field(left) && is_plain_field(right)
            && is_plain_field(cost) && is_plain_field(more),
        is_context(left),
        is_context(right),
        is_cost(cost),
        word.len() > 0,
        word[0] != '\u{feff}',
        more.len() > 0,
    ensures
        ({
            let line = word.push(',') + left.push(',') + right.push(',') + cost;
            &&& cut_off(line.push(','))
            &&& !cut_off(line)
            &&& !cut_off(line.push(',') + more)
        }),
{
    let e = Seq::<char>::empty();
    lemma_plain_field(e, word);
    assert(e + word =~= word);
    let s1 = word.push(',');
    assert(s1.drop_last() =~= word);
    lemma_plain_field(s1, left);
    let s2 = s1 + left.push(',');
    assert(s2.drop_last() =~= s1 + left);
    lemma_plain_field(s2, right);
    let s3 = s2 + right.push(',');
    assert(s3.drop_last() =~= s2 + right);
    lemma_plain_field(s3, cost);
    let line = s3 + cost;
    let s4 = line.push(',');
    assert(s4.drop_last() =~= line);
    lemma_plain_field(s4, more);
    assert(line[0] == word[0] && s4[0] == word[0] && (s4 + more)[0] == word[0]);
    if cost.len() == 0 {
        assert(!is_cost(cost));
    }
}

} // verus!
