//! Applications that the user has singled out by the names of their programs.

use crate::engine::config::InputConfig;
use crate::engine::conversion::views;
use crate::engine::lifecycle::lower;
use crate::text::chars_of;
use vstd::prelude::*;

verus! {

/// A name without regard to upper and lower case of the letters of the alphabet.
pub open spec fn folded(name: Seq<char>) -> Seq<char> {
    name.map_values(|c: char| lower(c))
}

/// Whether a program is in a list.
pub open spec fn is_listed(exe: Seq<char>, apps: Seq<Seq<char>>) -> bool {
    exists|i: int| 0 <= i < apps.len() && folded(exe) == folded(#[trigger] apps[i])
}

fn lower_char(c: char) -> (r: u32)
    ensures
        r == lower(c) as u32,
{
    if 'A' <= c && c <= 'Z' {
        c as u32 + 32
    } else {
        c as u32
    }
}

/// Whether two programs have the same name, whatever the case of its letters.
pub fn same_app(a: &str, b: &str) -> (r: bool)
    ensures
        r == (folded(a@) == folded(b@)),
{
    let v = chars_of(a);
    let w = chars_of(b);
    if v.len() != w.len() {
        assert(folded(a@).len() != folded(b@).len());
        return false;
    }
    let mut i: usize = 0;
    while i < v.len()
        invariant
            v@ == a@,
            w@ == b@,
            v@.len() == w@.len(),
            i <= v@.len(),
            forall|k: int| 0 <= k < i ==> lower(#[trigger] v@[k]) == lower(w@[k]),
        decreases v.len() - i,
    {
        if lower_char(v[i]) != lower_char(w[i]) {
            assert(folded(a@)[i as int] == lower(v@[i as int]));
            assert(folded(b@)[i as int] == lower(w@[i as int]));
            return false;
        }
        i += 1;
    }
    assert(folded(a@) =~= folded(b@));
    true
}

/// Whether a program is in a list, whatever the case of the letters of its name.
pub fn is_listed_app(exe: &str, apps: &Vec<String>) -> (r: bool)
    ensures
        r == is_listed(exe@, views(apps@)),
{
    let ghost names = views(apps@);
    let mut i: usize = 0;
    while i < apps.len()
        invariant
            i <= apps@.len(),
            names == views(apps@),
            forall|k: int| 0 <= k < i ==> folded(exe@) != folded(#[trigger] names[k]),
        decreases apps.len() - i,
    {
        assert(names[i as int] == apps@[i as int]@);
        if same_app(exe, apps[i].as_str()) {
            return true;
        }
        i += 1;
    }
    false
}

/// How an application is treated.
#[derive(Clone, Copy, Debug, PartialEq, Eq, Structural)]
pub struct AppRules {
    /// It starts with letters whenever it becomes active.
    pub off: bool,
    /// It is switched to kana, once after it has become active, where something else than
    /// its main document is typed into.
    pub on: bool,
}

/// How the program `exe` is treated. The two lists of the settings alone decide.
pub fn app_rules(exe: &str, input: &InputConfig) -> (r: AppRules)
    ensures
        r == (AppRules {
            off: is_listed(exe@, views(input.ime_off_apps@)),
            on: is_listed(exe@, views(input.ime_on_apps@)),
        }),
{
    AppRules {
        off: is_listed_app(exe, &input.ime_off_apps),
        on: is_listed_app(exe, &input.ime_on_apps),
    }
}

/// Upper and lower case do not matter, neither in the name of a program nor in a list.
pub proof fn case_does_not_matter(a: Seq<char>, b: Seq<char>, apps: Seq<Seq<char>>)
    requires
        folded(a) == folded(b),
    ensures
        is_listed(a, apps) == is_listed(b, apps),
        apps.contains(b) ==> is_listed(a, apps),
{
    if apps.contains(b) {
        let i = choose|i: int| 0 <= i < apps.len() && apps[i] == b;
        assert(folded(a) == folded(apps[i]));
    }
}

/// A list without entries singles out no program.
pub proof fn empty_list_does_nothing(exe: Seq<char>)
    ensures
        !is_listed(exe, Seq::empty()),
{
}

/// A program is singled out by its whole name: every letter counts, only its case does not.
pub proof fn whole_name_counts(exe: Seq<char>, app: Seq<char>)
    ensures
        is_listed(exe, seq![app]) <==> exe.len() == app.len() && forall|i: int|
            0 <= i < exe.len() ==> lower(#[trigger] exe[i]) == lower(app[i]),
{
    let apps = seq![app];
    assert(apps[0] == app);
    assert(folded(exe).len() == exe.len() && folded(app).len() == app.len());
    if folded(exe) == folded(app) {
        assert forall|i: int| 0 <= i < exe.len() implies lower(#[trigger] exe[i]) == lower(
            app[i],
        ) by {
            assert(folded(exe)[i] == folded(app)[i]);
        }
    }
    if exe.len() == app.len() && (forall|i: int|
        0 <= i < exe.len() ==> lower(#[trigger] exe[i]) == lower(app[i])) {
        assert(folded(exe) =~= folded(app));
    }
}

/// A program is in a list where it is in one of its parts.
pub proof fn lists_go_by_entries(exe: Seq<char>, a: Seq<Seq<char>>, b: Seq<Seq<char>>)
    ensures
        is_listed(exe, a + b) <==> is_listed(exe, a) || is_listed(exe, b),
{
    if is_listed(exe, a) {
        let i = choose|i: int| 0 <= i < a.len() && folded(exe) == folded(#[trigger] a[i]);
        assert((a + b)[i] == a[i]);
    }
    if is_listed(exe, b) {
        let i = choose|i: int| 0 <= i < b.len() && folded(exe) == folded(#[trigger] b[i]);
        assert((a + b)[a.len() + i] == b[i]);
    }
}

} // verus!
