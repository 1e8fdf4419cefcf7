//! Clearing away the logs of runs that are over.
//!
//! All logs together may take up so much space. Where they take up more, the logs of the
//! run that started first go, then those of the next, until they do not. A run that goes on
//! keeps its logs, which its lock shows; so does one of which that cannot be told, and the
//! run that clears away itself.

use crate::logfile::names::{
    instance_stem_of, name_has_one_run, names_log_of, started_at, startup_id_of,
};
use crate::text::same;
use vstd::prelude::*;

verus! {

/// How much space the logs may take up. Logs of runs that go on can make it more.
pub const LOG_TOTAL_BUDGET_BYTES: u64 = 268_435_456;

/// A file in the directory of the logs.
#[derive(Debug, PartialEq)]
pub struct LogEntry {
    pub name: String,
    pub len: u64,
}

#[verifier::ext_equal]
pub struct EntryModel {
    pub name: Seq<char>,
    pub len: u64,
}

impl View for LogEntry {
    type V = EntryModel;

    open spec fn view(&self) -> EntryModel {
        EntryModel { name: self.name@, len: self.len }
    }
}

/// The files that a list holds.
pub open spec fn entries_of(list: Seq<LogEntry>) -> Seq<EntryModel> {
    list.map_values(|e: LogEntry| e@)
}

/// The run that a file belongs to.
pub open spec fn run_of(name: Seq<char>) -> Option<Seq<char>> {
    if exists|stem: Seq<char>| names_log_of(name, stem) {
        Some(choose|stem: Seq<char>| names_log_of(name, stem))
    } else {
        None
    }
}

fn stem_in(name: &str) -> (r: Option<String>)
    ensures
        match r {
            Some(stem) => run_of(name@) == Some(stem@),
            None => run_of(name@) is None,
        },
{
    let r = instance_stem_of(name);
    proof {
        if r is Some {
            let picked = choose|stem: Seq<char>| names_log_of(name@, stem);
            assert(names_log_of(name@, r->0@));
            name_has_one_run(name@, r->0@, picked);
        }
    }
    r
}

/// `a + b`, or the largest number where that is too large.
pub open spec fn capped(a: u64, b: u64) -> u64 {
    if a + b > u64::MAX {
        u64::MAX
    } else {
        (a + b) as u64
    }
}

/// How much space the logs take up.
pub open spec fn total_of(entries: Seq<EntryModel>) -> u64
    decreases entries.len(),
{
    if entries.len() == 0 {
        0
    } else {
        let before = total_of(entries.drop_last());
        if run_of(entries.last().name) is Some {
            capped(before, entries.last().len)
        } else {
            before
        }
    }
}

/// How much space the logs of a run take up.
pub open spec fn bytes_of(entries: Seq<EntryModel>, stem: Seq<char>) -> u64
    decreases entries.len(),
{
    if entries.len() == 0 {
        0
    } else {
        let before = bytes_of(entries.drop_last(), stem);
        if run_of(entries.last().name) == Some(stem) {
            capped(before, entries.last().len)
        } else {
            before
        }
    }
}

/// The places of the logs of a run.
pub open spec fn files_of(entries: Seq<EntryModel>, stem: Seq<char>) -> Seq<usize>
    decreases entries.len(),
{
    if entries.len() == 0 {
        Seq::empty()
    } else {
        let before = files_of(entries.drop_last(), stem);
        if run_of(entries.last().name) == Some(stem) {
            before.push((entries.len() - 1) as usize)
        } else {
            before
        }
    }
}

/// The logs of a run.
#[derive(Debug, PartialEq)]
pub struct LogInstance {
    pub stem: String,
    /// When the run started.
    pub startup_id: u128,
    pub bytes: u64,
    /// The places of its logs in the list of files.
    pub files: Vec<usize>,
}

#[verifier::ext_equal]
pub struct InstanceModel {
    pub stem: Seq<char>,
    pub startup_id: u128,
    pub bytes: u64,
    pub files: Seq<usize>,
}

impl View for LogInstance {
    type V = InstanceModel;

    open spec fn view(&self) -> InstanceModel {
        InstanceModel {
            stem: self.stem@,
            startup_id: self.startup_id,
            bytes: self.bytes,
            files: self.files@,
        }
    }
}

/// The runs that a list holds.
pub open spec fn runs_of(list: Seq<LogInstance>) -> Seq<InstanceModel> {
    list.map_values(|e: LogInstance| e@)
}

/// What is known of a run.
pub open spec fn instance_of(entries: Seq<EntryModel>, stem: Seq<char>) -> InstanceModel {
    InstanceModel {
        stem,
        startup_id: started_at(stem),
        bytes: bytes_of(entries, stem),
        files: files_of(entries, stem),
    }
}

/// Whether a run has logs among the files.
pub open spec fn has_run(entries: Seq<EntryModel>, stem: Seq<char>) -> bool {
    exists|k: int|
        0 <= k < entries.len() && run_of((#[trigger] entries[k]).name) == Some(stem)
}

/// Whether `runs` are all runs among the files but `own`, each once, those that started
/// first before the others.
pub open spec fn lists_runs(
    entries: Seq<EntryModel>,
    own: Seq<char>,
    runs: Seq<InstanceModel>,
) -> bool {
    &&& forall|i: int|
        0 <= i < runs.len() ==> #[trigger] runs[i] == instance_of(entries, runs[i].stem)
    &&& forall|i: int|
        0 <= i < runs.len() ==> (#[trigger] runs[i]).stem != own && has_run(entries, runs[i].stem)
    &&& forall|i: int, j: int|
        0 <= i < j < runs.len() ==> (#[trigger] runs[i]).stem != (#[trigger] runs[j]).stem
            && runs[i].startup_id <= runs[j].startup_id
    &&& forall|stem: Seq<char>| #[trigger]
        has_run(entries, stem) && stem != own ==> exists|i: int|
            0 <= i < runs.len() && (#[trigger] runs[i]).stem == stem
}

proof fn lemma_other_file(entries: Seq<EntryModel>, e: EntryModel, stem: Seq<char>)
    ensures
        run_of(e.name) != Some(stem) ==> instance_of(entries.push(e), stem) == instance_of(
            entries,
            stem,
        ),
        run_of(e.name) != Some(stem) ==> has_run(entries.push(e), stem) == has_run(entries, stem),
        run_of(e.name) == Some(stem) ==> has_run(entries.push(e), stem),
        run_of(e.name) == Some(stem) ==> instance_of(entries.push(e), stem) == (InstanceModel {
            bytes: capped(bytes_of(entries, stem), e.len),
            files: files_of(entries, stem).push(entries.len() as usize),
            ..instance_of(entries, stem)
        }),
{
    let all = entries.push(e);
    assert(all.drop_last() =~= entries);
    assert(all.last() == e);
    if has_run(entries, stem) {
        let k = choose|k: int|
            0 <= k < entries.len() && run_of((#[trigger] entries[k]).name) == Some(stem);
        assert(all[k] == entries[k]);
    }
    if run_of(e.name) == Some(stem) {
        assert(all[entries.len() as int].name == e.name);
    } else if has_run(all, stem) {
        let k = choose|k: int|
            0 <= k < all.len() && run_of((#[trigger] all[k]).name) == Some(stem);
        assert(all[k] == entries[k]);
    }
}

proof fn lemma_no_run(entries: Seq<EntryModel>, stem: Seq<char>)
    requires
        !has_run(entries, stem),
    ensures
        bytes_of(entries, stem) == 0,
        files_of(entries, stem) == Seq::<usize>::empty(),
    decreases entries.len(),
{
    if entries.len() > 0 {
        assert(entries[entries.len() - 1] == entries.last());
        let before = entries.drop_last();
        if has_run(before, stem) {
            let k = choose|k: int|
                0 <= k < before.len() && run_of((#[trigger] before[k]).name) == Some(stem);
            assert(entries[k] == before[k]);
        }
        lemma_no_run(before, stem);
    }
}

/// A file that is nobody's log, or the log of `own`, changes nothing.
proof fn lemma_ignored(
    entries: Seq<EntryModel>,
    e: EntryModel,
    own: Seq<char>,
    runs: Seq<InstanceModel>,
)
    requires
        lists_runs(entries, own, runs),
        run_of(e.name) is None || run_of(e.name) == Some(own),
    ensures
        lists_runs(entries.push(e), own, runs),
{
    let all = entries.push(e);
    assert forall|i: int| 0 <= i < runs.len() implies #[trigger] runs[i] == instance_of(
        all,
        runs[i].stem,
    ) by {
        lemma_other_file(entries, e, runs[i].stem);
    }
    assert forall|i: int| 0 <= i < runs.len() implies (#[trigger] runs[i]).stem != own && has_run(
        all,
        runs[i].stem,
    ) by {
        lemma_other_file(entries, e, runs[i].stem);
    }
    assert forall|stem: Seq<char>| #[trigger] has_run(all, stem) && stem != own implies exists|
        i: int,
    |
        0 <= i < runs.len() && (#[trigger] runs[i]).stem == stem by {
        lemma_other_file(entries, e, stem);
    }
}

/// A further log of a run that is listed.
proof fn lemma_known(
    entries: Seq<EntryModel>,
    e: EntryModel,
    own: Seq<char>,
    runs: Seq<InstanceModel>,
    at: int,
)
    requires
        lists_runs(entries, own, runs),
        0 <= at < runs.len(),
        run_of(e.name) == Some(runs[at].stem),
    ensures
        lists_runs(
            entries.push(e),
            own,
            runs.update(at, instance_of(entries.push(e), runs[at].stem)),
        ),
{
    let all = entries.push(e);
    let stem = runs[at].stem;
    let after = runs.update(at, instance_of(all, stem));
    assert forall|i: int| 0 <= i < after.len() implies #[trigger] after[i] == instance_of(
        all,
        after[i].stem,
    ) && after[i].stem == runs[i].stem && after[i].startup_id == runs[i].startup_id by {
        lemma_other_file(entries, e, runs[i].stem);
        assert(runs[i] == instance_of(entries, runs[i].stem));
    }
    assert forall|i: int| 0 <= i < after.len() implies (#[trigger] after[i]).stem != own && has_run(
        all,
        after[i].stem,
    ) by {
        lemma_other_file(entries, e, runs[i].stem);
        assert(runs[i].stem != own && has_run(entries, runs[i].stem));
    }
    assert forall|i: int, j: int| 0 <= i < j < after.len() implies (#[trigger] after[i]).stem != (
    #[trigger] after[j]).stem && after[i].startup_id <= after[j].startup_id by {
        assert(runs[i].stem != runs[j].stem && runs[i].startup_id <= runs[j].startup_id);
    }
    assert forall|s: Seq<char>| #[trigger] has_run(all, s) && s != own implies exists|i: int|
        0 <= i < after.len() && (#[trigger] after[i]).stem == s by {
        lemma_other_file(entries, e, s);
        if s == stem {
            assert(after[at].stem == s);
        } else {
            assert(has_run(entries, s));
            let i = choose|i: int| 0 <= i < runs.len() && (#[trigger] runs[i]).stem == s;
            assert(after[i].stem == s);
        }
    }
}

/// The first log of a run that is not listed, put where its start belongs.
proof fn lemma_fresh(
    entries: Seq<EntryModel>,
    e: EntryModel,
    own: Seq<char>,
    runs: Seq<InstanceModel>,
    at: int,
    stem: Seq<char>,
)
    requires
        lists_runs(entries, own, runs),
        0 <= at <= runs.len(),
        run_of(e.name) == Some(stem),
        stem != own,
        forall|i: int| 0 <= i < runs.len() ==> (#[trigger] runs[i]).stem != stem,
        forall|i: int| 0 <= i < at ==> (#[trigger] runs[i]).startup_id <= started_at(stem),
        forall|i: int| at <= i < runs.len() ==> (#[trigger] runs[i]).startup_id >= started_at(stem),
    ensures
        lists_runs(
            entries.push(e),
            own,
            runs.insert(at, instance_of(entries.push(e), stem)),
        ),
        bytes_of(entries, stem) == 0,
        files_of(entries, stem) == Seq::<usize>::empty(),
{
    let all = entries.push(e);
    let fresh = instance_of(all, stem);
    let after = runs.insert(at, fresh);
    if has_run(entries, stem) {
        let i = choose|i: int| 0 <= i < runs.len() && (#[trigger] runs[i]).stem == stem;
        assert(false);
    }
    lemma_no_run(entries, stem);
    assert forall|i: int| 0 <= i < after.len() implies #[trigger] after[i] == instance_of(
        all,
        after[i].stem,
    ) && after[i].stem != own && has_run(all, after[i].stem) && (i == at || after[i].stem != stem) by {
        lemma_other_file(entries, e, stem);
        if i != at {
            let k = if i < at {
                i
            } else {
                i - 1
            };
            assert(after[i] == runs[k]);
            lemma_other_file(entries, e, runs[k].stem);
            assert(runs[k] == instance_of(entries, runs[k].stem));
            assert(runs[k].stem != own && has_run(entries, runs[k].stem));
        } else {
            assert(after[i] == fresh);
        }
    }
    assert forall|i: int, j: int| 0 <= i < j < after.len() implies (#[trigger] after[i]).stem != (
    #[trigger] after[j]).stem && after[i].startup_id <= after[j].startup_id by {
        let ki = if i < at {
            i
        } else {
            i - 1
        };
        let kj = if j < at {
            j
        } else {
            j - 1
        };
        if i != at {
            assert(after[i] == runs[ki]);
        }
        if j != at {
            assert(after[j] == runs[kj]);
        }
        if i != at && j != at {
            assert(runs[ki].stem != runs[kj].stem && runs[ki].startup_id <= runs[kj].startup_id);
        }
    }
    assert forall|s: Seq<char>| #[trigger] has_run(all, s) && s != own implies exists|i: int|
        0 <= i < after.len() && (#[trigger] after[i]).stem == s by {
        lemma_other_file(entries, e, s);
        if s == stem {
            assert(after[at].stem == s);
        } else {
            assert(has_run(entries, s));
            let k = choose|i: int| 0 <= i < runs.len() && (#[trigger] runs[i]).stem == s;
            let i = if k < at {
                k
            } else {
                k + 1
            };
            assert(after[i] == runs[k]);
        }
    }
}

/// The logs that may have to go, in the order in which they do.
pub struct CleanupRun {
    total: u64,
    budget: u64,
    victims: Vec<LogInstance>,
    next: usize,
}

#[verifier::ext_equal]
pub struct CleanupModel {
    /// How much space the logs take up.
    pub total: u64,
    pub budget: u64,
    pub victims: Seq<InstanceModel>,
    /// The run whose turn it is.
    pub next: nat,
}

impl View for CleanupRun {
    type V = CleanupModel;

    closed spec fn view(&self) -> CleanupModel {
        CleanupModel {
            total: self.total,
            budget: self.budget,
            victims: runs_of(self.victims@),
            next: self.next as nat,
        }
    }
}

/// One file that was to be removed.
#[derive(Clone, Copy, Debug, PartialEq, Eq, Structural)]
pub struct Removal {
    pub len: u64,
    pub ok: bool,
}

/// How much space was gained.
pub open spec fn gained(removals: Seq<Removal>) -> u64
    decreases removals.len(),
{
    if removals.len() == 0 {
        0
    } else {
        let before = gained(removals.drop_last());
        if removals.last().ok {
            capped(before, removals.last().len)
        } else {
            before
        }
    }
}

/// Whether all files went.
pub open spec fn all_gone(removals: Seq<Removal>) -> bool {
    forall|k: int| 0 <= k < removals.len() ==> (#[trigger] removals[k]).ok
}

impl CleanupRun {
    /// No run beyond the last has its turn.
    pub closed spec fn wf(&self) -> bool {
        self.next <= self.victims@.len()
    }

    /// Looks through the files of the directory for logs.
    pub fn plan(entries: &Vec<LogEntry>, own_stem: &str, budget: u64) -> (r: CleanupRun)
        ensures
            r.wf(),
            r@.total == total_of(entries_of(entries@)),
            r@.budget == budget,
            r@.next == 0,
            lists_runs(entries_of(entries@), own_stem@, r@.victims),
    {
        let mut total: u64 = 0;
        let mut victims: Vec<LogInstance> = Vec::new();
        let ghost all = entries_of(entries@);
        let mut k: usize = 0;
        assert(runs_of(victims@) =~= Seq::<InstanceModel>::empty());
        assert(all.take(0) =~= Seq::<EntryModel>::empty());
        while k < entries.len()
            invariant
                k <= entries@.len(),
                all == entries_of(entries@),
                total == total_of(all.take(k as int)),
                lists_runs(all.take(k as int), own_stem@, runs_of(victims@)),
            decreases entries.len() - k,
        {
            let ghost seen = all.take(k as int);
            let ghost e = all[k as int];
            proof {
                assert(all.take(k + 1) =~= seen.push(e));
                assert(seen.push(e).drop_last() =~= seen);
                assert(seen.len() == k);
            }
            let len: u64 = entries[k].len;
            match stem_in(entries[k].name.as_str()) {
                None => {
                    proof {
                        lemma_ignored(seen, e, own_stem@, runs_of(victims@));
                    }
                },
                Some(stem) => {
                    total = total.saturating_add(len);
                    if same(stem.as_str(), own_stem) {
                        proof {
                            lemma_ignored(seen, e, own_stem@, runs_of(victims@));
                        }
                    } else {
                        note_log(
                            &mut victims,
                            stem,
                            k,
                            len,
                            Ghost(seen),
                            Ghost(e),
                            Ghost(own_stem@),
                        );
                    }
                },
            }
            k += 1;
        }
        assert(all.take(k as int) =~= all);
        CleanupRun { total, budget, victims, next: 0 }
    }

    /// The run whose logs go next, if any have to.
    pub fn next_victim(&self) -> (r: Option<&LogInstance>)
        requires
            self.wf(),
        ensures
            r is Some <==> self@.total > self@.budget && self@.next < self@.victims.len(),
            r is Some ==> r->0@ == self@.victims[self@.next as int],
    {
        if self.total <= self.budget || self.next >= self.victims.len() {
            return None;
        }
        Some(&self.victims[self.next])
    }

    /// Its lock was not to be had: the run goes on, or that cannot be told.
    pub fn keep(&mut self)
        requires
            old(self).wf(),
            old(self)@.next < old(self)@.victims.len(),
        ensures
            final(self).wf(),
            final(self)@ == (CleanupModel { next: old(self)@.next + 1, ..old(self)@ }),
    {
        assert(self.next < self.victims.len());
        self.next = self.next + 1;
    }

    /// Its logs were removed, or that was tried. Says whether the file with the lock is to be
    /// removed as well: as long as a log is left the lock is needed to find it again.
    pub fn removed(&mut self, removals: &Vec<Removal>) -> (r: bool)
        requires
            old(self).wf(),
            old(self)@.next < old(self)@.victims.len(),
        ensures
            final(self).wf(),
            final(self)@ == (CleanupModel {
                total: if old(self)@.total >= gained(removals@) {
                    (old(self)@.total - gained(removals@)) as u64
                } else {
                    0
                },
                next: old(self)@.next + 1,
                ..old(self)@
            }),
            r == all_gone(removals@),
    {
        let mut gain: u64 = 0;
        let mut all_removed = true;
        let mut i: usize = 0;
        assert(removals@.take(0) =~= Seq::<Removal>::empty());
        while i < removals.len()
            invariant
                i <= removals@.len(),
                gain == gained(removals@.take(i as int)),
                all_removed == all_gone(removals@.take(i as int)),
            decreases removals.len() - i,
        {
            let one = removals[i];
            proof {
                let next = removals@.take(i + 1);
                assert(next.drop_last() =~= removals@.take(i as int));
                assert(next.last() == one);
                assert(next[i as int] == one);
                if all_gone(removals@.take(i as int)) && one.ok {
                    assert forall|k: int| 0 <= k < next.len() implies (#[trigger] next[k]).ok by {
                        if k < i {
                            assert(removals@.take(i as int)[k].ok);
                        }
                    }
                }
                if all_gone(next) {
                    assert forall|k: int| 0 <= k < i implies (#[trigger] removals@.take(
                        i as int,
                    )[k]).ok by {
                        assert(next[k].ok);
                    }
                }
            }
            if one.ok {
                gain = gain.saturating_add(one.len);
            } else {
                all_removed = false;
            }
            i += 1;
        }
        assert(removals@.take(i as int) =~= removals@);
        self.total = self.total.saturating_sub(gain);
        assert(self.next < self.victims.len());
        self.next = self.next + 1;
        all_removed
    }
}

/// Notes a log of a run.
fn note_log(
    victims: &mut Vec<LogInstance>,
    stem: String,
    place: usize,
    len: u64,
    Ghost(seen): Ghost<Seq<EntryModel>>,
    Ghost(e): Ghost<EntryModel>,
    Ghost(own): Ghost<Seq<char>>,
)
    requires
        lists_runs(seen, own, runs_of(old(victims)@)),
        run_of(e.name) == Some(stem@),
        e.len == len,
        seen.len() == place,
        stem@ != own,
    ensures
        lists_runs(seen.push(e), own, runs_of(final(victims)@)),
{
    let ghost runs = runs_of(victims@);
    let mut i: usize = 0;
    while i < victims.len()
        invariant
            i <= victims@.len(),
            runs == runs_of(victims@),
            victims@ == old(victims)@,
            lists_runs(seen, own, runs),
            run_of(e.name) == Some(stem@),
            e.len == len,
            seen.len() == place,
            forall|j: int| 0 <= j < i ==> (#[trigger] runs[j]).stem != stem@,
        decreases victims.len() - i,
    {
        if same(victims[i].stem.as_str(), stem.as_str()) {
            let mut run = victims.remove(i);
            proof {
                assert(run@ == runs[i as int]);
                assert(runs[i as int] == instance_of(seen, runs[i as int].stem));
                lemma_other_file(seen, e, stem@);
                lemma_known(seen, e, own, runs, i as int);
            }
            run.bytes = run.bytes.saturating_add(len);
            run.files.push(place);
            assert(run@ == instance_of(seen.push(e), stem@));
            victims.insert(i, run);
            assert(runs_of(victims@) =~= runs.update(i as int, run@));
            return;
        }
        assert(runs[i as int].stem == victims@[i as int].stem@);
        i += 1;
    }
    let startup_id = startup_id_of(stem.as_str());
    let mut at: usize = 0;
    while at < victims.len() && victims[at].startup_id <= startup_id
        invariant
            at <= victims@.len(),
            runs == runs_of(victims@),
            forall|j: int| 0 <= j < at ==> (#[trigger] runs[j]).startup_id <= startup_id,
        decreases victims.len() - at,
    {
        assert(runs[at as int].startup_id == victims@[at as int].startup_id);
        at += 1;
    }
    let mut files: Vec<usize> = Vec::new();
    files.push(place);
    let ghost stem_chars = stem@;
    let run = LogInstance { stem, startup_id, bytes: len, files };
    proof {
        if at < runs.len() {
            assert(runs[at as int].startup_id == victims@[at as int].startup_id);
        }
        assert forall|j: int| at <= j < runs.len() implies (#[trigger] runs[j]).startup_id
            >= startup_id by {
            if j > at {
                assert(runs[at as int].startup_id <= runs[j].startup_id);
            }
        }
        lemma_fresh(seen, e, own, runs, at as int, stem_chars);
        lemma_other_file(seen, e, stem_chars);
        assert(run@.files =~= instance_of(seen.push(e), stem_chars).files);
        assert(run@ == instance_of(seen.push(e), stem_chars));
    }
    victims.insert(at, run);
    assert(runs_of(victims@) =~= runs.insert(at as int, run@));
}

/// Looks through the files of the directory for logs that have to go.
pub fn cleanup_logs(entries: &Vec<LogEntry>, own_stem: &str) -> (r: CleanupRun)
    ensures
        r.wf(),
        r@.total == total_of(entries_of(entries@)),
        r@.budget == LOG_TOTAL_BUDGET_BYTES,
        r@.next == 0,
        lists_runs(entries_of(entries@), own_stem@, r@.victims),
{
    cleanup_logs_with_budget(entries, own_stem, LOG_TOTAL_BUDGET_BYTES)
}

/// Looks through the files of the directory for logs that have to go.
pub fn cleanup_logs_with_budget(
    entries: &Vec<LogEntry>,
    own_stem: &str,
    budget: u64,
) -> (r: CleanupRun)
    ensures
        r.wf(),
        r@.total == total_of(entries_of(entries@)),
        r@.budget == budget,
        r@.next == 0,
        lists_runs(entries_of(entries@), own_stem@, r@.victims),
{
    CleanupRun::plan(entries, own_stem, budget)
}

/// Only files that carry the name of a log of another run are ever removed.
pub proof fn only_logs_of_others_go(
    entries: Seq<EntryModel>,
    own: Seq<char>,
    runs: Seq<InstanceModel>,
    i: int,
    k: int,
)
    requires
        lists_runs(entries, own, runs),
        0 <= i < runs.len(),
        0 <= k < runs[i].files.len(),
        entries.len() <= usize::MAX,
    ensures
        runs[i].files[k] < entries.len(),
        run_of(entries[runs[i].files[k] as int].name) == Some(runs[i].stem),
        names_log_of(entries[runs[i].files[k] as int].name, runs[i].stem),
        runs[i].stem != own,
{
    assert(runs[i] == instance_of(entries, runs[i].stem));
    lemma_files_belong(entries, runs[i].stem, k);
    let name = entries[runs[i].files[k] as int].name;
    let picked = choose|stem: Seq<char>| names_log_of(name, stem);
    assert(names_log_of(name, picked));
}

proof fn lemma_files_belong(entries: Seq<EntryModel>, stem: Seq<char>, k: int)
    requires
        0 <= k < files_of(entries, stem).len(),
        entries.len() <= usize::MAX,
    ensures
        files_of(entries, stem)[k] < entries.len(),
        run_of(entries[files_of(entries, stem)[k] as int].name) == Some(stem),
    decreases entries.len(),
{
    if entries.len() > 0 {
        let before = entries.drop_last();
        if k < files_of(before, stem).len() {
            lemma_files_belong(before, stem, k);
            assert(files_of(entries, stem)[k] == files_of(before, stem)[k]);
            let f = files_of(before, stem)[k] as int;
            assert(before[f] == entries[f]);
        } else {
            assert(entries[entries.len() - 1] == entries.last());
        }
    }
}

/// The space that lists of files take up together is the sum for both, of all logs, of the logs
/// of one run, and of what was removed; only logs count.
pub proof fn space_adds_up(a: Seq<EntryModel>, b: Seq<EntryModel>, e: EntryModel, stem: Seq<char>)
    ensures
        total_of(a + b) == (if total_of(a) + total_of(b) <= u64::MAX {
            (total_of(a) + total_of(b)) as u64
        } else {
            u64::MAX
        }),
        bytes_of(a + b, stem) == (if bytes_of(a, stem) + bytes_of(b, stem) <= u64::MAX {
            (bytes_of(a, stem) + bytes_of(b, stem)) as u64
        } else {
            u64::MAX
        }),
        total_of(seq![e]) == (if run_of(e.name) is Some {
            e.len
        } else {
            0
        }),
        bytes_of(seq![e], stem) == (if run_of(e.name) == Some(stem) {
            e.len
        } else {
            0
        }),
        bytes_of(a, stem) <= total_of(a),
    decreases a.len() + b.len(),
{
    reveal_with_fuel(total_of, 2);
    reveal_with_fuel(bytes_of, 2);
    assert(seq![e].drop_last() =~= Seq::<EntryModel>::empty());
    if b.len() == 0 {
        assert(a + b =~= a);
        if a.len() > 0 {
            space_adds_up(a.drop_last(), Seq::empty(), e, stem);
        }
    } else {
        space_adds_up(a, b.drop_last(), e, stem);
        assert((a + b).drop_last() =~= a + b.drop_last());
    }
}

/// What is gained by removing files is the sum of the sizes of those that went.
pub proof fn removals_add_up(a: Seq<Removal>, b: Seq<Removal>, r: Removal)
    ensures
        gained(a + b) == (if gained(a) + gained(b) <= u64::MAX {
            (gained(a) + gained(b)) as u64
        } else {
            u64::MAX
        }),
        gained(seq![r]) == (if r.ok {
            r.len
        } else {
            0
        }),
        all_gone(a + b) <==> all_gone(a) && all_gone(b),
        all_gone(seq![r]) <==> r.ok,
    decreases b.len(),
{
    reveal_with_fuel(gained, 2);
    assert(seq![r].drop_last() =~= Seq::<Removal>::empty());
    assert(seq![r][0] == r);
    if b.len() == 0 {
        assert(a + b =~= a);
    } else {
        removals_add_up(a, b.drop_last(), r);
        assert((a + b).drop_last() =~= a + b.drop_last());
    }
    if all_gone(a + b) {
        assert forall|k: int| 0 <= k < a.len() implies (#[trigger] a[k]).ok by {
            assert((a + b)[k] == a[k]);
        }
        assert forall|k: int| 0 <= k < b.len() implies (#[trigger] b[k]).ok by {
            assert((a + b)[a.len() + k] == b[k]);
        }
    }
}

/// Every log of a run is among its files, each once, in the order of the directory.
pub proof fn all_logs_of_a_run_are_listed(entries: Seq<EntryModel>, stem: Seq<char>, i: int)
    requires
        entries.len() <= usize::MAX,
        0 <= i < entries.len(),
    ensures
        run_of(entries[i].name) == Some(stem) <==> files_of(entries, stem).contains(i as usize),
        forall|a: int, b: int|
            0 <= a < b < files_of(entries, stem).len() ==> (#[trigger] files_of(
                entries,
                stem,
            )[a]) < (#[trigger] files_of(entries, stem)[b]),
    decreases entries.len(),
{
    let front = entries.drop_last();
    let files = files_of(entries, stem);
    let before = files_of(front, stem);
    let last = (entries.len() - 1) as usize;
    assert forall|k: int| 0 <= k < before.len() implies (#[trigger] before[k]) < last by {
        lemma_files_belong(front, stem, k);
    }
    if front.len() > 0 {
        let j: int = if i < front.len() {
            i
        } else {
            0
        };
        all_logs_of_a_run_are_listed(front, stem, j);
    }
    if i < front.len() {
        assert(front[i] == entries[i]);
        if before.contains(i as usize) {
            let k = choose|k: int| 0 <= k < before.len() && before[k] == i as usize;
            assert(files[k] == i as usize);
        }
        if files.contains(i as usize) {
            let k = choose|k: int| 0 <= k < files.len() && files[k] == i as usize;
            assert(k < before.len());
            assert(before[k] == i as usize);
        }
    } else {
        if run_of(entries[i].name) == Some(stem) {
            assert(files.last() == i as usize);
            assert(files[files.len() - 1] == i as usize);
        } else if files.contains(i as usize) {
            let k = choose|k: int| 0 <= k < files.len() && files[k] == i as usize;
            assert(before[k] < last);
        }
    }
    assert forall|a: int, b: int| 0 <= a < b < files.len() implies (#[trigger] files[a])
        < (#[trigger] files[b]) by {
        assert(files[a] == before[a]);
        if b < before.len() {
            assert(files[b] == before[b]);
        }
    }
}

} // verus!
