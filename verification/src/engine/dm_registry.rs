//! Which documents are alive.
//!
//! The system names a document by an address, and gives the address of a document that
//! is gone to a new one. A document is therefore known by its address and a generation
//! that counts registrations. A notice about a document that arrives late is matched
//! by both, and a document that is gone never counts as alive again.
//!
//! Only registration makes a document alive; to see an unknown address does not. Gone
//! documents are remembered up to a limit, the oldest forgotten first. A forgotten
//! address is unknown, and so not alive either.

use crate::text::{decimal, decimal_u64, hexadecimal, hexadecimal_u64};
use std::collections::HashMap;
use vstd::prelude::*;

verus! {

broadcast use vstd::std_specs::hash::group_hash_axioms;

/// A document: its address and the generation of its registration.
#[derive(Clone, Copy, Debug, PartialEq, Eq, Structural)]
pub struct DmRef {
    /// The address, never 0.
    pub ptr: usize,
    pub generation: u64,
}

/// How a document is written in the log.
pub open spec fn dm_text(dm: DmRef) -> Seq<char> {
    "0x"@ + hexadecimal(dm.ptr as nat) + "/g"@ + decimal(dm.generation as nat)
}

impl DmRef {
    /// How the document is written in the log.
    pub fn to_hex(&self) -> (r: String)
        ensures
            r@ == dm_text(*self),
    {
        let mut s = "0x".to_owned();
        s.append(hexadecimal_u64(self.ptr as u64).as_str());
        s.append("/g");
        s.append(decimal_u64(self.generation).as_str());
        s
    }
}

/// What is known of an address.
#[derive(Clone, Copy, Debug, PartialEq, Eq, Structural)]
pub struct DmSlot {
    pub generation: u64,
    pub alive: bool,
}

/// The addresses in `m` whose documents are gone.
pub open spec fn gone(m: Map<usize, DmSlot>) -> Set<usize> {
    m.dom().filter(|p: usize| !m[p].alive)
}

/// Whether `dm` is alive in `m`.
pub open spec fn alive_in(m: Map<usize, DmSlot>, dm: DmRef) -> bool {
    m.contains_key(dm.ptr) && m[dm.ptr] == (DmSlot { generation: dm.generation, alive: true })
}

/// No two addresses in `m` share a generation.
pub open spec fn generations_differ(m: Map<usize, DmSlot>) -> bool {
    forall|p: usize, q: usize| #[trigger]
        m.contains_key(p) && #[trigger] m.contains_key(q) && p != q ==> m[p].generation
            != m[q].generation
}

/// `after` is `before` without some gone documents: all that are alive are left, at
/// most `DmRegistry::DEAD_SLOT_CAP` gone ones are, and as many as that if more were gone; those
/// that left are older than all gone ones that are left.
pub open spec fn trimmed(before: Map<usize, DmSlot>, after: Map<usize, DmSlot>) -> bool {
    &&& after.submap_of(before)
    &&& forall|p: usize| #[trigger]
        before.contains_key(p) && before[p].alive ==> after.contains_key(p)
    &&& gone(before).len() <= DmRegistry::DEAD_SLOT_CAP ==> after == before
    &&& gone(before).len() > DmRegistry::DEAD_SLOT_CAP ==> gone(after).len() == DmRegistry::DEAD_SLOT_CAP
    &&& forall|p: usize, q: usize| #[trigger]
        before.contains_key(p) && !after.contains_key(p) && #[trigger] after.contains_key(q)
            && !after[q].alive ==> before[p].generation < after[q].generation
}

/// The register of documents.
pub struct DmRegistry {
    slots: HashMap<usize, DmSlot>,
    next_gen: u64,
    dead: usize,
}

/// What a register stands for.
#[verifier::ext_equal]
pub struct RegistryModel {
    pub slots: Map<usize, DmSlot>,
    /// The latest generation.
    pub next_gen: u64,
}

impl RegistryModel {
    /// Whether `dm` is alive.
    pub open spec fn live(self, dm: DmRef) -> bool {
        alive_in(self.slots, dm)
    }

    /// Whether a document is alive at the address `ptr`.
    pub open spec fn has_live(self, ptr: usize) -> bool {
        self.slots.contains_key(ptr) && self.slots[ptr].alive
    }

    /// Generations grow and never repeat, and gone documents are not too many.
    pub open spec fn wf(self) -> bool {
        &&& self.slots.dom().finite()
        &&& generations_differ(self.slots)
        &&& forall|p: usize| #[trigger]
            self.slots.contains_key(p) ==> self.slots[p].generation <= self.next_gen
        &&& gone(self.slots).len() <= DmRegistry::DEAD_SLOT_CAP
    }

    /// Nothing that was registered before `self` and is not alive in it comes alive in
    /// `after`, and generations are not given out twice.
    pub open spec fn never_revives(self, after: RegistryModel) -> bool {
        &&& self.next_gen <= after.next_gen
        &&& forall|dm: DmRef|
            dm.generation <= self.next_gen && !self.live(dm) ==> !#[trigger] after.live(dm)
    }

    /// The register after a document was registered at `ptr`.
    pub open spec fn registered(self, ptr: usize) -> RegistryModel {
        let generation = (self.next_gen + 1) as u64;
        RegistryModel {
            slots: self.slots.insert(ptr, DmSlot { generation, alive: true }),
            next_gen: generation,
        }
    }
}

impl View for DmRegistry {
    type V = RegistryModel;

    closed spec fn view(&self) -> RegistryModel {
        RegistryModel { slots: self.slots@, next_gen: self.next_gen }
    }
}

impl Default for DmRegistry {
    fn default() -> (r: Self)
        ensures
            r.wf(),
            r@ == (RegistryModel { slots: Map::empty(), next_gen: 0 }),
    {
        let r = DmRegistry { slots: HashMap::new(), next_gen: 0, dead: 0 };
        assert(gone(r.slots@) =~= Set::empty());
        r
    }
}

proof fn lemma_gone_finite(m: Map<usize, DmSlot>)
    requires
        m.dom().finite(),
    ensures
        gone(m).finite(),
        gone(m).len() <= m.dom().len(),
{
    vstd::set_lib::lemma_len_subset(gone(m), m.dom());
}

proof fn lemma_gone_insert(m: Map<usize, DmSlot>, ptr: usize, slot: DmSlot)
    requires
        m.dom().finite(),
    ensures
        gone(m.insert(ptr, slot)).finite(),
        gone(m.insert(ptr, slot)).len() == gone(m).len() - (if gone(m).contains(ptr) {
            1int
        } else {
            0
        }) + (if slot.alive {
            0int
        } else {
            1
        }),
{
    lemma_gone_finite(m);
    let after = gone(m.insert(ptr, slot));
    if slot.alive {
        assert(after =~= gone(m).remove(ptr));
    } else {
        assert(after =~= gone(m).insert(ptr));
    }
}

proof fn lemma_gone_remove(m: Map<usize, DmSlot>, ptr: usize)
    requires
        m.dom().finite(),
        gone(m).contains(ptr),
    ensures
        gone(m.remove(ptr)).finite(),
        gone(m.remove(ptr)).len() == gone(m).len() - 1,
{
    lemma_gone_finite(m);
    assert(gone(m.remove(ptr)) =~= gone(m).remove(ptr));
}

proof fn lemma_trimmed(before: Map<usize, DmSlot>, after: Map<usize, DmSlot>)
    requires
        trimmed(before, after),
        generations_differ(before),
    ensures
        generations_differ(after),
        forall|p: usize| #[trigger]
            after.contains_key(p) ==> before.contains_key(p) && after[p] == before[p],
        forall|dm: DmRef| #[trigger] alive_in(after, dm) <==> alive_in(before, dm),
{
    assert forall|p: usize, q: usize| #[trigger]
        after.contains_key(p) && #[trigger] after.contains_key(q) && p != q implies after[p].generation
        != after[q].generation by {
        assert(before.contains_key(p) && before.contains_key(q));
    }
    assert forall|dm: DmRef| #[trigger] alive_in(after, dm) <==> alive_in(before, dm) by {
        if before.contains_key(dm.ptr) && before[dm.ptr].alive {
            assert(after.contains_key(dm.ptr));
        }
        if after.contains_key(dm.ptr) {
            assert(before.contains_key(dm.ptr));
        }
    }
}

proof fn lemma_newest_is_left(before: Map<usize, DmSlot>, after: Map<usize, DmSlot>, ptr: usize)
    requires
        trimmed(before, after),
        before.contains_key(ptr),
        !before[ptr].alive,
        forall|p: usize| #[trigger]
            before.contains_key(p) ==> before[p].generation <= before[ptr].generation,
    ensures
        after.contains_key(ptr),
        after[ptr] == before[ptr],
{
    if !after.contains_key(ptr) {
        assert(gone(after).len() == DmRegistry::DEAD_SLOT_CAP);
        if forall|q: usize| !gone(after).contains(q) {
            assert(gone(after) =~= Set::empty());
        }
        let q = choose|q: usize| gone(after).contains(q);
        assert(after.contains_key(q) && before.contains_key(q));
        assert(false);
    }
}

impl DmRegistry {
    /// How many gone documents are remembered.
    pub const DEAD_SLOT_CAP: usize = 1024;

    /// The register counts its gone documents rightly.
    pub closed spec fn wf(&self) -> bool {
        &&& self@.wf()
        &&& self.dead == gone(self@.slots).len()
    }

    /// What a register stands for keeps to its rules: generations grow and never repeat, and
    /// not too many gone documents are remembered.
    pub proof fn keeps_rules(&self)
        requires
            self.wf(),
        ensures
            self@.wf(),
    {
    }

    fn put(&mut self, ptr: usize, slot: DmSlot)
        requires
            old(self).slots@.dom().finite(),
            old(self).dead == gone(old(self).slots@).len(),
            old(self).dead <= DmRegistry::DEAD_SLOT_CAP,
            generations_differ(old(self).slots@.insert(ptr, slot)),
        ensures
            final(self).next_gen == old(self).next_gen,
            final(self).dead == gone(final(self).slots@).len(),
            final(self).slots@.dom().finite(),
            slot.alive ==> final(self).slots@ == old(self).slots@.insert(ptr, slot),
            trimmed(old(self).slots@.insert(ptr, slot), final(self).slots@),
            final(self).dead <= DmRegistry::DEAD_SLOT_CAP,
    {
        proof {
            lemma_gone_insert(self.slots@, ptr, slot);
            lemma_gone_finite(self.slots@);
        }
        let previous = self.slots.insert(ptr, slot);
        if let Some(previous) = previous {
            if !previous.alive {
                self.dead = self.dead - 1;
            }
        }
        if !slot.alive {
            self.dead = self.dead + 1;
            self.evict_dead_over_cap();
        }
    }

    /// Whether there is a generation left for another document.
    pub fn can_register(&self) -> (r: bool)
        ensures
            r == (self@.next_gen < u64::MAX),
    {
        self.next_gen < u64::MAX
    }

    /// Whether the document at `ptr` can be noted as gone: it is known, or there is a
    /// generation left for it.
    pub fn can_expire(&self, ptr: usize) -> (r: bool)
        ensures
            r == (self@.slots.contains_key(ptr) || self@.next_gen < u64::MAX),
    {
        self.slots.contains_key(&ptr) || self.next_gen < u64::MAX
    }

    /// A new document at `ptr`. What was known of the address before is overwritten.
    pub fn register(&mut self, ptr: usize) -> (r: DmRef)
        requires
            old(self).wf(),
            ptr != 0,
            old(self)@.next_gen < u64::MAX,
        ensures
            final(self).wf(),
            final(self)@ == old(self)@.registered(ptr),
            r == (DmRef { ptr, generation: final(self)@.next_gen }),
            final(self)@.live(r),
            old(self)@.never_revives(final(self)@),
    {
        self.next_gen = self.next_gen + 1;
        let generation: u64 = self.next_gen;
        self.put(ptr, DmSlot { generation, alive: true });
        DmRef { ptr, generation }
    }

    /// A document at `ptr` was found to exist: the one that is known there, or a new one
    /// where none is alive. The flag says whether it is new.
    pub fn ensure_live(&mut self, ptr: usize) -> (r: (DmRef, bool))
        requires
            old(self).wf(),
            ptr != 0,
            old(self)@.has_live(ptr) || old(self)@.next_gen < u64::MAX,
        ensures
            final(self).wf(),
            r.1 == !old(self)@.has_live(ptr),
            !r.1 ==> final(self)@ == old(self)@ && r.0 == (DmRef {
                ptr,
                generation: old(self)@.slots[ptr].generation,
            }),
            r.1 ==> final(self)@ == old(self)@.registered(ptr) && r.0 == (DmRef {
                ptr,
                generation: final(self)@.next_gen,
            }),
            final(self)@.live(r.0),
            old(self)@.never_revives(final(self)@),
    {
        if let Some(slot) = self.slots.get(&ptr) {
            if slot.alive {
                return (DmRef { ptr, generation: slot.generation }, false);
            }
        }
        (self.register(ptr), true)
    }

    /// What is known of the address `ptr`, alive or gone. An unknown address is not
    /// registered.
    pub fn lookup(&self, ptr: usize) -> (r: Option<DmRef>)
        ensures
            r == (if self@.slots.contains_key(ptr) {
                Some(DmRef { ptr, generation: self@.slots[ptr].generation })
            } else {
                None
            }),
    {
        match self.slots.get(&ptr) {
            Some(slot) => Some(DmRef { ptr, generation: slot.generation }),
            None => None,
        }
    }

    /// The document at `ptr` is gone. An unknown address is remembered as gone under a
    /// new generation. The flag says whether a document that was alive has gone.
    pub fn expire(&mut self, ptr: usize) -> (r: (DmRef, bool))
        requires
            old(self).wf(),
            ptr != 0,
            old(self)@.slots.contains_key(ptr) || old(self)@.next_gen < u64::MAX,
        ensures
            final(self).wf(),
            r.0.ptr == ptr,
            r.1 == old(self)@.has_live(ptr),
            old(self)@.slots.contains_key(ptr) ==> r.0.generation
                == old(self)@.slots[ptr].generation && final(self)@.next_gen
                == old(self)@.next_gen,
            !old(self)@.slots.contains_key(ptr) ==> r.0.generation == old(self)@.next_gen + 1
                && final(self)@.next_gen == r.0.generation,
            trimmed(
                old(self)@.slots.insert(
                    ptr,
                    DmSlot { generation: r.0.generation, alive: false },
                ),
                final(self)@.slots,
            ),
            !old(self)@.slots.contains_key(ptr) ==> final(self)@.slots.contains_key(ptr)
                && final(self)@.slots[ptr] == (DmSlot { generation: r.0.generation, alive: false }),
            !final(self)@.has_live(ptr),
            forall|dm: DmRef| dm.ptr == ptr ==> !#[trigger] final(self)@.live(dm),
            old(self)@.never_revives(final(self)@),
            forall|dm: DmRef|
                dm.ptr != ptr && old(self)@.live(dm) ==> #[trigger] final(self)@.live(dm),
    {
        let known: Option<DmSlot> = match self.slots.get(&ptr) {
            Some(slot) => Some(*slot),
            None => None,
        };
        match known {
            Some(slot) => {
                let dm = DmRef { ptr, generation: slot.generation };
                if slot.alive {
                    proof {
                        assert(generations_differ(
                            self.slots@.insert(
                                ptr,
                                DmSlot { generation: slot.generation, alive: false },
                            ),
                        ));
                    }
                    let ghost before = self.slots@.insert(
                        ptr,
                        DmSlot { generation: slot.generation, alive: false },
                    );
                    self.put(ptr, DmSlot { generation: slot.generation, alive: false });
                    proof {
                        lemma_trimmed(before, self.slots@);
                    }
                    (dm, true)
                } else {
                    proof {
                        assert(self.slots@.insert(
                            ptr,
                            DmSlot { generation: slot.generation, alive: false },
                        ) =~= self.slots@);
                    }
                    (dm, false)
                }
            },
            None => {
                self.next_gen = self.next_gen + 1;
                let generation: u64 = self.next_gen;
                let ghost before = self.slots@.insert(ptr, DmSlot { generation, alive: false });
                self.put(ptr, DmSlot { generation, alive: false });
                proof {
                    lemma_trimmed(before, self.slots@);
                    lemma_newest_is_left(before, self.slots@, ptr);
                }
                (DmRef { ptr, generation }, false)
            },
        }
    }

    /// All documents are gone. The result lists those that were alive, each once, in no
    /// particular order.
    pub fn expire_all(&mut self) -> (r: Vec<DmRef>)
        requires
            old(self).wf(),
        ensures
            final(self).wf(),
            final(self)@.next_gen == old(self)@.next_gen,
            r@.no_duplicates(),
            forall|dm: DmRef| #[trigger] r@.contains(dm) <==> old(self)@.live(dm),
            forall|dm: DmRef| !#[trigger] final(self)@.live(dm),
            trimmed(
                old(self)@.slots.map_values(
                    |s: DmSlot| DmSlot { generation: s.generation, alive: false },
                ),
                final(self)@.slots,
            ),
            old(self)@.never_revives(final(self)@),
    {
        let ghost start = self.slots@;
        let mut expired: Vec<DmRef> = Vec::new();
        for (ptr, slot) in it: self.slots.iter()
            invariant
                start == self.slots@,
                it.seq().no_duplicates(),
                it.seq().len() == start.dom().len(),
                forall|i: int|
                    0 <= i < it.seq().len() ==> start.contains_key(*(#[trigger] it.seq()[i]).0)
                        && start[*it.seq()[i].0] == *it.seq()[i].1,
                forall|k: usize| #[trigger]
                    start.contains_key(k) ==> it.seq().contains((&k, &start[k])),
                expired@.no_duplicates(),
                forall|i: int|
                    0 <= i < expired@.len() ==> alive_in(start, #[trigger] expired@[i]),
                forall|i: int|
                    0 <= i < it.index() && (*(#[trigger] it.seq()[i]).1).alive ==> expired@.contains(
                        DmRef { ptr: *it.seq()[i].0, generation: it.seq()[i].1.generation },
                    ),
                forall|i: int, j: int|
                    it.index() <= i < it.seq().len() && 0 <= j < expired@.len() ==> *(
                    #[trigger] it.seq()[i]).0 != (#[trigger] expired@[j]).ptr,
        {
            if slot.alive {
                let dm = DmRef { ptr: *ptr, generation: slot.generation };
                let ghost before = expired@;
                expired.push(dm);
                proof {
                    let n = it.index() as int;
                    assert(it.seq()[n] == (ptr, slot));
                    assert forall|i: int|
                        n < i < it.seq().len() implies *(#[trigger] it.seq()[i]).0 != *ptr by {
                        if *it.seq()[i].0 == *ptr {
                            assert(it.seq()[i] == it.seq()[n]);
                        }
                    }
                    assert forall|i: int|
                        0 <= i < it.index() + 1 && (*(#[trigger] it.seq()[i]).1).alive implies expired@.contains(
                        DmRef { ptr: *it.seq()[i].0, generation: it.seq()[i].1.generation },
                    ) by {
                        let want = DmRef {
                            ptr: *it.seq()[i].0,
                            generation: it.seq()[i].1.generation,
                        };
                        if i < it.index() {
                            assert(before.contains(want));
                            let j = choose|j: int| 0 <= j < before.len() && before[j] == want;
                            assert(expired@[j] == want);
                        } else {
                            assert(expired@[expired@.len() - 1] == want);
                        }
                    }
                }
            }
        }
        proof {
            assert forall|dm: DmRef| #[trigger] expired@.contains(dm) <==> alive_in(start, dm) by {
                if alive_in(start, dm) {
                    assert(start.contains_key(dm.ptr));
                }
            }
        }
        let ghost all_gone = start.map_values(
            |s: DmSlot| DmSlot { generation: s.generation, alive: false },
        );
        let mut i: usize = 0;
        while i < expired.len()
            invariant
                i <= expired@.len(),
                start.dom().finite(),
                expired@.no_duplicates(),
                self.next_gen == old(self).next_gen,
                self.slots@.dom() == start.dom(),
                forall|dm: DmRef| #[trigger] expired@.contains(dm) <==> alive_in(start, dm),
                forall|p: usize| #[trigger]
                    start.contains_key(p) ==> self.slots@[p].generation == start[p].generation,
                forall|p: usize| #[trigger]
                    start.contains_key(p) && !start[p].alive ==> !self.slots@[p].alive,
                forall|j: int|
                    0 <= j < i ==> !self.slots@[(#[trigger] expired@[j]).ptr].alive,
            decreases expired.len() - i,
        {
            let dm = expired[i];
            assert(expired@.contains(dm));
            assert(alive_in(start, dm));
            let _ = self.slots.insert(
                dm.ptr,
                DmSlot { generation: dm.generation, alive: false },
            );
            assert(self.slots@.dom() =~= start.dom());
            i += 1;
        }
        proof {
            assert forall|p: usize| #[trigger] start.contains_key(p) implies !self.slots@[p].alive by {
                if start[p].alive {
                    let dm = DmRef { ptr: p, generation: start[p].generation };
                    assert(expired@.contains(dm));
                    let j = choose|j: int| 0 <= j < expired@.len() && expired@[j] == dm;
                    assert(!self.slots@[expired@[j].ptr].alive);
                }
            }
            assert(self.slots@ =~= all_gone);
            assert(gone(all_gone) =~= all_gone.dom());
            assert(generations_differ(all_gone)) by {
                assert forall|p: usize, q: usize| #[trigger]
                    all_gone.contains_key(p) && #[trigger] all_gone.contains_key(q) && p
                        != q implies all_gone[p].generation != all_gone[q].generation by {
                    assert(start.contains_key(p));
                    assert(start.contains_key(q));
                }
            }
        }
        self.dead = self.slots.len();
        self.evict_dead_over_cap();
        proof {
            lemma_trimmed(all_gone, self.slots@);
            assert forall|p: usize| #[trigger] self.slots@.contains_key(p) implies self.slots@[p].generation
                <= self.next_gen by {
                assert(all_gone.contains_key(p));
                assert(start.contains_key(p));
            }
            assert forall|dm: DmRef| !#[trigger] alive_in(self.slots@, dm) by {
                assert(!alive_in(all_gone, dm));
            }
        }
        expired
    }

    /// Whether `dm` is alive: known under its generation, and not gone.
    pub fn is_live(&self, dm: DmRef) -> (r: bool)
        ensures
            r == self@.live(dm),
    {
        match self.slots.get(&dm.ptr) {
            Some(slot) => slot.alive && slot.generation == dm.generation,
            None => false,
        }
    }

    /// How many gone documents are remembered.
    pub fn dead_count(&self) -> (r: usize)
        requires
            self.wf(),
        ensures
            r == gone(self@.slots).len(),
    {
        self.dead
    }

    /// How many documents are alive.
    pub fn live_count(&self) -> (r: usize)
        requires
            self.wf(),
        ensures
            r == self@.slots.dom().len() - gone(self@.slots).len(),
    {
        proof {
            lemma_gone_finite(self.slots@);
        }
        self.slots.len() - self.dead
    }

    fn oldest_dead(&self) -> (r: Option<usize>)
        ensures
            match r {
                Some(p) => gone(self.slots@).contains(p) && forall|q: usize| #[trigger]
                    gone(self.slots@).contains(q) ==> self.slots@[p].generation
                        <= self.slots@[q].generation,
                None => gone(self.slots@) =~= Set::empty(),
            },
    {
        let mut best: Option<(usize, u64)> = None;
        let ghost m = self.slots@;
        for (ptr, slot) in it: self.slots.iter()
            invariant
                m == self.slots@,
                forall|i: int|
                    0 <= i < it.seq().len() ==> m.contains_key(*(#[trigger] it.seq()[i]).0)
                        && m[*it.seq()[i].0] == *it.seq()[i].1,
                forall|k: usize| #[trigger]
                    m.contains_key(k) ==> it.seq().contains((&k, &m[k])),
                match best {
                    Some((p, g)) => gone(m).contains(p) && m[p].generation == g && forall|i: int|
                        0 <= i < it.index() && !(*(#[trigger] it.seq()[i]).1).alive ==> g
                            <= it.seq()[i].1.generation,
                    None => forall|i: int|
                        0 <= i < it.index() ==> (*(#[trigger] it.seq()[i]).1).alive,
                },
        {
            if !slot.alive {
                let better = match best {
                    Some((_, g)) => slot.generation < g,
                    None => true,
                };
                if better {
                    assert(gone(m).contains(*ptr));
                    best = Some((*ptr, slot.generation));
                }
            }
        }
        proof {
            assert forall|q: usize| #[trigger] gone(m).contains(q) implies best is Some && (
            best->0).1 <= m[q].generation by {
                assert(m.contains_key(q));
            }
        }
        match best {
            Some((p, _)) => Some(p),
            None => None,
        }
    }

    fn evict_dead_over_cap(&mut self)
        requires
            old(self).slots@.dom().finite(),
            old(self).dead == gone(old(self).slots@).len(),
            generations_differ(old(self).slots@),
        ensures
            final(self).next_gen == old(self).next_gen,
            final(self).dead == gone(final(self).slots@).len(),
            final(self).dead <= DmRegistry::DEAD_SLOT_CAP,
            final(self).slots@.dom().finite(),
            trimmed(old(self).slots@, final(self).slots@),
    {
        let ghost before = self.slots@;
        while self.dead > DmRegistry::DEAD_SLOT_CAP
            invariant
                before == old(self).slots@,
                self.next_gen == old(self).next_gen,
                self.slots@.dom().finite(),
                self.dead == gone(self.slots@).len(),
                generations_differ(before),
                self.slots@.submap_of(before),
                forall|p: usize| #[trigger]
                    before.contains_key(p) && before[p].alive ==> self.slots@.contains_key(p),
                self.slots@ == before || (gone(before).len() > DmRegistry::DEAD_SLOT_CAP && self.dead
                    >= DmRegistry::DEAD_SLOT_CAP),
                forall|p: usize, q: usize| #[trigger]
                    before.contains_key(p) && !self.slots@.contains_key(p) && #[trigger]
                        self.slots@.contains_key(q) && !self.slots@[q].alive
                        ==> before[p].generation < self.slots@[q].generation,
            decreases self.dead,
        {
            let ghost now = self.slots@;
            match self.oldest_dead() {
                Some(ptr) => {
                    proof {
                        lemma_gone_remove(now, ptr);
                    }
                    let _ = self.slots.remove(&ptr);
                    self.dead = self.dead - 1;
                    proof {
                        let after = self.slots@;
                        assert(after == now.remove(ptr));
                        assert forall|p: usize, q: usize| #[trigger]
                            before.contains_key(p) && !after.contains_key(p) && #[trigger]
                                after.contains_key(q) && !after[q].alive implies before[p].generation
                            < after[q].generation by {
                            assert(now.contains_key(q));
                            assert(before.contains_key(q));
                            if p == ptr {
                                assert(gone(now).contains(q));
                            }
                        }
                    }
                },
                None => {
                    proof {
                        assert(gone(now) =~= Set::empty());
                        assert(false);
                    }
                    return;
                },
            }
        }
        assert(self.slots@ =~= before || gone(self.slots@).len() == DmRegistry::DEAD_SLOT_CAP);
    }
}

/// What a notice about a document refers to.
#[derive(Clone, Copy, Debug, PartialEq, Eq, Structural)]
pub enum DmSeen {
    /// No document.
    Absent,
    /// An address that is not known. Such a document counts as gone.
    Unknown(usize),
    /// A document that is known, alive or gone.
    Known(DmRef),
}

impl DmSeen {
    /// The document, where it is known.
    pub fn known(self) -> (r: Option<DmRef>)
        ensures
            r == (match self {
                DmSeen::Known(dm) => Some(dm),
                _ => None,
            }),
    {
        match self {
            DmSeen::Known(dm) => Some(dm),
            _ => None,
        }
    }
}

/// What a notice about the address `ptr` refers to. 0 stands for no document. Nothing
/// is registered.
pub fn seen(reg: &DmRegistry, ptr: usize) -> (r: DmSeen)
    ensures
        r == (if ptr == 0 {
            DmSeen::Absent
        } else if reg@.slots.contains_key(ptr) {
            DmSeen::Known(DmRef { ptr, generation: reg@.slots[ptr].generation })
        } else {
            DmSeen::Unknown(ptr)
        }),
{
    if ptr == 0 {
        return DmSeen::Absent;
    }
    match lookup(reg, ptr) {
        Some(dm) => DmSeen::Known(dm),
        None => DmSeen::Unknown(ptr),
    }
}

/// A new document was announced.
pub fn register(reg: &mut DmRegistry, ptr: usize) -> (r: DmRef)
    requires
        old(reg).wf(),
        ptr != 0,
        old(reg)@.next_gen < u64::MAX,
    ensures
        final(reg).wf(),
        final(reg)@ == old(reg)@.registered(ptr),
        r == (DmRef { ptr, generation: final(reg)@.next_gen }),
        final(reg)@.live(r),
        old(reg)@.never_revives(final(reg)@),
{
    reg.register(ptr)
}

/// A document was found to exist.
pub fn ensure_live(reg: &mut DmRegistry, ptr: usize) -> (r: (DmRef, bool))
    requires
        old(reg).wf(),
        ptr != 0,
        old(reg)@.has_live(ptr) || old(reg)@.next_gen < u64::MAX,
    ensures
        final(reg).wf(),
        r.1 == !old(reg)@.has_live(ptr),
        !r.1 ==> final(reg)@ == old(reg)@ && r.0 == (DmRef {
            ptr,
            generation: old(reg)@.slots[ptr].generation,
        }),
        r.1 ==> final(reg)@ == old(reg)@.registered(ptr) && r.0 == (DmRef {
            ptr,
            generation: final(reg)@.next_gen,
        }),
        final(reg)@.live(r.0),
        old(reg)@.never_revives(final(reg)@),
{
    reg.ensure_live(ptr)
}

/// What is known of the address `ptr`; nothing for 0.
pub fn lookup(reg: &DmRegistry, ptr: usize) -> (r: Option<DmRef>)
    ensures
        r == (if ptr != 0 && reg@.slots.contains_key(ptr) {
            Some(DmRef { ptr, generation: reg@.slots[ptr].generation })
        } else {
            None
        }),
{
    if ptr == 0 {
        return None;
    }
    reg.lookup(ptr)
}

/// A document was announced to be gone.
pub fn expire(reg: &mut DmRegistry, ptr: usize) -> (r: (DmRef, bool))
    requires
        old(reg).wf(),
        ptr != 0,
        old(reg)@.slots.contains_key(ptr) || old(reg)@.next_gen < u64::MAX,
    ensures
        final(reg).wf(),
        r.0.ptr == ptr,
        r.1 == old(reg)@.has_live(ptr),
        old(reg)@.slots.contains_key(ptr) ==> r.0.generation == old(reg)@.slots[ptr].generation
            && final(reg)@.next_gen == old(reg)@.next_gen,
        !old(reg)@.slots.contains_key(ptr) ==> r.0.generation == old(reg)@.next_gen + 1
            && final(reg)@.next_gen == r.0.generation,
        trimmed(
            old(reg)@.slots.insert(ptr, DmSlot { generation: r.0.generation, alive: false }),
            final(reg)@.slots,
        ),
        !old(reg)@.slots.contains_key(ptr) ==> final(reg)@.slots.contains_key(ptr)
            && final(reg)@.slots[ptr] == (DmSlot { generation: r.0.generation, alive: false }),
        !final(reg)@.has_live(ptr),
        forall|dm: DmRef| dm.ptr == ptr ==> !#[trigger] final(reg)@.live(dm),
        old(reg)@.never_revives(final(reg)@),
        forall|dm: DmRef|
            dm.ptr != ptr && old(reg)@.live(dm) ==> #[trigger] final(reg)@.live(dm),
{
    reg.expire(ptr)
}

/// All documents are given up.
pub fn expire_all(reg: &mut DmRegistry) -> (r: Vec<DmRef>)
    requires
        old(reg).wf(),
    ensures
        final(reg).wf(),
        final(reg)@.next_gen == old(reg)@.next_gen,
        r@.no_duplicates(),
        forall|dm: DmRef| #[trigger] r@.contains(dm) <==> old(reg)@.live(dm),
        forall|dm: DmRef| !#[trigger] final(reg)@.live(dm),
        trimmed(
            old(reg)@.slots.map_values(
                |s: DmSlot| DmSlot { generation: s.generation, alive: false },
            ),
            final(reg)@.slots,
        ),
        old(reg)@.never_revives(final(reg)@),
{
    reg.expire_all()
}

/// Whether `dm` is alive.
pub fn is_live(reg: &DmRegistry, dm: DmRef) -> (r: bool)
    ensures
        r == reg@.live(dm),
{
    reg.is_live(dm)
}

/// A document that is gone stays so, whatever happens afterwards: the operations can be
/// chained.
pub proof fn gone_stays_gone(a: RegistryModel, b: RegistryModel, c: RegistryModel)
    requires
        a.never_revives(b),
        b.never_revives(c),
    ensures
        a.never_revives(c),
{
    assert forall|dm: DmRef| dm.generation <= a.next_gen && !a.live(dm) implies !#[trigger] c.live(
        dm,
    ) by {
        assert(!b.live(dm));
    }
}

/// A document that is gone is gone for good: where each register in a history comes from the
/// one before it, nothing that is gone in one of them is alive in a later one.
pub proof fn gone_for_good(history: Seq<RegistryModel>, i: int, j: int, dm: DmRef)
    requires
        0 <= i <= j < history.len(),
        forall|k: int|
            0 <= k < history.len() - 1 ==> (#[trigger] history[k]).never_revives(history[k + 1]),
        dm.generation <= history[i].next_gen,
        !history[i].live(dm),
    ensures
        !history[j].live(dm),
        history[i].next_gen <= history[j].next_gen,
    decreases j - i,
{
    if i < j {
        gone_for_good(history, i, j - 1, dm);
        assert(history[j - 1].never_revives(history[j - 1 + 1]));
    }
}

/// A document that is alive has a generation that was given out.
pub proof fn live_was_registered(r: &DmRegistry, dm: DmRef)
    requires
        r.wf(),
        r@.live(dm),
    ensures
        dm.generation <= r@.next_gen,
{
    r.keeps_rules();
}

/// A document that is alive is the one that is found at its address, so to find it to exist
/// again registers nothing.
pub proof fn live_is_found_again(r: RegistryModel, dm: DmRef)
    requires
        r.live(dm),
    ensures
        r.has_live(dm.ptr),
        r.slots[dm.ptr].generation == dm.generation,
{
}

/// At most one document is alive at an address.
pub proof fn one_document_per_address(r: RegistryModel, a: DmRef, b: DmRef)
    requires
        r.live(a),
        r.live(b),
        a.ptr == b.ptr,
    ensures
        a == b,
{
}

} // verus!
