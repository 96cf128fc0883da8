//! A table of reference-counted leases, keyed by the holder's identifier.

use vstd::prelude::*;

verus! {

/// One entry of the table: an identifier and how many times it holds the lease.
pub struct Lease {
    pub identifier: String,
    pub count: u32,
}

/// The leases held at present. No identifier occurs twice, and every count is
/// at least one: an identifier whose count drops to zero leaves the table.
pub struct LeaseTable {
    entries: Vec<Lease>,
}

/// The table after one more acquisition by `key`.
pub open spec fn acquired(leases: Map<Seq<char>, nat>, key: Seq<char>) -> Map<Seq<char>, nat> {
    if leases.dom().contains(key) {
        leases.insert(key, leases[key] + 1)
    } else {
        leases.insert(key, 1)
    }
}

/// The table after `key` gave up one reference. A key that holds none changes nothing.
pub open spec fn released(leases: Map<Seq<char>, nat>, key: Seq<char>) -> Map<Seq<char>, nat> {
    if !leases.dom().contains(key) {
        leases
    } else if leases[key] <= 1 {
        leases.remove(key)
    } else {
        leases.insert(key, (leases[key] - 1) as nat)
    }
}

/// The pairs of a listing, read as a map. Of two pairs with one key the first counts.
pub open spec fn listing_map(pairs: Seq<(Seq<char>, u32)>) -> Map<Seq<char>, nat>
    decreases pairs.len(),
{
    if pairs.len() == 0 {
        Map::empty()
    } else {
        listing_map(pairs.drop_first()).insert(pairs[0].0, pairs[0].1 as nat)
    }
}

/// A listing that spells out a table: every count is at least one, and no
/// identifier occurs twice.
pub open spec fn listing_ok(pairs: Seq<(Seq<char>, u32)>) -> bool {
    &&& forall|i: int| 0 <= i < pairs.len() ==> (#[trigger] pairs[i]).1 >= 1
    &&& forall|i: int, j: int|
        0 <= i < j < pairs.len() ==> (#[trigger] pairs[i]).0 != (#[trigger] pairs[j]).0
}

/// The view of a listing: each identifier by its characters.
pub open spec fn listing_view(pairs: Seq<(String, u32)>) -> Seq<(Seq<char>, u32)> {
    pairs.map_values(|p: (String, u32)| (p.0@, p.1))
}

spec fn slot_of(entries: Seq<Lease>, key: Seq<char>) -> int {
    choose|i: int| 0 <= i < entries.len() && entries[i].identifier@ == key
}

spec fn holds(entries: Seq<Lease>, key: Seq<char>) -> bool {
    exists|i: int| 0 <= i < entries.len() && entries[i].identifier@ == key
}

spec fn entries_ok(entries: Seq<Lease>) -> bool {
    &&& forall|i: int| 0 <= i < entries.len() ==> (#[trigger] entries[i]).count >= 1
    &&& forall|i: int, j: int|
        0 <= i < j < entries.len() ==> (#[trigger] entries[i]).identifier@ != (
        #[trigger] entries[j]).identifier@
}

spec fn entries_map(entries: Seq<Lease>) -> Map<Seq<char>, nat> {
    Map::new(
        |k: Seq<char>| holds(entries, k),
        |k: Seq<char>| entries[slot_of(entries, k)].count as nat,
    )
}

proof fn lemma_slot(entries: Seq<Lease>, i: int)
    requires
        entries_ok(entries),
        0 <= i < entries.len(),
    ensures
        holds(entries, entries[i].identifier@),
        slot_of(entries, entries[i].identifier@) == i,
        entries_map(entries).dom().contains(entries[i].identifier@),
        entries_map(entries)[entries[i].identifier@] == entries[i].count,
{
    let key = entries[i].identifier@;
    let j = slot_of(entries, key);
    assert(0 <= j < entries.len() && entries[j].identifier@ == key);
    if j < i {
        assert(entries[j].identifier@ != entries[i].identifier@);
    } else if i < j {
        assert(entries[i].identifier@ != entries[j].identifier@);
    }
}

proof fn lemma_ok_skip(entries: Seq<Lease>, from: int)
    requires
        entries_ok(entries),
        0 <= from <= entries.len(),
    ensures
        entries_ok(entries.skip(from)),
{
    let tail = entries.skip(from);
    assert forall|a: int, b: int| 0 <= a < b < tail.len() implies (#[trigger] tail[a]).identifier@
        != (#[trigger] tail[b]).identifier@ by {
        assert(entries[from + a].identifier@ != entries[from + b].identifier@);
    }
    assert forall|a: int| 0 <= a < tail.len() implies (#[trigger] tail[a]).count >= 1 by {
        assert(entries[from + a].count >= 1);
    }
}

proof fn lemma_listing(entries: Seq<Lease>, pairs: Seq<(Seq<char>, u32)>, from: int)
    requires
        entries_ok(entries),
        0 <= from <= entries.len(),
        pairs.len() == entries.len(),
        forall|j: int|
            0 <= j < pairs.len() ==> (#[trigger] pairs[j]).0 == entries[j].identifier@ && pairs[j].1
                == entries[j].count,
    ensures
        listing_map(pairs.skip(from)) == entries_map(entries.skip(from)),
    decreases entries.len() - from,
{
    let tail = entries.skip(from);
    let ptail = pairs.skip(from);
    if from == entries.len() {
        assert(entries_map(tail) =~= Map::<Seq<char>, nat>::empty());
    } else {
        lemma_listing(entries, pairs, from + 1);
        assert(ptail.drop_first() =~= pairs.skip(from + 1));
        let rest = entries.skip(from + 1);
        lemma_ok_skip(entries, from);
        lemma_ok_skip(entries, from + 1);
        lemma_slot(tail, 0);
        let key = tail[0].identifier@;
        assert forall|k: Seq<char>| holds(tail, k) == (holds(rest, k) || k == key) by {
            if holds(rest, k) {
                let j = slot_of(rest, k);
                assert(tail[j + 1].identifier@ == k);
            }
            if holds(tail, k) && k != key {
                let j = slot_of(tail, k);
                assert(rest[j - 1].identifier@ == k);
            }
        }
        assert forall|k: Seq<char>| holds(rest, k) implies entries_map(tail)[k] == entries_map(
            rest,
        )[k] && k != key by {
            let j = slot_of(rest, k);
            lemma_slot(rest, j);
            lemma_slot(tail, j + 1);
        }
        assert(entries_map(tail) =~= entries_map(rest).insert(key, tail[0].count as nat));
    }
}

proof fn lemma_entries_dom_len(entries: Seq<Lease>)
    requires
        entries_ok(entries),
    ensures
        entries_map(entries).dom().finite(),
        entries_map(entries).dom().len() == entries.len(),
    decreases entries.len(),
{
    if entries.len() == 0 {
        assert(entries_map(entries).dom() =~= Set::<Seq<char>>::empty());
    } else {
        let rest = entries.skip(1);
        lemma_ok_skip(entries, 1);
        lemma_entries_dom_len(rest);
        lemma_slot(entries, 0);
        let key = entries[0].identifier@;
        assert forall|k: Seq<char>| holds(entries, k) == (holds(rest, k) || k == key) by {
            if holds(rest, k) {
                let j = slot_of(rest, k);
                assert(entries[j + 1].identifier@ == k);
            }
            if holds(entries, k) && k != key {
                let j = slot_of(entries, k);
                assert(rest[j - 1].identifier@ == k);
            }
        }
        assert(!holds(rest, key)) by {
            if holds(rest, key) {
                let j = slot_of(rest, key);
                assert(entries[0].identifier@ != entries[j + 1].identifier@);
            }
        }
        assert(entries_map(entries).dom() =~= entries_map(rest).dom().insert(key));
    }
}

impl LeaseTable {
    /// No identifier occurs twice, and every count is at least one.
    pub closed spec fn wf(&self) -> bool {
        entries_ok(self.entries@)
    }

    /// Every count of a well-formed table is positive and fits the counter.
    pub proof fn lemma_counts(&self)
        requires
            self.wf(),
        ensures
            self@.dom().finite(),
            forall|k: Seq<char>| self@.dom().contains(k) ==> 1 <= #[trigger] self@[k] <= u32::MAX,
    {
        lemma_entries_dom_len(self.entries@);
        assert forall|k: Seq<char>| self@.dom().contains(k) implies 1 <= #[trigger] self@[k]
            <= u32::MAX by {
            let i = slot_of(self.entries@, k);
            assert(self.entries@[i].count >= 1);
        }
    }

    /// The table as a map from identifier to count. Every count is positive.
    pub closed spec fn view(&self) -> Map<Seq<char>, nat> {
        entries_map(self.entries@)
    }

    /// An empty table.
    pub fn new() -> (r: LeaseTable)
        ensures
            r.wf(),
            r@ == Map::<Seq<char>, nat>::empty(),
    {
        let r = LeaseTable { entries: Vec::new() };
        assert(r@ =~= Map::<Seq<char>, nat>::empty());
        r
    }

    /// The table that a listing spells out. A listing in which a count is
    /// zero or an identifier occurs twice spells out none.
    pub fn from_list(pairs: &Vec<(String, u32)>) -> (r: Result<LeaseTable, crate::error::Error>)
        ensures
            listing_ok(listing_view(pairs@)) ==> r is Ok && r->Ok_0.wf() && r->Ok_0@ == listing_map(
                listing_view(pairs@),
            ),
            !listing_ok(listing_view(pairs@)) ==> r is Err && r->Err_0
                == crate::error::Error::InvalidData,
    {
        let mut table = LeaseTable { entries: Vec::new() };
        let ghost views = listing_view(pairs@);
        let mut i: usize = 0;
        while i < pairs.len()
            invariant
                i <= pairs@.len(),
                views == listing_view(pairs@),
                table.entries@.len() == i,
                entries_ok(table.entries@),
                forall|j: int|
                    0 <= j < i ==> (#[trigger] table.entries@[j]).identifier@ == views[j].0
                        && table.entries@[j].count == views[j].1,
            decreases pairs@.len() - i,
        {
            let count = pairs[i].1;
            assert(views[i as int] == (pairs@[i as int].0@, pairs@[i as int].1));
            if count == 0 {
                assert(!listing_ok(views));
                return Err(crate::error::Error::InvalidData);
            }
            if let Some(found) = table.find(pairs[i].0.as_str()) {
                assert(views[found as int].0 == views[i as int].0);
                assert(!listing_ok(views));
                return Err(crate::error::Error::InvalidData);
            }
            let ghost before = table.entries@;
            table.entries.push(Lease { identifier: pairs[i].0.clone(), count });
            proof {
                let after = table.entries@;
                assert forall|a: int, b: int| 0 <= a < b < after.len() implies (
                #[trigger] after[a]).identifier@ != (#[trigger] after[b]).identifier@ by {
                    if b < before.len() {
                        assert(before[a].identifier@ != before[b].identifier@);
                    } else {
                        assert(before[a].identifier@ != pairs@[i as int].0@);
                    }
                }
            }
            i += 1;
        }
        proof {
            assert(listing_ok(views)) by {
                assert forall|a: int| 0 <= a < views.len() implies (#[trigger] views[a]).1
                    >= 1 by {
                    assert(table.entries@[a].count >= 1);
                }
                assert forall|a: int, b: int| 0 <= a < b < views.len() implies (
                #[trigger] views[a]).0 != (#[trigger] views[b]).0 by {
                    assert(table.entries@[a].identifier@ != table.entries@[b].identifier@);
                }
            }
            assert forall|j: int| 0 <= j < views.len() implies (#[trigger] views[j]).0
                == table.entries@[j].identifier@ && views[j].1 == table.entries@[j].count by {
                assert(table.entries@[j].identifier@ == views[j].0);
            }
            lemma_listing(table.entries@, views, 0);
            assert(table.entries@.skip(0) =~= table.entries@);
            assert(views.skip(0) =~= views);
        }
        Ok(table)
    }

    /// Whether nobody holds a lease.
    pub fn is_empty(&self) -> (r: bool)
        requires
            self.wf(),
        ensures
            r == (self@ == Map::<Seq<char>, nat>::empty()),
            r == (self@.dom() == Set::<Seq<char>>::empty()),
    {
        proof {
            if self.entries@.len() > 0 {
                lemma_slot(self.entries@, 0);
                assert(self@.dom().contains(self.entries@[0].identifier@));
            } else {
                assert(self@ =~= Map::<Seq<char>, nat>::empty());
            }
        }
        self.entries.len() == 0
    }

    fn find(&self, key: &str) -> (r: Option<usize>)
        ensures
            match r {
                Some(i) => i < self.entries@.len() && self.entries@[i as int].identifier@ == key@,
                None => !holds(self.entries@, key@),
            },
    {
        let mut i: usize = 0;
        while i < self.entries.len()
            invariant
                i <= self.entries@.len(),
                forall|j: int| 0 <= j < i ==> self.entries@[j].identifier@ != key@,
            decreases self.entries@.len() - i,
        {
            if str_eq(self.entries[i].identifier.as_str(), key) {
                return Some(i);
            }
            i += 1;
        }
        None
    }

    /// How many references `key` holds; zero if it holds none.
    pub fn count(&self, key: &str) -> (r: u32)
        requires
            self.wf(),
        ensures
            r == if self@.dom().contains(key@) {
                self@[key@]
            } else {
                0
            },
    {
        match self.find(key) {
            Some(i) => {
                proof {
                    lemma_slot(self.entries@, i as int);
                }
                self.entries[i].count
            },
            None => 0,
        }
    }

    /// Adds one reference for `key`, entering it with a count of one if it
    /// holds none. A count that cannot grow is left alone and reported.
    pub fn acquire(&mut self, key: &str) -> (r: Result<u32, crate::error::Error>)
        requires
            old(self).wf(),
        ensures
            final(self).wf(),
            match r {
                Ok(n) => {
                    &&& final(self)@ == acquired(old(self)@, key@)
                    &&& final(self)@[key@] == n
                    &&& n >= 1
                },
                Err(e) => {
                    &&& e == crate::error::Error::Overflow
                    &&& final(self)@ == old(self)@
                    &&& old(self)@.dom().contains(key@)
                    &&& old(self)@[key@] == u32::MAX
                },
            },
    {
        match self.find(key) {
            Some(i) => {
                proof {
                    lemma_slot(self.entries@, i as int);
                }
                let n = self.entries[i].count;
                if n == u32::MAX {
                    return Err(crate::error::Error::Overflow);
                }
                let ghost before = self.entries@;
                let identifier = self.entries[i].identifier.clone();
                self.entries[i] = Lease { identifier, count: n + 1 };
                proof {
                    let after = self.entries@;
                    assert(entries_ok(after)) by {
                        assert forall|a: int, b: int| 0 <= a < b < after.len() implies (
                        #[trigger] after[a]).identifier@ != (#[trigger] after[b]).identifier@ by {
                            assert(before[a].identifier@ != before[b].identifier@);
                        }
                    }
                    lemma_slot(after, i as int);
                    assert forall|k: Seq<char>| holds(after, k) == holds(before, k) by {
                        if holds(before, k) {
                            let j = slot_of(before, k);
                            assert(after[j].identifier@ == k);
                        }
                        if holds(after, k) {
                            let j = slot_of(after, k);
                            assert(before[j].identifier@ == k);
                        }
                    }
                    assert forall|k: Seq<char>| holds(after, k) && k != key@ implies entries_map(
                        after,
                    )[k] == entries_map(before)[k] by {
                        let j = slot_of(before, k);
                        lemma_slot(before, j);
                        lemma_slot(after, j);
                    }
                    assert(entries_map(after) =~= acquired(entries_map(before), key@));
                }
                Ok(n + 1)
            },
            None => {
                let ghost before = self.entries@;
                self.entries.push(Lease { identifier: key.to_owned(), count: 1 });
                proof {
                    let after = self.entries@;
                    let last = before.len() as int;
                    assert(entries_ok(after)) by {
                        assert forall|a: int, b: int| 0 <= a < b < after.len() implies (
                        #[trigger] after[a]).identifier@ != (#[trigger] after[b]).identifier@ by {
                            if b < last {
                                assert(before[a].identifier@ != before[b].identifier@);
                            } else {
                                assert(before[a].identifier@ != key@);
                            }
                        }
                    }
                    lemma_slot(after, last);
                    assert forall|k: Seq<char>| holds(after, k) == (holds(before, k) || k == key@) by {
                        if holds(before, k) {
                            let j = slot_of(before, k);
                            assert(after[j].identifier@ == k);
                        }
                        if holds(after, k) && k != key@ {
                            let j = slot_of(after, k);
                            assert(before[j].identifier@ == k);
                        }
                    }
                    assert forall|k: Seq<char>| holds(before, k) implies entries_map(after)[k]
                        == entries_map(before)[k] by {
                        let j = slot_of(before, k);
                        lemma_slot(before, j);
                        lemma_slot(after, j);
                    }
                    assert(entries_map(after) =~= acquired(entries_map(before), key@));
                }
                Ok(1)
            },
        }
    }

    /// Gives up one reference of `key` and says how many it still holds. The
    /// entry leaves the table with its last reference. A key that holds none
    /// changes nothing.
    pub fn release(&mut self, key: &str) -> (r: Option<u32>)
        requires
            old(self).wf(),
        ensures
            final(self).wf(),
            final(self)@ == released(old(self)@, key@),
            match r {
                Some(n) => old(self)@.dom().contains(key@) && n == old(self)@[key@] - 1,
                None => !old(self)@.dom().contains(key@),
            },
    {
        match self.find(key) {
            Some(i) => {
                proof {
                    lemma_slot(self.entries@, i as int);
                }
                let ghost before = self.entries@;
                let n = self.entries[i].count;
                if n == 1 {
                    let _ = self.entries.remove(i);
                    proof {
                        let after = self.entries@;
                        assert(entries_ok(after)) by {
                            assert forall|a: int, b: int| 0 <= a < b < after.len() implies (
                            #[trigger] after[a]).identifier@ != (
                            #[trigger] after[b]).identifier@ by {
                                let a0 = if a < i { a } else { a + 1 };
                                let b0 = if b < i { b } else { b + 1 };
                                assert(before[a0].identifier@ != before[b0].identifier@);
                            }
                            assert forall|a: int| 0 <= a < after.len() implies (
                            #[trigger] after[a]).count >= 1 by {
                                let a0 = if a < i { a } else { a + 1 };
                                assert(before[a0].count >= 1);
                            }
                        }
                        assert forall|k: Seq<char>| holds(after, k) == (holds(before, k) && k
                            != key@) by {
                            if holds(before, k) && k != key@ {
                                let j = slot_of(before, k);
                                let j1 = if j < i { j } else { j - 1 };
                                assert(after[j1].identifier@ == k);
                            }
                            if holds(after, k) {
                                let j = slot_of(after, k);
                                let j0 = if j < i { j } else { j + 1 };
                                assert(before[j0].identifier@ == k);
                                if j0 < i {
                                    assert(before[j0].identifier@ != before[i as int].identifier@);
                                } else {
                                    assert(before[i as int].identifier@ != before[j0].identifier@);
                                }
                            }
                        }
                        assert forall|k: Seq<char>| holds(after, k) implies entries_map(after)[k]
                            == entries_map(before)[k] by {
                            let j = slot_of(after, k);
                            let j0 = if j < i { j } else { j + 1 };
                            lemma_slot(after, j);
                            lemma_slot(before, j0);
                        }
                        assert(entries_map(after) =~= released(entries_map(before), key@));
                    }
                    Some(0)
                } else {
                    let identifier = self.entries[i].identifier.clone();
                    self.entries[i] = Lease { identifier, count: n - 1 };
                    proof {
                        let after = self.entries@;
                        assert(entries_ok(after)) by {
                            assert forall|a: int, b: int| 0 <= a < b < after.len() implies (
                            #[trigger] after[a]).identifier@ != (
                            #[trigger] after[b]).identifier@ by {
                                assert(before[a].identifier@ != before[b].identifier@);
                            }
                        }
                        lemma_slot(after, i as int);
                        assert forall|k: Seq<char>| holds(after, k) == holds(before, k) by {
                            if holds(before, k) {
                                let j = slot_of(before, k);
                                assert(after[j].identifier@ == k);
                            }
                            if holds(after, k) {
                                let j = slot_of(after, k);
                                assert(before[j].identifier@ == k);
                            }
                        }
                        assert forall|k: Seq<char>| holds(after, k) && k != key@ implies entries_map(
                            after,
                        )[k] == entries_map(before)[k] by {
                            let j = slot_of(before, k);
                            lemma_slot(before, j);
                            lemma_slot(after, j);
                        }
                        assert(entries_map(after) =~= released(entries_map(before), key@));
                    }
                    Some(n - 1)
                }
            },
            None => None,
        }
    }

    /// The table as a list of pairs, one for each identifier.
    pub fn list(&self) -> (r: Vec<(String, u32)>)
        requires
            self.wf(),
        ensures
            listing_map(listing_view(r@)) == self@,
            r@.len() == self@.dom().len(),
    {
        let mut out: Vec<(String, u32)> = Vec::new();
        let mut i: usize = 0;
        while i < self.entries.len()
            invariant
                i <= self.entries@.len(),
                out@.len() == i,
                forall|j: int|
                    0 <= j < i ==> (#[trigger] out@[j]).0@ == self.entries@[j].identifier@
                        && out@[j].1 == self.entries@[j].count,
            decreases self.entries@.len() - i,
        {
            out.push((self.entries[i].identifier.clone(), self.entries[i].count));
            i += 1;
        }
        proof {
            let pairs = listing_view(out@);
            assert forall|j: int| 0 <= j < pairs.len() implies (#[trigger] pairs[j]).0
                == self.entries@[j].identifier@ && pairs[j].1 == self.entries@[j].count by {
                assert(out@[j].0@ == self.entries@[j].identifier@);
            }
            lemma_listing(self.entries@, pairs, 0);
            assert(self.entries@.skip(0) =~= self.entries@);
            assert(pairs.skip(0) =~= pairs);
            lemma_entries_dom_len(self.entries@);
        }
        out
    }
}

/// Compares two strings by their characters.
pub fn str_eq(a: &str, b: &str) -> (r: bool)
    ensures
        r == (a@ == b@),
{
    let x = a.as_bytes();
    let y = b.as_bytes();
    proof {
        vstd::utf8::encode_utf8_decode_utf8(a@);
        vstd::utf8::encode_utf8_decode_utf8(b@);
    }
    crate::text::bytes_eq(x, y)
}

} // verus!
