//! Counting how often each name was entered.

use crate::text::trimmed;
use vstd::prelude::*;

verus! {

/// The word that ends the list of names.
pub open spec fn exit_marker() -> Seq<char> {
    "exit"@
}

/// A name and how often it was entered.
#[derive(Debug)]
pub struct NameCount {
    pub name: String,
    pub count: u32,
}

/// The names entered so far, each with its count.
pub struct Tally {
    entries: Vec<NameCount>,
}

impl View for Tally {
    type V = Map<Seq<char>, nat>;

    /// Each name that was entered, with the number of times.
    closed spec fn view(&self) -> Map<Seq<char>, nat> {
        Map::new(
            |name: Seq<char>| exists|i: int| self.holds_at(i, name),
            |name: Seq<char>| self.entries@[choose|i: int| self.holds_at(i, name)].count as nat,
        )
    }
}

impl Tally {
    spec fn holds_at(&self, i: int, name: Seq<char>) -> bool {
        0 <= i < self.entries@.len() && self.entries@[i].name@ == name
    }

    /// No name has two entries, and every count is at least 1.
    pub closed spec fn wf(&self) -> bool {
        &&& forall|i: int, j: int|
            0 <= i < j < self.entries@.len() ==> self.entries@[i].name@ != self.entries@[j].name@
        &&& forall|i: int| 0 <= i < self.entries@.len() ==> self.entries@[i].count >= 1
    }

    /// The entries as plain values, in the order in which the names first came.
    pub closed spec fn listing(&self) -> Seq<(Seq<char>, u32)> {
        Seq::new(self.entries@.len(), |i: int| (self.entries@[i].name@, self.entries@[i].count))
    }

    proof fn lemma_entry(&self, i: int)
        requires
            self.wf(),
            0 <= i < self.entries@.len(),
        ensures
            self@.contains_key(self.entries@[i].name@),
            self@[self.entries@[i].name@] == self.entries@[i].count,
    {
        let name = self.entries@[i].name@;
        assert(self.holds_at(i, name));
        let k = choose|k: int| self.holds_at(k, name);
        assert(k == i);
    }

    /// The listing holds each name of the tally once, with its count.
    pub proof fn lemma_listing(&self)
        requires
            self.wf(),
        ensures
            forall|i: int|
                0 <= i < self.listing().len() ==> self@.contains_key(
                    (#[trigger] self.listing()[i]).0,
                ) && self@[self.listing()[i].0] == self.listing()[i].1,
            forall|name: Seq<char>|
                self@.contains_key(name) ==> exists|i: int|
                    0 <= i < self.listing().len() && (#[trigger] self.listing()[i]).0 == name,
            forall|i: int, j: int|
                0 <= i < j < self.listing().len() ==> self.listing()[i].0 != self.listing()[j].0,
    {
        assert forall|i: int| 0 <= i < self.listing().len() implies self@.contains_key(
            (#[trigger] self.listing()[i]).0,
        ) && self@[self.listing()[i].0] == self.listing()[i].1 by {
            self.lemma_entry(i);
        }
        assert forall|name: Seq<char>| self@.contains_key(name) implies exists|i: int|
            0 <= i < self.listing().len() && (#[trigger] self.listing()[i]).0 == name by {
            let k = choose|k: int| self.holds_at(k, name);
            assert(self.listing()[k].0 == name);
        }
    }

    /// A tally without names.
    pub fn new() -> (tally: Tally)
        ensures
            tally.wf(),
            tally@ == Map::<Seq<char>, nat>::empty(),
            tally.listing().len() == 0,
    {
        let tally = Tally { entries: Vec::new() };
        assert(tally@ =~= Map::<Seq<char>, nat>::empty());
        tally
    }

    /// How often `name` was entered.
    pub fn count(&self, name: &str) -> (count: u32)
        requires
            self.wf(),
        ensures
            count == if self@.contains_key(name@) {
                self@[name@]
            } else {
                0
            },
    {
        for i in 0..self.entries.len()
            invariant
                self.wf(),
                forall|k: int| 0 <= k < i ==> self.entries@[k].name@ != name@,
        {
            if self.entries[i].name.as_str().eq(name) {
                proof {
                    self.lemma_entry(i as int);
                }
                return self.entries[i].count;
            }
        }
        assert(!self@.contains_key(name@)) by {
            if self@.contains_key(name@) {
                let k = choose|k: int| self.holds_at(k, name@);
                assert(self.entries@[k].name@ == name@);
            }
        }
        0
    }

    /// Counts `name` once more.
    pub fn record(&mut self, name: &str)
        requires
            old(self).wf(),
            old(self)@.contains_key(name@) ==> old(self)@[name@] < u32::MAX,
        ensures
            final(self).wf(),
            final(self)@ == old(self)@.insert(
                name@,
                if old(self)@.contains_key(name@) {
                    old(self)@[name@] + 1
                } else {
                    1
                },
            ),
    {
        let ghost before = *self;
        let mut i: usize = 0;
        let mut found = false;
        while i < self.entries.len() && !found
            invariant
                *self == before,
                i <= self.entries@.len(),
                !found ==> forall|k: int| 0 <= k < i ==> self.entries@[k].name@ != name@,
                found ==> i < self.entries@.len() && self.entries@[i as int].name@ == name@,
            decreases self.entries@.len() - i + if found { 0int } else { 1int },
        {
            if self.entries[i].name.as_str().eq(name) {
                found = true;
            } else {
                i += 1;
            }
        }
        if found {
            proof {
                before.lemma_entry(i as int);
            }
            let bumped = NameCount { name: name.to_owned(), count: self.entries[i].count + 1 };
            self.entries.set(i, bumped);
            proof {
                assert(self.wf());
                assert forall|n: Seq<char>| self@.contains_key(n) == before@.insert(
                    name@,
                    before@[name@] + 1,
                ).contains_key(n) by {
                    if before@.contains_key(n) {
                        let k = choose|k: int| before.holds_at(k, n);
                        assert(self.holds_at(k, n));
                    }
                    if self@.contains_key(n) {
                        let k = choose|k: int| self.holds_at(k, n);
                        assert(before.holds_at(k, n));
                    }
                }
                assert forall|n: Seq<char>| self@.contains_key(n) implies self@[n] == before@.insert(
                    name@,
                    before@[name@] + 1,
                )[n] by {
                    let k = choose|k: int| self.holds_at(k, n);
                    self.lemma_entry(k);
                    if n != name@ {
                        assert(before.holds_at(k, n));
                        before.lemma_entry(k);
                    } else {
                        assert(k == i);
                    }
                }
                assert(self@ =~= before@.insert(name@, before@[name@] + 1));
            }
        } else {
            assert(!before@.contains_key(name@)) by {
                if before@.contains_key(name@) {
                    let k = choose|k: int| before.holds_at(k, name@);
                    assert(before.entries@[k].name@ == name@);
                }
            }
            self.entries.push(NameCount { name: name.to_owned(), count: 1 });
            proof {
                let last = self.entries@.len() - 1;
                assert(self.wf());
                assert(self.holds_at(last, name@));
                assert forall|n: Seq<char>| self@.contains_key(n) == before@.insert(
                    name@,
                    1,
                ).contains_key(n) by {
                    if before@.contains_key(n) {
                        let k = choose|k: int| before.holds_at(k, n);
                        assert(self.holds_at(k, n));
                    }
                    if self@.contains_key(n) && n != name@ {
                        let k = choose|k: int| self.holds_at(k, n);
                        assert(before.holds_at(k, n));
                    }
                }
                assert forall|n: Seq<char>| self@.contains_key(n) implies self@[n] == before@.insert(
                    name@,
                    1,
                )[n] by {
                    let k = choose|k: int| self.holds_at(k, n);
                    self.lemma_entry(k);
                    if n != name@ {
                        assert(before.holds_at(k, n));
                        before.lemma_entry(k);
                    } else {
                        assert(k == last);
                    }
                }
                assert(self@ =~= before@.insert(name@, 1));
            }
        }
    }

    /// Takes in a line of input: the exit marker ends the list, any other
    /// line is counted as a name. White space around the line is dropped.
    /// Returns whether the list goes on.
    pub fn enter(&mut self, line: &str) -> (goes_on: bool)
        requires
            old(self).wf(),
            old(self)@.contains_key(trimmed(line@)) ==> old(self)@[trimmed(line@)] < u32::MAX,
        ensures
            final(self).wf(),
            goes_on == (trimmed(line@) != exit_marker()),
            !goes_on ==> final(self)@ == old(self)@,
            goes_on ==> final(self)@ == old(self)@.insert(
                trimmed(line@),
                if old(self)@.contains_key(trimmed(line@)) {
                    old(self)@[trimmed(line@)] + 1
                } else {
                    1
                },
            ),
    {
        let name = line.trim();
        if name.eq("exit") {
            false
        } else {
            self.record(name);
            true
        }
    }

    /// The names that were entered twice or more, each with its count, in
    /// the order in which they first came.
    pub fn duplicates(&self) -> (found: Vec<(String, u32)>)
        requires
            self.wf(),
        ensures
            found@.map_values(|e: (String, u32)| (e.0@, e.1)) == self.listing().filter(
                |e: (Seq<char>, u32)| e.1 >= 2,
            ),
    {
        let mut found: Vec<(String, u32)> = Vec::new();
        let ghost all = self.listing();
        for i in 0..self.entries.len()
            invariant
                all == self.listing(),
                found@.map_values(|e: (String, u32)| (e.0@, e.1)) == all.take(i as int).filter(
                    |e: (Seq<char>, u32)| e.1 >= 2,
                ),
        {
            proof {
                reveal(Seq::filter);
                assert(all.take(i + 1).drop_last() == all.take(i as int));
            }
            if self.entries[i].count >= 2 {
                let entry = (self.entries[i].name.clone(), self.entries[i].count);
                let ghost before = found@.map_values(|e: (String, u32)| (e.0@, e.1));
                found.push(entry);
                assert(found@.map_values(|e: (String, u32)| (e.0@, e.1)) == before.push(
                    (entry.0@, entry.1),
                ));
            }
        }
        assert(all.take(all.len() as int) == all);
        found
    }
}

} // verus!
