//! The name/value capabilities attached to a SKU record, as a lookup table in
//! which the first occurrence of a name wins.
use vstd::prelude::*;

use crate::resource::Capability;
use crate::text::same_text;

verus! {

pub open spec fn capability_pairs(caps: Seq<Capability>) -> Seq<(Seq<char>, Seq<char>)> {
    caps.map_values(|c: Capability| (c.name@, c.value@))
}

/// The table that a list of name/value pairs describes: each name maps to the
/// value of its first occurrence, later duplicates are ignored.
pub open spec fn first_occurrences(pairs: Seq<(Seq<char>, Seq<char>)>) -> Map<Seq<char>, Seq<char>>
    decreases pairs.len(),
{
    if pairs.len() == 0 {
        Map::empty()
    } else {
        let earlier = first_occurrences(pairs.drop_last());
        let (name, value) = pairs.last();
        if earlier.contains_key(name) {
            earlier
        } else {
            earlier.insert(name, value)
        }
    }
}

/// The capability table of a list of capabilities.
pub open spec fn capability_map(caps: Seq<Capability>) -> Map<Seq<char>, Seq<char>> {
    first_occurrences(capability_pairs(caps))
}

proof fn lemma_first_occurrences_key(pairs: Seq<(Seq<char>, Seq<char>)>, name: Seq<char>)
    ensures
        first_occurrences(pairs).contains_key(name) <==> exists|j: int|
            0 <= j < pairs.len() && (#[trigger] pairs[j]).0 == name,
    decreases pairs.len(),
{
    if pairs.len() > 0 {
        let init = pairs.drop_last();
        lemma_first_occurrences_key(init, name);
        if exists|j: int| 0 <= j < pairs.len() && (#[trigger] pairs[j]).0 == name {
            let j = choose|j: int| 0 <= j < pairs.len() && (#[trigger] pairs[j]).0 == name;
            if j < pairs.len() - 1 {
                assert(init[j] == pairs[j]);
            }
        }
        if exists|j: int| 0 <= j < init.len() && (#[trigger] init[j]).0 == name {
            let j = choose|j: int| 0 <= j < init.len() && (#[trigger] init[j]).0 == name;
            assert(pairs[j] == init[j]);
        }
    }
}

proof fn lemma_first_occurrences_value(pairs: Seq<(Seq<char>, Seq<char>)>, j: int)
    requires
        0 <= j < pairs.len(),
        forall|i: int| 0 <= i < j ==> (#[trigger] pairs[i]).0 != pairs[j].0,
    ensures
        first_occurrences(pairs).contains_key(pairs[j].0),
        first_occurrences(pairs)[pairs[j].0] == pairs[j].1,
    decreases pairs.len(),
{
    let init = pairs.drop_last();
    if j < pairs.len() - 1 {
        assert forall|i: int| 0 <= i < j implies (#[trigger] init[i]).0 != init[j].0 by {
            assert(init[i] == pairs[i]);
        }
        lemma_first_occurrences_value(init, j);
    } else {
        lemma_first_occurrences_key(init, pairs[j].0);
        if first_occurrences(init).contains_key(pairs[j].0) {
            let i = choose|i: int| 0 <= i < init.len() && (#[trigger] init[i]).0 == pairs[j].0;
            assert(pairs[i] == init[i]);
        }
    }
}

/// Capability values by name.
pub struct CapabilityTable {
    entries: Vec<(String, String)>,
}

impl View for CapabilityTable {
    type V = Map<Seq<char>, Seq<char>>;

    closed spec fn view(&self) -> Map<Seq<char>, Seq<char>> {
        first_occurrences(self.pairs())
    }
}

impl CapabilityTable {
    spec fn pairs(&self) -> Seq<(Seq<char>, Seq<char>)> {
        self.entries@.map_values(|e: (String, String)| (e.0@, e.1@))
    }

    spec fn unique_names(&self) -> bool {
        forall|i: int, j: int|
            0 <= i < j < self.entries@.len() ==> (#[trigger] self.entries@[i]).0@
                != (#[trigger] self.entries@[j]).0@
    }

    fn position(&self, name: &str) -> (r: Option<usize>)
        ensures
            match r {
                Some(i) => i < self.entries@.len() && self.entries@[i as int].0@ == name@ && forall|
                    k: int,
                | 0 <= k < i ==> (#[trigger] self.entries@[k]).0@ != name@,
                None => forall|k: int|
                    0 <= k < self.entries@.len() ==> (#[trigger] self.entries@[k]).0@ != name@,
            },
    {
        let mut i: usize = 0;
        while i < self.entries.len()
            invariant
                i <= self.entries@.len(),
                forall|k: int| 0 <= k < i ==> (#[trigger] self.entries@[k]).0@ != name@,
            decreases self.entries@.len() - i,
        {
            if same_text(self.entries[i].0.as_str(), name) {
                return Some(i);
            }
            i = i + 1;
        }
        None
    }

    /// Builds the table of a list of capabilities: the first value given for
    /// a name is kept.
    pub fn from_capabilities(caps: &Vec<Capability>) -> (r: CapabilityTable)
        ensures
            r@ == capability_map(caps@),
    {
        let mut table = CapabilityTable { entries: Vec::new() };
        let ghost all = capability_pairs(caps@);
        let mut i: usize = 0;
        while i < caps.len()
            invariant
                i <= caps@.len(),
                all == capability_pairs(caps@),
                table@ == first_occurrences(all.subrange(0, i as int)),
            decreases caps@.len() - i,
        {
            let cap = &caps[i];
            let ghost prefix = all.subrange(0, i as int);
            let ghost next = all.subrange(0, i + 1);
            assert(next.drop_last() =~= prefix);
            assert(next.last() == (cap.name@, cap.value@));
            proof {
                lemma_first_occurrences_key(table.pairs(), cap.name@);
            }
            match table.position(cap.name.as_str()) {
                Some(k) => {
                    assert(table.pairs()[k as int].0 == cap.name@);
                },
                None => {
                    let ghost old_pairs = table.pairs();
                    table.entries.push((cap.name.clone(), cap.value.clone()));
                    assert(table.pairs().drop_last() =~= old_pairs);
                },
            }
            i = i + 1;
        }
        assert(all.subrange(0, caps@.len() as int) =~= all);
        table
    }

    /// The value recorded for a name.
    pub fn get(&self, name: &str) -> (r: Option<&String>)
        ensures
            match r {
                Some(v) => self@.contains_key(name@) && v@ == self@[name@],
                None => !self@.contains_key(name@),
            },
    {
        proof {
            lemma_first_occurrences_key(self.pairs(), name@);
        }
        match self.position(name) {
            Some(i) => {
                proof {
                    assert forall|k: int| 0 <= k < i implies (#[trigger] self.pairs()[k]).0
                        != self.pairs()[i as int].0 by {
                        assert(self.entries@[k].0@ != name@);
                    }
                    lemma_first_occurrences_value(self.pairs(), i as int);
                }
                Some(&self.entries[i].1)
            },
            None => {
                assert forall|k: int| 0 <= k < self.pairs().len() implies (#[trigger] self.pairs()[k]).0
                    != name@ by {
                    assert(self.entries@[k].0@ != name@);
                }
                None
            },
        }
    }
}

} // verus!
