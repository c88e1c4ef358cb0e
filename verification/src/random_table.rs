//! Weighted tables and the random draw from them.

use vstd::prelude::*;
use rltk::RandomNumberGenerator;
use crate::toolkit::roll_range;

verus! {

/// One registered key with its weight.
#[derive(Clone, Debug)]
pub struct RandomEntry {
    pub name: String,
    pub weight: i64,
}

/// The share of a weight in a draw: weights below one take no part.
pub open spec fn share(weight: int) -> int {
    if weight > 0 {
        weight
    } else {
        0
    }
}

/// The sum of the shares of the first `k` entries.
pub open spec fn cumulative(entries: Seq<(Seq<char>, int)>, k: int) -> int
    decreases k,
{
    if k <= 0 {
        0
    } else {
        cumulative(entries, k - 1) + share(entries[k - 1].1)
    }
}

/// Entry `i` is the one that a roll of `roll` selects: the first whose
/// cumulative weight reaches the roll.
pub open spec fn selects(entries: Seq<(Seq<char>, int)>, roll: int, i: int) -> bool {
    0 <= i < entries.len() && cumulative(entries, i) < roll <= cumulative(entries, i + 1)
}

/// An entry as a mathematical value: its name and its weight.
pub open spec fn entry_view(e: RandomEntry) -> (Seq<char>, int) {
    (e.name@, e.weight as int)
}

/// A table of keys with weights that supports a weighted random draw.
pub struct WeightedTable {
    entries: Vec<RandomEntry>,
    total_weight: i128,
}

impl View for WeightedTable {
    type V = Seq<(Seq<char>, int)>;

    closed spec fn view(&self) -> Seq<(Seq<char>, int)> {
        self.entries@.map_values(|e: RandomEntry| entry_view(e))
    }
}

/// The sum of the shares of `k` entries lies between zero and `k` times the
/// largest weight.
pub proof fn lemma_cumulative_bounds(entries: Seq<(Seq<char>, int)>, k: int)
    requires
        0 <= k <= entries.len(),
        forall|i: int| 0 <= i < entries.len() ==> (#[trigger] entries[i]).1 <= i64::MAX,
    ensures
        0 <= cumulative(entries, k) <= k * i64::MAX,
    decreases k,
{
    if k > 0 {
        lemma_cumulative_bounds(entries, k - 1);
        assert((k - 1) * i64::MAX + i64::MAX == k * i64::MAX) by (nonlinear_arith);
    }
}

/// An entry that is put behind the others leaves the sums of the shares before
/// it as they are.
pub proof fn lemma_cumulative_push(entries: Seq<(Seq<char>, int)>, e: (Seq<char>, int), k: int)
    requires
        0 <= k <= entries.len(),
    ensures
        cumulative(entries.push(e), k) == cumulative(entries, k),
    decreases k,
{
    if k > 0 {
        lemma_cumulative_push(entries, e, k - 1);
    }
}

/// The sum of the shares does not fall as more entries are counted.
pub proof fn lemma_cumulative_monotone(entries: Seq<(Seq<char>, int)>, a: int, b: int)
    requires
        a <= b,
    ensures
        cumulative(entries, a) <= cumulative(entries, b),
    decreases b - a,
{
    if a < b {
        lemma_cumulative_monotone(entries, a, b - 1);
    }
}

/// A roll selects at most one entry.
pub proof fn lemma_selects_unique(entries: Seq<(Seq<char>, int)>, roll: int, i: int, j: int)
    requires
        selects(entries, roll, i),
        selects(entries, roll, j),
    ensures
        i == j,
{
    if i < j {
        lemma_cumulative_monotone(entries, i + 1, j);
    } else if j < i {
        lemma_cumulative_monotone(entries, j + 1, i);
    }
}

/// The entry that a roll selects has a weight of at least one.
pub proof fn lemma_selected_has_weight(entries: Seq<(Seq<char>, int)>, roll: int, i: int)
    requires
        selects(entries, roll, i),
    ensures
        entries[i].1 > 0,
{
}

impl WeightedTable {
    #[verifier::type_invariant]
    spec fn inv(self) -> bool {
        self.total_weight == cumulative(self@, self@.len() as int)
    }

    /// The sum of the shares of all entries.
    pub open spec fn total(&self) -> int {
        cumulative(self@, self@.len() as int)
    }

    /// A table without entries.
    pub fn new() -> (t: WeightedTable)
        ensures
            t@ == Seq::<(Seq<char>, int)>::empty(),
    {
        let t = WeightedTable { entries: Vec::new(), total_weight: 0 };
        assert(t@ =~= Seq::<(Seq<char>, int)>::empty());
        t
    }

    /// Registers `name` with `weight` behind the entries already there.
    pub fn add(&mut self, name: String, weight: i64)
        ensures
            final(self)@ == old(self)@.push((name@, weight as int)),
    {
        // The entries and their total change together: take the table apart
        // and put it together again.
        let mut table = WeightedTable::new();
        std::mem::swap(self, &mut table);
        proof {
            use_type_invariant(&table);
            let s = table@;
            assert forall|i: int| 0 <= i < s.len() implies (#[trigger] s[i]).1 <= i64::MAX by {
                assert(s[i] == entry_view(table.entries@[i]));
            }
            lemma_cumulative_bounds(s, s.len() as int);
            assert(s.len() == table.entries.len());
            assert(s.len() * i64::MAX <= usize::MAX * i64::MAX) by (nonlinear_arith)
                requires
                    s.len() <= usize::MAX,
            ;
            lemma_cumulative_push(s, (name@, weight as int), s.len() as int);
            assert(s.push((name@, weight as int)) =~= table.entries@.push(
                RandomEntry { name, weight },
            ).map_values(|e: RandomEntry| entry_view(e)));
        }
        let WeightedTable { mut entries, total_weight } = table;
        let share: i128 = if weight > 0 {
            weight as i128
        } else {
            0
        };
        entries.push(RandomEntry { name, weight });
        *self = WeightedTable { entries, total_weight: total_weight + share };
    }

    /// How many entries are registered.
    pub fn len(&self) -> (n: usize)
        ensures
            n == self@.len(),
    {
        self.entries.len()
    }

    /// The registered entries, in the order in which they came.
    pub fn entries(&self) -> (r: &Vec<RandomEntry>)
        ensures
            r@.map_values(|e: RandomEntry| entry_view(e)) == self@,
    {
        &self.entries
    }

    /// The sum of the shares of all entries.
    pub fn total_weight(&self) -> (t: i128)
        ensures
            t == self.total(),
    {
        proof {
            use_type_invariant(self);
        }
        self.total_weight
    }

    /// The key that `roll` selects: with the entries laid end to end, each as
    /// long as its share, the one that covers position `roll`, counted from
    /// one. Nothing for a roll outside `1..=total`.
    pub fn pick(&self, roll: i128) -> (r: Option<String>)
        ensures
            r is Some <==> 1 <= roll <= self.total(),
            r matches Some(name) ==> exists|i: int| selects(self@, roll as int, i) && name@ == self@[i].0,
    {
        proof {
            use_type_invariant(self);
        }
        if roll < 1 || roll > self.total_weight {
            return None;
        }
        let mut acc: i128 = 0;
        let mut i: usize = 0;
        while i < self.entries.len()
            invariant
                i <= self.entries.len(),
                self@.len() == self.entries.len(),
                acc == cumulative(self@, i as int),
                1 <= roll,
                acc < roll <= self.total(),
                self.total() == self.total_weight,
            decreases self.entries.len() - i,
        {
            let weight = self.entries[i].weight;
            proof {
                lemma_cumulative_monotone(self@, i + 1, self@.len() as int);
                assert(self@[i as int] == entry_view(self.entries@[i as int]));
            }
            let share: i128 = if weight > 0 {
                weight as i128
            } else {
                0
            };
            let next = acc + share;
            if roll <= next {
                let name = self.entries[i].name.clone();
                assert(selects(self@, roll as int, i as int));
                return Some(name);
            }
            acc = next;
            i = i + 1;
        }
        None
    }

    /// Draws one key at random, each entry with a chance in proportion to its
    /// share. Nothing comes out of a table without any share.
    pub fn roll(&self, rng: &mut RandomNumberGenerator) -> (r: Option<String>)
        ensures
            r is Some <==> self.total() > 0,
            r matches Some(name) ==> exists|i: int|
                0 <= i < self@.len() && self@[i].1 > 0 && name@ == self@[i].0,
    {
        proof {
            use_type_invariant(self);
            lemma_cumulative_monotone(self@, 0, self@.len() as int);
            let s = self@;
            assert forall|i: int| 0 <= i < s.len() implies (#[trigger] s[i]).1 <= i64::MAX by {
                assert(s[i] == entry_view(self.entries@[i]));
            }
            lemma_cumulative_bounds(s, s.len() as int);
            assert(s.len() == self.entries.len());
            assert(s.len() * i64::MAX <= usize::MAX * i64::MAX) by (nonlinear_arith)
                requires
                    s.len() <= usize::MAX,
            ;
        }
        if self.total_weight <= 0 {
            return None;
        }
        let roll = roll_range(rng, 1, self.total_weight + 1);
        self.pick(roll)
    }
}

} // verus!
