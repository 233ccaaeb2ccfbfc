//! The `condition` object of an EventSub subscription request: a map from
//! condition field names to values, kept as entries in insertion order with
//! every field name present at most once.

use vstd::prelude::*;

verus! {

/// The map that a list of (name, value) entries describes; a later entry
/// for a name overrides an earlier one.
pub open spec fn pairs_map(ps: Seq<(Seq<char>, Seq<char>)>) -> Map<Seq<char>, Seq<char>>
    decreases ps.len(),
{
    if ps.len() == 0 {
        Map::empty()
    } else {
        pairs_map(ps.drop_last()).insert(ps.last().0, ps.last().1)
    }
}

/// No field name occurs in two entries.
pub open spec fn names_distinct(ps: Seq<(Seq<char>, Seq<char>)>) -> bool {
    forall|i: int, j: int| 0 <= i < j < ps.len() ==> #[trigger] ps[i].0 != #[trigger] ps[j].0
}

/// A name is a key of the described map exactly when some entry carries it,
/// and with distinct names the map gives that entry's value.
pub proof fn lemma_pairs_map_lookup(ps: Seq<(Seq<char>, Seq<char>)>, k: Seq<char>)
    ensures
        pairs_map(ps).contains_key(k) <==> exists|i: int| 0 <= i < ps.len() && (#[trigger] ps[i]).0 == k,
        forall|i: int|
            0 <= i < ps.len() && names_distinct(ps) && (#[trigger] ps[i]).0 == k ==> pairs_map(ps)[k]
                == ps[i].1,
    decreases ps.len(),
{
    if ps.len() > 0 {
        let d = ps.drop_last();
        lemma_pairs_map_lookup(d, k);
        assert forall|i: int| 0 <= i < d.len() implies #[trigger] d[i] == ps[i] by {}
        if pairs_map(ps).contains_key(k) && ps.last().0 != k {
            let i = choose|i: int| 0 <= i < d.len() && (#[trigger] d[i]).0 == k;
            assert(ps[i].0 == k);
        }
        if exists|i: int| 0 <= i < ps.len() && (#[trigger] ps[i]).0 == k {
            let i = choose|i: int| 0 <= i < ps.len() && (#[trigger] ps[i]).0 == k;
            if i < ps.len() - 1 {
                assert(d[i].0 == k);
            }
        }
        assert forall|i: int|
            0 <= i < ps.len() && names_distinct(ps) && (#[trigger] ps[i]).0 == k implies pairs_map(
            ps,
        )[k] == ps[i].1 by {
            if i < ps.len() - 1 {
                assert(ps[i].0 != ps[ps.len() - 1].0);
                assert(d[i].0 == k);
                assert(names_distinct(d)) by {
                    assert forall|a: int, b: int| 0 <= a < b < d.len() implies #[trigger] d[a].0
                        != #[trigger] d[b].0 by {
                        assert(ps[a].0 != ps[b].0);
                    }
                }
            }
        }
    }
}

/// Overwriting the value of an entry changes the described map as an insert does.
pub proof fn lemma_pairs_map_update(ps: Seq<(Seq<char>, Seq<char>)>, i: int, v: Seq<char>)
    requires
        0 <= i < ps.len(),
        names_distinct(ps),
    ensures
        pairs_map(ps.update(i, (ps[i].0, v))) =~= pairs_map(ps).insert(ps[i].0, v),
    decreases ps.len(),
{
    let k = ps[i].0;
    let u = ps.update(i, (k, v));
    let d = ps.drop_last();
    if i == ps.len() - 1 {
        assert(u.drop_last() =~= d);
    } else {
        assert(u.drop_last() =~= d.update(i, (k, v)));
        assert(names_distinct(d)) by {
            assert forall|a: int, b: int| 0 <= a < b < d.len() implies #[trigger] d[a].0
                != #[trigger] d[b].0 by {
                assert(ps[a].0 != ps[b].0);
            }
        }
        assert(d[i] == ps[i]);
        lemma_pairs_map_update(d, i, v);
        assert(ps.last().0 != k);
        assert(u.last() == ps.last());
    }
}

/// Condition fields of a subscription request.
pub struct Condition {
    entries: Vec<(String, String)>,
}

impl Condition {
    /// The entries, each as (name, value) text, in insertion order.
    pub closed spec fn pairs(&self) -> Seq<(Seq<char>, Seq<char>)> {
        self.entries@.map_values(|p: (String, String)| (p.0@, p.1@))
    }

    #[verifier::type_invariant]
    spec fn distinct(&self) -> bool {
        names_distinct(self.pairs())
    }

    /// An empty condition.
    pub fn new() -> (c: Condition)
        ensures
            c@ == Map::<Seq<char>, Seq<char>>::empty(),
            c.pairs() == Seq::<(Seq<char>, Seq<char>)>::empty(),
    {
        let c = Condition { entries: Vec::new() };
        assert(c.pairs() =~= Seq::<(Seq<char>, Seq<char>)>::empty());
        c
    }

    /// Sets the value of a field, as `HashMap::insert` does: the previous
    /// value of the field, if it had one, is handed back.
    pub fn insert(&mut self, name: String, value: String) -> (previous: Option<String>)
        ensures
            final(self)@ == old(self)@.insert(name@, value@),
            match previous {
                Some(p) => old(self)@.contains_key(name@) && p@ == old(self)@[name@],
                None => !old(self)@.contains_key(name@),
            },
            !old(self)@.contains_key(name@) ==> final(self).pairs() == old(self).pairs().push(
                (name@, value@),
            ),
    {
        proof {
            use_type_invariant(&*self);
        }
        let ghost ps = self.pairs();
        let mut entries: Vec<(String, String)> = Vec::new();
        std::mem::swap(&mut entries, &mut self.entries);
        assert(entries@.map_values(|p: (String, String)| (p.0@, p.1@)) == ps);
        let n = entries.len();
        let mut i: usize = 0;
        while i < n
            invariant
                n == entries.len(),
                entries@.map_values(|p: (String, String)| (p.0@, p.1@)) == ps,
                i <= n,
                ps == old(self).pairs(),
                names_distinct(ps),
                forall|j: int| 0 <= j < i ==> (#[trigger] ps[j]).0 != name@,
            decreases n - i,
        {
            if entries[i].0 == name {
                let ghost old_value = ps[i as int].1;
                let mut slot = (String::new(), String::new());
                std::mem::swap(&mut slot, &mut entries[i]);
                let (slot_name, slot_value) = slot;
                entries.set(i, (slot_name, value));
                proof {
                    lemma_pairs_map_lookup(ps, name@);
                    lemma_pairs_map_update(ps, i as int, value@);
                    let nps = entries@.map_values(|p: (String, String)| (p.0@, p.1@));
                    assert(nps =~= ps.update(i as int, (name@, value@)));
                    assert(names_distinct(nps)) by {
                        assert forall|a: int, b: int| 0 <= a < b < nps.len() implies #[trigger] nps[a].0
                            != #[trigger] nps[b].0 by {
                            assert(ps[a].0 != ps[b].0);
                        }
                    }
                }
                self.entries = entries;
                return Some(slot_value);
            }
            i = i + 1;
        }
        proof {
            lemma_pairs_map_lookup(ps, name@);
        }
        entries.push((name, value));
        proof {
            let nps = entries@.map_values(|p: (String, String)| (p.0@, p.1@));
            assert(nps =~= ps.push((name@, value@)));
            assert(nps.drop_last() =~= ps);
            assert(names_distinct(nps)) by {
                assert forall|a: int, b: int| 0 <= a < b < nps.len() implies #[trigger] nps[a].0
                    != #[trigger] nps[b].0 by {
                    if b < ps.len() {
                        assert(ps[a].0 != ps[b].0);
                    } else {
                        assert(nps[a] == ps[a]);
                    }
                }
            }
        }
        self.entries = entries;
        None
    }

    /// The value of a field, if it is set.
    pub fn get(&self, name: &str) -> (r: Option<&String>)
        ensures
            r is Some <==> self@.contains_key(name@),
            r matches Some(v) ==> v@ == self@[name@],
    {
        proof {
            use_type_invariant(self);
            lemma_pairs_map_lookup(self.pairs(), name@);
        }
        let n = self.entries.len();
        let mut i: usize = 0;
        while i < n
            invariant
                n == self.entries.len(),
                i <= n,
                names_distinct(self.pairs()),
                forall|j: int| 0 <= j < i ==> (#[trigger] self.pairs()[j]).0 != name@,
            decreases n - i,
        {
            if crate::strings::str_equal(self.entries[i].0.as_str(), name) {
                assert(self.pairs()[i as int].0 == name@);
                proof {
                    lemma_pairs_map_lookup(self.pairs(), name@);
                }
                return Some(&self.entries[i].1);
            }
            assert(self.pairs()[i as int].0 != name@);
            i = i + 1;
        }
        proof {
            lemma_pairs_map_lookup(self.pairs(), name@);
        }
        None
    }

    /// The entries in insertion order; no field name occurs twice, and the
    /// entries describe the condition's map.
    pub fn entries(&self) -> (r: &Vec<(String, String)>)
        ensures
            r@.map_values(|p: (String, String)| (p.0@, p.1@)) == self.pairs(),
            names_distinct(self.pairs()),
            pairs_map(self.pairs()) == self@,
    {
        proof {
            use_type_invariant(self);
        }
        &self.entries
    }
}

impl View for Condition {
    type V = Map<Seq<char>, Seq<char>>;

    closed spec fn view(&self) -> Map<Seq<char>, Seq<char>> {
        pairs_map(self.pairs())
    }
}

} // verus!
