use vstd::pervasive::VecAdditionalExecFns;
use vstd::prelude::*;

verus! {

/// A deterministic simulation as the control core sees it: opaque world
/// state advanced one discrete tick at a time. Only what the control loop
/// reads is modeled: the current tick index and the per-subsystem state
/// hashes that the consistency monitor samples. The work done inside a tick
/// belongs to the simulation engine and is outside this crate.
pub struct Simulation {
    tick: u64,
    hashes: Vec<(String, u64)>,
}

/// The scheduling strategy handed to each tick: subsystems run once, in a
/// fixed sequential order. It keeps no state between calls.
pub struct SeqSchedule {}

impl Default for SeqSchedule {
    fn default() -> (r: Self) {
        SeqSchedule {}
    }
}

/// The key of each entry, seen as a sequence of characters.
pub open spec fn hash_views(s: Seq<(String, u64)>) -> Seq<(Seq<char>, u64)> {
    s.map_values(|p: (String, u64)| (p.0@, p.1))
}

/// No two entries share a subsystem name.
pub open spec fn unique_keys(s: Seq<(Seq<char>, u64)>) -> bool {
    forall|i: int, j: int| 0 <= i < j < s.len() ==> s[i].0 != s[j].0
}

/// The hash recorded for `key`: the first entry with that name, if any.
pub open spec fn hash_lookup(s: Seq<(Seq<char>, u64)>, key: Seq<char>) -> Option<u64>
    decreases s.len(),
{
    if s.len() == 0 {
        None
    } else if s[0].0 == key {
        Some(s[0].1)
    } else {
        hash_lookup(s.drop_first(), key)
    }
}

impl Simulation {
    /// The current tick index.
    pub closed spec fn spec_tick(self) -> u64 {
        self.tick
    }

    /// The per-subsystem state hashes the simulation currently exposes.
    pub closed spec fn spec_hashes(self) -> Seq<(Seq<char>, u64)> {
        hash_views(self.hashes@)
    }

    /// Subsystem names never repeat in the exposed hash table.
    pub open spec fn wf(self) -> bool {
        unique_keys(self.spec_hashes())
    }

    /// A fresh world, positioned at tick 0, with no subsystem hashes
    /// published yet.
    pub fn new() -> (r: Simulation)
        ensures
            r.wf(),
            r.spec_tick() == 0,
            r.spec_hashes() == Seq::<(Seq<char>, u64)>::empty(),
    {
        let r = Simulation { tick: 0, hashes: Vec::new() };
        proof {
            assert(hash_views(r.hashes@) =~= Seq::<(Seq<char>, u64)>::empty());
        }
        r
    }

    /// The current tick index.
    pub fn get_tick(&self) -> (r: u64)
        ensures
            r == self.spec_tick(),
    {
        self.tick
    }

    /// Advance the world by exactly one discrete unit of simulated time,
    /// running every subsystem in the order the schedule fixes.
    pub fn advance_one_tick(&mut self, _schedule: &mut SeqSchedule)
        requires
            old(self).spec_tick() < u64::MAX,
        ensures
            final(self).spec_tick() == old(self).spec_tick() + 1,
            final(self).spec_hashes() == old(self).spec_hashes(),
            final(self).wf() == old(self).wf(),
    {
        self.tick = self.tick + 1;
    }

    /// A copy of the per-subsystem state hashes, as (name, hash) pairs.
    pub fn hashes(&self) -> (r: Vec<(String, u64)>)
        ensures
            hash_views(r@) == self.spec_hashes(),
    {
        let n = self.hashes.len();
        let mut r: Vec<(String, u64)> = Vec::new();
        let mut i: usize = 0;
        while i < n
            invariant
                n == self.hashes.len(),
                i <= n,
                r@.len() == i,
                forall|j: int| 0 <= j < i ==> r@[j] == self.hashes@[j],
            decreases n - i,
        {
            let e = &self.hashes[i];
            r.push((e.0.clone(), e.1));
            i = i + 1;
        }
        proof {
            assert(r@ =~= self.hashes@);
        }
        r
    }

    /// Publish or update the state hash of one named subsystem, leaving
    /// every other subsystem's hash and the tick as they were. The engine
    /// behind the simulation does this as part of running its subsystems.
    pub fn set_subsystem_hash(&mut self, name: String, hash: u64)
        requires
            old(self).wf(),
        ensures
            final(self).wf(),
            final(self).spec_tick() == old(self).spec_tick(),
            hash_lookup(final(self).spec_hashes(), name@) == Some(hash),
            forall|k: Seq<char>|
                k != name@ ==> hash_lookup(final(self).spec_hashes(), k) == hash_lookup(
                    old(self).spec_hashes(),
                    k,
                ),
    {
        let ghost s = hash_views(old(self).hashes@);
        let n = self.hashes.len();
        let mut i: usize = 0;
        while i < n
            invariant
                n == self.hashes.len(),
                i <= n,
                *self == *old(self),
                forall|j: int| 0 <= j < i ==> s[j].0 != name@,
                s == hash_views(old(self).hashes@),
                unique_keys(s),
            decreases n - i,
        {
            if self.hashes[i].0 == name {
                proof {
                    assert(s[i as int].0 == name@);
                }
                self.hashes.set(i, (name, hash));
                proof {
                    let t = hash_views(self.hashes@);
                    assert(t =~= s.update(i as int, (s[i as int].0, hash)));
                    assert(hash_lookup(t, name@) == Some(hash)) by {
                        lemma_lookup_update(s, i as int, hash, name@);
                    }
                    assert forall|k: Seq<char>| k != name@ implies hash_lookup(t, k)
                        == hash_lookup(s, k) by {
                        lemma_lookup_update(s, i as int, hash, k);
                    }
                    assert forall|p: int, q: int| 0 <= p < q < t.len() implies t[p].0
                        != t[q].0 by {
                        assert(t[p].0 == s[p].0);
                        assert(t[q].0 == s[q].0);
                        assert(s[p].0 != s[q].0);
                    }
                }
                return;
            }
            i = i + 1;
        }
        self.hashes.push((name, hash));
        proof {
            let t = hash_views(self.hashes@);
            assert(t =~= s.push((name@, hash)));
            assert(hash_lookup(s, name@) is None) by {
                lemma_absent_key_lookup_none(s, name@);
            }
            assert(hash_lookup(t, name@) == Some(hash)) by {
                lemma_lookup_push(s, (name@, hash), name@);
            }
            assert forall|k: Seq<char>| k != name@ implies hash_lookup(t, k) == hash_lookup(
                s,
                k,
            ) by {
                lemma_lookup_push(s, (name@, hash), k);
            }
            assert forall|p: int, q: int| 0 <= p < q < t.len() implies t[p].0 != t[q].0 by {
                if q < s.len() {
                    assert(t[p].0 == s[p].0);
                    assert(t[q].0 == s[q].0);
                    assert(s[p].0 != s[q].0);
                } else {
                    assert(t[q].0 == name@);
                    assert(t[p].0 == s[p].0);
                    assert(s[p].0 != name@);
                }
            }
        }
    }
}

/// Rewriting the entry at `i` with a new hash for the same key changes the
/// lookup for that key and for no other.
proof fn lemma_lookup_update(s: Seq<(Seq<char>, u64)>, i: int, v: u64, k: Seq<char>)
    requires
        0 <= i < s.len(),
        unique_keys(s),
    ensures
        hash_lookup(s.update(i, (s[i].0, v)), k) == (if k == s[i].0 {
            Some(v)
        } else {
            hash_lookup(s, k)
        }),
    decreases i,
{
    let t = s.update(i, (s[i].0, v));
    if i == 0 {
        assert(t.drop_first() =~= s.drop_first());
    } else {
        assert(t[0] == s[0]);
        assert(s[0].0 != s[i].0);
        if k == s[0].0 {
        } else {
            assert(t.drop_first() =~= s.drop_first().update(i - 1, (s.drop_first()[i - 1].0, v)));
            assert(unique_keys(s.drop_first())) by {
                assert(forall|p: int, q: int|
                    0 <= p < q < s.drop_first().len() ==> s.drop_first()[p].0 != s.drop_first()[q].0);
            }
            lemma_lookup_update(s.drop_first(), i - 1, v, k);
        }
    }
}

/// Appending an entry answers a lookup only where no earlier entry already
/// does.
proof fn lemma_lookup_push(s: Seq<(Seq<char>, u64)>, e: (Seq<char>, u64), k: Seq<char>)
    ensures
        hash_lookup(s.push(e), k) == (match hash_lookup(s, k) {
            Some(v) => Some(v),
            None => if k == e.0 {
                Some(e.1)
            } else {
                None::<u64>
            },
        }),
    decreases s.len(),
{
    if s.len() == 0 {
        assert(s.push(e)[0] == e);
        assert(s.push(e).drop_first() =~= Seq::<(Seq<char>, u64)>::empty());
    } else {
        assert(s.push(e)[0] == s[0]);
        assert(s.push(e).drop_first() =~= s.drop_first().push(e));
        lemma_lookup_push(s.drop_first(), e, k);
    }
}

/// A key that no entry holds looks up to nothing.
proof fn lemma_absent_key_lookup_none(s: Seq<(Seq<char>, u64)>, k: Seq<char>)
    requires
        forall|j: int| 0 <= j < s.len() ==> s[j].0 != k,
    ensures
        hash_lookup(s, k) is None,
    decreases s.len(),
{
    if s.len() > 0 {
        lemma_absent_key_lookup_none(s.drop_first(), k);
    }
}

} // verus!
