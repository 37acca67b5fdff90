use vstd::prelude::*;

use crate::sim::{hash_lookup, hash_views, unique_keys, Simulation};

verus! {

/// A per-subsystem integrity snapshot of a running simulation: one 64-bit
/// hash for every named subsystem, together with the tick index at which
/// the hashes were taken. Two replicas that are bit-identical produce equal
/// snapshots at equal tick indices, so a mismatched entry localizes a
/// divergence to its subsystem.
pub struct HashSnapshot {
    /// The tick index at which the snapshot was taken.
    pub tick: u64,
    /// One entry per subsystem: its name and its state hash.
    pub entries: Vec<(String, u64)>,
}

/// The names in `a` that `b` also knows but hashes differently, in the
/// order `a` lists them: exactly the subsystems to report as diverged.
pub open spec fn spec_mismatches(
    a: Seq<(Seq<char>, u64)>,
    b: Seq<(Seq<char>, u64)>,
) -> Seq<Seq<char>>
    decreases a.len(),
{
    if a.len() == 0 {
        Seq::empty()
    } else {
        let rest = spec_mismatches(a.drop_first(), b);
        match hash_lookup(b, a[0].0) {
            Some(v) => if v != a[0].1 {
                seq![a[0].0] + rest
            } else {
                rest
            },
            None => rest,
        }
    }
}

impl HashSnapshot {
    /// The entries, with each subsystem name seen as a character sequence.
    pub open spec fn spec_entries(self) -> Seq<(Seq<char>, u64)> {
        hash_views(self.entries@)
    }

    /// Subsystem names never repeat within one snapshot.
    pub open spec fn wf(self) -> bool {
        unique_keys(self.spec_entries())
    }

    /// Take a fresh snapshot of the simulation's per-subsystem hashes at
    /// its current tick. The result is a function of the simulation state
    /// alone and the simulation is left untouched, so refreshing twice
    /// against an unchanged simulation gives snapshots that agree on every
    /// subsystem.
    pub fn refresh(sim: &Simulation) -> (r: HashSnapshot)
        requires
            sim.wf(),
        ensures
            r.tick == sim.spec_tick(),
            r.spec_entries() == sim.spec_hashes(),
            r.wf(),
    {
        HashSnapshot { tick: sim.get_tick(), entries: sim.hashes() }
    }

    /// The hash this snapshot records for the named subsystem, if any.
    pub fn hash_of(&self, name: &String) -> (r: Option<u64>)
        ensures
            r == hash_lookup(self.spec_entries(), name@),
    {
        lookup_entry(&self.entries, name)
    }
}

/// Step over `i` entries that are known not to hold `key`: the lookup's
/// answer is decided by what remains.
proof fn lemma_lookup_skip(s: Seq<(Seq<char>, u64)>, key: Seq<char>, i: int)
    requires
        0 <= i <= s.len(),
        forall|j: int| 0 <= j < i ==> s[j].0 != key,
    ensures
        hash_lookup(s, key) == hash_lookup(s.skip(i), key),
    decreases i,
{
    if i > 0 {
        assert(s.drop_first().skip(i - 1) =~= s.skip(i));
        lemma_lookup_skip(s.drop_first(), key, i - 1);
    } else {
        assert(s.skip(0) =~= s);
    }
}

/// Find the first entry named `key` and return its hash.
fn lookup_entry(entries: &Vec<(String, u64)>, key: &String) -> (r: Option<u64>)
    ensures
        r == hash_lookup(hash_views(entries@), key@),
{
    let ghost views = hash_views(entries@);
    let n = entries.len();
    let mut i: usize = 0;
    while i < n
        invariant
            n == entries.len(),
            i <= n,
            views == hash_views(entries@),
            forall|j: int| 0 <= j < i ==> views[j].0 != key@,
        decreases n - i,
    {
        if entries[i].0 == *key {
            proof {
                lemma_lookup_skip(views, key@, i as int);
                assert(views.skip(i as int)[0] == views[i as int]);
            }
            return Some(entries[i].1);
        }
        i = i + 1;
    }
    proof {
        lemma_lookup_skip(views, key@, n as int);
        assert(views.skip(n as int) =~= Seq::<(Seq<char>, u64)>::empty());
    }
    None
}

/// Compare two snapshots taken at matching tick indices: report every
/// subsystem that both sides know but hash differently, in the order the
/// local snapshot lists them. An empty result means the replicas agree on
/// everything both have named.
pub fn mismatched_subsystems(local: &HashSnapshot, remote: &HashSnapshot) -> (r: Vec<String>)
    ensures
        r.deep_view() == spec_mismatches(local.spec_entries(), remote.spec_entries()),
{
    let ghost a = local.spec_entries();
    let ghost b = remote.spec_entries();
    let mut r: Vec<String> = Vec::new();
    proof {
        assert(r.deep_view() =~= Seq::<Seq<char>>::empty());
        assert(a.skip(0) =~= a);
        assert(Seq::<Seq<char>>::empty() + spec_mismatches(a, b) =~= spec_mismatches(a, b));
    }
    let n = local.entries.len();
    let mut i: usize = 0;
    while i < n
        invariant
            n == local.entries.len(),
            i <= n,
            a == local.spec_entries(),
            b == remote.spec_entries(),
            r.deep_view() + spec_mismatches(a.skip(i as int), b) == spec_mismatches(a, b),
        decreases n - i,
    {
        let ghost r_before = r.deep_view();
        let entry = &local.entries[i];
        proof {
            assert(a.skip(i as int)[0] == a[i as int]);
            assert(a.skip(i as int).drop_first() =~= a.skip(i as int + 1));
        }
        match remote.hash_of(&entry.0) {
            Some(h) => {
                if h != entry.1 {
                    r.push(entry.0.clone());
                    proof {
                        assert(r.deep_view() =~= r_before + seq![a[i as int].0]);
                        assert(r_before + (seq![a[i as int].0] + spec_mismatches(
                            a.skip(i as int + 1),
                            b,
                        )) =~= (r_before + seq![a[i as int].0]) + spec_mismatches(
                            a.skip(i as int + 1),
                            b,
                        ));
                    }
                }
            },
            None => {},
        }
        i = i + 1;
    }
    proof {
        assert(a.skip(n as int) =~= Seq::<(Seq<char>, u64)>::empty());
        assert(r.deep_view() + Seq::<Seq<char>>::empty() =~= r.deep_view());
    }
    r
}

/// Whether two snapshots disagree on any subsystem both have named: the
/// desync signal surfaced to the operator.
pub fn diverged(local: &HashSnapshot, remote: &HashSnapshot) -> (r: bool)
    ensures
        r == (spec_mismatches(local.spec_entries(), remote.spec_entries()).len() != 0),
{
    let names = mismatched_subsystems(local, remote);
    names.len() != 0
}

/// Law: taking the snapshot is deterministic. Any two snapshots that
/// `refresh` could have produced against the same simulation state carry
/// the same tick and the same hash for every subsystem.
pub proof fn lemma_refresh_deterministic(sim: Simulation, s1: HashSnapshot, s2: HashSnapshot)
    requires
        s1.tick == sim.spec_tick(),
        s1.spec_entries() == sim.spec_hashes(),
        s2.tick == sim.spec_tick(),
        s2.spec_entries() == sim.spec_hashes(),
    ensures
        s1.tick == s2.tick,
        s1.spec_entries() == s2.spec_entries(),
        forall|k: Seq<char>|
            hash_lookup(s1.spec_entries(), k) == hash_lookup(s2.spec_entries(), k),
{
}

} // verus!
