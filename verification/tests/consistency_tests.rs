use replay_core::consistency::{diverged, mismatched_subsystems, HashSnapshot};
use replay_core::sim::{SeqSchedule, Simulation};

fn snapshot(tick: u64, entries: &[(&str, u64)]) -> HashSnapshot {
    HashSnapshot {
        tick,
        entries: entries.iter().map(|(n, h)| (n.to_string(), *h)).collect(),
    }
}

#[test]
fn refresh_reads_the_simulation_hashes() {
    let mut sim = Simulation::new();
    sim.set_subsystem_hash("economy".to_string(), 42);
    sim.set_subsystem_hash("traffic".to_string(), 7);
    let snap = HashSnapshot::refresh(&sim);
    assert_eq!(snap.tick, 0);
    assert_eq!(snap.hash_of(&"economy".to_string()), Some(42));
    assert_eq!(snap.hash_of(&"traffic".to_string()), Some(7));
    assert_eq!(snap.hash_of(&"souls".to_string()), None);
}

#[test]
fn refresh_twice_on_unchanged_simulation_is_identical() {
    let mut sim = Simulation::new();
    sim.set_subsystem_hash("economy".to_string(), 42);
    sim.set_subsystem_hash("traffic".to_string(), 7);
    let mut schedule = SeqSchedule::default();
    sim.advance_one_tick(&mut schedule);
    let first = HashSnapshot::refresh(&sim);
    let second = HashSnapshot::refresh(&sim);
    assert_eq!(first.tick, second.tick);
    assert_eq!(first.entries, second.entries);
    assert!(mismatched_subsystems(&first, &second).is_empty());
    assert!(!diverged(&first, &second));
}

#[test]
fn mismatch_flags_only_the_diverged_subsystem() {
    let local = snapshot(500, &[("economy", 42), ("traffic", 7)]);
    let remote = snapshot(500, &[("economy", 42), ("traffic", 9)]);
    let bad = mismatched_subsystems(&local, &remote);
    assert_eq!(bad, vec!["traffic".to_string()]);
    assert!(diverged(&local, &remote));
}

#[test]
fn agreeing_snapshots_report_nothing() {
    let local = snapshot(100, &[("economy", 1), ("traffic", 2)]);
    let remote = snapshot(100, &[("economy", 1), ("traffic", 2)]);
    assert!(mismatched_subsystems(&local, &remote).is_empty());
    assert!(!diverged(&local, &remote));
}

#[test]
fn subsystems_only_one_side_knows_are_not_mismatches() {
    let local = snapshot(10, &[("economy", 1), ("souls", 3)]);
    let remote = snapshot(10, &[("economy", 1), ("traffic", 2)]);
    assert!(mismatched_subsystems(&local, &remote).is_empty());
}

#[test]
fn several_mismatches_come_in_local_order() {
    let local = snapshot(10, &[("a", 1), ("b", 2), ("c", 3)]);
    let remote = snapshot(10, &[("c", 9), ("a", 8), ("b", 2)]);
    let bad = mismatched_subsystems(&local, &remote);
    assert_eq!(bad, vec!["a".to_string(), "c".to_string()]);
}

#[test]
fn updating_a_subsystem_hash_replaces_the_old_value() {
    let mut sim = Simulation::new();
    sim.set_subsystem_hash("economy".to_string(), 1);
    sim.set_subsystem_hash("economy".to_string(), 2);
    let snap = HashSnapshot::refresh(&sim);
    assert_eq!(snap.entries.len(), 1);
    assert_eq!(snap.hash_of(&"economy".to_string()), Some(2));
}

#[test]
fn hashes_copy_matches_the_simulation() {
    let mut sim = Simulation::new();
    sim.set_subsystem_hash("economy".to_string(), 11);
    let copied = sim.hashes();
    assert_eq!(copied, vec![("economy".to_string(), 11)]);
}
