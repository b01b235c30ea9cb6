use dice_sim::AssetGate;
use dice_sim::CommandQueue;
use dice_sim::Command;
use dice_sim::DieCollider;
use dice_sim::DieKind;
use dice_sim::GateStep;
use dice_sim::InputTracker;
use dice_sim::KeyState;
use dice_sim::NamedMeshes;
use dice_sim::SetOnce;
use dice_sim::Simulation;
use dice_sim::SpawnOutcome;
use dice_sim::decode_command;
use dice_sim::direction_from_samples;
use dice_sim::ROTATION_RATE_RAD_PER_S_DEN;
use dice_sim::ROTATION_RATE_RAD_PER_S_NUM;
use dice_sim::source_mesh_name;
use dice_sim::spawn_position;

fn no_keys() -> KeyState {
    KeyState {
        rotate_x: false,
        rotate_y: false,
        rotate_z: false,
        reset_orientation: false,
        orbit_left: false,
        orbit_right: false,
        orbit_down: false,
        orbit_up: false,
        roll: false,
        clear: false,
    }
}

fn nothing_found() -> NamedMeshes {
    NamedMeshes { d4: None, d12: None, d20: None }
}

fn all_found() -> NamedMeshes {
    NamedMeshes { d4: Some(11), d12: Some(12), d20: Some(13) }
}

/// Drives a fresh simulation until its die-mesh table is populated.
fn ready_sim() -> Simulation {
    let mut sim = Simulation::new(800, 600, 7);
    let r = sim.tick(&no_keys(), true, &all_found());
    assert!(matches!(r.gate, GateStep::Populated));
    assert!(sim.table_ready());
    sim
}

#[test]
fn queue_is_fifo() {
    let mut q = CommandQueue::new();
    assert_eq!(q.try_dequeue(), None);
    q.enqueue(3);
    q.enqueue(1);
    q.enqueue(0);
    q.enqueue(2);
    assert_eq!(q.len(), 4);
    assert_eq!(q.try_dequeue(), Some(3));
    assert_eq!(q.try_dequeue(), Some(1));
    assert_eq!(q.try_dequeue(), Some(0));
    assert_eq!(q.try_dequeue(), Some(2));
    assert_eq!(q.try_dequeue(), None);
}

#[test]
fn commands_consumed_in_order_one_per_tick() {
    let mut sim = ready_sim();
    sim.enqueue_command(2);
    sim.enqueue_command(0);
    sim.enqueue_command(3);
    let r = sim.tick(&no_keys(), false, &nothing_found());
    assert!(matches!(r.spawn, SpawnOutcome::Spawned(2)));
    assert_eq!(sim.dice_count(), 2);
    assert_eq!(sim.queue_len(), 2);
    let r = sim.tick(&no_keys(), false, &nothing_found());
    assert!(matches!(r.spawn, SpawnOutcome::Cleared));
    assert_eq!(sim.dice_count(), 0);
    let r = sim.tick(&no_keys(), false, &nothing_found());
    assert!(matches!(r.spawn, SpawnOutcome::Spawned(3)));
    assert_eq!(sim.dice_count(), 3);
    let r = sim.tick(&no_keys(), false, &nothing_found());
    assert!(matches!(r.spawn, SpawnOutcome::NoCommand));
    assert_eq!(sim.dice_count(), 3);
}

#[test]
fn clear_empties_world_whatever_was_there() {
    let mut sim = ready_sim();
    sim.enqueue_command(5);
    sim.tick(&no_keys(), false, &nothing_found());
    assert_eq!(sim.dice_count(), 5);
    sim.enqueue_command(0);
    let r = sim.tick(&no_keys(), false, &nothing_found());
    assert!(matches!(r.spawn, SpawnOutcome::Cleared));
    assert_eq!(sim.dice_count(), 0);

    // Clearing an already empty world is also fine.
    sim.enqueue_command(0);
    let r = sim.tick(&no_keys(), false, &nothing_found());
    assert!(matches!(r.spawn, SpawnOutcome::Cleared));
    assert_eq!(sim.dice_count(), 0);
}

#[test]
fn spawn_adds_exactly_n_dice_with_hull_and_flat_impulse() {
    let mut sim = ready_sim();
    sim.enqueue_command(4);
    let r = sim.tick(&no_keys(), false, &nothing_found());
    assert!(matches!(r.spawn, SpawnOutcome::Spawned(4)));
    assert_eq!(sim.dice_count(), 4);
    for die in sim.dice().iter() {
        assert_eq!(die.mesh, 13);
        assert!(matches!(die.collider, DieCollider::ConvexHullOf(13)));
        assert_eq!(die.impulse.y, 0);
        assert!(die.impulse.x != 0 || die.impulse.z != 0);
    }
    // A second spawn command adds to what is there.
    sim.enqueue_command(255);
    sim.tick(&no_keys(), false, &nothing_found());
    assert_eq!(sim.dice_count(), 259);
}

#[test]
fn spawn_before_table_is_ready_is_reported() {
    let mut sim = Simulation::new(800, 600, 7);
    sim.enqueue_command(2);
    let r = sim.tick(&no_keys(), false, &nothing_found());
    assert!(matches!(r.spawn, SpawnOutcome::TableNotReady));
    assert_eq!(sim.dice_count(), 0);
}

#[test]
fn gate_waits_then_populates_then_stays_idle() {
    let mut gate = AssetGate::new(7);
    assert_eq!(gate.pending_front(), Some(7));
    assert!(matches!(gate.tick(false, &all_found()), GateStep::Waiting));
    assert!(matches!(gate.tick(false, &all_found()), GateStep::Waiting));
    assert!(matches!(gate.tick(true, &all_found()), GateStep::Populated));
    let (d4, d12, d20) = {
        let t = gate.table().unwrap();
        (t.mesh_for(DieKind::D4), t.mesh_for(DieKind::D12), t.mesh_for(DieKind::D20))
    };
    assert_eq!((d4, d12, d20), (11, 12, 13));
    // Once populated, further ticks change nothing, whatever they report.
    for _ in 0..3 {
        assert!(matches!(gate.tick(true, &nothing_found()), GateStep::Idle));
        assert!(matches!(gate.tick(false, &all_found()), GateStep::Idle));
        let t = gate.table().unwrap();
        assert_eq!(t.mesh_for(DieKind::D4), 11);
        assert_eq!(t.mesh_for(DieKind::D12), 12);
        assert_eq!(t.mesh_for(DieKind::D20), 13);
    }
    assert_eq!(gate.pending_front(), None);
}

#[test]
fn gate_reports_missing_sub_mesh() {
    let mut gate = AssetGate::new(7);
    let partial = NamedMeshes { d4: Some(11), d12: None, d20: Some(13) };
    assert!(matches!(gate.tick(true, &partial), GateStep::MissingMesh));
    assert!(gate.table().is_none());
    // The asset stays pending; a later complete lookup still populates.
    assert_eq!(gate.pending_front(), Some(7));
    assert!(matches!(gate.tick(true, &all_found()), GateStep::Populated));
}

#[test]
fn sub_mesh_names_are_fixed() {
    assert_eq!(source_mesh_name(DieKind::D4), "Polygon.001");
    assert_eq!(source_mesh_name(DieKind::D12), "Polygon.013");
    assert_eq!(source_mesh_name(DieKind::D20), "Icosphere.003");
}

#[test]
fn held_trigger_key_fires_once() {
    let mut tracker = InputTracker::new();
    let mut q = CommandQueue::new();
    let mut held = no_keys();
    held.roll = true;
    for _ in 0..5 {
        tracker.tick(&held, &mut q);
    }
    assert_eq!(q.len(), 1);
    assert_eq!(q.try_dequeue(), Some(1));
    // Release, then press again: a new edge, a new command.
    tracker.tick(&no_keys(), &mut q);
    for _ in 0..3 {
        tracker.tick(&held, &mut q);
    }
    assert_eq!(q.len(), 1);
    assert_eq!(q.try_dequeue(), Some(1));
}

#[test]
fn clear_key_enqueues_clear_command_on_edge() {
    let mut tracker = InputTracker::new();
    let mut q = CommandQueue::new();
    let mut held = no_keys();
    held.clear = true;
    for _ in 0..4 {
        tracker.tick(&held, &mut q);
    }
    assert_eq!(q.len(), 1);
    assert_eq!(q.try_dequeue(), Some(0));
}

#[test]
fn roll_key_spawns_one_die_through_the_whole_loop() {
    let mut sim = ready_sim();
    let mut held = no_keys();
    held.roll = true;
    // The press edge enqueues the roll command, and the same tick's spawn
    // policy consumes it.
    let r = sim.tick(&held, false, &nothing_found());
    assert!(matches!(r.spawn, SpawnOutcome::Spawned(1)));
    assert_eq!(sim.dice_count(), 1);
    // Holding the key over further ticks spawns nothing more.
    let r = sim.tick(&held, false, &nothing_found());
    assert!(matches!(r.spawn, SpawnOutcome::NoCommand));
    assert_eq!(sim.dice_count(), 1);
}

#[test]
fn both_trigger_keys_fire_roll_then_clear() {
    let mut tracker = InputTracker::new();
    let mut q = CommandQueue::new();
    let mut held = no_keys();
    held.roll = true;
    held.clear = true;
    tracker.tick(&held, &mut q);
    assert_eq!(q.len(), 2);
    assert_eq!(q.try_dequeue(), Some(1));
    assert_eq!(q.try_dequeue(), Some(0));
}

#[test]
fn direction_passes_samples_through_flat() {
    let d = direction_from_samples(3, -5);
    assert_eq!((d.x, d.y, d.z), (3, 0, -5));
    let d = direction_from_samples(-1000, 1000);
    assert_eq!((d.x, d.y, d.z), (-1000, 0, 1000));
}

#[test]
fn degenerate_samples_fall_back_to_positive_x() {
    let d = direction_from_samples(0, 0);
    assert_eq!((d.x, d.y, d.z), (1000, 0, 0));
    // A single zero component is not degenerate and passes through.
    let d = direction_from_samples(0, -7);
    assert_eq!((d.x, d.y, d.z), (0, 0, -7));
}

#[test]
fn rotation_rate_is_five_sixths_radian_per_second() {
    assert_eq!(ROTATION_RATE_RAD_PER_S_NUM, 5);
    assert_eq!(ROTATION_RATE_RAD_PER_S_DEN, 6);
}

#[test]
fn command_decoding() {
    assert!(matches!(decode_command(0), Command::Clear));
    assert!(matches!(decode_command(1), Command::Spawn(1)));
    assert!(matches!(decode_command(255), Command::Spawn(255)));
}

#[test]
fn sender_slot_sets_once() {
    let mut slot: SetOnce<u32> = SetOnce::new();
    assert_eq!(slot.get(), None);
    assert_eq!(slot.set(5), Ok(()));
    assert_eq!(slot.get(), Some(&5));
    assert_eq!(slot.set(9), Err(9));
    assert_eq!(slot.get(), Some(&5));
}

#[test]
fn spawn_origin_is_fixed() {
    let p = spawn_position();
    assert_eq!((p.x, p.y, p.z), (0, 100, -500));
}
