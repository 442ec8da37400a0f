use cooltraption_simulation::action::{Action, ActionPacket, Actions};
use cooltraption_simulation::action_table::ActionTable;
use cooltraption_simulation::components::{
    advance_axis_exec, push_axis_exec, Acceleration, DeltaTime, PhysicsBundle, Position, Velocity,
};
use cooltraption_simulation::driver::{DriverCommand, DriverEvent, DriverPhase, SimulationDriver};
use cooltraption_simulation::schedule::{Schedule, ScheduleError, Stage, System};
use cooltraption_simulation::simulation::{
    SimulationImpl, SimulationImplBuilder, TickInput, MAX_TICKS_AHEAD,
};
use cooltraption_simulation::simulation_state::SimulationState;
use cooltraption_simulation::tick::Tick;
use cooltraption_simulation::world::{Entity, EntityRecord, World};

fn spawn(x: i64, y: i64) -> Action {
    Action::SpawnBall { velocity: Velocity { x, y } }
}

fn sim_at(tick: u64) -> SimulationImpl {
    SimulationImpl::new(
        SimulationState::with_world(World::new(), Tick(tick)),
        Schedule::standard(),
        ActionTable::new(),
    )
}

fn input(actions: Vec<Action>, action_packets: Vec<ActionPacket>, dt: u64) -> TickInput {
    TickInput { actions, action_packets, delta_time: DeltaTime(dt) }
}

fn position(sim: &SimulationImpl, i: usize) -> Option<Position> {
    sim.state().world().get(Entity(i)).and_then(|r| r.position)
}

#[test]
fn spawned_entities_move_by_velocity_times_delta() {
    let mut sim = sim_at(0);
    let actions: Vec<Action> = (0..10).map(|i| spawn(i * 10, i * 30)).collect();
    sim.advance(&input(actions, vec![], 7));
    assert_eq!(sim.state().world().len(), 10);
    for i in 0..10usize {
        let v = (i as i64 * 10, i as i64 * 30);
        assert_eq!(position(&sim, i), Some(Position { x: v.0 * 7, y: v.1 * 7 }));
        let rec = sim.state().world().get(Entity(i)).unwrap();
        assert_eq!(rec.velocity, Some(Velocity { x: v.0, y: v.1 }));
        assert_eq!(rec.acceleration, Some(Acceleration { x: 0, y: 0 }));
    }
    assert_eq!(sim.state().current_tick(), Tick(1));
}

#[test]
fn local_action_applies_in_the_tick_it_was_made() {
    let mut sim = sim_at(5);
    let local = sim.advance(&input(vec![spawn(1, 1)], vec![], 1));
    assert_eq!(local, vec![ActionPacket::new(Tick(5), spawn(1, 1))]);
    assert_eq!(sim.state().world().len(), 1);
    assert_eq!(sim.state().actions(), &vec![spawn(1, 1)]);
    assert_eq!(sim.state().current_tick(), Tick(6));
    assert!(sim.action_table().pending(Tick(6)).is_empty());
}

#[test]
fn future_packet_waits_for_its_tick() {
    let mut sim = sim_at(3);
    let packet = ActionPacket::new(Tick(100), spawn(2, 0));
    sim.advance(&input(vec![], vec![packet], 1));
    assert_eq!(sim.action_table().pending(Tick(100)), vec![spawn(2, 0)]);
    while sim.state().current_tick() != Tick(100) {
        assert_eq!(sim.state().world().len(), 0);
        sim.advance(&input(vec![], vec![], 1));
    }
    assert_eq!(sim.action_table().pending(Tick(100)), vec![spawn(2, 0)]);
    sim.advance(&input(vec![], vec![], 1));
    assert_eq!(sim.state().world().len(), 1);
    assert!(sim.action_table().pending(Tick(100)).is_empty());
}

#[test]
fn both_producers_reach_the_same_tick() {
    let mut sim = sim_at(4);
    let local = spawn(1, 0);
    let remote = spawn(0, 1);
    sim.advance(&input(vec![local], vec![ActionPacket::new(Tick(4), remote)], 1));
    let loaded = sim.state().actions().clone();
    assert_eq!(loaded.len(), 2);
    assert_eq!(loaded.iter().filter(|a| **a == local).count(), 1);
    assert_eq!(loaded.iter().filter(|a| **a == remote).count(), 1);
    assert_eq!(sim.state().world().len(), 2);
}

#[test]
fn drain_returns_submissions_for_the_tick_in_order() {
    let mut table = ActionTable::new();
    table.submit(Tick(2), spawn(1, 0));
    table.submit(Tick(3), spawn(9, 9));
    table.submit_packets(&vec![
        ActionPacket::new(Tick(2), spawn(2, 0)),
        ActionPacket::new(Tick(5), spawn(8, 8)),
        ActionPacket::new(Tick(2), spawn(3, 0)),
    ]);
    assert_eq!(table.drain(Tick(2)), vec![spawn(1, 0), spawn(2, 0), spawn(3, 0)]);
    assert!(table.pending(Tick(2)).is_empty());
    assert_eq!(table.pending(Tick(3)), vec![spawn(9, 9)]);
    assert_eq!(table.pending(Tick(5)), vec![spawn(8, 8)]);
}

#[test]
fn second_drain_is_empty() {
    let mut table = ActionTable::new();
    table.submit(Tick(7), spawn(1, 2));
    assert_eq!(table.drain(Tick(7)), vec![spawn(1, 2)]);
    assert!(table.drain(Tick(7)).is_empty());
    assert!(table.drain(Tick(8)).is_empty());
}

#[test]
fn tick_counts_iterations() {
    let mut sim = sim_at(0);
    for _ in 0..25 {
        sim.advance(&input(vec![], vec![], 3));
    }
    assert_eq!(sim.state().current_tick(), Tick(25));
    assert_eq!(sim.state().delta_time(), DeltaTime(3));
}

#[test]
fn spawned_ball_is_integrated_in_its_tick() {
    let mut sim = sim_at(0);
    sim.advance(&input(vec![spawn(0, -4)], vec![], 5));
    assert_eq!(position(&sim, 0), Some(Position { x: 0, y: -20 }));
    let mut still = sim_at(0);
    still.advance(&input(vec![spawn(0, 0)], vec![], 5));
    assert_eq!(position(&still, 0), Some(Position { x: 0, y: 0 }));
}

#[test]
fn outward_force_accelerates_away_from_origin() {
    let mut sim = sim_at(0);
    sim.state_mut().world_mut().spawn(PhysicsBundle {
        position: Position { x: 10, y: -10 },
        velocity: Velocity { x: 0, y: 0 },
        acceleration: Acceleration { x: 0, y: 0 },
    });
    sim.advance(&input(vec![Action::OutwardForce { strength: 2 }], vec![], 3));
    let rec = sim.state().world().get(Entity(0)).unwrap();
    assert_eq!(rec.acceleration, Some(Acceleration { x: 2, y: -2 }));
    assert_eq!(rec.velocity, Some(Velocity { x: 6, y: -6 }));
    assert_eq!(rec.position, Some(Position { x: 28, y: -28 }));
}

#[test]
fn entity_without_all_components_is_not_integrated() {
    let mut sim = sim_at(0);
    let e = sim.state_mut().world_mut().spawn_empty();
    assert!(sim.state_mut().world_mut().insert_position(e, Position { x: 1, y: 1 }));
    assert!(sim.state_mut().world_mut().insert_velocity(e, Velocity { x: 5, y: 5 }));
    assert!(!sim.state_mut().world_mut().insert_acceleration(Entity(9), Acceleration { x: 1, y: 1 }));
    sim.advance(&input(vec![], vec![], 10));
    assert_eq!(position(&sim, 0), Some(Position { x: 1, y: 1 }));
    assert!(sim.state_mut().world_mut().insert_acceleration(e, Acceleration { x: 0, y: 0 }));
    sim.advance(&input(vec![], vec![], 10));
    assert_eq!(position(&sim, 0), Some(Position { x: 51, y: 51 }));
}

#[test]
fn integration_saturates() {
    assert_eq!(advance_axis_exec(3, 4, 5), 23);
    assert_eq!(advance_axis_exec(i64::MAX - 1, 1, 10), i64::MAX);
    assert_eq!(advance_axis_exec(0, i64::MIN, u64::MAX), i64::MIN);
    assert_eq!(advance_axis_exec(-5, -1, 2), -7);
    assert_eq!(push_axis_exec(1, 5, 3), 4);
    assert_eq!(push_axis_exec(1, -5, 3), -2);
    assert_eq!(push_axis_exec(1, 0, 3), 1);
    assert_eq!(push_axis_exec(i64::MIN, -1, i64::MAX), i64::MIN);
}

#[test]
fn driver_publishes_each_tick_once() {
    let mut driver = SimulationDriver::new(sim_at(0), 10);
    assert_eq!(driver.phase(), DriverPhase::Idle);
    assert!(matches!(driver.handle(DriverEvent::Published), DriverCommand::Stay));
    assert!(matches!(driver.handle(DriverEvent::Start), DriverCommand::PullInputs));
    let cmd = driver.handle(DriverEvent::Inputs(input(vec![spawn(1, 1)], vec![], 2)));
    match cmd {
        DriverCommand::Publish { tick, local_packets } => {
            assert_eq!(tick, Tick(0));
            assert_eq!(local_packets, vec![ActionPacket::new(Tick(0), spawn(1, 1))]);
        }
        _ => panic!("expected a publication"),
    }
    assert_eq!(driver.phase(), DriverPhase::Publishing);
    assert!(matches!(
        driver.handle(DriverEvent::Inputs(input(vec![], vec![], 2))),
        DriverCommand::Stay
    ));
    assert_eq!(driver.simulation().state().current_tick(), Tick(1));
    assert!(matches!(driver.handle(DriverEvent::Published), DriverCommand::Sleep { millis: 10 }));
    assert!(matches!(driver.handle(DriverEvent::Published), DriverCommand::Stay));
    assert_eq!(driver.phase(), DriverPhase::Running);
}

#[test]
fn observer_changes_reach_the_next_tick() {
    let mut driver = SimulationDriver::new(sim_at(0), 10);
    driver.handle(DriverEvent::Start);
    driver.handle(DriverEvent::Inputs(input(vec![], vec![], 1)));
    driver.state_mut().world_mut().spawn(PhysicsBundle {
        position: Position { x: 0, y: 0 },
        velocity: Velocity { x: 3, y: 0 },
        acceleration: Acceleration { x: 0, y: 0 },
    });
    assert!(matches!(driver.handle(DriverEvent::Published), DriverCommand::Sleep { .. }));
    assert!(matches!(driver.handle(DriverEvent::Published), DriverCommand::Stay));
    driver.handle(DriverEvent::Inputs(input(vec![], vec![], 4)));
    let rec = driver.simulation().state().world().get(Entity(0)).unwrap();
    assert_eq!(rec.position, Some(Position { x: 12, y: 0 }));
    assert_eq!(driver.simulation().state().current_tick(), Tick(2));
}

#[test]
fn schedule_rejects_bad_wiring() {
    let mut schedule = Schedule::new();
    assert_eq!(schedule.add_system(Stage::Physics, System::SpawnBalls), Err(ScheduleError::WrongStage));
    assert_eq!(schedule.add_system(Stage::Action, System::SpawnBalls), Ok(()));
    assert_eq!(schedule.add_system(Stage::Action, System::SpawnBalls), Err(ScheduleError::Duplicate));
    assert_eq!(schedule.add_system(Stage::Action, System::IntegrateMotion), Err(ScheduleError::WrongStage));
    assert_eq!(schedule.add_system(Stage::Physics, System::IntegrateMotion), Ok(()));
}

#[test]
fn builder_schedule_without_physics_does_not_move() {
    let mut builder = SimulationImplBuilder::new();
    assert_eq!(builder.schedule().add_system(Stage::Action, System::SpawnBalls), Ok(()));
    let mut sim = builder.build();
    sim.advance(&input(vec![spawn(4, 4)], vec![], 5));
    assert_eq!(position(&sim, 0), Some(Position { x: 0, y: 0 }));
    assert_eq!(sim.state().current_tick(), Tick(1));
}

#[test]
fn state_loads_and_advances() {
    let mut state = SimulationState::new();
    assert_eq!(state.current_tick(), Tick(0));
    state.load_actions(Actions(vec![spawn(1, 1)]));
    state.load_delta_time(DeltaTime(9));
    state.advance_tick();
    assert_eq!(state.current_tick(), Tick(1));
    assert_eq!(state.delta_time(), DeltaTime(9));
    assert_eq!(state.actions(), &vec![spawn(1, 1)]);
    assert_eq!(Tick(41).next(), Tick(42));
}

#[test]
fn world_records() {
    let mut world = World::new();
    let e = world.spawn_empty();
    assert_eq!(e, Entity(0));
    assert_eq!(world.get(e), Some(EntityRecord::default()));
    assert_eq!(world.get(Entity(1)), None);
    assert!(!world.set_record(Entity(3), EntityRecord::default()));
}

#[test]
fn late_packet_is_dropped() {
    let mut sim = sim_at(5);
    let late = ActionPacket::new(Tick(3), spawn(1, 1));
    let now = ActionPacket::new(Tick(5), spawn(2, 2));
    sim.advance(&input(vec![], vec![late, now], 1));
    assert!(sim.action_table().pending(Tick(3)).is_empty());
    assert_eq!(sim.state().actions(), &vec![spawn(2, 2)]);
    assert_eq!(sim.state().world().len(), 1);
}

#[test]
fn action_stage_order_does_not_matter() {
    let mut world_a = World::new();
    let mut world_b = World::new();
    for w in [&mut world_a, &mut world_b] {
        w.spawn(PhysicsBundle {
            position: Position { x: -4, y: 9 },
            velocity: Velocity { x: 1, y: 0 },
            acceleration: Acceleration { x: 0, y: 0 },
        });
    }
    let actions = vec![spawn(3, 3), Action::OutwardForce { strength: 5 }];
    System::SpawnBalls.run(&mut world_a, &actions, DeltaTime(2));
    System::ApplyOutwardForce.run(&mut world_a, &actions, DeltaTime(2));
    System::ApplyOutwardForce.run(&mut world_b, &actions, DeltaTime(2));
    System::SpawnBalls.run(&mut world_b, &actions, DeltaTime(2));
    for i in 0..2 {
        assert_eq!(world_a.get(Entity(i)), world_b.get(Entity(i)));
    }
    assert_eq!(world_a.get(Entity(0)).unwrap().acceleration, Some(Acceleration { x: -5, y: 5 }));
    assert_eq!(world_a.get(Entity(1)).unwrap().acceleration, Some(Acceleration { x: 0, y: 0 }));
}

#[test]
fn packet_too_far_ahead_is_rejected() {
    let mut sim = sim_at(10);
    let edge = ActionPacket::new(Tick(10 + MAX_TICKS_AHEAD), spawn(1, 0));
    let beyond = ActionPacket::new(Tick(11 + MAX_TICKS_AHEAD), spawn(0, 1));
    sim.advance(&input(vec![], vec![edge, beyond], 1));
    assert_eq!(sim.action_table().pending(Tick(10 + MAX_TICKS_AHEAD)), vec![spawn(1, 0)]);
    assert!(sim.action_table().pending(Tick(11 + MAX_TICKS_AHEAD)).is_empty());
    assert_eq!(MAX_TICKS_AHEAD, 1000);
}

#[test]
fn interleaved_intake_and_steps_count_ticks() {
    let mut sim = sim_at(0);
    for i in 0..6u64 {
        sim.handle_actions(&vec![], &vec![]);
        if i % 2 == 0 {
            sim.handle_actions(&vec![spawn(1, 1)], &vec![]);
        }
        sim.step_simulation(DeltaTime(1));
    }
    assert_eq!(sim.state().current_tick(), Tick(6));
}
