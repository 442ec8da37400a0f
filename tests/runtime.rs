use cooltraption_simulation::components::{Acceleration, PhysicsBundle, Position, Velocity};
use cooltraption_simulation::input::{keyboard_input, ElementState, InputEvent, KeyCode};
use cooltraption_simulation::runtime::{
    add_renderer, drawables, Drawable, LastTask, RuntimeConfigurationBuilder,
    StateObserver,
};
use cooltraption_simulation::simulation_state::SimulationState;
use cooltraption_simulation::world::Entity;

#[test]
fn add_renderer_wires_snapshot_input_and_render_task() {
    let mut builder = RuntimeConfigurationBuilder::new();
    add_renderer(&mut builder);
    assert_eq!(
        builder.state_complete_observers(),
        &vec![StateObserver::RendererSnapshot { channel_capacity: 20 }]
    );
    assert_eq!(builder.last_task(), Some(LastTask::RunRenderer));
}

#[test]
fn snapshot_lists_entities_with_positions() {
    let mut state = SimulationState::new();
    let world = state.world_mut();
    world.spawn(PhysicsBundle {
        position: Position { x: 1, y: 2 },
        velocity: Velocity::default(),
        acceleration: Acceleration::default(),
    });
    world.spawn_empty();
    let e = world.spawn_empty();
    world.insert_position(e, Position { x: -3, y: 4 });
    assert_eq!(
        drawables(&state),
        vec![
            Drawable { entity: Entity(0), position: Position { x: 1, y: 2 } },
            Drawable { entity: Entity(2), position: Position { x: -3, y: 4 } },
        ]
    );
}

#[test]
fn keyboard_input_events() {
    assert_eq!(keyboard_input(Some(KeyCode(7)), ElementState::Pressed), Some(InputEvent::KeyPressed(KeyCode(7))));
    assert_eq!(keyboard_input(Some(KeyCode(7)), ElementState::Released), Some(InputEvent::KeyReleased(KeyCode(7))));
    assert_eq!(keyboard_input(None, ElementState::Pressed), None);
}
