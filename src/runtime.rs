use vstd::prelude::*;

use crate::components::Position;
use crate::simulation_state::SimulationState;
use crate::world::{Entity, EntityRecord};

verus! {

/// How many snapshots may wait between the simulation and the renderer.
pub const SNAPSHOT_CHANNEL_CAPACITY: usize = 20;

/// What the renderer draws of one entity.
#[derive(Clone, Copy, Debug, PartialEq, Eq, Hash, Structural)]
pub struct Drawable {
    pub entity: Entity,
    pub position: Position,
}

/// The drawables of the entities of `w` that have a position, in entity order.
pub open spec fn drawables_of(w: Seq<EntityRecord>) -> Seq<Drawable>
    decreases w.len(),
{
    if w.len() == 0 {
        Seq::empty()
    } else {
        let prev = drawables_of(w.drop_last());
        match w.last().position {
            Some(p) => prev.push(Drawable { entity: Entity((w.len() - 1) as usize), position: p }),
            None => prev,
        }
    }
}

/// A state-complete observer that the runtime wires up.
#[derive(Clone, Copy, Debug, PartialEq, Eq, Hash, Structural)]
pub enum StateObserver {
    /// Sends the drawables of each completed state to the renderer, through a
    /// channel that holds at most `channel_capacity` snapshots.
    RendererSnapshot { channel_capacity: usize },
}

/// The task that the runtime runs last, on the main thread.
#[derive(Clone, Copy, Debug, PartialEq, Eq, Hash, Structural)]
pub enum LastTask {
    /// The render loop, with the input handler that turns keyboard events
    /// into local actions for the simulation.
    RunRenderer,
}

/// The wiring of a runtime, collected before the simulation starts.
pub struct RuntimeConfigurationBuilder {
    state_complete_observers: Vec<StateObserver>,
    last_task: Option<LastTask>,
}

impl RuntimeConfigurationBuilder {
    pub closed spec fn observers_spec(&self) -> Seq<StateObserver> {
        self.state_complete_observers@
    }

    pub closed spec fn last_task_spec(&self) -> Option<LastTask> {
        self.last_task
    }

    /// A builder with nothing wired.
    pub fn new() -> (r: RuntimeConfigurationBuilder)
        ensures
            r.observers_spec() == Seq::<StateObserver>::empty(),
            r.last_task_spec() == None::<LastTask>,
    {
        RuntimeConfigurationBuilder {
            state_complete_observers: Vec::new(),
            last_task: None,
        }
    }

    pub fn add_state_complete_observer(&mut self, observer: StateObserver)
        ensures
            final(self).observers_spec() == old(self).observers_spec().push(observer),
            final(self).last_task_spec() == old(self).last_task_spec(),
    {
        self.state_complete_observers.push(observer);
    }

    pub fn set_last_task(&mut self, task: LastTask)
        ensures
            final(self).observers_spec() == old(self).observers_spec(),
            final(self).last_task_spec() == Some(task),
    {
        self.last_task = Some(task);
    }

    /// The state-complete observers, in registration order.
    pub fn state_complete_observers(&self) -> (r: &Vec<StateObserver>)
        ensures
            r@ == self.observers_spec(),
    {
        &self.state_complete_observers
    }

    pub fn last_task(&self) -> (r: Option<LastTask>)
        ensures
            r == self.last_task_spec(),
    {
        self.last_task
    }
}

/// Wires the renderer: a state-complete observer that sends snapshots of the
/// world to it, and the render loop, which also handles keyboard input, as
/// the last task. Nothing else of the builder changes.
pub fn add_renderer(runtime_config_builder: &mut RuntimeConfigurationBuilder)
    ensures
        final(runtime_config_builder).observers_spec() == old(
            runtime_config_builder,
        ).observers_spec().push(
            StateObserver::RendererSnapshot { channel_capacity: SNAPSHOT_CHANNEL_CAPACITY },
        ),
        final(runtime_config_builder).last_task_spec() == Some(LastTask::RunRenderer),
{
    runtime_config_builder.add_state_complete_observer(
        StateObserver::RendererSnapshot { channel_capacity: SNAPSHOT_CHANNEL_CAPACITY },
    );
    runtime_config_builder.set_last_task(LastTask::RunRenderer);
}

/// The snapshot that the renderer draws: each entity that has a position,
/// in entity order.
pub fn drawables(state: &SimulationState) -> (r: Vec<Drawable>)
    ensures
        r@ == drawables_of(state@.world),
{
    let world = state.world();
    let mut r: Vec<Drawable> = Vec::new();
    let mut i: usize = 0;
    while i < world.len()
        invariant
            world@ == state@.world,
            i <= world@.len(),
            r@ == drawables_of(world@.take(i as int)),
        decreases world@.len() - i,
    {
        assert(world@.take(i + 1).drop_last() =~= world@.take(i as int));
        match world.get(Entity(i)) {
            Some(rec) => match rec.position {
                Some(p) => r.push(Drawable { entity: Entity(i), position: p }),
                None => {},
            },
            None => {},
        }
        i += 1;
    }
    assert(world@.take(i as int) =~= world@);
    r
}

} // verus!
