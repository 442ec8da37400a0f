use vstd::prelude::*;

use crate::action::Action;
use crate::components::{advance_axis, clamp, push_axis, Acceleration, DeltaTime, Position, Velocity};
use crate::systems::{
    apply_outward_force, force_effect, forced, integrate_effect, integrate_motion, spawn_balls,
    spawn_effect, spawned_records,
};
use crate::world::{EntityRecord, World};

verus! {

/// A phase of the schedule. The action stage always runs before the physics stage.
#[derive(Clone, Copy, Debug, PartialEq, Eq, Hash, Structural)]
pub enum Stage {
    Action,
    Physics,
}

/// A unit of logic run over the store during a stage.
#[derive(Clone, Copy, Debug, PartialEq, Eq, Hash, Structural)]
pub enum System {
    /// Spawns a ball for each spawn action of the tick.
    SpawnBalls,
    /// Applies the outward force actions of the tick.
    ApplyOutwardForce,
    /// Integrates the motion of every moving entity.
    IntegrateMotion,
}

/// Why a system could not be added to a schedule.
#[derive(Clone, Copy, Debug, PartialEq, Eq, Hash, Structural)]
pub enum ScheduleError {
    /// The system belongs to the other stage.
    WrongStage,
    /// The stage already holds the system.
    Duplicate,
}

/// The stage that `s` belongs to.
pub open spec fn stage_of(s: System) -> Stage {
    match s {
        System::SpawnBalls => Stage::Action,
        System::ApplyOutwardForce => Stage::Action,
        System::IntegrateMotion => Stage::Physics,
    }
}

/// The store `w` after system `s` ran once with the tick's actions and delta-time.
pub open spec fn system_effect(
    s: System,
    w: Seq<EntityRecord>,
    actions: Seq<Action>,
    dt: DeltaTime,
) -> Seq<EntityRecord> {
    match s {
        System::SpawnBalls => spawn_effect(w, actions),
        System::ApplyOutwardForce => force_effect(w, actions),
        System::IntegrateMotion => integrate_effect(w, dt),
    }
}

/// The store `w` after the systems of `ss` ran, first to last.
pub open spec fn systems_effect(
    ss: Seq<System>,
    w: Seq<EntityRecord>,
    actions: Seq<Action>,
    dt: DeltaTime,
) -> Seq<EntityRecord>
    decreases ss.len(),
{
    if ss.len() == 0 {
        w
    } else {
        system_effect(ss.last(), systems_effect(ss.drop_last(), w, actions, dt), actions, dt)
    }
}

/// A stage's systems are well formed when each belongs to that stage and none
/// appears twice.
pub open spec fn stage_wf(ss: Seq<System>, stage: Stage) -> bool {
    &&& forall|i: int| 0 <= i < ss.len() ==> stage_of(#[trigger] ss[i]) == stage
    &&& forall|i: int, j: int| 0 <= i < j < ss.len() ==> ss[i] != ss[j]
}

/// The systems pipeline: the action stage, then the physics stage.
pub struct Schedule {
    action_stage: Vec<System>,
    physics_stage: Vec<System>,
}

impl System {
    /// The stage that this system belongs to.
    pub fn stage(&self) -> (r: Stage)
        ensures
            r == stage_of(*self),
    {
        match self {
            System::SpawnBalls => Stage::Action,
            System::ApplyOutwardForce => Stage::Action,
            System::IntegrateMotion => Stage::Physics,
        }
    }

    /// Runs this system once over `world`.
    pub fn run(&self, world: &mut World, actions: &Vec<Action>, dt: DeltaTime)
        ensures
            final(world)@ == system_effect(*self, old(world)@, actions@, dt),
    {
        match self {
            System::SpawnBalls => spawn_balls(world, actions),
            System::ApplyOutwardForce => apply_outward_force(world, actions),
            System::IntegrateMotion => integrate_motion(world, dt),
        }
    }
}

/// Runs the systems of `ss`, first to last.
fn run_systems(ss: &Vec<System>, world: &mut World, actions: &Vec<Action>, dt: DeltaTime)
    ensures
        final(world)@ == systems_effect(ss@, old(world)@, actions@, dt),
{
    let mut i: usize = 0;
    while i < ss.len()
        invariant
            i <= ss@.len(),
            world@ == systems_effect(ss@.take(i as int), old(world)@, actions@, dt),
        decreases ss@.len() - i,
    {
        assert(ss@.take(i + 1).drop_last() =~= ss@.take(i as int));
        ss[i].run(world, actions, dt);
        i += 1;
    }
    assert(ss@.take(i as int) =~= ss@);
}

impl Schedule {
    /// The systems of the action stage, in order.
    pub closed spec fn action_systems(&self) -> Seq<System> {
        self.action_stage@
    }

    /// The systems of the physics stage, in order.
    pub closed spec fn physics_systems(&self) -> Seq<System> {
        self.physics_stage@
    }

    /// The systems of `stage`, in order.
    pub open spec fn systems_of(&self, stage: Stage) -> Seq<System> {
        match stage {
            Stage::Action => self.action_systems(),
            Stage::Physics => self.physics_systems(),
        }
    }

    pub open spec fn wf(&self) -> bool {
        &&& stage_wf(self.action_systems(), Stage::Action)
        &&& stage_wf(self.physics_systems(), Stage::Physics)
    }

    /// The store `w` after one run of this schedule.
    pub open spec fn effect(&self, w: Seq<EntityRecord>, actions: Seq<Action>, dt: DeltaTime) -> Seq<
        EntityRecord,
    > {
        systems_effect(
            self.physics_systems(),
            systems_effect(self.action_systems(), w, actions, dt),
            actions,
            dt,
        )
    }

    /// A schedule with two empty stages.
    pub fn new() -> (r: Schedule)
        ensures
            r.wf(),
            r.action_systems() == Seq::<System>::empty(),
            r.physics_systems() == Seq::<System>::empty(),
    {
        Schedule { action_stage: Vec::new(), physics_stage: Vec::new() }
    }

    /// The standard pipeline: spawning and outward force in the action stage,
    /// motion integration in the physics stage.
    pub fn standard() -> (r: Schedule)
        ensures
            r.wf(),
            r.action_systems() == seq![System::SpawnBalls, System::ApplyOutwardForce],
            r.physics_systems() == seq![System::IntegrateMotion],
    {
        let mut action_stage: Vec<System> = Vec::new();
        action_stage.push(System::SpawnBalls);
        action_stage.push(System::ApplyOutwardForce);
        let mut physics_stage: Vec<System> = Vec::new();
        physics_stage.push(System::IntegrateMotion);
        let r = Schedule { action_stage, physics_stage };
        assert(r.action_systems() =~= seq![System::SpawnBalls, System::ApplyOutwardForce]);
        assert(r.physics_systems() =~= seq![System::IntegrateMotion]);
        r
    }

    /// Whether `system` already stands in `stage`.
    fn holds(&self, stage: Stage, system: System) -> (r: bool)
        ensures
            r == self.systems_of(stage).contains(system),
    {
        let ss = match stage {
            Stage::Action => &self.action_stage,
            Stage::Physics => &self.physics_stage,
        };
        let mut i: usize = 0;
        while i < ss.len()
            invariant
                i <= ss@.len(),
                ss@ == self.systems_of(stage),
                forall|j: int| 0 <= j < i ==> ss@[j] != system,
            decreases ss@.len() - i,
        {
            if ss[i] == system {
                return true;
            }
            i += 1;
        }
        false
    }

    /// Appends `system` to `stage`. Fails, changing nothing, where the system
    /// belongs to the other stage or the stage already holds it.
    pub fn add_system(&mut self, stage: Stage, system: System) -> (r: Result<(), ScheduleError>)
        requires
            old(self).wf(),
        ensures
            final(self).wf(),
            stage_of(system) != stage ==> r == Err::<(), ScheduleError>(ScheduleError::WrongStage),
            stage_of(system) == stage && old(self).systems_of(stage).contains(system) ==> r == Err::<
                (),
                ScheduleError,
            >(ScheduleError::Duplicate),
            r is Ok <==> (stage_of(system) == stage && !old(self).systems_of(stage).contains(
                system,
            )),
            r is Ok ==> final(self).systems_of(stage) == old(self).systems_of(stage).push(system),
            r is Ok ==> final(self).systems_of(other_stage(stage)) == old(self).systems_of(
                other_stage(stage),
            ),
            r is Err ==> *final(self) == *old(self),
    {
        if system.stage() != stage {
            return Err(ScheduleError::WrongStage);
        }
        if self.holds(stage, system) {
            return Err(ScheduleError::Duplicate);
        }
        match stage {
            Stage::Action => self.action_stage.push(system),
            Stage::Physics => self.physics_stage.push(system),
        }
        Ok(())
    }

    /// Runs the action stage, then the physics stage, once over `world`.
    pub fn run(&self, world: &mut World, actions: &Vec<Action>, dt: DeltaTime)
        ensures
            final(world)@ == self.effect(old(world)@, actions@, dt),
    {
        run_systems(&self.action_stage, world, actions, dt);
        run_systems(&self.physics_stage, world, actions, dt);
    }
}

/// The stage that is not `s`.
pub open spec fn other_stage(s: Stage) -> Stage {
    match s {
        Stage::Action => Stage::Physics,
        Stage::Physics => Stage::Action,
    }
}

} // verus!

verus! {

/// Every record that the spawn system adds is a ball at the origin with no
/// acceleration.
proof fn lemma_spawned_are_balls(actions: Seq<Action>)
    ensures
        forall|j: int|
            0 <= j < spawned_records(actions).len() ==> {
                &&& (#[trigger] spawned_records(actions)[j]).position == Some(
                    Position { x: 0, y: 0 },
                )
                &&& spawned_records(actions)[j].acceleration == Some(Acceleration { x: 0, y: 0 })
                &&& spawned_records(actions)[j].velocity is Some
            },
    decreases actions.len(),
{
    if actions.len() > 0 {
        lemma_spawned_are_balls(actions.drop_last());
    }
}

/// An outward force leaves an entity at the origin as it is.
proof fn lemma_forced_at_origin(rec: EntityRecord, actions: Seq<Action>)
    requires
        rec.position == Some(Position { x: 0, y: 0 }),
    ensures
        forced(rec, actions) == rec,
    decreases actions.len(),
{
    if actions.len() > 0 {
        lemma_forced_at_origin(rec, actions.drop_last());
        if let Some(a) = rec.acceleration {
            assert(push_axis(a.x as int, 0, 0) == a.x);
        }
    }
}

/// A ball spawned during a tick takes part in the same tick's integration:
/// under the standard pipeline it ends the tick at its velocity times the
/// delta-time, which is off the origin when the velocity is not zero and the
/// delta-time is positive.
pub proof fn lemma_spawned_ball_moves(
    schedule: Schedule,
    w: Seq<EntityRecord>,
    actions: Seq<Action>,
    dt: DeltaTime,
    j: int,
)
    requires
        schedule.action_systems() == seq![System::SpawnBalls, System::ApplyOutwardForce],
        schedule.physics_systems() == seq![System::IntegrateMotion],
        0 <= j < spawned_records(actions).len(),
    ensures
        ({
            let out = schedule.effect(w, actions, dt);
            let v = spawned_records(actions)[j].velocity->Some_0;
            &&& out.len() == w.len() + spawned_records(actions).len()
            &&& out[w.len() + j].position == Some(
                Position { x: clamp(v.x * dt.0) as i64, y: clamp(v.y * dt.0) as i64 },
            )
            &&& out[w.len() + j].velocity == Some(v)
            &&& (v != Velocity { x: 0, y: 0 } && dt.0 > 0) ==> out[w.len() + j].position != Some(
                Position { x: 0, y: 0 },
            )
        }),
{
    let spawned = spawn_effect(w, actions);
    let pushed_w = force_effect(spawned, actions);
    assert(systems_effect(schedule.action_systems(), w, actions, dt) == pushed_w) by {
        let ss = schedule.action_systems();
        assert(ss.drop_last() =~= seq![System::SpawnBalls]);
        assert(ss.drop_last().drop_last() =~= Seq::<System>::empty());
        assert(systems_effect(ss.drop_last().drop_last(), w, actions, dt) == w);
        assert(systems_effect(ss.drop_last(), w, actions, dt) == spawned);
    }
    let out = schedule.effect(w, actions, dt);
    assert(out == integrate_effect(pushed_w, dt)) by {
        let ps = schedule.physics_systems();
        assert(ps.drop_last() =~= Seq::<System>::empty());
        assert(systems_effect(ps.drop_last(), pushed_w, actions, dt) == pushed_w);
    }
    lemma_spawned_are_balls(actions);
    let rec = spawned_records(actions)[j];
    assert(spawned[w.len() + j] == rec);
    lemma_forced_at_origin(rec, actions);
    let v = rec.velocity->Some_0;
    assert(advance_axis(v.x as int, 0, dt.0 as int) == v.x);
    assert(advance_axis(v.y as int, 0, dt.0 as int) == v.y);
    if v != (Velocity { x: 0, y: 0 }) && dt.0 > 0 {
        if v.x != 0 {
            assert(v.x * dt.0 != 0) by (nonlinear_arith)
                requires
                    v.x != 0,
                    dt.0 > 0,
            ;
        } else {
            assert(v.y * dt.0 != 0) by (nonlinear_arith)
                requires
                    v.y != 0,
                    dt.0 > 0,
            ;
        }
    }
}

/// The two systems of the action stage touch disjoint data: whichever runs
/// first, the store ends the same, so they need no order between them.
pub proof fn lemma_action_systems_commute(w: Seq<EntityRecord>, actions: Seq<Action>)
    ensures
        force_effect(spawn_effect(w, actions), actions) == spawn_effect(
            force_effect(w, actions),
            actions,
        ),
{
    lemma_spawned_are_balls(actions);
    let sp = spawned_records(actions);
    assert forall|j: int| 0 <= j < sp.len() implies forced(#[trigger] sp[j], actions) == sp[j] by {
        lemma_forced_at_origin(sp[j], actions);
    }
    assert(force_effect(spawn_effect(w, actions), actions) =~= spawn_effect(
        force_effect(w, actions),
        actions,
    ));
}

/// A body at rest at the origin, with velocity `v` and no acceleration, ends
/// a tick of the standard pipeline at `v` times the delta-time, whatever the
/// tick's actions, and keeps its velocity.
pub proof fn lemma_body_at_origin_moves_by_velocity(
    schedule: Schedule,
    w: Seq<EntityRecord>,
    actions: Seq<Action>,
    dt: DeltaTime,
    i: int,
    v: Velocity,
)
    requires
        schedule.action_systems() == seq![System::SpawnBalls, System::ApplyOutwardForce],
        schedule.physics_systems() == seq![System::IntegrateMotion],
        0 <= i < w.len(),
        w[i].position == Some(Position { x: 0, y: 0 }),
        w[i].velocity == Some(v),
        w[i].acceleration == Some(Acceleration { x: 0, y: 0 }),
    ensures
        schedule.effect(w, actions, dt)[i].position == Some(
            Position { x: clamp(v.x * dt.0) as i64, y: clamp(v.y * dt.0) as i64 },
        ),
        schedule.effect(w, actions, dt)[i].velocity == Some(v),
{
    let spawned = spawn_effect(w, actions);
    let pushed_w = force_effect(spawned, actions);
    assert(systems_effect(schedule.action_systems(), w, actions, dt) == pushed_w) by {
        let ss = schedule.action_systems();
        assert(ss.drop_last() =~= seq![System::SpawnBalls]);
        assert(ss.drop_last().drop_last() =~= Seq::<System>::empty());
        assert(systems_effect(ss.drop_last().drop_last(), w, actions, dt) == w);
        assert(systems_effect(ss.drop_last(), w, actions, dt) == spawned);
    }
    assert(schedule.effect(w, actions, dt) == integrate_effect(pushed_w, dt)) by {
        let ps = schedule.physics_systems();
        assert(ps.drop_last() =~= Seq::<System>::empty());
        assert(systems_effect(ps.drop_last(), pushed_w, actions, dt) == pushed_w);
    }
    assert(spawned[i] == w[i]);
    lemma_forced_at_origin(w[i], actions);
    assert(advance_axis(v.x as int, 0, dt.0 as int) == v.x);
    assert(advance_axis(v.y as int, 0, dt.0 as int) == v.y);
}

} // verus!
