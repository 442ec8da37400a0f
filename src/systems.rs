use vstd::prelude::*;

use crate::action::Action;
use crate::components::{
    advance_axis, advance_axis_exec, push_axis, push_axis_exec, Acceleration, DeltaTime,
    PhysicsBundle, Position, Velocity,
};
use crate::world::{bundle_record, Entity, EntityRecord, World};

verus! {

/// The bundle of a ball spawned at the origin with velocity `v`.
pub open spec fn ball_bundle(v: Velocity) -> PhysicsBundle {
    PhysicsBundle {
        position: Position { x: 0, y: 0 },
        velocity: v,
        acceleration: Acceleration { x: 0, y: 0 },
    }
}

/// The records that the spawn actions of `actions` add, in order.
pub open spec fn spawned_records(actions: Seq<Action>) -> Seq<EntityRecord>
    decreases actions.len(),
{
    if actions.len() == 0 {
        Seq::empty()
    } else {
        let prev = spawned_records(actions.drop_last());
        match actions.last() {
            Action::SpawnBall { velocity } => prev.push(bundle_record(ball_bundle(velocity))),
            _ => prev,
        }
    }
}

/// `rec` after one outward push of `strength`; only an entity with a position
/// and an acceleration is pushed.
pub open spec fn pushed(rec: EntityRecord, strength: i64) -> EntityRecord {
    match (rec.position, rec.acceleration) {
        (Some(p), Some(a)) => EntityRecord {
            acceleration: Some(
                Acceleration {
                    x: push_axis(a.x as int, p.x as int, strength as int) as i64,
                    y: push_axis(a.y as int, p.y as int, strength as int) as i64,
                },
            ),
            ..rec
        },
        _ => rec,
    }
}

/// `rec` after every outward force of `actions`, in order.
pub open spec fn forced(rec: EntityRecord, actions: Seq<Action>) -> EntityRecord
    decreases actions.len(),
{
    if actions.len() == 0 {
        rec
    } else {
        let prev = forced(rec, actions.drop_last());
        match actions.last() {
            Action::OutwardForce { strength } => pushed(prev, strength),
            _ => prev,
        }
    }
}

/// `rec` after one integration step of `dt` milliseconds: the velocity takes
/// the acceleration, then the position takes the new velocity. Only an entity
/// with all three components moves.
pub open spec fn integrated(rec: EntityRecord, dt: DeltaTime) -> EntityRecord {
    match (rec.position, rec.velocity, rec.acceleration) {
        (Some(p), Some(v), Some(a)) => {
            let nv = Velocity {
                x: advance_axis(v.x as int, a.x as int, dt.0 as int) as i64,
                y: advance_axis(v.y as int, a.y as int, dt.0 as int) as i64,
            };
            let np = Position {
                x: advance_axis(p.x as int, nv.x as int, dt.0 as int) as i64,
                y: advance_axis(p.y as int, nv.y as int, dt.0 as int) as i64,
            };
            EntityRecord { position: Some(np), velocity: Some(nv), acceleration: Some(a) }
        },
        _ => rec,
    }
}

/// The world `w` after the spawn system ran over `actions`.
pub open spec fn spawn_effect(w: Seq<EntityRecord>, actions: Seq<Action>) -> Seq<EntityRecord> {
    w + spawned_records(actions)
}

/// The world `w` after the outward force system ran over `actions`.
pub open spec fn force_effect(w: Seq<EntityRecord>, actions: Seq<Action>) -> Seq<EntityRecord> {
    Seq::new(w.len(), |i: int| forced(w[i], actions))
}

/// The world `w` after the integration system ran for `dt`.
pub open spec fn integrate_effect(w: Seq<EntityRecord>, dt: DeltaTime) -> Seq<EntityRecord> {
    Seq::new(w.len(), |i: int| integrated(w[i], dt))
}

/// Spawns one ball for each spawn action, in order.
pub fn spawn_balls(world: &mut World, actions: &Vec<Action>)
    ensures
        final(world)@ == spawn_effect(old(world)@, actions@),
{
    let mut i: usize = 0;
    while i < actions.len()
        invariant
            i <= actions@.len(),
            world@ == old(world)@ + spawned_records(actions@.take(i as int)),
        decreases actions@.len() - i,
    {
        assert(actions@.take(i + 1).drop_last() =~= actions@.take(i as int));
        match actions[i] {
            Action::SpawnBall { velocity } => {
                world.spawn(
                    PhysicsBundle {
                        position: Position { x: 0, y: 0 },
                        velocity,
                        acceleration: Acceleration { x: 0, y: 0 },
                    },
                );
                assert(world@ =~= old(world)@ + spawned_records(actions@.take(i + 1)));
            },
            _ => {},
        }
        i += 1;
    }
    assert(actions@.take(i as int) =~= actions@);
}

/// Computes `pushed(rec, strength)`.
fn push_record(rec: EntityRecord, strength: i64) -> (r: EntityRecord)
    ensures
        r == pushed(rec, strength),
{
    match (rec.position, rec.acceleration) {
        (Some(p), Some(a)) => EntityRecord {
            acceleration: Some(
                Acceleration {
                    x: push_axis_exec(a.x, p.x, strength),
                    y: push_axis_exec(a.y, p.y, strength),
                },
            ),
            ..rec
        },
        _ => rec,
    }
}

/// Computes `forced(rec, actions)`.
fn force_record(rec: EntityRecord, actions: &Vec<Action>) -> (r: EntityRecord)
    ensures
        r == forced(rec, actions@),
{
    let mut cur = rec;
    let mut i: usize = 0;
    while i < actions.len()
        invariant
            i <= actions@.len(),
            cur == forced(rec, actions@.take(i as int)),
        decreases actions@.len() - i,
    {
        assert(actions@.take(i + 1).drop_last() =~= actions@.take(i as int));
        match actions[i] {
            Action::OutwardForce { strength } => {
                cur = push_record(cur, strength);
            },
            _ => {},
        }
        i += 1;
    }
    assert(actions@.take(i as int) =~= actions@);
    cur
}

/// Applies every outward force action, in order, to each entity.
pub fn apply_outward_force(world: &mut World, actions: &Vec<Action>)
    ensures
        final(world)@ == force_effect(old(world)@, actions@),
{
    let n = world.len();
    let mut i: usize = 0;
    while i < n
        invariant
            n == old(world)@.len(),
            i <= n,
            world@.len() == n,
            forall|j: int| 0 <= j < i ==> world@[j] == forced(old(world)@[j], actions@),
            forall|j: int| i <= j < n ==> world@[j] == old(world)@[j],
        decreases n - i,
    {
        match world.get(Entity(i)) {
            Some(rec) => {
                let new_rec = force_record(rec, actions);
                world.set_record(Entity(i), new_rec);
            },
            None => {},
        }
        i += 1;
    }
    assert(world@ =~= force_effect(old(world)@, actions@));
}

/// Computes `integrated(rec, dt)`.
fn integrate_record(rec: EntityRecord, dt: DeltaTime) -> (r: EntityRecord)
    ensures
        r == integrated(rec, dt),
{
    match (rec.position, rec.velocity, rec.acceleration) {
        (Some(p), Some(v), Some(a)) => {
            let nv = Velocity {
                x: advance_axis_exec(v.x, a.x, dt.0),
                y: advance_axis_exec(v.y, a.y, dt.0),
            };
            let np = Position {
                x: advance_axis_exec(p.x, nv.x, dt.0),
                y: advance_axis_exec(p.y, nv.y, dt.0),
            };
            EntityRecord { position: Some(np), velocity: Some(nv), acceleration: Some(a) }
        },
        _ => rec,
    }
}

/// Integrates the motion of each entity that has a position, a velocity and
/// an acceleration, over `dt`.
pub fn integrate_motion(world: &mut World, dt: DeltaTime)
    ensures
        final(world)@ == integrate_effect(old(world)@, dt),
{
    let n = world.len();
    let mut i: usize = 0;
    while i < n
        invariant
            n == old(world)@.len(),
            i <= n,
            world@.len() == n,
            forall|j: int| 0 <= j < i ==> world@[j] == integrated(old(world)@[j], dt),
            forall|j: int| i <= j < n ==> world@[j] == old(world)@[j],
        decreases n - i,
    {
        match world.get(Entity(i)) {
            Some(rec) => {
                let new_rec = integrate_record(rec, dt);
                world.set_record(Entity(i), new_rec);
            },
            None => {},
        }
        i += 1;
    }
    assert(world@ =~= integrate_effect(old(world)@, dt));
}

} // verus!
