use vstd::prelude::*;

use crate::components::{Acceleration, PhysicsBundle, Position, Velocity};

verus! {

/// An identifier of an entity in a `World`: its index in spawn order.
#[derive(Clone, Copy, Debug, PartialEq, Eq, Hash, Structural)]
pub struct Entity(pub usize);

/// The components that one entity owns; each may be missing.
#[derive(Clone, Copy, Debug, Default, PartialEq, Eq, Hash, Structural)]
pub struct EntityRecord {
    pub position: Option<Position>,
    pub velocity: Option<Velocity>,
    pub acceleration: Option<Acceleration>,
}

/// The record of an entity spawned with all components of `b`.
pub open spec fn bundle_record(b: PhysicsBundle) -> EntityRecord {
    EntityRecord {
        position: Some(b.position),
        velocity: Some(b.velocity),
        acceleration: Some(b.acceleration),
    }
}

/// The record of an entity spawned with no components.
pub open spec fn empty_record() -> EntityRecord {
    EntityRecord { position: None, velocity: None, acceleration: None }
}

/// The entity/component store: one record per entity, in spawn order.
pub struct World {
    records: Vec<EntityRecord>,
}

impl View for World {
    type V = Seq<EntityRecord>;

    closed spec fn view(&self) -> Seq<EntityRecord> {
        self.records@
    }
}

impl World {
    /// A world with no entities.
    pub fn new() -> (r: World)
        ensures
            r@ == Seq::<EntityRecord>::empty(),
    {
        World { records: Vec::new() }
    }

    /// The number of entities.
    pub fn len(&self) -> (r: usize)
        ensures
            r == self@.len(),
    {
        self.records.len()
    }

    /// Adds an entity with the given record and returns its identifier.
    pub fn spawn_record(&mut self, record: EntityRecord) -> (r: Entity)
        ensures
            final(self)@ == old(self)@.push(record),
            r.0 == old(self)@.len(),
    {
        let id = self.records.len();
        self.records.push(record);
        Entity(id)
    }

    /// Adds an entity that owns every component of `bundle`.
    pub fn spawn(&mut self, bundle: PhysicsBundle) -> (r: Entity)
        ensures
            final(self)@ == old(self)@.push(bundle_record(bundle)),
            r.0 == old(self)@.len(),
    {
        self.spawn_record(
            EntityRecord {
                position: Some(bundle.position),
                velocity: Some(bundle.velocity),
                acceleration: Some(bundle.acceleration),
            },
        )
    }

    /// Adds an entity that owns no component.
    pub fn spawn_empty(&mut self) -> (r: Entity)
        ensures
            final(self)@ == old(self)@.push(empty_record()),
            r.0 == old(self)@.len(),
    {
        self.spawn_record(EntityRecord { position: None, velocity: None, acceleration: None })
    }

    /// The record of `entity`, or `None` where no such entity exists.
    pub fn get(&self, entity: Entity) -> (r: Option<EntityRecord>)
        ensures
            r == (if entity.0 < self@.len() {
                Some(self@[entity.0 as int])
            } else {
                None
            }),
    {
        if entity.0 < self.records.len() {
            Some(self.records[entity.0])
        } else {
            None
        }
    }

    /// Replaces the record of `entity`; returns false, changing nothing,
    /// where no such entity exists.
    pub fn set_record(&mut self, entity: Entity, record: EntityRecord) -> (r: bool)
        ensures
            r == (entity.0 < old(self)@.len()),
            final(self)@ == (if r {
                old(self)@.update(entity.0 as int, record)
            } else {
                old(self)@
            }),
    {
        if entity.0 < self.records.len() {
            self.records.set(entity.0, record);
            true
        } else {
            false
        }
    }

    /// Attaches `position` to `entity`, replacing any it had.
    pub fn insert_position(&mut self, entity: Entity, position: Position) -> (r: bool)
        ensures
            r == (entity.0 < old(self)@.len()),
            final(self)@ == (if r {
                old(self)@.update(
                    entity.0 as int,
                    EntityRecord { position: Some(position), ..old(self)@[entity.0 as int] },
                )
            } else {
                old(self)@
            }),
    {
        match self.get(entity) {
            Some(rec) => self.set_record(entity, EntityRecord { position: Some(position), ..rec }),
            None => false,
        }
    }

    /// Attaches `velocity` to `entity`, replacing any it had.
    pub fn insert_velocity(&mut self, entity: Entity, velocity: Velocity) -> (r: bool)
        ensures
            r == (entity.0 < old(self)@.len()),
            final(self)@ == (if r {
                old(self)@.update(
                    entity.0 as int,
                    EntityRecord { velocity: Some(velocity), ..old(self)@[entity.0 as int] },
                )
            } else {
                old(self)@
            }),
    {
        match self.get(entity) {
            Some(rec) => self.set_record(entity, EntityRecord { velocity: Some(velocity), ..rec }),
            None => false,
        }
    }

    /// Attaches `acceleration` to `entity`, replacing any it had.
    pub fn insert_acceleration(&mut self, entity: Entity, acceleration: Acceleration) -> (r: bool)
        ensures
            r == (entity.0 < old(self)@.len()),
            final(self)@ == (if r {
                old(self)@.update(
                    entity.0 as int,
                    EntityRecord { acceleration: Some(acceleration), ..old(self)@[entity.0 as int] },
                )
            } else {
                old(self)@
            }),
    {
        match self.get(entity) {
            Some(rec) => self.set_record(
                entity,
                EntityRecord { acceleration: Some(acceleration), ..rec },
            ),
            None => false,
        }
    }
}

} // verus!
