//! The boundary to the entity store.
//!
//! Entities, their components and the buffer of deferred structural changes
//! are owned by `legion`.  This module names what the combat rules read from
//! a sub-world and what they record in a command buffer, and holds the calls
//! into `legion`.  The contracts of those calls are taken on trust from
//! `legion`'s source; everything built on them is proved.

use vstd::prelude::*;
use legion::Entity;
use legion::EntityStore;
use legion::IntoQuery;
use legion::Read;
use legion::systems::CommandBuffer;
use legion::world::SubWorld;
use crate::components::DamagedThisTick;
use crate::components::FiringRange;
use crate::components::Health;
use crate::components::Position;
use crate::components::Projectile;
use crate::components::Side;

verus! {

/// `legion::Entity`: an opaque identifier.  Holding one says nothing about
/// whether the entity still exists.
#[verifier::external_type_specification]
#[verifier::external_body]
pub struct ExEntity(Entity);

/// `legion::world::SubWorld`: the part of a world that one system may see.
#[verifier::external_type_specification]
#[verifier::external_body]
pub struct ExSubWorld<'a>(SubWorld<'a>);

/// `legion::systems::CommandBuffer`: structural changes queued by a system
/// and applied to the world when the buffer is flushed.
#[verifier::external_type_specification]
#[verifier::external_body]
pub struct ExCommandBuffer(CommandBuffer);

/// What a sub-world shows of one entity: each field holds the component if
/// the entity has it and the sub-world grants the access that the rules use
/// (read access for position, side and range, write access for health).
pub struct Components {
    pub position: Option<Position>,
    pub side: Option<Side>,
    pub firing_range: Option<FiringRange>,
    pub health: Option<Health>,
}

impl Components {
    /// An entity of which nothing can be seen.
    pub open spec fn absent() -> Components {
        Components { position: None, side: None, firing_range: None, health: None }
    }
}

/// One row of a scan for targets: an entity with its position and side.
#[derive(Clone, Copy, Debug, PartialEq, Eq)]
pub struct Sighting {
    pub entity: Entity,
    pub position: Position,
    pub side: Side,
}

/// A structural change waiting in a command buffer.
pub enum Deferred {
    /// Create a projectile entity.
    Spawn(Projectile),
    /// Remove an entity with all its components.
    Despawn(Entity),
    /// Attach a damage marker to an entity.
    Mark(Entity, DamagedThisTick),
    /// Detach the damage marker from an entity.
    Unmark(Entity),
}

/// The entities that a sub-world resolves, each with what it shows of them.
/// An entity is in the domain exactly if it is alive and stored in an
/// archetype that the sub-world may see.
pub uninterp spec fn units(world: SubWorld) -> Map<Entity, Components>;

/// What a scan of a sub-world for entities with a position and a side
/// yields, in the order in which the store walks them.
pub uninterp spec fn roster(world: SubWorld) -> Seq<Sighting>;

/// What decides whether a sub-world may be scanned for positions and sides:
/// `None` if it denies read access to either component; else, for each
/// archetype of the world, whether the sub-world may see it, whether it
/// holds a position, and whether it holds a side.
pub uninterp spec fn sight(world: SubWorld) -> Option<Seq<(bool, bool, bool)>>;

/// The changes queued in a command buffer, oldest first.  A flush applies
/// them in this order.
pub uninterp spec fn recorded(buffer: CommandBuffer) -> Seq<Deferred>;

/// What `units` shows of `entity`; nothing if it does not resolve.
pub open spec fn components_of(units: Map<Entity, Components>, entity: Entity) -> Components {
    if units.contains_key(entity) {
        units[entity]
    } else {
        Components::absent()
    }
}

/// No archetype that a scan would walk is hidden: each one that holds both
/// a position and a side can be seen.
pub open spec fn matches_visible(flags: Seq<(bool, bool, bool)>) -> bool {
    forall|i: int| 0 <= i < flags.len() && (#[trigger] flags[i]).1 && flags[i].2 ==> flags[i].0
}

/// A sub-world can be scanned if read access is granted and no archetype
/// that holds both a position and a side is hidden from it.  Archetypes
/// that the scan does not walk may be hidden.
pub open spec fn scan_is_open(sight: Option<Seq<(bool, bool, bool)>>) -> bool {
    match sight {
        Some(flags) => matches_visible(flags),
        None => false,
    }
}

/// The rows of a scan agree with what the sub-world shows entity by entity:
/// every row is a resolved entity with that position and side, and every
/// resolved entity that shows a position and a side has a row.
pub open spec fn portrays(rows: Seq<Sighting>, units: Map<Entity, Components>) -> bool {
    &&& forall|i: int|
        0 <= i < rows.len() ==> {
            &&& units.contains_key(#[trigger] rows[i].entity)
            &&& units[rows[i].entity].position == Some(rows[i].position)
            &&& units[rows[i].entity].side == Some(rows[i].side)
        }
    &&& forall|entity: Entity|
        #[trigger] units.contains_key(entity) && units[entity].position is Some
            && units[entity].side is Some ==> exists|i: int|
            0 <= i < rows.len() && #[trigger] rows[i].entity == entity
}

/// Calls `EntityStore::entry_ref` on the sub-world.  Trusted: the call
/// succeeds exactly for the entities in the domain of `units`.
#[verifier::external_body]
pub(crate) fn is_live(world: &SubWorld, entity: Entity) -> (live: bool)
    ensures
        live == units(*world).contains_key(entity),
{
    world.entry_ref(entity).is_ok()
}

/// Calls `EntityStore::entry_ref` and `EntryRef::get_component` for
/// `Position`.  Trusted: the result is the position that `units` shows.
#[verifier::external_body]
pub(crate) fn position_of(world: &SubWorld, entity: Entity) -> (position: Option<Position>)
    ensures
        position == components_of(units(*world), entity).position,
{
    world.entry_ref(entity).ok()?.get_component::<Position>().ok().copied()
}

/// Calls `EntityStore::entry_ref` and `EntryRef::get_component` for `Side`.
/// Trusted: the result is the side that `units` shows.
#[verifier::external_body]
pub(crate) fn side_of(world: &SubWorld, entity: Entity) -> (side: Option<Side>)
    ensures
        side == components_of(units(*world), entity).side,
{
    world.entry_ref(entity).ok()?.get_component::<Side>().ok().copied()
}

/// Calls `EntityStore::entry_ref` and `EntryRef::get_component` for
/// `FiringRange`.  Trusted: the result is the range that `units` shows.
#[verifier::external_body]
pub(crate) fn firing_range_of(world: &SubWorld, entity: Entity) -> (range: Option<FiringRange>)
    ensures
        range == components_of(units(*world), entity).firing_range,
{
    world.entry_ref(entity).ok()?.get_component::<FiringRange>().ok().copied()
}

/// Calls `EntityStore::entry_mut` and `EntryMut::into_component_mut` for
/// `Health`.  Trusted: the reference, if any, points at the health that
/// `units` shows; what is written through it becomes that entity's health
/// and nothing else in the sub-world changes.
#[verifier::external_body]
pub(crate) fn health_mut<'a>(world: &'a mut SubWorld, entity: Entity) -> (slot: Option<
    &'a mut Health,
>)
    ensures
        match slot {
            Some(health) => {
                &&& units(*old(world)).contains_key(entity)
                &&& units(*old(world))[entity].health == Some(*health)
                &&& units(*final(world)) == units(*old(world)).insert(
                    entity,
                    Components { health: Some(*final(health)), ..units(*old(world))[entity] },
                )
            },
            None => {
                &&& components_of(units(*old(world)), entity).health is None
                &&& units(*final(world)) == units(*old(world))
            },
        },
        roster(*final(world)) == roster(*old(world)),
        sight(*final(world)) == sight(*old(world)),
{
    world.entry_mut(entity).ok()?.into_component_mut::<Health>().ok()
}

/// Calls `EntityStore::get_component_storage` for the view of a scan, and
/// for each archetype `StorageAccessor::can_access_archetype` and
/// `EntityLayout::has_component` for `Position` and for `Side`.  Trusted:
/// the result is `sight`.
#[verifier::external_body]
pub(crate) fn sight_of(world: &SubWorld) -> (flags: Option<Vec<(bool, bool, bool)>>)
    ensures
        match flags {
            Some(flags) => sight(*world) == Some(flags@),
            None => sight(*world) is None,
        },
{
    let store = world.get_component_storage::<(Entity, Read<Position>, Read<Side>)>().ok()?;
    Some(
        store.archetypes().iter().map(
            |archetype|
                (
                    store.can_access_archetype(archetype.index()),
                    archetype.layout().has_component::<Position>(),
                    archetype.layout().has_component::<Side>(),
                ),
        ).collect(),
    )
}

/// Calls `Query::iter` for entities with a position and a side.  `legion`
/// panics if the sub-world denies read access to either, or hides an
/// archetype that holds both; the precondition rules out exactly that.
/// Trusted: the rows are `roster`, and they agree with `units`.
#[verifier::external_body]
pub(crate) fn scan(world: &SubWorld) -> (rows: Vec<Sighting>)
    requires
        scan_is_open(sight(*world)),
    ensures
        rows@ == roster(*world),
        portrays(rows@, units(*world)),
{
    <(Entity, &Position, &Side)>::query().iter(world).map(
        |(entity, position, side)| Sighting { entity: *entity, position: *position, side: *side },
    ).collect()
}

/// Calls `CommandBuffer::push` with the projectile's components.  Trusted:
/// the spawn is queued behind what the buffer already holds.
#[verifier::external_body]
pub(crate) fn spawn(buffer: &mut CommandBuffer, projectile: Projectile)
    ensures
        recorded(*final(buffer)) == recorded(*old(buffer)).push(Deferred::Spawn(projectile)),
{
    buffer.push(
        (
            projectile.position,
            projectile.bullet,
            projectile.facing,
            projectile.move_to,
            projectile.speed,
        ),
    );
}

/// Calls `CommandBuffer::remove`.  Trusted: the removal is queued behind
/// what the buffer already holds.
#[verifier::external_body]
pub(crate) fn despawn(buffer: &mut CommandBuffer, entity: Entity)
    ensures
        recorded(*final(buffer)) == recorded(*old(buffer)).push(Deferred::Despawn(entity)),
{
    buffer.remove(entity);
}

/// Calls `CommandBuffer::add_component` with a damage marker.  Trusted:
/// the attachment is queued behind what the buffer already holds.
#[verifier::external_body]
pub(crate) fn mark(buffer: &mut CommandBuffer, entity: Entity, marker: DamagedThisTick)
    ensures
        recorded(*final(buffer)) == recorded(*old(buffer)).push(Deferred::Mark(entity, marker)),
{
    buffer.add_component(entity, marker);
}

/// Calls `CommandBuffer::remove_component` for the damage marker.
/// Trusted: the removal is queued behind what the buffer already holds.
#[verifier::external_body]
pub(crate) fn unmark(buffer: &mut CommandBuffer, entity: Entity)
    ensures
        recorded(*final(buffer)) == recorded(*old(buffer)).push(Deferred::Unmark(entity)),
{
    buffer.remove_component::<DamagedThisTick>(entity);
}

/// Whether the sub-world can be scanned for targets.
pub(crate) fn can_scan(world: &SubWorld) -> (open: bool)
    ensures
        open == scan_is_open(sight(*world)),
{
    match sight_of(world) {
        Some(flags) => {
            let mut index: usize = 0;
            while index < flags.len()
                invariant
                    index <= flags.len(),
                    sight(*world) == Some(flags@),
                    forall|i: int| 0 <= i < index && (#[trigger] flags@[i]).1 && flags@[i].2 ==> flags@[i].0,
                decreases flags.len() - index,
            {
                let (visible, has_position, has_side) = flags[index];
                if has_position && has_side && !visible {
                    assert(flags@[index as int] == (visible, has_position, has_side));
                    return false;
                }
                index += 1;
            }
            true
        },
        None => false,
    }
}

} // verus!
