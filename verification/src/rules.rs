//! The combat rules as mathematical functions.
//!
//! Each function says what one step of a tick does to the state it touches.
//! The systems are proved to compute exactly these functions.

use vstd::prelude::*;
use legion::Entity;
use crate::components::Bullet;
use crate::components::BULLET_SPEED;
use crate::components::Command;
use crate::components::DamagedThisTick;
use crate::components::Facing;
use crate::components::FiringCooldown;
use crate::components::FiringRange;
use crate::components::Health;
use crate::components::MoveSpeed;
use crate::components::MoveTo;
use crate::components::Position;
use crate::components::Projectile;
use crate::components::Side;
use crate::store::Components;
use crate::store::components_of;
use crate::store::Deferred;
use crate::store::Sighting;

verus! {

/// The active order is an attack on an entity that is not among `live`.
pub open spec fn targets_dead(queue: Seq<Command>, live: Set<Entity>) -> bool {
    queue.len() > 0 && match queue[0] {
        Command::Attack(target) => !live.contains(target),
        Command::AttackMove(_) => false,
    }
}

/// The queue after command pruning: attacks on dead entities are dropped
/// from the front until the active order is something else.
pub open spec fn pruned(queue: Seq<Command>, live: Set<Entity>) -> Seq<Command>
    decreases queue.len(),
{
    if targets_dead(queue, live) {
        pruned(queue.drop_first(), live)
    } else {
        queue
    }
}

/// A unit looks for a target only while it has no order or is on an
/// attack-move.
pub open spec fn seeks_target(queue: Seq<Command>) -> bool {
    queue.len() == 0 || queue[0] is AttackMove
}

/// `row` is an enemy of a unit on `side` and within `range` of `position`.
pub open spec fn attackable(
    position: Position,
    side: Side,
    range: FiringRange,
    row: Sighting,
) -> bool {
    row.side != side && range.covers(position.0, row.position.0)
}

/// The first attackable entity among `rows`, if there is one.
pub open spec fn first_target(
    position: Position,
    side: Side,
    range: FiringRange,
    rows: Seq<Sighting>,
) -> Option<Entity>
    decreases rows.len(),
{
    if rows.len() == 0 {
        None
    } else if attackable(position, side, range, rows[0]) {
        Some(rows[0].entity)
    } else {
        first_target(position, side, range, rows.drop_first())
    }
}

/// What a unit has to show to acquire targets: a position, a side and a
/// firing range.
pub open spec fn armed(unit: Components) -> bool {
    unit.position is Some && unit.side is Some && unit.firing_range is Some
}

/// `target` is an enemy that `unit` can engage: the sub-world shows its
/// position and side, the side differs from the unit's, and the position
/// is within the unit's firing range.
pub open spec fn in_reach(units: Map<Entity, Components>, unit: Components, target: Entity) -> bool {
    &&& armed(unit)
    &&& units.contains_key(target)
    &&& units[target].position is Some
    &&& units[target].side is Some
    &&& units[target].side.unwrap() != unit.side.unwrap()
    &&& unit.firing_range.unwrap().covers(
        unit.position.unwrap().0,
        units[target].position.unwrap().0,
    )
}

/// The target that acquisition picks for a unit, if any.
pub open spec fn acquisition(queue: Seq<Command>, unit: Components, rows: Seq<Sighting>) -> Option<
    Entity,
> {
    if armed(unit) && seeks_target(queue) {
        first_target(
            unit.position.unwrap(),
            unit.side.unwrap(),
            unit.firing_range.unwrap(),
            rows,
        )
    } else {
        None
    }
}

/// The queue after target acquisition: an attack on the acquired target
/// goes to the front; without a target the queue stays as it is.
pub open spec fn acquired(queue: Seq<Command>, unit: Components, rows: Seq<Sighting>) -> Seq<
    Command,
> {
    match acquisition(queue, unit, rows) {
        Some(target) => seq![Command::Attack(target)] + queue,
        None => queue,
    }
}

/// The projectile that `source` at `from` sends at `target` at `to`, if
/// `to` is within `range`.  It starts at the firer's position and heads
/// for where the target is now.
pub open spec fn aimed(
    source: Entity,
    target: Entity,
    from: Position,
    to: Position,
    range: FiringRange,
) -> Option<Projectile> {
    if range.covers(from.0, to.0) {
        Some(
            Projectile {
                position: from,
                bullet: Bullet { target, source },
                facing: Facing(0),
                move_to: MoveTo(to.0),
                speed: MoveSpeed(BULLET_SPEED),
            },
        )
    } else {
        None
    }
}

/// The projectile that a unit fires this tick, if any: its weapon is
/// ready, its active order is an attack, both positions resolve, and the
/// target is within range.
pub open spec fn shot(
    entity: Entity,
    queue: Seq<Command>,
    units: Map<Entity, Components>,
    cooldown: FiringCooldown,
    range: FiringRange,
) -> Option<Projectile> {
    if cooldown.0 == 0 && queue.len() > 0 {
        match (queue[0], components_of(units, entity).position) {
            (Command::Attack(target), Some(from)) => match components_of(units, target).position {
                Some(to) => aimed(entity, target, from, to, range),
                None => None,
            },
            _ => None,
        }
    } else {
        None
    }
}

/// Health after one hit: one point less, never below zero.
pub open spec fn wounded(health: Health) -> Health {
    if health.0 == 0 {
        health
    } else {
        Health((health.0 - 1) as u32)
    }
}

/// The sub-world after a projectile has hit `target`: the target's health
/// is wounded if it shows one; nothing else changes.
pub open spec fn struck(units: Map<Entity, Components>, target: Entity) -> Map<
    Entity,
    Components,
> {
    match components_of(units, target).health {
        Some(health) => units.insert(
            target,
            Components { health: Some(wounded(health)), ..units[target] },
        ),
        None => units,
    }
}

/// The target of `bullet` shows a health and survives the hit.
pub open spec fn survives(units: Map<Entity, Components>, bullet: Bullet) -> bool {
    match components_of(units, bullet.target).health {
        Some(health) => wounded(health).0 > 0,
        None => false,
    }
}

/// The changes that an arrived projectile queues: a damage marker on the
/// target if it survives, then the projectile's own removal.
pub open spec fn impact(units: Map<Entity, Components>, projectile: Entity, bullet: Bullet) -> Seq<
    Deferred,
> {
    if survives(units, bullet) {
        seq![
            Deferred::Mark(bullet.target, DamagedThisTick(bullet.source)),
            Deferred::Despawn(projectile),
        ]
    } else {
        seq![Deferred::Despawn(projectile)]
    }
}

/// The queue after retaliation: an idle unit turns on its attacker; a unit
/// with any order keeps its queue.
pub open spec fn retaliated(queue: Seq<Command>, attacker: Entity) -> Seq<Command> {
    if queue.len() == 0 {
        seq![Command::Attack(attacker)]
    } else {
        queue
    }
}

/// The cooldown one tick later: one less, never below zero.
pub open spec fn decayed(cooldown: FiringCooldown) -> FiringCooldown {
    if cooldown.0 == 0 {
        cooldown
    } else {
        FiringCooldown((cooldown.0 - 1) as u32)
    }
}

/// The cooldown after `ticks` ticks of decay.
pub open spec fn decayed_by(cooldown: FiringCooldown, ticks: nat) -> FiringCooldown
    decreases ticks,
{
    if ticks == 0 {
        cooldown
    } else {
        decayed_by(decayed(cooldown), (ticks - 1) as nat)
    }
}

/// The entities that carry a damage marker after one queued change.
/// This reads a change to the marker of an entity as applied to an entity
/// that exists when the change is applied; the store does not accept such
/// a change for an entity that is gone.
pub open spec fn marked_next(marked: Set<Entity>, change: Deferred) -> Set<Entity> {
    match change {
        Deferred::Spawn(_) => marked,
        Deferred::Despawn(entity) => marked.remove(entity),
        Deferred::Mark(entity, _) => marked.insert(entity),
        Deferred::Unmark(entity) => marked.remove(entity),
    }
}

/// The entities that carry a damage marker once `changes` have been
/// applied, in order, to a world where `marked` carried one.  As in
/// `marked_next`, every entity that a change marks or unmarks is taken to
/// exist when that change is applied.
pub open spec fn marked_after(marked: Set<Entity>, changes: Seq<Deferred>) -> Set<Entity>
    decreases changes.len(),
{
    if changes.len() == 0 {
        marked
    } else {
        marked_next(marked_after(marked, changes.drop_last()), changes.last())
    }
}

} // verus!
