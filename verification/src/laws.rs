//! Laws of the combat rules.
//!
//! Each proof function states what holds of the rules for all inputs.
//! Since the systems compute exactly the rules, the laws hold of every run
//! of the systems.

use vstd::prelude::*;
use legion::Entity;
use crate::components::Command;
use crate::components::FiringCooldown;
use crate::components::FiringRange;
use crate::components::Health;
use crate::components::Position;
use crate::components::Side;
use crate::rules::acquired;
use crate::rules::acquisition;
use crate::rules::armed;
use crate::rules::attackable;
use crate::rules::decayed;
use crate::rules::decayed_by;
use crate::rules::first_target;
use crate::rules::in_reach;
use crate::rules::marked_after;
use crate::rules::pruned;
use crate::rules::retaliated;
use crate::rules::seeks_target;
use crate::rules::shot;
use crate::rules::struck;
use crate::rules::targets_dead;
use crate::rules::wounded;
use crate::store::Components;
use crate::store::components_of;
use crate::store::Deferred;
use crate::store::portrays;
use crate::store::Sighting;

verus! {

/// Pruning a pruned queue changes nothing: running command pruning twice
/// in a row gives the same queue as running it once.
pub proof fn pruning_is_idempotent(queue: Seq<Command>, live: Set<Entity>)
    ensures
        pruned(pruned(queue, live), live) == pruned(queue, live),
    decreases queue.len(),
{
    if targets_dead(queue, live) {
        pruning_is_idempotent(queue.drop_first(), live);
    }
}

/// After pruning, the active order is never an attack on a dead entity.
pub proof fn pruning_leaves_no_dead_target(queue: Seq<Command>, live: Set<Entity>)
    ensures
        !targets_dead(pruned(queue, live), live),
    decreases queue.len(),
{
    if targets_dead(queue, live) {
        pruning_leaves_no_dead_target(queue.drop_first(), live);
    }
}

/// Pruning only ever drops attacks on dead entities from the front: the
/// result is the queue without its first `dropped` orders, and each of
/// those was an attack on a dead entity when it became the active order.
pub proof fn pruning_drops_dead_attacks_only(queue: Seq<Command>, live: Set<Entity>) -> (dropped:
    int)
    ensures
        0 <= dropped <= queue.len(),
        pruned(queue, live) == queue.skip(dropped),
        forall|j: int| 0 <= j < dropped ==> targets_dead(#[trigger] queue.skip(j), live),
    decreases queue.len(),
{
    if targets_dead(queue, live) {
        let rest = pruning_drops_dead_attacks_only(queue.drop_first(), live);
        assert(queue.drop_first().skip(rest) == queue.skip(rest + 1));
        assert forall|j: int| 0 <= j < rest + 1 implies targets_dead(
            #[trigger] queue.skip(j),
            live,
        ) by {
            if j == 0 {
                assert(queue.skip(0) == queue);
            } else {
                assert(queue.drop_first().skip(j - 1) == queue.skip(j));
            }
        }
        rest + 1
    } else {
        assert(queue.skip(0) == queue);
        0
    }
}

/// The target that acquisition picks is the first attackable row of the
/// scan: an enemy within range, with no attackable row before it.
pub proof fn first_target_is_first_attackable(
    position: Position,
    side: Side,
    range: FiringRange,
    rows: Seq<Sighting>,
) -> (at: int)
    requires
        first_target(position, side, range, rows) is Some,
    ensures
        0 <= at < rows.len(),
        first_target(position, side, range, rows) == Some(rows[at].entity),
        attackable(position, side, range, rows[at]),
        forall|j: int| 0 <= j < at ==> !attackable(position, side, range, #[trigger] rows[j]),
    decreases rows.len(),
{
    if attackable(position, side, range, rows[0]) {
        0
    } else {
        let rest = first_target_is_first_attackable(position, side, range, rows.drop_first());
        assert forall|j: int| 0 <= j < rest + 1 implies !attackable(
            position,
            side,
            range,
            #[trigger] rows[j],
        ) by {
            if j > 0 {
                assert(rows.drop_first()[j - 1] == rows[j]);
            }
        }
        rest + 1
    }
}

/// Acquisition finds no target only if no row of the scan is attackable.
pub proof fn no_target_means_none_attackable(
    position: Position,
    side: Side,
    range: FiringRange,
    rows: Seq<Sighting>,
)
    requires
        first_target(position, side, range, rows) is None,
    ensures
        forall|j: int| 0 <= j < rows.len() ==> !attackable(position, side, range, #[trigger] rows[j]),
    decreases rows.len(),
{
    if rows.len() > 0 {
        no_target_means_none_attackable(position, side, range, rows.drop_first());
        assert forall|j: int| 0 <= j < rows.len() implies !attackable(
            position,
            side,
            range,
            #[trigger] rows[j],
        ) by {
            if j > 0 {
                assert(rows.drop_first()[j - 1] == rows[j]);
            }
        }
    }
}

/// Acquisition never interrupts an order other than an attack-move, and
/// never acts for a unit that lacks a position, a side or a firing range.
pub proof fn acquisition_respects_orders(
    queue: Seq<Command>,
    unit: Components,
    rows: Seq<Sighting>,
)
    requires
        !seeks_target(queue) || !armed(unit),
    ensures
        acquired(queue, unit, rows) == queue,
{
}

/// Where the scan agrees with the sub-world, acquisition finds a target
/// exactly if some enemy is in reach of a unit that seeks one, and the
/// target it finds is such an enemy.
pub proof fn acquisition_finds_enemy_in_reach(
    queue: Seq<Command>,
    unit: Components,
    units: Map<Entity, Components>,
    rows: Seq<Sighting>,
)
    requires
        portrays(rows, units),
    ensures
        match acquisition(queue, unit, rows) {
            Some(target) => seeks_target(queue) && in_reach(units, unit, target),
            None => !seeks_target(queue) || forall|enemy: Entity| !in_reach(units, unit, enemy),
        },
{
    if armed(unit) && seeks_target(queue) {
        let position = unit.position.unwrap();
        let side = unit.side.unwrap();
        let range = unit.firing_range.unwrap();
        if first_target(position, side, range, rows) is Some {
            let at = first_target_is_first_attackable(position, side, range, rows);
            assert(units.contains_key(rows[at].entity));
        } else {
            no_target_means_none_attackable(position, side, range, rows);
            assert forall|enemy: Entity| !in_reach(units, unit, enemy) by {
                if in_reach(units, unit, enemy) {
                    assert(units.contains_key(enemy));
                    let i = choose|i: int| 0 <= i < rows.len() && #[trigger] rows[i].entity == enemy;
                    assert(units.contains_key(rows[i].entity));
                    assert(attackable(position, side, range, rows[i]));
                }
            }
        }
    }
}

/// Acquisition keeps what pruning established: where the scan agrees with
/// the sub-world, an acquired target is alive, so a queue whose active
/// order was not an attack on a dead entity still has none afterwards.
pub proof fn acquisition_targets_the_living(
    queue: Seq<Command>,
    entity: Entity,
    units: Map<Entity, Components>,
    rows: Seq<Sighting>,
)
    requires
        portrays(rows, units),
        !targets_dead(queue, units.dom()),
    ensures
        !targets_dead(acquired(queue, components_of(units, entity), rows), units.dom()),
{
    let unit = components_of(units, entity);
    if acquisition(queue, unit, rows) is Some {
        let at = first_target_is_first_attackable(
            unit.position.unwrap(),
            unit.side.unwrap(),
            unit.firing_range.unwrap(),
            rows,
        );
        assert(units.contains_key(rows[at].entity));
        assert(acquired(queue, unit, rows)[0] == Command::Attack(rows[at].entity));
    }
}

/// Range gating.  A unit fires only with a ready weapon, at the target of
/// its active attack order, from its own position towards the target's
/// position, and only if the squared distance between the two does not
/// exceed the squared firing range.
pub proof fn shot_is_within_range(
    entity: Entity,
    queue: Seq<Command>,
    units: Map<Entity, Components>,
    cooldown: FiringCooldown,
    range: FiringRange,
)
    requires
        shot(entity, queue, units, cooldown, range) is Some,
    ensures
        ({
            let projectile = shot(entity, queue, units, cooldown, range).unwrap();
            &&& cooldown.0 == 0
            &&& queue.len() > 0
            &&& queue[0] == Command::Attack(projectile.bullet.target)
            &&& projectile.bullet.source == entity
            &&& components_of(units, entity).position == Some(projectile.position)
            &&& components_of(units, projectile.bullet.target).position == Some(
                Position(projectile.move_to.0),
            )
            &&& projectile.position.0.distance_squared(projectile.move_to.0) <= range.0 * range.0
        }),
{
}

/// Range gating, the other way round: no projectile is spawned when the
/// squared distance between firer and target exceeds the squared range.
pub proof fn out_of_range_holds_fire(
    entity: Entity,
    target: Entity,
    queue: Seq<Command>,
    units: Map<Entity, Components>,
    cooldown: FiringCooldown,
    range: FiringRange,
)
    requires
        queue.len() > 0,
        queue[0] == Command::Attack(target),
        components_of(units, entity).position is Some,
        components_of(units, target).position is Some,
        components_of(units, entity).position.unwrap().0.distance_squared(
            components_of(units, target).position.unwrap().0,
        ) > range.0 * range.0,
    ensures
        shot(entity, queue, units, cooldown, range) is None,
{
}

/// Health floor.  A hit takes exactly one point from a positive health
/// and leaves a health of zero at zero.
pub proof fn hit_takes_one_point(health: Health)
    ensures
        health.0 > 0 ==> wounded(health).0 == health.0 - 1,
        health.0 == 0 ==> wounded(health).0 == 0,
        0 <= wounded(health).0 <= health.0,
{
}

/// A hit changes the health of its target and nothing else: the same
/// entities resolve, every other entity shows what it showed before, and
/// the target keeps its position, side and range.
pub proof fn hit_touches_target_only(units: Map<Entity, Components>, target: Entity)
    ensures
        struck(units, target).dom() == units.dom(),
        forall|other: Entity|
            other != target ==> components_of(struck(units, target), other) == components_of(
                units,
                other,
            ),
        components_of(struck(units, target), target).position == components_of(
            units,
            target,
        ).position,
        components_of(struck(units, target), target).side == components_of(units, target).side,
        components_of(struck(units, target), target).firing_range == components_of(
            units,
            target,
        ).firing_range,
        components_of(struck(units, target), target).health == match components_of(
            units,
            target,
        ).health {
            Some(health) => Some(wounded(health)),
            None => None,
        },
{
    if components_of(units, target).health is Some {
        assert(units.contains_key(target));
        assert(struck(units, target).dom() =~= units.dom());
    }
}

/// Retaliation exclusivity.  A unit with any order keeps its queue as it
/// is; a unit without orders gets exactly one: an attack on its attacker.
pub proof fn retaliation_spares_busy_units(queue: Seq<Command>, attacker: Entity)
    ensures
        queue.len() > 0 ==> retaliated(queue, attacker) == queue,
        queue.len() == 0 ==> retaliated(queue, attacker) == seq![Command::Attack(attacker)],
        queue.len() == 0 ==> retaliated(queue, attacker) != queue,
{
    if queue.len() == 0 {
        assert(retaliated(queue, attacker).len() == 1);
    }
}

/// Cooldown floor.  After `ticks` ticks of decay a cooldown has dropped by
/// `ticks`, but not below zero: it reaches zero after as many ticks as it
/// held, and stays there.
pub proof fn cooldown_decays_to_zero(cooldown: FiringCooldown, ticks: nat)
    ensures
        decayed_by(cooldown, ticks).0 == if ticks >= cooldown.0 {
            0
        } else {
            cooldown.0 - ticks
        },
    decreases ticks,
{
    if ticks > 0 {
        cooldown_decays_to_zero(decayed(cooldown), (ticks - 1) as nat);
    }
}

/// Marker lifetime.  Once the removal of an entity's damage marker is
/// queued and no later change marks the entity again, the entity carries
/// no marker after the flush, whatever was marked before.  Retaliation
/// queues that removal for every entity it visits, and it runs after
/// projectile resolution, the only system that queues markers.  This is
/// stated of `marked_after`, which takes every entity that a change marks
/// or unmarks to exist when the change is applied.
pub proof fn marker_does_not_outlive_retaliation(
    marked: Set<Entity>,
    changes: Seq<Deferred>,
    entity: Entity,
    at: int,
)
    requires
        0 <= at < changes.len(),
        changes[at] == Deferred::Unmark(entity),
        forall|j: int|
            at < j < changes.len() ==> !(#[trigger] changes[j] matches Deferred::Mark(again, _)
                && again == entity),
    ensures
        !marked_after(marked, changes).contains(entity),
    decreases changes.len(),
{
    if at < changes.len() - 1 {
        let earlier = changes.drop_last();
        assert(earlier[at] == changes[at]);
        assert forall|j: int| at < j < earlier.len() implies !(#[trigger] earlier[j] matches Deferred::Mark(
            again,
            _,
        ) && again == entity) by {
            assert(earlier[j] == changes[j]);
        }
        marker_does_not_outlive_retaliation(marked, earlier, entity, at);
        assert(!(changes.last() matches Deferred::Mark(again, _) && again == entity)) by {
            assert(changes.last() == changes[changes.len() - 1]);
        }
    }
}

/// Applying two runs of changes one after the other is applying their
/// concatenation.
pub proof fn marked_after_both(marked: Set<Entity>, first: Seq<Deferred>, second: Seq<Deferred>)
    ensures
        marked_after(marked, first + second) == marked_after(marked_after(marked, first), second),
    decreases second.len(),
{
    if second.len() == 0 {
        assert(first + second == first);
    } else {
        marked_after_both(marked, first, second.drop_last());
        assert((first + second).drop_last() == first + second.drop_last());
        assert((first + second).last() == second.last());
    }
}

/// Changes that attach no marker leave no entity marked that was not
/// marked before.
pub proof fn unmarked_stay_unmarked(marked: Set<Entity>, changes: Seq<Deferred>, entity: Entity)
    requires
        !marked.contains(entity),
        forall|j: int| 0 <= j < changes.len() ==> !(#[trigger] changes[j] is Mark),
    ensures
        !marked_after(marked, changes).contains(entity),
    decreases changes.len(),
{
    if changes.len() > 0 {
        let earlier = changes.drop_last();
        assert forall|j: int| 0 <= j < earlier.len() implies !(#[trigger] earlier[j] is Mark) by {
            assert(earlier[j] == changes[j]);
        }
        unmarked_stay_unmarked(marked, earlier, entity);
        assert(!(changes[changes.len() - 1] is Mark));
    }
}

/// Marker lifetime over a whole tick.  Let `before` be the changes applied
/// up to and including projectile resolution, `retaliation` those queued
/// by retaliation and `after` those queued by the systems that follow.
/// If retaliation visits every entity that is marked when it runs, so
/// that it queues the removal of each of their markers and nothing else,
/// and the later systems attach no markers, then no entity at all is
/// marked when the tick ends, whatever was marked when it began.  So no
/// marker is seen at the start of two ticks in a row.  This is stated of
/// `marked_after`, which takes every entity that a change marks or unmarks
/// to exist when the change is applied; which entities retaliation visits
/// is the store's doing and is assumed here, not proved.
pub proof fn no_marker_survives_the_tick(
    marked: Set<Entity>,
    before: Seq<Deferred>,
    retaliation: Seq<Deferred>,
    after: Seq<Deferred>,
)
    requires
        forall|entity: Entity| #[trigger]
            marked_after(marked, before).contains(entity) ==> retaliation.contains(
                Deferred::Unmark(entity),
            ),
        forall|j: int| 0 <= j < retaliation.len() ==> #[trigger] retaliation[j] is Unmark,
        forall|j: int| 0 <= j < after.len() ==> !(#[trigger] after[j] is Mark),
    ensures
        marked_after(marked, before + retaliation + after) == Set::<Entity>::empty(),
{
    let rest = retaliation + after;
    assert(before + retaliation + after == before + rest);
    assert forall|entity: Entity| !marked_after(marked, before + rest).contains(entity) by {
        marked_after_both(marked, before, rest);
        let then = marked_after(marked, before);
        if then.contains(entity) {
            let at = choose|at: int|
                0 <= at < retaliation.len() && retaliation[at] == Deferred::Unmark(entity);
            assert(rest[at] == retaliation[at]);
            assert forall|j: int| at < j < rest.len() implies !(#[trigger] rest[j] matches Deferred::Mark(
                again,
                _,
            ) && again == entity) by {
                if j < retaliation.len() {
                    assert(rest[j] == retaliation[j]);
                } else {
                    assert(rest[j] == after[j - retaliation.len()]);
                }
            }
            marker_does_not_outlive_retaliation(then, rest, entity, at);
        } else {
            assert forall|j: int| 0 <= j < rest.len() implies !(#[trigger] rest[j] is Mark) by {
                if j < retaliation.len() {
                    assert(rest[j] == retaliation[j]);
                } else {
                    assert(rest[j] == after[j - retaliation.len()]);
                }
            }
            unmarked_stay_unmarked(then, rest, entity);
        }
    }
    assert(marked_after(marked, before + rest) =~= Set::<Entity>::empty());
}

} // verus!
