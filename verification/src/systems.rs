//! The seven systems of a tick, each as the step it takes for one entity.
//!
//! A tick runs them in this order over every matching entity: command
//! pruning, target acquisition, firing, projectile resolution, retaliation,
//! death cleanup, cooldown decay.  Structural changes are only queued here;
//! they take effect when the buffer is flushed between systems.

use vstd::prelude::*;
use legion::Entity;
use legion::systems::CommandBuffer;
use legion::world::SubWorld;
use crate::components::Bullet;
use crate::components::BULLET_SPEED;
use crate::components::Command;
use crate::components::CommandQueue;
use crate::components::DamagedThisTick;
use crate::components::Facing;
use crate::components::FiringCooldown;
use crate::components::FiringRange;
use crate::components::Health;
use crate::components::MoveSpeed;
use crate::components::MoveTo;
use crate::components::Position;
use crate::components::Projectile;
use crate::components::RELOAD_TICKS;
use crate::components::Side;
use crate::laws::acquisition_finds_enemy_in_reach;
use crate::laws::acquisition_targets_the_living;
use crate::rules::acquired;
use crate::rules::acquisition;
use crate::rules::aimed;
use crate::rules::decayed;
use crate::rules::first_target;
use crate::rules::impact;
use crate::rules::in_reach;
use crate::rules::pruned;
use crate::rules::retaliated;
use crate::rules::seeks_target;
use crate::rules::shot;
use crate::rules::struck;
use crate::rules::targets_dead;
use crate::store::can_scan;
use crate::store::components_of;
use crate::store::Deferred;
use crate::store::despawn;
use crate::store::firing_range_of;
use crate::store::health_mut;
use crate::store::is_live;
use crate::store::mark;
use crate::store::position_of;
use crate::store::recorded;
use crate::store::roster;
use crate::store::scan;
use crate::store::scan_is_open;
use crate::store::side_of;
use crate::store::sight;
use crate::store::Sighting;
use crate::store::spawn;
use crate::store::units;
use crate::store::unmark;

verus! {

/// Command pruning.  While the active order is an attack on an entity that
/// the sub-world does not resolve, the order is dropped.  Afterwards the
/// active order, if any, is not an attack on a dead entity.
pub fn stop_attacks_on_dead_entities(commands: &mut CommandQueue, world: &SubWorld)
    ensures
        final(commands)@ == pruned(old(commands)@, units(*world).dom()),
        !targets_dead(final(commands)@, units(*world).dom()),
{
    loop
        invariant
            pruned(commands@, units(*world).dom()) == pruned(
                old(commands)@,
                units(*world).dom(),
            ),
        ensures
            commands@ == pruned(old(commands)@, units(*world).dom()),
            !targets_dead(commands@, units(*world).dom()),
        decreases commands@.len(),
    {
        if commands.0.len() == 0 {
            break ;
        }
        let dead = match commands.0[0] {
            Command::Attack(target) => !is_live(world, target),
            Command::AttackMove(_) => false,
        };
        if !dead {
            break ;
        }
        let _ = commands.0.pop_front();
    }
}

/// Picks the first attackable entity among `rows` for a unit on `side`
/// at `position` with firing range `range`.
pub fn select_target(
    position: &Position,
    side: &Side,
    range: &FiringRange,
    rows: &Vec<Sighting>,
) -> (target: Option<Entity>)
    ensures
        target == first_target(*position, *side, *range, rows@),
{
    let mut index: usize = 0;
    assert(rows@.skip(0) == rows@);
    while index < rows.len()
        invariant
            index <= rows.len(),
            first_target(*position, *side, *range, rows@) == first_target(
                *position,
                *side,
                *range,
                rows@.skip(index as int),
            ),
        decreases rows.len() - index,
    {
        let row = &rows[index];
        assert(rows@.skip(index as int)[0] == *row);
        if row.side != *side && range.reaches(&position.0, &row.position.0) {
            return Some(row.entity);
        }
        assert(rows@.skip(index as int).drop_first() == rows@.skip(index + 1));
        index += 1;
    }
    None
}

/// Target acquisition.  A unit that shows a position, a side and a firing
/// range, and that has no order or is on an attack-move, scans the
/// sub-world and puts an attack on the first enemy within range at the
/// front of its queue.  The queue is left alone in every other case: no
/// enemy in range, another active order, a missing component, or a
/// sub-world that cannot be scanned because it denies read access or hides
/// an archetype that holds both a position and a side.  A target is found exactly if some
/// enemy is in reach, and it is such an enemy; it is alive, so the active
/// order is no attack on a dead entity unless it was one before.
pub fn add_attack_commands(entity: &Entity, commands: &mut CommandQueue, world: &SubWorld)
    ensures
        final(commands)@ == if scan_is_open(sight(*world)) {
            acquired(old(commands)@, components_of(units(*world), *entity), roster(*world))
        } else {
            old(commands)@
        },
        scan_is_open(sight(*world)) ==> match acquisition(
            old(commands)@,
            components_of(units(*world), *entity),
            roster(*world),
        ) {
            Some(target) => in_reach(units(*world), components_of(units(*world), *entity), target),
            None => !seeks_target(old(commands)@) || forall|enemy: Entity|
                !in_reach(units(*world), components_of(units(*world), *entity), enemy),
        },
        !targets_dead(old(commands)@, units(*world).dom()) ==> !targets_dead(
            final(commands)@,
            units(*world).dom(),
        ),
{
    let position = match position_of(world, *entity) {
        Some(position) => position,
        None => {
            return ;
        },
    };
    let side = match side_of(world, *entity) {
        Some(side) => side,
        None => {
            return ;
        },
    };
    let range = match firing_range_of(world, *entity) {
        Some(range) => range,
        None => {
            return ;
        },
    };
    let seeking = commands.0.len() == 0 || match commands.0[0] {
        Command::Attack(_) => false,
        Command::AttackMove(_) => true,
    };
    if !seeking || !can_scan(world) {
        return ;
    }
    let rows = scan(world);
    proof {
        acquisition_finds_enemy_in_reach(
            old(commands)@,
            components_of(units(*world), *entity),
            units(*world),
            rows@,
        );
        if !targets_dead(old(commands)@, units(*world).dom()) {
            acquisition_targets_the_living(old(commands)@, *entity, units(*world), rows@);
        }
    }
    match select_target(&position, &side, &range, &rows) {
        Some(target) => {
            commands.0.push_front(Command::Attack(target));
        },
        None => {},
    }
}

/// Builds the projectile that `source` at `from` sends at `target` at `to`,
/// or nothing if the target is out of range.
pub fn aim(
    source: Entity,
    target: Entity,
    from: &Position,
    to: &Position,
    range: &FiringRange,
) -> (projectile: Option<Projectile>)
    ensures
        projectile == aimed(source, target, *from, *to, *range),
{
    if range.reaches(&from.0, &to.0) {
        Some(
            Projectile {
                position: *from,
                bullet: Bullet { target, source },
                facing: Facing(0),
                move_to: MoveTo(to.0),
                speed: MoveSpeed(BULLET_SPEED),
            },
        )
    } else {
        None
    }
}

/// Firing.  A unit whose weapon is ready and whose active order is an
/// attack fires if the target is within range: one projectile is queued
/// for spawning and the weapon starts reloading.  In every other case,
/// also when a position does not resolve, nothing is queued and the
/// cooldown is untouched.
pub fn firing(
    entity: &Entity,
    command_queue: &CommandQueue,
    world: &SubWorld,
    buffer: &mut CommandBuffer,
    cooldown: &mut FiringCooldown,
    firing_range: &FiringRange,
)
    ensures
        match shot(*entity, command_queue@, units(*world), *old(cooldown), *firing_range) {
            Some(projectile) => {
                &&& recorded(*final(buffer)) == recorded(*old(buffer)).push(
                    Deferred::Spawn(projectile),
                )
                &&& *final(cooldown) == FiringCooldown(RELOAD_TICKS)
            },
            None => {
                &&& recorded(*final(buffer)) == recorded(*old(buffer))
                &&& *final(cooldown) == *old(cooldown)
            },
        },
{
    if cooldown.0 != 0 || command_queue.0.len() == 0 {
        return ;
    }
    let target = match command_queue.0[0] {
        Command::Attack(target) => target,
        Command::AttackMove(_) => {
            return ;
        },
    };
    let from = match position_of(world, *entity) {
        Some(from) => from,
        None => {
            return ;
        },
    };
    let to = match position_of(world, target) {
        Some(to) => to,
        None => {
            return ;
        },
    };
    match aim(*entity, target, &from, &to, firing_range) {
        Some(projectile) => {
            spawn(buffer, projectile);
            cooldown.0 = RELOAD_TICKS;
        },
        None => {},
    }
}

/// Projectile resolution.  A projectile that has reached its destination
/// wounds its target, if the target still shows a health, and queues a
/// damage marker naming the attacker if the target survives.  The arrived
/// projectile is queued for removal either way.  A projectile still in
/// flight does nothing.
pub fn apply_bullets(
    entity: &Entity,
    bullet: &Bullet,
    position: &Position,
    move_to: &MoveTo,
    world: &mut SubWorld,
    buffer: &mut CommandBuffer,
)
    ensures
        roster(*final(world)) == roster(*old(world)),
        sight(*final(world)) == sight(*old(world)),
        position.0 == move_to.0 ==> {
            &&& units(*final(world)) == struck(units(*old(world)), bullet.target)
            &&& recorded(*final(buffer)) == recorded(*old(buffer)) + impact(
                units(*old(world)),
                *entity,
                *bullet,
            )
        },
        position.0 != move_to.0 ==> {
            &&& units(*final(world)) == units(*old(world))
            &&& recorded(*final(buffer)) == recorded(*old(buffer))
        },
{
    if position.0 == move_to.0 {
        let survived = match health_mut(world, bullet.target) {
            Some(health) => {
                health.hit();
                health.0 > 0
            },
            None => false,
        };
        if survived {
            mark(buffer, bullet.target, DamagedThisTick(bullet.source));
        }
        despawn(buffer, *entity);
    }
}

/// Lets an idle unit turn on its attacker; a unit with any order keeps it.
pub fn retaliate(commands: &mut CommandQueue, attacker: Entity)
    ensures
        final(commands)@ == retaliated(old(commands)@, attacker),
{
    if commands.0.len() == 0 {
        commands.0.push_front(Command::Attack(attacker));
    }
}

/// Queues the removal of an entity's damage marker.  Every entity that
/// carries a marker when retaliation runs gets its removal queued, also
/// one that holds no command queue and so cannot retaliate.
pub fn clear_damaged(entity: &Entity, buffer: &mut CommandBuffer)
    ensures
        recorded(*final(buffer)) == recorded(*old(buffer)).push(Deferred::Unmark(*entity)),
{
    unmark(buffer, *entity);
}

/// Retaliation.  A unit that was wounded this tick attacks its attacker if
/// it has no order at all.  The marker's removal is queued whether or not
/// the unit retaliates.
pub fn handle_damaged(
    entity: &Entity,
    damaged: &DamagedThisTick,
    commands: &mut CommandQueue,
    buffer: &mut CommandBuffer,
)
    ensures
        final(commands)@ == retaliated(old(commands)@, damaged.0),
        recorded(*final(buffer)) == recorded(*old(buffer)).push(Deferred::Unmark(*entity)),
{
    retaliate(commands, damaged.0);
    clear_damaged(entity, buffer);
}

/// Death cleanup.  An entity whose health has reached zero is queued for
/// removal; any other entity is left alone.
pub fn kill_dead(entity: &Entity, health: &Health, buffer: &mut CommandBuffer)
    ensures
        recorded(*final(buffer)) == if health.0 == 0 {
            recorded(*old(buffer)).push(Deferred::Despawn(*entity))
        } else {
            recorded(*old(buffer))
        },
{
    if health.0 == 0 {
        despawn(buffer, *entity);
    }
}

/// Cooldown decay.  The cooldown drops by one tick and stays at zero once
/// it is there.
pub fn reduce_cooldowns(cooldown: &mut FiringCooldown)
    ensures
        *final(cooldown) == decayed(*old(cooldown)),
{
    cooldown.0 = cooldown.0.saturating_sub(1);
}

} // verus!
