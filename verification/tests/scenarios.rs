use combat::components::{
    Bullet, Command, CommandQueue, DamagedThisTick, Facing, FiringCooldown, FiringRange, Health,
    MoveSpeed, MoveTo, Position, Side, Vec2,
};
use combat::systems::{
    add_attack_commands, apply_bullets, firing, handle_damaged, kill_dead, reduce_cooldowns,
    stop_attacks_on_dead_entities,
};
use legion::systems::CommandBuffer;
use legion::world::SubWorld;
use legion::{Entity, IntoQuery, Resources, World};

fn place(x: i32, y: i32) -> Position {
    Position(Vec2 { x, y })
}

fn health_in(world: &mut World, entity: Entity) -> Option<Health> {
    world.entry(entity).and_then(|entry| entry.get_component::<Health>().ok().copied())
}

fn marker_in(world: &mut World, entity: Entity) -> Option<DamagedThisTick> {
    world.entry(entity).and_then(|entry| entry.get_component::<DamagedThisTick>().ok().copied())
}

fn bullets_in(world: &World) -> Vec<(Entity, Bullet, Position, MoveTo, MoveSpeed, Facing)> {
    <(Entity, &Bullet, &Position, &MoveTo, &MoveSpeed, &Facing)>::query()
        .iter(world)
        .map(|(e, b, p, m, s, f)| (*e, *b, *p, *m, *s, *f))
        .collect()
}

#[test]
fn acquire_fire_hit_die() {
    let mut world = World::default();
    let mut resources = Resources::default();
    let red = world.push((place(0, 0), Side(0), FiringRange(5), Health(7)));
    let blue = world.push((place(3, 0), Side(1), Health(1)));
    let mut red_queue = CommandQueue::default();
    let mut red_cooldown = FiringCooldown(0);
    let red_range = FiringRange(5);

    // Tick 1: target acquisition, then firing.
    {
        let sub = SubWorld::from(&mut world);
        stop_attacks_on_dead_entities(&mut red_queue, &sub);
        add_attack_commands(&red, &mut red_queue, &sub);
    }
    assert_eq!(red_queue.0.len(), 1);
    assert_eq!(red_queue.0.front(), Some(&Command::Attack(blue)));

    let mut buffer = CommandBuffer::new(&world);
    {
        let sub = SubWorld::from(&mut world);
        firing(&red, &red_queue, &sub, &mut buffer, &mut red_cooldown, &red_range);
    }
    assert_eq!(red_cooldown, FiringCooldown(10));
    assert_eq!(buffer.len(), 1);
    assert!(bullets_in(&world).is_empty());
    buffer.flush(&mut world, &mut resources);
    let flying = bullets_in(&world);
    assert_eq!(flying.len(), 1);
    let (shell, bullet, position, move_to, speed, facing) = flying[0];
    assert_eq!(bullet, Bullet { target: blue, source: red });
    assert_eq!(position, place(0, 0));
    assert_eq!(move_to, MoveTo(Vec2 { x: 3, y: 0 }));
    assert_eq!(speed, MoveSpeed(10));
    assert_eq!(facing, Facing(0));
    reduce_cooldowns(&mut red_cooldown);
    assert_eq!(red_cooldown, FiringCooldown(9));

    // The projectile is still in flight: resolution leaves everything alone.
    {
        let mut sub = SubWorld::from(&mut world);
        apply_bullets(&shell, &bullet, &position, &move_to, &mut sub, &mut buffer);
    }
    assert!(buffer.is_empty());
    assert_eq!(health_in(&mut world, blue), Some(Health(1)));

    // Movement brings the projectile to its destination.
    let arrived = Position(move_to.0);

    // Tick 2: projectile resolution, death cleanup.
    {
        let mut sub = SubWorld::from(&mut world);
        firing(&red, &red_queue, &sub, &mut buffer, &mut red_cooldown, &red_range);
        apply_bullets(&shell, &bullet, &arrived, &move_to, &mut sub, &mut buffer);
    }
    assert_eq!(red_cooldown, FiringCooldown(9));
    assert_eq!(health_in(&mut world, blue), Some(Health(0)));
    assert_eq!(buffer.len(), 1);
    buffer.flush(&mut world, &mut resources);
    assert!(!world.contains(shell));
    assert!(bullets_in(&world).is_empty());
    assert_eq!(marker_in(&mut world, blue), None);
    assert!(world.contains(blue));

    kill_dead(&red, &Health(7), &mut buffer);
    assert!(buffer.is_empty());
    kill_dead(&blue, &Health(0), &mut buffer);
    assert_eq!(buffer.len(), 1);
    buffer.flush(&mut world, &mut resources);
    assert!(!world.contains(blue));
    assert!(world.contains(red));
    reduce_cooldowns(&mut red_cooldown);
    assert_eq!(red_cooldown, FiringCooldown(8));

    // Tick 3: command pruning drops the attack on the dead target.
    {
        let sub = SubWorld::from(&mut world);
        stop_attacks_on_dead_entities(&mut red_queue, &sub);
    }
    assert!(red_queue.0.is_empty());
}

#[test]
fn idle_unit_retaliates() {
    let mut world = World::default();
    let mut resources = Resources::default();
    let a = world.push((place(0, 0), Side(0), Health(5)));
    let c = world.push((place(9, 9), Side(1), Health(5)));
    let shell = world.push((place(0, 0), MoveTo(Vec2 { x: 0, y: 0 })));
    let bullet = Bullet { target: a, source: c };
    let mut a_queue = CommandQueue::default();
    let mut buffer = CommandBuffer::new(&world);

    {
        let mut sub = SubWorld::from(&mut world);
        apply_bullets(
            &shell,
            &bullet,
            &place(0, 0),
            &MoveTo(Vec2 { x: 0, y: 0 }),
            &mut sub,
            &mut buffer,
        );
    }
    assert_eq!(health_in(&mut world, a), Some(Health(4)));
    assert_eq!(health_in(&mut world, c), Some(Health(5)));
    assert_eq!(buffer.len(), 2);
    buffer.flush(&mut world, &mut resources);
    assert_eq!(marker_in(&mut world, a), Some(DamagedThisTick(c)));
    assert!(!world.contains(shell));

    // Retaliation, same tick.
    let marker = marker_in(&mut world, a).unwrap();
    handle_damaged(&a, &marker, &mut a_queue, &mut buffer);
    assert_eq!(a_queue.0.len(), 1);
    assert_eq!(a_queue.0.front(), Some(&Command::Attack(c)));
    buffer.flush(&mut world, &mut resources);
    assert_eq!(marker_in(&mut world, a), None);
    assert!(world.contains(a));

    // Next tick: the attack on the attacker is still the active order.
    {
        let sub = SubWorld::from(&mut world);
        stop_attacks_on_dead_entities(&mut a_queue, &sub);
        add_attack_commands(&a, &mut a_queue, &sub);
    }
    assert_eq!(a_queue.0.len(), 1);
    assert_eq!(a_queue.0.front(), Some(&Command::Attack(c)));
}

#[test]
fn busy_unit_is_not_interrupted() {
    let mut world = World::default();
    let mut resources = Resources::default();
    let unit = world.push((place(0, 0), Side(0), Health(5)));
    let x = world.push((place(1, 0), Side(1), Health(5)));
    let y = world.push((place(0, 1), Side(1), Health(5)));
    world.entry(unit).unwrap().add_component(DamagedThisTick(y));
    assert_eq!(marker_in(&mut world, unit), Some(DamagedThisTick(y)));
    let mut queue = CommandQueue::default();
    queue.0.push_front(Command::Attack(x));
    let mut buffer = CommandBuffer::new(&world);

    handle_damaged(&unit, &DamagedThisTick(y), &mut queue, &mut buffer);
    assert_eq!(queue.0.len(), 1);
    assert_eq!(queue.0.front(), Some(&Command::Attack(x)));
    buffer.flush(&mut world, &mut resources);
    assert_eq!(marker_in(&mut world, unit), None);

    // X is alive, so pruning keeps the order: the unit goes on attacking X.
    {
        let sub = SubWorld::from(&mut world);
        stop_attacks_on_dead_entities(&mut queue, &sub);
    }
    assert_eq!(queue.0.front(), Some(&Command::Attack(x)));
}
