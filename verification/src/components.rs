//! The component types that the combat rules read and write.
//!
//! Every piece of simulation state lives in a component attached to an
//! entity.  Positions lie on an integer grid, so distances are compared
//! exactly and arrival at a destination is plain equality.

use vstd::prelude::*;
use legion::Entity;
use std::collections::VecDeque;
use crate::rules::wounded;

verus! {

/// Ticks a unit has to wait after a shot before it may fire again.
pub const RELOAD_TICKS: u32 = 10;

/// Distance a projectile covers per tick.
pub const BULLET_SPEED: u32 = 10;

/// A point or a displacement on the grid.
#[derive(Clone, Copy, Debug, PartialEq, Eq, Structural)]
pub struct Vec2 {
    pub x: i32,
    pub y: i32,
}

/// Where an entity currently is.
#[derive(Clone, Copy, Debug, PartialEq, Eq, Structural)]
pub struct Position(pub Vec2);

/// The team an entity fights for.
#[derive(Clone, Copy, Debug, PartialEq, Eq, Structural)]
pub struct Side(pub u32);

/// Remaining hit points; an entity at zero is removed by death cleanup.
#[derive(Clone, Copy, Debug, PartialEq, Eq, Structural)]
pub struct Health(pub u32);

/// Greatest distance at which a unit engages.
#[derive(Clone, Copy, Debug, PartialEq, Eq, Structural)]
pub struct FiringRange(pub u32);

/// Ticks until the weapon is ready; zero means the unit may fire this tick.
#[derive(Clone, Copy, Debug, PartialEq, Eq, Structural)]
pub struct FiringCooldown(pub u32);

/// Direction an entity faces.
#[derive(Clone, Copy, Debug, PartialEq, Eq, Structural)]
pub struct Facing(pub i32);

/// Destination that the movement step steers an entity towards.
#[derive(Clone, Copy, Debug, PartialEq, Eq, Structural)]
pub struct MoveTo(pub Vec2);

/// Distance an entity covers per tick.
#[derive(Clone, Copy, Debug, PartialEq, Eq, Structural)]
pub struct MoveSpeed(pub u32);

/// An order held in a unit's queue.
#[derive(Clone, Copy, Debug, PartialEq, Eq)]
pub enum Command {
    /// Engage the given entity.
    Attack(Entity),
    /// Advance on a destination, engaging whatever comes into range.
    AttackMove(Vec2),
}

/// A unit's orders.  New orders go to the front and interrupt what was
/// queued before them: the front element is the active order.
#[derive(Clone, Debug, Default, PartialEq, Eq)]
pub struct CommandQueue(pub VecDeque<Command>);

impl View for CommandQueue {
    type V = Seq<Command>;

    /// The orders, the active one first.
    open spec fn view(&self) -> Seq<Command> {
        self.0@
    }
}

/// Marks an entity that a projectile wounded during the current tick and
/// names the attacker.
#[derive(Clone, Copy, Debug, PartialEq, Eq)]
pub struct DamagedThisTick(pub Entity);

/// The payload of a projectile in flight.
#[derive(Clone, Copy, Debug, PartialEq, Eq)]
pub struct Bullet {
    pub target: Entity,
    pub source: Entity,
}

/// Everything a projectile entity is spawned with.
#[derive(Clone, Copy, Debug, PartialEq, Eq)]
pub struct Projectile {
    pub position: Position,
    pub bullet: Bullet,
    pub facing: Facing,
    pub move_to: MoveTo,
    pub speed: MoveSpeed,
}

impl Health {
    /// Takes one hit: one point less, never below zero.
    pub fn hit(&mut self)
        ensures
            *final(self) == wounded(*old(self)),
    {
        self.0 = self.0.saturating_sub(1);
    }
}

impl Vec2 {
    /// The squared Euclidean distance between two points.
    pub open spec fn distance_squared(self, other: Vec2) -> int {
        (self.x - other.x) * (self.x - other.x) + (self.y - other.y) * (self.y - other.y)
    }

    /// Computes the squared Euclidean distance to `other`.
    pub fn distance_squared_to(&self, other: &Vec2) -> (squared: u128)
        ensures
            squared == self.distance_squared(*other),
    {
        let dx: i128 = self.x as i128 - other.x as i128;
        let dy: i128 = self.y as i128 - other.y as i128;
        assert(0 <= dx * dx <= 0x1_0000_0000_0000_0000) by (nonlinear_arith)
            requires
                -0x1_0000_0000 <= dx <= 0x1_0000_0000,
        ;
        assert(0 <= dy * dy <= 0x1_0000_0000_0000_0000) by (nonlinear_arith)
            requires
                -0x1_0000_0000 <= dy <= 0x1_0000_0000,
        ;
        (dx * dx + dy * dy) as u128
    }
}

impl FiringRange {
    /// Whether `target` lies within this range of `from`: the squared
    /// distance does not exceed the squared range.
    pub open spec fn covers(self, from: Vec2, target: Vec2) -> bool {
        from.distance_squared(target) <= self.0 * self.0
    }

    /// Decides whether `target` lies within this range of `from`.
    pub fn reaches(&self, from: &Vec2, target: &Vec2) -> (within: bool)
        ensures
            within == self.covers(*from, *target),
    {
        let reach: u128 = self.0 as u128;
        assert(0 <= reach * reach <= 0x1_0000_0000_0000_0000) by (nonlinear_arith)
            requires
                0 <= reach <= 0x1_0000_0000,
        ;
        from.distance_squared_to(target) <= reach * reach
    }
}

} // verus!
