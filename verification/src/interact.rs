//! What can be done to an object of the world, and the health that
//! harvesting wears down.

use crate::grid::TilePos;
use crate::item_util::{ItemId, SpawnItemEvent, HARVEST_DROP};
use crate::occupancy::{ObjectSize, Occupancy};
use crate::world_gen::{GameWorld, Tile};
use vstd::prelude::*;

verus! {

/// Damage of one bare-handed strike.
pub const STRIKE_DAMAGE: i32 = 2;

/// Remaining and initial hit points of a harvestable object.
#[derive(Clone, Copy, Debug, PartialEq, Eq, Structural)]
pub struct Health {
    pub max_hp: u32,
    pub hp: i32,
}

/// The kind of interaction an object offers, with the data it needs.
#[derive(Clone, Copy, Debug, PartialEq, Eq, Structural)]
pub enum Interact {
    Harvest(Health),
    Pickup,
    Consume,
}

/// What one strike did to an object.
#[derive(Clone, Copy, Debug, PartialEq, Eq, Structural)]
pub enum StrikeOutcome {
    /// The object had no hit points left; nothing changed.
    AlreadySpent,
    /// The object lost hit points and still stands.
    Damaged,
    /// The strike took the last hit points.
    Destroyed,
}

impl Health {
    /// The hit points that `new` starts from: `hp` itself where it fits the
    /// signed field, else `hp` less 2^32.
    pub open spec fn initial_hp(hp: u32) -> int {
        if hp <= i32::MAX {
            hp as int
        } else {
            hp - 0x1_0000_0000
        }
    }

    /// Full health of `hp` hit points.
    pub fn new(hp: u32) -> (health: Health)
        ensures
            health.max_hp == hp,
            health.hp == Health::initial_hp(hp),
    {
        let signed: i32 = if hp <= 0x7FFF_FFFF {
            hp as i32
        } else {
            let low: u32 = hp - 0x8000_0000;
            low as i32 - 0x7FFF_FFFF - 1
        };
        Health { max_hp: hp, hp: signed }
    }

    /// The health after one strike: unchanged when no hit points are left,
    /// else less by the strike's damage.
    pub open spec fn after_strike(self) -> Health {
        if self.hp <= 0 {
            self
        } else {
            Health { max_hp: self.max_hp, hp: (self.hp - STRIKE_DAMAGE) as i32 }
        }
    }

    /// What a strike on this health reports.
    pub open spec fn outcome_of_strike(self) -> StrikeOutcome {
        if self.hp <= 0 {
            StrikeOutcome::AlreadySpent
        } else if self.hp - STRIKE_DAMAGE <= 0 {
            StrikeOutcome::Destroyed
        } else {
            StrikeOutcome::Damaged
        }
    }

    /// Applies one strike.
    pub fn strike(&mut self) -> (outcome: StrikeOutcome)
        ensures
            *final(self) == old(self).after_strike(),
            outcome == old(self).outcome_of_strike(),
    {
        if self.hp <= 0 {
            return StrikeOutcome::AlreadySpent;
        }
        self.hp = self.hp - STRIKE_DAMAGE;
        if self.hp <= 0 {
            StrikeOutcome::Destroyed
        } else {
            StrikeOutcome::Damaged
        }
    }
}

/// A harvesting action that found something to strike.
#[derive(Clone, Copy, Debug, PartialEq, Eq, Structural)]
pub struct HarvestInteraction {
    /// The cell that owns the struck object.
    pub harvested: TilePos,
    /// The cell that was struck, on which the yield is dropped.
    pub reciever_pos: TilePos,
}

/// An object ran out of hit points: its owning cell, and the cell on which it
/// was struck.
#[derive(Clone, Copy, Debug, PartialEq, Eq, Structural)]
pub struct HealthBelowZeroEvent(pub TilePos, pub TilePos);

/// What follows from the last strike on an object: the object is to be
/// removed, and one item is to be dropped where it was struck.
#[derive(Clone, Copy, Debug, PartialEq, Eq, Structural)]
pub struct Felled {
    pub destroyed: HealthBelowZeroEvent,
    pub drop: SpawnItemEvent,
}

/// What a harvesting action on `world` leads to: a felling when the struck
/// object is harvestable and the strike takes its last hit points, else
/// nothing.
pub open spec fn felling_of(world: &GameWorld, ev: HarvestInteraction) -> Option<Felled> {
    match world.health_at(ev.harvested) {
        Some(health) => if health.outcome_of_strike() == StrikeOutcome::Destroyed {
            Some(
                Felled {
                    destroyed: HealthBelowZeroEvent(ev.harvested, ev.harvested),
                    drop: SpawnItemEvent {
                        x: ev.reciever_pos.x,
                        y: ev.reciever_pos.y,
                        item_id: ItemId(HARVEST_DROP),
                    },
                },
            )
        } else {
            None
        },
        None => None,
    }
}

/// Applies a harvesting action: the health of the struck object takes one
/// strike.  When that strike takes the last hit points, the result names
/// the object to remove and the item to drop.  An action on a cell that owns
/// no harvestable object changes nothing.
pub fn harvest_interact_handler(world: &mut GameWorld, ev: &HarvestInteraction) -> (felled: Option<
    Felled,
>)
    requires
        old(world).wf(),
    ensures
        final(world).wf(),
        final(world).extent() == old(world).extent(),
        final(world).seed_value() == old(world).seed_value(),
        final(world).life() == old(world).life(),
        final(world).floor() == old(world).floor(),
        final(world).occupancy() == old(world).occupancy(),
        felled == felling_of(old(world), *ev),
        final(world).health_at(ev.harvested) == (match old(world).health_at(ev.harvested) {
            Some(health) => Some(health.after_strike()),
            None => None,
        }),
        old(world).health_at(ev.harvested) is None ==> *final(world) == *old(world),
        old(world).health_at(ev.harvested) matches Some(health) ==> final(world).objects().at(
            ev.harvested,
        ) == Some(
            Tile {
                interact: Some(Interact::Harvest(health.after_strike())),
                ..old(world).objects().at(ev.harvested)->0
            },
        ),
        forall|other: TilePos|
            final(world).extent().contains(other) && other != ev.harvested
                ==> #[trigger] final(world).objects().at(other) == old(world).objects().at(other),
{
    match world.strike_object(ev.harvested) {
        Some(StrikeOutcome::Destroyed) => Some(
            Felled {
                destroyed: HealthBelowZeroEvent(ev.harvested, ev.harvested),
                drop: SpawnItemEvent::from(
                    ev.reciever_pos.x,
                    ev.reciever_pos.y,
                    ItemId(HARVEST_DROP),
                ),
            },
        ),
        _ => None,
    }
}

/// The entry of `pos` goes when the object of the event `ev` is cleaned up:
/// the cell is a member of the dead object, or it is the struck cell and
/// holds an object of one cell.
pub open spec fn entry_cleared(world: &GameWorld, ev: HealthBelowZeroEvent, pos: TilePos) -> bool {
    world.occupancy().member_of(pos, ev.0) || (pos == ev.1 && world.occupancy().at(pos)
        == Occupancy::Blocked(ObjectSize::Single))
}

/// The object tile of `pos` goes when the object of the event `ev` is
/// cleaned up: the tile belongs to the dead object, or it lies on the struck
/// cell and that cell holds an object of one cell.
pub open spec fn tile_cleared(world: &GameWorld, ev: HealthBelowZeroEvent, pos: TilePos) -> bool {
    GameWorld::tile_of(world.objects().at(pos), ev.0) || (pos == ev.1 && world.occupancy().at(pos)
        == Occupancy::Blocked(ObjectSize::Single))
}

/// Removes a dead object from the world.  An object of several cells goes
/// whole: every member cell is cleared from the occupancy index and every
/// tile of it is taken from the object layer.  An object of one cell is
/// cleared from the struck cell.  Nothing else changes.  The result tells
/// whether the index changed.
pub fn cleanup_world_objs(world: &mut GameWorld, ev: &HealthBelowZeroEvent) -> (removed: bool)
    requires
        old(world).wf(),
    ensures
        final(world).wf(),
        final(world).extent() == old(world).extent(),
        final(world).seed_value() == old(world).seed_value(),
        final(world).life() == old(world).life(),
        final(world).floor() == old(world).floor(),
        removed <==> exists|pos: TilePos|
            old(world).extent().contains(pos) && #[trigger] entry_cleared(old(world), *ev, pos),
        forall|pos: TilePos| !#[trigger] final(world).occupancy().member_of(pos, ev.0),
        forall|pos: TilePos|
            final(world).extent().contains(pos) ==> #[trigger] final(world).occupancy().at(pos)
                == (if entry_cleared(old(world), *ev, pos) {
                Occupancy::Empty
            } else {
                old(world).occupancy().at(pos)
            }),
        forall|pos: TilePos|
            final(world).extent().contains(pos) ==> #[trigger] final(world).objects().at(pos)
                == (if tile_cleared(old(world), *ev, pos) {
                None
            } else {
                old(world).objects().at(pos)
            }),
{
    let whole: bool = world.remove_object(ev.0);
    let single: bool = world.remove_single(ev.1);
    proof {
        if single {
            assert(entry_cleared(old(world), *ev, ev.1));
        }
        if whole {
            let member = choose|pos: TilePos| #[trigger] old(world).occupancy().member_of(pos, ev.0);
            assert(entry_cleared(old(world), *ev, member));
        }
    }
    whole || single
}

} // verus!
