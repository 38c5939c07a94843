//! The components the behavior system reads and writes for one character,
//! and the update that a character state's handler hands back.
//!
//! The payload types are parameters: the system only moves them, compares
//! them with `==`, and swaps the two weapon slots of a loadout.
use vstd::prelude::*;

use crate::flagged::Flagged;

verus! {

/// The two weapon slots of a character's loadout that a swap exchanges.
pub struct Loadout<I> {
    pub active_item: Option<I>,
    pub second_item: Option<I>,
}

impl<I> Loadout<I> {
    /// The loadout with its active and second item exchanged.
    pub open spec fn swapped(self) -> Loadout<I> {
        Loadout { active_item: self.second_item, second_item: self.active_item }
    }

    pub fn new(active_item: Option<I>, second_item: Option<I>) -> (r: Self)
        ensures
            r.active_item == active_item,
            r.second_item == second_item,
    {
        Loadout { active_item, second_item }
    }

    /// Exchanges the active and the second item.
    pub fn swap_items(&mut self)
        ensures
            *final(self) == old(self).swapped(),
    {
        std::mem::swap(&mut self.active_item, &mut self.second_item);
    }
}

/// The components of one entity that the behavior system writes: its
/// character state, position, velocity, orientation, energy and loadout.
/// Character state, energy and loadout live in change-tracked storages.
pub struct CharacterComponents<C, P, V, O, E, I> {
    pub character: Flagged<C>,
    pub pos: P,
    pub vel: V,
    pub ori: O,
    pub energy: Flagged<E>,
    pub loadout: Flagged<Loadout<I>>,
}

impl<C, P, V, O, E, I> CharacterComponents<C, P, V, O, E, I> {
    /// Each change-tracked slot can count one more modification event.
    pub open spec fn can_record_writes(&self) -> bool {
        &&& self.character.modifications < u64::MAX
        &&& self.energy.modifications < u64::MAX
        &&& self.loadout.modifications < u64::MAX
    }

    /// Components as they stand before this tick, with no modification event
    /// raised for any of them yet.
    pub fn new(character: C, pos: P, vel: V, ori: O, energy: E, loadout: Loadout<I>) -> (r: Self)
        ensures
            r.character.value == character && r.character.modifications == 0,
            r.pos == pos,
            r.vel == vel,
            r.ori == ori,
            r.energy.value == energy && r.energy.modifications == 0,
            r.loadout.value == loadout && r.loadout.modifications == 0,
    {
        CharacterComponents {
            character: Flagged::new(character),
            pos,
            vel,
            ori,
            energy: Flagged::new(energy),
            loadout: Flagged::new(loadout),
        }
    }
}

/// What a character state's handler computes for one entity: the new
/// character state, movement and energy, whether to swap weapons, and the
/// events to send to the local and the server event bus, in order.
pub struct StateUpdate<C, P, V, O, E, L, S> {
    pub character: C,
    pub pos: P,
    pub vel: V,
    pub ori: O,
    pub energy: E,
    pub swap_loadout: bool,
    pub local_events: Vec<L>,
    pub server_events: Vec<S>,
}

} // verus!
