//! Properties of the behavior system that span several calls.
use vstd::prelude::*;
use vstd::laws_eq::obeys_concrete_eq;
use vstd::std_specs::cmp::PartialEqSpec;

use crate::behavior::{appended, begun, incorporated, TickStep};
use crate::components::{CharacterComponents, Loadout, StateUpdate};
use crate::flagged::{written_if_changed, Flagged};

verus! {

/// Swapping a loadout's weapons twice gives the loadout back.
pub proof fn lemma_swap_twice_restores<I>(loadout: Loadout<I>)
    ensures
        loadout.swapped().swapped() == loadout,
{
}

/// Two updates in a row that both ask for a weapon swap leave the loadout's
/// items as they were before the first, with two modification events more;
/// position, velocity and orientation are the second update's, and so are
/// character state and energy where their `==` is plain equality.
pub proof fn lemma_double_swap_restores_loadout<C: PartialEq, P, V, O, E: PartialEq, I, L, S>(
    c0: CharacterComponents<C, P, V, O, E, I>,
    u1: StateUpdate<C, P, V, O, E, L, S>,
    c1: CharacterComponents<C, P, V, O, E, I>,
    u2: StateUpdate<C, P, V, O, E, L, S>,
    c2: CharacterComponents<C, P, V, O, E, I>,
)
    requires
        incorporated(c0, u1, c1),
        incorporated(c1, u2, c2),
        u1.swap_loadout,
        u2.swap_loadout,
    ensures
        c2.loadout.value == c0.loadout.value,
        c2.loadout.modifications == c0.loadout.modifications + 2,
        c2.pos == u2.pos,
        c2.vel == u2.vel,
        c2.ori == u2.ori,
        obeys_concrete_eq::<C>() ==> c2.character.value == u2.character,
        obeys_concrete_eq::<E>() ==> c2.energy.value == u2.energy,
{
    reveal(obeys_concrete_eq);
}

/// Writing back an update whose state and energy equal the stored ones, and
/// which asks for no swap, raises no modification event and changes nothing
/// but position, velocity and orientation.
pub proof fn lemma_unchanged_update_raises_no_event<C: PartialEq, P, V, O, E: PartialEq, I, L, S>(
    c0: CharacterComponents<C, P, V, O, E, I>,
    u: StateUpdate<C, P, V, O, E, L, S>,
    c1: CharacterComponents<C, P, V, O, E, I>,
)
    requires
        obeys_concrete_eq::<C>(),
        obeys_concrete_eq::<E>(),
        incorporated(c0, u, c1),
        u.character == c0.character.value,
        u.energy == c0.energy.value,
        !u.swap_loadout,
    ensures
        c1.character == c0.character,
        c1.energy == c0.energy,
        c1.loadout == c0.loadout,
{
    reveal(obeys_concrete_eq);
}

/// Writing back an update whose character state (or energy) differs from
/// the stored one stores it, with one modification event.
pub proof fn lemma_changed_update_raises_one_event<C: PartialEq, P, V, O, E: PartialEq, I, L, S>(
    c0: CharacterComponents<C, P, V, O, E, I>,
    u: StateUpdate<C, P, V, O, E, L, S>,
    c1: CharacterComponents<C, P, V, O, E, I>,
)
    requires
        obeys_concrete_eq::<C>(),
        obeys_concrete_eq::<E>(),
        incorporated(c0, u, c1),
    ensures
        u.character != c0.character.value ==> c1.character.value == u.character
            && c1.character.modifications == c0.character.modifications + 1,
        u.energy != c0.energy.value ==> c1.energy.value == u.energy && c1.energy.modifications
            == c0.energy.modifications + 1,
{
    reveal(obeys_concrete_eq);
}

/// Writing back the same update a second time, without a swap, changes
/// nothing: not the values, and raises no modification event. This needs
/// the update's state and energy to equal themselves under `==` (a value
/// that does not, such as one holding a NaN, is written again each time).
pub proof fn lemma_repeated_update_changes_nothing<C: PartialEq, P, V, O, E: PartialEq, I, L, S>(
    c0: CharacterComponents<C, P, V, O, E, I>,
    u1: StateUpdate<C, P, V, O, E, L, S>,
    c1: CharacterComponents<C, P, V, O, E, I>,
    u2: StateUpdate<C, P, V, O, E, L, S>,
    c2: CharacterComponents<C, P, V, O, E, I>,
)
    requires
        C::obeys_eq_spec(),
        E::obeys_eq_spec(),
        u1.character.eq_spec(&u1.character),
        u1.energy.eq_spec(&u1.energy),
        incorporated(c0, u1, c1),
        incorporated(c1, u2, c2),
        u2.character == u1.character,
        u2.pos == u1.pos,
        u2.vel == u1.vel,
        u2.ori == u1.ori,
        u2.energy == u1.energy,
        !u2.swap_loadout,
    ensures
        c2 == c1,
{
}

/// A guarded write is determined by the slot and the value written, where
/// the value's `==` follows its specification.
pub proof fn lemma_guarded_write_is_determined<T: PartialEq>(
    before: Flagged<T>,
    value: T,
    after1: Flagged<T>,
    after2: Flagged<T>,
)
    requires
        T::obeys_eq_spec(),
        written_if_changed(before, value, after1),
        written_if_changed(before, value, after2),
    ensures
        after1 == after2,
{
}

/// What writing back an update leaves of a character is determined by that
/// character's components and the update alone, where state and energy
/// `==` follow their specification: nothing else (no other character, no
/// other storage) has a say in it.
pub proof fn lemma_write_back_is_determined<C: PartialEq, P, V, O, E: PartialEq, I, L, S>(
    c: CharacterComponents<C, P, V, O, E, I>,
    u1: StateUpdate<C, P, V, O, E, L, S>,
    a1: CharacterComponents<C, P, V, O, E, I>,
    u2: StateUpdate<C, P, V, O, E, L, S>,
    a2: CharacterComponents<C, P, V, O, E, I>,
)
    requires
        C::obeys_eq_spec(),
        E::obeys_eq_spec(),
        incorporated(c, u1, a1),
        incorporated(c, u2, a2),
        u2.character == u1.character,
        u2.pos == u1.pos,
        u2.vel == u1.vel,
        u2.ori == u1.ori,
        u2.energy == u1.energy,
        u2.swap_loadout == u1.swap_loadout,
    ensures
        a1 == a2,
{
}

/// A character state equal to the stored one is never written back: the
/// slot keeps its value and raises no modification event, whatever the
/// update's energy and whether or not it asks for a weapon swap.
pub proof fn lemma_unchanged_state_is_not_written<C: PartialEq, P, V, O, E: PartialEq, I, L, S>(
    c0: CharacterComponents<C, P, V, O, E, I>,
    u: StateUpdate<C, P, V, O, E, L, S>,
    c1: CharacterComponents<C, P, V, O, E, I>,
)
    requires
        obeys_concrete_eq::<C>(),
        incorporated(c0, u, c1),
        u.character == c0.character.value,
    ensures
        c1.character == c0.character,
{
    reveal(obeys_concrete_eq);
}

/// An energy equal to the stored one is never written back: the slot keeps
/// its value and raises no modification event, whatever the update's
/// character state and whether or not it asks for a weapon swap.
pub proof fn lemma_unchanged_energy_is_not_written<C: PartialEq, P, V, O, E: PartialEq, I, L, S>(
    c0: CharacterComponents<C, P, V, O, E, I>,
    u: StateUpdate<C, P, V, O, E, L, S>,
    c1: CharacterComponents<C, P, V, O, E, I>,
)
    requires
        obeys_concrete_eq::<E>(),
        incorporated(c0, u, c1),
        u.energy == c0.energy.value,
    ensures
        c1.energy == c0.energy,
{
    reveal(obeys_concrete_eq);
}

/// Each change-tracked slot is written back from its own part of the update
/// alone: two updates with the same character state leave the same state
/// slot, two with the same energy the same energy slot, and two that agree
/// on the swap request the same loadout, whatever the rest of the updates
/// say (where state and energy `==` follow their specification).
pub proof fn lemma_slots_are_written_independently<C: PartialEq, P, V, O, E: PartialEq, I, L, S>(
    c: CharacterComponents<C, P, V, O, E, I>,
    u1: StateUpdate<C, P, V, O, E, L, S>,
    a1: CharacterComponents<C, P, V, O, E, I>,
    u2: StateUpdate<C, P, V, O, E, L, S>,
    a2: CharacterComponents<C, P, V, O, E, I>,
)
    requires
        C::obeys_eq_spec(),
        E::obeys_eq_spec(),
        incorporated(c, u1, a1),
        incorporated(c, u2, a2),
    ensures
        u1.character == u2.character ==> a1.character == a2.character,
        u1.energy == u2.energy ==> a1.energy == a2.energy,
        u1.swap_loadout == u2.swap_loadout ==> a1.loadout == a2.loadout,
{
}

/// Writing back an update always leaves the update's position, velocity and
/// orientation, whatever else it says.
pub proof fn lemma_movement_is_overwritten<C: PartialEq, P, V, O, E: PartialEq, I, L, S>(
    c0: CharacterComponents<C, P, V, O, E, I>,
    u: StateUpdate<C, P, V, O, E, L, S>,
    c1: CharacterComponents<C, P, V, O, E, I>,
)
    requires
        incorporated(c0, u, c1),
    ensures
        c1.pos == u.pos,
        c1.vel == u.vel,
        c1.ori == u.ori,
{
}

/// The loadout changes only on a swap request: then its active and second
/// item trade places with one modification event; otherwise the loadout
/// slot is left exactly as it was, whatever state and energy the update
/// brings.
pub proof fn lemma_loadout_changes_only_on_swap<C: PartialEq, P, V, O, E: PartialEq, I, L, S>(
    c0: CharacterComponents<C, P, V, O, E, I>,
    u: StateUpdate<C, P, V, O, E, L, S>,
    c1: CharacterComponents<C, P, V, O, E, I>,
)
    requires
        incorporated(c0, u, c1),
    ensures
        u.swap_loadout ==> c1.loadout.value.active_item == c0.loadout.value.second_item
            && c1.loadout.value.second_item == c0.loadout.value.active_item
            && c1.loadout.modifications == c0.loadout.modifications + 1,
        !u.swap_loadout ==> c1.loadout == c0.loadout,
{
}

/// Starting a tick changes nothing of a dead character, and no handler call
/// is due for a dead or a mounted one.
pub proof fn lemma_only_acting_characters_get_handler_calls<C: PartialEq, A>(
    is_dead: bool,
    is_mounted: bool,
    before: Flagged<C>,
    sit: C,
    after: Flagged<C>,
    queued: Seq<A>,
    left: Seq<A>,
    schedule: Seq<TickStep<A>>,
)
    requires
        begun(is_dead, is_mounted, before, sit, after, queued, left, schedule),
    ensures
        is_dead ==> after == before && left == queued,
        schedule.len() > 0 ==> !is_dead && !is_mounted,
        is_dead || is_mounted ==> left == queued,
{
}

/// An acting character keeps its state, loses its whole action queue, and
/// has each queued action due exactly once for the event handler, in queued
/// order, with the behavior due once, last.
pub proof fn lemma_acting_character_schedule<C: PartialEq, A>(
    before: Flagged<C>,
    sit: C,
    after: Flagged<C>,
    queued: Seq<A>,
    left: Seq<A>,
    schedule: Seq<TickStep<A>>,
)
    requires
        begun(false, false, before, sit, after, queued, left, schedule),
    ensures
        after == before,
        left.len() == 0,
        schedule.len() == queued.len() + 1,
        forall|i: int| 0 <= i < queued.len() ==> schedule[i] == TickStep::HandleEvent(queued[i]),
        schedule.last() == TickStep::<A>::Behavior,
{
    lemma_actions_then_behavior(queued);
}

/// A live mounted character ends up sitting, with one modification event
/// exactly when it was not sitting already, and keeps its action queue.
pub proof fn lemma_mounted_tick_sits<C: PartialEq, A>(
    before: Flagged<C>,
    sit: C,
    after: Flagged<C>,
    queued: Seq<A>,
    left: Seq<A>,
    schedule: Seq<TickStep<A>>,
)
    requires
        obeys_concrete_eq::<C>(),
        begun(false, true, before, sit, after, queued, left, schedule),
    ensures
        after.value == sit,
        before.value == sit ==> after.modifications == before.modifications,
        before.value != sit ==> after.modifications == before.modifications + 1,
        left == queued,
        schedule.len() == 0,
{
    lemma_mounted_character_sits(before, sit, after);
}

/// An event bus keeps the events it held, in place, and receives the
/// update's events after them, in their order.
pub proof fn lemma_events_are_appended_in_order<T>(before: Seq<T>, events: Seq<T>, after: Seq<T>)
    requires
        appended(before, events, after),
    ensures
        after.len() == before.len() + events.len(),
        forall|i: int| 0 <= i < before.len() ==> after[i] == before[i],
        forall|j: int| 0 <= j < events.len() ==> after[before.len() + j] == events[j],
{
}

/// A mounted character ends up sitting; one modification event is raised
/// exactly when it was not sitting already.
pub proof fn lemma_mounted_character_sits<C: PartialEq>(before: Flagged<C>, sit: C, after: Flagged<C>)
    requires
        obeys_concrete_eq::<C>(),
        written_if_changed(before, sit, after),
    ensures
        after.value == sit,
        after.modifications == before.modifications + (if before.value == sit {
            0int
        } else {
            1int
        }),
{
    reveal(obeys_concrete_eq);
}

/// The schedule of an acting character hands every queued action to the
/// event handler exactly once, in queued order, and runs the behavior once,
/// last.
pub proof fn lemma_actions_then_behavior<A>(actions: Seq<A>)
    ensures
        ({
            let s = actions.map_values(|a: A| TickStep::HandleEvent(a)) + seq![TickStep::<A>::Behavior];
            &&& s.len() == actions.len() + 1
            &&& forall|i: int| 0 <= i < actions.len() ==> s[i] == TickStep::HandleEvent(actions[i])
            &&& s[actions.len() as int] == TickStep::<A>::Behavior
        }),
{
}

} // verus!
