//! The character behavior system.
//!
//! Each tick, for every character: a dead one is left alone; a mounted one
//! is made to sit and nothing else; any other one has its queued control
//! actions taken, each handed in order to the handler of its current
//! character state, and then its state's behavior is run once. Every update
//! a handler returns has its events appended to the event buses and is then
//! written back into the components.
//!
//! The handlers themselves are the character states' own code: the caller
//! runs them. A [`BehaviorTick`] says which handler call is due next, and
//! [`Sys::apply_update`] writes back what it returned.
use vstd::prelude::*;

use crate::components::{CharacterComponents, StateUpdate};
use crate::flagged::{written_if_changed, Flagged};

verus! {

/// `after` is what writing `update` back leaves of `before`: position,
/// velocity and orientation are the update's; character state and energy
/// are written only where they change (see [`written_if_changed`]); the
/// loadout's items are swapped, with one modification event, exactly when
/// the update asks for a swap. The update's events play no part here.
pub open spec fn incorporated<C: PartialEq, P, V, O, E: PartialEq, I, L, S>(
    before: CharacterComponents<C, P, V, O, E, I>,
    update: StateUpdate<C, P, V, O, E, L, S>,
    after: CharacterComponents<C, P, V, O, E, I>,
) -> bool {
    &&& written_if_changed(before.character, update.character, after.character)
    &&& after.pos == update.pos
    &&& after.vel == update.vel
    &&& after.ori == update.ori
    &&& written_if_changed(before.energy, update.energy, after.energy)
    &&& after.loadout.value == (if update.swap_loadout {
        before.loadout.value.swapped()
    } else {
        before.loadout.value
    })
    &&& after.loadout.modifications == before.loadout.modifications + (if update.swap_loadout {
        1int
    } else {
        0int
    })
}

/// Writes a handler's update back into a character's components.
///
/// Position, velocity and orientation are overwritten. Character state and
/// energy are written only where they change, so that an unchanged one
/// raises no modification event. The loadout's weapons are swapped, with one
/// modification event, exactly when the update asks for it.
pub fn incorporate_update<C: PartialEq, P, V, O, E: PartialEq, I, L, S>(
    tuple: &mut CharacterComponents<C, P, V, O, E, I>,
    state_update: StateUpdate<C, P, V, O, E, L, S>,
)
    requires
        old(tuple).can_record_writes(),
    ensures
        incorporated(*old(tuple), state_update, *final(tuple)),
{
    tuple.character.set_if_changed(state_update.character);
    tuple.pos = state_update.pos;
    tuple.vel = state_update.vel;
    tuple.ori = state_update.ori;
    tuple.energy.set_if_changed(state_update.energy);
    if state_update.swap_loadout {
        tuple.loadout.modifications = tuple.loadout.modifications + 1;
        tuple.loadout.value.swap_items();
    }
}

/// The handler call that is due next for a character in this tick.
pub enum TickStep<A> {
    /// Hand this control action to the current state's event handler.
    HandleEvent(A),
    /// Run the current state's behavior.
    Behavior,
    /// Nothing more is due for this character in this tick.
    Done,
}

/// What remains to be done for one character in the current tick: the
/// control actions not yet handed to a handler, in their queued order, and
/// whether the state's behavior is still to run.
pub struct BehaviorTick<A> {
    pending: Vec<A>,
    behavior_due: bool,
}

impl<A> BehaviorTick<A> {
    /// The handler calls still due, in the order they are due.
    pub closed spec fn schedule(&self) -> Seq<TickStep<A>> {
        self.pending@.map_values(|a: A| TickStep::HandleEvent(a)) + (if self.behavior_due {
            seq![TickStep::Behavior]
        } else {
            Seq::empty()
        })
    }

    /// A tick with nothing due.
    pub fn finished() -> (r: Self)
        ensures
            r.schedule() == Seq::<TickStep<A>>::empty(),
    {
        let r = BehaviorTick { pending: Vec::new(), behavior_due: false };
        assert(r.schedule() =~= Seq::<TickStep<A>>::empty());
        r
    }

    /// A tick that hands each of `actions` to the event handler, in order,
    /// and then runs the behavior once.
    pub fn with_actions(actions: Vec<A>) -> (r: Self)
        ensures
            r.schedule() == actions@.map_values(|a: A| TickStep::HandleEvent(a)) + seq![
                TickStep::<A>::Behavior,
            ],
    {
        BehaviorTick { pending: actions, behavior_due: true }
    }

    /// Whether nothing more is due.
    pub fn is_done(&self) -> (r: bool)
        ensures
            r == (self.schedule().len() == 0),
    {
        self.pending.len() == 0 && !self.behavior_due
    }

    /// Takes the next handler call off the schedule; `Done` once it is empty.
    pub fn next_step(&mut self) -> (step: TickStep<A>)
        ensures
            old(self).schedule().len() > 0 ==> step == old(self).schedule()[0]
                && final(self).schedule() == old(self).schedule().drop_first(),
            old(self).schedule().len() == 0 ==> step is Done && final(self).schedule()
                == old(self).schedule(),
    {
        if self.pending.len() > 0 {
            let ghost before = self.pending@;
            let a = self.pending.remove(0);
            proof {
                let f = |a: A| TickStep::HandleEvent(a);
                assert(before.map_values(f) =~= seq![f(before[0])] + self.pending@.map_values(f));
                let tail = if self.behavior_due {
                    seq![TickStep::Behavior]
                } else {
                    Seq::empty()
                };
                assert(old(self).schedule().drop_first() =~= self.pending@.map_values(f) + tail);
            }
            TickStep::HandleEvent(a)
        } else if self.behavior_due {
            self.behavior_due = false;
            proof {
                assert(self.pending@.map_values(|a: A| TickStep::HandleEvent(a)) =~= Seq::empty());
                assert(old(self).schedule() =~= seq![TickStep::<A>::Behavior]);
                assert(self.schedule() =~= Seq::<TickStep<A>>::empty());
            }
            TickStep::Behavior
        } else {
            proof {
                assert(self.pending@.map_values(|a: A| TickStep::HandleEvent(a)) =~= Seq::empty());
                assert(self.schedule() =~= Seq::<TickStep<A>>::empty());
            }
            TickStep::Done
        }
    }
}

/// What starting a character's tick does: `before`/`after` are its state
/// slot, `queued`/`left` its controller's action queue, and `schedule` the
/// handler calls then due. A dead character keeps everything and has
/// nothing due; a live mounted one gets a guarded write of `sit`, keeps its
/// queue and has nothing due; any other keeps its state, has its queue
/// emptied, and has each queued action due for the event handler, in order,
/// followed by one behavior run.
pub open spec fn begun<C: PartialEq, A>(
    is_dead: bool,
    is_mounted: bool,
    before: Flagged<C>,
    sit: C,
    after: Flagged<C>,
    queued: Seq<A>,
    left: Seq<A>,
    schedule: Seq<TickStep<A>>,
) -> bool {
    &&& is_dead ==> after == before && left == queued && schedule == Seq::<TickStep<A>>::empty()
    &&& !is_dead && is_mounted ==> written_if_changed(before, sit, after) && left == queued
        && schedule == Seq::<TickStep<A>>::empty()
    &&& !is_dead && !is_mounted ==> after == before && left == Seq::<A>::empty() && schedule
        == queued.map_values(|a: A| TickStep::HandleEvent(a)) + seq![TickStep::<A>::Behavior]
}

/// `after` is an event bus that held `before` and then received `events`.
pub open spec fn appended<T>(before: Seq<T>, events: Seq<T>, after: Seq<T>) -> bool {
    after == before + events
}

/// The character behavior system: passes each character's data to its
/// current state's handlers and writes back the updates they return.
pub struct Sys;

impl Sys {
    /// Starts a character's tick: decides what is to be done for it.
    ///
    /// Being dead overrides everything: nothing is changed and nothing is
    /// due. A living mounted character is made to sit (its state is written
    /// only if it is not sitting already); its queued actions stay queued and
    /// nothing is due. Any other character has its queued actions taken out
    /// of its controller; each of them is then due for the event handler, in
    /// order, followed by one run of the behavior.
    pub fn begin_entity<C: PartialEq, A>(
        is_dead: bool,
        is_mounted: bool,
        character: &mut Flagged<C>,
        sit: C,
        actions: &mut Vec<A>,
    ) -> (tick: BehaviorTick<A>)
        requires
            !is_dead && is_mounted ==> old(character).modifications < u64::MAX,
        ensures
            begun(
                is_dead,
                is_mounted,
                *old(character),
                sit,
                *final(character),
                old(actions)@,
                final(actions)@,
                tick.schedule(),
            ),
    {
        if is_dead {
            return BehaviorTick::finished();
        }
        if is_mounted {
            character.set_if_changed(sit);
            return BehaviorTick::finished();
        }
        let mut taken: Vec<A> = Vec::new();
        std::mem::swap(actions, &mut taken);
        BehaviorTick::with_actions(taken)
    }

    /// Sends an update's events to the local and the server event bus, in
    /// their order and after those already there, and then writes the
    /// update back into the character's components.
    pub fn apply_update<C: PartialEq, P, V, O, E: PartialEq, I, L, S>(
        tuple: &mut CharacterComponents<C, P, V, O, E, I>,
        state_update: StateUpdate<C, P, V, O, E, L, S>,
        local_events: &mut Vec<L>,
        server_events: &mut Vec<S>,
    )
        requires
            old(tuple).can_record_writes(),
        ensures
            appended(old(local_events)@, state_update.local_events@, final(local_events)@),
            appended(old(server_events)@, state_update.server_events@, final(server_events)@),
            incorporated(*old(tuple), state_update, *final(tuple)),
    {
        let mut state_update = state_update;
        local_events.append(&mut state_update.local_events);
        server_events.append(&mut state_update.server_events);
        incorporate_update(tuple, state_update);
    }
}

} // verus!
