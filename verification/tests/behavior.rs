use character_behavior::behavior::{incorporate_update, BehaviorTick, Sys, TickStep};
use character_behavior::components::{CharacterComponents, Loadout, StateUpdate};
use character_behavior::flagged::Flagged;

#[derive(Clone, Copy, Debug, PartialEq)]
enum State {
    Idle,
    Sit,
    Wielding,
    Roll(u32),
}

#[derive(Clone, Debug, PartialEq)]
enum Action {
    Wield,
    Sit,
    Stand,
}

type Components = CharacterComponents<State, (i32, i32), i32, u8, u32, &'static str>;
type Update = StateUpdate<State, (i32, i32), i32, u8, u32, &'static str, u64>;

fn components() -> Components {
    CharacterComponents::new(
        State::Idle,
        (1, 2),
        0,
        0,
        100,
        Loadout::new(Some("sword"), Some("bow")),
    )
}

fn update(character: State, energy: u32, swap_loadout: bool) -> Update {
    StateUpdate {
        character,
        pos: (5, 6),
        vel: 7,
        ori: 8,
        energy,
        swap_loadout,
        local_events: vec!["jump", "land"],
        server_events: vec![42],
    }
}

fn drain(tick: &mut BehaviorTick<Action>) -> Vec<TickStep<Action>> {
    let mut steps = Vec::new();
    loop {
        let step = tick.next_step();
        let done = matches!(step, TickStep::Done);
        steps.push(step);
        if done {
            return steps;
        }
    }
}

fn is_handle(step: &TickStep<Action>, action: &Action) -> bool {
    match step {
        TickStep::HandleEvent(a) => a == action,
        _ => false,
    }
}

#[test]
fn incorporate_overwrites_movement() {
    let mut c = components();
    incorporate_update(&mut c, update(State::Idle, 100, false));
    assert_eq!(c.pos, (5, 6));
    assert_eq!(c.vel, 7);
    assert_eq!(c.ori, 8);
}

#[test]
fn incorporate_same_state_is_not_flagged() {
    let mut c = components();
    incorporate_update(&mut c, update(State::Idle, 100, false));
    assert_eq!(c.character.value, State::Idle);
    assert!(!c.character.is_modified());
    assert!(!c.energy.is_modified());
    assert!(!c.loadout.is_modified());
}

#[test]
fn incorporate_changed_state_is_written_and_flagged() {
    let mut c = components();
    incorporate_update(&mut c, update(State::Roll(3), 80, false));
    assert_eq!(*c.character.get(), State::Roll(3));
    assert!(c.character.is_modified());
    assert_eq!(*c.energy.get(), 80);
    assert!(c.energy.is_modified());
    assert!(!c.loadout.is_modified());
}

#[test]
fn incorporate_swaps_loadout_on_request() {
    let mut c = components();
    incorporate_update(&mut c, update(State::Idle, 100, true));
    assert_eq!(c.loadout.value.active_item, Some("bow"));
    assert_eq!(c.loadout.value.second_item, Some("sword"));
    assert!(c.loadout.is_modified());
}

#[test]
fn double_swap_restores_loadout() {
    let mut c = components();
    incorporate_update(&mut c, update(State::Idle, 100, true));
    incorporate_update(&mut c, update(State::Idle, 100, true));
    assert_eq!(c.loadout.value.active_item, Some("sword"));
    assert_eq!(c.loadout.value.second_item, Some("bow"));
    assert_eq!(c.loadout.modification_count(), 2);
}

#[test]
fn swap_with_empty_slot() {
    let mut c = components();
    c.loadout = Flagged::new(Loadout::new(Some("staff"), None));
    incorporate_update(&mut c, update(State::Idle, 100, true));
    assert_eq!(c.loadout.value.active_item, None);
    assert_eq!(c.loadout.value.second_item, Some("staff"));
}

#[test]
fn repeated_update_changes_nothing_more() {
    let mut c = components();
    incorporate_update(&mut c, update(State::Wielding, 90, false));
    let (character, energy) = (c.character.value, c.energy.value);
    assert_eq!(c.character.modification_count(), 1);
    assert_eq!(c.energy.modification_count(), 1);
    incorporate_update(&mut c, update(State::Wielding, 90, false));
    assert_eq!(c.character.value, character);
    assert_eq!(c.energy.value, energy);
    assert_eq!(c.character.modification_count(), 1);
    assert_eq!(c.energy.modification_count(), 1);
    assert_eq!(c.loadout.modification_count(), 0);
}

#[test]
fn set_if_changed_and_set() {
    let mut f = Flagged::new(3u32);
    f.set_if_changed(3);
    assert!(!f.is_modified());
    f.set(3);
    assert!(f.is_modified());
    f.set(3);
    assert_eq!(f.modification_count(), 2);
    let mut g = Flagged::new(3u32);
    g.set_if_changed(4);
    assert_eq!(*g.get(), 4);
    assert!(g.is_modified());
}

#[test]
fn apply_update_appends_events_in_order() {
    let mut c = components();
    let mut local = vec!["earlier"];
    let mut server = vec![1u64];
    Sys::apply_update(&mut c, update(State::Roll(1), 100, false), &mut local, &mut server);
    Sys::apply_update(&mut c, update(State::Roll(2), 100, false), &mut local, &mut server);
    assert_eq!(local, vec!["earlier", "jump", "land", "jump", "land"]);
    assert_eq!(server, vec![1, 42, 42]);
    assert_eq!(c.character.value, State::Roll(2));
    assert_eq!(c.character.modification_count(), 2);
    assert_eq!(c.energy.modification_count(), 0);
}

#[test]
fn dead_character_is_left_alone() {
    let mut character = Flagged::new(State::Idle);
    let mut actions = vec![Action::Wield, Action::Sit];
    let mut tick = Sys::begin_entity(true, true, &mut character, State::Sit, &mut actions);
    assert!(tick.is_done());
    assert_eq!(character.value, State::Idle);
    assert!(!character.is_modified());
    assert_eq!(actions, vec![Action::Wield, Action::Sit]);
    assert!(matches!(tick.next_step(), TickStep::Done));
}

#[test]
fn mounted_character_sits() {
    let mut character = Flagged::new(State::Wielding);
    let mut actions = vec![Action::Stand];
    let mut tick = Sys::begin_entity(false, true, &mut character, State::Sit, &mut actions);
    assert_eq!(character.value, State::Sit);
    assert!(character.is_modified());
    assert_eq!(actions, vec![Action::Stand]);
    assert!(tick.is_done());
    assert!(matches!(tick.next_step(), TickStep::Done));
}

#[test]
fn mounted_character_already_sitting_is_not_flagged() {
    let mut character = Flagged::new(State::Sit);
    let mut actions: Vec<Action> = Vec::new();
    let tick = Sys::begin_entity(false, true, &mut character, State::Sit, &mut actions);
    assert_eq!(character.value, State::Sit);
    assert!(!character.is_modified());
    assert!(tick.is_done());
}

#[test]
fn acting_character_handles_actions_in_order_then_behavior() {
    let mut character = Flagged::new(State::Idle);
    let mut actions = vec![Action::Wield, Action::Sit, Action::Stand];
    let mut tick = Sys::begin_entity(false, false, &mut character, State::Sit, &mut actions);
    assert!(actions.is_empty());
    assert!(!character.is_modified());
    assert!(!tick.is_done());
    let steps = drain(&mut tick);
    assert_eq!(steps.len(), 5);
    assert!(is_handle(&steps[0], &Action::Wield));
    assert!(is_handle(&steps[1], &Action::Sit));
    assert!(is_handle(&steps[2], &Action::Stand));
    assert!(matches!(steps[3], TickStep::Behavior));
    assert!(matches!(steps[4], TickStep::Done));
    assert!(tick.is_done());
    assert!(matches!(tick.next_step(), TickStep::Done));
}

#[test]
fn acting_character_without_actions_runs_behavior_once() {
    let mut character = Flagged::new(State::Idle);
    let mut actions: Vec<Action> = Vec::new();
    let mut tick = Sys::begin_entity(false, false, &mut character, State::Sit, &mut actions);
    let steps = drain(&mut tick);
    assert_eq!(steps.len(), 2);
    assert!(matches!(steps[0], TickStep::Behavior));
    assert!(matches!(steps[1], TickStep::Done));
}

#[test]
fn tick_with_actions_and_finished() {
    let mut t = BehaviorTick::with_actions(vec![Action::Sit]);
    assert!(is_handle(&t.next_step(), &Action::Sit));
    assert!(matches!(t.next_step(), TickStep::Behavior));
    assert!(t.is_done());
    let mut f: BehaviorTick<Action> = BehaviorTick::finished();
    assert!(f.is_done());
    assert!(matches!(f.next_step(), TickStep::Done));
}

#[test]
fn loadout_swap_items() {
    let mut l = Loadout::new(Some(1u8), Some(2u8));
    l.swap_items();
    assert_eq!(l.active_item, Some(2));
    assert_eq!(l.second_item, Some(1));
}

#[test]
fn nan_energy_is_written_on_every_update() {
    let mut c: CharacterComponents<State, i32, i32, i32, f32, u8> =
        CharacterComponents::new(State::Idle, 0, 0, 0, f32::NAN, Loadout::new(None, None));
    let u = |e: f32| StateUpdate::<State, i32, i32, i32, f32, u8, u8> {
        character: State::Idle,
        pos: 1,
        vel: 2,
        ori: 3,
        energy: e,
        swap_loadout: false,
        local_events: Vec::new(),
        server_events: Vec::new(),
    };
    incorporate_update(&mut c, u(f32::NAN));
    incorporate_update(&mut c, u(f32::NAN));
    assert_eq!(c.energy.modification_count(), 2);
    assert_eq!(c.character.modification_count(), 0);
}
