# character_behavior

The character behavior system of an entity-component game world.

- `src/` is the verified library (Verus):
  - `flagged`: a component slot in a change-tracked storage, and the guarded
    write that raises no modification event for an unchanged component;
  - `components`: the components the system writes for one character and the
    update a character state's handler returns;
  - `behavior`: the system itself: what is due for a character this tick
    (`Sys::begin_entity`, `BehaviorTick`), and how each update is sent to the
    event buses and written back (`Sys::apply_update`, `incorporate_update`);
  - `laws`: properties that span several calls.
- `app/` is the game-side wiring: the state handler interface and the tick
  driver, the ECS system over `specs` storages, and the arthropod combo
  animation, which is floating-point pose arithmetic.
- `tests/` runs the library on concrete values.
