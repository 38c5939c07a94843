//! The character behavior system of an entity-component game world, as a
//! verified library: which characters are driven this tick, in which order
//! their state handlers are due, and how each update a handler returns is
//! written back into the change-tracked component storages.
pub mod behavior;
pub mod components;
pub mod flagged;
pub mod laws;
