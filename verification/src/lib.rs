//! Control-and-state engine for an automated greenhouse enclosure.
//!
//! The library holds the parts of the controller with real invariants:
//! the wall-clock calendar with rollover, the threshold evaluator that
//! turns a sensor reading into actuator intents, the fire-override state
//! machine, button debouncing, and the menu/edit state machine behind the
//! three-button interface. Hardware access (sensor bus, display, pins) is
//! left to the embedding program, which hands the library plain values.

pub mod calendar;
pub mod controller;
pub mod evaluate;
pub mod fire;
pub mod input;
pub mod menu;
pub mod prefs;
pub mod render;
pub mod text;
