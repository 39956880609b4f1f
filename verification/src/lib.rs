//! Core of a terminal tool for browsing remote compute instances: an
//! instance catalog with a single-selection invariant, a pure keyboard-driven
//! selection state machine, a pure render projection, and the command line of
//! the external session launcher.

pub mod catalog;
pub mod controller;
pub mod view;
pub mod launcher;
pub mod laws;
