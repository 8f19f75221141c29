//! Interaction core of a terminal explorer that lists the entries of a
//! directory tree whose names match a filter, with their sizes, and lets the
//! user pick some of them for deletion.

pub mod app;
pub mod inputs;
pub mod utils;
