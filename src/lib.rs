//! A closed-loop thermal governor for a laptop: sensor readings are turned
//! into a state snapshot, classified into thermal zones, kept in a bounded
//! history, and fed to a control policy that decides on performance caps
//! and fan boost.

pub mod control;
pub mod history;
pub mod sensors;
pub mod text;
pub mod zone;
