//! A radio disc-jockey scheduler: picks songs, combos (a song's own
//! announcement), transitions and intros so that nothing, nor its linked
//! counterpart, plays twice in a row.

pub mod catalog;
pub mod fold;
pub mod random;
pub mod schedule;
pub mod select;
