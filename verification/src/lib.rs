//! A drag-and-drop timeline: lanes of jobs separated by travel legs, with the
//! addressing, reordering and drag-feedback rules stated and proved.

pub mod animation_strategy;
pub mod animations;
pub mod colors;
pub mod dnd;
pub mod events;
pub mod line_components;
pub mod position;
pub mod schedule;
pub mod text;
