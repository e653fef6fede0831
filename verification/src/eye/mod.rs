//! How the Eye moves: which state it shows, where the pupil darts, and how
//! long each glance and pause lasts.

pub mod animator;
