//! Interval-training sessions: countdowns, cursors over ordered workouts,
//! sequence builders and the tick-driven timer that plays them.

pub mod bell;
pub mod boxing_timer;
pub mod duration;
pub mod errors;
pub mod exercises;
pub mod indexedvec;
pub mod intersperse;
pub mod item;
pub mod mobiletimer;
pub mod player;
pub mod sequence;
pub mod shuffle;
pub mod signal;
pub mod slugs;
pub mod sound;
pub mod status;
pub mod stopwatch;
pub mod tag;
pub mod text;
pub mod unique;
pub mod workout;
