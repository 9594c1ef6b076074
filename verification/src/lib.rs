//! Verified core of a daycare attendance checker: decisions on API replies,
//! presence status, day-boundary aware transitions, notification commands and
//! photo payload decoding.

pub mod api;
pub mod calendar;
pub mod cli;
pub mod notify;
pub mod state;
