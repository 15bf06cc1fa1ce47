//! Core of a desktop countdown-timer utility: the timer state machine, the
//! registry of timers, and the wall-clock reconciliation that ticks and sync
//! passes perform. Remaining time of a running timer is always re-derived
//! from its absolute deadline, never accumulated by repeated decrements.

pub mod laws;
pub mod registry;
pub mod timer;
