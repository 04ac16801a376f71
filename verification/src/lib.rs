//! Rendering geometry and display-mode logic for a terminal clock.
//!
//! The clock is drawn either as large digits at one of four size tiers or as
//! an analog face with hour, minute and second hands.  This crate owns the
//! parts with real invariants: the size-tier state machine, the centered
//! layout rectangle for digital mode, the integer geometry of the analog
//! face, the hand angles derived from the sampled time, and the mapping of
//! key and mouse input onto mode transitions.  Terminal setup, event polling
//! and the actual painting live outside the crate and exchange plain values
//! with it.

pub mod clock;
pub mod geometry;
pub mod hands;
pub mod input;
pub mod mode;
