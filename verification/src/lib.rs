//! Decoder for the audible-alarm output of an uninterruptible power supply.
//!
//! The alarm line of a UPS beeps in a timing pattern that encodes its
//! operating state. This library turns raw level transitions on that line
//! into debounced beep/gap duration measurements, keeps a bounded history of
//! recent measurements, and classifies the most recent (beep, gap) pair
//! against a reference table of known beep signatures to recover the UPS
//! status. Status changes are deduplicated so a sink sees each new state
//! exactly once.
//!
//! All durations are in milliseconds. The alarm line is active-low: the line
//! held `Low` is a beep, the line held `High` is the silence between beeps.

pub mod classify;
pub mod decoder;
pub mod status;
