//! An egg-timer library: it interprets loosely formatted textual time
//! expressions (absolute wall-clock targets and several relative duration
//! shorthands), resolves them into a concrete forward-looking wait, renders
//! a countdown line per tick, and selects the alert sound source.

pub mod alert;
pub mod clock;
pub mod countdown;
pub mod duration;
pub mod errors;
pub mod fields;
pub mod grammar;
pub mod laws;
pub mod resolve;
