//! The rover's scenarios: what each one schedules and which runs it accepts.

pub mod expiry_stop;
pub mod forward_turn_stop;
pub mod forward_turn_stop2;
pub mod intentionally_failing;
