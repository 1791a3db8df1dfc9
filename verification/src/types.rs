//! Domain records: the human-facing values the wire messages convert to and
//! from.

pub mod card;
pub mod device_config;
pub mod direction;
pub mod door_control;
pub mod event;
pub mod status;
pub mod task;
pub mod time_profile;
