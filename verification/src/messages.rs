//! The message catalog: one request type and, where the protocol answers,
//! one response type per operation, each with its fixed 64-byte layout.

pub mod add_task;
pub mod clear_task_list;
pub mod clear_time_profiles;
pub mod delete_card;
pub mod delete_cards;
pub mod get_card_by_id;
pub mod get_card_by_index;
pub mod get_cards;
pub mod get_config;
pub mod get_door_control_state;
pub mod get_event;
pub mod get_event_index;
pub mod get_listener;
pub mod get_status;
pub mod get_time;
pub mod get_time_profile;
pub mod open_door;
pub mod put_card;
pub mod refresh_task_list;
pub mod set_address;
pub mod set_door_control_state;
pub mod set_event_index;
pub mod set_first_card;
pub mod set_listener;
pub mod set_record_special_events;
pub mod set_time;
pub mod set_time_profile;
