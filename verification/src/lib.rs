//! Verified building blocks for vehicle scripts: the state machines and
//! decisions of cockpit controls, sounds, doors, current collectors, supply
//! switches and train protection.
//!
//! The simulator's variable store and message bus are reached by the host
//! application; this library decides what is read, written and sent, and
//! hands those actions back as plain values.

pub mod host_vars;
pub mod key_event;
pub mod indusi_600m;
pub mod switch_control_unit;
pub mod staged_throttle_lever;
pub mod sound;
pub mod vehicle_door;
pub mod visible_flag;
pub mod light;
pub mod steering;
pub mod variable;
pub mod passenger_seat;
pub mod simulation_settings;
pub mod mock_enums;
pub mod door_enums;
pub mod electrical_supply;
pub mod annoucements;
pub mod annoucement_player;
pub mod door_buttons;
pub mod intercom;
pub mod continous_throttle_lever;
pub mod cabin_door;
pub mod odometer;
pub mod current_collector;
pub mod main_switch;
pub mod wagenautomat;
pub mod video_system;
pub mod railbrakes;
pub mod hand_coupler;
pub mod mirror;
pub mod indusi_device;
pub mod aeg_electric_door;
pub mod windows;
