//! Touchpad gesture core: contact reassembly, HID frame assembly, gesture
//! state machines, scroll policy and the pure decisions behind the input layer.

pub mod config;
pub mod contacts;
pub mod debug;
pub mod gesture;
pub mod hid;
pub mod icon;
pub mod input;
pub mod scroll_policy;
pub mod startup;
pub mod text;
pub mod update;
