//! Protocol core of a host-side client for the M8 tracker: SLIP deframing,
//! command decoding and change tracking of the values sent to the device,
//! with the configuration and the menu through which it is edited.

pub mod actions;
pub mod app;
pub mod cli;
pub mod config;
pub mod config_command;
pub mod config_font;
pub mod config_joystick;
pub mod config_keycode;
pub mod config_rgb;
pub mod draw;
pub mod hex;
pub mod m8;
pub mod menu;
pub mod menu_items;
pub mod menu_tools;
pub mod names;
pub mod nav;
pub mod nav_item;
pub mod nav_page;
pub mod ports;
pub mod remap;
pub mod slip;
pub mod slip_stream;
pub mod value;
