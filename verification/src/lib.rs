//! The display logic of a tray utility that drives the DeepCool CH270
//! DIGITAL case screen: the settings it keeps, which page and which CPU
//! detail the screen shows over time, how it reads the sensor bridge's
//! lines, the HID report that the screen receives, and the status line of
//! the settings window.

pub mod packet;
pub mod schedule;
pub mod sensors;
pub mod session;
pub mod settings;
pub mod system;
pub mod text;
