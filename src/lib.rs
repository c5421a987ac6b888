//! Browse profiles, their devices and one device's settings, and switch a
//! device's auto-connect setting.
pub mod application;
pub mod model;
pub mod profile;
pub mod selector;

pub use application::{App, Message, Screen};
pub use model::Model;
