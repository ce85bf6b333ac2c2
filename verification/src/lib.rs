//! Verified core of the Selah control panel for Audient iD interfaces.

pub mod controller;
pub mod device;
pub mod mixer;
pub mod monitor;
pub mod routing;
pub mod text;
pub mod laws;
