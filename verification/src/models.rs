//! The models of small applications for the runtime, and what their views
//! decide and compute.

pub mod base64;
pub mod calculator;
pub mod checkbutton;
pub mod counter;
pub mod csv;
pub mod flightbooker;
pub mod resters;
