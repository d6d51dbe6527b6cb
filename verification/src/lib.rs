//! Verified core of a terminal HTTP client: the actions that flow through the
//! application, the components that react to them and the loop that
//! dispatches them.

pub mod action;
pub mod app;
pub mod components;
pub mod config;
pub mod event;
pub mod geometry;
pub mod layout;
pub mod regions;
pub mod transport;
pub mod types;
pub mod utils;
pub mod views;
