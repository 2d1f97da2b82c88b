//! Rules of the HomeCore plugin for Ecowitt weather stations.

pub mod action_laws;
pub mod actions;
pub mod address;
pub mod battery;
pub mod cache;
pub mod capabilities;
pub mod config;
pub mod http;
pub mod json;
pub mod registry;
pub mod registry_laws;
pub mod server;
pub mod startup;
pub mod text;
