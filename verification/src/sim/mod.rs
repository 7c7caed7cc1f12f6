//! The logic of the simulated cluster: leader tracking for clients, the status LED,
//! the observer configuration, and the routing of frames on the simulated network.
pub mod cluster;
pub mod led_state;
pub mod network;
pub mod observer_config;
