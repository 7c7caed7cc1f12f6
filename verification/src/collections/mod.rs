pub mod config_change_collection;
pub mod configuration;
pub mod map_collection;
pub mod node_collection;
