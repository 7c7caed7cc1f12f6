pub mod in_memory_storage;
pub mod in_memory_transport;
pub mod manual_timer;
