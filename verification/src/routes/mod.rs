pub mod hello;
pub mod status;
pub mod tasks;
