pub mod behavior;
pub mod config;
pub mod floats;
pub mod handler;
pub mod human;
pub mod identity;
pub mod json;
pub mod shared;
pub mod tasks;
pub mod text;
pub mod world_scan;
