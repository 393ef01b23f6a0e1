//! What the parts of the core are for, said of all inputs.

pub mod canvas;
pub mod cluster;
pub mod config;
pub mod desk;
pub mod geometry;
pub mod gestures;
pub mod grabs;
pub mod input;
pub mod outputs;
pub mod protocols;
pub mod render;
pub mod shell;
pub mod snap;
pub mod text;
