//! The decision core of an infinite-canvas Wayland compositor.
//!
//! Everything in this crate computes on plain values. Rendering, protocol
//! traffic and device access live in the application around it, which hands
//! the values in and carries out what comes back.

pub mod canvas;
pub mod cluster;
pub mod cluster_mirror;
pub mod config;
pub mod cursors;
pub mod decorations;
pub mod desk;
pub mod displays;
pub mod geometry;
pub mod gestures;
pub mod grabs;
pub mod keyboard;
pub mod laws;
pub mod layers;
pub mod outputs;
pub mod pointer;
pub mod protocols;
pub mod render;
pub mod runtime;
pub mod session;
pub mod shell;
pub mod snap;
pub mod text;
pub mod units;
