//! What a frame is made of.
//!
//! The pieces themselves are drawn elsewhere, so their type is left open.

pub mod background;
pub mod blur;
pub mod capture;
pub mod corners;
pub mod frame;
pub mod outlines;
