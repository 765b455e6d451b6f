//! A small presentation engine: an ordered sequence of slides, each a list of
//! positioned visual elements, advanced by saturating navigation and laid out
//! relative to the current surface resolution.

pub mod component;
pub mod description;
pub mod geometry;
pub mod input;
pub mod render;
pub mod resources;
pub mod slide;
pub mod slideshow;
