//! The draw-call trace that a frame produces.
//!
//! Rendering is split in two: the scene graph decides *what* to draw and in
//! which order, and the backend submits the actual draw calls. A frame's
//! decisions are recorded in a [`FrameTrace`], an ordered sequence of
//! [`DrawCall`]s; the order of the trace is the paint order, so a later call
//! occludes an earlier one where they overlap. The caller replays the trace
//! against the real render target.

use vstd::prelude::*;

use crate::geometry::{Extent, Origin, Position};
use crate::resources::ShaderId;

verus! {

/// An RGBA color with 8-bit channels.
#[derive(Clone, Copy, PartialEq, Eq, Structural, Debug)]
pub struct Color {
    pub r: u8,
    pub g: u8,
    pub b: u8,
    pub a: u8,
}

impl Color {
    /// Builds an opaque color from its red, green and blue channels.
    pub fn rgb(r: u8, g: u8, b: u8) -> (c: Color)
        ensures
            c == (Color { r, g, b, a: 255u8 }),
    {
        Color { r, g, b, a: 255 }
    }
}

/// Which sort of drawable a draw call renders.
#[derive(Clone, Copy, PartialEq, Eq, Structural, Debug)]
pub enum DrawableKind {
    Text,
    Image,
}

/// One recorded rendering command.
#[derive(Clone, Copy, PartialEq, Eq, Structural, Debug)]
pub enum DrawCall {
    /// Fill the whole surface with a color, erasing everything drawn before.
    Clear { color: Color },
    /// Draw one element: a drawable of the given kind and extent, its local
    /// origin offset by `origin` from its top-left corner, placed at
    /// `position`, rendered with the overriding shader if `shader` is set and
    /// with the target's default pipeline otherwise. The override applies to
    /// this call alone.
    Element {
        kind: DrawableKind,
        position: Position,
        origin: Origin,
        extent: Extent,
        shader: Option<ShaderId>,
    },
}

/// The ordered draw calls of one frame, in paint order.
pub struct FrameTrace {
    pub calls: Vec<DrawCall>,
}

impl FrameTrace {
    /// An empty trace: the start of a frame.
    pub fn new() -> (t: FrameTrace)
        ensures
            t.calls@ == Seq::<DrawCall>::empty(),
    {
        FrameTrace { calls: Vec::new() }
    }

    /// The number of recorded calls.
    pub fn len(&self) -> (n: usize)
        ensures
            n == self.calls@.len(),
    {
        self.calls.len()
    }

    /// The `i`-th recorded call, in paint order.
    pub fn call(&self, i: usize) -> (c: &DrawCall)
        requires
            i < self.calls@.len(),
        ensures
            *c == self.calls@[i as int],
    {
        &self.calls[i]
    }
}

} // verus!
