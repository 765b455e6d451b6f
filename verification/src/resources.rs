//! Handles for externally owned resources.
//!
//! Fonts, loaded images and compiled shaders are decoded and owned outside of
//! this crate, in tables built once at setup time that outlive every slideshow
//! referencing them. A visual element never copies or owns such a resource: it
//! stores a stable arena-style handle, an index into the owning table, and the
//! caller resolves the handle at draw time. The price of handles instead of
//! references is a runtime validity invariant — every stored handle must index
//! into its table — which [`crate::slideshow::Slideshow::handles_valid`]
//! checks against a [`ResourceCounts`] describing the tables.

use vstd::prelude::*;

verus! {

/// A handle into the caller's font table: the index of the font.
#[derive(Clone, Copy, PartialEq, Eq, Structural, Debug)]
pub struct FontId(pub usize);

/// A handle into the caller's image (texture) table: the index of the image.
#[derive(Clone, Copy, PartialEq, Eq, Structural, Debug)]
pub struct ImageId(pub usize);

/// A handle into the caller's shader table: the index of the compiled shader.
#[derive(Clone, Copy, PartialEq, Eq, Structural, Debug)]
pub struct ShaderId(pub usize);

/// The sizes of the caller's three resource tables, against which handle
/// validity is checked.
#[derive(Clone, Copy, PartialEq, Eq, Structural, Debug)]
pub struct ResourceCounts {
    pub fonts: usize,
    pub images: usize,
    pub shaders: usize,
}

impl FontId {
    /// Whether this handle indexes into a font table of the given size.
    pub open spec fn spec_valid(self, counts: ResourceCounts) -> bool {
        self.0 < counts.fonts
    }

    /// Checks that this handle indexes into a font table of the given size.
    pub fn valid(&self, counts: &ResourceCounts) -> (r: bool)
        ensures
            r == self.spec_valid(*counts),
    {
        self.0 < counts.fonts
    }
}

impl ImageId {
    /// Whether this handle indexes into an image table of the given size.
    pub open spec fn spec_valid(self, counts: ResourceCounts) -> bool {
        self.0 < counts.images
    }

    /// Checks that this handle indexes into an image table of the given size.
    pub fn valid(&self, counts: &ResourceCounts) -> (r: bool)
        ensures
            r == self.spec_valid(*counts),
    {
        self.0 < counts.images
    }
}

impl ShaderId {
    /// Whether this handle indexes into a shader table of the given size.
    pub open spec fn spec_valid(self, counts: ResourceCounts) -> bool {
        self.0 < counts.shaders
    }

    /// Checks that this handle indexes into a shader table of the given size.
    pub fn valid(&self, counts: &ResourceCounts) -> (r: bool)
        ensures
            r == self.spec_valid(*counts),
    {
        self.0 < counts.shaders
    }
}

} // verus!
