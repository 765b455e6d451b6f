//! Construction-time descriptions of visual elements.
//!
//! A slide is built from descriptions: plain bundles of the content, resource
//! handles, measured bounding box, anchor and optional shader override of one
//! element. The extent is the bounding box of the drawable as the backend
//! realizes it (a laid-out text label, a sprite at its texture's size),
//! measured by the caller, in milli-pixels.

use vstd::prelude::*;

use crate::component::{spec_centered_origin, Component, ComponentType};
use crate::geometry::{Anchor, Extent, Position};
use crate::resources::{FontId, ImageId, ShaderId};

verus! {

/// Describes a text element: a label with `text` content drawn with the font
/// `font` at glyph size `size`, anchored at `position`, optionally rendered
/// with an overriding shader.
pub struct TextDescription {
    pub text: String,
    pub font: FontId,
    pub size: u32,
    pub extent: Extent,
    pub position: Anchor,
    pub shader: Option<ShaderId>,
}

/// Describes an image element: a sprite showing the image `image`, anchored
/// at `position`, optionally rendered with an overriding shader.
pub struct ImageDescription {
    pub image: ImageId,
    pub extent: Extent,
    pub position: Anchor,
    pub shader: Option<ShaderId>,
}

impl TextDescription {
    /// The element this description builds: its origin centered in its
    /// bounding box, its absolute position not yet computed.
    pub open spec fn built(self) -> Component {
        Component {
            relative_position: self.position,
            component_type: ComponentType::TextComponent {
                content: self.text,
                font: self.font,
                glyph_size: self.size,
            },
            shader: self.shader,
            extent: self.extent,
            origin: spec_centered_origin(self.extent),
            position: Position { x: 0, y: 0 },
        }
    }
}

impl ImageDescription {
    /// The element this description builds: its origin centered in its
    /// bounding box, its absolute position not yet computed.
    pub open spec fn built(self) -> Component {
        Component {
            relative_position: self.position,
            component_type: ComponentType::ImageComponent { image: self.image },
            shader: self.shader,
            extent: self.extent,
            origin: spec_centered_origin(self.extent),
            position: Position { x: 0, y: 0 },
        }
    }
}

} // verus!
