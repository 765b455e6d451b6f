//! Visual elements: the leaves of the scene graph.
//!
//! A [`Component`] is one drawable, updatable unit — a text label or an image
//! sprite — holding a resolution-relative anchor, handles to the external
//! resources it borrows, and an optional per-element shader override. On
//! construction its local origin is reset to the center of its bounding box,
//! so the anchor always denotes the element's visual center; each update
//! recomputes the absolute position from the anchor and the current surface
//! size, so layout follows the resolution instead of being cached.

use vstd::prelude::*;

use crate::geometry::{abs_coord, layout_position, Anchor, Extent, Origin, Position};
use crate::render::{DrawCall, DrawableKind, FrameTrace};
use crate::resources::{FontId, ImageId, ResourceCounts, ShaderId};

verus! {

/// The closed set of drawable kinds a component can be.
///
/// The text content, the font and the glyph size (for text), or the image
/// handle (for sprites), are the data the backend needs to realize the
/// drawable; the measured bounding box of that realization is kept beside
/// this, in [`Component::extent`].
pub enum ComponentType {
    TextComponent { content: String, font: FontId, glyph_size: u32 },
    ImageComponent { image: ImageId },
}

impl ComponentType {
    /// The kind tag a draw call records for this drawable.
    pub open spec fn kind(self) -> DrawableKind {
        match self {
            ComponentType::TextComponent { .. } => DrawableKind::Text,
            ComponentType::ImageComponent { .. } => DrawableKind::Image,
        }
    }

    /// Whether every resource handle of this drawable indexes into its table.
    pub open spec fn spec_handles_valid(self, counts: ResourceCounts) -> bool {
        match self {
            ComponentType::TextComponent { font, .. } => font.spec_valid(counts),
            ComponentType::ImageComponent { image } => image.spec_valid(counts),
        }
    }
}

/// One visual element of a slide.
pub struct Component {
    /// The anchor: the element's intended center as a fraction of the surface.
    pub relative_position: Anchor,
    /// What is drawn: a text label or an image sprite.
    pub component_type: ComponentType,
    /// If set, this element alone is drawn with that shader instead of the
    /// target's default pipeline.
    pub shader: Option<ShaderId>,
    /// The measured size of the element's axis-aligned bounding box.
    pub extent: Extent,
    /// The local origin of the drawable; construction centers it in `extent`.
    pub origin: Origin,
    /// The absolute position of the origin, recomputed by every update.
    pub position: Position,
}

/// The origin at the exact center of a bounding box of the given extent,
/// in half milli-pixels.
pub open spec fn spec_centered_origin(extent: Extent) -> Origin {
    Origin { x2: extent.width, y2: extent.height }
}

/// Computes the origin at the exact center of a bounding box: half the extent
/// in each axis, held in half milli-pixel units so odd extents stay exact.
fn centered_origin(extent: Extent) -> (o: Origin)
    ensures
        o == spec_centered_origin(extent),
{
    Origin { x2: extent.width, y2: extent.height }
}

impl Component {
    /// Whether this element's origin sits at the center of its bounding box,
    /// as construction establishes.
    pub open spec fn centered(self) -> bool {
        self.origin == spec_centered_origin(self.extent)
    }

    /// The element this one becomes when updated for a surface of the given
    /// pixel size: the same element, its absolute position recomputed from
    /// the anchor.
    pub open spec fn positioned(self, surface: (u32, u32)) -> Component {
        Component {
            relative_position: self.relative_position,
            component_type: self.component_type,
            shader: self.shader,
            extent: self.extent,
            origin: self.origin,
            position: Position {
                x: abs_coord(self.relative_position.x as int, surface.0 as int) as u64,
                y: abs_coord(self.relative_position.y as int, surface.1 as int) as u64,
            },
        }
    }

    /// The one rendering command this element emits when drawn.
    pub open spec fn draw_call(self) -> DrawCall {
        DrawCall::Element {
            kind: self.component_type.kind(),
            position: self.position,
            origin: self.origin,
            extent: self.extent,
            shader: self.shader,
        }
    }

    /// Whether every resource handle this element borrows — its font or
    /// image, and its shader override if any — indexes into its table.
    pub open spec fn spec_handles_valid(self, counts: ResourceCounts) -> bool {
        &&& self.component_type.spec_handles_valid(counts)
        &&& (self.shader matches Some(s) ==> s.spec_valid(counts))
    }

    /// Builds a text element: a label with the given content, drawn with the
    /// font handle at the given glyph size. `extent` is the measured bounding
    /// box of the realized label; the element's origin is immediately reset to
    /// its center, so `anchor` denotes the label's visual center.
    pub fn text(
        content: String,
        font: FontId,
        glyph_size: u32,
        extent: Extent,
        anchor: Anchor,
        shader: Option<ShaderId>,
    ) -> (c: Component)
        ensures
            c.relative_position == anchor,
            c.component_type == (ComponentType::TextComponent { content, font, glyph_size }),
            c.shader == shader,
            c.extent == extent,
            c.centered(),
            c.position == (Position { x: 0u64, y: 0u64 }),
    {
        let origin = centered_origin(extent);
        Component {
            relative_position: anchor,
            component_type: ComponentType::TextComponent { content, font, glyph_size },
            shader,
            extent,
            origin,
            position: Position { x: 0, y: 0 },
        }
    }

    /// Builds an image element: a sprite for the given image handle. `extent`
    /// is the measured bounding box of the realized sprite; the element's
    /// origin is immediately reset to its center, so `anchor` denotes the
    /// sprite's visual center.
    pub fn image(
        image: ImageId,
        extent: Extent,
        anchor: Anchor,
        shader: Option<ShaderId>,
    ) -> (c: Component)
        ensures
            c.relative_position == anchor,
            c.component_type == (ComponentType::ImageComponent { image }),
            c.shader == shader,
            c.extent == extent,
            c.centered(),
            c.position == (Position { x: 0u64, y: 0u64 }),
    {
        let origin = centered_origin(extent);
        Component {
            relative_position: anchor,
            component_type: ComponentType::ImageComponent { image },
            shader,
            extent,
            origin,
            position: Position { x: 0, y: 0 },
        }
    }

    /// Recomputes the absolute position from the anchor and the current
    /// surface size. The elapsed time is accepted for forward compatibility
    /// with animation but does not influence layout, so the result depends on
    /// the surface size alone.
    pub fn update(&mut self, _elapsed_ms: u64, resolution: (u32, u32))
        ensures
            *final(self) == old(self).positioned(resolution),
    {
        let p = self.relative_position.resolve(resolution);
        self.position = p;
    }

    /// Emits this element's single draw call: its kind, placement and shader
    /// override, appended to the trace. The element itself is not changed.
    pub fn draw(&self, target: &mut FrameTrace)
        ensures
            final(target).calls@ == old(target).calls@.push(self.draw_call()),
    {
        let kind = match &self.component_type {
            ComponentType::TextComponent { .. } => DrawableKind::Text,
            ComponentType::ImageComponent { .. } => DrawableKind::Image,
        };
        let call = DrawCall::Element {
            kind,
            position: self.position,
            origin: self.origin,
            extent: self.extent,
            shader: self.shader,
        };
        target.calls.push(call);
    }

    /// Checks that every resource handle this element borrows indexes into
    /// its table.
    pub fn handles_valid(&self, counts: &ResourceCounts) -> (r: bool)
        ensures
            r == self.spec_handles_valid(*counts),
    {
        let kind_ok = match &self.component_type {
            ComponentType::TextComponent { font, .. } => font.valid(counts),
            ComponentType::ImageComponent { image } => image.valid(counts),
        };
        let shader_ok = match &self.shader {
            Some(s) => s.valid(counts),
            None => true,
        };
        kind_ok && shader_ok
    }
}

/// Layout determinism: updating an element for a surface of size `(W, H)`
/// places its absolute position at exactly `(anchor.x * W, anchor.y * H)`,
/// whatever its position was before.
pub proof fn lemma_layout_determinism(c: Component, surface: (u32, u32))
    ensures
        c.positioned(surface).position.x as int == layout_position(
            c.relative_position,
            surface,
        ).0,
        c.positioned(surface).position.y as int == layout_position(
            c.relative_position,
            surface,
        ).1,
{
    crate::geometry::lemma_abs_coord_bounds(c.relative_position.x, surface.0);
    crate::geometry::lemma_abs_coord_bounds(c.relative_position.y, surface.1);
}

/// Layout is idempotent: updating an element twice for the same surface size
/// yields exactly the element updated once.
pub proof fn lemma_update_idempotent(c: Component, surface: (u32, u32))
    ensures
        c.positioned(surface).positioned(surface) == c.positioned(surface),
{
}

/// Resolution invariance: doubling both surface dimensions exactly doubles
/// both coordinates of an element's computed absolute position.
pub proof fn lemma_resolution_invariance(c: Component, surface: (u32, u32), doubled: (u32, u32))
    requires
        doubled.0 == 2 * surface.0,
        doubled.1 == 2 * surface.1,
    ensures
        c.positioned(doubled).position.x == 2 * c.positioned(surface).position.x,
        c.positioned(doubled).position.y == 2 * c.positioned(surface).position.y,
{
    crate::geometry::lemma_layout_scales_with_resolution(c.relative_position, surface, doubled);
    crate::geometry::lemma_abs_coord_bounds(c.relative_position.x, surface.0);
    crate::geometry::lemma_abs_coord_bounds(c.relative_position.y, surface.1);
    crate::geometry::lemma_abs_coord_bounds(c.relative_position.x, doubled.0);
    crate::geometry::lemma_abs_coord_bounds(c.relative_position.y, doubled.1);
}

/// Re-layout touches placement only: an update changes neither what an
/// element draws nor which resources it borrows — so a surface rebuilt at a
/// new size (a fullscreen toggle) never invalidates handle validity or the
/// centered origin, only the recomputed position.
pub proof fn lemma_update_preserves_shape(c: Component, surface: (u32, u32))
    ensures
        c.positioned(surface).component_type == c.component_type,
        c.positioned(surface).shader == c.shader,
        c.positioned(surface).extent == c.extent,
        c.positioned(surface).origin == c.origin,
        c.centered() ==> c.positioned(surface).centered(),
        forall|counts: ResourceCounts|
            c.positioned(surface).spec_handles_valid(counts) == c.spec_handles_valid(counts),
{
}

/// Origin centering: a constructed element's bounding box is symmetric about
/// its position in both axes — the left and right margins are equal, and so
/// are the top and bottom margins. All quantities are in doubled milli-pixels,
/// where every exact half is representable.
pub proof fn lemma_origin_centering(c: Component)
    requires
        c.centered(),
    ensures
        c.bounds_right2() - 2 * c.position.x == 2 * c.position.x - c.bounds_left2(),
        c.bounds_bottom2() - 2 * c.position.y == 2 * c.position.y - c.bounds_top2(),
{
}

impl Component {
    /// The left edge of this element's bounding box, in doubled milli-pixels.
    pub open spec fn bounds_left2(self) -> int {
        2 * self.position.x - self.origin.x2
    }

    /// The right edge of this element's bounding box, in doubled milli-pixels.
    pub open spec fn bounds_right2(self) -> int {
        self.bounds_left2() + 2 * self.extent.width
    }

    /// The top edge of this element's bounding box, in doubled milli-pixels.
    pub open spec fn bounds_top2(self) -> int {
        2 * self.position.y - self.origin.y2
    }

    /// The bottom edge of this element's bounding box, in doubled
    /// milli-pixels.
    pub open spec fn bounds_bottom2(self) -> int {
        self.bounds_top2() + 2 * self.extent.height
    }
}

} // verus!
