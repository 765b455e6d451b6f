//! Slides: ordered collections of visual elements.
//!
//! A [`Slide`] owns no resources, only structural composition: an append-only
//! list of elements, whose insertion order is the paint order, and an optional
//! background fill. A blank slide declares no background — whatever the
//! backend left in the buffer stays — while [`Slide::with_background`] clears
//! to an explicit color before the elements are drawn.

use vstd::prelude::*;

use crate::component::Component;
use crate::description::{ImageDescription, TextDescription};
use crate::render::{Color, DrawCall, FrameTrace};
use crate::resources::ResourceCounts;

verus! {

/// One slide: its elements in paint order, and an optional background fill.
pub struct Slide {
    pub components: Vec<Component>,
    pub background_colour: Option<Color>,
}

impl Slide {
    /// The draw calls the background contributes: one clear if a background
    /// color is declared, nothing otherwise.
    pub open spec fn background_seq(self) -> Seq<DrawCall> {
        match self.background_colour {
            Some(color) => seq![DrawCall::Clear { color }],
            None => Seq::<DrawCall>::empty(),
        }
    }

    /// The full trace this slide emits when drawn: the background fill, if
    /// any, followed by one draw call per element in insertion order.
    pub open spec fn draw_seq(self) -> Seq<DrawCall> {
        self.background_seq() + self.components@.map_values(|c: Component| c.draw_call())
    }

    /// Whether this slide is `from` after one update pass for the given
    /// surface size: the background and the element list are kept, and every
    /// element's absolute position is recomputed from its anchor.
    pub open spec fn is_updated(self, from: Slide, resolution: (u32, u32)) -> bool {
        &&& self.background_colour == from.background_colour
        &&& self.components@.len() == from.components@.len()
        &&& forall|i: int|
            0 <= i < from.components@.len() ==> self.components@[i] == from.components@[
                i
            ].positioned(resolution)
    }

    /// Whether every element's resource handles index into their tables.
    pub open spec fn spec_handles_valid(self, counts: ResourceCounts) -> bool {
        forall|i: int|
            0 <= i < self.components@.len() ==> self.components@[i].spec_handles_valid(counts)
    }

    /// An empty slide with no declared background: drawing it clears nothing.
    pub fn blank() -> (s: Slide)
        ensures
            s.components@ == Seq::<Component>::empty(),
            s.background_colour is None,
    {
        Slide { components: Vec::new(), background_colour: None }
    }

    /// An empty slide that clears the surface to `color` before its elements
    /// are drawn.
    pub fn with_background(color: Color) -> (s: Slide)
        ensures
            s.components@ == Seq::<Component>::empty(),
            s.background_colour == Some(color),
    {
        Slide { components: Vec::new(), background_colour: Some(color) }
    }

    /// Appends the text element `desc` describes; every element already
    /// present keeps its place, so the new element paints over all of them.
    pub fn add_text(self, desc: TextDescription) -> (s: Slide)
        ensures
            s.background_colour == self.background_colour,
            s.components@ == self.components@.push(desc.built()),
    {
        let ghost built = desc.built();
        let TextDescription { text, font, size, extent, position, shader } = desc;
        let component = Component::text(text, font, size, extent, position, shader);
        assert(component == built);
        let mut s = self;
        s.components.push(component);
        s
    }

    /// Appends the image element `desc` describes; every element already
    /// present keeps its place, so the new element paints over all of them.
    pub fn add_image(self, desc: ImageDescription) -> (s: Slide)
        ensures
            s.background_colour == self.background_colour,
            s.components@ == self.components@.push(desc.built()),
    {
        let ghost built = desc.built();
        let ImageDescription { image, extent, position, shader } = desc;
        let component = Component::image(image, extent, position, shader);
        assert(component == built);
        let mut s = self;
        s.components.push(component);
        s
    }

    /// The number of elements on this slide.
    pub fn len(&self) -> (n: usize)
        ensures
            n == self.components@.len(),
    {
        self.components.len()
    }

    /// The `i`-th element, in paint order.
    pub fn component(&self, i: usize) -> (c: &Component)
        requires
            i < self.components@.len(),
        ensures
            *c == self.components@[i as int],
    {
        &self.components[i]
    }

    /// Forwards the update to every element in order, none skipped: each
    /// recomputes its absolute position from its anchor and the given surface
    /// size.
    pub fn update(&mut self, elapsed_ms: u64, resolution: (u32, u32))
        ensures
            final(self).is_updated(*old(self), resolution),
    {
        let n = self.components.len();
        let mut i: usize = 0;
        while i < n
            invariant
                i <= n,
                n == self.components@.len(),
                n == old(self).components@.len(),
                self.background_colour == old(self).background_colour,
                forall|j: int|
                    0 <= j < i ==> self.components@[j] == old(self).components@[j].positioned(
                        resolution,
                    ),
                forall|j: int| i <= j < n ==> self.components@[j] == old(self).components@[j],
            decreases n - i,
        {
            self.components[i].update(elapsed_ms, resolution);
            i += 1;
        }
    }

    /// Draws this slide into the trace: the background fill first, if one is
    /// declared, then every element in insertion order. The slide itself is
    /// not changed.
    pub fn draw(&self, target: &mut FrameTrace)
        ensures
            final(target).calls@ == old(target).calls@ + self.draw_seq(),
    {
        match &self.background_colour {
            Some(color) => {
                target.calls.push(DrawCall::Clear { color: *color });
            },
            None => {},
        }
        let n = self.components.len();
        let mut i: usize = 0;
        while i < n
            invariant
                i <= n,
                n == self.components@.len(),
                target.calls@ == old(target).calls@ + self.background_seq()
                    + self.components@.subrange(0, i as int).map_values(
                    |c: Component| c.draw_call(),
                ),
            decreases n - i,
        {
            let ghost prefix = self.components@.subrange(0, i as int);
            self.components[i].draw(target);
            proof {
                assert(self.components@.subrange(0, i + 1 as int) =~= prefix.push(
                    self.components@[i as int],
                ));
                assert(prefix.push(self.components@[i as int]).map_values(
                    |c: Component| c.draw_call(),
                ) =~= prefix.map_values(|c: Component| c.draw_call()).push(
                    self.components@[i as int].draw_call(),
                ));
                assert(target.calls@ =~= old(target).calls@ + self.background_seq()
                    + self.components@.subrange(0, i + 1 as int).map_values(
                    |c: Component| c.draw_call(),
                ));
            }
            i += 1;
        }
        proof {
            assert(self.components@.subrange(0, n as int) =~= self.components@);
            assert(old(target).calls@ + self.background_seq() + self.components@.map_values(
                |c: Component| c.draw_call(),
            ) =~= old(target).calls@ + self.draw_seq());
        }
    }

    /// Checks that every element's resource handles index into their tables.
    pub fn handles_valid(&self, counts: &ResourceCounts) -> (r: bool)
        ensures
            r == self.spec_handles_valid(*counts),
    {
        let n = self.components.len();
        let mut i: usize = 0;
        while i < n
            invariant
                i <= n,
                n == self.components@.len(),
                forall|j: int| 0 <= j < i ==> self.components@[j].spec_handles_valid(*counts),
            decreases n - i,
        {
            if !self.components[i].handles_valid(counts) {
                return false;
            }
            i += 1;
        }
        true
    }
}

/// Re-layout preserves the borrow invariant: a slide updated for any surface
/// size holds exactly as valid handles as before, whatever the resource
/// tables are. A display-mode change resizes the surface but cannot
/// invalidate what the elements borrow.
pub proof fn lemma_update_preserves_validity(
    post: Slide,
    pre: Slide,
    resolution: (u32, u32),
    counts: ResourceCounts,
)
    requires
        post.is_updated(pre, resolution),
    ensures
        post.spec_handles_valid(counts) == pre.spec_handles_valid(counts),
{
    assert forall|i: int| 0 <= i < post.components@.len() implies post.components@[
        i
    ].spec_handles_valid(counts) == pre.components@[i].spec_handles_valid(counts) by {
        crate::component::lemma_update_preserves_shape(pre.components@[i], resolution);
    }
}

/// Paint order: a slide's trace holds one draw call per element, in exactly
/// insertion order, placed after the background fill if one is declared — so
/// of two overlapping elements, the later-appended one is recorded later and
/// paints on top.
pub proof fn lemma_paint_order(s: Slide)
    ensures
        s.draw_seq().len() == s.background_seq().len() + s.components@.len(),
        forall|i: int|
            0 <= i < s.components@.len() ==> s.draw_seq()[s.background_seq().len() + i]
                == s.components@[i].draw_call(),
{
}

/// Shader override isolation: in the trace a slide emits, the call drawn for
/// element `i` carries exactly element `i`'s shader override — an element
/// with an override yields the one call tagged with it, and an element
/// without one yields a call with no shader tag, in the same frame.
pub proof fn lemma_shader_isolation(s: Slide, i: int)
    requires
        0 <= i < s.components@.len(),
    ensures
        s.draw_seq()[s.background_seq().len() + i] == s.components@[i].draw_call(),
        s.draw_seq()[s.background_seq().len() + i]->shader == s.components@[i].shader,
{
}

} // verus!
