//! Slideshows: the ordered slides and the navigation cursor.
//!
//! A [`Slideshow`] owns navigation state only: an append-only sequence of
//! slides and the index of the current one. Navigation saturates instead of
//! erroring or wrapping — moving past the last slide or before the first is a
//! no-op — so the cursor is always a valid index while any slide exists.

use vstd::prelude::*;

use crate::render::FrameTrace;
use crate::resources::ResourceCounts;
use crate::slide::Slide;

verus! {

/// An ordered sequence of slides plus the cursor to the current one.
pub struct Slideshow {
    /// The index of the slide being presented.
    pub current_slide: usize,
    /// The slides, in presentation order.
    pub slides: Vec<Slide>,
}

/// Where one forward step from index `i` lands among `n` slides: the next
/// index, saturating at the last slide.
pub open spec fn nav_next(i: int, n: int) -> int {
    if i + 1 < n {
        i + 1
    } else {
        n - 1
    }
}

/// Where one backward step from index `i` lands: the previous index,
/// saturating at zero.
pub open spec fn nav_previous(i: int) -> int {
    if i > 0 {
        i - 1
    } else {
        0
    }
}

/// Where `k` forward steps from index `i` land among `n` slides.
pub open spec fn nav_next_iter(i: int, k: nat, n: int) -> int
    decreases k,
{
    if k == 0 {
        i
    } else {
        nav_next(nav_next_iter(i, (k - 1) as nat, n), n)
    }
}

/// Where `k` backward steps from index `i` land.
pub open spec fn nav_previous_iter(i: int, k: nat) -> int
    decreases k,
{
    if k == 0 {
        i
    } else {
        nav_previous(nav_previous_iter(i, (k - 1) as nat))
    }
}

/// Saturating navigation, forward: from a valid index `i` among `n` slides,
/// `k` repeated forward steps land on exactly `min(i + k, n - 1)` — never out
/// of range, never wrapping.
pub proof fn lemma_next_saturates(i: int, k: nat, n: int)
    requires
        0 <= i < n,
    ensures
        nav_next_iter(i, k, n) == if i + k < n {
            i + k
        } else {
            n - 1
        },
        0 <= nav_next_iter(i, k, n) < n,
    decreases k,
{
    if k > 0 {
        lemma_next_saturates(i, (k - 1) as nat, n);
    }
}

/// Saturating navigation, backward: from an index `i >= 0`, `k` repeated
/// backward steps land on exactly `max(i - k, 0)` — never negative, never
/// wrapping.
pub proof fn lemma_previous_saturates(i: int, k: nat)
    requires
        i >= 0,
    ensures
        nav_previous_iter(i, k) == if i - k > 0 {
            i - k
        } else {
            0
        },
        0 <= nav_previous_iter(i, k) <= i,
    decreases k,
{
    if k > 0 {
        lemma_previous_saturates(i, (k - 1) as nat);
    }
}

impl Slideshow {
    /// The cursor invariant: while any slide exists the current index is a
    /// valid index into the slides, and an empty slideshow keeps it at zero.
    pub open spec fn wf(self) -> bool {
        &&& self.slides@.len() == 0 ==> self.current_slide == 0
        &&& self.slides@.len() > 0 ==> self.current_slide < self.slides@.len()
    }

    /// Whether every element of every slide holds valid resource handles.
    pub open spec fn spec_handles_valid(self, counts: ResourceCounts) -> bool {
        forall|i: int|
            0 <= i < self.slides@.len() ==> self.slides@[i].spec_handles_valid(counts)
    }

    /// An empty slideshow, its cursor at the first future slide.
    pub fn new() -> (show: Slideshow)
        ensures
            show.slides@ == Seq::<Slide>::empty(),
            show.current_slide == 0,
            show.wf(),
    {
        Slideshow { current_slide: 0, slides: Vec::new() }
    }

    /// Appends a slide at the end; the cursor does not move.
    pub fn add(&mut self, slide: Slide)
        ensures
            final(self).slides@ == old(self).slides@.push(slide),
            final(self).current_slide == old(self).current_slide,
            old(self).wf() ==> final(self).wf(),
    {
        self.slides.push(slide);
    }

    /// The number of slides.
    pub fn len(&self) -> (n: usize)
        ensures
            n == self.slides@.len(),
    {
        self.slides.len()
    }

    /// Moves to the next slide, saturating at the last: past the end the
    /// cursor stays on the last slide. Requires at least one slide, as the
    /// presentation loop guarantees before the frame cycle starts.
    pub fn next(&mut self)
        requires
            old(self).wf(),
            old(self).slides@.len() >= 1,
        ensures
            final(self).slides@ == old(self).slides@,
            final(self).current_slide == nav_next(
                old(self).current_slide as int,
                old(self).slides@.len() as int,
            ),
            final(self).wf(),
    {
        let last = self.slides.len() - 1;
        if self.current_slide < last {
            self.current_slide = self.current_slide + 1;
        }
    }

    /// Moves to the previous slide, saturating at the first: before the
    /// beginning the cursor stays at zero.
    pub fn previous(&mut self)
        requires
            old(self).wf(),
        ensures
            final(self).slides@ == old(self).slides@,
            final(self).current_slide == nav_previous(old(self).current_slide as int),
            final(self).wf(),
    {
        if self.current_slide > 0 {
            self.current_slide = self.current_slide - 1;
        }
    }

    /// The slide the cursor points at. Calling this with no slides is a
    /// programming defect — the loop must guarantee at least one slide exists
    /// before entering the frame cycle — so the empty case is excluded here
    /// rather than recovered from.
    pub fn current(&self) -> (s: &Slide)
        requires
            self.wf(),
            self.slides@.len() >= 1,
        ensures
            *s == self.slides@[self.current_slide as int],
    {
        &self.slides[self.current_slide]
    }

    /// Runs the update pass of the frame cycle: the current slide re-lays-out
    /// every element for the given surface size; no other slide changes.
    pub fn update_current(&mut self, elapsed_ms: u64, resolution: (u32, u32))
        requires
            old(self).wf(),
            old(self).slides@.len() >= 1,
        ensures
            final(self).current_slide == old(self).current_slide,
            final(self).slides@.len() == old(self).slides@.len(),
            final(self).slides@[old(self).current_slide as int].is_updated(
                old(self).slides@[old(self).current_slide as int],
                resolution,
            ),
            forall|i: int|
                0 <= i < old(self).slides@.len() && i != old(self).current_slide
                    ==> final(self).slides@[i] == old(self).slides@[i],
            final(self).wf(),
    {
        let idx = self.current_slide;
        self.slides[idx].update(elapsed_ms, resolution);
    }

    /// Runs the draw pass of the frame cycle: the current slide's trace —
    /// its background fill, then its elements in paint order — is appended to
    /// the target. Nothing in the slideshow changes.
    pub fn draw_current(&self, target: &mut FrameTrace)
        requires
            self.wf(),
            self.slides@.len() >= 1,
        ensures
            final(target).calls@ == old(target).calls@ + self.slides@[
                self.current_slide as int
            ].draw_seq(),
    {
        let idx = self.current_slide;
        self.slides[idx].draw(target);
    }

    /// Checks that every element of every slide holds handles that index
    /// into resource tables of the given sizes.
    pub fn handles_valid(&self, counts: &ResourceCounts) -> (r: bool)
        ensures
            r == self.spec_handles_valid(*counts),
    {
        let n = self.slides.len();
        let mut i: usize = 0;
        while i < n
            invariant
                i <= n,
                n == self.slides@.len(),
                forall|j: int| 0 <= j < i ==> self.slides@[j].spec_handles_valid(*counts),
            decreases n - i,
        {
            if !self.slides[i].handles_valid(counts) {
                return false;
            }
            i += 1;
        }
        true
    }
}

} // verus!
