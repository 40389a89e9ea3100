//! What the compositing pass keeps of one screen's off-screen target: the
//! size it was allocated with, and the reveal that runs while the target is
//! blended onto the visible surface.
//!
//! A target is as large as the surface.  Every frame begins by asking
//! whether the surface has changed its size since; if it has, the target
//! has to be allocated anew before anything is drawn into it.

use crate::transition::{elapsed_between, CircleAnimation};
use vstd::prelude::*;

verus! {

/// The size of a surface, in pixels.
#[derive(Clone, Copy, Debug, PartialEq, Eq, Structural)]
pub struct SurfaceDims {
    pub width: u32,
    pub height: u32,
}

/// Bytes per pixel of a colour target.
pub const BYTES_PER_PIXEL: u64 = 4;

/// The bytes that a colour target of size `dims` takes.
pub open spec fn target_bytes(dims: SurfaceDims) -> nat {
    (dims.width * dims.height * BYTES_PER_PIXEL) as nat
}

/// The off-screen target of one screen.
pub struct RenderTarget {
    dims: SurfaceDims,
    animation: CircleAnimation,
}

impl RenderTarget {
    /// The size that the target is allocated with.
    pub closed spec fn dims(&self) -> SurfaceDims {
        self.dims
    }

    /// The animation of the reveal.
    pub closed spec fn animation(&self) -> CircleAnimation {
        self.animation
    }

    /// A target of the size of the surface, whose reveal starts at clock
    /// reading `now`.
    pub fn new(dims: SurfaceDims, animation: CircleAnimation, now: u64) -> (target: RenderTarget)
        ensures
            target.dims() == dims,
            target.animation().started() == now,
            target.animation().duration() == animation.duration(),
            forall|i: int| 0 <= i < 3 ==> target.animation().channel(i) == animation.channel(i),
    {
        let mut animation = animation;
        animation.start(now);
        RenderTarget { dims, animation }
    }

    /// The size that the target is allocated with.
    pub fn size(&self) -> (dims: SurfaceDims)
        ensures
            dims == self.dims(),
    {
        self.dims
    }

    /// Begins a frame on a surface of size `surface`.  Says whether the
    /// target has to be allocated anew, which is when the surface has
    /// another size than the target; from then on the target counts as of
    /// that size.
    pub fn begin_frame(&mut self, surface: SurfaceDims) -> (reallocate: bool)
        ensures
            reallocate == (old(self).dims() != surface),
            final(self).dims() == surface,
            final(self).animation() == old(self).animation(),
    {
        let stale = self.dims.width != surface.width || self.dims.height != surface.height;
        self.dims = surface;
        stale
    }

    /// The bytes that the target takes, or nothing where they cannot be counted.
    pub fn buffer_len(&self) -> (len: Option<usize>)
        ensures
            len == (if target_bytes(self.dims()) <= usize::MAX {
                Some(target_bytes(self.dims()) as usize)
            } else {
                None
            }),
    {
        let width = self.dims.width as u64;
        let height = self.dims.height as u64;
        assert(width * height <= 0xffff_ffff * 0xffff_ffff) by (nonlinear_arith)
            requires
                width <= 0xffff_ffff,
                height <= 0xffff_ffff,
        ;
        let pixels: u64 = width * height;
        if pixels > (usize::MAX as u64) / BYTES_PER_PIXEL {
            None
        } else {
            Some((pixels * BYTES_PER_PIXEL) as usize)
        }
    }

    /// The parameters of the reveal at clock reading `now`: the centre of
    /// the circle and its radius.
    pub fn reveal_at(&self, now: u64) -> (v: (i64, i64, i64))
        ensures
            (v.0 as int, v.1 as int, v.2 as int) == self.animation().values_after(
                elapsed_between(self.animation().started(), now),
            ),
    {
        self.animation.cur(now)
    }
}

} // verus!
