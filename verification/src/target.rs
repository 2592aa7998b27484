//! The image that the shader writes and the panel shows.

use vstd::prelude::*;

verus! {

/// Width and height of the image before the panel has reported a size.
pub const START_EXTENT: usize = 1;

/// What has to happen to the image before the next dispatch.
#[derive(Clone, Copy, Debug, PartialEq, Eq, Structural)]
pub enum ResizeAction {
    /// The image stays: same handle, same bindings.
    Keep,
    /// The image is released and a new one of this size takes its place.
    Recreate { width: usize, height: usize },
}

/// Whether a request for `requested` pixels replaces an image of `current`
/// pixels: it must ask for another size, and for no empty one.
pub open spec fn resize_needed(current: (usize, usize), requested: (usize, usize)) -> bool {
    requested != current && requested.0 != 0 && requested.1 != 0
}

/// The size of the image after a request for `requested` pixels.
pub open spec fn size_after(current: (usize, usize), requested: (usize, usize)) -> (usize, usize) {
    if resize_needed(current, requested) {
        requested
    } else {
        current
    }
}

/// What a request for `requested` pixels asks of the caller.
pub open spec fn resize_action(current: (usize, usize), requested: (usize, usize)) -> ResizeAction {
    if resize_needed(current, requested) {
        ResizeAction::Recreate { width: requested.0, height: requested.1 }
    } else {
        ResizeAction::Keep
    }
}

/// The size of the image that is bound for the shader. Neither side is
/// ever zero.
#[derive(Clone, Copy, Debug, PartialEq, Eq)]
pub struct RenderTarget {
    width: usize,
    height: usize,
}

impl RenderTarget {
    #[verifier::type_invariant]
    spec fn never_empty(self) -> bool {
        self.width != 0 && self.height != 0
    }

    /// Width and height in pixels.
    pub closed spec fn size(&self) -> (usize, usize) {
        (self.width, self.height)
    }

    /// The image of a new session: one pixel.
    pub fn new() -> (target: RenderTarget)
        ensures
            target.size() == (START_EXTENT, START_EXTENT),
    {
        RenderTarget { width: START_EXTENT, height: START_EXTENT }
    }

    pub fn width(&self) -> (w: usize)
        ensures
            w == self.size().0,
            w != 0,
    {
        proof {
            use_type_invariant(self);
        }
        self.width
    }

    pub fn height(&self) -> (h: usize)
        ensures
            h == self.size().1,
            h != 0,
    {
        proof {
            use_type_invariant(self);
        }
        self.height
    }

    /// Takes the size that the panel reports for this frame. A size with a
    /// zero side, or the size that the image already has, changes nothing.
    /// Any other size becomes the size of the image, and the caller is told
    /// to replace the image.
    pub fn ensure_size(&mut self, requested: (usize, usize)) -> (action: ResizeAction)
        ensures
            final(self).size() == size_after(old(self).size(), requested),
            action == resize_action(old(self).size(), requested),
    {
        proof {
            use_type_invariant(&*self);
        }
        let (width, height) = requested;
        if (width != self.width || height != self.height) && width != 0 && height != 0 {
            self.width = width;
            self.height = height;
            ResizeAction::Recreate { width, height }
        } else {
            ResizeAction::Keep
        }
    }
}

/// Asking twice for the same size replaces the image at most once: the
/// second request keeps what the first one left.
pub proof fn lemma_resize_idempotent(current: (usize, usize), requested: (usize, usize))
    ensures
        resize_action(size_after(current, requested), requested) == ResizeAction::Keep,
        size_after(size_after(current, requested), requested) == size_after(current, requested),
{
}

/// A request with a zero side is ignored, whatever the image is.
pub proof fn lemma_empty_request_ignored(current: (usize, usize), requested: (usize, usize))
    requires
        requested.0 == 0 || requested.1 == 0,
    ensures
        resize_action(current, requested) == ResizeAction::Keep,
        size_after(current, requested) == current,
{
}

} // verus!
