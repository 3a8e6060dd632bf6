use vstd::prelude::*;

use crate::region::Bounds;

verus! {

/// One platform operation of a presentation-mode change.
#[derive(Clone, Copy, Debug, PartialEq, Eq, Structural)]
pub enum TransitionStep {
    /// Read the primary output's desktop bounds: the fullscreen size.
    QueryOutputBounds,
    /// Read the window's client rectangle: the windowed size.
    QueryClientSize,
    EnterFullscreen,
    ExitFullscreen,
    /// Drop the render-target view; a live view on the old buffers blocks the resize.
    ReleaseTargetView,
    /// Resize the buffers to the queried size, keeping count and format.
    ResizeBuffers,
    /// Create a render-target view on the new back buffer.
    CreateTargetView,
}

/// The steps that take a swap chain from `is_fullscreen` to `fullscreen`.
pub open spec fn transition_plan(is_fullscreen: bool, fullscreen: bool) -> Seq<TransitionStep> {
    if is_fullscreen == fullscreen {
        Seq::empty()
    } else if fullscreen {
        seq![
            TransitionStep::QueryOutputBounds,
            TransitionStep::EnterFullscreen,
            TransitionStep::ReleaseTargetView,
            TransitionStep::ResizeBuffers,
            TransitionStep::CreateTargetView,
        ]
    } else {
        seq![
            TransitionStep::QueryClientSize,
            TransitionStep::ExitFullscreen,
            TransitionStep::ReleaseTargetView,
            TransitionStep::ResizeBuffers,
            TransitionStep::CreateTargetView,
        ]
    }
}

/// Presentation mode of a swap chain: windowed or exclusive fullscreen.
pub struct PresentationMode {
    pub is_fullscreen: bool,
}

impl PresentationMode {
    /// A swap chain starts windowed.
    pub fn new() -> (r: PresentationMode)
        ensures
            !r.is_fullscreen,
    {
        PresentationMode { is_fullscreen: false }
    }

    /// Requests a mode; nothing to do when already in it. Returns the steps
    /// to perform, in order.
    pub fn set_fullscreen(&mut self, fullscreen: bool) -> (r: Vec<TransitionStep>)
        ensures
            final(self).is_fullscreen == fullscreen,
            r@ == transition_plan(old(self).is_fullscreen, fullscreen),
    {
        if self.is_fullscreen == fullscreen {
            return Vec::new();
        }
        self.is_fullscreen = fullscreen;
        let first = if fullscreen {
            TransitionStep::QueryOutputBounds
        } else {
            TransitionStep::QueryClientSize
        };
        let switch = if fullscreen {
            TransitionStep::EnterFullscreen
        } else {
            TransitionStep::ExitFullscreen
        };
        let r = vec![
            first,
            switch,
            TransitionStep::ReleaseTargetView,
            TransitionStep::ResizeBuffers,
            TransitionStep::CreateTargetView,
        ];
        assert(r@ =~= transition_plan(!fullscreen, fullscreen));
        r
    }
}

/// Width and height of a rectangle, when it is not inverted.
pub fn extent(bounds: Bounds) -> (r: Option<(u32, u32)>)
    ensures
        r is Some <==> bounds.left <= bounds.right && bounds.top <= bounds.bottom,
        r matches Some(s) ==> s.0 == bounds.right - bounds.left && s.1 == bounds.bottom
            - bounds.top,
{
    if bounds.left > bounds.right || bounds.top > bounds.bottom {
        return None;
    }
    Some(
        (
            (bounds.right as i64 - bounds.left as i64) as u32,
            (bounds.bottom as i64 - bounds.top as i64) as u32,
        ),
    )
}

} // verus!
