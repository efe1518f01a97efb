//! The part of the surface that accepts pointer input.
use vstd::prelude::*;

use crate::config::MouseBehavior;
use crate::geometry::ImageRect;

verus! {

/// An input region to install on the surface.
#[derive(Clone, Copy, Debug, PartialEq, Eq, Structural)]
pub enum InputRegion {
    /// No point of the surface accepts input.
    Empty,
    /// Only the points of the rectangle accept input.
    Rect(ImageRect),
}

/// The region to install for `mode` while the image covers `rect`; `None`
/// where the installed region is to be left as it is.
pub open spec fn region_for(mode: MouseBehavior, rect: ImageRect) -> Option<InputRegion> {
    if mode == MouseBehavior::Passthrough {
        Some(InputRegion::Empty)
    } else if rect.spec_is_empty() {
        None
    } else {
        Some(InputRegion::Rect(rect))
    }
}

/// In pass-through mode nothing accepts input; otherwise exactly the image
/// does, and an empty image rectangle changes nothing.
pub fn compute_input_region(mode: MouseBehavior, rect: ImageRect) -> (r: Option<InputRegion>)
    ensures
        r == region_for(mode, rect),
{
    if mode == MouseBehavior::Passthrough {
        Some(InputRegion::Empty)
    } else if rect.is_empty() {
        None
    } else {
        Some(InputRegion::Rect(rect))
    }
}

/// Pass-through mode installs the empty region, whatever the image covers.
pub proof fn lemma_passthrough_region_is_empty(rect: ImageRect)
    ensures
        region_for(MouseBehavior::Passthrough, rect) == Some(InputRegion::Empty),
{
}

} // verus!
