//! The window controller: what happens on each resize and each gesture.
use vstd::prelude::*;

use crate::config::{Args, MouseBehavior};
use crate::geometry::{
    compute_image_rect, fitted_rect, image_rect_spec, is_surface_wider, lemma_fitted_rect_fits,
    surface_is_wider,
    AspectRatio, ImageRect,
};
use crate::gesture::{click_action, click_action_for, ClickAction};
use crate::region::{compute_input_region, region_for, InputRegion};

verus! {

/// How the image widget is placed along one axis of the window.
#[derive(Clone, Copy, Debug, PartialEq, Eq, Structural)]
pub enum Align {
    Fill,
    Center,
}

/// The image widget's placement along both axes.
#[derive(Clone, Copy, Debug, PartialEq, Eq, Structural)]
pub struct ChildAlignment {
    pub halign: Align,
    pub valign: Align,
}

/// What a resize asks of the display layer: each part is `None` where the
/// current setting is to be kept.
#[derive(Clone, Copy, Debug, PartialEq, Eq, Structural)]
pub struct ResizeOutcome {
    pub alignment: Option<ChildAlignment>,
    pub region: Option<InputRegion>,
}

/// The image spans the full height of a wider surface and is centred across
/// it; on a taller one it spans the width and is centred down it.
pub open spec fn alignment_for(sw: int, sh: int, ratio: AspectRatio) -> ChildAlignment {
    if surface_is_wider(sw, sh, ratio) {
        ChildAlignment { halign: Align::Center, valign: Align::Fill }
    } else {
        ChildAlignment { halign: Align::Fill, valign: Align::Center }
    }
}

/// The state of the window that its reactions depend on.
#[derive(Clone, Copy, Debug, PartialEq, Eq, Structural)]
pub struct Window {
    pub behavior: MouseBehavior,
    /// The image's proportions, once an image is shown.
    pub ratio: Option<AspectRatio>,
    pub no_maximize: bool,
    pub no_context_menu: bool,
}

/// What a window in state `win` asks for when its surface becomes `sw` by `sh`.
pub open spec fn resize_outcome(win: Window, sw: int, sh: int) -> ResizeOutcome {
    match win.ratio {
        None => ResizeOutcome {
            alignment: None,
            region: if win.behavior == MouseBehavior::Passthrough {
                Some(InputRegion::Empty)
            } else {
                None
            },
        },
        Some(ratio) => ResizeOutcome {
            alignment: if sw > 0 && sh > 0 {
                Some(alignment_for(sw, sh, ratio))
            } else {
                None
            },
            region: region_for(win.behavior, image_rect_spec(sw, sh, ratio)),
        },
    }
}

impl Window {
    /// A shown image has positive proportions.
    pub open spec fn wf(&self) -> bool {
        self.ratio matches Some(r) ==> r.wf()
    }

    /// A window with the options of `args` that shows no image yet.
    pub fn new(args: &Args) -> (w: Window)
        ensures
            w.wf(),
            w.behavior == args.mouse,
            w.ratio is None,
            w.no_maximize == args.no_maximize,
            w.no_context_menu == args.no_context_menu,
    {
        Window {
            behavior: args.mouse,
            ratio: None,
            no_maximize: args.no_maximize,
            no_context_menu: args.no_context_menu,
        }
    }

    /// Whether dragging is to move the window.
    pub fn wants_drag_gesture(&self) -> (r: bool)
        ensures
            r == (self.behavior == MouseBehavior::Drag),
    {
        self.behavior == MouseBehavior::Drag
    }

    /// Records the proportions of the image, once, before the window is shown.
    pub fn set_ratio(&mut self, ratio: AspectRatio)
        requires
            ratio.wf(),
            old(self).ratio is None,
        ensures
            final(self).wf(),
            *final(self) == (Window { ratio: Some(ratio), ..*old(self) }),
    {
        self.ratio = Some(ratio);
    }

    /// The placement of the image and the input region for a surface of
    /// `width` by `height`.
    pub fn size_allocate(&self, width: i32, height: i32) -> (r: ResizeOutcome)
        requires
            self.wf(),
        ensures
            r == resize_outcome(*self, width as int, height as int),
    {
        match self.ratio {
            None => {
                let region = if self.behavior == MouseBehavior::Passthrough {
                    Some(InputRegion::Empty)
                } else {
                    None
                };
                ResizeOutcome { alignment: None, region }
            },
            Some(ratio) => {
                let rect = compute_image_rect(width, height, ratio);
                let alignment = if width > 0 && height > 0 {
                    if is_surface_wider(width, height, ratio) {
                        Some(ChildAlignment { halign: Align::Center, valign: Align::Fill })
                    } else {
                        Some(ChildAlignment { halign: Align::Fill, valign: Align::Center })
                    }
                } else {
                    None
                };
                ResizeOutcome { alignment, region: compute_input_region(self.behavior, rect) }
            },
        }
    }

    /// The request that a press of `button`, the `n_press`th in a row, makes.
    pub fn on_click_pressed(&self, button: u32, n_press: i32) -> (r: ClickAction)
        ensures
            r == click_action_for(button, n_press, self.no_maximize, self.no_context_menu),
    {
        click_action(button, n_press, self.no_maximize, self.no_context_menu)
    }

    /// The button to hand to an interactive move while `button` drags; `None`
    /// where dragging does not move this window or the button has no such form.
    pub fn drag_move_button(&self, button: u32) -> (r: Option<i32>)
        ensures
            r is Some <==> (self.behavior == MouseBehavior::Drag && button <= i32::MAX),
            r matches Some(b) ==> b == button,
    {
        if self.behavior == MouseBehavior::Drag && button <= i32::MAX as u32 {
            Some(button as i32)
        } else {
            None
        }
    }
}

/// In pass-through mode every resize installs the empty region, whatever
/// the surface size and whether or not an image is shown.
pub proof fn lemma_passthrough_never_accepts_input(win: Window, sw: int, sh: int)
    requires
        win.behavior == MouseBehavior::Passthrough,
    ensures
        resize_outcome(win, sw, sh).region == Some(InputRegion::Empty),
{
}

/// Outside pass-through mode, each resize of a shown image installs exactly
/// the image rectangle of the new size, unless that rectangle is empty, in
/// which case the region is left alone.
pub proof fn lemma_region_follows_image_rect(win: Window, sw: int, sh: int)
    requires
        win.wf(),
        win.behavior != MouseBehavior::Passthrough,
        win.ratio is Some,
    ensures
        ({
            let rect = image_rect_spec(sw, sh, win.ratio->Some_0);
            &&& !rect.spec_is_empty() ==> resize_outcome(win, sw, sh).region == Some(
                InputRegion::Rect(rect),
            )
            &&& rect.spec_is_empty() ==> resize_outcome(win, sw, sh).region is None
        }),
{
}

/// Outside pass-through mode, two resizes to sizes whose image rectangles
/// differ install different regions: no region outlives the size it was
/// computed for.
pub proof fn lemma_region_changes_with_size(win: Window, sw1: int, sh1: int, sw2: int, sh2: int)
    requires
        win.wf(),
        win.behavior != MouseBehavior::Passthrough,
        win.ratio is Some,
        0 < sw1 <= i32::MAX,
        0 < sh1 <= i32::MAX,
        0 < sw2 <= i32::MAX,
        0 < sh2 <= i32::MAX,
        fitted_rect(sw1, sh1, win.ratio->Some_0) != fitted_rect(sw2, sh2, win.ratio->Some_0),
        !image_rect_spec(sw1, sh1, win.ratio->Some_0).spec_is_empty(),
    ensures
        resize_outcome(win, sw1, sh1).region != resize_outcome(win, sw2, sh2).region,
{
    let ratio = win.ratio->Some_0;
    lemma_fitted_rect_fits(sw1, sh1, ratio);
    lemma_fitted_rect_fits(sw2, sh2, ratio);
}

} // verus!
