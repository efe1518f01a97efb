//! Geometry and input handling of a borderless window that shows one image.
pub mod config;
pub mod geometry;
pub mod gesture;
pub mod region;
pub mod window;

pub use config::{Args, ImageSource, MouseBehavior, UseClipboard};
pub use geometry::{compute_image_rect, AspectRatio, ImageRect};
pub use gesture::{click_action, ClickAction};
pub use region::{compute_input_region, InputRegion};
pub use window::{Align, ChildAlignment, ResizeOutcome, Window};
