//! UIKit: the framework state kept outside the Objective-C objects, and the
//! graphics context stack.
pub mod ui_application;
pub mod ui_device;
pub mod ui_graphics;
pub mod ui_image;
pub mod ui_screen;
pub mod ui_touch;
