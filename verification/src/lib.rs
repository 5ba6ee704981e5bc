//! A library for compositing rasterized subtitle layers onto an RGBA
//! framebuffer, together with the plain data model of the subtitle viewer
//! that surrounds the compositor: the control values of one subtitle line,
//! the messages that edit them, and the small step machine of the setup
//! screens.

pub mod compositor;
pub mod steps;
pub mod subs_viewer;
