//! A window shell that paints a flat RGBA gradient into a pixel frame.
//!
//! The library holds the logic: the gradient formula and the fill of a frame
//! (`gradient`), the frame buffer and its resizing (`frame`), and the state
//! machine that turns window events into actions (`shell`). The program that
//! owns the native window and the presentation surface performs the actions.
pub mod frame;
pub mod gradient;
pub mod shell;
