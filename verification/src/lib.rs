//! Control core of a headless compositor that presents application windows as
//! one or two independently captured video outputs.
//!
//! The crate holds the decisions of that compositor as verified state
//! machines over plain values: where a window is placed, how a surface moves
//! from its first commit to being mapped, how X11 windows follow the same
//! policy, which commands the video elements exchange with the compositor,
//! and how a secondary consumer finds a running compositor. The display
//! stack, the media framework and the X server are driven by the caller,
//! which feeds events in and performs the actions that come back.
//!
//! The window state is [`compositor::State`]. Native surfaces reach it
//! through [`compositor::State::commit`], X11 windows through
//! [`compositor::State::handle_x11`] and the requests behind it in [`xwm`];
//! both are placed by [`routing::decide`]. What holds of the state
//! over any sequence of events is proved in [`laws`]. The commands are in
//! [`command`], the registry of compositors in [`registry`], and the two
//! source elements that speak to a compositor in [`source`] and
//! [`secondary`]. [`overlay`] holds the decisions of a separate tool that
//! runs shader presets on X11 windows.

pub mod command;
pub mod compositor;
pub mod element;
pub mod events;
pub mod format;
pub mod geometry;
pub mod laws;
pub mod output;
pub mod overlay;
pub mod registry;
pub mod routing;
pub mod secondary;
pub mod source;
pub mod space;
pub mod surface;
pub mod text;
pub mod window;
pub mod xwm;
