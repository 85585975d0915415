//! The playback logic of a video viewer pane.
//!
//! A pane shows one video file. What it does in answer to the user, to the
//! clock and to the media pipeline is decided here; windows, the media library
//! and the database are the business of the code around this library.
//!
//! - [`view`] holds the state of a pane and its reactions, [`laws`] what holds
//!   over several of them;
//! - [`playback`] is the vocabulary between a pane and its media pipeline;
//! - [`start`] and [`restore`] lead through starting a pipeline and opening a
//!   pane again;
//! - [`frame`] brings decoded frames to the screen;
//! - [`item`] and [`paths`] say which files are videos and how they are opened;
//! - [`text`] writes times.

pub mod frame;
pub mod item;
pub mod laws;
pub mod paths;
pub mod playback;
pub mod restore;
pub mod start;
pub mod text;
pub mod view;
