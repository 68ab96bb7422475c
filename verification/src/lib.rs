//! Verified core of a desktop music player: track and playlist records,
//! colour themes, labels, file selection for the scanner, the playback queue
//! state machine and the main window's view logic.
pub mod browse;
pub mod display;
pub mod library;
pub mod path;
pub mod playback;
pub mod scanner;
pub mod text;
pub mod theme;

