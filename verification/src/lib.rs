//! An embeddable terminal emulator core.
//!
//! Bytes from a shell are decoded into control sequences, the sequences drive a
//! screen state machine over a character grid with scrollback, and the grid is
//! painted cell by cell onto a pixel display. Every function of the crate is
//! verified against a contract stated over mathematical models of its data.

pub mod ansi;
pub mod buffer;
pub mod cell;
pub mod clipboard;
pub mod color;
pub mod decode;
pub mod font;
pub mod graphic;
pub mod keyboard;
pub mod laws;
pub mod mouse;
pub mod palette;
pub mod parser;
pub mod performer;
pub mod screen;
pub mod sgr;
pub mod terminal;
pub mod text;
pub mod xcolor;

pub use cell::{Cell, Color, Flags};
pub use color::{ColorScheme, Rgb, ToRgb};
pub use palette::Palette;
