//! A terminal system-information banner library.
//!
//! The heart of the crate is the render pipeline: an optional block of
//! ASCII art is merged with a vertical list of labeled data lines into a
//! single column-aligned banner.  The geometry (vertical centering,
//! column widths) is computed by [`layout::plan`], and the styled output
//! is produced row by row by the compositor in [`render`].  All of the
//! arithmetic and the produced segment stream are specified and verified;
//! the thin shell that talks to the operating system and the terminal
//! lives outside this crate and only hands plain values in and out.

pub mod ascii;
pub mod config;
pub mod fetch;
pub mod layout;
pub mod packages;
pub mod render;
pub mod text;
pub mod width;

pub use width::display_width;
