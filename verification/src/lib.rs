//! A large digital clock, drawn in block characters over a background of
//! falling rain, composed one terminal frame at a time.
//!
//! The crate holds the parts that decide what is drawn: the font table in
//! [`font`], readings of the clock in [`clock`], the splitting of a time
//! into digits in [`formatter`], the
//! joining of glyphs into the time block in [`compositor`], the rain field in
//! [`rain`], the frame of one tick in [`frame`] and the loop's decisions in
//! [`events`]; [`text`] fits lines to a width and [`config`] holds the
//! settings. Writing the frame to a terminal and waiting for keys is left to
//! the caller.

pub mod clock;
pub mod compositor;
pub mod config;
pub mod events;
pub mod font;
pub mod formatter;
pub mod frame;
pub mod rain;
pub mod text;
