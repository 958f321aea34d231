//! Turns a paletted image into constant-array source text for a handheld with
//! 15-bit colors: either one color word per pixel, or 8-bit palette indexes
//! next to a palette of color words.
//!
//! * `color`: 8-bit channels and the 15-bit color word made of them.
//! * `image`: the paletted image and what it is as a mathematical value.
//! * `text`: number literals, lists and declarations as text.
//! * `emit`: the emitters for video mode 3 and video mode 4.
//! * `decode`: PNG and BMP files, decoded by the `imagine` crate.
//! * `convert`: from the bytes of a file and a mode number to the text.
//! * `error`: what can go wrong on the way.

pub mod color;
pub mod convert;
pub mod decode;
pub mod emit;
pub mod error;
pub mod image;
pub mod text;
