//! Colors, frames and timing decisions for a WS2812 LED strip.
//!
//! The bit-level encoding and the serial transport are provided by the
//! `ws2812-spi` driver; this crate decides what each frame holds and when
//! it is due.

pub mod color;
pub mod schedule;
pub mod animation;
