//! A stateless scrolling marquee for now-playing text on a narrow display.
//!
//! `compose` builds the line to show from a playback state and track
//! metadata; `render` cuts the part of it that is visible at a given instant;
//! `segment` splits text into grapheme clusters and puts clusters back
//! together.

pub mod compose;
pub mod render;
pub mod segment;
