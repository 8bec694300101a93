//! Core logic for driving a single 2D character's sprite animation.
//!
//! A movement vector and a speed scalar are classified into a directional
//! animation identifier and a horizontal-mirror flag; a playback state
//! machine applies identifier transitions and advances a frame timer; an
//! atlas rect resolver maps the current frame index to the pixel
//! sub-rectangle of a sprite atlas. Time is measured in whole milliseconds
//! and geometry in whole pixels, so every rule here is exact integer
//! arithmetic. Asset decoding, input polling, windowing and rendering are
//! collaborators outside this crate: they hand in plain values (texture
//! handles, movement vectors, tick durations) and consume plain values
//! (a texture handle, a sub-rectangle, a display size, a mirror flag).

pub mod atlas;
pub mod classifier;
pub mod laws;
pub mod playback;
pub mod registry;
