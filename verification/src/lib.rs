//! Reduces a stream of MIDI controller frames to named, queryable state.
//!
//! Frames are folded into per-index edge state and continuous values
//! ([`controller::MidiProvider`]) or into the fixed layout of a two-deck DJ
//! controller with tap tempo ([`dj::DjP8Provider`]). Both answer string-named
//! queries without mutating anything.
//!
//! Time is counted in whole microseconds, and every value that a host would
//! read as a real number is kept as an exact [`value::Ratio`].
pub mod controller;
pub mod dj;
pub mod message;
pub mod ports;
pub mod slot;
pub mod tempo;
pub mod text;
pub mod value;
