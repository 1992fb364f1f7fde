//! Control-mapping and music-theory quantization pipeline of a hands-free
//! musical instrument.
//!
//! Continuous quantities (positions, pinch strength, note pitches) are held
//! in fixed point: an `i64` counts millionths of the unit in use, so one
//! semitone is `1_000_000` and a palm coordinate of half a millimetre is
//! `500_000`. This keeps every mapping step exact and lets each contract
//! state the computed value in full.

pub mod channel;
pub mod controls;
pub mod mapper;
pub mod music;
pub mod range;
pub mod settings;
pub mod ui;
pub mod worker;
