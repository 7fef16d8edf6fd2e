//! A verified two-stage decoder for Morse code carried in WAV audio,
//! together with a collection of small verified utilities that grew up
//! around it: text search, a Morse text codec, a stack, and a few
//! generic helpers.

pub mod cache;
pub mod calc;
pub mod chunks;
pub mod classifier;
pub mod codec;
pub mod decoder;
pub mod docs;
pub mod enums;
pub mod generics;
pub mod longest;
pub mod minigrep;
pub mod morse;
pub mod samples;
pub mod stack;
pub mod strutil;
pub mod user_config;
pub mod wav;
