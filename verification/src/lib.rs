//! Verified core of a live-event media playout engine: the lock-free audio
//! ring, the master clock, the A/B deck playlist state machine and the
//! small decoders that sit between the operating system and the engine.

pub mod clock;
pub mod audio_ring;
pub mod app_logic;
pub mod playlist;
pub mod ltc;
pub mod media_timeline;
pub mod graphics;
pub mod ndi_transmitter;
pub mod osc;
pub mod audio_mix;
pub mod ffi;
