//! Core of a streaming internet-radio player.
//!
//! The library covers the parts of the player that make decisions or move
//! data: a bounded FIFO buffer of PCM samples with backpressure accounting,
//! integer volume scaling, the render step of the audio callback, the frame
//! admission policy of the decoder, the playback controller's state machine,
//! and the player's message handling together with its now-playing metadata.
//!
//! Everything that touches the outside world (the HTTP stream, the MP3
//! decoder, the audio device, the GUI) lives outside this crate and talks to
//! it through plain values: byte counts, sample vectors, commands and actions.

pub mod buffer;
pub mod controller;
pub mod decoder;
pub mod metadata;
pub mod player;
pub mod sink;
pub mod volume;

pub use buffer::SampleBuffer;
pub use controller::{Controller, PlayerControl};
