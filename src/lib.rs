//! Playback orchestration and media-stream routing over an opaque media engine.
//!
//! The library holds the decisions: the player session state machine, the
//! one-shot source-setup handshake, the event and frame fan-out lists, the
//! stream and capture registries, and the processing chains of media streams.
//! Work that touches the engine itself is described by values (engine commands,
//! chains of elements) that the embedding application carries out.
pub mod capture;
pub mod events;
pub mod frame;
pub mod laws;
pub mod media_stream;
pub mod observers;
pub mod player;
pub mod registry;
pub mod servo_media;
