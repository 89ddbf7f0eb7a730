//! A continuous-playback engine for a queue of remotely hosted audio tracks.
//!
//! The library holds the playback core: the playlist store, the single-flight
//! look-ahead buffering protocol, the per-tick playback state machine, and the
//! command-channel/park-flag protocol that lets modal dialogs own the terminal
//! without racing the playback loop. Network fetching, terminal rendering and
//! audio output are collaborators that live outside the library; the library
//! takes their results as plain values and decides what happens next.

pub mod libbc;
pub mod models;
