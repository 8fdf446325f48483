//! Core of a desktop music player: the catalog of songs, the listening queue
//! and the playback controller that decides what the audio sink does next.

pub mod error;
pub mod ident;
pub mod importer;
pub mod library;
pub mod playback;
pub mod queue;
pub mod records;
pub mod settings;
pub mod song;
pub mod tags;
pub mod time;
