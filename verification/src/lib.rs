//! Library state and rules of a desktop music player: the song library with its
//! tags and artist index, the playback state machine, the settings record and the
//! state of the user interface. Audio output, file probing, dialogs and drawing
//! are performed by the embedding program, which reports their results back.

pub mod paths;
pub mod music_file;
pub mod tag_map;
pub mod state;
pub mod settings;
pub mod store;
pub mod player;
pub mod ui;
pub mod session;
pub mod laws;
pub mod backend;
