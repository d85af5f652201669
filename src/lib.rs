//! Coordination core of a terminal podcast player: the shared application
//! state, the commands handed to the background worker, the playback state
//! machine, and the feed and download logic the worker runs.

pub mod app;
pub mod download;
pub mod feed;
pub mod input;
pub mod list;
pub mod model;
pub mod player;
pub mod text;
