//! A single simulated live TV channel built over a media library: the
//! decisions that drive an external transcoder, stated and proved.

pub mod api;
pub mod command;
pub mod executor;
pub mod library;
pub mod models;
pub mod order;
pub mod outdir;
pub mod registry;
pub mod selector;
pub mod station;
pub mod subtitles;
pub mod tracker;
pub mod video;
pub mod waiter;
