//! A personal watch list: video works with their watch state, stored one
//! record per line, with an interactive editor modelled as state machines.

pub mod config;
pub mod creator;
pub mod dates;
pub mod editor;
pub mod model;
pub mod rewrite;
pub mod store;
pub mod swap;
pub mod text;

pub use config::{Config, Mode};
pub use model::{
    Date, SiteData, VideoMedia, VideoWork, VideoWorkMedium, WatchData, WatchPosition, WatchStatus,
};
