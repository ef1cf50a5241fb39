//! A terminal client's core for browsing an Emby or Jellyfin catalog and
//! playing episodes in an external player: merging catalog listings,
//! expanding a series into an episode queue, resolving selections, choosing
//! subtitles, and the playback session's state machine.

pub mod catalog;
pub mod item;
pub mod menu;
pub mod playback;
pub mod player;
pub mod selection;
pub mod series;
pub mod subtitle;
pub mod text;
pub mod urls;
