//! Core logic of a terminal streaming client for Jellyfin, Emby and Plex
//! media servers.
//!
//! The crate covers the playback session engine: deciding how a title is
//! delivered (direct or transcoded, with which tracks and bandwidth),
//! classifying how a finished playback session is reported back to the
//! server, expanding a series into an ordered playlist, and advancing
//! through that playlist.  Everything here works on plain values; the
//! process boundaries (HTTP, the local player, the terminal) live outside
//! this crate and hand values in and out.

#![allow(non_snake_case)]

use vstd::prelude::*;

pub mod config;
pub mod display;
pub mod input;
pub mod items;
pub mod negotiate;
pub mod playlist;
pub mod plex_items;
pub mod printing;
pub mod reports;
pub mod series;
pub mod session;
pub mod settings;
pub mod text;
pub mod urls;

verus! {

/// Server positions are measured in ticks of 100 nanoseconds.
pub const TICKS_PER_SECOND: u64 = 10_000_000;

/// A progress heartbeat is due once playback has advanced this far past
/// the last reported position.
pub const HEARTBEAT_INTERVAL_MS: i64 = 15_000;

/// After a seek or restart the heartbeat baseline is rewound by this
/// much, so the next genuine advance is not mistaken for a jump.
pub const SEEK_REWIND_MS: i64 = 16_000;

/// A session that stops with less than this percentage of the title
/// remaining counts as fully played.
pub const FULLY_PLAYED_REMAINING_PCT: u64 = 15;

/// A session that stops with at least this percentage of the title
/// remaining counts as unwatched; between the two cutoffs it is
/// resumable.
pub const UNWATCHED_REMAINING_PCT: u64 = 85;

} // verus!
