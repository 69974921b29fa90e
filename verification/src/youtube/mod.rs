//! YouTube Music search results and audio downloads.
pub mod download;
pub mod search;
