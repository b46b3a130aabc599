//! Verified core of an AniList-to-MyAnimeList export tool.
//!
//! The library turns an already-fetched anime or manga list, together with
//! the user's aggregate statistics, into the XML text that the import format
//! expects. Everything here is pure: network transport, argument handling and
//! file writing live outside the library.

mod numtext;
pub mod document;
pub mod parse;
pub mod xmlformat;

pub use numtext::dec_str;
pub use numtext::u64_to_string;
