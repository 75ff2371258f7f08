//! A relay for live audio over HTTP.
//!
//! Radio-style feeds are fetched from their origin servers and handed on:
//! redirections are followed by hand, URLs that ask for `https` on port 80
//! are repaired, HLS playlists are rewritten so that their segments come
//! through the relay too, and anything else is streamed as it is. Music from
//! a video platform is extracted and transcoded by two chained processes
//! whose life is tracked until they are reaped.
//!
//! The library decides and computes; fetching, spawning and serving are left
//! to the program around it.

pub mod api;
pub mod catalog;
pub mod error;
pub mod extractor;
pub mod manifest;
pub mod percent;
pub mod pipeline;
pub mod proxy;
pub mod text;
pub mod urls;
