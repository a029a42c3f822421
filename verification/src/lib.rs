//! Server-side view layer for a personal website: pure functions that turn
//! domain data (social-media posts, images, slide decks, interactive widgets)
//! into HTML fragment strings.
//!
//! Every fragment builder states its exact output in its contract, over
//! character sequences. Post bodies are trusted to be pre-sanitized by the
//! caller and are inserted verbatim; everything else that is interpolated
//! into markup is HTML-escaped here.

pub mod json;
pub mod mount;
pub mod post;
pub mod site;
pub mod text;
