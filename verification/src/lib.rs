//! Content-resolution and output-synchronization engine for a DAB
//! broadcast station's dynamic metadata feed.
//!
//! The library decides which of three competing content sources (a
//! transient "now playing" track, a transient program announcement,
//! or the permanent station identity) is currently authoritative,
//! renders that choice into the DL Plus tag format, and plans the
//! file-system work that keeps a slideshow image directory in sync
//! with the same decision.

pub mod models;
pub mod tags;
pub mod errors;
pub mod text;
pub mod content_service;
mod clock;
pub mod dls_service;
pub mod mot_service;
pub mod ticker_service;
pub mod file_service;
pub mod auth;
pub mod cleanup;

use vstd::prelude::*;

verus! {

/// True while content stamped with the given expiry is still valid at
/// `now`: an absent expiry never expires, a present one is valid only
/// strictly before it. Content whose `expires_at` equals `now` is
/// already expired.
pub open spec fn spec_fresh(expires_at: Option<i64>, now: i64) -> bool {
    match expires_at {
        None => true,
        Some(t) => t > now,
    }
}

} // verus!
