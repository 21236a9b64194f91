//! The data model: the three content slots, their images, and the
//! shared content store that every component reads and mutates.
//!
//! Timestamps are milliseconds since the Unix epoch (`i64`), and
//! entity identifiers are the 128-bit value of a version-4 UUID
//! (`u128`); the wrappers that obtain fresh values of either live in
//! the services that need them.

use vstd::prelude::*;

verus! {

/// The displayable payload of a track: a required title and an
/// optional artist.
#[derive(Debug, Clone)]
pub struct Item {
    pub title: String,
    pub artist: Option<String>,
}

/// A stored slideshow image: its MIME type, the full path of the
/// stored file, and the bare file name within the storage pool.
#[derive(Debug, Clone)]
pub struct Image {
    pub content_type: Option<String>,
    pub path: Option<String>,
    pub filename: Option<String>,
}

/// A transient "now playing" entry. An absent `expires_at` means the
/// track never expires.
#[derive(Debug, Clone)]
pub struct Track {
    pub id: u128,
    pub item: Item,
    pub expires_at: Option<i64>,
    pub image: Option<Image>,
}

/// A transient program announcement. An absent `expires_at` means the
/// program never expires.
#[derive(Debug, Clone)]
pub struct Program {
    pub id: u128,
    pub name: String,
    pub expires_at: Option<i64>,
    pub image: Option<Image>,
}

/// The permanent station identity; it has no expiry.
#[derive(Debug, Clone)]
pub struct Station {
    pub id: u128,
    pub name: String,
    pub image: Option<Image>,
}

/// The single shared content store. `station` is always present once
/// initialization completes; `track` and `program` are present only
/// while not expired (the resolver clears them in place).
#[derive(Debug, Clone)]
pub struct AppState {
    pub track: Option<Track>,
    pub program: Option<Program>,
    pub station: Option<Station>,
    pub dl_plus_item_toggle: bool,
}

/// The track payload as the HTTP layer submits it: both fields
/// required in the submitted form.
#[derive(Debug, Clone)]
pub struct TrackItem {
    pub title: String,
    pub artist: String,
}

/// Runtime configuration, loaded from the environment by the caller.
#[derive(Debug, Clone)]
pub struct Config {
    pub station_name: String,
    pub api_key: String,
    pub default_station_image: Option<String>,
}

/// Access to the identifier of a content entity.
pub trait HasId {
    /// The identifier, as a spec-level value.
    spec fn spec_id(&self) -> Option<u128>;

    /// Returns the entity's identifier.
    fn get_id(&self) -> (r: Option<u128>)
        ensures
            r == self.spec_id(),
    ;
}

impl HasId for Track {
    open spec fn spec_id(&self) -> Option<u128> {
        Some(self.id)
    }

    fn get_id(&self) -> (r: Option<u128>) {
        Some(self.id)
    }
}

impl HasId for Program {
    open spec fn spec_id(&self) -> Option<u128> {
        Some(self.id)
    }

    fn get_id(&self) -> (r: Option<u128>) {
        Some(self.id)
    }
}

impl HasId for Station {
    open spec fn spec_id(&self) -> Option<u128> {
        Some(self.id)
    }

    fn get_id(&self) -> (r: Option<u128>) {
        Some(self.id)
    }
}

impl AppState {
    /// Replace the track slot; every other field is untouched.
    pub fn set_track(&mut self, track: Track)
        ensures
            final(self).track == Some(track),
            final(self).program == old(self).program,
            final(self).station == old(self).station,
            final(self).dl_plus_item_toggle == old(self).dl_plus_item_toggle,
    {
        self.track = Some(track);
    }

    /// Clear the track slot; every other field is untouched.
    pub fn clear_track(&mut self)
        ensures
            final(self).track == None::<Track>,
            final(self).program == old(self).program,
            final(self).station == old(self).station,
            final(self).dl_plus_item_toggle == old(self).dl_plus_item_toggle,
    {
        self.track = None;
    }

    /// Replace the program slot; every other field is untouched.
    pub fn set_program(&mut self, program: Program)
        ensures
            final(self).program == Some(program),
            final(self).track == old(self).track,
            final(self).station == old(self).station,
            final(self).dl_plus_item_toggle == old(self).dl_plus_item_toggle,
    {
        self.program = Some(program);
    }

    /// Clear the program slot; every other field is untouched.
    pub fn clear_program(&mut self)
        ensures
            final(self).program == None::<Program>,
            final(self).track == old(self).track,
            final(self).station == old(self).station,
            final(self).dl_plus_item_toggle == old(self).dl_plus_item_toggle,
    {
        self.program = None;
    }
}

} // verus!
