//! DL Plus content-type codes for the tag declarations the renderer
//! emits, as assigned by the DL Plus standard.

use vstd::prelude::*;

verus! {

/// ITEM.TITLE
pub const TITLE_TAG: u64 = 1;

/// ITEM.ARTIST
pub const ARTIST_TAG: u64 = 4;

/// PROGRAMME.NOW
pub const PROGRAM_TAG: u64 = 33;

/// STATIONNAME.LONG
pub const STATION_TAG: u64 = 32;

} // verus!
