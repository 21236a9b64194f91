//! The DL Plus tag renderer: turns the resolved content into the exact
//! wire-format text consumed by the downstream transmitter encoder.
//!
//! The output is a parameter header block, one positional tag
//! declaration per displayed field, an item-running flag, the toggle
//! bit, and finally the literal display text. Tag offsets and lengths
//! are byte counts of the UTF-8 encoding of the display text, not
//! character counts.

use vstd::prelude::*;
use vstd::string::StringExecFns;
use vstd::string::StringSliceAdditionalSpecFns;
use vstd::utf8::encode_utf8;

use crate::clock::now_timestamp_millis;
use crate::content_service::{
    spec_active_kind, spec_resolved, ContentService, OutputType,
};
use crate::models::{AppState, Item};
use crate::tags::{ARTIST_TAG, PROGRAM_TAG, STATION_TAG, TITLE_TAG};
use crate::text::{dec_rep, push_u64_decimal};

verus! {

/// The length in bytes of the UTF-8 encoding of the given text.
pub open spec fn byte_len(s: Seq<char>) -> nat {
    encode_utf8(s).len()
}

/// The opening of the parameter block, including the protocol marker.
pub open spec fn spec_header() -> Seq<char> {
    "##### parameters { #####\nDL_PLUS=1\n"@
}

/// The closing of the parameter block.
pub open spec fn spec_footer() -> Seq<char> {
    "##### parameters } #####\n"@
}

/// One positional tag declaration: the tag code, the starting byte
/// offset within the display text, and the spanned byte length.
pub open spec fn spec_tag_line(tag: u64, start: nat, len: nat) -> Seq<char> {
    "DL_PLUS_TAG="@ + dec_rep(tag as nat) + " "@ + dec_rep(start) + " "@ + dec_rep(len)
        + "\n"@
}

/// The toggle-bit line; the bit is rendered as a decimal number.
pub open spec fn spec_toggle_line(toggle: u8) -> Seq<char> {
    "DL_PLUS_ITEM_TOGGLE="@ + dec_rep(toggle as nat) + "\n"@
}

/// The complete output for a track. With a non-empty artist the
/// display text is `<artist> - <title>` and two tags span the artist
/// and the title; with an empty artist the display text is the title
/// alone under a single TITLE tag at offset 0, and no ARTIST tag is
/// emitted.
pub open spec fn spec_track_content(artist: Seq<char>, title: Seq<char>, toggle: u8) -> Seq<
    char,
> {
    if artist.len() == 0 {
        spec_header() + spec_tag_line(TITLE_TAG, 0, byte_len(title))
            + "DL_PLUS_ITEM_RUNNING=1\n"@ + spec_toggle_line(toggle) + spec_footer() + title
    } else {
        spec_header() + spec_tag_line(ARTIST_TAG, 0, byte_len(artist)) + spec_tag_line(
            TITLE_TAG,
            byte_len(artist) + 3,
            byte_len(title),
        ) + "DL_PLUS_ITEM_RUNNING=1\n"@ + spec_toggle_line(toggle) + spec_footer() + artist
            + " - "@ + title
    }
}

/// The complete output for a program: its name under a single PROGRAM
/// tag, with the item-running flag off.
pub open spec fn spec_program_content(name: Seq<char>, toggle: u8) -> Seq<char> {
    spec_header() + spec_tag_line(PROGRAM_TAG, 0, byte_len(name))
        + "DL_PLUS_ITEM_RUNNING=0\n"@ + spec_toggle_line(toggle) + spec_footer() + name
}

/// The complete output for the station: its name under a single
/// STATION tag, with the item-running flag off.
pub open spec fn spec_station_content(name: Seq<char>, toggle: u8) -> Seq<char> {
    spec_header() + spec_tag_line(STATION_TAG, 0, byte_len(name))
        + "DL_PLUS_ITEM_RUNNING=0\n"@ + spec_toggle_line(toggle) + spec_footer() + name
}

/// The artist text of a track item; an absent artist renders as empty.
pub open spec fn spec_artist(item: Item) -> Seq<char> {
    match item.artist {
        Some(a) => a@,
        None => Seq::<char>::empty(),
    }
}

/// The toggle bit as the digit the renderer embeds.
pub open spec fn spec_toggle_bit(b: bool) -> u8 {
    if b {
        1
    } else {
        0
    }
}

/// The output text for a resolved store: the content of whichever
/// slot `kind` names. Meaningful only when that slot is present.
pub open spec fn spec_output_content(s: AppState, kind: OutputType, toggle: u8) -> Seq<char> {
    match kind {
        OutputType::Track => spec_track_content(
            spec_artist(s.track->Some_0.item),
            s.track->Some_0.item.title@,
            toggle,
        ),
        OutputType::Program => spec_program_content(s.program->Some_0.name@, toggle),
        OutputType::Station => spec_station_content(s.station->Some_0.name@, toggle),
    }
}

/// The store is renderable: the station slot is present, and the
/// artist text is short enough for its byte offsets to be computed in
/// a `usize`.
pub open spec fn spec_renderable(s: AppState) -> bool {
    &&& s.station is Some
    &&& (s.track matches Some(t) ==> byte_len(spec_artist(t.item)) + 3 <= usize::MAX
        && byte_len(t.item.title@) <= usize::MAX)
    &&& (s.program matches Some(p) ==> byte_len(p.name@) <= usize::MAX)
    &&& (s.station matches Some(st) ==> byte_len(st.name@) <= usize::MAX)
}

pub(crate) fn push_tag_line(out: &mut String, tag: u64, start: usize, len: usize)
    ensures
        final(out)@ == old(out)@ + spec_tag_line(tag, start as nat, len as nat),
{
    let ghost pre = out@;
    out.append("DL_PLUS_TAG=");
    push_u64_decimal(out, tag);
    out.append(" ");
    push_u64_decimal(out, start as u64);
    out.append(" ");
    push_u64_decimal(out, len as u64);
    out.append("\n");
    proof {
        assert(out@ =~= pre + spec_tag_line(tag, start as nat, len as nat));
    }
}

fn push_toggle_line(out: &mut String, toggle: u8)
    ensures
        final(out)@ == old(out)@ + spec_toggle_line(toggle),
{
    let ghost pre = out@;
    out.append("DL_PLUS_ITEM_TOGGLE=");
    push_u64_decimal(out, toggle as u64);
    out.append("\n");
    proof {
        assert(out@ =~= pre + spec_toggle_line(toggle));
    }
}

pub struct DlsService;

impl DlsService {
    /// Renders the output text for a track. Byte offsets: with a
    /// non-empty artist, the ARTIST tag spans `[0, len(artist))` and
    /// the TITLE tag `[len(artist) + 3, len(artist) + 3 + len(title))`
    /// of the display text `<artist> - <title>`; with an empty artist,
    /// a single TITLE tag spans the whole display text.
    pub fn generate_track_content(artist: &str, title: &str, toggle_value: u8) -> (r: String)
        requires
            byte_len(artist@) + 3 <= usize::MAX,
            byte_len(title@) <= usize::MAX,
        ensures
            r@ == spec_track_content(artist@, title@, toggle_value),
    {
        let mut out = String::new();
        out.append("##### parameters { #####\nDL_PLUS=1\n");
        proof {
            assert(out@ =~= spec_header());
        }
        if artist.is_empty() {
            push_tag_line(&mut out, TITLE_TAG, 0, title.len());
            out.append("DL_PLUS_ITEM_RUNNING=1\n");
            push_toggle_line(&mut out, toggle_value);
            out.append("##### parameters } #####\n");
            out.append(title);
            proof {
                assert(out@ =~= spec_track_content(artist@, title@, toggle_value));
            }
        } else {
            let artist_len = artist.len();
            push_tag_line(&mut out, ARTIST_TAG, 0, artist_len);
            push_tag_line(&mut out, TITLE_TAG, artist_len + 3, title.len());
            out.append("DL_PLUS_ITEM_RUNNING=1\n");
            push_toggle_line(&mut out, toggle_value);
            out.append("##### parameters } #####\n");
            out.append(artist);
            out.append(" - ");
            out.append(title);
            proof {
                assert(out@ =~= spec_track_content(artist@, title@, toggle_value));
            }
        }
        out
    }

    /// Renders the output text for a program announcement.
    pub fn generate_program_content(program_name: &str, toggle_value: u8) -> (r: String)
        requires
            byte_len(program_name@) <= usize::MAX,
        ensures
            r@ == spec_program_content(program_name@, toggle_value),
    {
        let mut out = String::new();
        out.append("##### parameters { #####\nDL_PLUS=1\n");
        proof {
            assert(out@ =~= spec_header());
        }
        push_tag_line(&mut out, PROGRAM_TAG, 0, program_name.len());
        out.append("DL_PLUS_ITEM_RUNNING=0\n");
        push_toggle_line(&mut out, toggle_value);
        out.append("##### parameters } #####\n");
        out.append(program_name);
        proof {
            assert(out@ =~= spec_program_content(program_name@, toggle_value));
        }
        out
    }

    /// Renders the output text for the station identity.
    pub fn generate_station_content(station_name: &str, toggle_value: u8) -> (r: String)
        requires
            byte_len(station_name@) <= usize::MAX,
        ensures
            r@ == spec_station_content(station_name@, toggle_value),
    {
        let mut out = String::new();
        out.append("##### parameters { #####\nDL_PLUS=1\n");
        proof {
            assert(out@ =~= spec_header());
        }
        push_tag_line(&mut out, STATION_TAG, 0, station_name.len());
        out.append("DL_PLUS_ITEM_RUNNING=0\n");
        push_toggle_line(&mut out, toggle_value);
        out.append("##### parameters } #####\n");
        out.append(station_name);
        proof {
            assert(out@ =~= spec_station_content(station_name@, toggle_value));
        }
        out
    }

    /// One full render pass at the given instant: resolves the store
    /// (clearing expired slots), flips the toggle bit, and returns the
    /// output text for the slot that won. The caller writes the text
    /// to the output file.
    pub fn render_output(app_state: &mut AppState, now: i64) -> (r: String)
        requires
            spec_renderable(*old(app_state)),
        ensures
            *final(app_state) == (AppState {
                dl_plus_item_toggle: !old(app_state).dl_plus_item_toggle,
                ..spec_resolved(*old(app_state), now)
            }),
            r@ == spec_output_content(
                spec_resolved(*old(app_state), now),
                spec_active_kind(*old(app_state), now),
                spec_toggle_bit(!old(app_state).dl_plus_item_toggle),
            ),
    {
        let output_type = ContentService::get_active_output_type(app_state, now);

        app_state.dl_plus_item_toggle = !app_state.dl_plus_item_toggle;
        let toggle_value: u8 = if app_state.dl_plus_item_toggle {
            1
        } else {
            0
        };

        match output_type {
            OutputType::Track => {
                let track = app_state.track.as_ref().unwrap();
                let title = track.item.title.as_str();
                let artist = match &track.item.artist {
                    Some(a) => a.as_str(),
                    None => "",
                };
                proof {
                    reveal_strlit("");
                    assert(artist@ =~= spec_artist(track.item));
                }
                Self::generate_track_content(artist, title, toggle_value)
            },
            OutputType::Program => {
                let program = app_state.program.as_ref().unwrap();
                Self::generate_program_content(program.name.as_str(), toggle_value)
            },
            OutputType::Station => {
                let station = app_state.station.as_ref().unwrap();
                Self::generate_station_content(station.name.as_str(), toggle_value)
            },
        }
    }

    /// With an empty artist the track render emits exactly one tag
    /// declaration — a TITLE tag at byte offset 0 spanning the whole
    /// display text — and no ARTIST line; the display text is the
    /// title alone.
    pub proof fn lemma_empty_artist_single_title_tag(title: Seq<char>, toggle: u8)
        ensures
            spec_track_content(Seq::<char>::empty(), title, toggle) == spec_header()
                + spec_tag_line(TITLE_TAG, 0, byte_len(title)) + "DL_PLUS_ITEM_RUNNING=1\n"@
                + spec_toggle_line(toggle) + spec_footer() + title,
    {
    }

    /// One render pass stamped with the wall clock: the text the
    /// caller then writes to the output file. The instant read from
    /// the clock is unknown, so the contract states the result for
    /// some instant; `render_output` carries the exact per-instant
    /// contract.
    pub fn update_output_file(app_state: &mut AppState) -> (r: String)
        requires
            spec_renderable(*old(app_state)),
        ensures
            exists|now: i64|
                {
                    &&& *final(app_state) == (AppState {
                        dl_plus_item_toggle: !old(app_state).dl_plus_item_toggle,
                        ..spec_resolved(*old(app_state), now)
                    })
                    &&& r@ == spec_output_content(
                        spec_resolved(*old(app_state), now),
                        spec_active_kind(*old(app_state), now),
                        spec_toggle_bit(!old(app_state).dl_plus_item_toggle),
                    )
                },
    {
        let now = now_timestamp_millis();
        Self::render_output(app_state, now)
    }
}

} // verus!
