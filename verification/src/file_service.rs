//! A plainer variant of the tag renderer, for the output format
//! without the item-running and toggle lines. It selects content
//! without mutating the store and renders from an output payload
//! rather than from the store itself.

use vstd::prelude::*;
use vstd::string::StringExecFns;

use crate::content_service::{spec_program_live, spec_track_live};
use crate::dls_service::{byte_len, push_tag_line, spec_artist, spec_footer, spec_header, spec_tag_line};
use crate::models::{AppState, Config};
use crate::tags::{ARTIST_TAG, PROGRAM_TAG, STATION_TAG, TITLE_TAG};

verus! {

/// The selected content together with the text it displays.
#[derive(Debug, Clone)]
pub enum OutputType {
    Track(String, String),
    Program(String),
    Station(String),
}

/// The plain output for a track: ARTIST and TITLE tags over the
/// display text `<artist> - <title>`, with no item lines. The ARTIST
/// tag is emitted even for an empty artist.
pub open spec fn spec_file_track_content(artist: Seq<char>, title: Seq<char>) -> Seq<char> {
    spec_header() + spec_tag_line(ARTIST_TAG, 0, byte_len(artist)) + spec_tag_line(
        TITLE_TAG,
        byte_len(artist) + 3,
        byte_len(title),
    ) + spec_footer() + artist + " - "@ + title
}

/// The plain output for a program: one PROGRAM tag over the name.
pub open spec fn spec_file_program_content(name: Seq<char>) -> Seq<char> {
    spec_header() + spec_tag_line(PROGRAM_TAG, 0, byte_len(name)) + spec_footer() + name
}

/// The plain output for the station: one STATION tag over the name.
pub open spec fn spec_file_station_content(name: Seq<char>) -> Seq<char> {
    spec_header() + spec_tag_line(STATION_TAG, 0, byte_len(name)) + spec_footer() + name
}

/// The plain output for a selected payload.
pub open spec fn spec_file_content(o: OutputType) -> Seq<char> {
    match o {
        OutputType::Track(artist, title) => spec_file_track_content(artist@, title@),
        OutputType::Program(name) => spec_file_program_content(name@),
        OutputType::Station(name) => spec_file_station_content(name@),
    }
}

/// The payload's texts are short enough for their byte offsets to be
/// computed in a `usize`.
pub open spec fn spec_file_renderable(o: OutputType) -> bool {
    match o {
        OutputType::Track(artist, title) => byte_len(artist@) + 3 <= usize::MAX && byte_len(
            title@,
        ) <= usize::MAX,
        OutputType::Program(name) => byte_len(name@) <= usize::MAX,
        OutputType::Station(name) => byte_len(name@) <= usize::MAX,
    }
}

pub struct FileService;

impl FileService {
    /// Selects the output payload without mutating the store: a live
    /// track first, then a live program, then the configured station
    /// name. Expired slots are passed over but not cleared.
    pub fn determine_output_type(app_state: &AppState, config: &Config, now: i64) -> (r:
        OutputType)
        ensures
            spec_track_live(app_state.track, now) ==> (r matches OutputType::Track(a, t)
                && a@ == spec_artist(app_state.track->Some_0.item)
                && t@ == app_state.track->Some_0.item.title@),
            !spec_track_live(app_state.track, now) && spec_program_live(app_state.program, now)
                ==> (r matches OutputType::Program(n)
                && n@ == app_state.program->Some_0.name@),
            !spec_track_live(app_state.track, now) && !spec_program_live(app_state.program, now)
                ==> (r matches OutputType::Station(n) && n@ == config.station_name@),
    {
        if let Some(track) = &app_state.track {
            let live = match track.expires_at {
                Some(expires) => expires > now,
                None => true,
            };
            if live {
                let artist = match &track.item.artist {
                    Some(a) => a.clone(),
                    None => String::new(),
                };
                proof {
                    reveal_strlit("");
                    assert(artist@ =~= spec_artist(track.item));
                }
                return OutputType::Track(artist, track.item.title.clone());
            }
        }

        if let Some(program) = &app_state.program {
            let live = match program.expires_at {
                Some(expires) => expires > now,
                None => true,
            };
            if live {
                return OutputType::Program(program.name.clone());
            }
        }

        OutputType::Station(config.station_name.clone())
    }

    /// Renders the plain output text for a selected payload.
    pub fn generate_file_content(output_type: &OutputType) -> (r: String)
        requires
            spec_file_renderable(*output_type),
        ensures
            r@ == spec_file_content(*output_type),
    {
        match output_type {
            OutputType::Track(artist, title) => Self::generate_track_content(
                artist.as_str(),
                title.as_str(),
            ),
            OutputType::Program(name) => Self::generate_program_content(name.as_str()),
            OutputType::Station(name) => Self::generate_station_content(name.as_str()),
        }
    }

    /// Renders the plain output for a track: an ARTIST tag spanning
    /// `[0, len(artist))` and a TITLE tag spanning `[len(artist) + 3,
    /// len(artist) + 3 + len(title))` of `<artist> - <title>`, in
    /// bytes of the UTF-8 encoding.
    pub fn generate_track_content(artist: &str, title: &str) -> (r: String)
        requires
            byte_len(artist@) + 3 <= usize::MAX,
            byte_len(title@) <= usize::MAX,
        ensures
            r@ == spec_file_track_content(artist@, title@),
    {
        let mut out = String::new();
        out.append("##### parameters { #####\nDL_PLUS=1\n");
        proof {
            assert(out@ =~= spec_header());
        }
        let artist_len = artist.len();
        push_tag_line(&mut out, ARTIST_TAG, 0, artist_len);
        push_tag_line(&mut out, TITLE_TAG, artist_len + 3, title.len());
        out.append("##### parameters } #####\n");
        out.append(artist);
        out.append(" - ");
        out.append(title);
        proof {
            assert(out@ =~= spec_file_track_content(artist@, title@));
        }
        out
    }

    /// Renders the plain output for a program announcement.
    pub fn generate_program_content(program_name: &str) -> (r: String)
        requires
            byte_len(program_name@) <= usize::MAX,
        ensures
            r@ == spec_file_program_content(program_name@),
    {
        let mut out = String::new();
        out.append("##### parameters { #####\nDL_PLUS=1\n");
        proof {
            assert(out@ =~= spec_header());
        }
        push_tag_line(&mut out, PROGRAM_TAG, 0, program_name.len());
        out.append("##### parameters } #####\n");
        out.append(program_name);
        proof {
            assert(out@ =~= spec_file_program_content(program_name@));
        }
        out
    }

    /// Renders the plain output for the station identity.
    pub fn generate_station_content(station_name: &str) -> (r: String)
        requires
            byte_len(station_name@) <= usize::MAX,
        ensures
            r@ == spec_file_station_content(station_name@),
    {
        let mut out = String::new();
        out.append("##### parameters { #####\nDL_PLUS=1\n");
        proof {
            assert(out@ =~= spec_header());
        }
        push_tag_line(&mut out, STATION_TAG, 0, station_name.len());
        out.append("##### parameters } #####\n");
        out.append(station_name);
        proof {
            assert(out@ =~= spec_file_station_content(station_name@));
        }
        out
    }
}

} // verus!
