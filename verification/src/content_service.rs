//! The content resolver: applies the precedence/expiration rule to the
//! store and clears any slot found expired.

use vstd::prelude::*;

use crate::models::{AppState, Program, Track};
use crate::spec_fresh;

verus! {

/// Which content slot is currently authoritative.
#[derive(Debug, Clone, Copy, PartialEq, Eq, Structural)]
pub enum OutputType {
    Track,
    Program,
    Station,
}

/// True when the track slot holds a track that is valid at `now`.
pub open spec fn spec_track_live(t: Option<Track>, now: i64) -> bool {
    t matches Some(tr) && spec_fresh(tr.expires_at, now)
}

/// True when the program slot holds a program that is valid at `now`.
pub open spec fn spec_program_live(p: Option<Program>, now: i64) -> bool {
    p matches Some(pr) && spec_fresh(pr.expires_at, now)
}

/// The slot the resolver picks: a live track wins, then a live
/// program, then the station unconditionally.
pub open spec fn spec_active_kind(s: AppState, now: i64) -> OutputType {
    if spec_track_live(s.track, now) {
        OutputType::Track
    } else if spec_program_live(s.program, now) {
        OutputType::Program
    } else {
        OutputType::Station
    }
}

/// The track slot after resolution: kept exactly when live.
pub open spec fn spec_track_after(s: AppState, now: i64) -> Option<Track> {
    if spec_track_live(s.track, now) {
        s.track
    } else {
        None
    }
}

/// The program slot after resolution. When a live track is selected
/// the program slot is not even examined, so it is kept as it is;
/// otherwise it is kept exactly when live.
pub open spec fn spec_program_after(s: AppState, now: i64) -> Option<Program> {
    if spec_track_live(s.track, now) {
        s.program
    } else if spec_program_live(s.program, now) {
        s.program
    } else {
        None
    }
}

/// The whole store after resolution: expired slots cleared, all other
/// fields untouched.
pub open spec fn spec_resolved(s: AppState, now: i64) -> AppState {
    AppState {
        track: spec_track_after(s, now),
        program: spec_program_after(s, now),
        ..s
    }
}

pub struct ContentService;

impl ContentService {
    /// Picks the authoritative slot at `now`, in the fixed precedence
    /// order Track, then Program, then Station, clearing in place any
    /// slot found expired on the way. Content whose expiry equals
    /// `now` is already expired.
    pub fn get_active_output_type(app_state: &mut AppState, now: i64) -> (r: OutputType)
        ensures
            r == spec_active_kind(*old(app_state), now),
            *final(app_state) == spec_resolved(*old(app_state), now),
    {
        if let Some(track) = &app_state.track {
            match track.expires_at {
                Some(expires) => {
                    if expires > now {
                        return OutputType::Track;
                    }
                    app_state.track = None;
                },
                None => {
                    return OutputType::Track;
                },
            }
        }

        if let Some(program) = &app_state.program {
            match program.expires_at {
                Some(expires) => {
                    if expires > now {
                        return OutputType::Program;
                    }
                    app_state.program = None;
                },
                None => {
                    return OutputType::Program;
                },
            }
        }

        OutputType::Station
    }
}

/// Resolution order: a live track beats everything, a live program
/// beats the station, and whenever neither slot is live — present but
/// expired, or absent — the station is selected, whatever else the
/// store holds.
pub proof fn lemma_resolution_order(s: AppState, now: i64)
    ensures
        spec_track_live(s.track, now) ==> spec_active_kind(s, now) == OutputType::Track,
        !spec_track_live(s.track, now) && spec_program_live(s.program, now)
            ==> spec_active_kind(s, now) == OutputType::Program,
        !spec_track_live(s.track, now) && !spec_program_live(s.program, now)
            ==> spec_active_kind(s, now) == OutputType::Station,
{
}

/// A track or program without an expiry is always selected over the
/// slots below it, at every instant.
pub proof fn lemma_no_expiry_always_selected(s: AppState, now: i64)
    ensures
        (s.track matches Some(tr) && tr.expires_at is None)
            ==> spec_active_kind(s, now) == OutputType::Track,
        !spec_track_live(s.track, now) && (s.program matches Some(pr) && pr.expires_at is None)
            ==> spec_active_kind(s, now) == OutputType::Program,
{
}

/// Expiration boundary: content whose expiry equals `now` is treated
/// as expired, and is cleared by resolution.
pub proof fn lemma_expiry_boundary(s: AppState, now: i64)
    ensures
        (s.track matches Some(tr) && tr.expires_at == Some(now))
            ==> spec_active_kind(s, now) != OutputType::Track
                && spec_track_after(s, now) is None,
        (s.program matches Some(pr) && pr.expires_at == Some(now))
            ==> spec_active_kind(s, now) != OutputType::Program,
{
}

/// Resolution auto-clears expired slots: after resolving a store whose
/// track is present but expired, the track slot is absent.
pub proof fn lemma_resolve_clears_expired_track(s: AppState, now: i64)
    requires
        s.track matches Some(tr) && !spec_fresh(tr.expires_at, now),
    ensures
        spec_resolved(s, now).track is None,
{
}

} // verus!
