//! The periodic driver's decision logic. On each tick it resolves the
//! store, compares the resolved identity against the previous tick's,
//! and only when that identity changed does it render and plan the
//! slideshow update; on a coarse sub-cadence it asks for a pool
//! reconciliation. The caller runs the loop: it sleeps, takes the
//! store's lock, calls `tick`, and performs the file-system work the
//! outcome describes.

use vstd::prelude::*;

use crate::content_service::{
    spec_active_kind, spec_resolved, ContentService, OutputType,
};
use crate::dls_service::{
    spec_output_content, spec_renderable, spec_toggle_bit, DlsService,
};
use crate::models::{AppState, HasId, Track};
use crate::spec_fresh;
use crate::mot_service::{spec_active_image, MotService};
use crate::text::spec_basename;

verus! {

/// How many ticks lie between two pool reconciliations.
pub const CLEANUP_INTERVAL_TICKS: u64 = 20;

/// The driver's memory between ticks: the identity that was last
/// rendered, and a modular tick counter for the reconciliation
/// cadence.
pub struct TickerState {
    pub previous_output_type: Option<OutputType>,
    pub previous_content_id: Option<u128>,
    pub ticks: u64,
}

/// What one tick decided: whether the resolved identity changed, the
/// rendered output text when it did, the slideshow plan when it did,
/// and whether a pool reconciliation is due this tick.
pub struct TickOutcome {
    pub changed: bool,
    pub dls_content: Option<String>,
    pub mot_image: Option<(String, String)>,
    pub run_cleanup: bool,
}

/// The identifier of the entity the resolved slot names.
pub open spec fn spec_active_id(s: AppState, kind: OutputType) -> Option<u128> {
    match kind {
        OutputType::Track => match s.track {
            Some(t) => Some(t.id),
            None => None,
        },
        OutputType::Program => match s.program {
            Some(p) => Some(p.id),
            None => None,
        },
        OutputType::Station => match s.station {
            Some(st) => Some(st.id),
            None => None,
        },
    }
}

/// Change detection: the first tick always renders; later ticks render
/// exactly when the resolved kind or the resolved identifier differs
/// from the previous tick's.
pub open spec fn spec_changed(ts: TickerState, kind: OutputType, id: Option<u128>) -> bool {
    match ts.previous_output_type {
        None => true,
        Some(prev) => prev != kind || ts.previous_content_id != id,
    }
}

/// The fresh state of the driver, before its first tick.
pub open spec fn spec_ticker_initial(ts: TickerState) -> bool {
    ts.previous_output_type is None && ts.previous_content_id is None && ts.ticks == 0
}

pub struct TickerService;

impl TickerService {
    /// A driver that has observed nothing yet; its first tick renders.
    pub fn new_state() -> (r: TickerState)
        ensures
            spec_ticker_initial(r),
    {
        TickerState { previous_output_type: None, previous_content_id: None, ticks: 0 }
    }

    /// One tick at the instant `now`. Resolves the store (clearing
    /// expired slots); when the resolved identity differs from the
    /// previous tick's, flips the toggle bit, renders the output text,
    /// plans the slideshow update, and remembers the identity; a tick
    /// that detects no change leaves the store's toggle and the
    /// remembered identity untouched and renders nothing. Every
    /// `CLEANUP_INTERVAL_TICKS`-th tick asks for a pool
    /// reconciliation, whether or not content changed.
    pub fn tick(ticker: &mut TickerState, app_state: &mut AppState, now: i64) -> (r: TickOutcome)
        requires
            spec_renderable(*old(app_state)),
        ensures
            ({
                let s1 = spec_resolved(*old(app_state), now);
                let kind = spec_active_kind(*old(app_state), now);
                let id = spec_active_id(s1, kind);
                let ch = spec_changed(*old(ticker), kind, id);
                &&& r.changed == ch
                &&& r.run_cleanup == (old(ticker).ticks == 0)
                &&& final(ticker).ticks as int == (if old(ticker).ticks + 1
                    >= CLEANUP_INTERVAL_TICKS {
                    0int
                } else {
                    old(ticker).ticks + 1
                })
                &&& (!ch ==> {
                    &&& *final(app_state) == s1
                    &&& r.dls_content is None
                    &&& r.mot_image is None
                    &&& final(ticker).previous_output_type == old(ticker).previous_output_type
                    &&& final(ticker).previous_content_id == old(ticker).previous_content_id
                })
                &&& (ch ==> {
                    &&& *final(app_state) == (AppState {
                        dl_plus_item_toggle: !old(app_state).dl_plus_item_toggle,
                        ..s1
                    })
                    &&& (r.dls_content matches Some(c) && c@ == spec_output_content(
                        s1,
                        kind,
                        spec_toggle_bit(!old(app_state).dl_plus_item_toggle),
                    ))
                    &&& (match r.mot_image {
                        Some(pf) => spec_active_image(s1, kind) matches Some(im)
                            && im.path matches Some(q) && pf.0@ == q@ && pf.1@ == spec_basename(
                            q@,
                        ) && spec_basename(q@).len() > 0,
                        None => !(spec_active_image(s1, kind) matches Some(im)
                            && im.path matches Some(q) && spec_basename(q@).len() > 0),
                    })
                    &&& final(ticker).previous_output_type == Some(kind)
                    &&& final(ticker).previous_content_id == id
                })
            }),
    {
        let output_type = ContentService::get_active_output_type(app_state, now);

        let current_id: Option<u128> = match output_type {
            OutputType::Track => match &app_state.track {
                Some(t) => t.get_id(),
                None => None,
            },
            OutputType::Program => match &app_state.program {
                Some(p) => p.get_id(),
                None => None,
            },
            OutputType::Station => match &app_state.station {
                Some(st) => st.get_id(),
                None => None,
            },
        };

        let changed = match &ticker.previous_output_type {
            None => true,
            Some(prev) => {
                let same_kind = *prev == output_type;
                let same_id = match (&ticker.previous_content_id, &current_id) {
                    (None, None) => true,
                    (Some(a), Some(b)) => *a == *b,
                    _ => false,
                };
                !same_kind || !same_id
            },
        };

        let run_cleanup = ticker.ticks == 0;
        ticker.ticks = if ticker.ticks >= CLEANUP_INTERVAL_TICKS - 1 {
            0
        } else {
            ticker.ticks + 1
        };

        if changed {
            let content = DlsService::render_output(app_state, now);
            let mot = MotService::plan_mot_update(app_state, now);
            ticker.previous_output_type = Some(output_type);
            ticker.previous_content_id = current_id;
            TickOutcome {
                changed: true,
                dls_content: Some(content),
                mot_image: mot,
                run_cleanup,
            }
        } else {
            TickOutcome { changed: false, dls_content: None, mot_image: None, run_cleanup }
        }
    }
}

/// Resolution is idempotent: resolving an already-resolved store
/// changes nothing and selects the same slot, whatever the toggle bit
/// of the resolved store was set to meanwhile.
pub proof fn lemma_resolve_idempotent(s: AppState, now: i64, toggle: bool)
    ensures
        spec_resolved(
            AppState { dl_plus_item_toggle: toggle, ..spec_resolved(s, now) },
            now,
        ) == (AppState { dl_plus_item_toggle: toggle, ..spec_resolved(s, now) }),
        spec_active_kind(
            AppState { dl_plus_item_toggle: toggle, ..spec_resolved(s, now) },
            now,
        ) == spec_active_kind(s, now),
{
}

/// A command's payload renders whole, never mixed with an older one:
/// when a tick follows a track replacement and the new track is live,
/// the rendered text is a function of the new payload's fields alone,
/// whatever the replaced slot held before.
pub proof fn lemma_replaced_track_renders_alone(s: AppState, t: Track, now: i64, toggle: u8)
    requires
        spec_fresh(t.expires_at, now),
    ensures
        ({
            let s1 = AppState { track: Some(t), ..s };
            &&& spec_active_kind(s1, now) == OutputType::Track
            &&& spec_output_content(spec_resolved(s1, now), OutputType::Track, toggle)
                == crate::dls_service::spec_track_content(
                crate::dls_service::spec_artist(t.item),
                t.item.title@,
                toggle,
            )
        }),
{
}

/// The toggle bit never moves on a no-op tick: after a tick that
/// rendered, an immediately following tick over a store that resolves
/// to the same kind and identifier detects no change — so, by the
/// tick's contract, it performs no render and leaves the toggle bit
/// exactly as it was.
pub proof fn lemma_identical_tick_detects_no_change(
    ts: TickerState,
    s: AppState,
    now: i64,
)
    requires
        ts.previous_output_type == Some(spec_active_kind(s, now)),
        ts.previous_content_id == spec_active_id(
            spec_resolved(s, now),
            spec_active_kind(s, now),
        ),
    ensures
        !spec_changed(
            ts,
            spec_active_kind(s, now),
            spec_active_id(spec_resolved(s, now), spec_active_kind(s, now)),
        ),
{
}

} // verus!
