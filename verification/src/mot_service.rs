//! The image synchronizer: validates image types, names stored image
//! files, determines the effective slideshow image through the
//! fallback chain, and selects the orphaned files that pool
//! reconciliation removes.
//!
//! The file-system work itself (storing an upload, mirroring the
//! slideshow directory, deleting orphans) is done by the caller; this
//! module decides, exactly, what that work is.

use vstd::prelude::*;
use vstd::string::StrSliceExecFns;
use vstd::string::StringExecFns;

use crate::content_service::{spec_resolved, ContentService, OutputType};
use crate::errors::ServiceError;
use crate::models::{AppState, Image};
use crate::text::{
    basename, extension, lower_char, spec_ascii_lower, spec_basename, spec_ext, spec_hex32,
    spec_lower_char,
    str_eq, push_hex32,
};

verus! {

/// Whether the extension names a JPEG image, ignoring ASCII case.
pub open spec fn spec_is_jpeg_ext(e: Seq<char>) -> bool {
    spec_ascii_lower(e) == "jpg"@ || spec_ascii_lower(e) == "jpeg"@
}

/// Whether the extension names a PNG image, ignoring ASCII case.
pub open spec fn spec_is_png_ext(e: Seq<char>) -> bool {
    spec_ascii_lower(e) == "png"@
}

/// Whether the extension names a supported image format.
pub open spec fn spec_is_image_ext(e: Seq<char>) -> bool {
    spec_is_jpeg_ext(e) || spec_is_png_ext(e)
}

/// Whether the path names an image file, by its extension.
pub open spec fn spec_is_image_name(s: Seq<char>) -> bool {
    spec_ext(s) matches Some(e) && spec_is_image_ext(e)
}

fn is_jpeg_ext(e: &str) -> (r: bool)
    ensures
        r == spec_is_jpeg_ext(e@),
{
    let n = e.unicode_len();
    proof {
        reveal_strlit("jpg");
        reveal_strlit("jpeg");
    }
    proof {
        assert(spec_ascii_lower(e@).len() == e@.len());
    }
    if n == 3 {
        let m = lower_char(e.get_char(0)) == 'j' && lower_char(e.get_char(1)) == 'p'
            && lower_char(e.get_char(2)) == 'g';
        proof {
            if m {
                assert(spec_ascii_lower(e@) =~= "jpg"@);
            } else {
                assert(spec_ascii_lower(e@)[0] == spec_lower_char(e@[0]));
                assert(spec_ascii_lower(e@)[1] == spec_lower_char(e@[1]));
                assert(spec_ascii_lower(e@)[2] == spec_lower_char(e@[2]));
            }
        }
        m
    } else if n == 4 {
        let m = lower_char(e.get_char(0)) == 'j' && lower_char(e.get_char(1)) == 'p'
            && lower_char(e.get_char(2)) == 'e' && lower_char(e.get_char(3)) == 'g';
        proof {
            if m {
                assert(spec_ascii_lower(e@) =~= "jpeg"@);
            } else {
                assert(spec_ascii_lower(e@)[0] == spec_lower_char(e@[0]));
                assert(spec_ascii_lower(e@)[1] == spec_lower_char(e@[1]));
                assert(spec_ascii_lower(e@)[2] == spec_lower_char(e@[2]));
                assert(spec_ascii_lower(e@)[3] == spec_lower_char(e@[3]));
            }
        }
        m
    } else {
        false
    }
}

fn is_png_ext(e: &str) -> (r: bool)
    ensures
        r == spec_is_png_ext(e@),
{
    let n = e.unicode_len();
    proof {
        reveal_strlit("png");
    }
    proof {
        assert(spec_ascii_lower(e@).len() == e@.len());
    }
    if n == 3 {
        let m = lower_char(e.get_char(0)) == 'p' && lower_char(e.get_char(1)) == 'n'
            && lower_char(e.get_char(2)) == 'g';
        proof {
            if m {
                assert(spec_ascii_lower(e@) =~= "png"@);
            } else {
                assert(spec_ascii_lower(e@)[0] == spec_lower_char(e@[0]));
                assert(spec_ascii_lower(e@)[1] == spec_lower_char(e@[1]));
                assert(spec_ascii_lower(e@)[2] == spec_lower_char(e@[2]));
            }
        }
        m
    } else {
        false
    }
}

/// The image carried by the slot that `kind` names, when both the
/// slot and its image are present.
pub open spec fn spec_slot_image(s: AppState, kind: OutputType) -> Option<Image> {
    match kind {
        OutputType::Track => match s.track {
            Some(t) => t.image,
            None => None,
        },
        OutputType::Program => match s.program {
            Some(p) => p.image,
            None => None,
        },
        OutputType::Station => match s.station {
            Some(st) => st.image,
            None => None,
        },
    }
}

/// The first present of two optional images.
pub open spec fn spec_or_image(a: Option<Image>, b: Option<Image>) -> Option<Image> {
    if a is Some {
        a
    } else {
        b
    }
}

/// The effective slideshow image for the active slot, through the
/// fallback chain: a track falls back to the program's image and then
/// the station's; a program falls back to the station's; the station
/// stands alone.
pub open spec fn spec_active_image(s: AppState, kind: OutputType) -> Option<Image> {
    match kind {
        OutputType::Track => spec_or_image(
            spec_slot_image(s, OutputType::Track),
            spec_or_image(spec_slot_image(s, OutputType::Program), spec_slot_image(s, OutputType::Station)),
        ),
        OutputType::Program => spec_or_image(
            spec_slot_image(s, OutputType::Program),
            spec_slot_image(s, OutputType::Station),
        ),
        OutputType::Station => spec_slot_image(s, OutputType::Station),
    }
}

/// Whether some live slot of the store references a stored image file
/// at the given path.
pub open spec fn spec_referenced(s: AppState, p: Seq<char>) -> bool {
    ||| (s.track matches Some(t) && t.image matches Some(i) && i.path matches Some(q) && q@ == p)
    ||| (s.program matches Some(pr) && pr.image matches Some(i) && i.path matches Some(q)
        && q@ == p)
    ||| (s.station matches Some(st) && st.image matches Some(i) && i.path matches Some(q)
        && q@ == p)
}

/// A pool file that reconciliation removes: an image file that no
/// live slot references.
pub open spec fn spec_orphan(s: AppState, p: Seq<char>) -> bool {
    spec_is_image_name(p) && !spec_referenced(s, p)
}

/// Image fallback: when the track is active but carries no image, the
/// program's image is the effective one; when the program's is absent
/// too, the station's is; and an active program without an image falls
/// back to the station's likewise.
pub proof fn lemma_image_fallback(s: AppState)
    ensures
        (spec_slot_image(s, OutputType::Track) is None
            && spec_slot_image(s, OutputType::Program) is Some)
            ==> spec_active_image(s, OutputType::Track)
                == spec_slot_image(s, OutputType::Program),
        (spec_slot_image(s, OutputType::Track) is None
            && spec_slot_image(s, OutputType::Program) is None)
            ==> spec_active_image(s, OutputType::Track)
                == spec_slot_image(s, OutputType::Station),
        spec_slot_image(s, OutputType::Program) is None
            ==> spec_active_image(s, OutputType::Program)
                == spec_slot_image(s, OutputType::Station),
{
}

/// Whether the pool listing holds a file with the given path.
pub open spec fn spec_in_pool(pool: Seq<String>, p: Seq<char>) -> bool {
    exists|i: int| 0 <= i < pool.len() && pool[i]@ == p
}

/// The file name of a freshly stored image: the hyphenated lower-case
/// hexadecimal form of its 128-bit identifier, then the extension of
/// its format.
pub open spec fn spec_uuid_str(v: u128) -> Seq<char> {
    spec_hex32(v).subrange(0, 8) + "-"@ + spec_hex32(v).subrange(8, 12) + "-"@ + spec_hex32(
        v,
    ).subrange(12, 16) + "-"@ + spec_hex32(v).subrange(16, 20) + "-"@ + spec_hex32(v).subrange(
        20,
        32,
    )
}

/// Renders a 128-bit identifier in the usual hyphenated UUID form:
/// 32 lower-case hexadecimal digits in groups of 8, 4, 4, 4 and 12.
pub fn uuid_hyphenated(id: u128) -> (r: String)
    ensures
        r@ == spec_uuid_str(id),
{
    let mut hex = String::new();
    push_hex32(&mut hex, id);
    proof {
        assert(hex@ =~= spec_hex32(id));
    }
    let hs = hex.as_str();
    let mut out = String::new();
    out.append(hs.substring_char(0, 8));
    proof {
        assert(out@ =~= spec_hex32(id).subrange(0, 8));
    }
    out.append("-");
    out.append(hs.substring_char(8, 12));
    out.append("-");
    out.append(hs.substring_char(12, 16));
    out.append("-");
    out.append(hs.substring_char(16, 20));
    out.append("-");
    out.append(hs.substring_char(20, 32));
    proof {
        assert(out@ =~= spec_uuid_str(id));
    }
    out
}

/// Relies on `uuid::Uuid::new_v4` (a fresh version-4 UUID drawn from
/// the process's random source) and `uuid::Uuid::as_u128` (its value
/// as a big-endian 128-bit integer). The result is random, so nothing
/// is promised of it.
#[verifier::external_body]
fn new_v4_u128() -> u128 {
    uuid::Uuid::new_v4().as_u128()
}

pub struct MotService;

impl MotService {
    /// Whether the declared MIME type is one the engine supports:
    /// exactly `image/jpeg` and `image/png`.
    pub fn is_valid_image_type(content_type: &str) -> (r: bool)
        ensures
            r == (content_type@ == "image/jpeg"@ || content_type@ == "image/png"@),
    {
        str_eq(content_type, "image/jpeg") || str_eq(content_type, "image/png")
    }

    /// Whether the path names an image file: its file name has an
    /// extension that spells a supported format, ignoring ASCII case.
    pub fn is_image_file(path: &str) -> (r: bool)
        ensures
            r == spec_is_image_name(path@),
    {
        match extension(path) {
            Some(e) => is_jpeg_ext(e) || is_png_ext(e),
            None => false,
        }
    }

    /// The MIME type a file name declares through its extension, or a
    /// validation error for any extension that is not a supported
    /// image format.
    pub fn detect_mime_type(path: &str) -> (r: Result<&'static str, ServiceError>)
        ensures
            (spec_ext(path@) matches Some(e) && spec_is_jpeg_ext(e)) ==> (r matches Ok(m)
                && m@ == "image/jpeg"@),
            (spec_ext(path@) matches Some(e) && !spec_is_jpeg_ext(e) && spec_is_png_ext(e))
                ==> (r matches Ok(m) && m@ == "image/png"@),
            !spec_is_image_name(path@) <==> (r matches Err(err) && err matches
                ServiceError::Validation(_)),
    {
        match extension(path) {
            Some(e) => {
                if is_jpeg_ext(e) {
                    Ok("image/jpeg")
                } else if is_png_ext(e) {
                    Ok("image/png")
                } else {
                    Err(
                        ServiceError::Validation(
                            String::from_str(
                                "Unsupported image format. Only JPEG and PNG are supported",
                            ),
                        ),
                    )
                }
            },
            None => Err(
                ServiceError::Validation(
                    String::from_str("Unsupported image format. Only JPEG and PNG are supported"),
                ),
            ),
        }
    }

    /// The file name under which a fresh upload is stored: the
    /// hyphenated identifier and the extension of its declared MIME
    /// type, or a validation error for an unsupported type.
    pub fn make_image_filename(id: u128, content_type: &str) -> (r: Result<
        String,
        ServiceError,
    >)
        ensures
            content_type@ == "image/jpeg"@ ==> (r matches Ok(f) && f@ == spec_uuid_str(id)
                + ".jpg"@),
            (content_type@ != "image/jpeg"@ && content_type@ == "image/png"@) ==> (r matches
                Ok(f) && f@ == spec_uuid_str(id) + ".png"@),
            (content_type@ != "image/jpeg"@ && content_type@ != "image/png"@) <==> (r matches
                Err(err) && err matches ServiceError::Validation(_)),
    {
        if str_eq(content_type, "image/jpeg") {
            let mut f = uuid_hyphenated(id);
            f.append(".jpg");
            Ok(f)
        } else if str_eq(content_type, "image/png") {
            let mut f = uuid_hyphenated(id);
            f.append(".png");
            Ok(f)
        } else {
            Err(
                ServiceError::Validation(
                    String::from_str("Invalid image format. Supported formats: JPEG, PNG"),
                ),
            )
        }
    }

    /// The file name under which a fresh upload is stored: a newly
    /// drawn identifier in hyphenated form with the extension of the
    /// declared MIME type, or a validation error for an unsupported
    /// type. The identifier is random, so the name is stated only up
    /// to it.
    pub fn fresh_image_filename(content_type: &str) -> (r: Result<String, ServiceError>)
        ensures
            (content_type@ == "image/jpeg"@ || content_type@ == "image/png"@) <==> r is Ok,
            r matches Ok(f) ==> ((content_type@ == "image/jpeg"@ ==> (exists|id: u128|
                f@ == spec_uuid_str(id) + ".jpg"@)) && (content_type@ != "image/jpeg"@
                ==> (exists|id: u128| f@ == spec_uuid_str(id) + ".png"@))),
            r matches Err(err) ==> err matches ServiceError::Validation(_),
    {
        let id = new_v4_u128();
        Self::make_image_filename(id, content_type)
    }

    /// The image carried by the slot that `output_type` names, without
    /// any fallback.
    pub fn get_active_image<'a>(app_state: &'a AppState, output_type: &OutputType) -> (r:
        Option<&'a Image>)
        ensures
            match r {
                Some(img) => spec_slot_image(*app_state, *output_type) == Some(*img),
                None => spec_slot_image(*app_state, *output_type) is None,
            },
    {
        match output_type {
            OutputType::Track => match &app_state.track {
                Some(t) => t.image.as_ref(),
                None => None,
            },
            OutputType::Program => match &app_state.program {
                Some(p) => p.image.as_ref(),
                None => None,
            },
            OutputType::Station => match &app_state.station {
                Some(st) => st.image.as_ref(),
                None => None,
            },
        }
    }

    /// The effective slideshow image for the active slot, through the
    /// fallback chain of `spec_active_image`.
    pub fn get_active_image_with_fallback<'a>(
        app_state: &'a AppState,
        output_type: &OutputType,
    ) -> (r: Option<&'a Image>)
        ensures
            match r {
                Some(img) => spec_active_image(*app_state, *output_type) == Some(*img),
                None => spec_active_image(*app_state, *output_type) is None,
            },
    {
        match output_type {
            OutputType::Track => {
                let first = Self::get_active_image(app_state, &OutputType::Track);
                if first.is_some() {
                    first
                } else {
                    let second = Self::get_active_image(app_state, &OutputType::Program);
                    if second.is_some() {
                        second
                    } else {
                        Self::get_active_image(app_state, &OutputType::Station)
                    }
                }
            },
            OutputType::Program => {
                let first = Self::get_active_image(app_state, &OutputType::Program);
                if first.is_some() {
                    first
                } else {
                    Self::get_active_image(app_state, &OutputType::Station)
                }
            },
            OutputType::Station => Self::get_active_image(app_state, &OutputType::Station),
        }
    }

    /// Resolves the store at `now` and plans the slideshow mirror
    /// update: the stored path of the effective image and the file
    /// name it keeps in the slideshow directory, or nothing when no
    /// image applies. The caller clears the directory and, given a
    /// plan, copies the one file.
    pub fn plan_mot_update(app_state: &mut AppState, now: i64) -> (r: Option<(String, String)>)
        ensures
            *final(app_state) == spec_resolved(*old(app_state), now),
            ({
                let s1 = spec_resolved(*old(app_state), now);
                let k = crate::content_service::spec_active_kind(*old(app_state), now);
                match r {
                    Some(pf) => spec_active_image(s1, k) matches Some(im) && im.path matches
                        Some(q) && pf.0@ == q@ && pf.1@ == spec_basename(q@) && spec_basename(
                        q@,
                    ).len() > 0,
                    None => !(spec_active_image(s1, k) matches Some(im) && im.path matches
                        Some(q) && spec_basename(q@).len() > 0),
                }
            }),
    {
        let output_type = ContentService::get_active_output_type(app_state, now);
        let img = Self::get_active_image_with_fallback(app_state, &output_type);
        match img {
            Some(image) => match &image.path {
                Some(path) => {
                    let name = basename(path.as_str());
                    if name.unicode_len() > 0 {
                        let owned_name = String::from_str(name);
                        Some((path.clone(), owned_name))
                    } else {
                        None
                    }
                },
                None => None,
            },
            None => None,
        }
    }

    /// Resolves the store at `now` (clearing expired slots) and selects
    /// from the given pool listing the files that reconciliation
    /// removes: every image file that none of the three current slots
    /// references, and nothing else. The caller deletes the returned
    /// files.
    pub fn cleanup_expired_images(app_state: &mut AppState, now: i64, pool: &Vec<String>) -> (r:
        Vec<String>)
        ensures
            *final(app_state) == spec_resolved(*old(app_state), now),
            forall|j: int|
                0 <= j < r@.len() ==> spec_orphan(spec_resolved(*old(app_state), now), r@[j]@),
            forall|j: int| 0 <= j < r@.len() ==> spec_in_pool(pool@, #[trigger] r@[j]@),
            forall|i: int|
                0 <= i < pool@.len() && spec_orphan(spec_resolved(*old(app_state), now), pool@[i]@)
                    ==> (exists|j: int| 0 <= j < r@.len() && r@[j]@ == pool@[i]@),
    {
        ContentService::get_active_output_type(app_state, now);

        let ghost s1 = *app_state;
        let mut r: Vec<String> = Vec::new();
        let mut i: usize = 0;
        while i < pool.len()
            invariant
                i <= pool@.len(),
                *app_state == s1,
                forall|j: int| 0 <= j < r@.len() ==> spec_orphan(s1, r@[j]@),
                forall|j: int| 0 <= j < r@.len() ==> spec_in_pool(pool@, #[trigger] r@[j]@),
                forall|ii: int|
                    0 <= ii < i && spec_orphan(s1, pool@[ii]@) ==> (exists|j: int|
                        0 <= j < r@.len() && r@[j]@ == pool@[ii]@),
            decreases pool@.len() - i,
        {
            let p = &pool[i];
            let ghost prev = r@;
            let take = Self::is_image_file(p.as_str()) && !is_referenced(app_state, p);
            if take {
                r.push(p.clone());
            }
            proof {
                assert forall|j: int| 0 <= j < r@.len() implies spec_orphan(s1, r@[j]@) by {
                    if j < prev.len() {
                        assert(r@[j] == prev[j]);
                    } else {
                        assert(r@[j] == pool@[i as int]);
                    }
                }
                assert forall|j: int|
                    0 <= j < r@.len() implies spec_in_pool(pool@, #[trigger] r@[j]@) by {
                    if j < prev.len() {
                        assert(r@[j] == prev[j]);
                        assert(spec_in_pool(pool@, prev[j]@));
                    } else {
                        assert(r@[j] == pool@[i as int]);
                        assert(pool@[i as int]@ == r@[j]@);
                    }
                }
                assert forall|ii: int|
                    0 <= ii < i + 1 && spec_orphan(s1, pool@[ii]@) implies (exists|j: int|
                    0 <= j < r@.len() && r@[j]@ == pool@[ii]@) by {
                    if ii < i {
                        let j0 = choose|j: int| 0 <= j < prev.len() && prev[j]@ == pool@[ii]@;
                        assert(r@[j0]@ == pool@[ii]@);
                    } else {
                        assert(take);
                        assert(r@[r@.len() - 1]@ == pool@[ii]@);
                    }
                }
            }
            i += 1;
        }
        proof {
            assert forall|j: int|
                0 <= j < r@.len() implies spec_orphan(
                spec_resolved(*old(app_state), now),
                r@[j]@,
            ) by {
                assert(spec_orphan(s1, r@[j]@));
            }
        }
        r
    }
}

/// Whether some live slot of the store references the given path.
fn is_referenced(app_state: &AppState, p: &String) -> (r: bool)
    ensures
        r == spec_referenced(*app_state, p@),
{
    if let Some(t) = &app_state.track {
        if let Some(img) = &t.image {
            if let Some(q) = &img.path {
                if str_eq(q.as_str(), p.as_str()) {
                    return true;
                }
            }
        }
    }
    if let Some(pr) = &app_state.program {
        if let Some(img) = &pr.image {
            if let Some(q) = &img.path {
                if str_eq(q.as_str(), p.as_str()) {
                    return true;
                }
            }
        }
    }
    if let Some(st) = &app_state.station {
        if let Some(img) = &st.image {
            if let Some(q) = &img.path {
                if str_eq(q.as_str(), p.as_str()) {
                    return true;
                }
            }
        }
    }
    false
}

} // verus!
