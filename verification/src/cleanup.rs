//! Access to a content entity's image, and the decision of which
//! stored file an explicit clear command abandons.

use vstd::prelude::*;

use crate::models::{Image, Program, Track};

verus! {

/// Access to the image of a content entity.
pub trait HasImage {
    /// The entity's image, as a spec-level value.
    spec fn spec_image(&self) -> Option<Image>;

    /// Returns the entity's image.
    fn get_image(&self) -> (r: Option<&Image>)
        ensures
            match r {
                Some(img) => self.spec_image() == Some(*img),
                None => self.spec_image() is None,
            },
    ;
}

impl HasImage for Program {
    open spec fn spec_image(&self) -> Option<Image> {
        self.image
    }

    fn get_image(&self) -> (r: Option<&Image>) {
        self.image.as_ref()
    }
}

impl HasImage for Track {
    open spec fn spec_image(&self) -> Option<Image> {
        self.image
    }

    fn get_image(&self) -> (r: Option<&Image>) {
        self.image.as_ref()
    }
}

/// The stored file that clearing the slot abandons: the path of the
/// slot's image, when the slot, its image and the image's path are all
/// present. The caller deletes the returned file at once rather than
/// leaving it for the next reconciliation pass.
pub fn cleanup_optional_data_image<T: HasImage>(data: &Option<T>) -> (r: Option<String>)
    ensures
        match r {
            Some(p) => data matches Some(d) && d.spec_image() matches Some(img)
                && img.path matches Some(q) && p@ == q@,
            None => !(data matches Some(d) && d.spec_image() matches Some(img)
                && img.path is Some),
        },
{
    if let Some(item) = data {
        if let Some(image) = item.get_image() {
            if let Some(path) = &image.path {
                return Some(path.clone());
            }
        }
    }
    None
}

} // verus!
