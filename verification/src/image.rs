//! Choosing the module image to mount, and what the image files look like
//! after the requests of a phase.

use vstd::prelude::*;
use crate::boot::{BootAction, ImageSlot, StateFile};

verus! {

/// Which image to mount, and which file to remove first.
#[derive(Clone, Copy, Debug, PartialEq, Eq)]
pub struct ImagePlan {
    /// The image to mount, if it exists.
    pub slot: ImageSlot,
    /// The file to remove before that.
    pub remove: Option<StateFile>,
}

/// The plan for the files found: an update image with its marker is taken,
/// and the marker removed so that it is tried once only; an update image
/// without marker is stale and removed; else the base image is taken as it
/// is.
pub open spec fn spec_select_image(update_exists: bool, marker_exists: bool) -> ImagePlan {
    if update_exists && marker_exists {
        ImagePlan { slot: ImageSlot::Update, remove: Some(StateFile::UpdateMarker) }
    } else if update_exists {
        ImagePlan { slot: ImageSlot::Base, remove: Some(StateFile::UpdateImage) }
    } else {
        ImagePlan { slot: ImageSlot::Base, remove: None }
    }
}

/// Plans the image to mount from what was found on disk.
pub fn select_image(update_exists: bool, marker_exists: bool) -> (plan: ImagePlan)
    ensures
        plan == spec_select_image(update_exists, marker_exists),
{
    if update_exists && marker_exists {
        ImagePlan { slot: ImageSlot::Update, remove: Some(StateFile::UpdateMarker) }
    } else if update_exists {
        ImagePlan { slot: ImageSlot::Base, remove: Some(StateFile::UpdateImage) }
    } else {
        ImagePlan { slot: ImageSlot::Base, remove: None }
    }
}

/// The image files and the marker: the content of each image that exists,
/// and whether the marker exists.
pub struct ImageFiles {
    pub base: Option<Seq<u8>>,
    pub update: Option<Seq<u8>>,
    pub marker: bool,
}

impl ImageFiles {
    /// The files after `action`, which was answered with `ok`. A request
    /// that failed, and one that touches none of the three files, leaves
    /// them as they were.
    pub open spec fn after(self, action: BootAction, ok: bool) -> ImageFiles {
        if !ok {
            self
        } else {
            match action {
                BootAction::RemoveFile { file: StateFile::BaseImage } => ImageFiles {
                    base: None,
                    ..self
                },
                BootAction::RemoveFile { file: StateFile::UpdateImage } => ImageFiles {
                    update: None,
                    ..self
                },
                BootAction::RemoveFile { file: StateFile::UpdateMarker } => ImageFiles {
                    marker: false,
                    ..self
                },
                BootAction::RenameUpdateToBase => if self.update is Some {
                    ImageFiles { base: self.update, update: None, ..self }
                } else {
                    self
                },
                BootAction::CopyUpdateToBase => if self.update is Some {
                    ImageFiles { base: self.update, ..self }
                } else {
                    self
                },
                _ => self,
            }
        }
    }
}

} // verus!
