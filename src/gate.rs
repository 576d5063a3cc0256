//! The submission gate: whether an upload is refused, published at once, or
//! queued for moderation, and what the server must then write.
use vstd::prelude::*;
use crate::media::{decoded_rgb, has_thumbnail_size, process_image, webp_lossless, ImageRejection};
use crate::model::Role;
use crate::storage::{path_text, StoragePath};

verus! {

/// What the server knows of the world when an upload arrives.
#[derive(Debug, Clone, Copy, PartialEq, Eq, Structural)]
pub struct GateProbes {
    /// The submitter already has an upload waiting for this level.
    pub pending_exists: bool,
    /// The level already has a published thumbnail.
    pub canonical_exists: bool,
    /// Moderated submissions are paused.
    pub paused: bool,
}

/// Where an accepted upload goes.
#[derive(Debug, Clone, Copy, PartialEq, Eq, Structural)]
pub enum Disposition {
    /// Becomes the level's thumbnail at once.
    Publish,
    /// Waits for a moderator.
    Queue,
}

/// Why an upload was not taken, or failed while being stored.
#[derive(Debug, Clone, PartialEq, Eq)]
pub enum SubmitError {
    /// The submitter already has an upload waiting for this level.
    Conflict,
    /// The payload is not a usable thumbnail.
    Invalid(ImageRejection),
    /// Moderated submissions are paused.
    Paused,
    /// Writing the image file failed.
    Storage(String),
    /// Recording the upload failed after its file was written.
    Persistence(String),
}

/// The work that an accepted upload calls for: write `image` at `path`, then
/// record the upload.
pub struct SubmitPlan {
    pub disposition: Disposition,
    pub user_id: i64,
    pub level_id: i64,
    pub path: StoragePath,
    pub image: Vec<u8>,
}

/// A row to add to the upload records.
#[derive(Debug, Clone)]
pub struct NewUpload {
    pub level_id: i64,
    pub user_id: i64,
    pub image_path: String,
    /// Published at once, rather than waiting for a decision.
    pub accepted: bool,
}

/// How a stored upload ended.
#[derive(Debug, Clone, Copy, PartialEq, Eq, Structural)]
pub enum SubmitOutcome {
    /// The level's thumbnail was replaced; its cached copies are stale.
    Published { level_id: i64 },
    /// The upload waits for a moderator.
    Queued { level_id: i64 },
}

/// Roles whose uploads are refused while one of theirs waits for the level.
pub open spec fn limits_pending(role: Role) -> bool {
    role is User || role is Verified
}

/// Where an upload of a given role goes; `None` where it would wait for
/// moderation while submissions are paused.
pub open spec fn route_of(role: Role, canonical_exists: bool, paused: bool) -> Option<Disposition> {
    match role {
        Role::Admin | Role::Moderator => Some(Disposition::Publish),
        Role::Verified => if !canonical_exists {
            Some(Disposition::Publish)
        } else if paused {
            None
        } else {
            Some(Disposition::Queue)
        },
        Role::User => if paused {
            None
        } else {
            Some(Disposition::Queue)
        },
    }
}

/// The file location of an upload with a given disposition.
pub open spec fn target_of(d: Disposition, user_id: i64, level_id: i64) -> StoragePath {
    match d {
        Disposition::Publish => StoragePath::Canonical { level_id },
        Disposition::Queue => StoragePath::Pending { user_id, level_id },
    }
}

/// The stored form of a payload that has the thumbnail size.
pub open spec fn thumbnail_bytes(data: Seq<u8>) -> Seq<u8> {
    match decoded_rgb(data) {
        Some((w, h, px)) => webp_lossless(px, w, h),
        None => Seq::empty(),
    }
}

/// A plan that carries out disposition `d` for the given upload.
pub open spec fn plan_matches(
    p: SubmitPlan,
    d: Disposition,
    user_id: i64,
    level_id: i64,
    image: Seq<u8>,
) -> bool {
    &&& p.disposition == d
    &&& p.user_id == user_id
    &&& p.level_id == level_id
    &&& p.path == target_of(d, user_id, level_id)
    &&& p.image@ == image
}

/// Whether the submitter must first be asked about an upload of theirs that
/// waits for the level.
pub fn limits_pending_uploads(role: Role) -> (r: bool)
    ensures
        r == limits_pending(role),
{
    match role {
        Role::User | Role::Verified => true,
        _ => false,
    }
}

/// Routes an upload whose image has been processed: a bad image is refused,
/// else the submitter's role, the level's state and the pause flag decide.
pub fn route_submission(
    user_id: i64,
    role: Role,
    level_id: i64,
    processed: Result<Vec<u8>, ImageRejection>,
    canonical_exists: bool,
    paused: bool,
) -> (r: Result<SubmitPlan, SubmitError>)
    ensures
        match processed {
            Err(e) => r == Err::<SubmitPlan, SubmitError>(SubmitError::Invalid(e)),
            Ok(bytes) => match route_of(role, canonical_exists, paused) {
                None => r == Err::<SubmitPlan, SubmitError>(SubmitError::Paused),
                Some(d) => (r matches Ok(p) && plan_matches(p, d, user_id, level_id, bytes@)),
            },
        },
{
    let image = match processed {
        Err(e) => {
            return Err(SubmitError::Invalid(e));
        },
        Ok(bytes) => bytes,
    };
    let disposition = match role {
        Role::Admin | Role::Moderator => Disposition::Publish,
        Role::Verified => {
            if !canonical_exists {
                Disposition::Publish
            } else if paused {
                return Err(SubmitError::Paused);
            } else {
                Disposition::Queue
            }
        },
        Role::User => {
            if paused {
                return Err(SubmitError::Paused);
            }
            Disposition::Queue
        },
    };
    let path = match disposition {
        Disposition::Publish => StoragePath::Canonical { level_id },
        Disposition::Queue => StoragePath::Pending { user_id, level_id },
    };
    Ok(SubmitPlan { disposition, user_id, level_id, path, image })
}

/// Decides on an upload: a second waiting upload of a user or verified user
/// for the same level is refused first, then the payload must be an image of
/// the thumbnail size, then the upload is routed.
pub fn plan_submission(user_id: i64, role: Role, level_id: i64, payload: &[u8], probes: &GateProbes) -> (r:
    Result<SubmitPlan, SubmitError>)
    ensures
        limits_pending(role) && probes.pending_exists ==> r == Err::<SubmitPlan, SubmitError>(
            SubmitError::Conflict,
        ),
        !(limits_pending(role) && probes.pending_exists) ==> {
            if decoded_rgb(payload@) is None {
                r matches Err(SubmitError::Invalid(ImageRejection::Undecodable(_)))
            } else if !has_thumbnail_size(decoded_rgb(payload@)) {
                decoded_rgb(payload@) matches Some((w, h, _)) && r == Err::<SubmitPlan, SubmitError>(
                    SubmitError::Invalid(ImageRejection::WrongSize { width: w, height: h }),
                )
            } else {
                match route_of(role, probes.canonical_exists, probes.paused) {
                    None => r == Err::<SubmitPlan, SubmitError>(SubmitError::Paused),
                    Some(d) => r matches Ok(p) && plan_matches(
                        p,
                        d,
                        user_id,
                        level_id,
                        thumbnail_bytes(payload@),
                    ),
                }
            }
        },
{
    if limits_pending_uploads(role) && probes.pending_exists {
        return Err(SubmitError::Conflict);
    }
    let processed = process_image(payload);
    route_submission(user_id, role, level_id, processed, probes.canonical_exists, probes.paused)
}

impl SubmitPlan {
    /// The record of this upload, once its file is written.
    pub fn record(&self) -> (r: NewUpload)
        ensures
            r.level_id == self.level_id,
            r.user_id == self.user_id,
            r.image_path@ == path_text(self.path),
            r.accepted == (self.disposition is Publish),
    {
        NewUpload {
            level_id: self.level_id,
            user_id: self.user_id,
            image_path: self.path.render(),
            accepted: match self.disposition {
                Disposition::Publish => true,
                Disposition::Queue => false,
            },
        }
    }

    /// The step after writing the file: record the upload, or fail without
    /// recording anything.
    pub fn after_write(&self, written: Result<(), String>) -> (r: Result<NewUpload, SubmitError>)
        ensures
            written matches Err(e) ==> r == Err::<NewUpload, SubmitError>(SubmitError::Storage(e)),
            written is Ok ==> (r matches Ok(row) && row.level_id == self.level_id && row.user_id
                == self.user_id && row.image_path@ == path_text(self.path) && row.accepted == (
            self.disposition is Publish)),
    {
        match written {
            Err(e) => Err(SubmitError::Storage(e)),
            Ok(()) => Ok(self.record()),
        }
    }

    /// The end of an upload, given how recording it went.
    pub fn after_record(&self, recorded: Result<(), String>) -> (r: Result<SubmitOutcome, SubmitError>)
        ensures
            recorded matches Err(e) ==> r == Err::<SubmitOutcome, SubmitError>(
                SubmitError::Persistence(e),
            ),
            recorded is Ok && self.disposition is Publish ==> r == Ok::<SubmitOutcome, SubmitError>(
                SubmitOutcome::Published { level_id: self.level_id },
            ),
            recorded is Ok && self.disposition is Queue ==> r == Ok::<SubmitOutcome, SubmitError>(
                SubmitOutcome::Queued { level_id: self.level_id },
            ),
    {
        match recorded {
            Err(e) => Err(SubmitError::Persistence(e)),
            Ok(()) => match self.disposition {
                Disposition::Publish => Ok(SubmitOutcome::Published { level_id: self.level_id }),
                Disposition::Queue => Ok(SubmitOutcome::Queued { level_id: self.level_id }),
            },
        }
    }
}

impl SubmitError {
    /// The HTTP status that reports this error.
    pub fn status_code(&self) -> (r: u16)
        ensures
            r == match self {
                SubmitError::Conflict => 409u16,
                SubmitError::Invalid(_) => 400u16,
                SubmitError::Paused => 503u16,
                SubmitError::Storage(_) | SubmitError::Persistence(_) => 500u16,
            },
    {
        match self {
            SubmitError::Conflict => 409,
            SubmitError::Invalid(_) => 400,
            SubmitError::Paused => 503,
            SubmitError::Storage(_) | SubmitError::Persistence(_) => 500,
        }
    }
}

impl SubmitOutcome {
    /// The HTTP status that reports this outcome.
    pub fn status_code(&self) -> (r: u16)
        ensures
            r == if *self is Published { 201u16 } else { 202u16 },
    {
        match self {
            SubmitOutcome::Published { .. } => 201,
            SubmitOutcome::Queued { .. } => 202,
        }
    }
}

} // verus!
