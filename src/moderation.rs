//! The moderation resolver: accepting or rejecting a waiting upload, moving or
//! deleting its file, and recording the decision exactly once.
use vstd::prelude::*;
use crate::model::{is_moderating, Role};
use crate::storage::StoragePath;

verus! {

/// Where an upload stands. It leaves `Pending` once and never returns.
#[derive(Debug, Clone, Copy, PartialEq, Eq, Structural)]
pub enum Status {
    Pending,
    Accepted,
    Rejected,
}

/// An upload record as the resolver reads it.
#[derive(Debug, Clone)]
pub struct Submission {
    pub id: i64,
    pub user_id: i64,
    pub level_id: i64,
    pub status: Status,
}

/// A moderator's decision on a waiting upload.
#[derive(Debug, Clone)]
pub struct PendingUploadAction {
    pub accepted: bool,
    pub reason: Option<String>,
}

/// Why a decision was not carried out.
#[derive(Debug, Clone, PartialEq, Eq)]
pub enum ResolveError {
    /// The caller is neither moderator nor admin.
    Forbidden,
    /// No upload has that id.
    NotFound,
    /// The upload was already decided.
    Conflict,
    /// Moving or deleting the upload's file failed.
    Storage(String),
    /// The store could not be read or written.
    Persistence(String),
}

/// A file change that a decision calls for.
#[derive(Debug, Clone, Copy, PartialEq, Eq, Structural)]
pub enum FileChange {
    /// Rename `from` to `to`, replacing what is there.
    Move { from: StoragePath, to: StoragePath },
    /// Remove the file.
    Delete { path: StoragePath },
}

/// How a file change went.
#[derive(Debug, Clone, PartialEq, Eq)]
pub enum FileOutcome {
    Done,
    /// The file to move or delete was not there; the store's message.
    Missing(String),
    /// Any other failure; the store's message.
    Failed(String),
}

/// The work of a decision on one waiting upload.
#[derive(Debug, Clone, Copy, PartialEq, Eq, Structural)]
pub struct ResolutionPlan {
    pub submission_id: i64,
    pub user_id: i64,
    pub level_id: i64,
    pub accept: bool,
    pub file_change: FileChange,
}

/// The record change of a decision. The store applies it only to a row that
/// is still pending, and reports how many rows it changed.
#[derive(Debug, Clone)]
pub struct StatusUpdate {
    pub submission_id: i64,
    pub status: Status,
    pub decided_by: i64,
    pub reason: Option<String>,
}

/// How a decision ended.
#[derive(Debug, Clone, Copy, PartialEq, Eq, Structural)]
pub enum ResolveOutcome {
    /// Published as the level's thumbnail; its cached copies are stale.
    Accepted { level_id: i64 },
    Rejected,
}

/// The plan for deciding on a pending upload.
pub open spec fn plan_for(s: Submission, accept: bool) -> ResolutionPlan {
    let pending = StoragePath::Pending { user_id: s.user_id, level_id: s.level_id };
    ResolutionPlan {
        submission_id: s.id,
        user_id: s.user_id,
        level_id: s.level_id,
        accept,
        file_change: if accept {
            FileChange::Move { from: pending, to: StoragePath::Canonical { level_id: s.level_id } }
        } else {
            FileChange::Delete { path: pending }
        },
    }
}

/// What the lookup of an upload leads to: a store failure, no such upload, an
/// upload already decided, or the plan.
pub open spec fn planned(found: Result<Option<Submission>, String>, accept: bool) -> Result<
    ResolutionPlan,
    ResolveError,
> {
    match found {
        Err(e) => Err(ResolveError::Persistence(e)),
        Ok(None) => Err(ResolveError::NotFound),
        Ok(Some(s)) => if s.status is Pending {
            Ok(plan_for(s, accept))
        } else {
            Err(ResolveError::Conflict)
        },
    }
}

/// Whether a file outcome lets the decision go on: a rejection also goes on
/// where the file is already gone.
pub open spec fn file_step_ok(accept: bool, outcome: FileOutcome) -> bool {
    outcome is Done || (!accept && outcome is Missing)
}

/// The status a decision sets.
pub open spec fn decided_status(accept: bool) -> Status {
    if accept {
        Status::Accepted
    } else {
        Status::Rejected
    }
}

/// Only moderators and admins decide; this is checked before the upload is
/// looked up.
pub fn require_moderator(role: Role) -> (r: Result<(), ResolveError>)
    ensures
        is_moderating(role) <==> r is Ok,
        r is Err ==> r == Err::<(), ResolveError>(ResolveError::Forbidden),
{
    if role.can_moderate() {
        Ok(())
    } else {
        Err(ResolveError::Forbidden)
    }
}

/// Turns the lookup of an upload into the work of a decision on it.
pub fn plan_resolution(found: Result<Option<Submission>, String>, accept: bool) -> (r: Result<
    ResolutionPlan,
    ResolveError,
>)
    ensures
        r == planned(found, accept),
{
    match found {
        Err(e) => Err(ResolveError::Persistence(e)),
        Ok(None) => Err(ResolveError::NotFound),
        Ok(Some(s)) => {
            match s.status {
                Status::Pending => {
                    let pending = StoragePath::Pending { user_id: s.user_id, level_id: s.level_id };
                    let file_change = if accept {
                        FileChange::Move {
                            from: pending,
                            to: StoragePath::Canonical { level_id: s.level_id },
                        }
                    } else {
                        FileChange::Delete { path: pending }
                    };
                    Ok(
                        ResolutionPlan {
                            submission_id: s.id,
                            user_id: s.user_id,
                            level_id: s.level_id,
                            accept,
                            file_change,
                        },
                    )
                },
                _ => Err(ResolveError::Conflict),
            }
        },
    }
}

impl ResolutionPlan {
    /// The step after the file change: the record change to make, or the
    /// failure that stops the decision before the record is touched.
    pub fn after_file_change(&self, outcome: FileOutcome, actor_id: i64, reason: Option<String>) -> (r:
        Result<StatusUpdate, ResolveError>)
        ensures
            file_step_ok(self.accept, outcome) ==> (r matches Ok(u) && u.submission_id
                == self.submission_id && u.status == decided_status(self.accept) && u.decided_by
                == actor_id && u.reason == reason),
            outcome matches FileOutcome::Failed(e) ==> r == Err::<StatusUpdate, ResolveError>(
                ResolveError::Storage(e),
            ),
            self.accept ==> (outcome matches FileOutcome::Missing(e) ==> r == Err::<
                StatusUpdate,
                ResolveError,
            >(ResolveError::Storage(e))),
    {
        let update = StatusUpdate {
            submission_id: self.submission_id,
            status: if self.accept {
                Status::Accepted
            } else {
                Status::Rejected
            },
            decided_by: actor_id,
            reason,
        };
        match outcome {
            FileOutcome::Done => Ok(update),
            FileOutcome::Missing(e) => if self.accept {
                Err(ResolveError::Storage(e))
            } else {
                Ok(update)
            },
            FileOutcome::Failed(e) => Err(ResolveError::Storage(e)),
        }
    }

    /// The end of a decision, given how many rows the conditional record
    /// change touched: none means another decision came first.
    pub fn after_update(&self, updated: Result<u64, String>) -> (r: Result<ResolveOutcome, ResolveError>)
        ensures
            updated matches Err(e) ==> r == Err::<ResolveOutcome, ResolveError>(
                ResolveError::Persistence(e),
            ),
            updated == Ok::<u64, String>(0) ==> r == Err::<ResolveOutcome, ResolveError>(
                ResolveError::Conflict,
            ),
            (updated matches Ok(n) && n > 0) ==> r == Ok::<ResolveOutcome, ResolveError>(
                if self.accept {
                    ResolveOutcome::Accepted { level_id: self.level_id }
                } else {
                    ResolveOutcome::Rejected
                },
            ),
    {
        match updated {
            Err(e) => Err(ResolveError::Persistence(e)),
            Ok(n) => {
                if n == 0 {
                    Err(ResolveError::Conflict)
                } else if self.accept {
                    Ok(ResolveOutcome::Accepted { level_id: self.level_id })
                } else {
                    Ok(ResolveOutcome::Rejected)
                }
            },
        }
    }
}

/// Where the image of a waiting upload is read from.
pub fn pending_image_path(s: &Submission) -> (r: StoragePath)
    ensures
        r == (StoragePath::Pending { user_id: s.user_id, level_id: s.level_id }),
{
    StoragePath::Pending { user_id: s.user_id, level_id: s.level_id }
}

impl ResolveError {
    /// The HTTP status that reports this error.
    pub fn status_code(&self) -> (r: u16)
        ensures
            r == match self {
                ResolveError::Forbidden => 403u16,
                ResolveError::NotFound => 404u16,
                ResolveError::Conflict => 409u16,
                ResolveError::Storage(_) | ResolveError::Persistence(_) => 500u16,
            },
    {
        match self {
            ResolveError::Forbidden => 403,
            ResolveError::NotFound => 404,
            ResolveError::Conflict => 409,
            ResolveError::Storage(_) | ResolveError::Persistence(_) => 500,
        }
    }
}

/// Rejecting a waiting upload whose file is already gone still succeeds: the
/// rejection is recorded, and once it is, any further decision on the upload
/// is a conflict.
pub proof fn lemma_reject_with_file_gone(s: Submission, message: String)
    requires
        s.status is Pending,
    ensures
        planned(Ok(Some(s)), false) == Ok::<ResolutionPlan, ResolveError>(plan_for(s, false)),
        file_step_ok(false, FileOutcome::Missing(message)),
        decided_status(false) == Status::Rejected,
        forall|accept: bool|
            planned(Ok(Some(Submission { status: decided_status(false), ..s })), accept)
                == Err::<ResolutionPlan, ResolveError>(ResolveError::Conflict),
{
}

/// A decision on an upload that was already decided is a conflict and plans
/// no file or record change.
pub proof fn lemma_second_decision_conflicts(s: Submission, accept: bool)
    requires
        !(s.status is Pending),
    ensures
        planned(Ok(Some(s)), accept) == Err::<ResolutionPlan, ResolveError>(ResolveError::Conflict),
{
}

} // verus!
