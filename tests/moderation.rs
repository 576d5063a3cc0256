use level_thumbnails::moderation::{
    pending_image_path, plan_resolution, require_moderator, FileChange, FileOutcome, ResolveError,
    ResolveOutcome, Status, Submission,
};
use level_thumbnails::storage::StoragePath;
use level_thumbnails::Role;

fn pending(id: i64) -> Submission {
    Submission { id, user_id: 8, level_id: 77, status: Status::Pending }
}

#[test]
fn only_moderators_resolve() {
    assert_eq!(require_moderator(Role::Moderator), Ok(()));
    assert_eq!(require_moderator(Role::Admin), Ok(()));
    assert_eq!(require_moderator(Role::User), Err(ResolveError::Forbidden));
    assert_eq!(require_moderator(Role::Verified), Err(ResolveError::Forbidden));
    assert_eq!(ResolveError::Forbidden.status_code(), 403);
}

#[test]
fn missing_submission_is_not_found() {
    assert_eq!(plan_resolution(Ok(None), true), Err(ResolveError::NotFound));
    assert_eq!(ResolveError::NotFound.status_code(), 404);
    assert_eq!(
        plan_resolution(Err("timeout".to_string()), false),
        Err(ResolveError::Persistence("timeout".to_string()))
    );
}

#[test]
fn accept_moves_into_canonical_path() {
    let plan = plan_resolution(Ok(Some(pending(3))), true).unwrap();
    assert_eq!(
        plan.file_change,
        FileChange::Move {
            from: StoragePath::Pending { user_id: 8, level_id: 77 },
            to: StoragePath::Canonical { level_id: 77 },
        }
    );
    let update = plan.after_file_change(FileOutcome::Done, 1, Some("nice".to_string())).unwrap();
    assert_eq!(update.status, Status::Accepted);
    assert_eq!(update.submission_id, 3);
    assert_eq!(update.decided_by, 1);
    assert_eq!(update.reason, Some("nice".to_string()));
    assert_eq!(plan.after_update(Ok(1)), Ok(ResolveOutcome::Accepted { level_id: 77 }));
}

#[test]
fn accept_with_missing_file_fails_before_update() {
    let plan = plan_resolution(Ok(Some(pending(3))), true).unwrap();
    let r = plan.after_file_change(FileOutcome::Missing("gone".to_string()), 1, None);
    assert_eq!(r.err(), Some(ResolveError::Storage("gone".to_string())));
    assert_eq!(ResolveError::Storage(String::new()).status_code(), 500);
}

#[test]
fn reject_with_file_already_gone_succeeds() {
    let s = pending(4);
    let plan = plan_resolution(Ok(Some(s.clone())), false).unwrap();
    assert_eq!(
        plan.file_change,
        FileChange::Delete { path: StoragePath::Pending { user_id: 8, level_id: 77 } }
    );
    let update = plan.after_file_change(FileOutcome::Missing("gone".to_string()), 2, None).unwrap();
    assert_eq!(update.status, Status::Rejected);
    assert_eq!(plan.after_update(Ok(1)), Ok(ResolveOutcome::Rejected));
    let decided = Submission { status: update.status, ..s };
    assert_eq!(plan_resolution(Ok(Some(decided)), false), Err(ResolveError::Conflict));
}

#[test]
fn reject_with_other_delete_failure_stops() {
    let plan = plan_resolution(Ok(Some(pending(4))), false).unwrap();
    let r = plan.after_file_change(FileOutcome::Failed("denied".to_string()), 2, None);
    assert_eq!(r.err(), Some(ResolveError::Storage("denied".to_string())));
}

#[test]
fn second_resolution_conflicts() {
    for status in [Status::Accepted, Status::Rejected] {
        for accept in [true, false] {
            let s = Submission { status, ..pending(5) };
            assert_eq!(plan_resolution(Ok(Some(s)), accept), Err(ResolveError::Conflict));
        }
    }
    assert_eq!(ResolveError::Conflict.status_code(), 409);
}

#[test]
fn lost_race_on_update_conflicts() {
    let plan = plan_resolution(Ok(Some(pending(6))), true).unwrap();
    assert_eq!(plan.after_update(Ok(0)), Err(ResolveError::Conflict));
    assert_eq!(
        plan.after_update(Err("down".to_string())),
        Err(ResolveError::Persistence("down".to_string()))
    );
}

#[test]
fn pending_image_location() {
    let p = pending_image_path(&pending(1));
    assert_eq!(p.render(), "uploads/8_77.webp");
}
