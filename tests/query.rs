use level_thumbnails::query::{
    listing_access, mark_replacements, snapshot_page, FilterClause, ListingDenied, ListingMode,
    PendingFilter, PendingQueryParams, PendingUpload,
};
use level_thumbnails::Role;

fn params(page: u32, per_page: u32) -> PendingQueryParams {
    PendingQueryParams { page, per_page, ..PendingQueryParams::default() }
}

fn row(id: i64, level_id: i64) -> PendingUpload {
    PendingUpload {
        id,
        user_id: 100 + id,
        username: format!("user{}", id),
        level_id,
        accepted: false,
        upload_time: chrono::NaiveDate::from_ymd_opt(2024, 1, 1)
            .unwrap()
            .and_hms_opt(0, 0, id as u32)
            .unwrap(),
        replacement: false,
    }
}

#[test]
fn default_params() {
    let p = PendingQueryParams::default();
    assert_eq!(p.page, 1);
    assert_eq!(p.per_page, 24);
    assert!(!p.replacement_only && !p.new_only);
    assert!(p.level_id.is_none() && p.user_id.is_none() && p.username.is_none());
}

#[test]
fn page_zero_is_page_one() {
    let a = params(0, 10).sanitized();
    let b = params(1, 10).sanitized();
    assert_eq!((a.page, a.per_page), (b.page, b.per_page));
    assert_eq!(a.page, 1);
    let oa = params(0, 10).into_options(PendingFilter::All);
    let ob = params(1, 10).into_options(PendingFilter::All);
    assert_eq!(oa.page_window(), ob.page_window());
    assert_eq!(oa.page_window(), (10, 0));
}

#[test]
fn per_page_is_clamped() {
    assert_eq!(params(1, 0).sanitized().per_page, 24);
    assert_eq!(params(1, 100).sanitized().per_page, 100);
    assert_eq!(params(1, 101).sanitized().per_page, 100);
    assert_eq!(params(1, u32::MAX).sanitized().per_page, 100);
    assert_eq!(params(1, 1).sanitized().per_page, 1);
}

#[test]
fn page_window_offsets() {
    let o = params(3, 20).into_options(PendingFilter::All);
    assert_eq!(o.page_window(), (20, 40));
    let o = params(u32::MAX, 100).into_options(PendingFilter::All);
    assert_eq!(o.page_window(), (100, (u32::MAX as i64 - 1) * 100));
}

#[test]
fn route_filter_overrides_request() {
    let p = PendingQueryParams { level_id: Some(1), user_id: Some(2), ..params(1, 5) };
    let o = p.clone().into_options(PendingFilter::ByLevel(9));
    assert_eq!((o.level_id, o.user_id), (Some(9), Some(2)));
    let o = p.clone().into_options(PendingFilter::ByUser(8));
    assert_eq!((o.level_id, o.user_id), (Some(1), Some(8)));
    let o = p.into_options(PendingFilter::All);
    assert_eq!((o.level_id, o.user_id), (Some(1), Some(2)));
}

#[test]
fn filter_clauses_in_order() {
    let p = PendingQueryParams {
        level_id: Some(4),
        user_id: Some(5),
        username: Some("Rob".to_string()),
        ..params(1, 5)
    };
    let o = p.into_options(PendingFilter::All);
    assert_eq!(
        o.filter_clauses(),
        vec![
            FilterClause::LevelIs(4),
            FilterClause::UserIs(5),
            FilterClause::UsernameLike("%Rob%".to_string())
        ]
    );
    assert!(params(1, 5).into_options(PendingFilter::All).filter_clauses().is_empty());
}

#[test]
fn listing_modes() {
    let o = params(1, 5).into_options(PendingFilter::All);
    assert_eq!(o.mode(), ListingMode::Simple);
    let o = PendingQueryParams { replacement_only: true, ..params(1, 5) }.into_options(PendingFilter::All);
    assert_eq!(o.mode(), ListingMode::Snapshot { keep_existing: true });
    let o = PendingQueryParams { new_only: true, ..params(1, 5) }.into_options(PendingFilter::All);
    assert_eq!(o.mode(), ListingMode::Snapshot { keep_existing: false });
}

#[test]
fn listing_access_rules() {
    assert_eq!(listing_access(PendingFilter::All, 1, Role::Moderator), Ok(()));
    assert_eq!(listing_access(PendingFilter::ByLevel(3), 1, Role::Admin), Ok(()));
    assert_eq!(listing_access(PendingFilter::ByUser(2), 1, Role::Admin), Ok(()));
    assert_eq!(listing_access(PendingFilter::ByUser(1), 1, Role::User), Ok(()));
    assert_eq!(listing_access(PendingFilter::ByUser(2), 1, Role::Verified), Err(ListingDenied::NotOwner));
    assert_eq!(listing_access(PendingFilter::All, 1, Role::User), Err(ListingDenied::NotModerator));
    assert_eq!(listing_access(PendingFilter::ByLevel(3), 1, Role::Verified), Err(ListingDenied::NotModerator));
}

#[test]
fn snapshot_total_counts_filtered_rows() {
    let rows: Vec<PendingUpload> = (1..=5).map(|i| row(i, 10 * i)).collect();
    let exists = vec![true, false, true, true, false];
    let page = snapshot_page(rows, &exists, true, 1, 2);
    assert_eq!(page.total, 3);
    let ids: Vec<i64> = page.uploads.iter().map(|u| u.id).collect();
    assert_eq!(ids, vec![1, 3]);

    let rows: Vec<PendingUpload> = (1..=5).map(|i| row(i, 10 * i)).collect();
    let page = snapshot_page(rows, &exists, true, 2, 2);
    assert_eq!(page.total, 3);
    let ids: Vec<i64> = page.uploads.iter().map(|u| u.id).collect();
    assert_eq!(ids, vec![4]);
}

#[test]
fn snapshot_modes_split_rows() {
    let exists = vec![true, false, true, true, false];
    let rows: Vec<PendingUpload> = (1..=5).map(|i| row(i, i)).collect();
    let replacements = snapshot_page(rows, &exists, true, 1, 100);
    let rows: Vec<PendingUpload> = (1..=5).map(|i| row(i, i)).collect();
    let fresh = snapshot_page(rows, &exists, false, 1, 100);
    assert_eq!(replacements.total + fresh.total, 5);
    let fresh_ids: Vec<i64> = fresh.uploads.iter().map(|u| u.id).collect();
    assert_eq!(fresh_ids, vec![2, 5]);
}

#[test]
fn snapshot_page_past_end_is_empty() {
    let rows: Vec<PendingUpload> = (1..=3).map(|i| row(i, i)).collect();
    let page = snapshot_page(rows, &vec![false, false, false], false, 9, 2);
    assert_eq!(page.total, 3);
    assert!(page.uploads.is_empty());
    let page = snapshot_page(Vec::new(), &Vec::new(), true, 1, 24);
    assert_eq!(page.total, 0);
    assert!(page.uploads.is_empty());
}

#[test]
fn replacements_are_marked() {
    let mut rows: Vec<PendingUpload> = (1..=3).map(|i| row(i, i)).collect();
    mark_replacements(&mut rows, &vec![true, false, true]);
    let flags: Vec<bool> = rows.iter().map(|u| u.replacement).collect();
    assert_eq!(flags, vec![true, false, true]);
    assert_eq!(rows[1].username, "user2");
}
