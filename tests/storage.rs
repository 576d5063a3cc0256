use level_thumbnails::storage::{migration_moves, pending_image_disposition, StoragePath};

#[test]
fn path_names() {
    assert_eq!(StoragePath::Canonical { level_id: 42 }.render(), "thumbnails/42.webp");
    assert_eq!(StoragePath::Canonical { level_id: 0 }.render(), "thumbnails/0.webp");
    assert_eq!(StoragePath::Pending { user_id: 3, level_id: 42 }.render(), "uploads/3_42.webp");
    assert_eq!(StoragePath::Pending { user_id: -1, level_id: 1 }.render(), "uploads/-1_1.webp");
    assert_eq!(
        StoragePath::Canonical { level_id: i64::MIN }.render(),
        "thumbnails/-9223372036854775808.webp"
    );
    assert_eq!(
        StoragePath::Canonical { level_id: i64::MAX }.render(),
        "thumbnails/9223372036854775807.webp"
    );
}

#[test]
fn migration_renames_each_waiting_upload() {
    let moves = migration_moves(4, 9, &vec![10, 20]);
    assert_eq!(
        moves,
        vec![
            (StoragePath::Pending { user_id: 4, level_id: 10 }, StoragePath::Pending { user_id: 9, level_id: 10 }),
            (StoragePath::Pending { user_id: 4, level_id: 20 }, StoragePath::Pending { user_id: 9, level_id: 20 }),
        ]
    );
    assert_eq!(moves[1].1.render(), "uploads/9_20.webp");
    assert!(migration_moves(4, 9, &Vec::new()).is_empty());
}

#[test]
fn pending_image_header() {
    assert_eq!(pending_image_disposition(3, 15), "inline; filename=\"pending_3_15.webp\"");
}
