use level_thumbnails::text::parse_u64;
use level_thumbnails::thumbnail::{
    level_id_of_file, level_ids_of_files, pick_thumbnail, random_thumbnail, thumbnail_location, Res,
};

#[test]
fn resolutions() {
    assert_eq!(Res::High.dimensions(), (1920, 1080));
    assert_eq!(Res::Medium.dimensions(), (1280, 720));
    assert_eq!(Res::Small.dimensions(), (640, 360));
    assert_eq!((Res::High.name(), Res::Medium.name(), Res::Small.name()), ("high", "medium", "small"));
}

#[test]
fn file_names_to_level_ids() {
    assert_eq!(level_id_of_file("123.webp"), Some(123));
    assert_eq!(level_id_of_file("123"), Some(123));
    assert_eq!(level_id_of_file("7.webp.webp"), Some(7));
    assert_eq!(level_id_of_file("+7.webp"), Some(7));
    assert_eq!(level_id_of_file("abc.webp"), None);
    assert_eq!(level_id_of_file(".webp"), None);
    assert_eq!(level_id_of_file("12.png"), None);
    assert_eq!(level_id_of_file("-1.webp"), None);
    assert_eq!(level_id_of_file("18446744073709551615.webp"), Some(u64::MAX));
    assert_eq!(level_id_of_file("18446744073709551616.webp"), None);
}

#[test]
fn parse_matches_std() {
    for s in ["", "+", "0", "00", "+0", "42", "9x", " 1", "1 ", "++1", "18446744073709551615", "99999999999999999999"] {
        assert_eq!(parse_u64(s), s.parse::<u64>().ok(), "{:?}", s);
    }
}

#[test]
fn directory_listing_to_ids() {
    let names = vec!["1.webp".to_string(), "notes.txt".to_string(), "30.webp".to_string()];
    assert_eq!(level_ids_of_files(&names), vec![1, 30]);
}

#[test]
fn random_pick() {
    let ids = vec![4, 8, 15];
    assert_eq!(pick_thumbnail(&ids, 0), 4);
    assert_eq!(pick_thumbnail(&ids, 4), 8);
    assert_eq!(pick_thumbnail(&ids, u64::MAX), ids[(u64::MAX % 3) as usize]);
    assert_eq!(random_thumbnail(&Vec::new()), None);
    for _ in 0..20 {
        let id = random_thumbnail(&ids).unwrap();
        assert!(ids.contains(&id));
    }
}

#[test]
fn redirect_location() {
    assert_eq!(thumbnail_location(42, Res::Small), "/thumbnail/42/small");
    assert_eq!(thumbnail_location(0, Res::High), "/thumbnail/0/high");
}
