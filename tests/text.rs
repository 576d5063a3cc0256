use level_thumbnails::cookie::read_cookie;
use level_thumbnails::text::parse_i64;

#[test]
fn signed_parse_matches_std() {
    for s in [
        "", "-", "+", "0", "-0", "+5", "-5", "123456789012345678", "9223372036854775807",
        "9223372036854775808", "-9223372036854775808", "-9223372036854775809", "1a", " 1",
    ] {
        assert_eq!(parse_i64(s), s.parse::<i64>().ok(), "{:?}", s);
    }
}

#[test]
fn cookie_lookup() {
    let h = "theme=dark; auth_token=abc.def; other=1";
    assert_eq!(read_cookie(h, "auth_token="), Some("abc.def".to_string()));
    assert_eq!(read_cookie(h, "missing="), None);
    assert_eq!(read_cookie("auth_token=x", "auth_token="), Some("x".to_string()));
    assert_eq!(read_cookie(" auth_token=y ;z=1", "auth_token="), Some("y".to_string()));
    assert_eq!(read_cookie("a=1;", "auth_token="), None);
    assert_eq!(read_cookie("", "auth_token="), None);
    assert_eq!(read_cookie("auth_token=auth_token=q", "auth_token="), Some("q".to_string()));
    assert_eq!(read_cookie("a=1;\u{a0}b=2", "b="), Some("2".to_string()));
}

#[test]
fn cookie_lookup_matches_split_and_trim() {
    let headers = ["x=1; y=2", " y=3 ; y=4", "y=;y=5", ";;y=6", "xy=7; y=8"];
    for h in headers {
        let expected = h.split(';').find_map(|part| {
            let t = part.trim();
            if t.starts_with("y=") { Some(t.trim_start_matches("y=").to_string()) } else { None }
        });
        assert_eq!(read_cookie(h, "y="), expected, "{:?}", h);
    }
}
