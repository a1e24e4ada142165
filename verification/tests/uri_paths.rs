//! Project API URL path validation, exercised through real parsed URLs.

use raystack::has_valid_path_segments;
use raystack::uri::{needs_trailing_slash, project_name_of_path};
use url::Url;

#[test]
fn has_valid_path_segments_works() {
    let good_url = Url::parse("http://www.test.com/api/proj/").unwrap();
    assert!(has_valid_path_segments(good_url.path()));
    let bad_url1 = Url::parse("http://www.test.com/api/proj").unwrap();
    assert!(!has_valid_path_segments(bad_url1.path()));
    let bad_url2 = Url::parse("http://www.test.com/api/").unwrap();
    assert!(!has_valid_path_segments(bad_url2.path()));
    let bad_url3 = Url::parse("http://www.test.com/api/proj/extra").unwrap();
    assert!(!has_valid_path_segments(bad_url3.path()));
    let bad_url4 = Url::parse("http://www.test.com").unwrap();
    assert!(!has_valid_path_segments(bad_url4.path()));
    let bad_url5 = Url::parse("http://www.test.com/api//extra").unwrap();
    assert!(!has_valid_path_segments(bad_url5.path()));
}

#[test]
fn empty_project_name_is_invalid() {
    let url = Url::parse("http://www.test.com/api//").unwrap();
    assert!(!has_valid_path_segments(url.path()));
}

#[test]
fn project_name_is_second_segment() {
    assert_eq!(project_name_of_path("/api/bigProject/"), "bigProject");
}

#[test]
fn trailing_slash_need_is_detected() {
    assert!(needs_trailing_slash("http://www.example.com/api/proj"));
    assert!(!needs_trailing_slash("http://www.example.com/api/proj/"));
}
