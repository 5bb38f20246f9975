use image_picker::reply::{
    newest_reply, random_reply, reply_for, reply_for_relative, Reply, FAILURE_TEXT, NOT_FOUND_TEXT,
};
use image_picker::search::ScanError;
use image_picker::select::Candidate;

fn location_of(reply: &Reply) -> String {
    match reply {
        Reply::Redirect { location } => location.clone(),
        other => panic!("expected a redirect, got {:?}", other),
    }
}

#[test]
fn match_below_root_redirects_to_images_route() {
    let picked = Some("/data/images/2024/a.jpg".to_string());
    let reply = reply_for("/data/images", &picked);
    assert_eq!(location_of(&reply), "/images/2024/a.jpg");
    assert_eq!(reply.status(), 307);
    assert_eq!(reply.location(), Some("/images/2024/a.jpg".to_string()));
    assert_eq!(reply.body(), "");
}

#[test]
fn root_with_trailing_separator_gives_the_same_target() {
    let picked = Some("/data/images/2024/a.jpg".to_string());
    let reply = reply_for("/data/images/", &picked);
    assert_eq!(location_of(&reply), "/images/2024/a.jpg");
}

#[test]
fn file_directly_below_root() {
    let picked = Some("/data/images/a.jpg".to_string());
    assert_eq!(location_of(&reply_for("/data/images", &picked)), "/images/a.jpg");
}

#[test]
fn relative_root_and_relative_match() {
    let picked = Some("pictures/2023/b.jpg".to_string());
    assert_eq!(location_of(&reply_for("pictures", &picked)), "/images/2023/b.jpg");
}

#[test]
fn match_beside_root_is_a_failure() {
    let picked = Some("/data/other/a.jpg".to_string());
    let reply = reply_for("/data/images", &picked);
    assert!(matches!(reply, Reply::Failure));
    assert_eq!(reply.status(), 500);
    assert_eq!(reply.location(), None);
}

#[test]
fn match_above_root_is_a_failure() {
    let picked = Some("/data/a.jpg".to_string());
    assert!(matches!(reply_for("/data/images", &picked), Reply::Failure));
}

#[test]
fn absolute_match_under_relative_root_is_a_failure() {
    let picked = Some("/etc/x.jpg".to_string());
    let reply = reply_for("images", &picked);
    assert!(matches!(reply, Reply::Failure));
    assert_eq!(reply.status(), 500);
}

#[test]
fn relative_path_that_leaves_the_root_is_a_failure() {
    for leaving in ["../other/x.jpg", "..", "../", "a/../../b.jpg", "a/..", "/etc/x.jpg", "/"] {
        let reply = reply_for_relative(Some(leaving.to_string()));
        assert!(matches!(reply, Reply::Failure), "{} was answered with {:?}", leaving, reply);
    }
}

#[test]
fn dots_inside_a_name_do_not_leave_the_root() {
    for staying in ["a..b/c.jpg", "..a/b.jpg", "a../b.jpg", ".../x.jpg", "./x.jpg", ".hidden.jpg"] {
        let reply = reply_for_relative(Some(staying.to_string()));
        assert_eq!(location_of(&reply), format!("/images/{}", staying));
    }
}

#[test]
fn newest_request_for_file_outside_root_is_a_failure() {
    let scan: Result<Vec<Candidate>, ScanError> =
        Ok(vec![Candidate { path: "/data/other/x.jpg".to_string(), created: 1 }]);
    assert!(matches!(newest_reply("/data/images", &scan), Reply::Failure));
}

#[test]
fn random_request_for_file_outside_root_is_a_failure() {
    let scan: Result<Vec<String>, ScanError> = Ok(vec!["/data/other/x.jpg".to_string()]);
    for _ in 0..20 {
        assert!(matches!(random_reply("/data/images", &scan), Reply::Failure));
    }
}

#[test]
fn no_selection_is_not_found() {
    let reply = reply_for("/data/images", &None);
    assert!(matches!(reply, Reply::NotFound));
    assert_eq!(reply.status(), 404);
    assert_eq!(reply.body(), "No image found");
    assert_eq!(reply.location(), None);
}

#[test]
fn relative_match_under_absolute_root_is_a_failure() {
    let picked = Some("2024/a.jpg".to_string());
    let reply = reply_for("/data/images", &picked);
    assert!(matches!(reply, Reply::Failure));
    assert_eq!(reply.status(), 500);
    assert_eq!(reply.body(), FAILURE_TEXT);
    assert_eq!(reply.location(), None);
}

#[test]
fn root_that_climbs_is_a_failure() {
    let picked = Some("a/b.jpg".to_string());
    assert!(matches!(reply_for("../x", &picked), Reply::Failure));
}

#[test]
fn reply_for_relative_prefixes_the_route() {
    let reply = reply_for_relative(Some("2024/a.jpg".to_string()));
    assert_eq!(location_of(&reply), "/images/2024/a.jpg");
    let empty = reply_for_relative(Some(String::new()));
    assert_eq!(location_of(&empty), "/images/");
    assert!(matches!(reply_for_relative(None), Reply::Failure));
}

#[test]
fn texts_of_the_answers() {
    assert_eq!(NOT_FOUND_TEXT, "No image found");
    assert_eq!(Reply::NotFound.body(), NOT_FOUND_TEXT);
    assert_eq!(Reply::Failure.body(), FAILURE_TEXT);
    assert_eq!(Reply::Redirect { location: "/images/a.jpg".to_string() }.body(), "");
}

#[test]
fn statuses_of_the_answers() {
    assert_eq!(Reply::Redirect { location: "/images/a.jpg".to_string() }.status(), 307);
    assert_eq!(Reply::NotFound.status(), 404);
    assert_eq!(Reply::Failure.status(), 500);
}

#[test]
fn newest_request_with_empty_search_is_not_found() {
    let scan: Result<Vec<Candidate>, ScanError> = Ok(Vec::new());
    let reply = newest_reply("/data/images", &scan);
    assert!(matches!(reply, Reply::NotFound));
    assert_eq!(reply.status(), 404);
    assert_eq!(reply.body(), "No image found");
}

#[test]
fn random_request_with_empty_search_is_not_found() {
    let scan: Result<Vec<String>, ScanError> = Ok(Vec::new());
    let reply = random_reply("/data/images", &scan);
    assert!(matches!(reply, Reply::NotFound));
    assert_eq!(reply.status(), 404);
    assert_eq!(reply.body(), "No image found");
}

#[test]
fn failed_search_is_a_failure() {
    for error in [
        ScanError::OutsideRoot,
        ScanError::BadPattern,
        ScanError::Unreadable,
        ScanError::NoTimestamp,
    ] {
        let newest: Result<Vec<Candidate>, ScanError> = Err(error);
        assert!(matches!(newest_reply("/data/images", &newest), Reply::Failure));
        let random: Result<Vec<String>, ScanError> = Err(error);
        assert!(matches!(random_reply("/data/images", &random), Reply::Failure));
    }
}

#[test]
fn newest_request_redirects_to_the_newest() {
    let scan: Result<Vec<Candidate>, ScanError> = Ok(vec![
        Candidate { path: "/data/images/2022/old.jpg".to_string(), created: 10 },
        Candidate { path: "/data/images/2024/new.jpg".to_string(), created: 30 },
        Candidate { path: "/data/images/2023/mid.jpg".to_string(), created: 20 },
        Candidate { path: "/data/images/2024/twin.jpg".to_string(), created: 30 },
    ]);
    let reply = newest_reply("/data/images", &scan);
    assert_eq!(location_of(&reply), "/images/2024/new.jpg");
    assert_eq!(reply.status(), 307);
}

#[test]
fn random_request_redirects_to_one_of_the_files() {
    let files = vec![
        "/data/images/2022/a.jpg".to_string(),
        "/data/images/2023/b.jpg".to_string(),
        "/data/images/2024/c.jpg".to_string(),
    ];
    let allowed = ["/images/2022/a.jpg", "/images/2023/b.jpg", "/images/2024/c.jpg"];
    let scan: Result<Vec<String>, ScanError> = Ok(files);
    let mut seen = [false; 3];
    for _ in 0..600 {
        let target = location_of(&random_reply("/data/images", &scan));
        let at = allowed.iter().position(|a| *a == target).expect("a target of a found file");
        seen[at] = true;
    }
    assert_eq!(seen, [true, true, true]);
}
