use tide::server::{ServeAction, ServeDir, Status};

#[test]
fn request_path_strips_prefix_and_leading_slashes() {
    let sd = ServeDir::new("/foo".to_string(), "/srv".to_string());
    assert_eq!(sd.request_path("/foo/bar/baz.txt"), "bar/baz.txt");
    assert_eq!(sd.request_path("/foo/foo/x"), "x");
    assert_eq!(sd.request_path("///a"), "a");
    assert_eq!(sd.request_path("/a/foo/b"), "a/b");
    assert_eq!(sd.request_path("/fo/fo"), "fo/fo");
    assert_eq!(sd.request_path(""), "");
}

#[test]
fn request_path_with_empty_prefix_only_trims() {
    let sd = ServeDir::new(String::new(), "/srv".to_string());
    assert_eq!(sd.request_path("//a/b"), "a/b");
    assert_eq!(sd.request_path("a/b/"), "a/b/");
}

#[test]
fn request_path_removes_occurrences_left_to_right() {
    let sd = ServeDir::new("aa".to_string(), "/srv".to_string());
    assert_eq!(sd.request_path("aaa"), "a");
    assert_eq!(sd.request_path("/aaaa/b"), "b");
}

#[test]
fn request_path_keeps_non_ascii_text() {
    let sd = ServeDir::new("/é".to_string(), "/srv".to_string());
    assert_eq!(sd.request_path("/é/ü/ñ"), "ü/ñ");
}

#[test]
fn target_joins_served_directory() {
    let sd = ServeDir::new("/foo".to_string(), "/srv/www".to_string());
    assert_eq!(sd.target("/foo/a.txt"), "/srv/www/a.txt");
    assert_eq!(sd.target("/foo//sub/b.txt"), "/srv/www/sub/b.txt");
    assert_eq!(sd.target("/foo"), "/srv/www/");
}

#[test]
fn missing_file_is_not_found() {
    assert_eq!(ServeDir::check("/srv/a.txt", None), ServeAction::Respond(Status::NotFound));
}

#[test]
fn file_under_request_is_opened() {
    assert_eq!(ServeDir::check("/srv/a.txt", Some("/srv/a.txt")), ServeAction::Open);
    assert_eq!(ServeDir::check("/srv/sub", Some("/srv/sub/index.html")), ServeAction::Open);
    assert_eq!(ServeDir::check("/srv//./a.txt", Some("/srv/a.txt")), ServeAction::Open);
}

#[test]
fn escaping_the_directory_is_forbidden() {
    assert_eq!(
        ServeDir::check("/srv/../etc/passwd", Some("/etc/passwd")),
        ServeAction::Respond(Status::Forbidden)
    );
    assert_eq!(
        ServeDir::check("/srv/link", Some("/other/place")),
        ServeAction::Respond(Status::Forbidden)
    );
    assert_eq!(
        ServeDir::check("/srv/a.txt", Some("/srv")),
        ServeAction::Respond(Status::Forbidden)
    );
}

#[test]
fn open_outcome_decides_status() {
    assert_eq!(ServeDir::opened(true), Status::Success);
    assert_eq!(ServeDir::opened(false), Status::Forbidden);
}

#[test]
fn status_codes() {
    assert_eq!(Status::Success.code(), 200);
    assert_eq!(Status::Forbidden.code(), 403);
    assert_eq!(Status::NotFound.code(), 404);
}

#[test]
fn call_decides_the_status() {
    let sd = ServeDir::new("/foo".to_string(), "/srv".to_string());
    assert_eq!(sd.call("/foo/a.txt", None, false), Status::NotFound);
    assert_eq!(sd.call("/foo/a.txt", Some("/srv/a.txt"), true), Status::Success);
    assert_eq!(sd.call("/foo/a.txt", Some("/srv/a.txt"), false), Status::Forbidden);
    assert_eq!(sd.call("/foo/../x", Some("/x"), true), Status::Forbidden);
    assert_eq!(sd.call("/foo/link", Some("/srv/other"), true), Status::Forbidden);
}

#[test]
fn relative_directory_is_never_served() {
    let sd = ServeDir::new("/foo".to_string(), "src/".to_string());
    assert_eq!(sd.target("/foo/lib.rs"), "src/lib.rs");
    assert_eq!(sd.call("/foo/lib.rs", Some("/home/x/src/lib.rs"), true), Status::Forbidden);
}

#[test]
fn served_file_lies_under_the_directory() {
    let sd = ServeDir::new("/foo".to_string(), "/srv/www".to_string());
    let target = sd.target("/foo/sub/a.txt");
    assert_eq!(ServeDir::check("/srv/www", Some(&target)), ServeAction::Open);
    assert_eq!(sd.call("/foo/sub/a.txt", Some("/srv/www/sub/a.txt"), true), Status::Success);
    assert_eq!(ServeDir::check("/srv/www", Some("/srv/www/sub/a.txt")), ServeAction::Open);
}
