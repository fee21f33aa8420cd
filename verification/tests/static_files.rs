use aitch::handlers::static_files::{handle_io_errors, match_file, serve_file};
use aitch::{Error, ErrorKind, ResponseBuilder};

fn canonicalize(path: String) -> Result<String, Error> {
    let mut parts: Vec<&str> = Vec::new();
    for part in path.split('/') {
        match part {
            "" | "." => {}
            ".." => {
                parts.pop();
            }
            other => parts.push(other),
        }
    }
    let resolved = format!("/{}", parts.join("/"));
    match resolved.as_str() {
        "/examples" | "/examples/static-files" | "/examples/static-files/hello.txt"
        | "/Cargo.toml" => Ok(resolved),
        _ => Err(Error::new(ErrorKind::Io)),
    }
}

#[test]
fn match_file_in_directory() {
    let root = canonicalize(format!("/{}", "examples")).unwrap();
    let path = match_file(&root, "/static-files", &canonicalize).unwrap();
    let expected = std::path::Path::new(&root).join("static-files");
    assert_eq!(path.as_str(), expected.to_str().unwrap());
}

#[test]
fn match_file_directory_traversal_attack() {
    let path = canonicalize(format!("/{}", "examples")).unwrap();
    let result = match_file(&path, "../Cargo.toml", &canonicalize);
    assert!(result.is_err());
}

#[test]
fn match_file_rejects_what_resolves_outside_the_root() {
    let root = "/examples";
    assert_eq!(canonicalize("/examples/../Cargo.toml".to_owned()), Ok("/Cargo.toml".to_owned()));
    let result = match_file(root, "/../Cargo.toml", &canonicalize);
    assert_eq!(result, Err(Error { kind: ErrorKind::Io }));
}

#[test]
fn match_file_takes_whole_components_only() {
    let resolve = |_: String| Ok::<String, Error>("/examples-other/file".to_owned());
    assert_eq!(match_file("/examples", "/file", &resolve), Err(Error { kind: ErrorKind::Io }));
}

#[test]
fn match_file_hands_on_the_failure_to_resolve() {
    let resolve = |_: String| Err::<String, Error>(Error::new(ErrorKind::Transport));
    assert_eq!(
        match_file("/examples", "/file", &resolve),
        Err(Error { kind: ErrorKind::Transport })
    );
    assert_eq!(
        match_file("/examples", "/missing", &canonicalize),
        Err(Error { kind: ErrorKind::Io })
    );
}

#[test]
fn match_file_resolves_the_path_below_the_root() {
    let echo = |path: String| Ok::<String, Error>(path);
    assert_eq!(match_file("/srv/www", "/a/b.txt", &echo), Ok("/srv/www/a/b.txt".to_owned()));
    assert_eq!(match_file("/srv/www", "/", &echo), Ok("/srv/www/".to_owned()));
}

#[test]
fn io_failures_become_404() {
    let resp = handle_io_errors(Error::new(ErrorKind::Io)).unwrap();
    assert_eq!(resp.status().as_u16(), 404);
    assert_eq!(resp.headers().len(), 0);
    assert_eq!(resp.body(), "404 - not found");
}

#[test]
fn other_failures_stay_failures() {
    for kind in [
        ErrorKind::Utf8,
        ErrorKind::Json,
        ErrorKind::InvalidStatusCode,
        ErrorKind::InvalidHeaderName,
        ErrorKind::InvalidHeaderValue,
        ErrorKind::InvalidMethod,
        ErrorKind::InvalidUri,
        ErrorKind::UnsupportedVersion,
        ErrorKind::Transport,
        ErrorKind::Handler,
    ] {
        assert_eq!(handle_io_errors(Error::new(kind)).err(), Some(Error { kind }));
    }
}

#[test]
fn served_file_has_a_guessed_content_type() {
    let resp = serve_file("/www/index.html", ResponseBuilder::new(), Ok(b"<html>".to_vec()))
        .ok()
        .unwrap();
    assert_eq!(resp.status().as_u16(), 200);
    assert_eq!(resp.headers().len(), 1);
    assert_eq!(resp.headers().name_at(0), "content-type");
    assert_eq!(resp.headers().value_at(0), b"text/html");
    assert_eq!(resp.body(), &b"<html>".to_vec());

    let resp =
        serve_file("/www/blob", ResponseBuilder::new(), Ok(Vec::new())).ok().unwrap();
    assert_eq!(resp.headers().value_at(0), b"application/octet-stream");
}

#[test]
fn unread_file_is_not_served() {
    let out = serve_file("/www/index.html", ResponseBuilder::new(), Err(Error::new(ErrorKind::Io)));
    assert_eq!(out.err(), Some(Error { kind: ErrorKind::Io }));
}

#[test]
fn served_file_keeps_what_the_builder_has() {
    let resp = serve_file(
        "/www/a.json",
        ResponseBuilder::new().status(203).header("X-First", "1"),
        Ok(b"{}".to_vec()),
    )
    .ok()
    .unwrap();
    assert_eq!(resp.status().as_u16(), 203);
    assert_eq!(resp.headers().len(), 2);
    assert_eq!(resp.headers().name_at(0), "x-first");
    assert_eq!(resp.headers().name_at(1), "content-type");
    assert_eq!(resp.headers().value_at(1), b"application/json");

    let out = serve_file("/www/a.json", ResponseBuilder::new().status(99), Ok(Vec::new()));
    assert_eq!(out.err(), Some(Error { kind: ErrorKind::InvalidStatusCode }));
}
