use tokimo_app_helloworld::assets::{deliver, handle, normalise, AssetError, AssetOutcome, AssetSource, GetReq};

#[test]
fn normalise_empty_path_is_index() {
    assert_eq!(normalise(""), "index.html");
    assert_eq!(normalise("/"), "index.html");
    assert_eq!(normalise("///"), "index.html");
}

#[test]
fn normalise_strips_leading_slashes() {
    assert_eq!(normalise("/css/app.css"), "css/app.css");
    assert_eq!(normalise("///a/b"), "a/b");
    assert_eq!(normalise("app.js"), "app.js");
}

#[test]
fn normalise_directory_gets_index() {
    assert_eq!(normalise("docs/"), "docs/index.html");
    assert_eq!(normalise("/docs/sub/"), "docs/sub/index.html");
    assert_eq!(normalise("é/"), "é/index.html");
}

#[test]
fn normalise_keeps_inner_slashes() {
    assert_eq!(normalise("a//b"), "a//b");
    assert_eq!(normalise("/a//"), "a//index.html");
}

#[test]
fn normalise_is_idempotent() {
    for p in ["", "/", "//x/", "a/b", "/a/", "dir//", "index.html"] {
        let once = normalise(p);
        assert_eq!(normalise(&once), once);
    }
}

#[test]
fn normalise_ignores_a_leading_slash() {
    for p in ["", "a", "a/", "/b", "x/y.css"] {
        let with = format!("/{p}");
        assert_eq!(normalise(&with), normalise(p));
    }
}

#[test]
fn handle_bad_body_is_bad_request() {
    match handle(Err("expected value at line 1".to_string()), None) {
        Err(AssetError::BadRequest(m)) => assert_eq!(m, "assets.get: expected value at line 1"),
        _ => panic!("expected a bad request"),
    }
}

#[test]
fn handle_reads_from_dev_dir_when_set() {
    let req = GetReq { path: "/js/".to_string() };
    match handle(Ok(req), Some("/srv/ui".to_string())) {
        Ok(AssetSource::Disk { dir, name }) => {
            assert_eq!(dir, "/srv/ui");
            assert_eq!(name, "js/index.html");
        }
        _ => panic!("expected a disk source"),
    }
}

#[test]
fn handle_reads_from_bundle_otherwise() {
    let req = GetReq { path: "/logo.svg".to_string() };
    match handle(Ok(req), None) {
        Ok(AssetSource::Embedded { name }) => assert_eq!(name, "logo.svg"),
        _ => panic!("expected an embedded source"),
    }
}

#[test]
fn deliver_loaded_bytes() {
    let src = AssetSource::Embedded { name: "a.css".to_string() };
    match deliver(&src, AssetOutcome::Loaded(vec![1, 2, 3])) {
        Ok(b) => assert_eq!(b, vec![1, 2, 3]),
        Err(_) => panic!("expected bytes"),
    }
}

#[test]
fn deliver_read_failure_names_asset() {
    let src = AssetSource::Disk { dir: "/srv".to_string(), name: "a.css".to_string() };
    match deliver(&src, AssetOutcome::ReadFailed("permission denied".to_string())) {
        Err(AssetError::Internal(m)) => assert_eq!(m, "asset a.css: permission denied"),
        _ => panic!("expected an internal error"),
    }
}

#[test]
fn deliver_missing_bundle_entry() {
    let src = AssetSource::Embedded { name: "x/index.html".to_string() };
    match deliver(&src, AssetOutcome::NotBundled) {
        Err(AssetError::Internal(m)) => assert_eq!(m, "embedded asset not found: x/index.html"),
        _ => panic!("expected an internal error"),
    }
}
