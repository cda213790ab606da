use wasmrun::mime::ContentType;
use wasmrun::reload::ReloadState;
use wasmrun::router::{
    asset_location, assets_root, check_assets_directory, client_address, handle_request, handle_webapp_request, output_listed, output_probed,
    resolve, serve_asset, serve_file, AssetError, AssetRoot, DirEntry, RouteKind, RoutePlan,
    RouteResult, ServingMode,
};
use wasmrun::session::ServerSession;

const HTML: &str = "<!doctype html><title>demo</title>";

fn session(watch: bool, glue: Option<&str>) -> ServerSession {
    ServerSession {
        process_id: 4242,
        listen_port: 8420,
        primary_artifact_path: "build/app.wasm".to_string(),
        glue_script_path: glue.map(|g| g.to_string()),
        watch_mode_enabled: watch,
        output_directory: "build".to_string(),
    }
}

fn entry(name: &str, is_file: bool) -> DirEntry {
    DirEntry { name: name.to_string(), is_file }
}

fn respond(plan: RoutePlan) -> RouteResult {
    match plan {
        RoutePlan::Respond(result) => result,
        other => panic!("expected an answer, got {:?}", other),
    }
}

#[test]
fn artifact_is_served_with_its_bytes() {
    let session = ServerSession {
        process_id: 1,
        listen_port: 8080,
        primary_artifact_path: "app.wasm".to_string(),
        glue_script_path: None,
        watch_mode_enabled: false,
        output_directory: ".".to_string(),
    };
    let mut reload = ReloadState::new();
    let plan = handle_request(&session, HTML, &mut reload, "/app.wasm", "127.0.0.1:50000");
    assert_eq!(
        plan,
        RoutePlan::ReadFile {
            kind: RouteKind::PrimaryArtifact,
            path: "app.wasm".to_string(),
            content_type: ContentType::Wasm,
        }
    );
    let bytes: Vec<u8> = vec![0, 97, 115, 109, 1, 0, 0, 0, 7, 9];
    let result = serve_file(RouteKind::PrimaryArtifact, ContentType::Wasm, Ok(bytes.clone()));
    assert_eq!(result.status, 200);
    assert_eq!(result.body, bytes);
    assert_eq!(result.body.len(), 10);
    assert_eq!(result.content_type.as_str(), "application/wasm");
    assert_eq!(result.kind, RouteKind::PrimaryArtifact);
}

#[test]
fn missing_file_is_not_found() {
    let session = ServerSession {
        process_id: 1,
        listen_port: 8080,
        primary_artifact_path: "app.wasm".to_string(),
        glue_script_path: None,
        watch_mode_enabled: false,
        output_directory: ".".to_string(),
    };
    let mut reload = ReloadState::new();
    let plan = handle_request(&session, HTML, &mut reload, "/missing.txt", "127.0.0.1:50000");
    assert_eq!(plan, RoutePlan::ProbeOutput { path: "./missing.txt".to_string() });
    let result = respond(output_probed(&session, ServingMode::Module, HTML, "/missing.txt", false));
    assert_eq!(result.status, 404);
    assert_eq!(result.kind, RouteKind::NotFound);
    assert_eq!(result.content_type, ContentType::Plain);
    assert_eq!(result.body, b"404 Not Found".to_vec());
    assert!(String::from_utf8(result.body).unwrap().contains("404"));
}

#[test]
fn root_serves_the_entry_page() {
    for watch in [false, true] {
        let session = session(watch, None);
        let mut reload = ReloadState::new();
        let result = respond(handle_request(&session, HTML, &mut reload, "/", "10.0.0.1:1"));
        assert_eq!(result.status, 200);
        assert_eq!(result.content_type, ContentType::Html);
        assert_eq!(result.content_type.as_str(), "text/html");
        assert_eq!(result.kind, RouteKind::EntryPage);
        assert_eq!(result.body, HTML.as_bytes().to_vec());
        assert!(!result.reload_needed);
    }
}

#[test]
fn root_records_the_client_once_in_watch_mode() {
    let session = session(true, None);
    let mut reload = ReloadState::new();
    for _ in 0..3 {
        handle_request(&session, HTML, &mut reload, "/", "10.0.0.1:1");
    }
    handle_request(&session, HTML, &mut reload, "/", "10.0.0.2:1");
    handle_request(&session, HTML, &mut reload, "/", "10.0.0.1:1");
    assert_eq!(
        reload.observed_clients(),
        &vec!["10.0.0.1:1".to_string(), "10.0.0.2:1".to_string()]
    );
    assert_eq!(reload.client_count(), 2);
}

#[test]
fn root_records_nothing_outside_watch_mode() {
    let session = session(false, None);
    let mut reload = ReloadState::new();
    handle_request(&session, HTML, &mut reload, "/", "10.0.0.1:1");
    assert_eq!(reload.client_count(), 0);
}

#[test]
fn other_paths_record_no_client() {
    let session = session(true, None);
    let mut reload = ReloadState::new();
    handle_request(&session, HTML, &mut reload, "/app.wasm", "10.0.0.1:1");
    handle_request(&session, HTML, &mut reload, "/assets/a.png", "10.0.0.1:1");
    handle_request(&session, HTML, &mut reload, "/other.js", "10.0.0.1:1");
    assert_eq!(reload.client_count(), 0);
}

#[test]
fn poll_outside_watch_mode_says_not_watching() {
    let session = session(false, None);
    for url in ["/reload", "/reload-check"] {
        for pending in [false, true] {
            let mut reload = ReloadState::new();
            if pending {
                reload.notify_rebuild();
            }
            let result = respond(handle_request(&session, HTML, &mut reload, url, "c"));
            assert_eq!(result.body, b"not-watching".to_vec());
            assert_eq!(result.status, 200);
            assert_eq!(result.content_type.as_str(), "text/plain");
            assert_eq!(result.kind, RouteKind::ReloadPoll);
            assert!(!result.reload_needed);
            assert!(!result.no_cache);
            assert_eq!(reload.is_pending(), pending);
        }
    }
}

#[test]
fn rebuild_is_signalled_to_the_first_poll_only() {
    let session = session(true, None);
    let mut reload = ReloadState::new();
    reload.notify_rebuild();
    reload.notify_rebuild();
    let first = respond(handle_webapp_request(&session, HTML, &mut reload, "/reload-check", "c"));
    assert!(first.reload_needed);
    assert_eq!(first.body, b"reload".to_vec());
    assert!(first.no_cache);
    assert!(!reload.is_pending());
    let second = respond(handle_webapp_request(&session, HTML, &mut reload, "/reload-check", "c"));
    assert!(!second.reload_needed);
    assert_eq!(second.body, b"no-reload".to_vec());
    assert!(!reload.is_pending());
    reload.notify_rebuild();
    let third = respond(handle_request(&session, HTML, &mut reload, "/reload", "c"));
    assert!(third.reload_needed);
}

#[test]
fn poll_headers_carry_the_signal() {
    let session = session(true, None);
    let mut reload = ReloadState::new();
    reload.notify_rebuild();
    let first = respond(handle_request(&session, HTML, &mut reload, "/reload-check", "c"));
    assert_eq!(
        first.headers(),
        vec![
            ("Content-Type".to_string(), "text/plain".to_string()),
            (
                "Cache-Control".to_string(),
                "no-cache, no-store, must-revalidate".to_string()
            ),
            ("X-Reload-Needed".to_string(), "true".to_string()),
        ]
    );
    let second = respond(handle_request(&session, HTML, &mut reload, "/reload-check", "c"));
    assert_eq!(
        second.headers(),
        vec![
            ("Content-Type".to_string(), "text/plain".to_string()),
            (
                "Cache-Control".to_string(),
                "no-cache, no-store, must-revalidate".to_string()
            ),
        ]
    );
    let page = respond(handle_request(&session, HTML, &mut reload, "/", "c"));
    assert_eq!(page.headers(), vec![("Content-Type".to_string(), "text/html".to_string())]);
}

#[test]
fn glue_script_is_served_under_its_name() {
    let session = session(false, Some("build/pkg/app.js"));
    let mut reload = ReloadState::new();
    let plan = handle_request(&session, HTML, &mut reload, "/app.js", "c");
    assert_eq!(
        plan,
        RoutePlan::ReadFile {
            kind: RouteKind::GlueScript,
            path: "build/pkg/app.js".to_string(),
            content_type: ContentType::JavaScript,
        }
    );
    let result = serve_file(RouteKind::GlueScript, ContentType::JavaScript, Ok(b"init()".to_vec()));
    assert_eq!(result.content_type.as_str(), "application/javascript");
    assert_eq!(result.status, 200);
}

#[test]
fn glue_script_rule_needs_a_glue_script() {
    let session = session(false, None);
    let mut reload = ReloadState::new();
    let plan = handle_request(&session, HTML, &mut reload, "/app.js", "c");
    assert_eq!(plan, RoutePlan::ProbeOutput { path: "build/app.js".to_string() });
}

#[test]
fn artifact_rule_comes_before_the_reload_rule() {
    let session = ServerSession {
        process_id: 1,
        listen_port: 8080,
        primary_artifact_path: "out/reload".to_string(),
        glue_script_path: None,
        watch_mode_enabled: false,
        output_directory: "out".to_string(),
    };
    let mut reload = ReloadState::new();
    let plan = handle_request(&session, HTML, &mut reload, "/reload", "c");
    assert_eq!(
        plan,
        RoutePlan::ReadFile {
            kind: RouteKind::PrimaryArtifact,
            path: "out/reload".to_string(),
            content_type: ContentType::Wasm,
        }
    );
}

#[test]
fn paths_are_case_sensitive() {
    let session = session(true, None);
    let mut reload = ReloadState::new();
    let plan = handle_request(&session, HTML, &mut reload, "/Reload", "c");
    assert_eq!(plan, RoutePlan::ProbeOutput { path: "build/Reload".to_string() });
    let plan = handle_request(&session, HTML, &mut reload, "/App.wasm", "c");
    assert_eq!(plan, RoutePlan::ProbeOutput { path: "build/App.wasm".to_string() });
}

#[test]
fn assets_resolve_under_the_assets_root() {
    let session = session(false, None);
    let mut reload = ReloadState::new();
    let plan = handle_request(&session, HTML, &mut reload, "/assets/img/logo.png", "c");
    assert_eq!(
        plan,
        RoutePlan::ReadAsset {
            path: "./assets/img/logo.png".to_string(),
            content_type: ContentType::Png,
        }
    );
    let plan = handle_webapp_request(&session, HTML, &mut reload, "/assets/", "c");
    assert_eq!(
        plan,
        RoutePlan::ReadAsset {
            path: "./assets/".to_string(),
            content_type: ContentType::OctetStream,
        }
    );
}

#[test]
fn asset_location_is_total() {
    assert_eq!(asset_location("/assets/a/b.png"), "./assets/a/b.png");
    assert_eq!(asset_location("/assets/"), "./assets/");
    assert_eq!(asset_location("/elsewhere/a.png"), "./assets/");
    assert_eq!(assets_root(), "./assets");
}

#[test]
fn asset_is_served_or_not_found() {
    let served = serve_asset("/assets/site.css", Ok(b"body{}".to_vec()));
    assert_eq!(served.status, 200);
    assert_eq!(served.kind, RouteKind::AssetFile);
    assert_eq!(served.content_type.as_str(), "text/css");
    assert_eq!(served.body, b"body{}".to_vec());
    let missing = serve_asset("/assets/site.css", Err("No such file or directory".to_string()));
    assert_eq!(missing.status, 404);
    assert_eq!(missing.kind, RouteKind::AssetFile);
    assert_eq!(missing.content_type.as_str(), "text/plain");
    assert_eq!(missing.body, b"Asset not found: No such file or directory".to_vec());
}

#[test]
fn asset_failure_is_diagnosed() {
    assert_eq!(check_assets_directory(AssetRoot::Missing), AssetError::RootMissing);
    assert_eq!(check_assets_directory(AssetRoot::NotADirectory), AssetError::RootNotADirectory);
    assert_eq!(check_assets_directory(AssetRoot::Directory), AssetError::FileMissing);
    assert_eq!(
        AssetError::RootMissing.message(),
        "The assets directory doesn't exist at the expected location!"
    );
    assert_eq!(
        AssetError::FileMissing.message(),
        "The assets directory exists, but the specific file wasn't found"
    );
    assert_eq!(AssetError::RootNotADirectory.message(), "Found 'assets' but it's not a directory!");
}

#[test]
fn unreadable_file_is_an_internal_error() {
    let result = serve_file(RouteKind::OutputFile, ContentType::Css, Err("permission denied".to_string()));
    assert_eq!(result.status, 500);
    assert_eq!(result.kind, RouteKind::OutputFile);
    assert_eq!(result.content_type, ContentType::Plain);
    assert_eq!(result.body, b"Error: permission denied".to_vec());
}

#[test]
fn output_file_is_served_by_extension() {
    let session = session(false, None);
    let mut reload = ReloadState::new();
    let plan = handle_request(&session, HTML, &mut reload, "/pkg/data.json", "c");
    assert_eq!(plan, RoutePlan::ProbeOutput { path: "build/pkg/data.json".to_string() });
    let plan = output_probed(&session, ServingMode::Module, HTML, "/pkg/data.json", true);
    assert_eq!(
        plan,
        RoutePlan::ReadFile {
            kind: RouteKind::OutputFile,
            path: "build/pkg/data.json".to_string(),
            content_type: ContentType::Json,
        }
    );
}

#[test]
fn leading_slashes_do_not_make_a_path_absolute() {
    let session = session(false, None);
    let mut reload = ReloadState::new();
    let plan = handle_request(&session, HTML, &mut reload, "//etc/passwd", "c");
    assert_eq!(plan, RoutePlan::ProbeOutput { path: "build/etc/passwd".to_string() });
}

#[test]
fn traversal_is_never_probed_nor_served() {
    let session = session(false, None);
    let mut reload = ReloadState::new();
    for url in ["/../secret.txt", "/a/../../secret.txt", "/..", "/a/.."] {
        let result = respond(handle_request(&session, HTML, &mut reload, url, "c"));
        assert_eq!(result.status, 404);
        let result = respond(output_probed(&session, ServingMode::Module, HTML, url, true));
        assert_eq!(result.status, 404);
    }
    let plan = handle_request(&session, HTML, &mut reload, "/a..b/..c", "c");
    assert_eq!(plan, RoutePlan::ProbeOutput { path: "build/a..b/..c".to_string() });
}

#[test]
fn generated_binary_is_found_by_its_suffix() {
    let session = session(false, None);
    let mut reload = ReloadState::new();
    let url = "/demo_1f3a_bg.wasm";
    let plan = handle_request(&session, HTML, &mut reload, url, "c");
    assert_eq!(plan, RoutePlan::ProbeOutput { path: "build/demo_1f3a_bg.wasm".to_string() });
    let plan = output_probed(&session, ServingMode::Module, HTML, url, false);
    assert_eq!(plan, RoutePlan::ListOutput { directory: "build".to_string() });
    let entries = vec![
        entry("index.html", true),
        entry("old_bg.wasm", false),
        entry("demo_77aa_bg.wasm", true),
        entry("readme.md", true),
    ];
    let plan = output_listed(&session, ServingMode::Module, HTML, url, &entries);
    assert_eq!(
        plan,
        RoutePlan::ReadFile {
            kind: RouteKind::PrimaryArtifact,
            path: "build/demo_77aa_bg.wasm".to_string(),
            content_type: ContentType::Wasm,
        }
    );
    let result = serve_file(RouteKind::PrimaryArtifact, ContentType::Wasm, Ok(vec![1, 2, 3]));
    assert_eq!(result.content_type.as_str(), "application/wasm");
    assert_eq!(result.status, 200);
}

#[test]
fn first_generated_binary_wins() {
    let session = session(false, None);
    let entries = vec![entry("b_bg.wasm", true), entry("a_bg.wasm", true)];
    let plan = output_listed(&session, ServingMode::Module, HTML, "/x_bg.wasm", &entries);
    assert_eq!(
        plan,
        RoutePlan::ReadFile {
            kind: RouteKind::PrimaryArtifact,
            path: "build/b_bg.wasm".to_string(),
            content_type: ContentType::Wasm,
        }
    );
}

#[test]
fn no_generated_binary_is_not_found() {
    let session = session(false, None);
    let entries = vec![entry("index.html", true), entry("dir_bg.wasm", false), entry("app.wasm", true)];
    let result = respond(output_listed(&session, ServingMode::Module, HTML, "/x_bg.wasm", &entries));
    assert_eq!(result.status, 404);
    let result = respond(output_listed(&session, ServingMode::Module, HTML, "/x_bg.wasm", &Vec::new()));
    assert_eq!(result.status, 404);
    assert_eq!(result.body, b"404 Not Found".to_vec());
}

#[test]
fn listing_is_ignored_for_other_names() {
    let session = session(false, None);
    let entries = vec![entry("a_bg.wasm", true)];
    let result = respond(output_listed(&session, ServingMode::Module, HTML, "/x.wasm", &entries));
    assert_eq!(result.status, 404);
}

#[test]
fn web_application_falls_back_to_the_entry_page() {
    let session = session(true, None);
    let mut reload = ReloadState::new();
    let plan = handle_webapp_request(&session, HTML, &mut reload, "/settings/profile", "c");
    assert_eq!(plan, RoutePlan::ProbeOutput { path: "build/settings/profile".to_string() });
    let result = respond(output_probed(&session, ServingMode::WebApp, HTML, "/settings/profile", false));
    assert_eq!(result.status, 200);
    assert_eq!(result.kind, RouteKind::EntryPage);
    assert_eq!(result.content_type, ContentType::Html);
    assert_eq!(result.body, HTML.as_bytes().to_vec());
    assert_eq!(reload.client_count(), 0);
    let result = respond(output_listed(&session, ServingMode::WebApp, HTML, "/x_bg.wasm", &Vec::new()));
    assert_eq!(result.kind, RouteKind::EntryPage);
}

#[test]
fn both_modes_agree_until_the_fallback() {
    let session = session(true, Some("build/app.js"));
    for url in ["/", "/app.wasm", "/app.js", "/reload", "/assets/x.gif", "/x/y.css"] {
        let mut a = ReloadState::new();
        let mut b = ReloadState::new();
        let first = resolve(&session, ServingMode::Module, HTML, &mut a, url, "c");
        let second = resolve(&session, ServingMode::WebApp, HTML, &mut b, url, "c");
        assert_eq!(first, second);
        assert_eq!(a.observed_clients(), b.observed_clients());
    }
}

#[test]
fn client_without_an_address_is_unknown() {
    assert_eq!(client_address(Some("127.0.0.1:51234")), "127.0.0.1:51234");
    assert_eq!(client_address(None), "unknown");
    let session = session(true, None);
    let mut reload = ReloadState::new();
    handle_request(&session, HTML, &mut reload, "/", &client_address(None));
    handle_request(&session, HTML, &mut reload, "/", &client_address(None));
    assert_eq!(reload.observed_clients(), &vec!["unknown".to_string()]);
}
