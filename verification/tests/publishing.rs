use std::collections::VecDeque;

use cfsurge::access::Access;
use cfsurge::cancel::CancelGuard;
use cfsurge::collect::FileCollection;
use cfsurge::config::{AuthType, CliConfig, FileText};
use cfsurge::credentials::{
    asks_dotenv, read_basic_auth_from_cwd_dotenv, resolve_basic_auth_from_env,
    resolve_credentials, validate_basic_auth_credentials, BasicAuthPayload,
};
use cfsurge::dotenv::{
    is_escaped_dotenv_character, is_valid_dotenv_key, parse_dotenv_for_basic_auth,
    parse_dotenv_line, parse_dotenv_value, parse_double_quoted_dotenv_value,
    parse_single_quoted_dotenv_value, strip_trailing_dotenv_comment,
    unescape_double_quoted_dotenv_value, DotenvCredentials,
};
use cfsurge::files::{file_entry, guess_content_type, hex_digest, sort_files, FileEntry};
use cfsurge::http::{Method, Payload, Reply, Request};
use cfsurge::progress::{
    build_publish_progress_message, calculate_publish_progress_percent,
    calculate_scanning_percent, scanning_update, PublishProgressPhase, PublishProgressState,
    PublishSpinnerState,
};
use cfsurge::publish::{
    assert_slug_allowed, cancel_prepared_deployment, resolve_publish_target, warn_of_cancel,
    ActivateResponse, PrepareResponse, Publish, PublishAction, PublishEvent, PublishJob,
    UploadUrl,
};
use cfsurge::site::SiteConfig;

const API_BASE: &str = "http://127.0.0.1:8787";

fn words(args: &[&str]) -> Vec<String> {
    args.iter().map(|word| word.to_string()).collect()
}

fn text(value: &str) -> Option<String> {
    Some(value.to_string())
}

fn job(slug: &str, files: Vec<FileEntry>) -> PublishJob {
    PublishJob {
        api_base: API_BASE.to_string(),
        token: "token-publish".to_string(),
        slug: slug.to_string(),
        access: Access::Public,
        basic_auth: None,
        rotate_share_link: false,
        files,
    }
}

fn index() -> FileEntry {
    file_entry("index.html", b"<h1>hello</h1>", 14)
}

fn prepared(id: &str, uploads: &[(&str, &str)]) -> PublishEvent {
    PublishEvent::Prepared(Reply::Accepted(PrepareResponse {
        deployment_id: id.to_string(),
        upload_urls: uploads
            .iter()
            .map(|(path, url)| UploadUrl { path: path.to_string(), url: url.to_string() })
            .collect(),
    }))
}

fn activated(url: Option<&str>, share: Option<&str>) -> PublishEvent {
    PublishEvent::Activated(Reply::Accepted(ActivateResponse {
        served_url: url.map(|url| url.to_string()),
        public_url: None,
        share_url: share.map(|url| url.to_string()),
    }))
}

fn uploaded() -> PublishEvent {
    PublishEvent::Uploaded(Reply::Accepted(()))
}

fn refused<P>(status: u16, body: &str) -> Reply<P> {
    Reply::Refused { status, body: body.to_string() }
}

struct Outcome {
    actions: Vec<PublishAction>,
    progress: Vec<String>,
    result: Result<String, (String, Option<String>)>,
}

impl Outcome {
    fn cancels(&self) -> usize {
        self.actions
            .iter()
            .filter(|action| matches!(action, PublishAction::Cancel(_)))
            .count()
    }
}

fn run(job: PublishJob, events: Vec<PublishEvent>) -> Outcome {
    let mut events: VecDeque<PublishEvent> = events.into_iter().collect();
    let mut actions = Vec::new();
    let mut progress = Vec::new();
    let mut last_percent = 0;
    let mut report = |updates: Vec<PublishProgressState>| {
        for update in updates {
            let percent = calculate_publish_progress_percent(update, &mut last_percent);
            progress.push(build_publish_progress_message(percent, update));
        }
    };
    report(Publish::start_progress(&job));
    let mut state = Publish::start(job);
    let result = loop {
        match state.action() {
            PublishAction::Finish(lines) => break Ok(lines),
            PublishAction::Fail { error, warning } => break Err((error, warning)),
            action => actions.push(action),
        }
        let event = events.pop_front().expect("an event");
        report(state.progress(&event));
        state = state.next(event);
    };
    Outcome { actions, progress, result }
}

#[test]
fn publish_prepares_uploads_and_activates() {
    let own = format!("{API_BASE}/v1/projects/site-default/deployments/dep-1/files/index.html");
    let outcome = run(
        job("site-default", vec![index()]),
        vec![
            prepared("dep-1", &[("index.html", &own)]),
            uploaded(),
            activated(Some("https://site-default.example.test"), None),
        ],
    );
    assert_eq!(
        outcome.result,
        Ok("published site-default -> https://site-default.example.test".to_string())
    );
    assert_eq!(outcome.cancels(), 0);
    match &outcome.actions[0] {
        PublishAction::Prepare(request) => {
            assert_eq!(
                request.url,
                format!("{API_BASE}/v1/projects/site-default/deployments/prepare")
            );
            assert_eq!(request.authorization, "Bearer token-publish");
            assert_eq!(request.files, vec![index()]);
            assert_eq!(request.access, Access::Public);
            assert_eq!(request.basic_auth, None);
            assert!(!request.rotate_share_link);
        }
        other => panic!("unexpected {other:?}"),
    }
    match &outcome.actions[1] {
        PublishAction::Upload(request) => {
            assert_eq!(request.path, "index.html");
            assert_eq!(request.url, own);
            assert_eq!(request.content_type, "text/html; charset=utf-8");
            assert_eq!(request.authorization, text("Bearer token-publish"));
        }
        other => panic!("unexpected {other:?}"),
    }
    assert_eq!(
        outcome.actions[2],
        PublishAction::Activate(Request {
            method: Method::Post,
            url: format!("{API_BASE}/v1/projects/site-default/deployments/dep-1/activate"),
            authorization: text("Bearer token-publish"),
            payload: Payload::Nothing,
        })
    );
    assert_eq!(
        outcome.progress,
        words(&[
            "publish: 15% (0/0 uploads) preparing",
            "publish: 15% (0/1 uploads) uploading",
            "publish: 90% (1/1 uploads) uploading",
            "publish: 90% (1/1 uploads) activating",
            "publish: 100% (1/1 uploads) complete",
        ])
    );
}

#[test]
fn publish_prints_the_share_url() {
    let outcome = run(
        job("site", vec![index()]),
        vec![
            prepared("dep", &[]),
            activated(Some(" https://site.example.test "), Some("https://site.example.test/s/1")),
        ],
    );
    assert_eq!(
        outcome.result,
        Ok(
            "published site -> https://site.example.test\nshare url: https://site.example.test/s/1"
                .to_string()
        )
    );
    assert_eq!(
        outcome.progress,
        words(&[
            "publish: 15% (0/0 uploads) preparing",
            "publish: 15% (0/0 uploads) uploading",
            "publish: 90% (0/0 uploads) activating",
            "publish: 100% (0/0 uploads) complete",
        ])
    );
}

#[test]
fn publish_falls_back_to_the_public_url() {
    let outcome = run(
        job("site", vec![index()]),
        vec![
            prepared("dep", &[]),
            PublishEvent::Activated(Reply::Accepted(ActivateResponse {
                served_url: text("  "),
                public_url: text("https://public.example.test"),
                share_url: text(""),
            })),
        ],
    );
    assert_eq!(
        outcome.result,
        Ok("published site -> https://public.example.test".to_string())
    );
}

#[test]
fn uploads_elsewhere_do_not_carry_the_token() {
    let outcome = run(
        job("site", vec![index()]),
        vec![
            prepared("dep", &[("index.html", "https://bucket.example.test/index.html")]),
            uploaded(),
            activated(Some("https://site.example.test"), None),
        ],
    );
    match &outcome.actions[1] {
        PublishAction::Upload(request) => assert_eq!(request.authorization, None),
        other => panic!("unexpected {other:?}"),
    }
}

#[test]
fn publish_upload_failure_sends_one_cancel() {
    let outcome = run(
        job("failing-upload", vec![index()]),
        vec![
            prepared("dep-fail", &[("index.html", "https://files.example.test/index.html")]),
            PublishEvent::Uploaded(refused(500, "upload-broken")),
            PublishEvent::Cancelled(Reply::Accepted(())),
        ],
    );
    assert_eq!(
        outcome.result,
        Err(("upload failed for index.html: upload-broken".to_string(), None))
    );
    assert_eq!(outcome.cancels(), 1);
    assert_eq!(
        outcome.actions[2],
        PublishAction::Cancel(Request {
            method: Method::Post,
            url: format!("{API_BASE}/v1/projects/failing-upload/deployments/dep-fail/cancel"),
            authorization: text("Bearer token-publish"),
            payload: Payload::Nothing,
        })
    );
}

#[test]
fn publish_upload_failure_preserves_original_error_when_cancel_fails() {
    let outcome = run(
        job("site", vec![index()]),
        vec![
            prepared("dep-cancel-fail", &[("index.html", "https://files.example.test/index.html")]),
            PublishEvent::Uploaded(refused(500, "upload-original")),
            PublishEvent::Cancelled(refused(500, "cancel-broken")),
        ],
    );
    assert_eq!(
        outcome.result,
        Err((
            "upload failed for index.html: upload-original".to_string(),
            text("warning: failed to cancel upload session (500 cancel-broken)")
        ))
    );
}

#[test]
fn publish_activate_failure_sends_cancel_and_preserves_activate_error() {
    let outcome = run(
        job("site", vec![index()]),
        vec![
            prepared("dep", &[]),
            PublishEvent::Activated(refused(409, "activate-original")),
            PublishEvent::Cancelled(Reply::Accepted(())),
        ],
    );
    assert_eq!(
        outcome.result,
        Err(("activate failed: activate-original".to_string(), None))
    );
    assert_eq!(outcome.cancels(), 1);
}

#[test]
fn publish_fails_when_activate_response_is_missing_final_url() {
    let outcome = run(
        job("site", vec![index()]),
        vec![
            prepared("dep", &[]),
            activated(None, Some("https://site.example.test/s/1")),
            PublishEvent::CancelLeft,
        ],
    );
    assert_eq!(
        outcome.result,
        Err(("activate failed: missing servedUrl/publicUrl in response".to_string(), None))
    );
    assert_eq!(outcome.cancels(), 1);
}

#[test]
fn publish_prepare_failure_does_not_send_cancel() {
    let outcome = run(
        job("site", vec![index()]),
        vec![PublishEvent::Prepared(refused(409, "prepare-original"))],
    );
    assert_eq!(
        outcome.result,
        Err(("prepare failed: prepare-original".to_string(), None))
    );
    assert_eq!(outcome.cancels(), 0);
    let outcome = run(
        job("site", vec![index()]),
        vec![PublishEvent::Prepared(Reply::Unreadable("not json".to_string()))],
    );
    assert_eq!(outcome.result, Err(("not json".to_string(), None)));
}

#[test]
fn publish_missing_file_descriptor_sends_cancel() {
    let outcome = run(
        job("site", vec![index()]),
        vec![
            prepared("dep", &[("ghost.html", "https://files.example.test/ghost.html")]),
            PublishEvent::Cancelled(Reply::Failed("connection reset".to_string())),
        ],
    );
    assert_eq!(
        outcome.result,
        Err((
            "missing file descriptor for ghost.html".to_string(),
            text("warning: failed to cancel upload session (connection reset)")
        ))
    );
    assert_eq!(outcome.cancels(), 1);
}

#[test]
fn publish_cancels_when_a_file_cannot_be_read() {
    let outcome = run(
        job("site", vec![index()]),
        vec![
            prepared("dep", &[("index.html", "https://files.example.test/index.html")]),
            PublishEvent::FileFailed("permission denied".to_string()),
            PublishEvent::Cancelled(Reply::Unreadable("not json".to_string())),
        ],
    );
    assert_eq!(outcome.result, Err(("permission denied".to_string(), None)));
}

#[test]
fn publish_needs_files_and_a_token_that_a_header_can_carry() {
    let outcome = run(job("site", vec![]), vec![]);
    assert_eq!(
        outcome.result,
        Err(("publish target has no files".to_string(), None))
    );
    assert!(outcome.progress.is_empty());
    let mut wrong = job("site", vec![index()]);
    wrong.token = "a\rb".to_string();
    let outcome = run(wrong, vec![]);
    assert_eq!(
        outcome.result,
        Err(("failed to parse header value".to_string(), None))
    );
}

#[test]
fn events_that_were_not_waited_for_change_nothing() {
    let mut state = Publish::start(job("site", vec![index()]));
    state = state.next(uploaded());
    state = state.next(PublishEvent::CancelLeft);
    assert!(matches!(state, Publish::Prepare { .. }));
    assert_eq!(state.deployment_id(), None);
    state = state.next(prepared("dep", &[("index.html", "https://f.example.test/i")]));
    assert_eq!(state.deployment_id(), text("dep"));
    state = state.next(activated(Some("https://site.example.test"), None));
    assert!(matches!(state, Publish::Upload { .. }));
}

#[test]
fn deployment_ids_and_slugs_are_encoded_in_addresses() {
    let config = CliConfig {
        api_base: API_BASE.to_string(),
        token: "t".to_string(),
        auth_type: AuthType::ServiceSession,
    };
    let request = cancel_prepared_deployment(&config, "my site", "dep/1").expect("request");
    assert_eq!(
        request.url,
        format!("{API_BASE}/v1/projects/my%20site/deployments/dep%2F1/cancel")
    );
    assert_eq!(request.authorization, text("Bearer t"));
    assert_eq!(warn_of_cancel(Reply::Accepted(())), None);
}

#[test]
fn one_of_two_gets_to_cancel() {
    let mut guard = CancelGuard::new();
    assert_eq!(guard.claim(), None);
    guard.prepared("dep".to_string());
    assert_eq!(guard.claim(), text("dep"));
    assert_eq!(guard.claim(), None);

    let mut done = CancelGuard::new();
    done.prepared("dep".to_string());
    done.activated();
    assert_eq!(done.claim(), None);
}

#[test]
fn publish_target_comes_from_words_and_site() {
    let site = || {
        Some(SiteConfig {
            slug: "config-slug".to_string(),
            publish_dir: "config-dir".to_string(),
            access: Access::Link,
        })
    };
    let target = resolve_publish_target(&[], site()).expect("target");
    assert_eq!(target.slug, "config-slug");
    assert_eq!(target.directory, "config-dir");
    assert_eq!(target.access, Access::Link);
    assert!(!target.rotate_share_link);

    let target = resolve_publish_target(
        &words(&["explicit-dir", "--slug", "slug-override", "--rotate-share-link"]),
        site(),
    )
    .expect("target");
    assert_eq!(target.slug, "slug-override");
    assert_eq!(target.directory, "explicit-dir");
    assert!(target.rotate_share_link);

    let target =
        resolve_publish_target(&words(&["--slug", "my-site"]), site()).expect("target");
    assert_eq!(target.slug, "my-site");
    assert_eq!(target.directory, "config-dir");
    for args in [["--slug", "my-site", "dist"], ["dist", "--slug", "my-site"]] {
        let target = resolve_publish_target(&words(&args), site()).expect("target");
        assert_eq!(target.slug, "my-site");
        assert_eq!(target.directory, "dist");
    }

    let usage =
        "usage: cfsurge publish [dir] [--slug <slug>] (or configure .cfsurge.json via cfsurge init)";
    assert_eq!(
        resolve_publish_target(&words(&["--slug", "my-site"]), None),
        Err(usage.to_string())
    );
    assert_eq!(resolve_publish_target(&[], None), Err(usage.to_string()));
    assert_eq!(resolve_publish_target(&words(&["dist"]), None), Err(usage.to_string()));
    assert_eq!(
        resolve_publish_target(&words(&["dist", "--slug", "a", "--rotate-share-link"]), None),
        Err("--rotate-share-link is only available when access=link".to_string())
    );
    assert_eq!(
        assert_slug_allowed("manage", "https://manage.example.test"),
        Err("invalid slug: manage (reserved_slug)".to_string())
    );
    assert_eq!(assert_slug_allowed("api", "https://manage.example.test"), Ok(()));
}

#[test]
fn progress_weights() {
    assert_eq!(calculate_scanning_percent(0, 0), 0);
    assert_eq!(calculate_scanning_percent(1, 3), 3);
    assert_eq!(calculate_scanning_percent(9, 3), 10);
    assert_eq!(calculate_scanning_percent(usize::MAX, usize::MAX), 10);
    let uploading = |completed, total| PublishProgressState {
        phase: PublishProgressPhase::Uploading,
        completed_uploads: completed,
        total_uploads: total,
        scanned_files: 0,
        total_files: 0,
    };
    let mut last = 0;
    assert_eq!(calculate_publish_progress_percent(uploading(1, 2), &mut last), 52);
    assert_eq!(last, 52);
    assert_eq!(calculate_publish_progress_percent(uploading(0, 2), &mut last), 52);
    assert_eq!(calculate_publish_progress_percent(uploading(7, 2), &mut last), 90);
    assert_eq!(
        build_publish_progress_message(3, PublishProgressState::initial()),
        "publish: 3% (scanned 0/0 files) scanning"
    );
    assert_eq!(PublishProgressPhase::Activating.as_str(), "activating");
}

#[test]
fn spinner_turns() {
    let mut spinner = PublishSpinnerState::new();
    assert_eq!(spinner.tick(), "\r\u{1b}[2K| publish: 0% (scanned 0/0 files) scanning");
    assert_eq!(spinner.tick(), "\r\u{1b}[2K/ publish: 0% (scanned 0/0 files) scanning");
    assert_eq!(spinner.tick(), "\r\u{1b}[2K- publish: 0% (scanned 0/0 files) scanning");
    assert_eq!(spinner.tick(), "\r\u{1b}[2K\\ publish: 0% (scanned 0/0 files) scanning");
    assert_eq!(spinner.frame_index, 0);
    assert!(spinner.line_active);
}

#[test]
fn collecting_reports_each_percentage_once() {
    assert_eq!(scanning_update(Some(0), 1, 30), None);
    let mut collection = FileCollection::new(3);
    let mut reports = Vec::new();
    reports.push(collection.report().map(|state| state.scanned_files));
    for path in ["b.txt", "a\\c.css", "a.js"] {
        collection.add(path, path.as_bytes(), 5);
        reports.push(collection.report().map(|state| state.scanned_files));
    }
    assert_eq!(reports, vec![Some(0), Some(1), Some(2), Some(3)]);
    let files = collection.collect_files();
    let paths: Vec<&str> = files.iter().map(|file| file.path.as_str()).collect();
    assert_eq!(paths, vec!["a.js", "a/c.css", "b.txt"]);
    assert_eq!(files[1].content_type, "text/css; charset=utf-8");
    assert_eq!(files[1].size, 5);

    let mut many = FileCollection::new(100);
    assert!(many.report().is_some());
    many.add("1", b"", 0);
    assert!(many.report().is_none());
}

#[test]
fn files_with_one_path_keep_their_order() {
    let entry = |path: &str, size: u64| FileEntry {
        path: path.to_string(),
        sha256: String::new(),
        size,
        content_type: String::new(),
    };
    let sorted = sort_files(vec![
        entry("b", 1),
        entry("a", 2),
        entry("b", 3),
        entry("", 4),
        entry("a", 5),
        entry("ab", 6),
        entry("\u{e9}", 7),
    ]);
    let sizes: Vec<u64> = sorted.iter().map(|file| file.size).collect();
    assert_eq!(sizes, vec![4, 2, 5, 6, 1, 3, 7]);
}

#[test]
fn digests_and_content_types() {
    assert_eq!(
        hex_digest(b"abc"),
        "ba7816bf8f01cfea414140de5dae2223b00361a396177a9cb410ff61f20015ad"
    );
    assert_eq!(
        hex_digest(b""),
        "e3b0c44298fc1c149afbf4c8996fb92427ae41e4649b934ca495991b7852b855"
    );
    for (path, kind) in [
        ("INDEX.HTML", "text/html; charset=utf-8"),
        ("a.css", "text/css; charset=utf-8"),
        ("a.js", "application/javascript; charset=utf-8"),
        ("a.json", "application/json; charset=utf-8"),
        ("a.svg", "image/svg+xml"),
        ("a.png", "image/png"),
        ("a.jpg", "image/jpeg"),
        ("a.jpeg", "image/jpeg"),
        ("a.webp", "image/webp"),
        ("html", "application/octet-stream"),
    ] {
        assert_eq!(guess_content_type(path), kind);
    }
}

#[test]
fn dotenv_lines() {
    let pair = |key: &str, value: &str| Some((key.to_string(), value.to_string()));
    assert_eq!(parse_dotenv_line("A=b"), pair("A", "b"));
    assert_eq!(parse_dotenv_line("  export  A_1 = b c  # note"), pair("A_1", "b c"));
    assert_eq!(parse_dotenv_line("A='x # y' # note"), pair("A", "x # y"));
    assert_eq!(parse_dotenv_line("A=\"x\\n\\\"y\\\"\\\\\""), pair("A", "x\n\"y\"\\"));
    assert_eq!(parse_dotenv_line("A="), pair("A", ""));
    assert_eq!(parse_dotenv_line("A=b#c"), pair("A", "b#c"));
    assert_eq!(parse_dotenv_line("A=#c"), pair("A", ""));
    for line in ["", "  ", "# A=b", "=b", "A", "1A=b", "A-B=c", "A='x", "A='x' y", "A=\"x\" y", "A=\"x\\\""] {
        assert_eq!(parse_dotenv_line(line), None, "{line}");
    }
}

#[test]
fn dotenv_parts() {
    assert!(is_valid_dotenv_key("_a9"));
    assert!(!is_valid_dotenv_key("9a"));
    assert!(!is_valid_dotenv_key(""));
    let chars: Vec<char> = "a\\\\\"\\\"".chars().collect();
    assert!(!is_escaped_dotenv_character(&chars, 3));
    assert!(is_escaped_dotenv_character(&chars, 5));
    assert_eq!(unescape_double_quoted_dotenv_value("\\t\\r\\q\\"), "\t\r\\q\\");
    assert_eq!(strip_trailing_dotenv_comment("a b\t # c"), "a b");
    assert_eq!(strip_trailing_dotenv_comment("a#b"), "a#b");
    assert_eq!(parse_single_quoted_dotenv_value("'a'"), text("a"));
    assert_eq!(parse_double_quoted_dotenv_value("\"\u{e9}\""), text("\u{e9}"));
    assert_eq!(parse_double_quoted_dotenv_value(""), None);
    assert_eq!(parse_dotenv_value(" 'q' "), text("q"));
}

#[test]
fn dotenv_files_give_the_last_assignment() {
    let parsed = parse_dotenv_for_basic_auth(
        "CFSURGE_BASIC_AUTH_USERNAME=first\r\nOTHER=x\nexport CFSURGE_BASIC_AUTH_USERNAME=\"second\"\nCFSURGE_BASIC_AUTH_PASSWORD='p w'",
    );
    assert_eq!(
        parsed,
        DotenvCredentials { username: text("second"), password: text("p w") }
    );
    assert_eq!(
        read_basic_auth_from_cwd_dotenv(FileText::Absent),
        Ok(DotenvCredentials { username: None, password: None })
    );
    assert_eq!(
        read_basic_auth_from_cwd_dotenv(FileText::Failed("denied".to_string())),
        Err("denied".to_string())
    );
}

#[test]
fn credentials_come_from_environment_then_dotenv() {
    let none = || DotenvCredentials { username: None, password: None };
    let user = "admin".to_string();
    let pass = " pw ".to_string();
    let blank = " ".to_string();
    assert!(!asks_dotenv(Some(&user), Some(&pass)));
    assert!(asks_dotenv(Some(&user), Some(&blank)));
    assert_eq!(
        resolve_basic_auth_from_env(Some(&user), Some(&pass), none()),
        Ok(BasicAuthPayload { username: "admin".to_string(), password: " pw ".to_string() })
    );
    assert_eq!(
        resolve_basic_auth_from_env(
            Some(&blank),
            Some(&pass),
            DotenvCredentials { username: text(" filed "), password: text("unused") }
        ),
        Ok(BasicAuthPayload { username: "filed".to_string(), password: " pw ".to_string() })
    );
    assert_eq!(
        resolve_basic_auth_from_env(None, None, none()),
        Err(
            "basic publish requires CFSURGE_BASIC_AUTH_USERNAME and CFSURGE_BASIC_AUTH_PASSWORD"
                .to_string()
        )
    );
    assert_eq!(resolve_credentials(Access::Public, None, None, none()), Ok(None));
    assert!(resolve_credentials(Access::Basic, None, None, none()).is_err());
}

#[test]
fn credentials_are_checked() {
    let check = |user: &str, pass: &str| {
        validate_basic_auth_credentials(user.to_string(), pass.to_string())
    };
    assert!(check("user name", "p:w~").is_ok());
    assert_eq!(
        check("a:b", "c"),
        Err(
            "invalid basic auth username: expected non-empty printable ASCII without ':'"
                .to_string()
        )
    );
    assert_eq!(
        check("a", "\u{e9}"),
        Err("invalid basic auth password: expected non-empty printable ASCII".to_string())
    );
    assert_eq!(
        check("a", ""),
        Err(
            "basic publish requires CFSURGE_BASIC_AUTH_USERNAME and CFSURGE_BASIC_AUTH_PASSWORD"
                .to_string()
        )
    );
}
