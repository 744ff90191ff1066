use cfsurge::access::{assert_no_deprecated_visibility_flag, normalize_legacy_visibility, Access, LegacyVisibility};
use cfsurge::address::{auth_headers, normalize_api_base, parse_origin, should_attach_api_auth};
use cfsurge::args::{has_flag, read_flag, read_positional_arg, read_positional_beside, read_string, read_string_opt, run_with_args, Command};
use cfsurge::config::{
    append_newline, asks_keychain, config_location, home_dir, parse_stored_config, persist_token, read_config,
    read_stored_config, read_stored_config_if_exists, read_stored_token, read_token_from_storage,
    resolve_login_mode, resolve_stored_auth_type, AuthType, FileText, KeychainRead, KeychainWrite,
    ReadConfigOptions, StoredConfig, TokenStorage,
};
use cfsurge::http::{Reply, accept_reply};
use cfsurge::keychain::{
    contains_text, delete_token_from_mac_keychain, read_token_from_mac_keychain, warn_of_keychain,
    write_token_to_mac_keychain,
};
use cfsurge::login::read_api_metadata;
use cfsurge::logout::needs_keychain;
use cfsurge::prompt::{
    judge_answer, prompt_with_default, select_step, AnswerKind, Choice, Key, Question, SelectStep,
    Verdict,
};
use cfsurge::resolve::{
    parse_new_password_flag, parse_user_role, resolve_access, resolve_login_new_password,
    resolve_token_storage_preference, Resolved, Selected,
};
use cfsurge::session::{clear_stored_service_session_auth, persist_service_session_auth, ResolvedServiceLogin};
use cfsurge::site::{read_site_config_if_exists, SiteConfig};
use cfsurge::slug::{assert_valid_slug, extract_first_hostname_label, parse_slug_input, validate_slug};

fn words(args: &[&str]) -> Vec<String> {
    args.iter().map(|word| word.to_string()).collect()
}

fn text(value: &str) -> Option<String> {
    Some(value.to_string())
}

#[test]
fn commands_by_their_words() {
    for (word, command) in [
        ("login", Command::Login),
        ("init", Command::Init),
        ("publish", Command::Publish),
        ("list", Command::List),
        ("remove", Command::Remove),
        ("passwd", Command::Passwd),
        ("admin", Command::Admin),
        ("logout", Command::Logout),
        ("--version", Command::Version),
        ("--help", Command::Help),
        ("Login", Command::Help),
    ] {
        assert_eq!(run_with_args(&words(&[word, "rest"])), command);
    }
    assert_eq!(run_with_args(&[]), Command::Help);
}

#[test]
fn flags_and_words() {
    let args = words(&["--slug", "a", "dir", "--slug", "b", "--last"]);
    assert_eq!(read_flag(&args, "--slug"), text("a"));
    assert_eq!(read_flag(&args, "--last"), None);
    assert_eq!(read_flag(&args, "--none"), None);
    assert!(has_flag(&args, "--last"));
    assert!(!has_flag(&args, "--none"));
    assert_eq!(read_positional_beside(&args, "--slug"), text("dir"));
    assert_eq!(read_positional_beside(&words(&["--slug", "a", "--last"]), "--slug"), None);
    assert_eq!(read_positional_beside(&words(&["--last", "--slug"]), "--slug"), None);
    assert_eq!(read_positional_beside(&words(&["--slug", "--last", "b"]), "--slug"), text("b"));
    assert_eq!(read_positional_beside(&words(&["--last", "b"]), "--slug"), text("b"));
    assert_eq!(read_positional_arg(&words(&["docs", "--last"])), text("docs"));
    assert_eq!(read_positional_arg(&words(&["--x", "-y"])), text("-y"));
    assert_eq!(read_positional_arg(&words(&["--x"])), None);
    assert_eq!(read_string(" \u{3000}a b\n"), text("a b"));
    assert_eq!(read_string(" \t"), None);
    assert_eq!(read_string_opt(None), None);
}

#[test]
fn api_bases() {
    assert_eq!(normalize_api_base(" HTTPS://API.Example.com:443/ "), Ok("https://api.example.com".to_string()));
    let invalid = "invalid API base URL: expected absolute http(s) URL like https://api.example.com";
    for value in ["", "  ", "api.example.com", "ftp://api.example.com", "http://"] {
        assert_eq!(normalize_api_base(value), Err(invalid.to_string()), "{value}");
    }
    assert_eq!(
        normalize_api_base("https://api.example.com/#x"),
        Err("invalid API base URL: do not include path, query, or fragment".to_string())
    );
    let once = normalize_api_base("http://Example.com:8080/").expect("base");
    assert_eq!(normalize_api_base(&once), Ok(once.clone()));
}

#[test]
fn origins_and_headers() {
    assert_eq!(parse_origin("https://a.example.test/x?y#z"), text("https://a.example.test"));
    assert_eq!(parse_origin("nowhere"), None);
    assert!(should_attach_api_auth("https://a.test/files/1", "https://a.test"));
    assert!(!should_attach_api_auth("http://a.test/files/1", "https://a.test"));
    assert!(!should_attach_api_auth("nowhere", "nowhere"));
    assert_eq!(auth_headers("abc"), Ok("Bearer abc".to_string()));
    assert_eq!(auth_headers("a\u{7f}"), Err("failed to parse header value".to_string()));
    assert_eq!(auth_headers("t\tb"), Ok("Bearer t\tb".to_string()));
}

#[test]
fn slugs() {
    let reserved = words(&["www"]);
    assert_eq!(validate_slug("my-site-1", &reserved), None);
    assert_eq!(validate_slug(&"a".repeat(63), &reserved), None);
    for slug in ["", "-a", "a-", "A", "a_b", "\u{e9}", &"a".repeat(64)] {
        assert_eq!(validate_slug(slug, &reserved), Some("invalid_slug"), "{slug}");
    }
    assert_eq!(
        assert_valid_slug("A", &reserved),
        Err("invalid slug: A (invalid_slug)".to_string())
    );
    assert_eq!(parse_slug_input(" site ", &reserved), Ok("site".to_string()));
    assert_eq!(
        parse_slug_input(" www ", &reserved),
        Err("invalid slug: www (reserved_slug)".to_string())
    );
    assert_eq!(extract_first_hostname_label("https://API.example.test/x"), text("api"));
    assert_eq!(extract_first_hostname_label("data:text/plain,x"), None);
}

#[test]
fn visibility_is_gone() {
    assert_eq!(
        assert_no_deprecated_visibility_flag(&words(&["--visibility"])),
        Err("--visibility is no longer supported. Use --access <public|basic|link>.".to_string())
    );
    assert_eq!(normalize_legacy_visibility(Some(" Unlisted ")), Some(LegacyVisibility::Unlisted));
    assert_eq!(normalize_legacy_visibility(Some("basic")), None);
}

#[test]
fn stored_configs_read_back() {
    let config = parse_stored_config(
        "{\"apiBase\":\" https://api.example.test \",\"auth\":{\"type\":\" service-session \",\"accessToken\":\" t \",\"actor\":\"\",\"username\":\" bob \",\"role\":7,\"mustChangePassword\":\"yes\"},\"token\":\" old \"}",
        "/c.json",
    )
    .expect("config");
    assert_eq!(config.api_base, "https://api.example.test");
    assert_eq!(config.token_storage, Some(TokenStorage::File));
    assert_eq!(config.token, text("old"));
    let auth = config.auth.as_ref().expect("auth");
    assert_eq!(auth.auth_type, AuthType::ServiceSession);
    assert_eq!(auth.token_storage, Some(TokenStorage::File));
    assert_eq!(auth.access_token, text("t"));
    assert_eq!(auth.actor, None);
    assert_eq!(auth.username, text("bob"));
    assert_eq!(auth.role, None);
    assert_eq!(auth.must_change_password, Some(false));
    assert_eq!(resolve_stored_auth_type(&config), AuthType::ServiceSession);
}

#[test]
fn broken_configs_are_refused() {
    let fails = |raw: &str| parse_stored_config(raw, "/c.json").expect_err("must fail");
    assert_eq!(fails("{"), "invalid config file: /c.json");
    assert_eq!(fails("[]"), "invalid config file: missing apiBase in /c.json");
    assert_eq!(fails("{\"apiBase\":\" \"}"), "invalid config file: missing apiBase in /c.json");
    assert_eq!(
        fails("{\"apiBase\":\"a\",\"auth\":null}"),
        "invalid config file: unsupported auth in /c.json"
    );
    assert_eq!(
        fails("{\"apiBase\":\"a\",\"auth\":{}}"),
        "invalid config file: unsupported auth.type in /c.json"
    );
    assert_eq!(
        fails("{\"apiBase\":\"a\",\"auth\":{\"type\":\"magic\"}}"),
        "invalid config file: unsupported auth.type in /c.json"
    );
    assert_eq!(
        fails("{\"apiBase\":\"a\",\"auth\":{\"type\":\"service-session\",\"tokenStorage\":\"cloud\"}}"),
        "invalid config file: unsupported auth.tokenStorage in /c.json"
    );
    assert_eq!(
        fails("{\"apiBase\":\"a\",\"tokenStorage\":\"cloud\"}"),
        "invalid config file: unsupported tokenStorage in /c.json"
    );
    assert_eq!(
        read_stored_config(read_stored_config_if_exists(FileText::Absent, "/c.json").expect("none")),
        Err("not logged in. Run cfsurge login.".to_string())
    );
    assert_eq!(
        read_stored_config_if_exists(FileText::Failed("denied".to_string()), "/c.json"),
        Err("denied".to_string())
    );
}

#[test]
fn tokens_come_from_their_storage() {
    let failed = || KeychainRead::Failed("locked".to_string());
    assert_eq!(read_token_from_storage(None, text("x"), failed()), Ok(None));
    assert_eq!(
        read_token_from_storage(Some(TokenStorage::File), None, failed()),
        Err("config file token is missing. Run cfsurge login.".to_string())
    );
    assert_eq!(
        read_token_from_storage(Some(TokenStorage::Keychain), None, KeychainRead::Unavailable),
        Err(
            "stored token requires macOS Keychain, but it is unavailable. Run cfsurge login again."
                .to_string()
        )
    );
    assert_eq!(
        read_token_from_storage(Some(TokenStorage::Keychain), None, failed()),
        Err("failed to read token from macOS Keychain (locked). Run cfsurge login.".to_string())
    );
    assert_eq!(
        read_token_from_storage(Some(TokenStorage::Keychain), text("inline"), failed()),
        Ok(text("inline"))
    );
    assert_eq!(
        read_token_from_storage(
            Some(TokenStorage::Keychain),
            text("inline"),
            KeychainRead::Token("kept".to_string())
        ),
        Ok(text("kept"))
    );
}

fn keychain_config() -> StoredConfig {
    parse_stored_config(
        "{\"apiBase\":\"https://api.example.test\",\"auth\":{\"type\":\"service-session\",\"tokenStorage\":\"keychain\"}}",
        "/c.json",
    )
    .expect("config")
}

#[test]
fn environment_takes_precedence() {
    let config = keychain_config();
    let env = " from-env ".to_string();
    assert!(asks_keychain(None, &config));
    assert!(!asks_keychain(Some(&env), &config));
    assert!(needs_keychain(&config, None));
    assert!(!needs_keychain(&config, Some(&env)));
    assert_eq!(
        read_stored_token(Some(&env), &config, KeychainRead::Unavailable),
        Ok(text("from-env"))
    );
    let base = " https://other.example.test ".to_string();
    let read = read_config(
        ReadConfigOptions { allow_must_change_password: false },
        &config,
        Some(&base),
        Some(&env),
        KeychainRead::Unavailable,
    )
    .expect("config");
    assert_eq!(read.api_base, "https://other.example.test");
    assert_eq!(read.token, "from-env");
    let bare = parse_stored_config("{\"apiBase\":\"a\"}", "/c.json").expect("config");
    assert_eq!(
        read_config(
            ReadConfigOptions { allow_must_change_password: false },
            &bare,
            None,
            None,
            KeychainRead::Unavailable
        ),
        Err("missing API token. Run cfsurge login.".to_string())
    );
}

#[test]
fn tokens_are_kept_where_asked() {
    assert_eq!(
        persist_token(TokenStorage::File, KeychainWrite::Failed("x".to_string())),
        Ok(TokenStorage::File)
    );
    assert_eq!(persist_token(TokenStorage::Keychain, KeychainWrite::Stored), Ok(TokenStorage::Keychain));
    assert_eq!(
        persist_token(TokenStorage::Keychain, KeychainWrite::Failed("x".to_string())),
        Err("x".to_string())
    );
    let login = ResolvedServiceLogin {
        access_token: "t".to_string(),
        actor: "bob".to_string(),
        username: "  ".to_string(),
        role: None,
        must_change_password: false,
    };
    let config = persist_service_session_auth("https://a.test", &login, TokenStorage::Keychain, "fallback");
    let auth = config.auth.as_ref().expect("auth");
    assert_eq!(auth.access_token, None);
    assert_eq!(auth.username, text("fallback"));
    assert_eq!(
        read_stored_token(None, &config, KeychainRead::Token("t".to_string())),
        Ok(text("t"))
    );
}

#[test]
fn ended_sessions_are_cleared() {
    let cleared = clear_stored_service_session_auth(Some(keychain_config())).expect("cleared");
    assert!(cleared.forget_keychain);
    assert_eq!(cleared.config.auth.as_ref().expect("auth").must_change_password, Some(false));
    assert_eq!(clear_stored_service_session_auth(None), None);
    let admin = parse_stored_config("{\"apiBase\":\"a\",\"token\":\"t\"}", "/c.json").expect("config");
    assert_eq!(clear_stored_service_session_auth(Some(admin)), None);
}

#[test]
fn site_files() {
    let read = |raw: &str| read_site_config_if_exists(FileText::Text(raw.to_string()), "/s.json");
    let site = |access| {
        Ok(Some(SiteConfig { slug: "a".to_string(), publish_dir: "d".to_string(), access }))
    };
    let fault = Err("invalid site config file: /s.json".to_string());
    assert_eq!(read("{\"slug\":\" a \",\"publishDir\":\"d\",\"access\":\"BASIC\"}"), site(Access::Basic));
    assert_eq!(read("{\"slug\":\"a\",\"publishDir\":\"d\"}"), site(Access::Public));
    assert_eq!(
        read("{\"slug\":\"a\",\"publishDir\":\"d\",\"visibility\":\"public\"}"),
        site(Access::Public)
    );
    assert_eq!(read("{\"slug\":\"a\",\"publishDir\":\"d\",\"access\":\"x\"}"), fault);
    assert_eq!(read("{\"slug\":\"a\",\"publishDir\":\"d\",\"visibility\":\"x\"}"), fault);
    assert_eq!(read("{\"slug\":\"a\"}"), fault);
    assert_eq!(read("{\"publishDir\":\"d\"}"), fault);
    assert_eq!(read("nonsense"), fault);
    assert_eq!(
        read("{\"slug\":\"a\",\"publishDir\":\"d\",\"visibility\":\"unlisted\"}"),
        Err(
            "site config migration required: visibility \"unlisted\" is no longer supported. Set \"access\": \"basic\" and provide CFSURGE_BASIC_AUTH_USERNAME/CFSURGE_BASIC_AUTH_PASSWORD when running publish."
                .to_string()
        )
    );
    assert_eq!(read_site_config_if_exists(FileText::Absent, "/s.json"), Ok(None));
}

#[test]
fn modes_and_storages() {
    assert_eq!(resolve_login_mode(None, &None, &None), Ok(AuthType::ServiceSession));
    assert_eq!(resolve_login_mode(None, &None, &text("t")), Ok(AuthType::CloudflareAdmin));
    assert_eq!(
        resolve_login_mode(text(" Service-Session "), &text("t"), &None),
        Ok(AuthType::ServiceSession)
    );
    assert_eq!(
        resolve_token_storage_preference(None, false),
        Selected::Known(TokenStorage::File)
    );
    assert_eq!(resolve_token_storage_preference(None, true), Selected::Choose { marked: 0 });
    assert_eq!(
        resolve_access(&[], Access::Link, true),
        Ok(Selected::Choose { marked: 2 })
    );
    assert_eq!(parse_user_role(" ADMIN "), Ok("admin".to_string()));
    assert_eq!(parse_new_password_flag(&words(&["--new-password", "x"])), Ok(text("x")));
    assert_eq!(
        parse_new_password_flag(&words(&["--new-password", ""])),
        Err("new password cannot be empty".to_string())
    );
    assert_eq!(
        resolve_login_new_password(text("x"), false),
        Resolved::Known("x".to_string())
    );
}

#[test]
fn answers_are_judged() {
    let question = |kind| Question {
        guidance: None,
        label: "Project slug".to_string(),
        default_value: text("old"),
        kind,
    };
    let slug = question(AnswerKind::Slug { api_label: text("manage") });
    assert_eq!(slug.text(), "Project slug [old]: ");
    assert_eq!(judge_answer(&slug, " new \n", false), Verdict::Accepted("new".to_string()));
    assert_eq!(judge_answer(&slug, "\n", false), Verdict::Accepted("old".to_string()));
    assert_eq!(
        judge_answer(&slug, "manage", true),
        Verdict::Retry("invalid slug: manage (reserved_slug)".to_string())
    );
    assert_eq!(
        judge_answer(&slug, "manage", false),
        Verdict::Failed("invalid slug: manage (reserved_slug)".to_string())
    );
    let name = question(AnswerKind::Username);
    assert_eq!(name.text(), "Project slug: ");
    assert_eq!(judge_answer(&name, "", true), Verdict::Retry("username is required".to_string()));
    assert_eq!(
        prompt_with_default("Project slug", None, ""),
        Err("Project slug is required".to_string())
    );
    assert_eq!(slug.copy(), slug);
}

#[test]
fn marks_go_round() {
    assert_eq!(select_step(0, 3, Key::Up), SelectStep::Show(2));
    assert_eq!(select_step(2, 3, Key::Down), SelectStep::Show(0));
    assert_eq!(select_step(1, 3, Key::Down), SelectStep::Show(2));
    assert_eq!(select_step(1, 3, Key::Enter), SelectStep::Chosen(1));
    assert_eq!(select_step(1, 3, Key::Interrupt), SelectStep::Interrupted);
    assert_eq!(select_step(1, 3, Key::Other), SelectStep::Unchanged);
    assert_eq!(Choice::Access.heading(), "Access (Use \u{2191}/\u{2193}, Enter to confirm)");
    assert_eq!(
        Choice::TokenStorage.lines(1),
        words(&[
            "  file - Store token in ~/.config/cfsurge/config.json",
            "> keychain - Store token in macOS Keychain (fails on non-macOS)",
        ])
    );
    assert_eq!(Choice::Access.confirmation(2), "Access: link");
}

#[test]
fn keychain_outputs() {
    assert_eq!(
        read_token_from_mac_keychain(true, " tok \n", ""),
        KeychainRead::Token("tok".to_string())
    );
    assert_eq!(
        read_token_from_mac_keychain(true, "\n", ""),
        KeychainRead::Failed("empty token in keychain".to_string())
    );
    assert_eq!(
        read_token_from_mac_keychain(false, "x", " denied\n"),
        KeychainRead::Failed("denied".to_string())
    );
    assert_eq!(write_token_to_mac_keychain(true, ""), KeychainWrite::Stored);
    assert_eq!(
        write_token_to_mac_keychain(false, "no "),
        KeychainWrite::Failed("no".to_string())
    );
    assert_eq!(
        delete_token_from_mac_keychain(false, "The specified item could not be found in the keychain"),
        Ok(())
    );
    assert_eq!(delete_token_from_mac_keychain(false, "locked "), Err("locked".to_string()));
    assert!(contains_text("abc", ""));
    assert!(contains_text("abc", "bc"));
    assert!(!contains_text("bc", "abc"));
    assert_eq!(
        warn_of_keychain("locked"),
        "warning: failed to clear token from macOS Keychain (locked)"
    );
}

#[test]
fn small_parts() {
    assert_eq!(append_newline(vec![123, 125]), vec![123, 125, 10]);
    assert_eq!(config_location(), [".config", "cfsurge", "config.json"]);
    assert_eq!(home_dir(None, Some(1), Some(2)), Ok(1));
    assert_eq!(home_dir(Some(0), Some(1), None), Ok(0));
    assert_eq!(
        home_dir::<u8>(None, None, None),
        Err("failed to resolve home directory".to_string())
    );
    assert_eq!(read_api_metadata(Reply::Failed("down".to_string())), None);
    assert_eq!(
        accept_reply(Reply::<()>::Refused { status: 418, body: "tea".to_string() }, "brew"),
        Err("brew failed: tea".to_string())
    );
}
