use std::collections::VecDeque;

use cfsurge::admin::{
    admin_users_create, admin_users_create_request, admin_users_list, admin_users_list_request,
    admin_users_reset_password, admin_users_reset_password_request, admin_users_toggle_status,
    admin_users_toggle_status_request, reset_password_target, toggle_status_target,
    AdminUserMutationPayload, AdminUserRecord, UserSwitch,
};
use cfsurge::args::{admin, resolve_cli_version, run_with_args, AdminCommand, Command, HELP_TEXT};
use cfsurge::config::{
    parse_stored_config, read_config, CliConfig, KeychainRead, KeychainWrite, ReadConfigOptions,
    StoredAuth, StoredConfig, TokenStorage,
};
use cfsurge::http::{Method, Payload, Reply, Request};
use cfsurge::init::Init;
use cfsurge::login::Login;
use cfsurge::logout::{logout, LOGGED_OUT};
use cfsurge::passwd::Passwd;
use cfsurge::projects::{
    list_projects, list_projects_request, remove_project, remove_project_request,
    resolve_removal_target, ProjectRecord,
};
use cfsurge::prompt::{judge_answer, Verdict};
use cfsurge::resolve::{resolve_admin_username, Resolved};
use cfsurge::session::ServiceLoginResponse;
use cfsurge::site::{read_site_config_if_exists, SiteConfig};
use cfsurge::slug::ApiMetadata;
use cfsurge::talk::{Action, Environment, Event};

const API_BASE: &str = "http://127.0.0.1:8787";

fn words(args: &[&str]) -> Vec<String> {
    args.iter().map(|word| word.to_string()).collect()
}

fn bare_environment() -> Environment {
    Environment {
        api_base: None,
        token: None,
        username: None,
        password: None,
        interactive: false,
    }
}

fn text(value: &str) -> Option<String> {
    Some(value.to_string())
}

/// A conversation with a command: what it is told, and what it did.
struct Stage {
    input: VecDeque<String>,
    interactive: bool,
    replies: VecDeque<Event>,
    keychain: KeychainWrite,
    stored: Option<StoredConfig>,
    site: Option<SiteConfig>,
    stdout: String,
    stderr: String,
    requests: Vec<Request>,
    kept: Vec<String>,
    saved: Vec<StoredConfig>,
    saved_sites: Vec<SiteConfig>,
    forgotten: usize,
}

impl Stage {
    fn new(input: &str, replies: Vec<Event>) -> Self {
        Stage {
            input: input.lines().map(|line| line.to_string()).collect(),
            interactive: false,
            replies: replies.into_iter().collect(),
            keychain: KeychainWrite::Unavailable,
            stored: None,
            site: None,
            stdout: String::new(),
            stderr: String::new(),
            requests: Vec::new(),
            kept: Vec::new(),
            saved: Vec::new(),
            saved_sites: Vec::new(),
            forgotten: 0,
        }
    }

    fn send(&mut self, request: Request) -> Option<Event> {
        self.requests.push(request);
        self.replies.pop_front()
    }

    /// Does what a command asks for. Nothing comes back when the command is over.
    fn perform(&mut self, action: Action) -> Option<Event> {
        match action {
            Action::Ask(question) => {
                if let Some(guidance) = &question.guidance {
                    self.stdout.push_str(guidance);
                    self.stdout.push('\n');
                }
                loop {
                    self.stdout.push_str(&question.text());
                    let line = self.input.pop_front().unwrap_or_default();
                    match judge_answer(&question, &line, self.interactive) {
                        Verdict::Accepted(answer) => return Some(Event::Answered(answer)),
                        Verdict::Retry(message) => {
                            self.stderr.push_str(&message);
                            self.stderr.push('\n');
                        }
                        Verdict::Failed(message) => return Some(Event::Failed(message)),
                    }
                }
            }
            Action::Choose { marked, .. } => Some(Event::Chosen(marked)),
            Action::FetchMetadata(request)
            | Action::Verify(request)
            | Action::SignIn(request)
            | Action::ChangePassword(request) => self.send(request),
            Action::StoreInKeychain(token) => {
                self.kept.push(token);
                Some(Event::Kept(match &self.keychain {
                    KeychainWrite::Unavailable => KeychainWrite::Unavailable,
                    KeychainWrite::Stored => KeychainWrite::Stored,
                    KeychainWrite::Failed(message) => KeychainWrite::Failed(message.clone()),
                }))
            }
            Action::SaveConfig(config) => {
                self.saved.push(config);
                Some(Event::Done)
            }
            Action::ReadConfig => Some(Event::Config(self.stored.take())),
            Action::ForgetKeychain => {
                self.forgotten += 1;
                Some(Event::Done)
            }
            Action::ReadSite => Some(Event::Site(self.site.take())),
            Action::SaveSite(site) => {
                self.saved_sites.push(site);
                Some(Event::Done)
            }
            Action::Say(line) | Action::Finish(line) => {
                self.stdout.push_str(&line);
                self.stdout.push('\n');
                Some(Event::Done)
            }
            Action::Fail(_) => None,
        }
    }
}

fn run_login(stage: &mut Stage, args: &[&str], env: Environment) -> Result<(), String> {
    stage.interactive = env.interactive;
    let mut state = Login::start(&words(args), &env, None);
    loop {
        let action = state.action();
        if let Action::Fail(message) = action {
            return Err(message);
        }
        let over = matches!(action, Action::Finish(_));
        let event = stage.perform(action).expect("an event");
        if over {
            return Ok(());
        }
        state = state.next(event);
    }
}

fn run_passwd(
    stage: &mut Stage,
    args: &[&str],
    config: CliConfig,
    stored: StoredConfig,
) -> Result<(), String> {
    let mut state = Passwd::start(&words(args), config, &stored);
    stage.stored = Some(stored);
    loop {
        let action = state.action();
        if let Action::Fail(message) = action {
            return Err(message);
        }
        let over = matches!(action, Action::Finish(_));
        let event = stage.perform(action).expect("an event");
        if over {
            return Ok(());
        }
        state = state.next(event);
    }
}

fn run_init(stage: &mut Stage, args: &[&str], env: Environment) -> Result<(), String> {
    stage.interactive = env.interactive;
    let mut state = Init::start(&words(args), &env);
    loop {
        let action = state.action();
        if let Action::Fail(message) = action {
            return Err(message);
        }
        let over = matches!(action, Action::Finish(_));
        let event = stage.perform(action).expect("an event");
        if over {
            return Ok(());
        }
        state = state.next(event);
    }
}

fn metadata(token_creation_url: Option<&str>) -> Event {
    Event::Metadata(Some(ApiMetadata {
        api_base: text(API_BASE),
        public_suffix: text("example.test"),
        token_creation_url: token_creation_url.map(|url| url.to_string()),
    }))
}

fn verified(actor: &str) -> Event {
    Event::Verified(Reply::Accepted(text(actor)))
}

fn session(token: &str, name: &str, due: bool) -> Event {
    Event::SignedIn(Reply::Accepted(ServiceLoginResponse {
        access_token: text(token),
        actor: text(name),
        username: text(name),
        role: text("user"),
        must_change_password: Some(due),
    }))
}

fn stored_config(raw: &str) -> StoredConfig {
    parse_stored_config(raw, "config.json").expect("config")
}

fn config_of(stored: &StoredConfig) -> Result<CliConfig, String> {
    read_config(
        ReadConfigOptions { allow_must_change_password: false },
        stored,
        None,
        None,
        KeychainRead::Unavailable,
    )
}

fn lenient_config_of(stored: &StoredConfig) -> CliConfig {
    read_config(
        ReadConfigOptions { allow_must_change_password: true },
        stored,
        None,
        None,
        KeychainRead::Unavailable,
    )
    .expect("config")
}

fn list_nothing(config: &CliConfig, bearer: &str) {
    let request = list_projects_request(config).expect("request");
    assert_eq!(request.method, Method::Get);
    assert_eq!(request.url, format!("{API_BASE}/v1/projects"));
    assert_eq!(request.authorization, text(bearer));
    assert_eq!(
        list_projects(Reply::Accepted(Vec::new())),
        Ok(vec!["no projects".to_string()])
    );
}

#[test]
fn version_prints_development_fallback() {
    assert_eq!(run_with_args(&words(&["--version"])), Command::Version);
    assert_eq!(resolve_cli_version(Some(&String::new()), None), "0.0.0-dev");
}

#[test]
fn version_prints_dev_fallback_when_not_injected() {
    assert_eq!(resolve_cli_version(Some(&String::new()), None), "0.0.0-dev");
    assert_eq!(resolve_cli_version(None, None), "0.0.0-dev");
}

#[test]
fn version_prints_injected_release_version() {
    let injected = "v0.1.0".to_string();
    assert_eq!(resolve_cli_version(Some(&injected), None), "v0.1.0");
    assert_eq!(resolve_cli_version(None, Some(&injected)), "v0.1.0");
}

#[test]
fn help_output_includes_version() {
    assert_eq!(run_with_args(&words(&["--help"])), Command::Help);
    assert!(HELP_TEXT.contains("--version"));
    assert!(
        HELP_TEXT.contains("[--password <password>] [--new-password <password>] [--token <token>]")
    );
    assert!(HELP_TEXT.contains("passwd [--current-password <password>] [--new-password <password>]"));
    assert!(HELP_TEXT.contains("admin users list"));
    assert!(HELP_TEXT.contains("interactive choices: use"));
}

#[test]
fn help_output_includes_version_flag() {
    assert_eq!(run_with_args(&words(&["--help"])), Command::Help);
    assert!(HELP_TEXT.contains("--version"));
}

#[test]
fn cli_login_verifies_token_and_writes_config() {
    let mut stage = Stage::new("", vec![metadata(None), verified("cf-token:test")]);
    let result = run_login(
        &mut stage,
        &["--api-base", API_BASE, "--token", "token-login"],
        bare_environment(),
    );
    assert_eq!(result, Ok(()));
    assert_eq!(stage.stdout, "logged in as cf-token:test\n");
    assert_eq!(stage.stderr, "");

    assert_eq!(stage.saved.len(), 1);
    assert_eq!(stage.saved[0].api_base, API_BASE);
    assert_eq!(stage.saved[0].token_storage, Some(TokenStorage::File));
    assert_eq!(stage.saved[0].token, text("token-login"));

    assert_eq!(stage.requests.len(), 2);
    assert_eq!(stage.requests[0].method, Method::Get);
    assert_eq!(stage.requests[0].url, format!("{API_BASE}/v1/meta"));
    assert_eq!(stage.requests[0].authorization, None);
    assert_eq!(stage.requests[1].method, Method::Post);
    assert_eq!(stage.requests[1].url, format!("{API_BASE}/v1/auth/verify"));
    assert_eq!(stage.requests[1].authorization, text("Bearer token-login"));
    assert_eq!(stage.requests[1].payload, Payload::Nothing);
}

#[test]
fn login_and_cli_basics_login_verifies_token_and_writes_config() {
    let mut stage = Stage::new("", vec![metadata(None), verified("cf-token:test")]);
    let result = run_login(
        &mut stage,
        &["--api-base", API_BASE, "--token", "token-login"],
        bare_environment(),
    );
    assert_eq!(result, Ok(()));
    assert_eq!(stage.stdout, "logged in as cf-token:test\n");
    assert_eq!(stage.saved[0].api_base, API_BASE);
    assert_eq!(stage.saved[0].token_storage, Some(TokenStorage::File));
    assert_eq!(stage.saved[0].token, text("token-login"));
    assert_eq!(stage.requests.len(), 2);
    assert_eq!(stage.requests[0].url, format!("{API_BASE}/v1/meta"));
    assert_eq!(stage.requests[0].authorization, None);
    assert_eq!(stage.requests[1].url, format!("{API_BASE}/v1/auth/verify"));
    assert_eq!(stage.requests[1].authorization, text("Bearer token-login"));
}

#[test]
fn login_defaults_to_service_session_auth_with_username_password() {
    let mut stage = Stage::new("", vec![session("session-token-1", "alice", false)]);
    let result = run_login(
        &mut stage,
        &["--api-base", API_BASE, "--username", "alice", "--password", "initial-password"],
        bare_environment(),
    );
    assert_eq!(result, Ok(()));
    assert_eq!(stage.stdout, "logged in as alice\n");
    assert_eq!(stage.stderr, "");
    assert_eq!(stage.requests.len(), 1);
    assert_eq!(stage.requests[0].url, format!("{API_BASE}/v1/auth/login"));
    assert_eq!(
        stage.requests[0].payload,
        Payload::Login {
            username: "alice".to_string(),
            password: "initial-password".to_string(),
        }
    );
    assert_eq!(
        stage.saved,
        vec![StoredConfig {
            api_base: API_BASE.to_string(),
            auth: Some(StoredAuth {
                auth_type: cfsurge::config::AuthType::ServiceSession,
                token_storage: Some(TokenStorage::File),
                access_token: text("session-token-1"),
                actor: text("alice"),
                username: text("alice"),
                role: text("user"),
                must_change_password: Some(false),
            }),
            token_storage: None,
            token: None,
        }]
    );
    list_nothing(
        &config_of(&stage.saved[0]).expect("config"),
        "Bearer session-token-1",
    );
}

#[test]
fn login_rejects_token_mode_when_auth_is_service_session() {
    let mut stage = Stage::new("", vec![]);
    let result = run_login(
        &mut stage,
        &["--api-base", API_BASE, "--auth", "service-session", "--token", "token-1"],
        bare_environment(),
    );
    assert_eq!(
        result,
        Err("token-based login requires --auth cloudflare-admin".to_string())
    );
    assert_eq!(stage.requests.len(), 0);
}

#[test]
fn login_completes_required_password_change_and_relogin_in_one_flow() {
    let mut stage = Stage::new(
        "",
        vec![
            session("session-token-temp", "alice", true),
            Event::Changed(Reply::Accepted(())),
            session("session-token-final", "alice", false),
        ],
    );
    let result = run_login(
        &mut stage,
        &[
            "--api-base",
            API_BASE,
            "--username",
            "alice",
            "--password",
            "temporary-pass",
            "--new-password",
            "new-pass",
        ],
        bare_environment(),
    );
    assert_eq!(result, Ok(()));
    assert_eq!(stage.stderr, "");
    assert_eq!(stage.stdout, "password updated\nlogged in as alice\n");
    assert_eq!(stage.requests.len(), 3);
    assert_eq!(
        stage.requests[0].payload,
        Payload::Login {
            username: "alice".to_string(),
            password: "temporary-pass".to_string(),
        }
    );
    assert_eq!(
        stage.requests[1],
        Request {
            method: Method::Post,
            url: format!("{API_BASE}/v1/auth/change-password"),
            authorization: text("Bearer session-token-temp"),
            payload: Payload::ChangePassword {
                current_password: "temporary-pass".to_string(),
                new_password: "new-pass".to_string(),
            },
        }
    );
    assert_eq!(
        stage.requests[2].payload,
        Payload::Login {
            username: "alice".to_string(),
            password: "new-pass".to_string(),
        }
    );
    let auth = stage.saved[0].auth.as_ref().expect("auth");
    assert_eq!(auth.access_token, text("session-token-final"));
    assert_eq!(auth.username, text("alice"));
    assert_eq!(auth.must_change_password, Some(false));
    list_nothing(
        &config_of(&stage.saved[0]).expect("config"),
        "Bearer session-token-final",
    );
}

#[test]
fn login_fails_clearly_when_password_change_required_without_new_password_in_non_interactive_mode() {
    let mut stage = Stage::new("", vec![session("session-token-temp", "alice", true)]);
    let result = run_login(
        &mut stage,
        &["--api-base", API_BASE, "--username", "alice", "--password", "temporary-pass"],
        bare_environment(),
    );
    assert_eq!(
        result,
        Err(
            "password change required for this account. Re-run cfsurge login with --new-password <password>."
                .to_string()
        )
    );
    assert_eq!(stage.requests.len(), 1);
    assert_eq!(stage.requests[0].url, format!("{API_BASE}/v1/auth/login"));
    assert!(stage.saved.is_empty());
}

#[test]
fn cloudflare_admin_login_rejects_new_password() {
    let mut stage = Stage::new("", vec![]);
    let result = run_login(
        &mut stage,
        &[
            "--auth",
            "cloudflare-admin",
            "--api-base",
            "https://api.example.test",
            "--token",
            "token",
            "--new-password",
            "new-pass",
        ],
        bare_environment(),
    );
    assert_eq!(
        result,
        Err("--new-password is only available with service-session login".to_string())
    );
    assert!(stage.requests.is_empty());
}

#[test]
fn must_change_password_blocks_commands_until_passwd() {
    let stored = stored_config(&format!(
        "{{\n  \"apiBase\": \"{API_BASE}\",\n  \"auth\": {{\n    \"type\": \"service-session\",\n    \"tokenStorage\": \"file\",\n    \"accessToken\": \"session-token-2\",\n    \"username\": \"bob\",\n    \"mustChangePassword\": true\n  }}\n}}\n"
    ));
    assert_eq!(
        config_of(&stored),
        Err("password change required. Run cfsurge passwd.".to_string())
    );

    let mut stage = Stage::new(
        "",
        vec![Event::Changed(Reply::Accepted(())), session("session-token-3", "bob", false)],
    );
    let config = lenient_config_of(&stored);
    let result = run_passwd(
        &mut stage,
        &["--current-password", "temp-pass", "--new-password", "new-pass"],
        config,
        stored,
    );
    assert_eq!(result, Ok(()));
    assert_eq!(stage.stdout, "password updated\nlogged in as bob\n");
    assert_eq!(stage.requests.len(), 2);
    assert_eq!(
        stage.requests[0],
        Request {
            method: Method::Post,
            url: format!("{API_BASE}/v1/auth/change-password"),
            authorization: text("Bearer session-token-2"),
            payload: Payload::ChangePassword {
                current_password: "temp-pass".to_string(),
                new_password: "new-pass".to_string(),
            },
        }
    );
    assert_eq!(
        stage.requests[1].payload,
        Payload::Login { username: "bob".to_string(), password: "new-pass".to_string() }
    );
    let auth = stage.saved[0].auth.as_ref().expect("auth");
    assert_eq!(auth.must_change_password, Some(false));
    assert_eq!(auth.access_token, text("session-token-3"));
    list_nothing(
        &config_of(&stage.saved[0]).expect("config"),
        "Bearer session-token-3",
    );
}

#[test]
fn passwd_relogs_keychain_backed_service_session_token() {
    let stored = stored_config(&format!(
        "{{\n  \"apiBase\": \"{API_BASE}\",\n  \"auth\": {{\n    \"type\": \"service-session\",\n    \"tokenStorage\": \"keychain\",\n    \"username\": \"bob\",\n    \"mustChangePassword\": true\n  }}\n}}\n"
    ));
    let config = read_config(
        ReadConfigOptions { allow_must_change_password: true },
        &stored,
        None,
        None,
        KeychainRead::Token("session-token-keychain".to_string()),
    )
    .expect("config");
    assert_eq!(config.token, "session-token-keychain");
    let mut stage = Stage::new(
        "",
        vec![
            Event::Changed(Reply::Accepted(())),
            session("session-token-keychain-new", "bob", false),
        ],
    );
    stage.keychain = KeychainWrite::Stored;
    let result = run_passwd(
        &mut stage,
        &["--current-password", "temp-pass", "--new-password", "new-pass"],
        config,
        stored,
    );
    assert_eq!(result, Ok(()));
    assert_eq!(stage.stdout, "password updated\nlogged in as bob\n");
    assert_eq!(stage.kept, vec!["session-token-keychain-new".to_string()]);
    let auth = stage.saved[0].auth.as_ref().expect("auth");
    assert_eq!(auth.must_change_password, Some(false));
    assert_eq!(auth.access_token, None);
}

#[test]
fn passwd_auto_relogin_failure_clears_session_and_errors() {
    let stored = stored_config(&format!(
        "{{\n  \"apiBase\": \"{API_BASE}\",\n  \"auth\": {{\n    \"type\": \"service-session\",\n    \"tokenStorage\": \"file\",\n    \"accessToken\": \"session-token-4\",\n    \"username\": \"bob\",\n    \"mustChangePassword\": true\n  }}\n}}\n"
    ));
    let mut stage = Stage::new(
        "",
        vec![
            Event::Changed(Reply::Accepted(())),
            Event::SignedIn(Reply::Refused {
                status: 401,
                body: "invalid credentials".to_string(),
            }),
        ],
    );
    let config = lenient_config_of(&stored);
    let result = run_passwd(
        &mut stage,
        &["--current-password", "temp-pass", "--new-password", "new-pass"],
        config,
        stored,
    );
    assert_eq!(
        result,
        Err(
            "password updated, but automatic re-login failed. Run cfsurge login with your new password."
                .to_string()
        )
    );
    assert_eq!(stage.forgotten, 0);
    assert_eq!(stage.saved.len(), 1);
    let auth = stage.saved[0].auth.as_ref().expect("auth");
    assert_eq!(auth.must_change_password, Some(false));
    assert_eq!(auth.access_token, None);
    assert_eq!(auth.username, text("bob"));
}

#[test]
fn passwd_forgets_keychain_token_when_it_cannot_be_kept() {
    let stored = stored_config(
        "{\"apiBase\":\"https://api.example.test\",\"auth\":{\"type\":\"service-session\",\"tokenStorage\":\"keychain\",\"username\":\"bob\"}}",
    );
    let config = read_config(
        ReadConfigOptions { allow_must_change_password: true },
        &stored,
        None,
        None,
        KeychainRead::Token("old".to_string()),
    )
    .expect("config");
    let mut stage = Stage::new(
        "current\nnew\n",
        vec![Event::Changed(Reply::Accepted(())), session("fresh", "bob", false)],
    );
    stage.keychain = KeychainWrite::Failed("locked".to_string());
    let result = run_passwd(&mut stage, &[], config, stored);
    assert_eq!(
        result,
        Err(
            "password updated, but automatic re-login failed. Run cfsurge login with your new password."
                .to_string()
        )
    );
    assert_eq!(stage.stdout, "Current password: New password: ");
    assert_eq!(stage.forgotten, 1);
    assert_eq!(stage.saved.len(), 1);
}

#[test]
fn passwd_fails_when_stored_service_session_username_is_missing() {
    let stored = stored_config(
        "{\n  \"apiBase\": \"https://api.example.test\",\n  \"auth\": {\n    \"type\": \"service-session\",\n    \"tokenStorage\": \"file\",\n    \"accessToken\": \"session-token-missing-user\",\n    \"mustChangePassword\": true\n  }\n}\n",
    );
    let mut stage = Stage::new("", vec![]);
    let config = lenient_config_of(&stored);
    let result = run_passwd(
        &mut stage,
        &["--current-password", "temp-pass", "--new-password", "new-pass"],
        config,
        stored,
    );
    assert_eq!(
        result,
        Err("stored service-session username is missing. Run cfsurge login.".to_string())
    );
}

#[test]
fn passwd_needs_a_session_and_a_new_password() {
    let admin_login = stored_config(
        "{\"apiBase\":\"https://api.example.test\",\"tokenStorage\":\"file\",\"token\":\"t\"}",
    );
    let mut stage = Stage::new("", vec![]);
    let config = lenient_config_of(&admin_login);
    assert_eq!(
        run_passwd(&mut stage, &[], config, admin_login),
        Err("passwd is only available for service-session login.".to_string())
    );

    let stored = stored_config(
        "{\"apiBase\":\"https://api.example.test\",\"auth\":{\"type\":\"service-session\",\"accessToken\":\"t\",\"username\":\"bob\"}}",
    );
    let config = lenient_config_of(&stored);
    assert_eq!(
        run_passwd(
            &mut stage,
            &["--current-password", "a", "--new-password", "  "],
            config,
            stored
        ),
        Err("new password cannot be empty".to_string())
    );
    assert!(stage.requests.is_empty());
}

#[test]
fn passwd_reports_a_refused_change() {
    let stored = stored_config(
        "{\"apiBase\":\"https://api.example.test\",\"auth\":{\"type\":\"service-session\",\"accessToken\":\"t\",\"username\":\"bob\"}}",
    );
    let mut stage = Stage::new(
        "",
        vec![Event::Changed(Reply::Refused { status: 403, body: "wrong password".to_string() })],
    );
    let config = lenient_config_of(&stored);
    assert_eq!(
        run_passwd(
            &mut stage,
            &["--current-password", "a", "--new-password", "b"],
            config,
            stored
        ),
        Err("passwd failed: wrong password".to_string())
    );
    assert!(stage.saved.is_empty());
}

#[test]
fn login_defaults_to_file_storage_even_when_keychain_is_available() {
    let mut stage = Stage::new("", vec![metadata(None), verified("cf-token:file-default")]);
    stage.keychain = KeychainWrite::Stored;
    let result = run_login(
        &mut stage,
        &["--api-base", API_BASE, "--token", "token-file-default"],
        bare_environment(),
    );
    assert_eq!(result, Ok(()));
    assert_eq!(stage.stdout, "logged in as cf-token:file-default\n");
    assert_eq!(stage.saved[0].token_storage, Some(TokenStorage::File));
    assert_eq!(stage.saved[0].token, text("token-file-default"));
    assert!(stage.kept.is_empty());
}

#[test]
fn login_fails_when_keychain_storage_is_unavailable() {
    let mut stage = Stage::new(
        "",
        vec![metadata(None), verified("cf-token:keychain-unavailable")],
    );
    let result = run_login(
        &mut stage,
        &["--api-base", API_BASE, "--token", "token-keychain", "--token-storage", "keychain"],
        bare_environment(),
    );
    assert_eq!(
        result,
        Err(
            "macOS Keychain is unavailable. Run cfsurge login with --token-storage file."
                .to_string()
        )
    );
    assert!(stage.saved.is_empty());
}

#[test]
fn login_stores_token_in_keychain_when_explicitly_requested_and_list_reads_it() {
    let mut stage = Stage::new("", vec![metadata(None), verified("cf-token:keychain")]);
    stage.keychain = KeychainWrite::Stored;
    let result = run_login(
        &mut stage,
        &["--api-base", API_BASE, "--token", "token-keychain", "--token-storage", "keychain"],
        bare_environment(),
    );
    assert_eq!(result, Ok(()));
    assert_eq!(stage.stdout, "logged in as cf-token:keychain\n");
    assert_eq!(stage.kept, vec!["token-keychain".to_string()]);
    assert_eq!(stage.saved[0].token_storage, Some(TokenStorage::Keychain));
    assert_eq!(stage.saved[0].token, None);
    assert_eq!(stage.requests[1].authorization, text("Bearer token-keychain"));

    let config = read_config(
        ReadConfigOptions { allow_must_change_password: false },
        &stage.saved[0],
        None,
        None,
        KeychainRead::Token("token-keychain".to_string()),
    )
    .expect("config");
    let request = list_projects_request(&config).expect("request");
    assert_eq!(request.authorization, text("Bearer token-keychain"));
    let lines = list_projects(Reply::Accepted(vec![ProjectRecord {
        slug: "site-a".to_string(),
        hostname: None,
        access: None,
        served_url: text("https://site-a.example.test"),
        public_url: None,
        share_url: None,
        active_deployment_id: text("dep-1"),
        updated_at: text("2026-03-24T00:00:00.000Z"),
        updated_by: text("cf-token:keychain"),
    }]))
    .expect("lines");
    assert!(lines[0].contains(
        "site-a\tpublic\thttps://site-a.example.test\tdep-1\t2026-03-24T00:00:00.000Z\tcf-token:keychain"
    ));
}

#[test]
fn login_prompts_for_api_base_when_unset() {
    let mut stage = Stage::new(
        &format!("{API_BASE}\n"),
        vec![metadata(None), verified("cf-token:prompted-api")],
    );
    let result = run_login(&mut stage, &["--token", "token-from-flag"], bare_environment());
    assert_eq!(result, Ok(()));
    assert_eq!(stage.stderr, "");
    assert!(stage.stdout.contains("API base URL: "));
    assert!(stage.stdout.contains("logged in as cf-token:prompted-api"));
    assert_eq!(stage.saved[0].api_base, API_BASE);
    assert_eq!(stage.saved[0].token_storage, Some(TokenStorage::File));
    assert_eq!(stage.saved[0].token, text("token-from-flag"));
}

#[test]
fn login_prompts_for_api_base_when_not_configured() {
    let mut stage = Stage::new(
        &format!("{API_BASE}\n"),
        vec![metadata(None), verified("cf-token:prompted-api")],
    );
    let result = run_login(&mut stage, &["--token", "token-from-flag"], bare_environment());
    assert_eq!(result, Ok(()));
    assert_eq!(stage.stderr, "");
    assert!(stage.stdout.contains("API base URL: "));
    assert!(stage.stdout.contains("logged in as cf-token:prompted-api"));
    assert_eq!(stage.requests.len(), 2);
    assert_eq!(stage.requests[0].url, format!("{API_BASE}/v1/meta"));
    assert_eq!(stage.requests[1].url, format!("{API_BASE}/v1/auth/verify"));
}

#[test]
fn login_fails_with_clear_error_when_prompted_api_base_is_empty() {
    let mut stage = Stage::new("\n", vec![]);
    let result = run_login(&mut stage, &["--token", "token-from-flag"], bare_environment());
    assert!(stage.stdout.contains("API base URL: "));
    assert_eq!(
        result,
        Err(
            "invalid API base URL: expected absolute http(s) URL like https://api.example.com"
                .to_string()
        )
    );
}

#[test]
fn admin_login_without_token_shows_where_the_service_has_tokens_made() {
    let mut stage = Stage::new(
        "token-from-prompt\n",
        vec![
            metadata(Some("https://dash.cloudflare.com/profile/api-tokens?foo=bar")),
            verified("cf-token:prompt"),
        ],
    );
    let result = run_login(
        &mut stage,
        &["--api-base", API_BASE, "--auth", "cloudflare-admin"],
        bare_environment(),
    );
    assert_eq!(result, Ok(()));
    assert_eq!(
        stage.stdout,
        "Create a Cloudflare API token if you do not have one:\nhttps://dash.cloudflare.com/profile/api-tokens?foo=bar\nCloudflare API token: logged in as cf-token:prompt\n"
    );
    assert_eq!(stage.requests[1].authorization, text("Bearer token-from-prompt"));
}

#[test]
fn admin_login_without_token_falls_back_to_the_usual_page() {
    let mut stage = Stage::new(
        &format!("{API_BASE}\ntoken-two-step\n"),
        vec![Event::Metadata(None), Event::Verified(Reply::Accepted(None))],
    );
    let result = run_login(&mut stage, &["--auth", "cloudflare-admin"], bare_environment());
    assert_eq!(result, Ok(()));
    assert_eq!(
        stage.stdout,
        "API base URL: Create a Cloudflare API token if you do not have one:\nhttps://dash.cloudflare.com/profile/api-tokens\nCloudflare API token: logged in as cloudflare-admin\n"
    );
    assert_eq!(stage.requests[1].authorization, text("Bearer token-two-step"));
}

#[test]
fn login_takes_settings_from_the_environment() {
    let mut stage = Stage::new("", vec![session("s", "carol", false)]);
    let env = Environment {
        api_base: text(" https://api.example.test "),
        token: text("  "),
        username: text(" carol "),
        password: text(" pass word "),
        interactive: false,
    };
    assert_eq!(run_login(&mut stage, &[], env), Ok(()));
    assert_eq!(stage.requests[0].url, "https://api.example.test/v1/auth/login");
    assert_eq!(
        stage.requests[0].payload,
        Payload::Login { username: "carol".to_string(), password: " pass word ".to_string() }
    );
}

#[test]
fn interactive_login_may_correct_answers() {
    let mut stage = Stage::new(
        "not-a-url\nhttps://api.example.test\n\nalice\n\nsecret\n \nbetter\n",
        vec![
            session("t1", "alice", true),
            Event::Changed(Reply::Accepted(())),
            session("t2", "alice", false),
        ],
    );
    let env = Environment { interactive: true, ..bare_environment() };
    assert_eq!(run_login(&mut stage, &[], env), Ok(()));
    assert_eq!(
        stage.stdout,
        "Enter API base URL (for example: https://api.example.com)\nAPI base URL: API base URL: Use your issued username from the admin.\nUsername: Username: Password: Password: password change required for this account.\nNew password: New password: password updated\nlogged in as alice\n"
    );
    assert_eq!(
        stage.stderr,
        "invalid API base URL: expected absolute http(s) URL like https://api.example.com\nusername is required\npassword is required\nnew password cannot be empty\n"
    );
    assert_eq!(stage.saved[0].auth.as_ref().expect("auth").token_storage, Some(TokenStorage::File));
}

#[test]
fn login_reports_what_the_service_refuses() {
    let refused = || {
        Event::SignedIn(Reply::Refused { status: 401, body: "nope".to_string() })
    };
    let args = ["--api-base", API_BASE, "--username", "a", "--password", "b"];
    let mut stage = Stage::new("", vec![refused()]);
    assert_eq!(
        run_login(&mut stage, &args, bare_environment()),
        Err("login failed: nope".to_string())
    );
    let mut stage = Stage::new(
        "",
        vec![Event::SignedIn(Reply::Accepted(ServiceLoginResponse {
            access_token: text("  "),
            actor: None,
            username: None,
            role: None,
            must_change_password: None,
        }))],
    );
    assert_eq!(
        run_login(&mut stage, &args, bare_environment()),
        Err("login failed: missing accessToken".to_string())
    );
    let mut stage = Stage::new("", vec![Event::SignedIn(Reply::Failed("no route".to_string()))]);
    assert_eq!(
        run_login(&mut stage, &args, bare_environment()),
        Err("no route".to_string())
    );
    let again = [
        "--api-base",
        API_BASE,
        "--username",
        "a",
        "--password",
        "b",
        "--new-password",
        "c",
    ];
    let mut stage = Stage::new(
        "",
        vec![
            session("t", "a", true),
            Event::Changed(Reply::Accepted(())),
            session("t", "a", true),
        ],
    );
    assert_eq!(
        run_login(&mut stage, &again, bare_environment()),
        Err(
            "login failed: password change completed but server still requires password change"
                .to_string()
        )
    );
    assert!(stage.saved.is_empty());
}

#[test]
fn login_reports_bad_settings_in_order() {
    let fails = |args: &[&str]| {
        let mut stage = Stage::new("", vec![]);
        run_login(&mut stage, args, bare_environment()).expect_err("must fail")
    };
    assert_eq!(
        fails(&["--api-base", API_BASE, "--auth", "magic"]),
        "invalid login mode: expected service-session or cloudflare-admin"
    );
    assert_eq!(
        fails(&["--api-base", API_BASE, "--new-password", " "]),
        "new password cannot be empty"
    );
    assert_eq!(
        fails(&["--api-base", API_BASE, "--token-storage", "cloud"]),
        "invalid token storage: expected file or keychain"
    );
    assert_eq!(
        fails(&["--api-base", API_BASE, "--username", "a", "--password", " "]),
        "password is required"
    );
    assert_eq!(
        fails(&["--api-base", "ftp://api.example.test"]),
        "invalid API base URL: expected absolute http(s) URL like https://api.example.com"
    );
}

#[test]
fn login_refuses_a_token_that_no_header_can_carry() {
    let mut stage = Stage::new("", vec![Event::Metadata(None)]);
    assert_eq!(
        run_login(
            &mut stage,
            &["--api-base", API_BASE, "--token", "two\nlines"],
            bare_environment()
        ),
        Err("failed to parse header value".to_string())
    );
}

#[test]
fn init_prompts_for_api_base_and_previews_public_url() {
    let mut stage = Stage::new(&format!("{API_BASE}\n"), vec![metadata(None)]);
    let result = run_init(
        &mut stage,
        &["--slug", "my-site", "--publish-dir", "."],
        bare_environment(),
    );
    assert_eq!(result, Ok(()));
    assert_eq!(stage.stderr, "");
    assert!(stage.stdout.contains("API base URL: "));
    assert!(stage.stdout.contains("saved .cfsurge.json"));
    assert!(stage.stdout.contains("public URL preview: https://my-site.example.test"));
    assert_eq!(
        stage.saved_sites,
        vec![SiteConfig {
            slug: "my-site".to_string(),
            publish_dir: ".".to_string(),
            access: cfsurge::access::Access::Public,
        }]
    );
    assert_eq!(stage.requests[0].url, format!("{API_BASE}/v1/meta"));
}

#[test]
fn init_still_saves_site_when_metadata_is_unavailable() {
    let mut stage = Stage::new("\n", vec![Event::Metadata(None)]);
    let result = run_init(
        &mut stage,
        &["--api-base", API_BASE, "--slug", "my-site", "--publish-dir", "public"],
        bare_environment(),
    );
    assert_eq!(result, Ok(()));
    assert_eq!(
        stage.stdout,
        "saved .cfsurge.json\nnext step: run \"cfsurge publish\" to deploy this site\n"
    );
    assert!(!stage.stdout.contains("public URL preview"));
    assert_eq!(stage.saved_sites[0].slug, "my-site");
    assert_eq!(stage.saved_sites[0].publish_dir, "public");
    assert_eq!(stage.saved_sites[0].access, cfsurge::access::Access::Public);
}

#[test]
fn init_fails_with_clear_error_when_prompted_api_base_is_invalid() {
    let mut stage = Stage::new("not-a-url\n", vec![]);
    let result = run_init(
        &mut stage,
        &["--slug", "my-site", "--publish-dir", "."],
        bare_environment(),
    );
    assert!(stage.stdout.contains("API base URL: "));
    assert_eq!(
        result,
        Err(
            "invalid API base URL: expected absolute http(s) URL like https://api.example.com"
                .to_string()
        )
    );
    assert!(stage.saved_sites.is_empty());
}

#[test]
fn init_keeps_what_an_existing_site_says() {
    let mut stage = Stage::new("\n\n", vec![Event::Metadata(None)]);
    stage.site = Some(SiteConfig {
        slug: "old-site".to_string(),
        publish_dir: "dist".to_string(),
        access: cfsurge::access::Access::Link,
    });
    let result = run_init(&mut stage, &["--api-base", API_BASE], bare_environment());
    assert_eq!(result, Ok(()));
    assert!(stage.stdout.starts_with("Project slug [old-site]: Publish directory [dist]: saved"));
    assert_eq!(stage.saved_sites[0].slug, "old-site");
    assert_eq!(stage.saved_sites[0].publish_dir, "dist");
    assert_eq!(stage.saved_sites[0].access, cfsurge::access::Access::Link);
}

#[test]
fn init_lets_a_user_choose_the_access_mode() {
    let mut stage = Stage::new("my-site\n\n", vec![metadata(None)]);
    let env = Environment { interactive: true, ..bare_environment() };
    let result = run_init(&mut stage, &["--api-base", "https://api.example.test"], env);
    assert_eq!(result, Ok(()));
    assert_eq!(stage.saved_sites[0].publish_dir, ".");
    assert_eq!(stage.saved_sites[0].access, cfsurge::access::Access::Public);
    assert!(stage
        .stdout
        .contains("Project slug is used as hostname label (a-z, 0-9, hyphen).\nProject slug: "));
    assert!(stage.stdout.contains(
        "Publish directory is relative to the current working directory.\nPublish directory [.]: "
    ));
}

#[test]
fn init_refuses_bad_settings() {
    let fails = |args: &[&str], input: &str| {
        let mut stage = Stage::new(input, vec![metadata(None)]);
        run_init(&mut stage, args, bare_environment()).expect_err("must fail")
    };
    assert_eq!(
        fails(&["--visibility", "public"], ""),
        "--visibility is no longer supported. Use --access <public|basic|link>."
    );
    assert_eq!(
        fails(&["--api-base", "https://api.example.test", "--slug", "127"], "\n"),
        "invalid slug: 127 (reserved_slug)"
    );
    assert_eq!(
        fails(&["--api-base", "https://api.example.test"], "\n"),
        "Project slug is required"
    );
    assert_eq!(
        fails(&["--api-base", "https://api.example.test", "--slug", "a", "--publish-dir", " "], ""),
        "publish directory cannot be empty"
    );
    assert_eq!(
        fails(
            &[
                "--api-base",
                "https://api.example.test",
                "--slug",
                "a",
                "--publish-dir",
                ".",
                "--access",
                "secret"
            ],
            ""
        ),
        "invalid access: expected public, basic, or link"
    );
}

#[test]
fn remove_uses_site_config_slug_by_default() {
    let stored = stored_config(&format!(
        "{{\n  \"apiBase\": \"{API_BASE}\",\n  \"tokenStorage\": \"file\",\n  \"token\": \"token-remove\"\n}}\n"
    ));
    let site = read_site_config_if_exists(
        cfsurge::config::FileText::Text(
            "{\n  \"slug\": \"config-slug\",\n  \"publishDir\": \".\"\n}\n".to_string(),
        ),
        ".cfsurge.json",
    )
    .expect("site");
    let slug = resolve_removal_target(&[], site).expect("slug");
    let request = remove_project_request(&config_of(&stored).expect("config"), &slug).expect("request");
    assert_eq!(request.method, Method::Delete);
    assert_eq!(request.url, format!("{API_BASE}/v1/projects/config-slug"));
    assert_eq!(request.authorization, text("Bearer token-remove"));
    assert_eq!(
        remove_project(&slug, Reply::Accepted(())),
        Ok("removed config-slug".to_string())
    );
}

#[test]
fn remove_explicit_slug_overrides_site_config_slug() {
    let stored = stored_config(&format!(
        "{{\n  \"apiBase\": \"{API_BASE}\",\n  \"tokenStorage\": \"file\",\n  \"token\": \"token-remove\"\n}}\n"
    ));
    let site = read_site_config_if_exists(
        cfsurge::config::FileText::Text(
            "{\n  \"slug\": \"config-slug\",\n  \"publishDir\": \".\"\n}\n".to_string(),
        ),
        ".cfsurge.json",
    )
    .expect("site");
    let slug = resolve_removal_target(&words(&["arg-slug"]), site).expect("slug");
    let request = remove_project_request(&config_of(&stored).expect("config"), &slug).expect("request");
    assert_eq!(request.url, format!("{API_BASE}/v1/projects/arg-slug"));
    assert_eq!(request.authorization, text("Bearer token-remove"));
    assert_eq!(
        remove_project(&slug, Reply::Accepted(())),
        Ok("removed arg-slug".to_string())
    );
}

#[test]
fn remove_reserves_api_host_first_label_from_configured_api_base() {
    let stored = stored_config(
        "{\n  \"apiBase\": \"https://manage.example.test\",\n  \"tokenStorage\": \"file\",\n  \"token\": \"token-remove\"\n}\n",
    );
    let slug = resolve_removal_target(&words(&["manage"]), None).expect("slug");
    assert_eq!(
        remove_project_request(&config_of(&stored).expect("config"), &slug),
        Err("invalid slug: manage (reserved_slug)".to_string())
    );
}

#[test]
fn remove_reserves_unlisted_host_label() {
    let stored = stored_config(
        "{\n  \"apiBase\": \"https://api.example.test\",\n  \"tokenStorage\": \"file\",\n  \"token\": \"token-remove\"\n}\n",
    );
    let slug = resolve_removal_target(&words(&["u"]), None).expect("slug");
    assert_eq!(
        remove_project_request(&config_of(&stored).expect("config"), &slug),
        Err("invalid slug: u (reserved_slug)".to_string())
    );
}

#[test]
fn remove_reports_its_failures() {
    assert_eq!(
        resolve_removal_target(&words(&["--force"]), None),
        Err(
            "usage: cfsurge remove [slug] (or configure .cfsurge.json via cfsurge init)".to_string()
        )
    );
    assert_eq!(
        remove_project("a", Reply::Refused { status: 404, body: "gone".to_string() }),
        Err("remove failed: gone".to_string())
    );
}

#[test]
fn list_prints_access_and_fallbacks() {
    let project = |slug: &str| ProjectRecord {
        slug: slug.to_string(),
        hostname: None,
        access: None,
        served_url: None,
        public_url: None,
        share_url: None,
        active_deployment_id: None,
        updated_at: None,
        updated_by: None,
    };
    let lines = list_projects(Reply::Accepted(vec![
        ProjectRecord {
            access: text("link"),
            served_url: text("https://public-site.example.test"),
            public_url: text("https://other.example.test"),
            share_url: text("https://public-site.example.test/s/abc"),
            active_deployment_id: text("dep-1"),
            updated_at: text("2026-03-23T00:00:00.000Z"),
            updated_by: text("cf-token:a"),
            ..project("public-site")
        },
        ProjectRecord {
            served_url: text(" "),
            public_url: text("https://legacy.example.test"),
            ..project("legacy")
        },
        ProjectRecord { access: text("secret"), hostname: text("host.example.test"), ..project("h") },
        project("bare"),
    ]));
    assert_eq!(
        lines,
        Ok(words(&[
            "public-site\tlink\thttps://public-site.example.test\tdep-1\t2026-03-23T00:00:00.000Z\tcf-token:a\thttps://public-site.example.test/s/abc",
            "legacy\tpublic\thttps://legacy.example.test\t-\t-\t-\t-",
            "h\tpublic\thost.example.test\t-\t-\t-\t-",
            "bare\tpublic\t-\t-\t-\t-\t-",
        ]))
    );
    assert_eq!(
        list_projects(Reply::Refused { status: 500, body: "boom".to_string() }),
        Err("list failed: boom".to_string())
    );
}

#[test]
fn admin_users_commands_call_expected_endpoints() {
    let stored = stored_config(&format!(
        "{{\n  \"apiBase\": \"{API_BASE}\",\n  \"auth\": {{\n    \"type\": \"service-session\",\n    \"tokenStorage\": \"file\",\n    \"accessToken\": \"admin-session-token\",\n    \"username\": \"alice\",\n    \"role\": \"admin\",\n    \"mustChangePassword\": false\n  }}\n}}\n"
    ));
    let config = config_of(&stored).expect("config");
    let bearer = text("Bearer admin-session-token");

    assert_eq!(admin(&words(&["users", "list"])), Ok(AdminCommand::List));
    let request = admin_users_list_request(&config).expect("request");
    assert_eq!(request.method, Method::Get);
    assert_eq!(request.url, format!("{API_BASE}/v1/admin/users"));
    assert_eq!(request.authorization, bearer);
    let user = |name: &str, role: &str, status: &str, due: bool| AdminUserRecord {
        username: text(name),
        role: text(role),
        status: text(status),
        must_change_password: Some(due),
    };
    assert_eq!(
        admin_users_list(Reply::Accepted(Some(vec![
            user("alice", "admin", "active", false),
            user("bob", "user", "disabled", true),
        ]))),
        Ok(words(&["alice\tadmin\tactive\tno", "bob\tuser\tdisabled\tyes"]))
    );

    let create = words(&["--username", "charlie", "--temporary-password", "temp-created"]);
    assert_eq!(
        resolve_admin_username(&create, "--username", "Username"),
        Resolved::Known("charlie".to_string())
    );
    assert_eq!(
        admin_users_create_request(&create, &config, "charlie"),
        Ok(Request {
            method: Method::Post,
            url: format!("{API_BASE}/v1/admin/users"),
            authorization: text("Bearer admin-session-token"),
            payload: Payload::NewUser {
                username: "charlie".to_string(),
                role: "user".to_string(),
                temporary_password: text("temp-created"),
            },
        })
    );
    assert_eq!(
        admin_users_create(
            "charlie",
            Reply::Accepted(AdminUserMutationPayload {
                username: text("charlie"),
                temporary_password: text("temp-created"),
            })
        ),
        Ok("created user charlie\ntemporary password: temp-created".to_string())
    );

    let name = reset_password_target(&words(&["charlie"])).expect("name");
    let request = admin_users_reset_password_request(&config, &name).expect("request");
    assert_eq!(request.method, Method::Post);
    assert_eq!(request.url, format!("{API_BASE}/v1/admin/users/charlie/reset-password"));
    assert_eq!(request.authorization, bearer);
    assert_eq!(
        admin_users_reset_password(
            &name,
            Reply::Accepted(AdminUserMutationPayload {
                username: None,
                temporary_password: text("temp-reset"),
            })
        ),
        Ok("reset password for charlie\ntemporary password: temp-reset".to_string())
    );

    for (switch, word, line) in [
        (UserSwitch::Disable, "disable", "disabled user charlie"),
        (UserSwitch::Enable, "enable", "enabled user charlie"),
    ] {
        let name = toggle_status_target(&words(&["charlie"]), switch).expect("name");
        let request = admin_users_toggle_status_request(&config, &name, switch).expect("request");
        assert_eq!(request.url, format!("{API_BASE}/v1/admin/users/charlie/{word}"));
        assert_eq!(request.authorization, bearer);
        assert_eq!(
            admin_users_toggle_status(&name, switch, Reply::Accepted(())),
            Ok(line.to_string())
        );
    }
}

#[test]
fn admin_users_commands_report_their_failures() {
    let stored = stored_config(
        "{\"apiBase\":\"https://api.example.test\",\"tokenStorage\":\"file\",\"token\":\"t\"}",
    );
    let config = config_of(&stored).expect("config");
    let usage = "usage: cfsurge admin users <list|create|reset-password|disable|enable> [...]";
    assert_eq!(admin(&words(&["groups", "list"])), Err(usage.to_string()));
    assert_eq!(admin(&words(&["users"])), Err(usage.to_string()));
    assert_eq!(admin(&words(&["users", "delete"])), Err(usage.to_string()));
    assert_eq!(
        admin_users_create_request(&words(&["--role", "owner"]), &config, "a"),
        Err("invalid role: expected user or admin".to_string())
    );
    assert_eq!(
        reset_password_target(&words(&["  "])),
        Err("usage: cfsurge admin users reset-password <username>".to_string())
    );
    assert_eq!(
        toggle_status_target(&[], UserSwitch::Enable),
        Err("usage: cfsurge admin users enable <username>".to_string())
    );
    assert_eq!(
        admin_users_toggle_status(
            "a",
            UserSwitch::Disable,
            Reply::Refused { status: 403, body: "no".to_string() }
        ),
        Err("admin users disable failed: no".to_string())
    );
    assert_eq!(
        admin_users_create("a b", Reply::Unreadable("not json".to_string())),
        Ok("created user a b".to_string())
    );
    assert_eq!(
        admin_users_list(Reply::Accepted(None)),
        Ok(vec!["no users".to_string()])
    );
    assert_eq!(
        admin_users_list(Reply::Unreadable("not json".to_string())),
        Err("not json".to_string())
    );
    let request = admin_users_reset_password_request(&config, "a b/\u{e9}").expect("request");
    assert_eq!(
        request.url,
        "https://api.example.test/v1/admin/users/a%20b%2F%C3%A9/reset-password"
    );
    assert_eq!(
        admin_users_reset_password(
            "a",
            Reply::Refused { status: 404, body: "who".to_string() }
        ),
        Err("admin users reset-password failed: who".to_string())
    );
}

#[test]
fn logout_revokes_service_session_before_clearing_local_state() {
    let stored = stored_config(&format!(
        "{{\n  \"apiBase\": \"{API_BASE}\",\n  \"auth\": {{\n    \"type\": \"service-session\",\n    \"tokenStorage\": \"file\",\n    \"accessToken\": \"session-token-logout\"\n  }}\n}}\n"
    ));
    assert_eq!(
        logout(&stored, None, None, KeychainRead::Unavailable),
        Ok(Some(Request {
            method: Method::Post,
            url: format!("{API_BASE}/v1/auth/logout"),
            authorization: text("Bearer session-token-logout"),
            payload: Payload::Nothing,
        }))
    );
    assert_eq!(LOGGED_OUT, "logged out");
}

#[test]
fn logout_removes_config_file() {
    let stored = stored_config(
        "{\n  \"apiBase\": \"https://api.example.test\",\n  \"tokenStorage\": \"file\",\n  \"token\": \"token-logout\"\n}\n",
    );
    assert_eq!(logout(&stored, None, None, KeychainRead::Unavailable), Ok(None));
    assert_eq!(LOGGED_OUT, "logged out");
}

#[test]
fn logout_reports_a_base_url_that_cannot_be_used() {
    let stored = stored_config(
        "{\"apiBase\":\"https://api.example.test\",\"auth\":{\"type\":\"service-session\",\"accessToken\":\"t\"}}",
    );
    let wrong = "nowhere".to_string();
    assert_eq!(
        logout(&stored, Some(&wrong), None, KeychainRead::Unavailable),
        Err(
            "invalid API base URL: expected absolute http(s) URL like https://api.example.com"
                .to_string()
        )
    );
    let other = "https://other.example.test/".to_string();
    let request = logout(&stored, Some(&other), None, KeychainRead::Unavailable)
        .expect("plan")
        .expect("request");
    assert_eq!(request.url, "https://other.example.test/v1/auth/logout");
    let unset = stored_config(
        "{\"apiBase\":\"https://api.example.test\",\"auth\":{\"type\":\"service-session\"}}",
    );
    assert_eq!(
        logout(&unset, None, None, KeychainRead::Unavailable),
        Err("missing API token. Run cfsurge login.".to_string())
    );
}
