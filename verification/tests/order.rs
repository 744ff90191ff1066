use cfsurge::access::Access;
use cfsurge::config::{AuthType, CliConfig, FileText};
use cfsurge::credentials::BasicAuthPayload;
use cfsurge::files::file_entry;
use cfsurge::http::{Method, Reply};
use cfsurge::removal::{Removal, RemovalAction, RemovalEvent};
use cfsurge::setup::{PublishSetup, SetupAction, SetupEvent};
use cfsurge::site::SiteConfig;

const OLD_FLAG: &str = "--visibility is no longer supported. Use --access <public|basic|link>.";
const USAGE: &str =
    "usage: cfsurge publish [dir] [--slug <slug>] (or configure .cfsurge.json via cfsurge init)";

fn words(args: &[&str]) -> Vec<String> {
    args.iter().map(|word| word.to_string()).collect()
}

fn text(value: &str) -> Option<String> {
    Some(value.to_string())
}

fn site(access: Access) -> Option<SiteConfig> {
    Some(SiteConfig { slug: "docs".to_string(), publish_dir: "dist".to_string(), access })
}

fn login() -> CliConfig {
    CliConfig {
        api_base: "https://manage.example.test".to_string(),
        token: "token-publish".to_string(),
        auth_type: AuthType::ServiceSession,
    }
}

fn variables(username: Option<&str>, password: Option<&str>) -> SetupEvent {
    SetupEvent::Variables {
        username: username.map(|value| value.to_string()),
        password: password.map(|value| value.to_string()),
    }
}

fn failed(message: &str) -> SetupEvent {
    SetupEvent::Failed(message.to_string())
}

fn set_up(args: &[&str], events: Vec<SetupEvent>) -> SetupAction {
    let mut state = PublishSetup::start(&words(args));
    for event in events {
        state = state.next(event);
    }
    state.action()
}

fn refused(message: &str) -> SetupAction {
    SetupAction::Fail(message.to_string())
}

#[test]
fn publish_is_refused_in_order() {
    let bad_site = || failed("invalid site config file: .cfsurge.json");
    let no_login = || failed("not logged in");
    let bad_dotenv = || SetupEvent::Dotenv(FileText::Failed("unreadable".to_string()));
    let nothing = || variables(None, None);

    assert_eq!(
        set_up(&["--visibility", "public"], vec![bad_site(), no_login(), nothing(), bad_dotenv()]),
        refused(OLD_FLAG)
    );
    assert_eq!(
        set_up(&[], vec![bad_site(), no_login(), nothing(), bad_dotenv()]),
        refused("invalid site config file: .cfsurge.json")
    );
    assert_eq!(
        set_up(&[], vec![SetupEvent::Site(None), no_login(), nothing(), bad_dotenv()]),
        refused(USAGE)
    );
    assert_eq!(
        set_up(
            &["--slug", "manage"],
            vec![SetupEvent::Site(site(Access::Basic)), no_login(), nothing(), bad_dotenv()]
        ),
        refused("not logged in")
    );
    assert_eq!(
        set_up(
            &["--slug", "manage"],
            vec![
                SetupEvent::Site(site(Access::Basic)),
                SetupEvent::Login(login()),
                nothing(),
                bad_dotenv()
            ]
        ),
        refused("invalid slug: manage (reserved_slug)")
    );
    assert_eq!(
        set_up(
            &[],
            vec![
                SetupEvent::Site(site(Access::Basic)),
                SetupEvent::Login(login()),
                nothing(),
                bad_dotenv()
            ]
        ),
        refused("unreadable")
    );
    assert_eq!(
        set_up(
            &[],
            vec![
                SetupEvent::Site(site(Access::Basic)),
                SetupEvent::Login(login()),
                nothing(),
                SetupEvent::Dotenv(FileText::Absent)
            ]
        ),
        refused(
            "basic publish requires CFSURGE_BASIC_AUTH_USERNAME and CFSURGE_BASIC_AUTH_PASSWORD"
        )
    );
}

#[test]
fn publish_reads_one_thing_after_another() {
    let mut state = PublishSetup::start(&words(&["public", "--slug", "my-site"]));
    assert_eq!(state.action(), SetupAction::ReadSite);
    state = state.next(SetupEvent::Login(login()));
    assert_eq!(state.action(), SetupAction::ReadSite);
    state = state.next(SetupEvent::Site(site(Access::Basic)));
    assert_eq!(state.action(), SetupAction::ReadLogin);
    state = state.next(SetupEvent::Login(login()));
    assert_eq!(state.action(), SetupAction::ReadVariables);
    state = state.next(variables(Some("ann"), None));
    assert_eq!(state.action(), SetupAction::ReadDotenv);
    state = state.next(SetupEvent::Dotenv(FileText::Text(
        "CFSURGE_BASIC_AUTH_USERNAME=bob\nCFSURGE_BASIC_AUTH_PASSWORD=secret\n".to_string(),
    )));
    let SetupAction::Publish(plan) = state.action() else {
        panic!("the publish has its plan");
    };
    assert_eq!(plan.target.directory, "public");
    assert_eq!(plan.target.slug, "my-site");
    assert_eq!(plan.config, login());
    assert_eq!(plan.copy(), plan);
    let files = vec![file_entry("index.html", b"<h1>hello</h1>", 14)];
    let job = plan.job(files);
    assert_eq!(job.api_base, "https://manage.example.test");
    assert_eq!(job.token, "token-publish");
    assert_eq!(job.slug, "my-site");
    assert_eq!(job.access, Access::Basic);
    assert_eq!(
        job.basic_auth,
        Some(BasicAuthPayload { username: "ann".to_string(), password: "secret".to_string() })
    );
    assert!(!job.rotate_share_link);
    assert_eq!(job.files[0].path, "index.html");
    state = state.next(failed("too late"));
    assert!(matches!(state.action(), SetupAction::Publish(_)));
}

#[test]
fn credentials_are_read_only_where_needed() {
    assert!(matches!(
        set_up(&[], vec![SetupEvent::Site(site(Access::Link)), SetupEvent::Login(login())]),
        SetupAction::Publish(plan) if plan.basic_auth.is_none()
    ));
    assert!(matches!(
        set_up(
            &[],
            vec![
                SetupEvent::Site(site(Access::Basic)),
                SetupEvent::Login(login()),
                variables(Some("ann"), Some("secret"))
            ]
        ),
        SetupAction::Publish(plan) if plan.basic_auth.is_some()
    ));
}

#[test]
fn removal_is_refused_in_order() {
    let run = |args: &[&str], events: Vec<RemovalEvent>| {
        let mut state = Removal::start(&words(args));
        for event in events {
            state = state.next(event);
        }
        state.action()
    };
    let fail = |message: &str| RemovalAction::Fail(message.to_string());
    let failed = |message: &str| RemovalEvent::Failed(message.to_string());

    assert_eq!(run(&[], vec![]), RemovalAction::ReadSite);
    assert_eq!(run(&[], vec![failed("bad site"), failed("not logged in")]), fail("bad site"));
    assert_eq!(
        run(&[], vec![RemovalEvent::Site(None), failed("not logged in")]),
        fail("usage: cfsurge remove [slug] (or configure .cfsurge.json via cfsurge init)")
    );
    assert_eq!(
        run(&["manage"], vec![RemovalEvent::Site(None), failed("not logged in")]),
        fail("not logged in")
    );
    assert_eq!(
        run(&["manage"], vec![RemovalEvent::Site(None), RemovalEvent::Login(login())]),
        fail("invalid slug: manage (reserved_slug)")
    );
}

#[test]
fn removal_asks_the_service_once() {
    let mut state = Removal::start(&[]);
    state = state.next(RemovalEvent::Site(site(Access::Public)));
    assert_eq!(state.action(), RemovalAction::ReadLogin);
    state = state.next(RemovalEvent::Login(login()));
    let RemovalAction::Remove(request) = state.action() else {
        panic!("the service is asked");
    };
    assert_eq!(request.method, Method::Delete);
    assert_eq!(request.url, "https://manage.example.test/v1/projects/docs");
    assert_eq!(request.authorization, text("Bearer token-publish"));
    state = state.next(RemovalEvent::Failed("not read now".to_string()));
    assert_eq!(state.action(), RemovalAction::Remove(request));
    state = state.next(RemovalEvent::Removed(Reply::Accepted(())));
    assert_eq!(state.action(), RemovalAction::Finish("removed docs".to_string()));
    state = state.next(RemovalEvent::Login(login()));
    assert_eq!(state.action(), RemovalAction::Finish("removed docs".to_string()));

    let mut state = Removal::start(&words(&["blog"]));
    state = state.next(RemovalEvent::Site(None));
    state = state.next(RemovalEvent::Login(login()));
    state = state.next(RemovalEvent::Removed(Reply::Refused {
        status: 404,
        body: "gone".to_string(),
    }));
    assert_eq!(state.action(), RemovalAction::Fail("remove failed: gone".to_string()));
}
