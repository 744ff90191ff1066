//! What a command in progress asks to be done, and what it is told of the outcome.
use crate::config::{KeychainWrite, StoredConfig};
use crate::http::{Reply, Request};
use crate::prompt::{Choice, Question};
use crate::session::ServiceLoginResponse;
use crate::site::SiteConfig;
use crate::slug::ApiMetadata;
use vstd::prelude::*;

verus! {

/// What a command in progress asks to be done.
#[derive(Debug, PartialEq, Eq)]
pub enum Action<T = String> {
    /// Put a question until the answer is accepted, and tell the answer.
    Ask(Question<T>),
    /// Put a choice, and tell the option that was chosen.
    Choose { choice: Choice, marked: usize },
    /// Ask the service what it says of itself.
    FetchMetadata(Request<T>),
    /// Have the service verify a token.
    Verify(Request<T>),
    /// Log in with a password.
    SignIn(Request<T>),
    /// Change a password.
    ChangePassword(Request<T>),
    /// Put a token into the keychain.
    StoreInKeychain(T),
    /// Write the configuration file.
    SaveConfig(StoredConfig<T>),
    /// Read the configuration file.
    ReadConfig,
    /// Have the keychain forget the token, with a warning where that fails.
    ForgetKeychain,
    /// Read the site configuration.
    ReadSite,
    /// Write the site configuration.
    SaveSite(SiteConfig<T>),
    /// Show a line.
    Say(T),
    /// The command is done: show these lines.
    Finish(T),
    /// The command failed with this message.
    Fail(T),
}

impl DeepView for Action {
    type V = Action<Seq<char>>;

    open spec fn deep_view(&self) -> Action<Seq<char>> {
        match self {
            Action::Ask(question) => Action::Ask(question.deep_view()),
            Action::Choose { choice, marked } => Action::Choose { choice: *choice, marked: *marked },
            Action::FetchMetadata(request) => Action::FetchMetadata(request.deep_view()),
            Action::Verify(request) => Action::Verify(request.deep_view()),
            Action::SignIn(request) => Action::SignIn(request.deep_view()),
            Action::ChangePassword(request) => Action::ChangePassword(request.deep_view()),
            Action::StoreInKeychain(token) => Action::StoreInKeychain(token@),
            Action::SaveConfig(config) => Action::SaveConfig(config.deep_view()),
            Action::ReadConfig => Action::ReadConfig,
            Action::ForgetKeychain => Action::ForgetKeychain,
            Action::ReadSite => Action::ReadSite,
            Action::SaveSite(site) => Action::SaveSite(site.deep_view()),
            Action::Say(line) => Action::Say(line@),
            Action::Finish(lines) => Action::Finish(lines@),
            Action::Fail(message) => Action::Fail(message@),
        }
    }
}

/// What a command in progress is told.
#[derive(Debug, PartialEq, Eq)]
pub enum Event<T = String> {
    /// The answer to a question.
    Answered(T),
    /// The option that was chosen.
    Chosen(usize),
    /// What the service says of itself, if that could be had.
    Metadata(Option<ApiMetadata<T>>),
    /// What verifying a token came to; the service may name who holds it.
    Verified(Reply<Option<T>, T>),
    /// What logging in with a password came to.
    SignedIn(Reply<ServiceLoginResponse<T>, T>),
    /// What changing a password came to.
    Changed(Reply<(), T>),
    /// What putting a token into the keychain came to.
    Kept(KeychainWrite<T>),
    /// The configuration that was read.
    Config(Option<StoredConfig<T>>),
    /// The site configuration that was read.
    Site(Option<SiteConfig<T>>),
    /// What was asked for is done.
    Done,
    /// What was asked for could not be done.
    Failed(T),
}

impl DeepView for Event {
    type V = Event<Seq<char>>;

    open spec fn deep_view(&self) -> Event<Seq<char>> {
        match self {
            Event::Answered(answer) => Event::Answered(answer@),
            Event::Chosen(option) => Event::Chosen(*option),
            Event::Metadata(metadata) => Event::Metadata(metadata.deep_view()),
            Event::Verified(reply) => Event::Verified(reply.deep_view()),
            Event::SignedIn(reply) => Event::SignedIn(reply.deep_view()),
            Event::Changed(reply) => Event::Changed(reply.deep_view()),
            Event::Kept(write) => Event::Kept(write.deep_view()),
            Event::Config(stored) => Event::Config(stored.deep_view()),
            Event::Site(site) => Event::Site(site.deep_view()),
            Event::Done => Event::Done,
            Event::Failed(message) => Event::Failed(message@),
        }
    }
}

/// What the process environment says.
#[derive(Debug, PartialEq, Eq)]
pub struct Environment<T = String> {
    /// `CFSURGE_API_BASE`.
    pub api_base: Option<T>,
    /// `CFSURGE_TOKEN`.
    pub token: Option<T>,
    /// `CFSURGE_USERNAME`.
    pub username: Option<T>,
    /// `CFSURGE_PASSWORD`.
    pub password: Option<T>,
    /// Whether a user is there to be asked.
    pub interactive: bool,
}

impl DeepView for Environment {
    type V = Environment<Seq<char>>;

    open spec fn deep_view(&self) -> Environment<Seq<char>> {
        Environment {
            api_base: self.api_base.deep_view(),
            token: self.token.deep_view(),
            username: self.username.deep_view(),
            password: self.password.deep_view(),
            interactive: self.interactive,
        }
    }
}

} // verus!
