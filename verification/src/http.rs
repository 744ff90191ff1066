//! Requests to the service, and what came back of them.
use crate::address::{encode, percent_encoded};
use crate::text::outcome;
use vstd::prelude::*;
use vstd::utf8::encode_utf8;

verus! {

#[derive(Clone, Copy, Debug, PartialEq, Eq, Structural)]
pub enum Method {
    Get,
    Post,
    Delete,
}

/// What a request carries besides its headers.
#[derive(Debug, PartialEq, Eq)]
pub enum Payload<T = String> {
    Nothing,
    Login { username: T, password: T },
    ChangePassword { current_password: T, new_password: T },
    NewUser { username: T, role: T, temporary_password: Option<T> },
}

impl DeepView for Payload {
    type V = Payload<Seq<char>>;

    open spec fn deep_view(&self) -> Payload<Seq<char>> {
        match self {
            Payload::Nothing => Payload::Nothing,
            Payload::Login { username, password } => Payload::Login {
                username: username@,
                password: password@,
            },
            Payload::ChangePassword { current_password, new_password } => Payload::ChangePassword {
                current_password: current_password@,
                new_password: new_password@,
            },
            Payload::NewUser { username, role, temporary_password } => Payload::NewUser {
                username: username@,
                role: role@,
                temporary_password: temporary_password.deep_view(),
            },
        }
    }
}

/// A request to the service. A payload is sent as JSON.
#[derive(Debug, PartialEq, Eq)]
pub struct Request<T = String> {
    pub method: Method,
    pub url: T,
    /// The value of the `authorization` header, if the request has one.
    pub authorization: Option<T>,
    pub payload: Payload<T>,
}

impl DeepView for Request {
    type V = Request<Seq<char>>;

    open spec fn deep_view(&self) -> Request<Seq<char>> {
        Request {
            method: self.method,
            url: self.url@,
            authorization: self.authorization.deep_view(),
            payload: self.payload.deep_view(),
        }
    }
}

impl Request {
    /// The same request again.
    pub fn copy(&self) -> (copy: Request)
        ensures
            copy.deep_view() == self.deep_view(),
    {
        let payload = match &self.payload {
            Payload::Nothing => Payload::Nothing,
            Payload::Login { username, password } => Payload::Login {
                username: username.clone(),
                password: password.clone(),
            },
            Payload::ChangePassword { current_password, new_password } => Payload::ChangePassword {
                current_password: current_password.clone(),
                new_password: new_password.clone(),
            },
            Payload::NewUser { username, role, temporary_password } => Payload::NewUser {
                username: username.clone(),
                role: role.clone(),
                temporary_password: temporary_password.clone(),
            },
        };
        Request {
            method: self.method,
            url: self.url.clone(),
            authorization: self.authorization.clone(),
            payload,
        }
    }
}

/// What came back of a request.
#[derive(Debug, PartialEq, Eq)]
pub enum Reply<P, T = String> {
    /// The request was not answered.
    Failed(T),
    /// The answer has a status that does not stand for success.
    Refused { status: u16, body: T },
    /// The answer stands for success, and its body could not be read as what was expected.
    Unreadable(T),
    /// The answer stands for success.
    Accepted(P),
}

impl<P: DeepView> DeepView for Reply<P> {
    type V = Reply<P::V, Seq<char>>;

    open spec fn deep_view(&self) -> Reply<P::V, Seq<char>> {
        match self {
            Reply::Failed(message) => Reply::Failed(message@),
            Reply::Refused { status, body } => Reply::Refused { status: *status, body: body@ },
            Reply::Unreadable(message) => Reply::Unreadable(message@),
            Reply::Accepted(value) => Reply::Accepted(value.deep_view()),
        }
    }
}

/// What a reply gives, or the message that the step named `context` fails with.
pub open spec fn reply_outcome<P>(reply: Reply<P, Seq<char>>, context: Seq<char>) -> Result<
    P,
    Seq<char>,
> {
    match reply {
        Reply::Failed(message) => Err(message),
        Reply::Refused { status, body } => Err(context + " failed: "@ + body),
        Reply::Unreadable(message) => Err(message),
        Reply::Accepted(value) => Ok(value),
    }
}

/// A text as a part of the path of a URL.
pub open spec fn path_part(text: Seq<char>) -> Seq<char> {
    percent_encoded(encode_utf8(text))
}

/// The address of `endpoint` under a base URL.
pub open spec fn endpoint_url(api_base: Seq<char>, endpoint: Seq<char>) -> Seq<char> {
    api_base + endpoint
}

/// What a reply gives, or the message that the step named `context` fails with.
pub fn accept_reply<P: DeepView>(reply: Reply<P>, context: &str) -> (accepted: Result<P, String>)
    ensures
        outcome(accepted) == reply_outcome(reply.deep_view(), context@),
        accepted matches Ok(value) ==> reply == Reply::<P, String>::Accepted(value),
{
    match reply {
        Reply::Failed(message) => Err(message),
        Reply::Refused { status: _, body } => {
            let mut message = context.to_string();
            message.append(" failed: ");
            message.append(body.as_str());
            Err(message)
        },
        Reply::Unreadable(message) => Err(message),
        Reply::Accepted(value) => Ok(value),
    }
}

/// The address of `endpoint` under a base URL.
pub fn join_url(api_base: &str, endpoint: &str) -> (url: String)
    ensures
        url@ == endpoint_url(api_base@, endpoint@),
{
    let mut url = api_base.to_string();
    url.append(endpoint);
    url
}

/// The address of a project's resource: `/v1/projects/`, the project, and `rest`.
pub open spec fn project_url(api_base: Seq<char>, slug: Seq<char>, rest: Seq<char>) -> Seq<char> {
    api_base + "/v1/projects/"@ + path_part(slug) + rest
}

/// The address of a project's resource.
pub fn join_project_url(api_base: &str, slug: &str, rest: &str) -> (url: String)
    ensures
        url@ == project_url(api_base@, slug@, rest@),
{
    let mut url = api_base.to_string();
    url.append("/v1/projects/");
    url.append(encode(slug).as_str());
    url.append(rest);
    url
}

/// A reply that stands for success is the only one that lets a command go on.
pub proof fn law_only_accepted_replies_count<P>(reply: Reply<P, Seq<char>>, context: Seq<char>)
    ensures
        reply_outcome(reply, context) is Ok <==> reply is Accepted,
{
}

/// What a request that was not accepted comes to: a refusal is told with the step that was
/// refused and what the service said; otherwise the reason is told as it is. What was accepted
/// is handed on as it came.
pub proof fn law_replies_are_told_as_they_are<P>(
    value: P,
    status: u16,
    body: Seq<char>,
    message: Seq<char>,
    context: Seq<char>,
)
    ensures
        reply_outcome(Reply::Accepted(value), context) == Ok::<P, Seq<char>>(value),
        reply_outcome::<P>(Reply::Refused { status, body }, context) == Err::<P, Seq<char>>(
            context + " failed: "@ + body,
        ),
        reply_outcome::<P>(Reply::Failed(message), context) == Err::<P, Seq<char>>(message),
        reply_outcome::<P>(Reply::Unreadable(message), context) == Err::<P, Seq<char>>(message),
{
}

/// Addresses are put together from the base URL, the path, and the encoded name of the project.
pub proof fn law_addresses_start_with_the_base(
    api_base: Seq<char>,
    endpoint: Seq<char>,
    slug: Seq<char>,
    rest: Seq<char>,
)
    ensures
        endpoint_url(api_base, endpoint) == api_base + endpoint,
        project_url(api_base, slug, rest) == api_base + "/v1/projects/"@ + percent_encoded(
            encode_utf8(slug),
        ) + rest,
        path_part(slug) == percent_encoded(encode_utf8(slug)),
        crate::slug::is_slug(slug) ==> project_url(api_base, slug, rest) == api_base
            + "/v1/projects/"@ + slug + rest,
{
    if crate::slug::is_slug(slug) {
        crate::slug::law_slug_needs_no_encoding(slug);
    }
}

} // verus!
