//! What a resolver hands to the transport, and what it takes back.

use vstd::prelude::*;
use vstd::string::*;

verus! {

/// The product identifier that every request carries.
pub const USER_AGENT: &'static str =
    "cmus-discord-rpc/1.0 ( https://github.com/inevitabby/cmus-discord-rpc )";

/// An HTTP GET request.
#[derive(Debug, PartialEq, Eq)]
pub struct Request {
    /// The address to fetch.
    pub url: String,
    /// The value of the `User-Agent` header.
    pub user_agent: String,
}

/// The model of a `Request`.
pub struct RequestView {
    pub url: Seq<char>,
    pub user_agent: Seq<char>,
}

impl View for Request {
    type V = RequestView;

    open spec fn view(&self) -> RequestView {
        RequestView { url: self.url@, user_agent: self.user_agent@ }
    }
}

/// What came of a request.
#[derive(Debug, PartialEq, Eq)]
pub enum Reply {
    /// The response body, whatever its status.
    Body(String),
    /// The request could not be completed.
    Failed,
}

impl View for Reply {
    type V = Option<Seq<char>>;

    open spec fn view(&self) -> Option<Seq<char>> {
        match self {
            Reply::Body(text) => Some(text@),
            Reply::Failed => None,
        }
    }
}

/// Whether `transport` may be handed a GET request for `url` that carries
/// the product identifier.
pub open spec fn accepts<F: Fn(&Request) -> Reply>(transport: &F, url: Seq<char>) -> bool {
    forall|request: &Request|
        request@ == (RequestView { url, user_agent: USER_AGENT@ }) ==> #[trigger] transport.requires(
            (request,),
        )
}

/// Whether `transport` may answer `reply` to a GET request for `url` that
/// carries the product identifier.
pub open spec fn answers<F: Fn(&Request) -> Reply>(
    transport: &F,
    url: Seq<char>,
    reply: Reply,
) -> bool {
    exists|request: Request|
        request@ == (RequestView { url, user_agent: USER_AGENT@ }) && #[trigger] transport.ensures(
            (&request,),
            reply,
        )
}

impl Request {
    /// A GET request for `url` that carries the product identifier.
    pub fn get(url: String) -> (request: Request)
        ensures
            request@ == (RequestView { url: url@, user_agent: USER_AGENT@ }),
    {
        Request { url, user_agent: String::from_str(USER_AGENT) }
    }
}

} // verus!
