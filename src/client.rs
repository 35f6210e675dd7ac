//! The client handle: who makes the requests, and where they go.
use vstd::prelude::*;

verus! {

/// The base URL of requests to GitHub.
pub const DEFAULT_BASE_URL: &'static str = "https://api.github.com/";

/// The base URL of uploads to GitHub.
pub const DEFAULT_UPLOAD_BASE_URL: &'static str = "https://uploads.github.com/";

/// The user agent and the base URLs of every request. Nothing in this
/// library changes a `Client`, so one can serve many requests at once.
#[derive(Debug, Clone)]
pub struct Client {
    /// The value of the `User-Agent` header of each request, and the user
    /// that the `list_my_...` requests speak of.
    pub user_agent: String,
    /// The base URL of requests other than uploads.
    pub base_url: String,
    /// The base URL of uploads.
    pub upload_url: String,
}

impl Client {
    /// A client for another service than GitHub, at the URLs given.
    pub fn custom(user: &str, base_url: &str, upload_url: &str) -> (r: Client)
        ensures
            r.user_agent@ == user@,
            r.base_url@ == base_url@,
            r.upload_url@ == upload_url@,
    {
        Client {
            user_agent: String::from_str(user),
            base_url: String::from_str(base_url),
            upload_url: String::from_str(upload_url),
        }
    }

    /// A client for GitHub.
    pub fn new(user: &str) -> (r: Client)
        ensures
            r.user_agent@ == user@,
            r.base_url@ == DEFAULT_BASE_URL@,
            r.upload_url@ == DEFAULT_UPLOAD_BASE_URL@,
    {
        Client::custom(user, DEFAULT_BASE_URL, DEFAULT_UPLOAD_BASE_URL)
    }
}

} // verus!
