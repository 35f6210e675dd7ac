//! The listings of the Events API: each builds the URL of its listing and
//! makes the request through the pipeline, with no extra headers.
use crate::activity::{EventReturnType, IssueEventReturnType};
use crate::client::Client;
use crate::http::{fetched, get, request_headers_spec, Transport};
use vstd::prelude::*;

verus! {

/// List public events.
pub fn list_events<T: Transport>(client: &Client, transport: &T) -> (r: EventReturnType)
    ensures
        fetched(
            *transport,
            client.base_url@ + "events"@,
            request_headers_spec(client.user_agent@, None),
            r,
        ),
{
    let mut url = client.base_url.clone();
    url.append("events");
    get(transport, client.user_agent.as_str(), url.as_str(), None)
}

/// List the events of a repository.
pub fn list_repo_events<T: Transport>(client: &Client, transport: &T, user: &str, repo: &str) -> (r: EventReturnType)
    ensures
        fetched(
            *transport,
            client.base_url@ + "repos/"@ + user@ + "/"@ + repo@ + "/events"@,
            request_headers_spec(client.user_agent@, None),
            r,
        ),
{
    let mut url = client.base_url.clone();
    url.append("repos/");
    url.append(user);
    url.append("/");
    url.append(repo);
    url.append("/events");
    get(transport, client.user_agent.as_str(), url.as_str(), None)
}

/// List the events that a user has received, by watching repositories and
/// following users. Authenticated as that user one sees private events too;
/// otherwise only public ones.
pub fn list_received_user_events<T: Transport>(client: &Client, transport: &T, user: &str) -> (r: EventReturnType)
    ensures
        fetched(
            *transport,
            client.base_url@ + "users/"@ + user@ + "/received_events"@,
            request_headers_spec(client.user_agent@, None),
            r,
        ),
{
    let mut url = client.base_url.clone();
    url.append("users/");
    url.append(user);
    url.append("/received_events");
    get(transport, client.user_agent.as_str(), url.as_str(), None)
}

/// List the public events that a user has received.
pub fn list_received_public_user_events<T: Transport>(client: &Client, transport: &T, user: &str) -> (r: EventReturnType)
    ensures
        fetched(
            *transport,
            client.base_url@ + "users/"@ + user@ + "/received_events/public"@,
            request_headers_spec(client.user_agent@, None),
            r,
        ),
{
    let mut url = client.base_url.clone();
    url.append("users/");
    url.append(user);
    url.append("/received_events/public");
    get(transport, client.user_agent.as_str(), url.as_str(), None)
}

/// List the events that a user performed. Authenticated as that user one
/// sees private events too; otherwise only public ones.
pub fn list_user_events<T: Transport>(client: &Client, transport: &T, user: &str) -> (r: EventReturnType)
    ensures
        fetched(
            *transport,
            client.base_url@ + "users/"@ + user@ + "/events"@,
            request_headers_spec(client.user_agent@, None),
            r,
        ),
{
    let mut url = client.base_url.clone();
    url.append("users/");
    url.append(user);
    url.append("/events");
    get(transport, client.user_agent.as_str(), url.as_str(), None)
}

/// List the public events that a user performed.
pub fn list_public_user_events<T: Transport>(client: &Client, transport: &T, user: &str) -> (r: EventReturnType)
    ensures
        fetched(
            *transport,
            client.base_url@ + "users/"@ + user@ + "/events/public"@,
            request_headers_spec(client.user_agent@, None),
            r,
        ),
{
    let mut url = client.base_url.clone();
    url.append("users/");
    url.append(user);
    url.append("/events/public");
    get(transport, client.user_agent.as_str(), url.as_str(), None)
}

/// List the public events of a network of repositories.
pub fn list_public_network_repo_events<T: Transport>(client: &Client, transport: &T, user: &str, repo: &str) -> (r: EventReturnType)
    ensures
        fetched(
            *transport,
            client.base_url@ + "networks/"@ + user@ + "/"@ + repo@ + "/events"@,
            request_headers_spec(client.user_agent@, None),
            r,
        ),
{
    let mut url = client.base_url.clone();
    url.append("networks/");
    url.append(user);
    url.append("/");
    url.append(repo);
    url.append("/events");
    get(transport, client.user_agent.as_str(), url.as_str(), None)
}

/// List the public events of an organisation.
pub fn list_public_organisation_events<T: Transport>(client: &Client, transport: &T, org: &str) -> (r: EventReturnType)
    ensures
        fetched(
            *transport,
            client.base_url@ + "orgs/"@ + org@ + "/events"@,
            request_headers_spec(client.user_agent@, None),
            r,
        ),
{
    let mut url = client.base_url.clone();
    url.append("orgs/");
    url.append(org);
    url.append("/events");
    get(transport, client.user_agent.as_str(), url.as_str(), None)
}

/// List the events of an organisation as its user `user` sees them: that
/// user's organisation dashboard, which only that user, authenticated, may view.
pub fn list_organisation_events<T: Transport>(client: &Client, transport: &T, user: &str, org: &str) -> (r: EventReturnType)
    ensures
        fetched(
            *transport,
            client.base_url@ + "users/"@ + user@ + "/events/orgs/"@ + org@,
            request_headers_spec(client.user_agent@, None),
            r,
        ),
{
    let mut url = client.base_url.clone();
    url.append("users/");
    url.append(user);
    url.append("/events/orgs/");
    url.append(org);
    get(transport, client.user_agent.as_str(), url.as_str(), None)
}

/// List the issue events of a repository. They have a form of their own,
/// `IssueEventResponse`.
pub fn list_repo_issue_events<T: Transport>(client: &Client, transport: &T, user: &str, repo: &str) -> (r: IssueEventReturnType)
    ensures
        fetched(
            *transport,
            client.base_url@ + "repos/"@ + user@ + "/"@ + repo@ + "/issues/events"@,
            request_headers_spec(client.user_agent@, None),
            r,
        ),
{
    let mut url = client.base_url.clone();
    url.append("repos/");
    url.append(user);
    url.append("/");
    url.append(repo);
    url.append("/issues/events");
    get(transport, client.user_agent.as_str(), url.as_str(), None)
}

/// List the events of a repository of the user that the client names as
/// its user agent.
pub fn list_my_repo_events<T: Transport>(client: &Client, transport: &T, repo: &str) -> (r: EventReturnType)
    ensures
        fetched(
            *transport,
            client.base_url@ + "repos/"@ + client.user_agent@ + "/"@ + repo@ + "/events"@,
            request_headers_spec(client.user_agent@, None),
            r,
        ),
{
    list_repo_events(client, transport, client.user_agent.as_str(), repo)
}

/// List the events that the client's user has received.
pub fn list_my_received_events<T: Transport>(client: &Client, transport: &T) -> (r: EventReturnType)
    ensures
        fetched(
            *transport,
            client.base_url@ + "users/"@ + client.user_agent@ + "/received_events"@,
            request_headers_spec(client.user_agent@, None),
            r,
        ),
{
    list_received_user_events(client, transport, client.user_agent.as_str())
}

/// List the public events that the client's user has received.
pub fn list_my_received_public_events<T: Transport>(client: &Client, transport: &T) -> (r: EventReturnType)
    ensures
        fetched(
            *transport,
            client.base_url@ + "users/"@ + client.user_agent@ + "/received_events/public"@,
            request_headers_spec(client.user_agent@, None),
            r,
        ),
{
    list_received_public_user_events(client, transport, client.user_agent.as_str())
}

/// List the events that the client's user performed.
pub fn list_my_events<T: Transport>(client: &Client, transport: &T) -> (r: EventReturnType)
    ensures
        fetched(
            *transport,
            client.base_url@ + "users/"@ + client.user_agent@ + "/events"@,
            request_headers_spec(client.user_agent@, None),
            r,
        ),
{
    list_user_events(client, transport, client.user_agent.as_str())
}

/// List the public events that the client's user performed.
pub fn list_my_public_user_events<T: Transport>(client: &Client, transport: &T) -> (r: EventReturnType)
    ensures
        fetched(
            *transport,
            client.base_url@ + "users/"@ + client.user_agent@ + "/events/public"@,
            request_headers_spec(client.user_agent@, None),
            r,
        ),
{
    list_public_user_events(client, transport, client.user_agent.as_str())
}

/// List the public events of a network of repositories of the client's user.
pub fn list_my_public_network_repo_events<T: Transport>(client: &Client, transport: &T, repo: &str) -> (r: EventReturnType)
    ensures
        fetched(
            *transport,
            client.base_url@ + "networks/"@ + client.user_agent@ + "/"@ + repo@ + "/events"@,
            request_headers_spec(client.user_agent@, None),
            r,
        ),
{
    list_public_network_repo_events(client, transport, client.user_agent.as_str(), repo)
}

/// List the events of an organisation as the client's user sees them.
pub fn list_my_organisation_events<T: Transport>(client: &Client, transport: &T, org: &str) -> (r: EventReturnType)
    ensures
        fetched(
            *transport,
            client.base_url@ + "users/"@ + client.user_agent@ + "/events/orgs/"@ + org@,
            request_headers_spec(client.user_agent@, None),
            r,
        ),
{
    list_organisation_events(client, transport, client.user_agent.as_str(), org)
}

/// List the issue events of a repository of the client's user.
pub fn list_my_repo_issue_events<T: Transport>(client: &Client, transport: &T, repo: &str) -> (r: IssueEventReturnType)
    ensures
        fetched(
            *transport,
            client.base_url@ + "repos/"@ + client.user_agent@ + "/"@ + repo@ + "/issues/events"@,
            request_headers_spec(client.user_agent@, None),
            r,
        ),
{
    list_repo_issue_events(client, transport, client.user_agent.as_str(), repo)
}

} // verus!
