//! The records that the event listings return.
use crate::json::{
    bool_field, bool_spec, field_spec, opt_bool_field, opt_bool_spec, opt_record_field,
    opt_record_spec, opt_string_field, opt_string_spec, record_field, string_field, string_spec,
    u64_field, u64_spec, FromJson, JsonValue,
};
use crate::error::ClientError;
use crate::response::Response;
use crate::text::str_eq;
use vstd::prelude::*;

pub mod events;

verus! {

/// The repository that an event concerns.
#[derive(Debug, Clone, PartialEq, Eq)]
pub struct Repository {
    pub id: u64,
    pub name: String,
    pub url: String,
}

impl FromJson for Repository {
    open spec fn decoded(v: JsonValue) -> Option<Repository> {
        match v {
            JsonValue::Object(m) => {
                let id = u64_spec(field_spec(m@, "id"@));
                let name = string_spec(field_spec(m@, "name"@));
                let url = string_spec(field_spec(m@, "url"@));
                if id is Some && name is Some && url is Some {
                    Some(Repository {
                        id: id->Some_0,
                        name: name->Some_0,
                        url: url->Some_0,
                    })
                } else {
                    None
                }
            },
            _ => None,
        }
    }

    fn from_json(v: &JsonValue) -> (r: Option<Repository>) {
        match v {
            JsonValue::Object(m) => {
                let id = match u64_field(m, "id") {
                    Some(x) => x,
                    None => return None,
                };
                let name = match string_field(m, "name") {
                    Some(x) => x,
                    None => return None,
                };
                let url = match string_field(m, "url") {
                    Some(x) => x,
                    None => return None,
                };
                Some(Repository { id, name, url })
            },
            _ => None,
        }
    }
}

/// The user whose action generated an event.
#[derive(Debug, Clone, PartialEq, Eq)]
pub struct Actor {
    pub id: u64,
    pub login: String,
    pub gravatar_id: String,
    pub avatar_url: String,
    pub url: String,
    pub html_url: Option<String>,
    pub followers_url: Option<String>,
    pub following_url: Option<String>,
    pub gists_url: Option<String>,
    pub starred_url: Option<String>,
    pub subscriptions_url: Option<String>,
    pub organizations_url: Option<String>,
    pub repos_url: Option<String>,
    pub events_url: Option<String>,
    pub received_events_url: Option<String>,
    pub site_admin: Option<bool>,
}

impl FromJson for Actor {
    open spec fn decoded(v: JsonValue) -> Option<Actor> {
        match v {
            JsonValue::Object(m) => {
                let id = u64_spec(field_spec(m@, "id"@));
                let login = string_spec(field_spec(m@, "login"@));
                let gravatar_id = string_spec(field_spec(m@, "gravatar_id"@));
                let avatar_url = string_spec(field_spec(m@, "avatar_url"@));
                let url = string_spec(field_spec(m@, "url"@));
                let html_url = opt_string_spec(field_spec(m@, "html_url"@));
                let followers_url = opt_string_spec(field_spec(m@, "followers_url"@));
                let following_url = opt_string_spec(field_spec(m@, "following_url"@));
                let gists_url = opt_string_spec(field_spec(m@, "gists_url"@));
                let starred_url = opt_string_spec(field_spec(m@, "starred_url"@));
                let subscriptions_url = opt_string_spec(field_spec(m@, "subscriptions_url"@));
                let organizations_url = opt_string_spec(field_spec(m@, "organizations_url"@));
                let repos_url = opt_string_spec(field_spec(m@, "repos_url"@));
                let events_url = opt_string_spec(field_spec(m@, "events_url"@));
                let received_events_url = opt_string_spec(field_spec(m@, "received_events_url"@));
                let site_admin = opt_bool_spec(field_spec(m@, "site_admin"@));
                if id is Some && login is Some && gravatar_id is Some && avatar_url is Some && url is Some && html_url is Some && followers_url is Some && following_url is Some && gists_url is Some && starred_url is Some && subscriptions_url is Some && organizations_url is Some && repos_url is Some && events_url is Some && received_events_url is Some && site_admin is Some {
                    Some(Actor {
                        id: id->Some_0,
                        login: login->Some_0,
                        gravatar_id: gravatar_id->Some_0,
                        avatar_url: avatar_url->Some_0,
                        url: url->Some_0,
                        html_url: html_url->Some_0,
                        followers_url: followers_url->Some_0,
                        following_url: following_url->Some_0,
                        gists_url: gists_url->Some_0,
                        starred_url: starred_url->Some_0,
                        subscriptions_url: subscriptions_url->Some_0,
                        organizations_url: organizations_url->Some_0,
                        repos_url: repos_url->Some_0,
                        events_url: events_url->Some_0,
                        received_events_url: received_events_url->Some_0,
                        site_admin: site_admin->Some_0,
                    })
                } else {
                    None
                }
            },
            _ => None,
        }
    }

    fn from_json(v: &JsonValue) -> (r: Option<Actor>) {
        match v {
            JsonValue::Object(m) => {
                let id = match u64_field(m, "id") {
                    Some(x) => x,
                    None => return None,
                };
                let login = match string_field(m, "login") {
                    Some(x) => x,
                    None => return None,
                };
                let gravatar_id = match string_field(m, "gravatar_id") {
                    Some(x) => x,
                    None => return None,
                };
                let avatar_url = match string_field(m, "avatar_url") {
                    Some(x) => x,
                    None => return None,
                };
                let url = match string_field(m, "url") {
                    Some(x) => x,
                    None => return None,
                };
                let html_url = match opt_string_field(m, "html_url") {
                    Some(x) => x,
                    None => return None,
                };
                let followers_url = match opt_string_field(m, "followers_url") {
                    Some(x) => x,
                    None => return None,
                };
                let following_url = match opt_string_field(m, "following_url") {
                    Some(x) => x,
                    None => return None,
                };
                let gists_url = match opt_string_field(m, "gists_url") {
                    Some(x) => x,
                    None => return None,
                };
                let starred_url = match opt_string_field(m, "starred_url") {
                    Some(x) => x,
                    None => return None,
                };
                let subscriptions_url = match opt_string_field(m, "subscriptions_url") {
                    Some(x) => x,
                    None => return None,
                };
                let organizations_url = match opt_string_field(m, "organizations_url") {
                    Some(x) => x,
                    None => return None,
                };
                let repos_url = match opt_string_field(m, "repos_url") {
                    Some(x) => x,
                    None => return None,
                };
                let events_url = match opt_string_field(m, "events_url") {
                    Some(x) => x,
                    None => return None,
                };
                let received_events_url = match opt_string_field(m, "received_events_url") {
                    Some(x) => x,
                    None => return None,
                };
                let site_admin = match opt_bool_field(m, "site_admin") {
                    Some(x) => x,
                    None => return None,
                };
                Some(Actor { id, login, gravatar_id, avatar_url, url, html_url, followers_url, following_url, gists_url, starred_url, subscriptions_url, organizations_url, repos_url, events_url, received_events_url, site_admin })
            },
            _ => None,
        }
    }
}

/// The organisation that an event concerns.
#[derive(Debug, Clone, PartialEq, Eq)]
pub struct Organisation {
    pub id: u64,
    pub login: String,
    pub gravatar_id: String,
    pub avatar_url: String,
    pub url: String,
}

impl FromJson for Organisation {
    open spec fn decoded(v: JsonValue) -> Option<Organisation> {
        match v {
            JsonValue::Object(m) => {
                let id = u64_spec(field_spec(m@, "id"@));
                let login = string_spec(field_spec(m@, "login"@));
                let gravatar_id = string_spec(field_spec(m@, "gravatar_id"@));
                let avatar_url = string_spec(field_spec(m@, "avatar_url"@));
                let url = string_spec(field_spec(m@, "url"@));
                if id is Some && login is Some && gravatar_id is Some && avatar_url is Some && url is Some {
                    Some(Organisation {
                        id: id->Some_0,
                        login: login->Some_0,
                        gravatar_id: gravatar_id->Some_0,
                        avatar_url: avatar_url->Some_0,
                        url: url->Some_0,
                    })
                } else {
                    None
                }
            },
            _ => None,
        }
    }

    fn from_json(v: &JsonValue) -> (r: Option<Organisation>) {
        match v {
            JsonValue::Object(m) => {
                let id = match u64_field(m, "id") {
                    Some(x) => x,
                    None => return None,
                };
                let login = match string_field(m, "login") {
                    Some(x) => x,
                    None => return None,
                };
                let gravatar_id = match string_field(m, "gravatar_id") {
                    Some(x) => x,
                    None => return None,
                };
                let avatar_url = match string_field(m, "avatar_url") {
                    Some(x) => x,
                    None => return None,
                };
                let url = match string_field(m, "url") {
                    Some(x) => x,
                    None => return None,
                };
                Some(Organisation { id, login, gravatar_id, avatar_url, url })
            },
            _ => None,
        }
    }
}

/// One event, as every event listing but the one of issue events gives it.
#[derive(Debug, Clone, PartialEq, Eq)]
pub struct EventResponse {
    pub public: bool,
    pub repo: Repository,
    pub actor: Actor,
    pub org: Option<Organisation>,
    /// When the event happened, as the text the service sent.
    pub created_at: String,
    pub id: String,
}

impl FromJson for EventResponse {
    open spec fn decoded(v: JsonValue) -> Option<EventResponse> {
        match v {
            JsonValue::Object(m) => {
                let public = bool_spec(field_spec(m@, "public"@));
                let repo = Repository::decoded(field_spec(m@, "repo"@));
                let actor = Actor::decoded(field_spec(m@, "actor"@));
                let org = opt_record_spec::<Organisation>(field_spec(m@, "org"@));
                let created_at = string_spec(field_spec(m@, "created_at"@));
                let id = string_spec(field_spec(m@, "id"@));
                if public is Some && repo is Some && actor is Some && org is Some && created_at is Some && id is Some {
                    Some(EventResponse {
                        public: public->Some_0,
                        repo: repo->Some_0,
                        actor: actor->Some_0,
                        org: org->Some_0,
                        created_at: created_at->Some_0,
                        id: id->Some_0,
                    })
                } else {
                    None
                }
            },
            _ => None,
        }
    }

    fn from_json(v: &JsonValue) -> (r: Option<EventResponse>) {
        match v {
            JsonValue::Object(m) => {
                let public = match bool_field(m, "public") {
                    Some(x) => x,
                    None => return None,
                };
                let repo = match record_field::<Repository>(m, "repo") {
                    Some(x) => x,
                    None => return None,
                };
                let actor = match record_field::<Actor>(m, "actor") {
                    Some(x) => x,
                    None => return None,
                };
                let org = match opt_record_field::<Organisation>(m, "org") {
                    Some(x) => x,
                    None => return None,
                };
                let created_at = match string_field(m, "created_at") {
                    Some(x) => x,
                    None => return None,
                };
                let id = match string_field(m, "id") {
                    Some(x) => x,
                    None => return None,
                };
                Some(EventResponse { public, repo, actor, org, created_at, id })
            },
            _ => None,
        }
    }
}

/// One event on an issue of a repository.
#[derive(Debug, Clone, PartialEq, Eq)]
pub struct IssueEventResponse {
    pub public: bool,
    pub repo: Repository,
    pub actor: Actor,
    pub org: Option<Organisation>,
    pub event: IssueEventType,
    pub created_at: String,
    pub commit_id: String,
    pub id: String,
}

impl FromJson for IssueEventResponse {
    open spec fn decoded(v: JsonValue) -> Option<IssueEventResponse> {
        match v {
            JsonValue::Object(m) => {
                let public = bool_spec(field_spec(m@, "public"@));
                let repo = Repository::decoded(field_spec(m@, "repo"@));
                let actor = Actor::decoded(field_spec(m@, "actor"@));
                let org = opt_record_spec::<Organisation>(field_spec(m@, "org"@));
                let event = IssueEventType::decoded(field_spec(m@, "event"@));
                let created_at = string_spec(field_spec(m@, "created_at"@));
                let commit_id = string_spec(field_spec(m@, "commit_id"@));
                let id = string_spec(field_spec(m@, "id"@));
                if public is Some && repo is Some && actor is Some && org is Some && event is Some && created_at is Some && commit_id is Some && id is Some {
                    Some(IssueEventResponse {
                        public: public->Some_0,
                        repo: repo->Some_0,
                        actor: actor->Some_0,
                        org: org->Some_0,
                        event: event->Some_0,
                        created_at: created_at->Some_0,
                        commit_id: commit_id->Some_0,
                        id: id->Some_0,
                    })
                } else {
                    None
                }
            },
            _ => None,
        }
    }

    fn from_json(v: &JsonValue) -> (r: Option<IssueEventResponse>) {
        match v {
            JsonValue::Object(m) => {
                let public = match bool_field(m, "public") {
                    Some(x) => x,
                    None => return None,
                };
                let repo = match record_field::<Repository>(m, "repo") {
                    Some(x) => x,
                    None => return None,
                };
                let actor = match record_field::<Actor>(m, "actor") {
                    Some(x) => x,
                    None => return None,
                };
                let org = match opt_record_field::<Organisation>(m, "org") {
                    Some(x) => x,
                    None => return None,
                };
                let event = match record_field::<IssueEventType>(m, "event") {
                    Some(x) => x,
                    None => return None,
                };
                let created_at = match string_field(m, "created_at") {
                    Some(x) => x,
                    None => return None,
                };
                let commit_id = match string_field(m, "commit_id") {
                    Some(x) => x,
                    None => return None,
                };
                let id = match string_field(m, "id") {
                    Some(x) => x,
                    None => return None,
                };
                Some(IssueEventResponse { public, repo, actor, org, event, created_at, commit_id, id })
            },
            _ => None,
        }
    }
}

/// The kinds of events on an issue.
#[derive(Debug, Clone, PartialEq, Eq)]
pub enum IssueEventType {
    /// The issue was closed by the `Actor`.
    Closed,
    /// The issue was reopened by the `Actor`.
    Reopened,
    /// The `Actor` subscribed to receive notifications for an issue.
    Subscribed,
    /// The issue was merged by the `Actor`.
    Merged,
    /// The issue was referenced from a commit message.
    Referenced,
    /// The `Actor` was @mentioned in an issue body.
    Mentioned,
    /// The issue was assigned to the `Actor`.
    Assigned,
    /// The issue was unassigned from the `Actor`.
    Unassigned,
    /// A label was added to the issue.
    Labeled,
    /// A label was removed from the issue.
    Unlabeled,
    /// The issue was added to a milestone.
    Milestoned,
    /// The issue was removed from a milestone.
    Demilestoned,
    /// The issue title was changed.
    Renamed,
    /// The issue was locked by the `Actor`.
    Locked,
    /// The issue was unlocked by the `Actor`.
    Unlocked,
    /// The pull request's branch was deleted.
    HeadRefDeleted,
    /// The pull request's branch was restored.
    HeadRefRestored,
    /// A kind that the library does not know, with the name the service gave it.
    Unknown(String),
}

/// The known kind of issue event that the service names `name`; `None`
/// for a name the library does not know.
pub open spec fn known_issue_event(name: Seq<char>) -> Option<IssueEventType> {
    if name == "closed"@ {
        Some(IssueEventType::Closed)
    } else if name == "reopened"@ {
        Some(IssueEventType::Reopened)
    } else if name == "subscribed"@ {
        Some(IssueEventType::Subscribed)
    } else if name == "merged"@ {
        Some(IssueEventType::Merged)
    } else if name == "referenced"@ {
        Some(IssueEventType::Referenced)
    } else if name == "mentioned"@ {
        Some(IssueEventType::Mentioned)
    } else if name == "assigned"@ {
        Some(IssueEventType::Assigned)
    } else if name == "unassigned"@ {
        Some(IssueEventType::Unassigned)
    } else if name == "labeled"@ {
        Some(IssueEventType::Labeled)
    } else if name == "unlabeled"@ {
        Some(IssueEventType::Unlabeled)
    } else if name == "milestoned"@ {
        Some(IssueEventType::Milestoned)
    } else if name == "demilestoned"@ {
        Some(IssueEventType::Demilestoned)
    } else if name == "renamed"@ {
        Some(IssueEventType::Renamed)
    } else if name == "locked"@ {
        Some(IssueEventType::Locked)
    } else if name == "unlocked"@ {
        Some(IssueEventType::Unlocked)
    } else if name == "head_ref_deleted"@ {
        Some(IssueEventType::HeadRefDeleted)
    } else if name == "head_ref_restored"@ {
        Some(IssueEventType::HeadRefRestored)
    } else {
        None
    }
}

/// The words that describe a kind of issue event.
pub open spec fn issue_event_text(e: IssueEventType) -> Seq<char> {
    match e {
        IssueEventType::Closed => "closed"@,
        IssueEventType::Reopened => "reopened"@,
        IssueEventType::Subscribed => "subscribed"@,
        IssueEventType::Merged => "merged"@,
        IssueEventType::Referenced => "referenced"@,
        IssueEventType::Mentioned => "mentioned"@,
        IssueEventType::Assigned => "assigned"@,
        IssueEventType::Unassigned => "unassigned"@,
        IssueEventType::Labeled => "labeled"@,
        IssueEventType::Unlabeled => "unlabeled"@,
        IssueEventType::Milestoned => "milestoned"@,
        IssueEventType::Demilestoned => "demilestoned"@,
        IssueEventType::Renamed => "renamed"@,
        IssueEventType::Locked => "locked"@,
        IssueEventType::Unlocked => "unlocked"@,
        IssueEventType::HeadRefDeleted => "head reference deleted"@,
        IssueEventType::HeadRefRestored => "head reference restored"@,
        IssueEventType::Unknown(s) => s@,
    }
}

fn known_issue_event_named(name: &str) -> (r: Option<IssueEventType>)
    ensures
        r == known_issue_event(name@),
{
    if str_eq(name, "closed") {
        Some(IssueEventType::Closed)
    } else if str_eq(name, "reopened") {
        Some(IssueEventType::Reopened)
    } else if str_eq(name, "subscribed") {
        Some(IssueEventType::Subscribed)
    } else if str_eq(name, "merged") {
        Some(IssueEventType::Merged)
    } else if str_eq(name, "referenced") {
        Some(IssueEventType::Referenced)
    } else if str_eq(name, "mentioned") {
        Some(IssueEventType::Mentioned)
    } else if str_eq(name, "assigned") {
        Some(IssueEventType::Assigned)
    } else if str_eq(name, "unassigned") {
        Some(IssueEventType::Unassigned)
    } else if str_eq(name, "labeled") {
        Some(IssueEventType::Labeled)
    } else if str_eq(name, "unlabeled") {
        Some(IssueEventType::Unlabeled)
    } else if str_eq(name, "milestoned") {
        Some(IssueEventType::Milestoned)
    } else if str_eq(name, "demilestoned") {
        Some(IssueEventType::Demilestoned)
    } else if str_eq(name, "renamed") {
        Some(IssueEventType::Renamed)
    } else if str_eq(name, "locked") {
        Some(IssueEventType::Locked)
    } else if str_eq(name, "unlocked") {
        Some(IssueEventType::Unlocked)
    } else if str_eq(name, "head_ref_deleted") {
        Some(IssueEventType::HeadRefDeleted)
    } else if str_eq(name, "head_ref_restored") {
        Some(IssueEventType::HeadRefRestored)
    } else {
        None
    }
}

impl IssueEventType {
    /// The kind of issue event that the service names `name`; a name that
    /// the library does not know is kept in `Unknown`.
    pub fn from_name(name: &str) -> (r: IssueEventType)
        ensures
            match known_issue_event(name@) {
                Some(k) => r == k,
                None => r is Unknown && r->Unknown_0@ == name@,
            },
    {
        match known_issue_event_named(name) {
            Some(k) => k,
            None => IssueEventType::Unknown(String::from_str(name)),
        }
    }

    /// Describes the kind in words.
    pub fn display(&self) -> (r: String)
        ensures
            r@ == issue_event_text(*self),
    {
        match self {
            IssueEventType::Closed => String::from_str("closed"),
            IssueEventType::Reopened => String::from_str("reopened"),
            IssueEventType::Subscribed => String::from_str("subscribed"),
            IssueEventType::Merged => String::from_str("merged"),
            IssueEventType::Referenced => String::from_str("referenced"),
            IssueEventType::Mentioned => String::from_str("mentioned"),
            IssueEventType::Assigned => String::from_str("assigned"),
            IssueEventType::Unassigned => String::from_str("unassigned"),
            IssueEventType::Labeled => String::from_str("labeled"),
            IssueEventType::Unlabeled => String::from_str("unlabeled"),
            IssueEventType::Milestoned => String::from_str("milestoned"),
            IssueEventType::Demilestoned => String::from_str("demilestoned"),
            IssueEventType::Renamed => String::from_str("renamed"),
            IssueEventType::Locked => String::from_str("locked"),
            IssueEventType::Unlocked => String::from_str("unlocked"),
            IssueEventType::HeadRefDeleted => String::from_str("head reference deleted"),
            IssueEventType::HeadRefRestored => String::from_str("head reference restored"),
            IssueEventType::Unknown(s) => s.clone(),
        }
    }
}

impl FromJson for IssueEventType {
    /// A kind is read from a JSON string that names it.
    open spec fn decoded(v: JsonValue) -> Option<IssueEventType> {
        match v {
            JsonValue::Str(s) => match known_issue_event(s@) {
                Some(k) => Some(k),
                None => Some(IssueEventType::Unknown(s)),
            },
            _ => None,
        }
    }

    fn from_json(v: &JsonValue) -> (r: Option<IssueEventType>) {
        match v {
            JsonValue::Str(s) => match known_issue_event_named(s.as_str()) {
                Some(k) => Some(k),
                None => Some(IssueEventType::Unknown(s.clone())),
            },
            _ => None,
        }
    }
}

/// What most event listings return: the events in the order the service
/// sent them and what the response headers said, or the error.
pub type EventReturnType = Result<(Vec<EventResponse>, Response), ClientError>;

/// What the listing of issue events returns.
pub type IssueEventReturnType = Result<(Vec<IssueEventResponse>, Response), ClientError>;

} // verus!
