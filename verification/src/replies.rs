//! How the browser client reads the server's answers to its requests: each
//! answer becomes the event that reports it.

use vstd::prelude::*;
use crate::api::{GroupListing, listings_view};
use crate::client::{Group, GroupView, ReplyKind, groups_view, strings_view};
use crate::text::{decimal, push_decimal, push_signed_decimal, push_str, signed_decimal};

verus! {

/// The fields of a JSON answer that the client reads, each present when the
/// answer has it with the right type.
pub struct ReplyFields {
    pub id: Option<i64>,
    pub username: Option<String>,
    pub access_token: Option<String>,
    pub error: Option<String>,
    pub group_id: Option<i64>,
    pub group_name: Option<String>,
    pub group_code: Option<String>,
    /// The whole answer, written with `{:?}`.
    pub debug: String,
}

/// Why an answer's body could not be read, written with `{}` and `{:?}`.
pub struct ReadFailure {
    pub display: String,
    pub debug: String,
}

/// An answer to a request, as far as the client read it.
pub enum Reply {
    /// No answer: the text of the network error.
    Failed(String),
    /// An answer with this status whose body was read as JSON.
    Json(u16, Result<ReplyFields, ReadFailure>),
    /// An answer with this status whose body was read as text.
    Text(u16, Result<String, ReadFailure>),
    /// An answer with this status whose body was not read.
    Unread(u16),
}

/// How the client reads the body of an answer.
#[derive(PartialEq, Eq, Structural, Clone, Copy)]
pub enum ReadAs {
    /// As JSON.
    Json,
    /// As text.
    Text,
    /// Not at all.
    Nothing,
}

/// How the body of the answer of status `status` to a request of kind
/// `kind` is read: a failed group creation and a refused join (400) are
/// not read; another failed join is read as text; the rest as JSON.
pub open spec fn reading_of(kind: ReplyKind, status: u16) -> ReadAs {
    if kind == ReplyKind::CreateGroup && status != 200 {
        ReadAs::Nothing
    } else if kind == ReplyKind::JoinGroup && status == 400 {
        ReadAs::Nothing
    } else if kind == ReplyKind::JoinGroup && status != 200 {
        ReadAs::Text
    } else {
        ReadAs::Json
    }
}

/// How the client reads the body of the answer of status `status` to a
/// request of kind `kind`.
pub fn reply_reading(kind: ReplyKind, status: u16) -> (r: ReadAs)
    ensures
        r == reading_of(kind, status),
{
    if kind == ReplyKind::CreateGroup && status != 200 {
        ReadAs::Nothing
    } else if kind == ReplyKind::JoinGroup && status == 400 {
        ReadAs::Nothing
    } else if kind == ReplyKind::JoinGroup && status != 200 {
        ReadAs::Text
    } else {
        ReadAs::Json
    }
}

/// How the client reads the body of the answer to its request for the
/// group listing.
#[derive(PartialEq, Eq, Structural, Clone, Copy)]
pub enum GroupsReadAs {
    /// As a listing of groups.
    Listing,
    /// As a JSON error.
    Error,
    /// Not at all.
    Nothing,
}

/// The listing is read from an answer of status 200, an error from one of
/// status 500; any other answer is not read.
pub fn groups_reading(status: u16) -> (r: GroupsReadAs)
    ensures
        r == (if status == 200 {
            GroupsReadAs::Listing
        } else if status == 500 {
            GroupsReadAs::Error
        } else {
            GroupsReadAs::Nothing
        }),
{
    if status == 200 {
        GroupsReadAs::Listing
    } else if status == 500 {
        GroupsReadAs::Error
    } else {
        GroupsReadAs::Nothing
    }
}

/// The answer to the request for the group listing, as far as the client
/// read it.
pub enum GroupsReply {
    /// No answer.
    Failed,
    /// An answer of status 200, read as a listing.
    Listing(Result<Vec<GroupListing>, ReadFailure>),
    /// An answer of status 500, read as JSON.
    ServerError(Result<ReplyFields, ReadFailure>),
    /// An answer of another status, not read.
    Other(u16),
}

/// The text of an optional string, or `default`.
pub open spec fn text_or(o: Option<String>, default: Seq<char>) -> Seq<char> {
    match o {
        Some(s) => s@,
        None => default,
    }
}

/// The model of the outcome of a request: a value or an error text.
pub open spec fn error_text<T>(r: Result<T, String>) -> Seq<char> {
    match r {
        Err(e) => e@,
        Ok(_) => Seq::empty(),
    }
}

/// `prefix` followed by `text`.
fn joined(prefix: &str, text: &str) -> (s: String)
    ensures
        s@ == prefix@ + text@,
{
    let mut s = String::new();
    push_str(&mut s, prefix);
    push_str(&mut s, text);
    assert(s@ =~= prefix@ + text@);
    s
}

/// `Status <status>: <text>`.
fn status_text(status: u16, text: &str) -> (s: String)
    ensures
        s@ == "Status "@ + decimal(status as nat) + ": "@ + text@,
{
    let mut s = String::from_str("Status ");
    push_decimal(&mut s, status as u64);
    push_str(&mut s, ": ");
    push_str(&mut s, text);
    assert(s@ =~= "Status "@ + decimal(status as nat) + ": "@ + text@);
    s
}

/// The text of an error field, or `Unknown error`.
fn error_or_unknown(error: &Option<String>) -> (s: &str)
    ensures
        s@ == text_or(*error, "Unknown error"@),
{
    match error {
        Some(e) => e.as_str(),
        None => "Unknown error",
    }
}

/// The login answer: the user's id (in decimal), name and access token, or
/// an error text.
pub fn login_reply(reply: Reply) -> (r: Result<(String, String, String), String>)
    ensures
        match reply {
            Reply::Failed(e) => r matches Err(m) && m@ == "Network error: "@ + e@,
            Reply::Json(200, Ok(f)) => match (f.id, f.username, f.access_token) {
                (Some(id), Some(name), Some(token)) => r matches Ok((i, n, t))
                    && i@ == signed_decimal(id as int) && n@ == name@ && t@ == token@,
                _ => r matches Err(m) && m@ == "Invalid JSON structure. Received: "@ + f.debug@,
            },
            Reply::Json(200, Err(x)) => r matches Err(m) && m@ == "JSON parsing error: "@ + x.debug@,
            Reply::Json(status, Ok(f)) => r matches Err(m)
                && m@ == "Status "@ + decimal(status as nat) + ": "@ + text_or(f.error, "Unknown error"@),
            Reply::Json(status, Err(x)) => r matches Err(m) && m@ == "Failed to parse error response: "@ + x.display@,
            Reply::Text(status, _) => r matches Err(m) && m@ == "Status "@ + decimal(status as nat) + ": "@ + "Unknown error"@,
            Reply::Unread(status) => r matches Err(m) && m@ == "Status "@ + decimal(status as nat) + ": "@ + "Unknown error"@,
        },
{
    match reply {
        Reply::Failed(e) => Err(joined("Network error: ", e.as_str())),
        Reply::Json(status, Ok(f)) => {
            if status == 200 {
                match (f.id, f.username, f.access_token) {
                    (Some(id), Some(name), Some(token)) => {
                        let mut i = String::new();
                        push_signed_decimal(&mut i, id);
                        assert(i@ =~= signed_decimal(id as int));
                        Ok((i, name, token))
                    },
                    _ => Err(joined("Invalid JSON structure. Received: ", f.debug.as_str())),
                }
            } else {
                Err(status_text(status, error_or_unknown(&f.error)))
            }
        },
        Reply::Json(status, Err(x)) => {
            if status == 200 {
                Err(joined("JSON parsing error: ", x.debug.as_str()))
            } else {
                Err(joined("Failed to parse error response: ", x.display.as_str()))
            }
        },
        Reply::Text(status, _) => Err(status_text(status, "Unknown error")),
        Reply::Unread(status) => Err(status_text(status, "Unknown error")),
    }
}

/// The sign-up answer: the user's name (empty if the answer lacks it), or
/// an error text.
pub fn register_reply(reply: Reply) -> (r: Result<String, String>)
    ensures
        match reply {
            Reply::Failed(e) => r matches Err(m) && m@ == "Network error: "@ + e@,
            Reply::Json(200, Ok(f)) => r matches Ok(n) && n@ == text_or(f.username, Seq::empty()),
            Reply::Json(200, Err(x)) => r matches Err(m) && m@ == "JSON parsing error: "@ + x.debug@,
            Reply::Json(status, Ok(f)) => r matches Err(m)
                && m@ == "Status "@ + decimal(status as nat) + ": "@ + text_or(f.error, "Unknown error"@),
            Reply::Json(status, Err(x)) => r matches Err(m) && m@ == "Failed to parse error response: "@ + x.display@,
            Reply::Text(status, _) => r matches Err(m) && m@ == "Status "@ + decimal(status as nat) + ": "@ + "Unknown error"@,
            Reply::Unread(status) => r matches Err(m) && m@ == "Status "@ + decimal(status as nat) + ": "@ + "Unknown error"@,
        },
{
    match reply {
        Reply::Failed(e) => Err(joined("Network error: ", e.as_str())),
        Reply::Json(status, Ok(f)) => {
            if status == 200 {
                match f.username {
                    Some(n) => Ok(n),
                    None => Ok(String::new()),
                }
            } else {
                Err(status_text(status, error_or_unknown(&f.error)))
            }
        },
        Reply::Json(status, Err(x)) => {
            if status == 200 {
                Err(joined("JSON parsing error: ", x.debug.as_str()))
            } else {
                Err(joined("Failed to parse error response: ", x.display.as_str()))
            }
        },
        Reply::Text(status, _) => Err(status_text(status, "Unknown error")),
        Reply::Unread(status) => Err(status_text(status, "Unknown error")),
    }
}

/// The group that an answer describes: id (0 if missing), name and code
/// (empty if missing).
fn group_of_fields(f: ReplyFields) -> (g: (i64, String, String))
    ensures
        g.0 == match f.group_id { Some(i) => i, None => 0 },
        g.1@ == text_or(f.group_name, Seq::empty()),
        g.2@ == text_or(f.group_code, Seq::empty()),
{
    let id = match f.group_id {
        Some(i) => i,
        None => 0,
    };
    let name = match f.group_name {
        Some(n) => n,
        None => String::new(),
    };
    let code = match f.group_code {
        Some(c) => c,
        None => String::new(),
    };
    (id, name, code)
}

/// The answer to creating a group: the group, or an error text.
pub fn create_group_reply(reply: Reply) -> (r: Result<(i64, String, String), String>)
    ensures
        match reply {
            Reply::Failed(_) => r matches Err(m) && m@ == "Network error"@,
            Reply::Json(200, Ok(f)) => r matches Ok((id, name, code))
                && id == (match f.group_id { Some(i) => i, None => 0 })
                && name@ == text_or(f.group_name, Seq::empty()) && code@ == text_or(f.group_code, Seq::empty()),
            Reply::Json(200, Err(_)) => r matches Err(m) && m@ == "Failed to parse response"@,
            Reply::Text(200, _) => r matches Err(m) && m@ == "Failed to parse response"@,
            Reply::Unread(200) => r matches Err(m) && m@ == "Failed to parse response"@,
            _ => r matches Err(m) && m@ == "Server error"@,
        },
{
    match reply {
        Reply::Failed(_) => Err(String::from_str("Network error")),
        Reply::Json(status, Ok(f)) => {
            if status == 200 {
                Ok(group_of_fields(f))
            } else {
                Err(String::from_str("Server error"))
            }
        },
        Reply::Json(status, Err(_)) | Reply::Text(status, _) | Reply::Unread(status) => {
            if status == 200 {
                Err(String::from_str("Failed to parse response"))
            } else {
                Err(String::from_str("Server error"))
            }
        },
    }
}

/// The answer to joining a group: the group, or an error text.
pub fn join_group_reply(reply: Reply) -> (r: Result<(i64, String, String), String>)
    ensures
        match reply {
            Reply::Failed(_) => r matches Err(m) && m@ == "Network error"@,
            Reply::Json(200, Ok(f)) => r matches Ok((id, name, code))
                && id == (match f.group_id { Some(i) => i, None => 0 })
                && name@ == text_or(f.group_name, Seq::empty()) && code@ == text_or(f.group_code, Seq::empty()),
            Reply::Json(200, Err(_)) => r matches Err(m) && m@ == "Failed to parse response"@,
            Reply::Text(200, _) => r matches Err(m) && m@ == "Failed to parse response"@,
            Reply::Unread(200) => r matches Err(m) && m@ == "Failed to parse response"@,
            Reply::Json(400, _) => r matches Err(m) && m@ == "Invalid group code or user already in group"@,
            Reply::Text(400, _) => r matches Err(m) && m@ == "Invalid group code or user already in group"@,
            Reply::Unread(400) => r matches Err(m) && m@ == "Invalid group code or user already in group"@,
            Reply::Text(status, Ok(t)) => r matches Err(m) && m@ == "Status "@ + decimal(status as nat) + ": "@ + t@,
            Reply::Text(status, Err(x)) => r matches Err(m) && m@ == "Failed to read error response: "@ + x.display@,
            Reply::Json(status, _) => r matches Err(m) && m@ == "Status "@ + decimal(status as nat) + ": "@,
            Reply::Unread(status) => r matches Err(m) && m@ == "Status "@ + decimal(status as nat) + ": "@,
        },
{
    proof {
        reveal_strlit("");
        assert(""@ =~= Seq::<char>::empty());
    }
    match reply {
        Reply::Failed(_) => Err(String::from_str("Network error")),
        Reply::Json(status, body) => {
            if status == 200 {
                match body {
                    Ok(f) => Ok(group_of_fields(f)),
                    Err(_) => Err(String::from_str("Failed to parse response")),
                }
            } else if status == 400 {
                Err(String::from_str("Invalid group code or user already in group"))
            } else {
                Err(status_text(status, ""))
            }
        },
        Reply::Text(status, body) => {
            if status == 200 {
                Err(String::from_str("Failed to parse response"))
            } else if status == 400 {
                Err(String::from_str("Invalid group code or user already in group"))
            } else {
                match body {
                    Ok(t) => Err(status_text(status, t.as_str())),
                    Err(x) => Err(joined("Failed to read error response: ", x.display.as_str())),
                }
            }
        },
        Reply::Unread(status) => {
            if status == 200 {
                Err(String::from_str("Failed to parse response"))
            } else if status == 400 {
                Err(String::from_str("Invalid group code or user already in group"))
            } else {
                Err(status_text(status, ""))
            }
        },
    }
}

/// The client's groups made from the server's listing: the same groups,
/// each with an empty chat history.
pub fn groups_from_listings(listings: Vec<GroupListing>) -> (groups: Vec<Group>)
    ensures
        groups@.len() == listings@.len(),
        forall|i: int| 0 <= i < groups@.len() ==> #[trigger] groups_view(groups@)[i] == (GroupView {
            id: listings_view(listings@)[i].id,
            name: listings_view(listings@)[i].name,
            code: listings_view(listings@)[i].code,
            created_at: listings_view(listings@)[i].created_at,
            members: listings_view(listings@)[i].members,
            chat_history: Seq::empty(),
        }),
{
    let ghost lv = listings_view(listings@);
    let mut groups: Vec<Group> = Vec::new();
    for l in it: listings
        invariant
            it.seq() == listings@,
            lv == listings_view(listings@),
            groups@.len() == it.index(),
            forall|i: int| 0 <= i < groups@.len() ==> #[trigger] groups_view(groups@)[i] == (GroupView {
                id: lv[i].id,
                name: lv[i].name,
                code: lv[i].code,
                created_at: lv[i].created_at,
                members: lv[i].members,
                chat_history: Seq::empty(),
            }),
    {
        let ghost k = groups@.len() as int;
        assert(lv[k] == l@);
        let g = Group { id: l.id, name: l.name, code: l.code, created_at: l.created_at, members: l.members, chat_history: Vec::new() };
        assert(strings_view(g.chat_history@) =~= Seq::<Seq<char>>::empty());
        let ghost gv = g@;
        let ghost before = groups@;
        groups.push(g);
        assert forall|i: int| 0 <= i < groups@.len() implies #[trigger] groups_view(groups@)[i] == (GroupView {
            id: lv[i].id,
            name: lv[i].name,
            code: lv[i].code,
            created_at: lv[i].created_at,
            members: lv[i].members,
            chat_history: Seq::empty(),
        }) by {
            assert(groups_view(groups@)[i] == groups@[i]@);
            if i == k {
                assert(groups@[i]@ == gv);
            } else {
                assert(groups@[i] == before[i]);
                assert(groups_view(before)[i] == before[i]@);
            }
        }
    }
    groups
}

/// The groups that the client shows for a listing: the listed groups, each
/// with an empty chat history.
pub open spec fn listed_groups(lv: Seq<crate::api::GroupListingView>) -> Seq<GroupView> {
    lv.map_values(|l: crate::api::GroupListingView| GroupView {
        id: l.id,
        name: l.name,
        code: l.code,
        created_at: l.created_at,
        members: l.members,
        chat_history: Seq::empty(),
    })
}

/// The groups shown from a listing are the listed groups, one for one and
/// in order, each with its id, name, join code, creation time and members
/// as listed, and no chat history yet.
pub proof fn lemma_listed_groups_keep_listing(lv: Seq<crate::api::GroupListingView>)
    ensures
        listed_groups(lv).len() == lv.len(),
        forall|i: int| 0 <= i < lv.len() ==> {
            &&& (#[trigger] listed_groups(lv)[i]).id == lv[i].id
            &&& listed_groups(lv)[i].name == lv[i].name
            &&& listed_groups(lv)[i].code == lv[i].code
            &&& listed_groups(lv)[i].created_at == lv[i].created_at
            &&& listed_groups(lv)[i].members == lv[i].members
            &&& listed_groups(lv)[i].chat_history.len() == 0
        },
{
}

/// The answer to the request for the group listing: the client's new
/// groups, or the text that the client logs.
pub fn groups_reply(reply: GroupsReply) -> (r: Result<Vec<Group>, String>)
    ensures
        match reply {
            GroupsReply::Failed => r matches Err(m) && m@ == "Network error while fetching groups"@,
            GroupsReply::Listing(Ok(l)) => r matches Ok(g) && groups_view(g@) == listed_groups(listings_view(l@)),
            GroupsReply::Listing(Err(x)) => r matches Err(m) && m@ == "Failed to parse group response: "@ + x.display@,
            GroupsReply::ServerError(Ok(f)) => r matches Err(m)
                && m@ == "Database error: "@ + text_or(f.error, "Unknown error"@),
            GroupsReply::ServerError(Err(x)) => r matches Err(m)
                && m@ == "Failed to parse database error response: "@ + x.display@,
            GroupsReply::Other(status) => r matches Err(m) && m@ == "Failed to fetch groups: "@ + decimal(status as nat),
        },
{
    match reply {
        GroupsReply::Failed => Err(String::from_str("Network error while fetching groups")),
        GroupsReply::Listing(Ok(l)) => {
            let ghost lv = listings_view(l@);
            let groups = groups_from_listings(l);
            assert(groups_view(groups@) =~= listed_groups(lv));
            Ok(groups)
        },
        GroupsReply::Listing(Err(x)) => Err(joined("Failed to parse group response: ", x.display.as_str())),
        GroupsReply::ServerError(Ok(f)) => Err(joined("Database error: ", error_or_unknown(&f.error))),
        GroupsReply::ServerError(Err(x)) => Err(joined("Failed to parse database error response: ", x.display.as_str())),
        GroupsReply::Other(status) => {
            let mut s = String::from_str("Failed to fetch groups: ");
            push_decimal(&mut s, status as u64);
            assert(s@ =~= "Failed to fetch groups: "@ + decimal(status as nat));
            Err(s)
        },
    }
}

/// The answer to leaving a group: only a failed request is reported, as
/// `Network error`; an answer is just logged.
pub fn leave_group_reply(reply: &Reply) -> (r: Option<Result<String, String>>)
    ensures
        match reply {
            Reply::Failed(_) => r matches Some(Err(m)) && m@ == "Network error"@,
            _ => r is None,
        },
{
    match reply {
        Reply::Failed(_) => Some(Err(String::from_str("Network error"))),
        _ => None,
    }
}

} // verus!
