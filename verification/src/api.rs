//! The answers of the HTTP API: response values, and the decisions each
//! request handler takes on the outcome of its database queries.
//!
//! A handler runs its queries one after another; after each one it hands
//! the outcome to the function of this module for that step, which either
//! says how to go on or gives the final response.

use vstd::prelude::*;
use std::collections::HashMap;
use crate::join_code::{generate_code, join_code};
use crate::text::{push_signed_decimal, push_str, signed_decimal};
use crate::token::{create_jwt, claims_json, hs256_token, validate_jwt, Claims, TOKEN_EXPIRY};

verus! {

broadcast use vstd::std_specs::hash::group_hash_axioms;

/// A database query that failed.
pub struct DbError;

/// A member of a group, as listed to clients.
pub struct MemberInfo {
    pub id: i64,
    pub name: String,
}

/// A group row: id, name, join code and creation time.
pub struct GroupRow {
    pub id: i64,
    pub name: String,
    pub code: String,
    pub created_at: i64,
}

/// A group as listed to its members.
pub struct GroupListing {
    pub id: i64,
    pub name: String,
    pub code: String,
    pub created_at: i64,
    pub members: Vec<MemberInfo>,
}

/// A stored chat message, as sent back by the history request.
pub struct HistoryMessage {
    pub msg_id: i64,
    pub group_id: i64,
    pub sender_id: i64,
    pub content: String,
    pub created_at: i64,
}

/// The body of a response.
pub enum ResponseBody {
    /// Plain text.
    Text(String),
    /// `{"error": ...}`
    Error(String),
    /// `{"message": ...}`
    Message(String),
    /// `{"id": ..., "username": ...}`
    SignedUp { id: i64, username: String },
    /// `{"id": ..., "username": ..., "access_token": ...}`
    LoggedIn { id: i64, username: String, access_token: String },
    /// `{"group_id": ..., "group_name": ..., "group_code": ...}`
    Group { group_id: i64, group_name: String, group_code: String },
    /// A list of groups with their members.
    GroupList(Vec<GroupListing>),
    /// Messages keyed by group id.
    History(HashMap<usize, Vec<HistoryMessage>>),
}

/// A response: HTTP status and body.
pub struct ApiResponse {
    pub status: u16,
    pub body: ResponseBody,
}

/// The model of a member.
pub struct MemberView {
    pub id: i64,
    pub name: Seq<char>,
}

/// The model of a group row.
pub struct GroupRowView {
    pub id: i64,
    pub name: Seq<char>,
    pub code: Seq<char>,
    pub created_at: i64,
}

/// The model of a listed group.
pub struct GroupListingView {
    pub id: i64,
    pub name: Seq<char>,
    pub code: Seq<char>,
    pub created_at: i64,
    pub members: Seq<MemberView>,
}

/// The model of a stored message.
pub struct HistoryMessageView {
    pub msg_id: i64,
    pub group_id: i64,
    pub sender_id: i64,
    pub content: Seq<char>,
    pub created_at: i64,
}

/// The model of a response body.
pub enum BodyView {
    Text(Seq<char>),
    Error(Seq<char>),
    Message(Seq<char>),
    SignedUp { id: i64, username: Seq<char> },
    LoggedIn { id: i64, username: Seq<char>, access_token: Seq<char> },
    Group { group_id: i64, group_name: Seq<char>, group_code: Seq<char> },
    GroupList(Seq<GroupListingView>),
    History(Map<usize, Seq<HistoryMessageView>>),
}

/// The model of a response.
pub struct ResponseView {
    pub status: u16,
    pub body: BodyView,
}

impl View for MemberInfo {
    type V = MemberView;

    open spec fn view(&self) -> MemberView {
        MemberView { id: self.id, name: self.name@ }
    }
}

impl View for GroupRow {
    type V = GroupRowView;

    open spec fn view(&self) -> GroupRowView {
        GroupRowView { id: self.id, name: self.name@, code: self.code@, created_at: self.created_at }
    }
}

/// The models of a list of members.
pub open spec fn members_view(members: Seq<MemberInfo>) -> Seq<MemberView> {
    members.map_values(|m: MemberInfo| m@)
}

impl View for GroupListing {
    type V = GroupListingView;

    open spec fn view(&self) -> GroupListingView {
        GroupListingView {
            id: self.id,
            name: self.name@,
            code: self.code@,
            created_at: self.created_at,
            members: members_view(self.members@),
        }
    }
}

impl View for HistoryMessage {
    type V = HistoryMessageView;

    open spec fn view(&self) -> HistoryMessageView {
        HistoryMessageView {
            msg_id: self.msg_id,
            group_id: self.group_id,
            sender_id: self.sender_id,
            content: self.content@,
            created_at: self.created_at,
        }
    }
}

/// The models of a list of messages.
pub open spec fn messages_view(messages: Seq<HistoryMessage>) -> Seq<HistoryMessageView> {
    messages.map_values(|m: HistoryMessage| m@)
}

/// The models of a list of listed groups.
pub open spec fn listings_view(groups: Seq<GroupListing>) -> Seq<GroupListingView> {
    groups.map_values(|g: GroupListing| g@)
}

/// The models of the messages of a history, group by group.
pub open spec fn history_view(h: Map<usize, Vec<HistoryMessage>>) -> Map<usize, Seq<HistoryMessageView>> {
    h.map_values(|m: Vec<HistoryMessage>| messages_view(m@))
}

impl View for ResponseBody {
    type V = BodyView;

    open spec fn view(&self) -> BodyView {
        match self {
            ResponseBody::Text(s) => BodyView::Text(s@),
            ResponseBody::Error(s) => BodyView::Error(s@),
            ResponseBody::Message(s) => BodyView::Message(s@),
            ResponseBody::SignedUp { id, username } => BodyView::SignedUp { id: *id, username: username@ },
            ResponseBody::LoggedIn { id, username, access_token } => BodyView::LoggedIn {
                id: *id,
                username: username@,
                access_token: access_token@,
            },
            ResponseBody::Group { group_id, group_name, group_code } => BodyView::Group {
                group_id: *group_id,
                group_name: group_name@,
                group_code: group_code@,
            },
            ResponseBody::GroupList(groups) => BodyView::GroupList(listings_view(groups@)),
            ResponseBody::History(h) => BodyView::History(history_view(h@)),
        }
    }
}

impl View for ApiResponse {
    type V = ResponseView;

    open spec fn view(&self) -> ResponseView {
        ResponseView { status: self.status, body: self.body@ }
    }
}

/// The model of an error response.
pub open spec fn error_view(status: u16, message: Seq<char>) -> ResponseView {
    ResponseView { status, body: BodyView::Error(message) }
}

/// An error response with the given status and message.
pub fn error_response(status: u16, message: &str) -> (r: ApiResponse)
    ensures
        r@ == error_view(status, message@),
{
    ApiResponse { status, body: ResponseBody::Error(String::from_str(message)) }
}

/// The model of an optional response.
pub open spec fn opt_response_view(r: Option<ApiResponse>) -> Option<ResponseView> {
    match r {
        Some(x) => Some(x@),
        None => None,
    }
}

/// The answer to `GET /`.
pub fn index() -> (r: ApiResponse)
    ensures
        r@ == (ResponseView { status: 200, body: BodyView::Text("Welcome to the Rust-powered chat server!"@) }),
{
    ApiResponse { status: 200, body: ResponseBody::Text(String::from_str("Welcome to the Rust-powered chat server!")) }
}

/// The answer to an authenticated request for an unknown route.
pub fn api_default() -> (r: ApiResponse)
    ensures
        r@ == error_view(200, "Token is valid, but route not found, check the url."@),
{
    error_response(200, "Token is valid, but route not found, check the url.")
}

/// The answer to a request for an unknown route.
pub fn not_found() -> (r: ApiResponse)
    ensures
        r@ == error_view(404, "Route not found, check the url."@),
{
    error_response(404, "Route not found, check the url.")
}

// ---------------------------------------------------------------- sign-up

/// What sign-up answers once it has looked the name up (`existing`: whether
/// a user of that name exists); `None` means that it goes on and inserts the
/// user.
pub open spec fn signup_lookup_outcome(existing: Result<bool, DbError>) -> Option<ResponseView> {
    match existing {
        Err(_) => Some(error_view(500, "Failed to check username availability"@)),
        Ok(true) => Some(error_view(400, "Username already taken"@)),
        Ok(false) => None,
    }
}

/// What sign-up answers once it has inserted the user (`inserted`: the new
/// user's id).
pub open spec fn signup_created_outcome(username: Seq<char>, inserted: Result<i64, DbError>) -> ResponseView {
    match inserted {
        Err(_) => error_view(500, "Failed to create user"@),
        Ok(id) => ResponseView { status: 200, body: BodyView::SignedUp { id, username } },
    }
}

/// Sign-up, after looking the name up: `existing` tells whether a user of
/// that name exists. `None` means: go on and insert the user.
pub fn signup_name_checked(existing: Result<bool, DbError>) -> (r: Option<ApiResponse>)
    ensures
        opt_response_view(r) == signup_lookup_outcome(existing),
{
    match existing {
        Err(_) => Some(error_response(500, "Failed to check username availability")),
        Ok(true) => Some(error_response(400, "Username already taken")),
        Ok(false) => None,
    }
}

/// Sign-up, after inserting the user: `inserted` is the new user's id.
pub fn signup_user_created(username: String, inserted: Result<i64, DbError>) -> (r: ApiResponse)
    ensures
        r@ == signup_created_outcome(username@, inserted),
{
    match inserted {
        Err(_) => error_response(500, "Failed to create user"),
        Ok(id) => ApiResponse { status: 200, body: ResponseBody::SignedUp { id, username } },
    }
}

// ------------------------------------------------------------------ login

/// Login, after looking the user up: `user` is the stored id and password
/// of the user of that name, if there is one. A matching password is
/// answered with the user's id, name and an access token signed with
/// `secret`.
pub fn login_checked(username: String, password: &str, user: Result<Option<(i64, String)>, DbError>, secret: &str) -> (r: ApiResponse)
    ensures
        match user {
            Err(_) => r@ == error_view(500, "Failed to check user credentials"@),
            Ok(None) => r@ == error_view(401, "Invalid credentials"@),
            Ok(Some((id, stored))) => if stored@ != password@ {
                r@ == error_view(401, "Invalid credentials"@)
            } else {
                r@ == (ResponseView {
                    status: 200,
                    body: BodyView::LoggedIn {
                        id,
                        username: username@,
                        access_token: hs256_token(claims_json((id as usize) as nat, TOKEN_EXPIRY as nat), secret@),
                    },
                })
            },
        },
{
    match user {
        Err(_) => error_response(500, "Failed to check user credentials"),
        Ok(None) => error_response(401, "Invalid credentials"),
        Ok(Some((id, stored))) => {
            let given = String::from_str(password);
            if stored != given {
                error_response(401, "Invalid credentials")
            } else {
                match create_jwt(id as usize, secret) {
                    Ok(access_token) => ApiResponse { status: 200, body: ResponseBody::LoggedIn { id, username, access_token } },
                    Err(_) => error_response(500, "Failed to create access token"),
                }
            }
        },
    }
}

// ------------------------------------------------------- authentication

/// The middleware's check of a bearer token: its claims, or the 401
/// answer `{"error": "Invalid Token"}`.
pub fn authenticate_bearer(token: &str, secret: &str) -> (r: Result<Claims, ApiResponse>)
    ensures
        r matches Err(x) ==> x@ == error_view(401, "Invalid Token"@),
        r matches Ok(c) ==> crate::token::claims_of_fields(crate::token::token_claim_fields(token@)) == Some(c),
        forall|u: nat| #![trigger claims_json(u, TOKEN_EXPIRY as nat)]
            u <= usize::MAX && token@ == hs256_token(claims_json(u, TOKEN_EXPIRY as nat), secret@) ==>
                (r matches Ok(c) ==> c == Claims { user_id: u as usize, exp: TOKEN_EXPIRY }),
{
    match validate_jwt(token, secret) {
        Ok(claims) => Ok(claims),
        Err(_) => Err(error_response(401, "Invalid Token")),
    }
}

/// The check of the token given in the path of the web-socket route: the
/// user's id, or the 401 answer `{"error": "Invalid token"}`.
pub fn authenticate_path_token(token: &str, secret: &str) -> (r: Result<usize, ApiResponse>)
    ensures
        r matches Err(x) ==> x@ == error_view(401, "Invalid token"@),
        r matches Ok(u) ==> exists|c: Claims| crate::token::claims_of_fields(crate::token::token_claim_fields(token@)) == Some(c)
            && c.user_id == u,
        forall|u: nat| #![trigger claims_json(u, TOKEN_EXPIRY as nat)]
            u <= usize::MAX && token@ == hs256_token(claims_json(u, TOKEN_EXPIRY as nat), secret@) ==>
                (r matches Ok(v) ==> v == u),
{
    match validate_jwt(token, secret) {
        Ok(claims) => Ok(claims.user_id),
        Err(_) => Err(error_response(401, "Invalid token")),
    }
}

// ----------------------------------------------------------- create group

/// Creating a group, after inserting it: `inserted` is the new group's id
/// and creation time. Gives the group's id and its join code, which the
/// handler then stores.
pub fn create_group_inserted(inserted: Result<(i64, i64), DbError>) -> (r: Result<(i64, String), ApiResponse>)
    requires
        inserted matches Ok((id, created_at)) ==> (id as usize) * 10000 + (created_at as usize) % 10000 <= usize::MAX,
    ensures
        match inserted {
            Err(_) => r matches Err(x) && x@ == error_view(500, "Failed to create group"@),
            Ok((id, created_at)) => r matches Ok((g, code)) && g == id
                && code@ == join_code((id as usize) as nat, (created_at as usize) as nat),
        },
{
    match inserted {
        Err(_) => Err(error_response(500, "Failed to create group")),
        Ok((id, created_at)) => Ok((id, generate_code(id as usize, created_at as usize))),
    }
}

/// Creating a group, after storing its join code. `None` means: go on and
/// add the creator as a member.
pub fn create_group_code_saved(updated: Result<(), DbError>) -> (r: Option<ApiResponse>)
    ensures
        match updated {
            Err(_) => r matches Some(x) && x@ == error_view(500, "Failed to update group code"@),
            Ok(_) => r is None,
        },
{
    match updated {
        Err(_) => Some(error_response(500, "Failed to update group code")),
        Ok(_) => None,
    }
}

/// Creating a group, after adding its creator as a member.
pub fn create_group_finished(group_id: i64, name: String, code: String, added: Result<(), DbError>) -> (r: ApiResponse)
    ensures
        match added {
            Err(_) => r@ == error_view(500, "Failed to add creator to group"@),
            Ok(_) => r@ == (ResponseView {
                status: 200,
                body: BodyView::Group { group_id, group_name: name@, group_code: code@ },
            }),
        },
{
    match added {
        Err(_) => error_response(500, "Failed to add creator to group"),
        Ok(_) => ApiResponse { status: 200, body: ResponseBody::Group { group_id, group_name: name, group_code: code } },
    }
}

// ------------------------------------------------------------ list groups

/// Listing a user's groups, after fetching them.
pub fn list_groups_fetched(groups: Result<Vec<GroupRow>, DbError>) -> (r: Result<Vec<GroupRow>, ApiResponse>)
    ensures
        match groups {
            Err(_) => r matches Err(x) && x@ == error_view(500, "Failed to fetch groups"@),
            Ok(g) => r == Ok::<Vec<GroupRow>, ApiResponse>(g),
        },
{
    match groups {
        Err(_) => Err(error_response(500, "Failed to fetch groups")),
        Ok(g) => Ok(g),
    }
}

/// Listing a user's groups, after fetching the members of `group`: the
/// group joins the listing, or the listing fails.
pub fn list_groups_add(listing: &mut Vec<GroupListing>, group: GroupRow, members: Result<Vec<MemberInfo>, DbError>) -> (r: Option<ApiResponse>)
    ensures
        match members {
            Err(_) => r matches Some(x) && x@ == error_view(500, "Failed to fetch group members"@)
                && final(listing)@ == old(listing)@,
            Ok(m) => r is None && listings_view(final(listing)@) == listings_view(old(listing)@).push(GroupListingView {
                id: group.id,
                name: group.name@,
                code: group.code@,
                created_at: group.created_at,
                members: members_view(m@),
            }),
        },
{
    match members {
        Err(_) => Some(error_response(500, "Failed to fetch group members")),
        Ok(m) => {
            let entry = GroupListing { id: group.id, name: group.name, code: group.code, created_at: group.created_at, members: m };
            listing.push(entry);
            proof {
                assert(listings_view(final(listing)@) =~= listings_view(old(listing)@).push(entry@));
            }
            None
        },
    }
}

/// Listing a user's groups, once every group has its members.
pub fn list_groups_done(listing: Vec<GroupListing>) -> (r: ApiResponse)
    ensures
        r@ == (ResponseView { status: 200, body: BodyView::GroupList(listings_view(listing@)) }),
{
    ApiResponse { status: 200, body: ResponseBody::GroupList(listing) }
}

// ------------------------------------------------------------- join group

/// The model of the outcome of looking a join code up.
pub open spec fn found_view(group: Result<Option<GroupRow>, DbError>) -> Result<Option<GroupRowView>, DbError> {
    match group {
        Err(e) => Err(e),
        Ok(None) => Ok(None),
        Ok(Some(g)) => Ok(Some(g@)),
    }
}

/// The model of a step that goes on with a group or answers.
pub open spec fn group_step_view(r: Result<GroupRow, ApiResponse>) -> Result<GroupRowView, ResponseView> {
    match r {
        Ok(g) => Ok(g@),
        Err(x) => Err(x@),
    }
}

/// What joining answers once it has looked the code up (`group`: the group
/// with that code, if any); `Ok` means that it goes on with that group.
pub open spec fn join_lookup_outcome(group: Result<Option<GroupRowView>, DbError>) -> Result<GroupRowView, ResponseView> {
    match group {
        Err(_) => Err(error_view(500, "Failed to check group code"@)),
        Ok(None) => Err(error_view(400, "Invalid group code"@)),
        Ok(Some(g)) => Ok(g),
    }
}

/// What joining answers once it has checked membership (`member`: whether
/// the user already belongs to the group); `None` means that it goes on and
/// adds the user.
pub open spec fn join_membership_outcome(member: Result<bool, DbError>) -> Option<ResponseView> {
    match member {
        Err(_) => Some(error_view(500, "Failed to check whether user is a member"@)),
        Ok(true) => Some(error_view(400, "User is already a member of this group"@)),
        Ok(false) => None,
    }
}

/// What joining answers once it has added the user to `group`.
pub open spec fn join_finished_outcome(group: GroupRowView, added: Result<(), DbError>) -> ResponseView {
    match added {
        Err(_) => error_view(500, "Failed to join group"@),
        Ok(_) => ResponseView {
            status: 200,
            body: BodyView::Group { group_id: group.id, group_name: group.name, group_code: group.code },
        },
    }
}

/// Joining by code, after looking the code up: the group of that code.
pub fn join_group_found(group: Result<Option<GroupRow>, DbError>) -> (r: Result<GroupRow, ApiResponse>)
    ensures
        group_step_view(r) == join_lookup_outcome(found_view(group)),
        match group {
            Err(_) => r matches Err(x) && x@ == error_view(500, "Failed to check group code"@),
            Ok(None) => r matches Err(x) && x@ == error_view(400, "Invalid group code"@),
            Ok(Some(g)) => r == Ok::<GroupRow, ApiResponse>(g),
        },
{
    match group {
        Err(_) => Err(error_response(500, "Failed to check group code")),
        Ok(None) => Err(error_response(400, "Invalid group code")),
        Ok(Some(g)) => Ok(g),
    }
}

/// Joining by code, after checking membership: `member` tells whether the
/// user already belongs to the group. `None` means: go on and add the user.
pub fn join_group_membership(member: Result<bool, DbError>) -> (r: Option<ApiResponse>)
    ensures
        opt_response_view(r) == join_membership_outcome(member),
{
    match member {
        Err(_) => Some(error_response(500, "Failed to check whether user is a member")),
        Ok(true) => Some(error_response(400, "User is already a member of this group")),
        Ok(false) => None,
    }
}

/// Joining by code, after adding the user to `group`.
pub fn join_group_finished(group: GroupRow, added: Result<(), DbError>) -> (r: ApiResponse)
    ensures
        r@ == join_finished_outcome(group@, added),
{
    match added {
        Err(_) => error_response(500, "Failed to join group"),
        Ok(_) => ApiResponse {
            status: 200,
            body: ResponseBody::Group { group_id: group.id, group_name: group.name, group_code: group.code },
        },
    }
}

// ------------------------------------------------------------ leave group

/// The text `prefix` followed by the decimal rendering of `n`.
pub fn text_with_number(prefix: &str, n: i64) -> (s: String)
    ensures
        s@ == prefix@ + signed_decimal(n as int),
{
    let mut s = String::new();
    push_str(&mut s, prefix);
    push_signed_decimal(&mut s, n);
    assert(s@ =~= prefix@ + signed_decimal(n as int));
    s
}

/// What leaving group `group_id` answers once the membership is deleted
/// (`deleted`: whether there was one).
pub open spec fn leave_outcome(group_id: i64, deleted: Result<bool, DbError>) -> ResponseView {
    match deleted {
        Err(_) => error_view(500, "Failed to leave group"@),
        Ok(true) => ResponseView {
            status: 200,
            body: BodyView::Message("Successfully left group "@ + signed_decimal(group_id as int)),
        },
        Ok(false) => error_view(400, "User is not a member of group "@ + signed_decimal(group_id as int)),
    }
}

/// Leaving group `group_id`, after deleting the membership: `deleted`
/// tells whether there was one.
pub fn leave_group(group_id: i64, deleted: Result<bool, DbError>) -> (r: ApiResponse)
    ensures
        r@ == leave_outcome(group_id, deleted),
{
    match deleted {
        Err(_) => error_response(500, "Failed to leave group"),
        Ok(true) => ApiResponse {
            status: 200,
            body: ResponseBody::Message(text_with_number("Successfully left group ", group_id)),
        },
        Ok(false) => ApiResponse {
            status: 400,
            body: ResponseBody::Error(text_with_number("User is not a member of group ", group_id)),
        },
    }
}

// ---------------------------------------------------------------- history

/// What the history request does for one group after checking the user's
/// membership.
pub enum MembershipStep {
    /// Give this response.
    Respond(ApiResponse),
    /// The user is not a member: leave this group out.
    Skip,
    /// Fetch the group's newer messages.
    FetchMessages,
}

/// The model of a step of the history request.
pub enum MembershipStepView {
    Respond(ResponseView),
    Skip,
    FetchMessages,
}

impl View for MembershipStep {
    type V = MembershipStepView;

    open spec fn view(&self) -> MembershipStepView {
        match self {
            MembershipStep::Respond(x) => MembershipStepView::Respond(x@),
            MembershipStep::Skip => MembershipStepView::Skip,
            MembershipStep::FetchMessages => MembershipStepView::FetchMessages,
        }
    }
}

/// What the history request does for a group once it has checked whether
/// the user belongs to it (`member`).
pub open spec fn history_membership_outcome(member: Result<bool, DbError>) -> MembershipStepView {
    match member {
        Err(_) => MembershipStepView::Respond(error_view(500, "Failed to check user membership"@)),
        Ok(true) => MembershipStepView::FetchMessages,
        Ok(false) => MembershipStepView::Skip,
    }
}

/// History, after checking whether the user belongs to the group.
pub fn history_membership_checked(member: Result<bool, DbError>) -> (r: MembershipStep)
    ensures
        r@ == history_membership_outcome(member),
{
    match member {
        Err(_) => MembershipStep::Respond(error_response(500, "Failed to check user membership")),
        Ok(true) => MembershipStep::FetchMessages,
        Ok(false) => MembershipStep::Skip,
    }
}

/// History, after fetching the newer messages of group `group_id`: they
/// are recorded under the group, replacing what was recorded there, or the
/// request fails.
pub fn history_messages_fetched(
    history: &mut HashMap<usize, Vec<HistoryMessage>>,
    group_id: usize,
    messages: Result<Vec<HistoryMessage>, DbError>,
) -> (r: Option<ApiResponse>)
    ensures
        match messages {
            Err(_) => r matches Some(x) && x@ == error_view(500, "Failed to fetch messages"@)
                && final(history)@ == old(history)@,
            Ok(m) => r is None && final(history)@ == old(history)@.insert(group_id, m)
                && history_view(final(history)@) == history_view(old(history)@).insert(group_id, messages_view(m@)),
        },
{
    match messages {
        Err(_) => Some(error_response(500, "Failed to fetch messages")),
        Ok(m) => {
            let ghost before = history@;
            let ghost value = messages_view(m@);
            history.insert(group_id, m);
            proof {
                assert(history_view(history@) =~= history_view(before).insert(group_id, value));
            }
            None
        },
    }
}

/// History, once every requested group is handled.
pub fn history_done(history: HashMap<usize, Vec<HistoryMessage>>) -> (r: ApiResponse)
    ensures
        r@ == (ResponseView { status: 200, body: BodyView::History(history_view(history@)) }),
{
    ApiResponse { status: 200, body: ResponseBody::History(history) }
}

/// A history request under way: the user, the requested entries (group id,
/// latest message id the client has), how many entries are handled, and the
/// messages gathered so far.
pub struct HistoryRun {
    user_id: usize,
    entries: Vec<(usize, usize)>,
    done: usize,
    history: HashMap<usize, Vec<HistoryMessage>>,
}

/// What a history request does next.
pub enum HistoryNext {
    /// Check whether the user belongs to the group of the current entry.
    CheckMembership(HistoryRun),
    /// Fetch the messages of the current entry's group with an id above its
    /// latest id, by increasing id.
    FetchMessages(HistoryRun),
    /// Give this response.
    Respond(ApiResponse),
}

impl HistoryRun {
    /// The requesting user.
    pub closed spec fn user(&self) -> usize {
        self.user_id
    }

    /// The requested entries.
    pub closed spec fn requested(&self) -> Seq<(usize, usize)> {
        self.entries@
    }

    /// How many entries are handled.
    pub closed spec fn handled(&self) -> nat {
        self.done as nat
    }

    /// The messages gathered so far, by group.
    pub closed spec fn gathered(&self) -> Map<usize, Seq<HistoryMessageView>> {
        history_view(self.history@)
    }

    /// An entry remains to be handled.
    pub open spec fn wf(&self) -> bool {
        self.handled() < self.requested().len()
    }

    /// The entry being handled.
    pub open spec fn current_entry(&self) -> (usize, usize) {
        self.requested()[self.handled() as int]
    }

    /// The request of user `user_id` for `entries`: it starts with the first
    /// entry, or answers an empty history when there is none.
    pub fn start(user_id: usize, entries: Vec<(usize, usize)>) -> (n: HistoryNext)
        ensures
            history_started(user_id, entries@, n),
    {
        let history: HashMap<usize, Vec<HistoryMessage>> = HashMap::new();
        proof {
            assert(history_view(history@) =~= Map::<usize, Seq<HistoryMessageView>>::empty());
        }
        if entries.len() == 0 {
            HistoryNext::Respond(history_done(history))
        } else {
            HistoryNext::CheckMembership(HistoryRun { user_id, entries, done: 0, history })
        }
    }

    /// The entry being handled: group id and latest message id.
    pub fn current(&self) -> (e: (usize, usize))
        requires
            self.wf(),
        ensures
            e == self.current_entry(),
    {
        self.entries[self.done]
    }

    /// The requesting user.
    pub fn user_id(&self) -> (u: usize)
        ensures
            u == self.user(),
    {
        self.user_id
    }

    /// Moves on past the current entry with `history` gathered: the next
    /// entry, or the answer once every entry is handled.
    fn advance(self) -> (n: HistoryNext)
        requires
            self.done < self.entries@.len(),
        ensures
            moved_on(self.user(), self.requested(), self.handled(), self.gathered(), n),
    {
        let HistoryRun { user_id, entries, done, history } = self;
        let count = entries.len();
        if done + 1 == count {
            HistoryNext::Respond(history_done(history))
        } else {
            HistoryNext::CheckMembership(HistoryRun { user_id, entries, done: done + 1, history })
        }
    }

    /// After checking whether the user belongs to the current entry's
    /// group: an error answer, the fetch of its messages, or the next entry
    /// when the user does not belong to it.
    pub fn membership_checked(self, member: Result<bool, DbError>) -> (n: HistoryNext)
        requires
            self.wf(),
        ensures
            after_membership(self, member, n),
    {
        match history_membership_checked(member) {
            MembershipStep::Respond(r) => HistoryNext::Respond(r),
            MembershipStep::FetchMessages => HistoryNext::FetchMessages(self),
            MembershipStep::Skip => self.advance(),
        }
    }

    /// After fetching the current entry's newer messages: they are recorded
    /// under its group and the request moves on, or it fails.
    pub fn messages_fetched(self, messages: Result<Vec<HistoryMessage>, DbError>) -> (n: HistoryNext)
        requires
            self.wf(),
        ensures
            after_fetch(self, messages, n),
    {
        let HistoryRun { user_id, entries, done, mut history } = self;
        let group_id = entries[done].0;
        match history_messages_fetched(&mut history, group_id, messages) {
            Some(r) => HistoryNext::Respond(r),
            None => HistoryRun { user_id, entries, done, history }.advance(),
        }
    }
}

/// How the history request of user `user_id` for `entries` starts: with the
/// first entry and nothing gathered, or with an empty answer when there is
/// no entry.
pub open spec fn history_started(user_id: usize, entries: Seq<(usize, usize)>, n: HistoryNext) -> bool {
    match n {
        HistoryNext::CheckMembership(run) => entries.len() > 0 && run.wf() && run.user() == user_id
            && run.requested() == entries && run.handled() == 0
            && run.gathered() == Map::<usize, Seq<HistoryMessageView>>::empty(),
        HistoryNext::Respond(r) => entries.len() == 0
            && r@ == (ResponseView { status: 200, body: BodyView::History(Map::empty()) }),
        HistoryNext::FetchMessages(_) => false,
    }
}

/// What the request does after checking the membership of its user in the
/// current entry's group: answers a failed check, fetches the group's
/// messages for a member, and moves on past the entry otherwise.
pub open spec fn after_membership(run: HistoryRun, member: Result<bool, DbError>, n: HistoryNext) -> bool {
    match history_membership_outcome(member) {
        MembershipStepView::Respond(x) => n matches HistoryNext::Respond(r) && r@ == x,
        MembershipStepView::FetchMessages => n matches HistoryNext::FetchMessages(next) && next.wf()
            && next.user() == run.user() && next.requested() == run.requested()
            && next.handled() == run.handled() && next.gathered() == run.gathered(),
        MembershipStepView::Skip => moved_on(run.user(), run.requested(), run.handled(), run.gathered(), n),
    }
}

/// What the request does after fetching the current entry's newer
/// messages: answers a failed fetch, and otherwise records the messages
/// under the entry's group and moves on.
pub open spec fn after_fetch(run: HistoryRun, messages: Result<Vec<HistoryMessage>, DbError>, n: HistoryNext) -> bool {
    match messages {
        Err(_) => n matches HistoryNext::Respond(r) && r@ == error_view(500, "Failed to fetch messages"@),
        Ok(m) => moved_on(
            run.user(),
            run.requested(),
            run.handled(),
            run.gathered().insert(run.current_entry().0, messages_view(m@)),
            n,
        ),
    }
}

/// `n` moves on past entry `handled` of `requested` with `gathered`: it
/// answers the gathered history after the last entry, and checks the next
/// entry otherwise.
pub open spec fn moved_on(
    user: usize,
    requested: Seq<(usize, usize)>,
    handled: nat,
    gathered: Map<usize, Seq<HistoryMessageView>>,
    n: HistoryNext,
) -> bool {
    if handled + 1 == requested.len() {
        n matches HistoryNext::Respond(r) && r@ == (ResponseView { status: 200, body: BodyView::History(gathered) })
    } else {
        n matches HistoryNext::CheckMembership(run) && run.wf() && run.user() == user && run.requested() == requested
            && run.handled() == handled + 1 && run.gathered() == gathered
    }
}

/// Recording messages under a group and reading them back gives them back;
/// the other groups keep theirs.
pub proof fn lemma_history_read_after_write(
    m: Map<usize, Seq<HistoryMessageView>>,
    group_id: usize,
    messages: Seq<HistoryMessageView>,
    other: usize,
)
    ensures
        m.insert(group_id, messages).contains_key(group_id),
        m.insert(group_id, messages)[group_id] == messages,
        other != group_id ==> (m.insert(group_id, messages).contains_key(other) == m.contains_key(other)),
        other != group_id && m.contains_key(other) ==> m.insert(group_id, messages)[other] == m[other],
{
}

} // verus!
