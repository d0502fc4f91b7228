//! The browser client's state machine: the pages, the user's groups and the
//! selected one, and what each event does to them and asks of the outside
//! world (HTTP requests, the web socket, follow-up events).

use vstd::prelude::*;
use crate::api::{MemberInfo, MemberView, members_view};
use crate::text::{decimal, is_blank, is_blank_text, is_empty_text, push_decimal, push_str};

verus! {

/// A group as the client keeps it.
pub struct Group {
    pub id: i64,
    pub name: String,
    pub code: String,
    pub created_at: i64,
    pub members: Vec<MemberInfo>,
    pub chat_history: Vec<String>,
}

/// The model of a group.
pub struct GroupView {
    pub id: i64,
    pub name: Seq<char>,
    pub code: Seq<char>,
    pub created_at: i64,
    pub members: Seq<MemberView>,
    pub chat_history: Seq<Seq<char>>,
}

/// The models of a list of strings.
pub open spec fn strings_view(s: Seq<String>) -> Seq<Seq<char>> {
    s.map_values(|t: String| t@)
}

/// The model of an optional string.
pub open spec fn opt_view(o: Option<String>) -> Option<Seq<char>> {
    match o {
        Some(s) => Some(s@),
        None => None,
    }
}

impl View for Group {
    type V = GroupView;

    open spec fn view(&self) -> GroupView {
        GroupView {
            id: self.id,
            name: self.name@,
            code: self.code@,
            created_at: self.created_at,
            members: members_view(self.members@),
            chat_history: strings_view(self.chat_history@),
        }
    }
}

/// The models of a list of groups.
pub open spec fn groups_view(gs: Seq<Group>) -> Seq<GroupView> {
    gs.map_values(|g: Group| g@)
}

/// The client's pages.
#[derive(PartialEq, Eq, Structural, Clone, Copy)]
pub enum Page {
    LoginPage,
    MainPage,
    NewGroupPage,
    RegistrationPage,
}

/// The body of a request to the server.
pub enum RequestBody {
    /// `{"username": ..., "password": ...}`
    Credentials { username: String, password: String },
    /// `{"name": ...}`
    GroupName { name: String },
    /// `{"group_code": ...}`
    GroupCode { group_code: String },
    /// `{"group_id": ...}`
    GroupId { group_id: i64 },
}

/// Which answer a request waits for.
#[derive(PartialEq, Eq, Structural, Clone, Copy)]
pub enum ReplyKind {
    Login,
    Register,
    CreateGroup,
    JoinGroup,
    LeaveGroup,
}

/// The events of the client.
pub enum ChatAppMsg {
    NavigateTo(Page),
    CreateGroup(String),
    DeleteGroup(i64),
    SelectGroup(usize),
    SendMessage(String),
    Login(String, String),
    LoginResponse(Result<(String, String, String), String>),
    Logout,
    Register(String, String),
    RegisterResponse(Result<String, String>),
    JoinGroup(String),
    CreateGroupResponse(Result<(i64, String, String), String>),
    JoinGroupResponse(Result<(i64, String, String), String>),
    DeleteGroupResponse(Result<String, String>),
    UpdateGroups(Vec<Group>),
    ConnectWebSocket,
    DisconnectWebSocket,
    WebSocketMessageReceived(String),
    SendWebSocketMessage(String),
}

/// What an event asks of the outside world.
pub enum Effect {
    /// POST a JSON body, with an `Authorization` header if given; the
    /// answer is read as `reply`.
    Post { url: String, authorization: Option<String>, body: RequestBody, reply: ReplyKind },
    /// GET the user's groups with the given `Authorization` header value.
    FetchGroups { url: String, bearer: String },
    /// Open the web socket at `url`, and every `ping_interval_ms`
    /// milliseconds handle `SendWebSocketMessage(ping)`.
    OpenWebSocket { url: String, ping_interval_ms: u32, ping: String },
    /// Send a text frame over the web socket.
    SendWebSocket(String),
    /// Drop the sending half of the web socket.
    CloseWebSocket,
    /// Handle this event next.
    Dispatch(ChatAppMsg),
}

/// The client's state.
pub struct ChatApp {
    pub groups: Vec<Group>,
    /// Join codes by group code: a list of (group code, join code) pairs
    /// in which a group code occurs at most once, used as a map. Entries
    /// are looked up and removed by comparing the codes' text, since a map
    /// keyed by `String` offers no such specification.
    pub join_codes: Vec<(String, String)>,
    /// The name of the logged-in user, shown in the main page's header.
    pub username: Option<String>,
    pub selected_group: Option<usize>,
    pub current_page: Page,
    pub error_message: Option<String>,
    pub logged_in: bool,
    pub token: Option<String>,
    /// Whether the web socket can send.
    pub ws_connected: bool,
}

/// The value of the `Authorization` header for a token (an absent token
/// counts as empty).
pub open spec fn bearer(token: Option<Seq<char>>) -> Seq<char> {
    "Bearer "@ + match token {
        Some(t) => t,
        None => Seq::empty(),
    }
}

/// The join codes without the entry of `code`.
pub open spec fn without_key(entries: Seq<(Seq<char>, Seq<char>)>, code: Seq<char>) -> Seq<(Seq<char>, Seq<char>)>
    decreases entries.len(),
{
    if entries.len() == 0 {
        Seq::empty()
    } else {
        let rest = without_key(entries.drop_last(), code);
        if entries.last().0 == code { rest } else { rest.push(entries.last()) }
    }
}

/// The models of the join codes.
pub open spec fn pairs_view(entries: Seq<(String, String)>) -> Seq<(Seq<char>, Seq<char>)> {
    entries.map_values(|e: (String, String)| (e.0@, e.1@))
}

/// The index of the first group with id `group_id`, if any.
pub open spec fn first_group_index(groups: Seq<GroupView>, group_id: i64) -> Option<int>
    decreases groups.len(),
{
    if groups.len() == 0 {
        None
    } else {
        match first_group_index(groups.drop_last(), group_id) {
            Some(i) => Some(i),
            None => if groups.last().id == group_id { Some(groups.len() - 1) } else { None },
        }
    }
}

/// The selection once the group at `removed` is gone: cleared if it was
/// that group, moved down by one if it came after it.
pub open spec fn selection_after_removal(selected: Option<usize>, removed: int) -> Option<usize> {
    match selected {
        Some(s) => if s == removed {
            None
        } else if s > removed {
            Some((s - 1) as usize)
        } else {
            Some(s)
        },
        None => None,
    }
}

/// A group's members when the client makes it up after creating (`id` 1,
/// `Owner`) or joining (`id` 2, `Member`) it.
pub open spec fn placeholder_member(id: i64, name: Seq<char>) -> Seq<MemberView> {
    seq![MemberView { id, name }]
}

/// The group the client makes up from a server's answer.
pub open spec fn new_group_view(id: i64, name: Seq<char>, code: Seq<char>, member: Seq<MemberView>) -> GroupView {
    GroupView { id, name, code, created_at: 0, members: member, chat_history: Seq::empty() }
}

/// A group that the server's answer to creating or joining a group adds
/// goes to the end of the list, with the answer's id, name and join code,
/// the given members and no chat history; the groups before it stay.
pub proof fn lemma_new_group_from_answer(s: AppView, id: i64, name: Seq<char>, code: Seq<char>, members: Seq<MemberView>)
    ensures
        with_new_group(s, new_group_view(id, name, code, members)).groups.len() == s.groups.len() + 1,
        with_new_group(s, new_group_view(id, name, code, members)).groups.last().id == id,
        with_new_group(s, new_group_view(id, name, code, members)).groups.last().name == name,
        with_new_group(s, new_group_view(id, name, code, members)).groups.last().code == code,
        with_new_group(s, new_group_view(id, name, code, members)).groups.last().members == members,
        with_new_group(s, new_group_view(id, name, code, members)).groups.last().chat_history.len() == 0,
        forall|i: int| 0 <= i < s.groups.len() ==> #[trigger] with_new_group(s, new_group_view(id, name, code, members)).groups[i]
            == s.groups[i],
{
}

proof fn lemma_first_group_index_bounds(groups: Seq<GroupView>, group_id: i64)
    ensures
        first_group_index(groups, group_id) matches Some(i) ==> 0 <= i < groups.len() && groups[i].id == group_id
            && forall|j: int| 0 <= j < i ==> groups[j].id != group_id,
        first_group_index(groups, group_id) is None ==> forall|j: int| 0 <= j < groups.len() ==> groups[j].id != group_id,
    decreases groups.len(),
{
    if groups.len() > 0 {
        let prefix = groups.drop_last();
        lemma_first_group_index_bounds(prefix, group_id);
        assert forall|j: int| 0 <= j < prefix.len() implies prefix[j] == groups[j] by {}
    }
}

/// Deleting a group keeps the selection on the same group, unless that
/// group is the one deleted, in which case nothing is selected.
pub proof fn lemma_delete_keeps_selection(groups: Seq<GroupView>, removed: int, s: usize)
    requires
        0 <= removed < groups.len(),
        s < groups.len(),
    ensures
        s == removed ==> selection_after_removal(Some(s), removed) is None,
        s != removed ==> (selection_after_removal(Some(s), removed) matches Some(t)
            && t < groups.remove(removed).len() && groups.remove(removed)[t as int] == groups[s as int]),
{
}

/// Deleting a group by id, when ids are distinct, leaves no group with
/// that id and keeps every other group, in order.
pub proof fn lemma_deleted_group_gone(groups: Seq<GroupView>, group_id: i64)
    requires
        forall|i: int, j: int| 0 <= i < j < groups.len() ==> groups[i].id != groups[j].id,
    ensures
        first_group_index(groups, group_id) matches Some(k) ==> {
            &&& groups.remove(k).len() == groups.len() - 1
            &&& forall|j: int| 0 <= j < groups.remove(k).len() ==> (#[trigger] groups.remove(k)[j]).id != group_id
        },
        first_group_index(groups, group_id) is None ==> forall|j: int| 0 <= j < groups.len() ==> groups[j].id != group_id,
{
    lemma_first_group_index_bounds(groups, group_id);
    match first_group_index(groups, group_id) {
        Some(k) => {
            assert forall|j: int| 0 <= j < groups.remove(k).len() implies (#[trigger] groups.remove(k)[j]).id != group_id by {
                if j < k {
                    assert(groups.remove(k)[j] == groups[j]);
                } else {
                    assert(groups.remove(k)[j] == groups[j + 1]);
                    assert(groups[k].id != groups[j + 1].id);
                }
            }
        },
        None => {},
    }
}

impl ChatApp {
    /// The state at start: no groups, on the login page, logged out.
    pub fn create() -> (app: Self)
        ensures
            app.groups@.len() == 0,
            app.join_codes@.len() == 0,
            app.username is None,
            app.selected_group is None,
            app.current_page == Page::LoginPage,
            app.error_message is None,
            !app.logged_in,
            app.token is None,
            !app.ws_connected,
    {
        ChatApp {
            groups: Vec::new(),
            join_codes: Vec::new(),
            username: None,
            selected_group: None,
            current_page: Page::LoginPage,
            error_message: None,
            logged_in: false,
            token: None,
            ws_connected: false,
        }
    }

    /// The `Authorization` header value of the current token.
    pub fn authorization(&self) -> (h: String)
        ensures
            h@ == bearer(opt_view(self.token)),
    {
        let mut h = String::from_str("Bearer ");
        match &self.token {
            Some(t) => push_str(&mut h, t.as_str()),
            None => {},
        }
        proof {
            reveal_strlit("Bearer ");
            assert(h@ =~= bearer(opt_view(self.token)));
        }
        h
    }

    fn set_error(&mut self, message: &str)
        ensures
            final(self).error_message matches Some(e) && e@ == message@,
            final(self).groups == old(self).groups,
            final(self).join_codes == old(self).join_codes,
            final(self).selected_group == old(self).selected_group,
            final(self).current_page == old(self).current_page,
            final(self).logged_in == old(self).logged_in,
            final(self).username == old(self).username,
            final(self).token == old(self).token,
            final(self).ws_connected == old(self).ws_connected,
    {
        self.error_message = Some(String::from_str(message));
    }

    fn remove_join_code(&mut self, code: &String)
        ensures
            pairs_view(final(self).join_codes@) == without_key(pairs_view(old(self).join_codes@), code@),
            final(self).groups == old(self).groups,
            final(self).selected_group == old(self).selected_group,
            final(self).current_page == old(self).current_page,
            final(self).error_message == old(self).error_message,
            final(self).logged_in == old(self).logged_in,
            final(self).username == old(self).username,
            final(self).token == old(self).token,
            final(self).ws_connected == old(self).ws_connected,
    {
        let mut kept: Vec<(String, String)> = Vec::new();
        let mut old_codes: Vec<(String, String)> = Vec::new();
        std::mem::swap(&mut old_codes, &mut self.join_codes);
        let ghost all = pairs_view(old_codes@);
        let mut i: usize = 0;
        while i < old_codes.len()
            invariant
                i <= old_codes.len(),
                all == pairs_view(old_codes@),
                pairs_view(kept@) == without_key(all.take(i as int), code@),
            decreases old_codes.len() - i,
        {
            assert(all.take(i + 1).drop_last() =~= all.take(i as int));
            if old_codes[i].0 != *code {
                let entry = (old_codes[i].0.clone(), old_codes[i].1.clone());
                kept.push(entry);
                assert(pairs_view(kept@) =~= without_key(all.take(i as int), code@).push(all[i as int]));
            }
            i = i + 1;
        }
        assert(all.take(old_codes.len() as int) =~= all);
        self.join_codes = kept;
    }

    /// Removes the first group with id `group_id`, if any, with its join
    /// code, and keeps the selection on the same group.
    pub fn remove_group(&mut self, group_id: i64)
        ensures
            match first_group_index(groups_view(old(self).groups@), group_id) {
                Some(i) => {
                    &&& groups_view(final(self).groups@) == groups_view(old(self).groups@).remove(i)
                    &&& pairs_view(final(self).join_codes@) == without_key(pairs_view(old(self).join_codes@), old(self).groups@[i].code@)
                    &&& final(self).selected_group == selection_after_removal(old(self).selected_group, i)
                },
                None => {
                    &&& final(self).groups == old(self).groups
                    &&& final(self).join_codes == old(self).join_codes
                    &&& final(self).selected_group == old(self).selected_group
                },
            },
            final(self).current_page == old(self).current_page,
            final(self).error_message == old(self).error_message,
            final(self).logged_in == old(self).logged_in,
            final(self).username == old(self).username,
            final(self).token == old(self).token,
            final(self).ws_connected == old(self).ws_connected,
    {
        let ghost gv = groups_view(self.groups@);
        proof {
            lemma_first_group_index_bounds(gv, group_id);
        }
        let mut i: usize = 0;
        while i < self.groups.len()
            invariant
                i <= self.groups.len(),
                self.groups == old(self).groups,
                self.join_codes == old(self).join_codes,
                self.selected_group == old(self).selected_group,
                self.current_page == old(self).current_page,
                self.error_message == old(self).error_message,
                self.logged_in == old(self).logged_in,
                self.username == old(self).username,
                self.token == old(self).token,
                self.ws_connected == old(self).ws_connected,
                gv == groups_view(self.groups@),
                forall|j: int| 0 <= j < i ==> gv[j].id != group_id,
                first_group_index(gv, group_id) matches Some(k) ==> 0 <= k < gv.len() && gv[k].id == group_id
                    && forall|j: int| 0 <= j < k ==> gv[j].id != group_id,
                first_group_index(gv, group_id) is None ==> forall|j: int| 0 <= j < gv.len() ==> gv[j].id != group_id,
            decreases self.groups.len() - i,
        {
            if self.groups[i].id == group_id {
                assert(gv[i as int].id == self.groups@[i as int].id);
                assert(first_group_index(gv, group_id) == Some(i as int));
                let code = self.groups[i].code.clone();
                self.remove_join_code(&code);
                let _removed = self.groups.remove(i);
                assert(groups_view(self.groups@) =~= gv.remove(i as int));
                if self.selected_group == Some(i) {
                    self.selected_group = None;
                } else {
                    match self.selected_group {
                        Some(selected) => {
                            if selected > i {
                                self.selected_group = Some(selected - 1);
                            }
                        },
                        None => {},
                    }
                }
                return;
            }
            i = i + 1;
        }
    }
}

/// The model of a request body.
pub enum RequestBodyView {
    Credentials { username: Seq<char>, password: Seq<char> },
    GroupName { name: Seq<char> },
    GroupCode { group_code: Seq<char> },
    GroupId { group_id: i64 },
}

/// The model of an event that an event passes on.
pub enum DispatchView {
    ConnectWebSocket,
    DisconnectWebSocket,
    SendWebSocketMessage(Seq<char>),
    Other,
}

/// The model of an effect.
pub enum EffectView {
    Post { url: Seq<char>, authorization: Option<Seq<char>>, body: RequestBodyView, reply: ReplyKind },
    FetchGroups { url: Seq<char>, bearer: Seq<char> },
    OpenWebSocket { url: Seq<char>, ping_interval_ms: u32, ping: Seq<char> },
    SendWebSocket(Seq<char>),
    CloseWebSocket,
    Dispatch(DispatchView),
}

impl View for RequestBody {
    type V = RequestBodyView;

    open spec fn view(&self) -> RequestBodyView {
        match self {
            RequestBody::Credentials { username, password } => RequestBodyView::Credentials {
                username: username@,
                password: password@,
            },
            RequestBody::GroupName { name } => RequestBodyView::GroupName { name: name@ },
            RequestBody::GroupCode { group_code } => RequestBodyView::GroupCode { group_code: group_code@ },
            RequestBody::GroupId { group_id } => RequestBodyView::GroupId { group_id: *group_id },
        }
    }
}

impl View for Effect {
    type V = EffectView;

    open spec fn view(&self) -> EffectView {
        match self {
            Effect::Post { url, authorization, body, reply } => EffectView::Post {
                url: url@,
                authorization: opt_view(*authorization),
                body: body@,
                reply: *reply,
            },
            Effect::FetchGroups { url, bearer } => EffectView::FetchGroups { url: url@, bearer: bearer@ },
            Effect::OpenWebSocket { url, ping_interval_ms, ping } => EffectView::OpenWebSocket {
                url: url@,
                ping_interval_ms: *ping_interval_ms,
                ping: ping@,
            },
            Effect::SendWebSocket(m) => EffectView::SendWebSocket(m@),
            Effect::CloseWebSocket => EffectView::CloseWebSocket,
            Effect::Dispatch(msg) => EffectView::Dispatch(
                match msg {
                    ChatAppMsg::ConnectWebSocket => DispatchView::ConnectWebSocket,
                    ChatAppMsg::DisconnectWebSocket => DispatchView::DisconnectWebSocket,
                    ChatAppMsg::SendWebSocketMessage(m) => DispatchView::SendWebSocketMessage(m@),
                    _ => DispatchView::Other,
                },
            ),
        }
    }
}

/// The models of a list of effects.
pub open spec fn effects_view(effects: Seq<Effect>) -> Seq<EffectView> {
    effects.map_values(|e: Effect| e@)
}

/// The model of the client's state.
pub struct AppView {
    pub groups: Seq<GroupView>,
    pub join_codes: Seq<(Seq<char>, Seq<char>)>,
    pub username: Option<Seq<char>>,
    pub selected_group: Option<usize>,
    pub current_page: Page,
    pub error_message: Option<Seq<char>>,
    pub logged_in: bool,
    pub token: Option<Seq<char>>,
    pub ws_connected: bool,
}

impl View for ChatApp {
    type V = AppView;

    open spec fn view(&self) -> AppView {
        AppView {
            groups: groups_view(self.groups@),
            join_codes: pairs_view(self.join_codes@),
            username: opt_view(self.username),
            selected_group: self.selected_group,
            current_page: self.current_page,
            error_message: opt_view(self.error_message),
            logged_in: self.logged_in,
            token: opt_view(self.token),
            ws_connected: self.ws_connected,
        }
    }
}

/// The state after a failed step: the error message shows, nothing else
/// changes.
pub open spec fn with_error(s: AppView, message: Seq<char>) -> AppView {
    AppView { error_message: Some(message), ..s }
}

/// The state after deleting group `group_id` locally.
pub open spec fn after_removal(s: AppView, group_id: i64) -> AppView {
    match first_group_index(s.groups, group_id) {
        Some(i) => AppView {
            groups: s.groups.remove(i),
            join_codes: without_key(s.join_codes, s.groups[i].code),
            selected_group: selection_after_removal(s.selected_group, i),
            ..s
        },
        None => s,
    }
}

/// The state after the server answered a group creation or a join with a
/// group: the group joins the list and the main page shows.
pub open spec fn with_new_group(s: AppView, g: GroupView) -> AppView {
    AppView { groups: s.groups.push(g), current_page: Page::MainPage, error_message: None, ..s }
}

/// A single POST effect.
pub open spec fn post_effect(url: Seq<char>, authorization: Option<Seq<char>>, body: RequestBodyView, reply: ReplyKind) -> Seq<EffectView> {
    seq![EffectView::Post { url, authorization, body, reply }]
}

/// The text of `token`, empty when there is none.
pub open spec fn token_text(token: Option<Seq<char>>) -> Seq<char> {
    match token {
        Some(t) => t,
        None => Seq::empty(),
    }
}

impl ChatApp {
    /// Handles one event: the new state, and what the event asks of the
    /// outside world, in order.
    #[verifier::rlimit(40)]
    pub fn update(&mut self, msg: ChatAppMsg) -> (effects: Vec<Effect>)
        requires
            msg matches ChatAppMsg::SendMessage(m) ==> (old(self).selected_group matches Some(i) ==> (!is_blank_text(m@)
                ==> i < old(self).groups@.len())),
        ensures
            match msg {
                ChatAppMsg::NavigateTo(page) => final(self)@ == (AppView { current_page: page, error_message: None, ..old(self)@ })
                    && effects@.len() == 0,
                ChatAppMsg::CreateGroup(name) => if name@.len() == 0 {
                    final(self)@ == with_error(old(self)@, "Group name cannot be empty."@) && effects@.len() == 0
                } else {
                    final(self)@ == (AppView { error_message: None, ..old(self)@ })
                    && effects_view(effects@) == post_effect("http://localhost:8081/api/group/create"@,
                        Some(bearer(old(self)@.token)), RequestBodyView::GroupName { name: name@ }, ReplyKind::CreateGroup)
                },
                ChatAppMsg::CreateGroupResponse(Ok((id, name, code))) => final(self)@ == with_new_group(old(self)@,
                    new_group_view(id, name@, code@, placeholder_member(1, "Owner"@))) && effects@.len() == 0,
                ChatAppMsg::CreateGroupResponse(Err(e)) => final(self)@ == with_error(old(self)@, e@) && effects@.len() == 0,
                ChatAppMsg::JoinGroup(code) => if code@.len() == 0 {
                    final(self)@ == with_error(old(self)@, "Join code cannot be empty."@) && effects@.len() == 0
                } else {
                    final(self)@ == (AppView { error_message: None, ..old(self)@ })
                    && effects_view(effects@) == post_effect("http://localhost:8081/api/group/join"@,
                        Some(bearer(old(self)@.token)), RequestBodyView::GroupCode { group_code: code@ }, ReplyKind::JoinGroup)
                },
                ChatAppMsg::JoinGroupResponse(Ok((id, name, code))) => final(self)@ == with_new_group(old(self)@,
                    new_group_view(id, name@, code@, placeholder_member(2, "Member"@))) && effects@.len() == 0,
                ChatAppMsg::JoinGroupResponse(Err(e)) => final(self)@ == with_error(old(self)@, e@) && effects@.len() == 0,
                ChatAppMsg::DeleteGroup(group_id) => final(self)@ == after_removal(old(self)@, group_id)
                    && effects_view(effects@) == post_effect("http://localhost:8081/api/group/leave"@,
                        Some(bearer(old(self)@.token)), RequestBodyView::GroupId { group_id }, ReplyKind::LeaveGroup),
                ChatAppMsg::DeleteGroupResponse(Ok(_)) => final(self)@ == (AppView { error_message: None, ..old(self)@ })
                    && effects@.len() == 0,
                ChatAppMsg::DeleteGroupResponse(Err(e)) => final(self)@ == with_error(old(self)@, e@) && effects@.len() == 0,
                ChatAppMsg::SelectGroup(index) => final(self)@ == (AppView { selected_group: Some(index), ..old(self)@ })
                    && effects@.len() == 0,
                ChatAppMsg::SendMessage(m) => match old(self).selected_group {
                    Some(i) => if !is_blank_text(m@) {
                        final(self)@ == (AppView {
                            groups: old(self)@.groups.update(i as int, GroupView {
                                chat_history: old(self)@.groups[i as int].chat_history.push(m@),
                                ..old(self)@.groups[i as int]
                            }),
                            ..old(self)@
                        })
                        && effects_view(effects@) == seq![EffectView::Dispatch(DispatchView::SendWebSocketMessage(m@))]
                    } else {
                        final(self)@ == old(self)@ && effects@.len() == 0
                    },
                    None => final(self)@ == old(self)@ && effects@.len() == 0,
                },
                ChatAppMsg::Login(u, p) => if is_blank_text(u@) || is_blank_text(p@) {
                    final(self)@ == with_error(old(self)@, "All fields need to be filled out."@) && effects@.len() == 0
                } else {
                    final(self)@ == (AppView { error_message: None, ..old(self)@ })
                    && effects_view(effects@) == post_effect("http://localhost:8081/login"@, None,
                        RequestBodyView::Credentials { username: u@, password: p@ }, ReplyKind::Login)
                },
                ChatAppMsg::LoginResponse(Ok((_id, name, token))) => final(self)@ == (AppView {
                    username: Some(name@),
                    logged_in: true,
                    error_message: None,
                    token: Some(token@),
                    current_page: Page::MainPage,
                    ..old(self)@
                }) && effects_view(effects@) == seq![
                    EffectView::FetchGroups { url: "http://localhost:8081/api/group/list"@, bearer: "Bearer "@ + token@ },
                    EffectView::Dispatch(DispatchView::ConnectWebSocket),
                ],
                ChatAppMsg::LoginResponse(Err(e)) => final(self)@ == with_error(old(self)@, e@) && effects@.len() == 0,
                ChatAppMsg::Register(u, p) => if is_blank_text(u@) || is_blank_text(p@) {
                    final(self)@ == with_error(old(self)@, "All fields need to be filled out"@) && effects@.len() == 0
                } else {
                    final(self)@ == (AppView { error_message: None, ..old(self)@ })
                    && effects_view(effects@) == post_effect("http://localhost:8081/signup"@, None,
                        RequestBodyView::Credentials { username: u@, password: p@ }, ReplyKind::Register)
                },
                ChatAppMsg::RegisterResponse(Ok(_)) => final(self)@ == (AppView {
                    error_message: None,
                    current_page: Page::LoginPage,
                    ..old(self)@
                }) && effects@.len() == 0,
                ChatAppMsg::RegisterResponse(Err(e)) => final(self)@ == with_error(old(self)@, e@) && effects@.len() == 0,
                ChatAppMsg::Logout => final(self)@ == (AppView {
                    logged_in: false,
                    current_page: Page::LoginPage,
                    error_message: None,
                    ..old(self)@
                }) && effects_view(effects@) == seq![EffectView::Dispatch(DispatchView::DisconnectWebSocket)],
                ChatAppMsg::UpdateGroups(groups) => final(self)@ == (AppView { groups: groups_view(groups@), ..old(self)@ })
                    && effects@.len() == 0,
                ChatAppMsg::ConnectWebSocket => final(self)@ == (AppView { ws_connected: true, ..old(self)@ })
                    && effects_view(effects@) == seq![EffectView::OpenWebSocket {
                        url: "ws://localhost:8081/api/ws/connect/"@ + token_text(old(self)@.token),
                        ping_interval_ms: 5000,
                        ping: "ping"@,
                    }],
                ChatAppMsg::DisconnectWebSocket => final(self)@ == (AppView { ws_connected: false, ..old(self)@ })
                    && effects_view(effects@) == seq![EffectView::CloseWebSocket],
                ChatAppMsg::WebSocketMessageReceived(_) => final(self)@ == old(self)@ && effects@.len() == 0,
                ChatAppMsg::SendWebSocketMessage(m) => final(self)@ == old(self)@ && if old(self).ws_connected {
                    effects_view(effects@) == seq![EffectView::SendWebSocket(m@)]
                } else {
                    effects@.len() == 0
                },
            },
    {
        let mut effects: Vec<Effect> = Vec::new();
        match msg {
            ChatAppMsg::NavigateTo(page) => {
                self.current_page = page;
                self.error_message = None;
            },
            ChatAppMsg::CreateGroup(name) => {
                if is_empty_text(name.as_str()) {
                    self.set_error("Group name cannot be empty.");
                } else {
                    let authorization = Some(self.authorization());
                    effects.push(Effect::Post {
                        url: String::from_str("http://localhost:8081/api/group/create"),
                        authorization,
                        body: RequestBody::GroupName { name },
                        reply: ReplyKind::CreateGroup,
                    });
                    self.error_message = None;
                    assert(effects_view(effects@) =~= post_effect("http://localhost:8081/api/group/create"@,
                        Some(bearer(old(self)@.token)), RequestBodyView::GroupName { name: name@ }, ReplyKind::CreateGroup));
                }
            },
            ChatAppMsg::CreateGroupResponse(result) => {
                match result {
                    Ok((group_id, group_name, group_code)) => {
                        self.push_new_group(group_id, group_name, group_code, 1, "Owner");
                    },
                    Err(err) => {
                        self.error_message = Some(err);
                    },
                }
            },
            ChatAppMsg::JoinGroup(join_code) => {
                if is_empty_text(join_code.as_str()) {
                    self.set_error("Join code cannot be empty.");
                } else {
                    let authorization = Some(self.authorization());
                    effects.push(Effect::Post {
                        url: String::from_str("http://localhost:8081/api/group/join"),
                        authorization,
                        body: RequestBody::GroupCode { group_code: join_code },
                        reply: ReplyKind::JoinGroup,
                    });
                    self.error_message = None;
                    assert(effects_view(effects@) =~= post_effect("http://localhost:8081/api/group/join"@,
                        Some(bearer(old(self)@.token)), RequestBodyView::GroupCode { group_code: join_code@ }, ReplyKind::JoinGroup));
                }
            },
            ChatAppMsg::JoinGroupResponse(result) => {
                match result {
                    Ok((group_id, group_name, group_code)) => {
                        self.push_new_group(group_id, group_name, group_code, 2, "Member");
                    },
                    Err(err) => {
                        self.error_message = Some(err);
                    },
                }
            },
            ChatAppMsg::DeleteGroup(group_id) => {
                self.remove_group(group_id);
                proof {
                    lemma_first_group_index_bounds(old(self)@.groups, group_id);
                    match first_group_index(old(self)@.groups, group_id) {
                        Some(i) => {
                            assert(old(self)@.groups[i].code == old(self).groups@[i].code@);
                        },
                        None => {},
                    }
                    assert(self@ == after_removal(old(self)@, group_id));
                }
                let authorization = Some(self.authorization());
                effects.push(Effect::Post {
                    url: String::from_str("http://localhost:8081/api/group/leave"),
                    authorization,
                    body: RequestBody::GroupId { group_id },
                    reply: ReplyKind::LeaveGroup,
                });
                assert(effects_view(effects@) =~= post_effect("http://localhost:8081/api/group/leave"@,
                    Some(bearer(old(self)@.token)), RequestBodyView::GroupId { group_id }, ReplyKind::LeaveGroup));
            },
            ChatAppMsg::DeleteGroupResponse(result) => {
                match result {
                    Ok(_) => {
                        self.error_message = None;
                    },
                    Err(err) => {
                        self.error_message = Some(err);
                    },
                }
            },
            ChatAppMsg::SelectGroup(index) => {
                self.selected_group = Some(index);
            },
            ChatAppMsg::SendMessage(message) => {
                match self.selected_group {
                    Some(selected_index) => {
                        if !is_blank(message.as_str()) {
                            self.append_to_history(selected_index, message.clone());
                            effects.push(Effect::Dispatch(ChatAppMsg::SendWebSocketMessage(message)));
                            assert(effects_view(effects@) =~= seq![EffectView::Dispatch(DispatchView::SendWebSocketMessage(message@))]);
                        }
                    },
                    None => {},
                }
            },
            ChatAppMsg::Login(username, password) => {
                if is_blank(username.as_str()) || is_blank(password.as_str()) {
                    self.set_error("All fields need to be filled out.");
                } else {
                    effects.push(Effect::Post {
                        url: String::from_str("http://localhost:8081/login"),
                        authorization: None,
                        body: RequestBody::Credentials { username, password },
                        reply: ReplyKind::Login,
                    });
                    self.error_message = None;
                    assert(effects_view(effects@) =~= post_effect("http://localhost:8081/login"@, None,
                        RequestBodyView::Credentials { username: username@, password: password@ }, ReplyKind::Login));
                }
            },
            ChatAppMsg::LoginResponse(result) => {
                match result {
                    Ok((_id, username, access_token)) => {
                        self.username = Some(username);
                        self.logged_in = true;
                        self.error_message = None;
                        self.token = Some(access_token);
                        self.current_page = Page::MainPage;
                        let bearer = self.authorization();
                        effects.push(Effect::FetchGroups {
                            url: String::from_str("http://localhost:8081/api/group/list"),
                            bearer,
                        });
                        effects.push(Effect::Dispatch(ChatAppMsg::ConnectWebSocket));
                        assert(effects_view(effects@) =~= seq![
                            EffectView::FetchGroups { url: "http://localhost:8081/api/group/list"@, bearer: "Bearer "@ + access_token@ },
                            EffectView::Dispatch(DispatchView::ConnectWebSocket),
                        ]);
                    },
                    Err(err) => {
                        self.error_message = Some(err);
                    },
                }
            },
            ChatAppMsg::Register(username, password) => {
                if is_blank(username.as_str()) || is_blank(password.as_str()) {
                    self.set_error("All fields need to be filled out");
                } else {
                    effects.push(Effect::Post {
                        url: String::from_str("http://localhost:8081/signup"),
                        authorization: None,
                        body: RequestBody::Credentials { username, password },
                        reply: ReplyKind::Register,
                    });
                    self.error_message = None;
                    assert(effects_view(effects@) =~= post_effect("http://localhost:8081/signup"@, None,
                        RequestBodyView::Credentials { username: username@, password: password@ }, ReplyKind::Register));
                }
            },
            ChatAppMsg::RegisterResponse(result) => {
                match result {
                    Ok(_) => {
                        self.error_message = None;
                        self.current_page = Page::LoginPage;
                    },
                    Err(err) => {
                        self.error_message = Some(err);
                    },
                }
            },
            ChatAppMsg::Logout => {
                self.logged_in = false;
                self.current_page = Page::LoginPage;
                self.error_message = None;
                effects.push(Effect::Dispatch(ChatAppMsg::DisconnectWebSocket));
                assert(effects_view(effects@) =~= seq![EffectView::Dispatch(DispatchView::DisconnectWebSocket)]);
            },
            ChatAppMsg::UpdateGroups(groups) => {
                self.groups = groups;
            },
            ChatAppMsg::ConnectWebSocket => {
                let mut url = String::from_str("ws://localhost:8081/api/ws/connect/");
                match &self.token {
                    Some(t) => push_str(&mut url, t.as_str()),
                    None => {},
                }
                proof {
                    assert(url@ =~= "ws://localhost:8081/api/ws/connect/"@ + token_text(old(self)@.token));
                }
                self.ws_connected = true;
                effects.push(Effect::OpenWebSocket { url, ping_interval_ms: 5000, ping: String::from_str("ping") });
                assert(effects_view(effects@) =~= seq![EffectView::OpenWebSocket {
                    url: "ws://localhost:8081/api/ws/connect/"@ + token_text(old(self)@.token),
                    ping_interval_ms: 5000,
                    ping: "ping"@,
                }]);
            },
            ChatAppMsg::DisconnectWebSocket => {
                self.ws_connected = false;
                effects.push(Effect::CloseWebSocket);
                assert(effects_view(effects@) =~= seq![EffectView::CloseWebSocket]);
            },
            ChatAppMsg::WebSocketMessageReceived(_) => {},
            ChatAppMsg::SendWebSocketMessage(message) => {
                if self.ws_connected {
                    effects.push(Effect::SendWebSocket(message));
                    assert(effects_view(effects@) =~= seq![EffectView::SendWebSocket(message@)]);
                }
            },
        }
        effects
    }

    fn push_new_group(&mut self, group_id: i64, group_name: String, group_code: String, member_id: i64, member_name: &str)
        ensures
            final(self)@ == with_new_group(old(self)@, new_group_view(group_id, group_name@, group_code@,
                placeholder_member(member_id, member_name@))),
    {
        let mut members: Vec<MemberInfo> = Vec::new();
        members.push(MemberInfo { id: member_id, name: String::from_str(member_name) });
        let new_group = Group {
            id: group_id,
            name: group_name,
            code: group_code,
            created_at: 0,
            members,
            chat_history: Vec::new(),
        };
        assert(members_view(new_group.members@) =~= placeholder_member(member_id, member_name@));
        assert(strings_view(new_group.chat_history@) =~= Seq::<Seq<char>>::empty());
        assert(new_group@ =~= new_group_view(group_id, group_name@, group_code@, placeholder_member(member_id, member_name@)));
        self.groups.push(new_group);
        self.current_page = Page::MainPage;
        self.error_message = None;
        assert(groups_view(self.groups@) =~= groups_view(old(self).groups@).push(new_group@));
    }

    fn append_to_history(&mut self, index: usize, message: String)
        requires
            index < old(self).groups@.len(),
        ensures
            final(self)@ == (AppView {
                groups: old(self)@.groups.update(index as int, GroupView {
                    chat_history: old(self)@.groups[index as int].chat_history.push(message@),
                    ..old(self)@.groups[index as int]
                }),
                ..old(self)@
            }),
    {
        let mut group = self.groups.remove(index);
        group.chat_history.push(message);
        assert(strings_view(group.chat_history@) =~= old(self)@.groups[index as int].chat_history.push(message@));
        self.groups.insert(index, group);
        assert(groups_view(self.groups@) =~= old(self)@.groups.update(index as int, group@));
    }
}

// ------------------------------------------------------------ page texts

/// Names joined by `, `, as `Vec::join(", ")` joins them.
pub open spec fn join_names(names: Seq<Seq<char>>) -> Seq<char>
    decreases names.len(),
{
    if names.len() == 0 {
        Seq::empty()
    } else if names.len() == 1 {
        names[0]
    } else {
        join_names(names.drop_last()) + ", "@ + names.last()
    }
}

/// The names of a list of members.
pub open spec fn member_names_view(members: Seq<MemberView>) -> Seq<Seq<char>> {
    members.map_values(|m: MemberView| m.name)
}

/// The title in the main page's header: the logged-in user's name, or
/// `Main Page` before anyone logged in.
pub fn main_page_title(app: &ChatApp) -> (s: String)
    ensures
        s@ == match app.username {
            Some(n) => n@,
            None => "Main Page"@,
        },
{
    match &app.username {
        Some(n) => n.clone(),
        None => String::from_str("Main Page"),
    }
}

/// The label of a group's button in the group list: `<name> # <code>`.
pub fn group_label(group: &Group) -> (s: String)
    ensures
        s@ == group.name@ + " # "@ + group.code@,
{
    let mut s = String::new();
    push_str(&mut s, group.name.as_str());
    push_str(&mut s, " # ");
    push_str(&mut s, group.code.as_str());
    assert(s@ =~= group.name@ + " # "@ + group.code@);
    s
}

/// The heading of the selected group's member list:
/// `<n> online member(s) | Online: `.
pub fn online_summary(group: &Group) -> (s: String)
    ensures
        s@ == decimal(group.members@.len()) + " online member(s) | Online: "@,
{
    let mut s = String::new();
    push_decimal(&mut s, group.members.len() as u64);
    push_str(&mut s, " online member(s) | Online: ");
    assert(s@ =~= decimal(group.members@.len()) + " online member(s) | Online: "@);
    s
}

/// The names of a group's members, joined by `, `.
pub fn member_names(group: &Group) -> (s: String)
    ensures
        s@ == join_names(member_names_view(members_view(group.members@))),
{
    let ghost names = member_names_view(members_view(group.members@));
    let mut s = String::new();
    let mut i: usize = 0;
    while i < group.members.len()
        invariant
            i <= group.members@.len(),
            names == member_names_view(members_view(group.members@)),
            names.len() == group.members@.len(),
            s@ == join_names(names.take(i as int)),
        decreases group.members.len() - i,
    {
        assert(names.take(i + 1).drop_last() =~= names.take(i as int));
        assert(names[i as int] == group.members@[i as int].name@);
        if i > 0 {
            push_str(&mut s, ", ");
        }
        push_str(&mut s, group.members[i].name.as_str());
        proof {
            if i == 0 {
                assert(s@ =~= join_names(names.take(1)));
            } else {
                assert(s@ =~= join_names(names.take(i + 1)));
            }
        }
        i = i + 1;
    }
    assert(names.take(group.members@.len() as int) =~= names);
    s
}

} // verus!
