use chat_app::api::{GroupListing, MemberInfo};
use chat_app::client::{group_label, main_page_title, member_names, online_summary, ChatApp, ChatAppMsg, Effect, Group, Page, ReplyKind, RequestBody};
use chat_app::replies::{
    create_group_reply, groups_from_listings, groups_reading, groups_reply, join_group_reply, leave_group_reply,
    login_reply, register_reply, reply_reading, GroupsReadAs, GroupsReply, ReadAs, ReadFailure, Reply, ReplyFields,
};

fn group(id: i64, name: &str, code: &str) -> Group {
    Group {
        id,
        name: name.to_string(),
        code: code.to_string(),
        created_at: 0,
        members: vec![],
        chat_history: vec![],
    }
}

fn logged_in_app() -> ChatApp {
    let mut app = ChatApp::create();
    app.update(ChatAppMsg::LoginResponse(Ok(("1".to_string(), "ann".to_string(), "tok".to_string()))));
    app
}

#[test]
fn starts_on_login_page() {
    let app = ChatApp::create();
    assert!(app.current_page == Page::LoginPage);
    assert!(!app.logged_in);
    assert!(app.groups.is_empty());
}

#[test]
fn login_validation_and_request() {
    let mut app = ChatApp::create();
    let e = app.update(ChatAppMsg::Login("  ".to_string(), "pw".to_string()));
    assert!(e.is_empty());
    assert_eq!(app.error_message.as_deref(), Some("All fields need to be filled out."));
    let e = app.update(ChatAppMsg::Login("ann".to_string(), "pw".to_string()));
    assert!(app.error_message.is_none());
    assert_eq!(e.len(), 1);
    match &e[0] {
        Effect::Post { url, authorization, body, reply } => {
            assert_eq!(url, "http://localhost:8081/login");
            assert!(authorization.is_none());
            assert!(matches!(body, RequestBody::Credentials { username, password } if username == "ann" && password == "pw"));
            assert!(*reply == ReplyKind::Login);
        }
        _ => panic!("expected a POST"),
    }
}

#[test]
fn login_response_moves_to_main_page() {
    let mut app = ChatApp::create();
    let e = app.update(ChatAppMsg::LoginResponse(Ok(("1".to_string(), "ann".to_string(), "tok".to_string()))));
    assert!(app.logged_in);
    assert!(app.current_page == Page::MainPage);
    assert_eq!(app.token.as_deref(), Some("tok"));
    assert_eq!(e.len(), 2);
    assert!(matches!(&e[0], Effect::FetchGroups { url, bearer } if url == "http://localhost:8081/api/group/list" && bearer == "Bearer tok"));
    assert!(matches!(&e[1], Effect::Dispatch(ChatAppMsg::ConnectWebSocket)));
    let mut app = ChatApp::create();
    app.update(ChatAppMsg::LoginResponse(Err("Network error: down".to_string())));
    assert_eq!(app.error_message.as_deref(), Some("Network error: down"));
    assert!(!app.logged_in);
}

#[test]
fn register_validation() {
    let mut app = ChatApp::create();
    app.update(ChatAppMsg::Register("ann".to_string(), "".to_string()));
    assert_eq!(app.error_message.as_deref(), Some("All fields need to be filled out"));
    let e = app.update(ChatAppMsg::Register("ann".to_string(), "pw".to_string()));
    assert!(matches!(&e[0], Effect::Post { url, reply: ReplyKind::Register, .. } if url == "http://localhost:8081/signup"));
    app.current_page = Page::RegistrationPage;
    app.update(ChatAppMsg::RegisterResponse(Ok("ann".to_string())));
    assert!(app.current_page == Page::LoginPage);
}

#[test]
fn create_and_join_groups() {
    let mut app = logged_in_app();
    app.update(ChatAppMsg::CreateGroup("".to_string()));
    assert_eq!(app.error_message.as_deref(), Some("Group name cannot be empty."));
    let e = app.update(ChatAppMsg::CreateGroup("study".to_string()));
    assert!(matches!(&e[0], Effect::Post { url, authorization: Some(a), body: RequestBody::GroupName { name }, .. }
        if url == "http://localhost:8081/api/group/create" && a == "Bearer tok" && name == "study"));
    app.update(ChatAppMsg::CreateGroupResponse(Ok((5, "study".to_string(), "CZ5".to_string()))));
    assert_eq!(app.groups.len(), 1);
    assert_eq!(app.groups[0].members[0].name, "Owner");
    assert_eq!(app.groups[0].members[0].id, 1);
    app.update(ChatAppMsg::JoinGroup("".to_string()));
    assert_eq!(app.error_message.as_deref(), Some("Join code cannot be empty."));
    let e = app.update(ChatAppMsg::JoinGroup("Q1".to_string()));
    assert!(matches!(&e[0], Effect::Post { url, body: RequestBody::GroupCode { group_code }, .. }
        if url == "http://localhost:8081/api/group/join" && group_code == "Q1"));
    app.update(ChatAppMsg::JoinGroupResponse(Ok((6, "club".to_string(), "Q1".to_string()))));
    assert_eq!(app.groups.len(), 2);
    assert_eq!(app.groups[1].members[0].name, "Member");
    assert!(app.current_page == Page::MainPage);
}

#[test]
fn delete_keeps_the_selected_group() {
    let mut app = logged_in_app();
    app.groups = vec![group(1, "a", "A"), group(2, "b", "B"), group(3, "c", "C")];
    app.update(ChatAppMsg::SelectGroup(2));
    let e = app.update(ChatAppMsg::DeleteGroup(1));
    assert_eq!(app.groups.len(), 2);
    assert_eq!(app.selected_group, Some(1));
    assert_eq!(app.groups[1].id, 3);
    assert!(matches!(&e[0], Effect::Post { url, body: RequestBody::GroupId { group_id: 1 }, reply: ReplyKind::LeaveGroup, .. }
        if url == "http://localhost:8081/api/group/leave"));
    app.update(ChatAppMsg::DeleteGroup(3));
    assert_eq!(app.selected_group, None);
    app.update(ChatAppMsg::DeleteGroup(99));
    assert_eq!(app.groups.len(), 1);
}

#[test]
fn sending_messages() {
    let mut app = logged_in_app();
    app.groups = vec![group(1, "a", "A")];
    let e = app.update(ChatAppMsg::SendMessage("hi".to_string()));
    assert!(e.is_empty());
    app.update(ChatAppMsg::SelectGroup(0));
    let e = app.update(ChatAppMsg::SendMessage("   ".to_string()));
    assert!(e.is_empty());
    let e = app.update(ChatAppMsg::SendMessage("hi".to_string()));
    assert_eq!(app.groups[0].chat_history, vec!["hi".to_string()]);
    assert!(matches!(&e[0], Effect::Dispatch(ChatAppMsg::SendWebSocketMessage(m)) if m == "hi"));
}

#[test]
fn web_socket_lifecycle() {
    let mut app = logged_in_app();
    let e = app.update(ChatAppMsg::SendWebSocketMessage("x".to_string()));
    assert!(e.is_empty());
    let e = app.update(ChatAppMsg::ConnectWebSocket);
    assert!(matches!(&e[0], Effect::OpenWebSocket { url, ping_interval_ms: 5000, ping }
        if url == "ws://localhost:8081/api/ws/connect/tok" && ping == "ping"));
    let e = app.update(ChatAppMsg::SendWebSocketMessage("x".to_string()));
    assert!(matches!(&e[0], Effect::SendWebSocket(m) if m == "x"));
    let e = app.update(ChatAppMsg::Logout);
    assert!(!app.logged_in);
    assert!(app.current_page == Page::LoginPage);
    assert!(matches!(&e[0], Effect::Dispatch(ChatAppMsg::DisconnectWebSocket)));
    let e = app.update(ChatAppMsg::DisconnectWebSocket);
    assert!(matches!(&e[0], Effect::CloseWebSocket));
    assert!(app.update(ChatAppMsg::SendWebSocketMessage("x".to_string())).is_empty());
}

#[test]
fn navigation_clears_errors() {
    let mut app = ChatApp::create();
    app.update(ChatAppMsg::DeleteGroupResponse(Err("Network error".to_string())));
    assert_eq!(app.error_message.as_deref(), Some("Network error"));
    app.update(ChatAppMsg::NavigateTo(Page::NewGroupPage));
    assert!(app.current_page == Page::NewGroupPage);
    assert!(app.error_message.is_none());
}

#[test]
fn page_texts() {
    let mut g = group(1, "study", "CZ5");
    assert_eq!(group_label(&g), "study # CZ5");
    g.members = vec![MemberInfo { id: 1, name: "ann".to_string() }, MemberInfo { id: 2, name: "bob".to_string() }];
    assert_eq!(online_summary(&g), "2 online member(s) | Online: ");
    assert_eq!(member_names(&g), "ann, bob");
}

fn fields() -> ReplyFields {
    ReplyFields {
        id: None,
        username: None,
        access_token: None,
        error: None,
        group_id: None,
        group_name: None,
        group_code: None,
        debug: "Object {}".to_string(),
    }
}

#[test]
fn login_replies() {
    let mut f = fields();
    f.id = Some(7);
    f.username = Some("ann".to_string());
    f.access_token = Some("tok".to_string());
    assert_eq!(login_reply(Reply::Json(200, Ok(f))), Ok(("7".to_string(), "ann".to_string(), "tok".to_string())));
    assert_eq!(
        login_reply(Reply::Json(200, Ok(fields()))),
        Err("Invalid JSON structure. Received: Object {}".to_string())
    );
    let mut f = fields();
    f.error = Some("Invalid credentials".to_string());
    assert_eq!(login_reply(Reply::Json(401, Ok(f))), Err("Status 401: Invalid credentials".to_string()));
    assert_eq!(login_reply(Reply::Json(500, Ok(fields()))), Err("Status 500: Unknown error".to_string()));
    assert_eq!(login_reply(Reply::Failed("refused".to_string())), Err("Network error: refused".to_string()));
    let x = ReadFailure { display: "bad".to_string(), debug: "Bad".to_string() };
    assert_eq!(login_reply(Reply::Json(200, Err(x))), Err("JSON parsing error: Bad".to_string()));
    let x = ReadFailure { display: "bad".to_string(), debug: "Bad".to_string() };
    assert_eq!(login_reply(Reply::Json(401, Err(x))), Err("Failed to parse error response: bad".to_string()));
}

#[test]
fn register_replies() {
    let mut f = fields();
    f.username = Some("ann".to_string());
    assert_eq!(register_reply(Reply::Json(200, Ok(f))), Ok("ann".to_string()));
    assert_eq!(register_reply(Reply::Json(200, Ok(fields()))), Ok("".to_string()));
    let mut f = fields();
    f.error = Some("Username already taken".to_string());
    assert_eq!(register_reply(Reply::Json(400, Ok(f))), Err("Status 400: Username already taken".to_string()));
}

#[test]
fn group_replies() {
    let mut f = fields();
    f.group_id = Some(5);
    f.group_name = Some("study".to_string());
    f.group_code = Some("CZ5".to_string());
    assert_eq!(create_group_reply(Reply::Json(200, Ok(f))), Ok((5, "study".to_string(), "CZ5".to_string())));
    assert_eq!(create_group_reply(Reply::Json(200, Ok(fields()))), Ok((0, "".to_string(), "".to_string())));
    assert_eq!(create_group_reply(Reply::Unread(500)), Err("Server error".to_string()));
    assert_eq!(create_group_reply(Reply::Failed("x".to_string())), Err("Network error".to_string()));
    assert_eq!(
        join_group_reply(Reply::Unread(400)),
        Err("Invalid group code or user already in group".to_string())
    );
    assert_eq!(join_group_reply(Reply::Text(500, Ok("oops".to_string()))), Err("Status 500: oops".to_string()));
    let x = ReadFailure { display: "cut".to_string(), debug: "Cut".to_string() };
    assert_eq!(join_group_reply(Reply::Text(502, Err(x))), Err("Failed to read error response: cut".to_string()));
}

#[test]
fn listed_groups_start_without_history() {
    let listing = vec![GroupListing {
        id: 4,
        name: "g".to_string(),
        code: "C".to_string(),
        created_at: 17,
        members: vec![MemberInfo { id: 1, name: "ann".to_string() }],
    }];
    let groups = groups_from_listings(listing);
    assert_eq!(groups.len(), 1);
    assert_eq!(groups[0].id, 4);
    assert_eq!(groups[0].created_at, 17);
    assert!(groups[0].chat_history.is_empty());
    assert_eq!(groups[0].members[0].name, "ann");
}

#[test]
fn how_answers_are_read() {
    assert!(reply_reading(ReplyKind::CreateGroup, 500) == ReadAs::Nothing);
    assert!(reply_reading(ReplyKind::CreateGroup, 200) == ReadAs::Json);
    assert!(reply_reading(ReplyKind::JoinGroup, 400) == ReadAs::Nothing);
    assert!(reply_reading(ReplyKind::JoinGroup, 500) == ReadAs::Text);
    assert!(reply_reading(ReplyKind::JoinGroup, 200) == ReadAs::Json);
    assert!(reply_reading(ReplyKind::Login, 401) == ReadAs::Json);
    assert!(reply_reading(ReplyKind::LeaveGroup, 400) == ReadAs::Json);
    assert!(groups_reading(200) == GroupsReadAs::Listing);
    assert!(groups_reading(500) == GroupsReadAs::Error);
    assert!(groups_reading(404) == GroupsReadAs::Nothing);
}

#[test]
fn group_listing_answers() {
    let listing = vec![GroupListing { id: 2, name: "g".to_string(), code: "K".to_string(), created_at: 5, members: vec![] }];
    let groups = groups_reply(GroupsReply::Listing(Ok(listing))).ok().unwrap();
    assert_eq!(groups.len(), 1);
    assert_eq!(groups[0].code, "K");
    assert!(groups[0].chat_history.is_empty());
    assert_eq!(groups_reply(GroupsReply::Failed).err().unwrap(), "Network error while fetching groups");
    let x = ReadFailure { display: "bad".to_string(), debug: "Bad".to_string() };
    assert_eq!(groups_reply(GroupsReply::Listing(Err(x))).err().unwrap(), "Failed to parse group response: bad");
    let x = ReadFailure { display: "eof".to_string(), debug: "Eof".to_string() };
    assert_eq!(
        groups_reply(GroupsReply::ServerError(Err(x))).err().unwrap(),
        "Failed to parse database error response: eof"
    );
    let f = ReplyFields {
        id: None,
        username: None,
        access_token: None,
        error: Some("Failed to fetch groups".to_string()),
        group_id: None,
        group_name: None,
        group_code: None,
        debug: String::new(),
    };
    assert_eq!(groups_reply(GroupsReply::ServerError(Ok(f))).err().unwrap(), "Database error: Failed to fetch groups");
    let f = ReplyFields {
        id: None,
        username: None,
        access_token: None,
        error: None,
        group_id: None,
        group_name: None,
        group_code: None,
        debug: String::new(),
    };
    assert_eq!(groups_reply(GroupsReply::ServerError(Ok(f))).err().unwrap(), "Database error: Unknown error");
    assert_eq!(groups_reply(GroupsReply::Other(404)).err().unwrap(), "Failed to fetch groups: 404");
}

#[test]
fn leave_answers() {
    assert_eq!(leave_group_reply(&Reply::Failed("x".to_string())), Some(Err("Network error".to_string())));
    assert_eq!(leave_group_reply(&Reply::Unread(200)), None);
}

#[test]
fn main_page_shows_the_user() {
    assert_eq!(main_page_title(&ChatApp::create()), "Main Page");
    let app = logged_in_app();
    assert_eq!(main_page_title(&app), "ann");
    assert_eq!(app.username.as_deref(), Some("ann"));
}
