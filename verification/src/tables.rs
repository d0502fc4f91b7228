//! A model of the server's database tables, and of what the request
//! handlers of sign-up, joining, leaving and history do to them and answer
//! when every query succeeds.
//!
//! Each query is modelled by what its SQL selects; each step of a handler by
//! the spec function that the library's function for that step is proved to
//! meet (see `crate::api`). The laws at the end are the promises that the
//! server makes about its data across requests.

use vstd::prelude::*;
use crate::api::{
    error_view, history_membership_outcome, join_finished_outcome, join_lookup_outcome,
    join_membership_outcome, leave_outcome, signup_created_outcome, signup_lookup_outcome, BodyView, DbError,
    GroupRowView, HistoryMessageView, MembershipStepView, ResponseView,
};
use crate::api::{after_fetch, after_membership, history_started, messages_view, HistoryMessage, HistoryNext, HistoryRun};
use crate::text::signed_decimal;

verus! {

/// A row of the `users` table.
pub struct UserRecord {
    pub id: i64,
    pub name: Seq<char>,
    pub password: Seq<char>,
}

/// The server's tables. `messages` is in insertion order; since ids are
/// handed out increasing, that is the order of their ids (see
/// [`messages_in_id_order`]).
pub struct Tables {
    pub users: Seq<UserRecord>,
    pub groups: Seq<GroupRowView>,
    /// The rows of `group_members`: (group id, user id).
    pub members: Seq<(i64, i64)>,
    pub messages: Seq<HistoryMessageView>,
}

/// Whether a user of that name exists (`SELECT id FROM users WHERE name = ?`
/// finds a row).
pub open spec fn name_taken(users: Seq<UserRecord>, name: Seq<char>) -> bool {
    exists|i: int| 0 <= i < users.len() && #[trigger] users[i].name == name
}

/// No two users share a name.
pub open spec fn names_distinct(users: Seq<UserRecord>) -> bool {
    forall|i: int, j: int| 0 <= i < j < users.len() ==> #[trigger] users[i].name != #[trigger] users[j].name
}

/// Whether user `user_id` belongs to group `group_id` (the membership query
/// finds a row).
pub open spec fn is_member(members: Seq<(i64, i64)>, group_id: i64, user_id: i64) -> bool {
    members.contains((group_id, user_id))
}

/// A character as SQLite's `NOCASE` collation compares it: ASCII upper-case
/// letters as their lower-case ones, every other character as itself.
pub open spec fn nocase_char(c: char) -> char {
    if 'A' <= c && c <= 'Z' {
        ((c as u32) + 32) as char
    } else {
        c
    }
}

/// Two join codes are equal under the `NOCASE` collation of the `code`
/// column.
pub open spec fn same_code(a: Seq<char>, b: Seq<char>) -> bool {
    a.len() == b.len() && forall|i: int| 0 <= i < a.len() ==> nocase_char(#[trigger] a[i]) == nocase_char(b[i])
}

/// No two groups have the same join code: the `code` column is `UNIQUE
/// COLLATE NOCASE`.
pub open spec fn codes_distinct(groups: Seq<GroupRowView>) -> bool {
    forall|i: int, j: int| 0 <= i < j < groups.len() ==> !same_code(#[trigger] groups[i].code, #[trigger] groups[j].code)
}

/// The messages are in the order of strictly increasing ids.
pub open spec fn messages_in_id_order(messages: Seq<HistoryMessageView>) -> bool {
    forall|i: int, j: int| 0 <= i < j < messages.len() ==> #[trigger] messages[i].msg_id < #[trigger] messages[j].msg_id
}

/// The first group whose join code equals `code` under `NOCASE`, if any
/// (`SELECT id, name, code FROM groups WHERE code = ?`).
pub open spec fn group_with_code(groups: Seq<GroupRowView>, code: Seq<char>) -> Option<GroupRowView>
    decreases groups.len(),
{
    if groups.len() == 0 {
        None
    } else {
        match group_with_code(groups.drop_last(), code) {
            Some(g) => Some(g),
            None => if same_code(groups.last().code, code) { Some(groups.last()) } else { None },
        }
    }
}

/// The memberships without every row of `row` (`DELETE FROM group_members
/// WHERE group_id = ? AND user_id = ?`).
pub open spec fn without_row(members: Seq<(i64, i64)>, row: (i64, i64)) -> Seq<(i64, i64)>
    decreases members.len(),
{
    if members.len() == 0 {
        members
    } else {
        let rest = without_row(members.drop_last(), row);
        if members.last() == row { rest } else { rest.push(members.last()) }
    }
}

/// The messages of group `group_id` with an id above `latest`, by
/// increasing id (`SELECT ... FROM messages WHERE group_id = ? AND id > ?
/// ORDER BY id ASC`).
pub open spec fn messages_after(messages: Seq<HistoryMessageView>, group_id: i64, latest: i64) -> Seq<HistoryMessageView>
    decreases messages.len(),
{
    if messages.len() == 0 {
        messages
    } else {
        let rest = messages_after(messages.drop_last(), group_id, latest);
        let m = messages.last();
        if m.group_id == group_id && m.msg_id > latest { rest.push(m) } else { rest }
    }
}

/// The messages of a list with an id above `latest`, in their order.
pub open spec fn newer_than(messages: Seq<HistoryMessageView>, latest: i64) -> Seq<HistoryMessageView>
    decreases messages.len(),
{
    if messages.len() == 0 {
        messages
    } else {
        let rest = newer_than(messages.drop_last(), latest);
        if messages.last().msg_id > latest { rest.push(messages.last()) } else { rest }
    }
}

/// Sign-up of `name` with `password`, the new row getting id `new_id`: the
/// answer and the tables after it.
pub open spec fn signup_model(t: Tables, name: Seq<char>, password: Seq<char>, new_id: i64) -> (ResponseView, Tables) {
    match signup_lookup_outcome(Ok::<bool, DbError>(name_taken(t.users, name))) {
        Some(r) => (r, t),
        None => (
            signup_created_outcome(name, Ok::<i64, DbError>(new_id)),
            Tables { users: t.users.push(UserRecord { id: new_id, name, password }), ..t },
        ),
    }
}

/// User `user_id` joining by `code`: the answer and the tables after it.
pub open spec fn join_model(t: Tables, user_id: i64, code: Seq<char>) -> (ResponseView, Tables) {
    match join_lookup_outcome(Ok::<Option<GroupRowView>, DbError>(group_with_code(t.groups, code))) {
        Err(r) => (r, t),
        Ok(g) => match join_membership_outcome(Ok::<bool, DbError>(is_member(t.members, g.id, user_id))) {
            Some(r) => (r, t),
            None => (
                join_finished_outcome(g, Ok::<(), DbError>(())),
                Tables { members: t.members.push((g.id, user_id)), ..t },
            ),
        },
    }
}

/// User `user_id` leaving group `group_id`: the answer and the tables after
/// it.
pub open spec fn leave_model(t: Tables, user_id: i64, group_id: i64) -> (ResponseView, Tables) {
    (
        leave_outcome(group_id, Ok::<bool, DbError>(is_member(t.members, group_id, user_id))),
        Tables { members: without_row(t.members, (group_id, user_id)), ..t },
    )
}

/// The history that the request of user `user_id` for `entries` (group id,
/// latest message id known) has gathered: the newer messages of each group
/// the user belongs to, the last entry of a group counting.
pub open spec fn history_gathered(t: Tables, user_id: usize, entries: Seq<(usize, usize)>) -> Map<usize, Seq<HistoryMessageView>>
    decreases entries.len(),
{
    if entries.len() == 0 {
        Map::empty()
    } else {
        let h = history_gathered(t, user_id, entries.drop_last());
        let e = entries.last();
        match history_membership_outcome(Ok::<bool, DbError>(is_member(t.members, e.0 as i64, user_id as i64))) {
            MembershipStepView::FetchMessages => h.insert(e.0, messages_after(t.messages, e.0 as i64, e.1 as i64)),
            _ => h,
        }
    }
}

/// The answer to the history request of user `user_id` for `entries`.
pub open spec fn history_model(t: Tables, user_id: usize, entries: Seq<(usize, usize)>) -> ResponseView {
    ResponseView { status: 200, body: BodyView::History(history_gathered(t, user_id, entries)) }
}

// ------------------------------------------------------------------ laws

/// Sign-up keeps user names unique: a taken name is refused with 400
/// `Username already taken` and the users stay as they were; a free name
/// is added.
pub proof fn lemma_signup_keeps_names_distinct(t: Tables, name: Seq<char>, password: Seq<char>, new_id: i64)
    requires
        names_distinct(t.users),
    ensures
        names_distinct(signup_model(t, name, password, new_id).1.users),
        name_taken(t.users, name) ==> signup_model(t, name, password, new_id) == (
            error_view(400, "Username already taken"@),
            t,
        ),
        !name_taken(t.users, name) ==> signup_model(t, name, password, new_id).0.status == 200,
{
    if !name_taken(t.users, name) {
        let users = signup_model(t, name, password, new_id).1.users;
        assert forall|i: int, j: int| 0 <= i < j < users.len() implies #[trigger] users[i].name != #[trigger] users[j].name by {
            if j == users.len() - 1 {
                assert(users[i] == t.users[i]);
            } else {
                assert(users[i] == t.users[i] && users[j] == t.users[j]);
            }
        }
    }
}

/// Joining twice by the same code: once the first join has succeeded, the
/// second is refused with 400 `User is already a member of this group` and
/// changes nothing.
pub proof fn lemma_join_twice_refused(t: Tables, user_id: i64, code: Seq<char>)
    requires
        join_model(t, user_id, code).0.status == 200,
    ensures
        join_model(join_model(t, user_id, code).1, user_id, code) == (
            error_view(400, "User is already a member of this group"@),
            join_model(t, user_id, code).1,
        ),
{
    let g = group_with_code(t.groups, code)->Some_0;
    let t1 = join_model(t, user_id, code).1;
    assert(t1.members[t.members.len() as int] == (g.id, user_id));
    assert(is_member(t1.members, g.id, user_id));
}

/// Joining a group by its code and then leaving it: when the user did not
/// belong to group `g`, joining by `g`'s code (in any letter case) succeeds,
/// the leave answers 200 `Successfully left group <id>`, and the tables are
/// again exactly those before.
pub proof fn lemma_join_then_leave_restores(t: Tables, user_id: i64, code: Seq<char>, g: GroupRowView)
    requires
        codes_distinct(t.groups),
        t.groups.contains(g),
        same_code(g.code, code),
        !is_member(t.members, g.id, user_id),
    ensures
        join_model(t, user_id, code).0.status == 200,
        leave_model(join_model(t, user_id, code).1, user_id, g.id) == (
            ResponseView { status: 200, body: BodyView::Message("Successfully left group "@ + signed_decimal(g.id as int)) },
            t,
        ),
{
    let k = choose|k: int| 0 <= k < t.groups.len() && t.groups[k] == g;
    lemma_group_with_unique_code(t.groups, code, k);
    let t1 = join_model(t, user_id, code).1;
    assert(t1.members[t.members.len() as int] == (g.id, user_id));
    assert(is_member(t1.members, g.id, user_id));
    lemma_without_absent_row(t.members, (g.id, user_id));
    assert(t1.members.drop_last() =~= t.members);
    assert(without_row(t1.members, (g.id, user_id)) == t.members);
}

/// No group before `groups`' end matches `code`: the lookup finds none.
proof fn lemma_no_group_with_code(groups: Seq<GroupRowView>, code: Seq<char>)
    requires
        forall|i: int| 0 <= i < groups.len() ==> !same_code(#[trigger] groups[i].code, code),
    ensures
        group_with_code(groups, code) is None,
    decreases groups.len(),
{
    if groups.len() > 0 {
        let prefix = groups.drop_last();
        assert forall|i: int| 0 <= i < prefix.len() implies !same_code(#[trigger] prefix[i].code, code) by {
            assert(prefix[i] == groups[i]);
        }
        lemma_no_group_with_code(prefix, code);
        assert(groups.last() == groups[groups.len() - 1]);
    }
}

/// With distinct codes, the lookup of a code that matches group `k` finds
/// group `k`.
proof fn lemma_group_with_unique_code(groups: Seq<GroupRowView>, code: Seq<char>, k: int)
    requires
        codes_distinct(groups),
        0 <= k < groups.len(),
        same_code(groups[k].code, code),
    ensures
        group_with_code(groups, code) == Some(groups[k]),
    decreases groups.len(),
{
    let prefix = groups.drop_last();
    assert forall|i: int, j: int| 0 <= i < j < prefix.len() implies !same_code(#[trigger] prefix[i].code, #[trigger] prefix[j].code) by {
        assert(prefix[i] == groups[i] && prefix[j] == groups[j]);
    }
    if k == groups.len() - 1 {
        assert forall|i: int| 0 <= i < prefix.len() implies !same_code(#[trigger] prefix[i].code, code) by {
            assert(prefix[i] == groups[i]);
            if same_code(groups[i].code, code) {
                let a = groups[i].code;
                let b = groups[k].code;
                assert forall|m: int| 0 <= m < a.len() implies nocase_char(#[trigger] a[m]) == nocase_char(b[m]) by {
                    assert(nocase_char(a[m]) == nocase_char(code[m]));
                    assert(nocase_char(b[m]) == nocase_char(code[m]));
                }
                assert(same_code(a, b));
            }
        }
        lemma_no_group_with_code(prefix, code);
        assert(groups.last() == groups[k]);
    } else {
        assert(prefix[k] == groups[k]);
        lemma_group_with_unique_code(prefix, code, k);
    }
}

/// Without a row that does not occur, the memberships are unchanged.
proof fn lemma_without_absent_row(members: Seq<(i64, i64)>, row: (i64, i64))
    requires
        !members.contains(row),
    ensures
        without_row(members, row) == members,
    decreases members.len(),
{
    if members.len() > 0 {
        let prefix = members.drop_last();
        assert forall|k: int| 0 <= k < prefix.len() implies prefix[k] != row by {
            assert(prefix[k] == members[k]);
        }
        lemma_without_absent_row(prefix, row);
        assert(members.last() == members[members.len() - 1]);
        assert(prefix.push(members.last()) =~= members);
    }
}

/// Asking for the newer messages of a group with a later latest id gives
/// the messages that an earlier latest id gives, less those up to the later
/// id, in the same order.
pub proof fn lemma_messages_after_later(messages: Seq<HistoryMessageView>, group_id: i64, l1: i64, l2: i64)
    requires
        l1 <= l2,
    ensures
        messages_after(messages, group_id, l2) == newer_than(messages_after(messages, group_id, l1), l2),
    decreases messages.len(),
{
    if messages.len() > 0 {
        lemma_messages_after_later(messages.drop_last(), group_id, l1, l2);
        let m = messages.last();
        let rest1 = messages_after(messages.drop_last(), group_id, l1);
        if m.group_id == group_id && m.msg_id > l1 {
            assert(rest1.push(m).drop_last() =~= rest1);
        }
    }
}

/// The newer messages of a group, as the history request answers them: all
/// of that group, all above the latest id, and, when the table is in id
/// order, by increasing id.
pub proof fn lemma_messages_after_in_order(messages: Seq<HistoryMessageView>, group_id: i64, latest: i64)
    ensures
        forall|j: int| 0 <= j < messages_after(messages, group_id, latest).len() ==> {
            &&& (#[trigger] messages_after(messages, group_id, latest)[j]).group_id == group_id
            &&& messages_after(messages, group_id, latest)[j].msg_id > latest
            &&& messages.contains(messages_after(messages, group_id, latest)[j])
        },
        messages_in_id_order(messages) ==> messages_in_id_order(messages_after(messages, group_id, latest)),
    decreases messages.len(),
{
    if messages.len() > 0 {
        let prefix = messages.drop_last();
        lemma_messages_after_in_order(prefix, group_id, latest);
        let rest = messages_after(prefix, group_id, latest);
        let r = messages_after(messages, group_id, latest);
        let m = messages.last();
        assert(m == messages[messages.len() - 1]);
        assert forall|j: int| 0 <= j < rest.len() implies messages.contains(#[trigger] rest[j]) by {
            let w = choose|w: int| 0 <= w < prefix.len() && prefix[w] == rest[j];
            assert(messages[w] == rest[j]);
        }
        if messages_in_id_order(messages) {
            assert forall|i: int, j: int| 0 <= i < j < prefix.len() implies #[trigger] prefix[i].msg_id < #[trigger] prefix[j].msg_id by {
                assert(prefix[i] == messages[i] && prefix[j] == messages[j]);
            }
            if m.group_id == group_id && m.msg_id > latest {
                assert forall|j: int| 0 <= j < rest.len() implies (#[trigger] rest[j]).msg_id < m.msg_id by {
                    let w = choose|w: int| 0 <= w < prefix.len() && prefix[w] == rest[j];
                    assert(messages[w] == rest[j]);
                }
                assert forall|i: int, j: int| 0 <= i < j < r.len() implies #[trigger] r[i].msg_id < #[trigger] r[j].msg_id by {
                    assert(r[i] == rest[i]);
                    if j < rest.len() {
                        assert(r[j] == rest[j]);
                    }
                }
            }
        }
    }
}

/// The history answer lists each group's messages by increasing id, when
/// the `messages` table is in id order.
pub proof fn lemma_history_in_id_order(t: Tables, user_id: usize, entries: Seq<(usize, usize)>)
    requires
        messages_in_id_order(t.messages),
    ensures
        forall|k: usize| #[trigger] history_gathered(t, user_id, entries).contains_key(k)
            ==> messages_in_id_order(history_gathered(t, user_id, entries)[k]),
    decreases entries.len(),
{
    if entries.len() > 0 {
        let prev = history_gathered(t, user_id, entries.drop_last());
        lemma_history_in_id_order(t, user_id, entries.drop_last());
        let e = entries.last();
        lemma_messages_after_in_order(t.messages, e.0 as i64, e.1 as i64);
        let h = history_gathered(t, user_id, entries);
        assert forall|k: usize| #[trigger] h.contains_key(k) implies messages_in_id_order(h[k]) by {
            if is_member(t.members, e.0 as i64, user_id as i64) && k == e.0 {
                assert(h[k] == messages_after(t.messages, e.0 as i64, e.1 as i64));
            } else {
                assert(prev.contains_key(k) && h[k] == prev[k]);
            }
        }
    }
}

/// The history request gives, for each group, the newer messages that a
/// request differing only in a lower latest id for that group gives, less
/// those up to the higher id, in the same order; the other groups' messages
/// and the set of groups answered stay the same.
pub proof fn lemma_history_later_latest(
    t: Tables,
    user_id: usize,
    entries1: Seq<(usize, usize)>,
    entries2: Seq<(usize, usize)>,
    group_id: usize,
    l1: usize,
    l2: usize,
)
    requires
        l1 as i64 <= l2 as i64,
        entries1.len() == entries2.len(),
        forall|i: int| 0 <= i < entries1.len() ==> #[trigger] entries1[i].0 == entries2[i].0,
        forall|i: int| 0 <= i < entries1.len() ==> if entries1[i].0 == group_id {
            entries1[i].1 == l1 && entries2[i].1 == l2
        } else {
            entries1[i].1 == entries2[i].1
        },
    ensures
        history_gathered(t, user_id, entries2).dom() == history_gathered(t, user_id, entries1).dom(),
        history_gathered(t, user_id, entries1).contains_key(group_id) ==> history_gathered(t, user_id, entries2)[group_id]
            == newer_than(history_gathered(t, user_id, entries1)[group_id], l2 as i64),
        forall|k: usize| k != group_id && #[trigger] history_gathered(t, user_id, entries1).contains_key(k)
            ==> history_gathered(t, user_id, entries2)[k] == history_gathered(t, user_id, entries1)[k],
    decreases entries1.len(),
{
    if entries1.len() > 0 {
        let p1 = entries1.drop_last();
        let p2 = entries2.drop_last();
        assert forall|i: int| 0 <= i < p1.len() implies #[trigger] p1[i].0 == p2[i].0 by {
            assert(p1[i] == entries1[i] && p2[i] == entries2[i]);
        }
        assert forall|i: int| 0 <= i < p1.len() implies if p1[i].0 == group_id {
            p1[i].1 == l1 && p2[i].1 == l2
        } else {
            p1[i].1 == p2[i].1
        } by {
            assert(p1[i] == entries1[i] && p2[i] == entries2[i]);
            assert(entries1[i].0 == entries2[i].0);
        }
        lemma_history_later_latest(t, user_id, p1, p2, group_id, l1, l2);
        let e1 = entries1.last();
        let e2 = entries2.last();
        assert(e1 == entries1[entries1.len() - 1] && e2 == entries2[entries2.len() - 1]);
        assert(e1.0 == e2.0);
        let h1 = history_gathered(t, user_id, entries1);
        let h2 = history_gathered(t, user_id, entries2);
        let g1 = history_gathered(t, user_id, p1);
        let g2 = history_gathered(t, user_id, p2);
        if is_member(t.members, e1.0 as i64, user_id as i64) {
            if e1.0 == group_id {
                lemma_messages_after_later(t.messages, group_id as i64, l1 as i64, l2 as i64);
            }
            assert(h2.dom() =~= h1.dom());
        } else {
            assert(h1 == g1 && h2 == g2);
        }
    }
}

/// The history request run step by step (`HistoryRun`) answers what the
/// model answers, when each membership check and each fetch gives what its
/// SQL selects from `t`: it starts with nothing gathered, which is what the
/// model gathers from no entry; if what it gathered from the first
/// `handled` entries is what the model gathers from them, then skipping the
/// next entry's group when the user is not a member, or recording its newer
/// messages when the user is one, gathers what the model gathers from one
/// entry more; and from all the entries it gathers the model's whole
/// answer.
pub proof fn lemma_history_run_follows_model(
    t: Tables,
    user_id: usize,
    requested: Seq<(usize, usize)>,
    handled: nat,
    gathered: Map<usize, Seq<HistoryMessageView>>,
)
    requires
        handled < requested.len(),
        gathered == history_gathered(t, user_id, requested.take(handled as int)),
    ensures
        history_gathered(t, user_id, requested.take(0)) == Map::<usize, Seq<HistoryMessageView>>::empty(),
        !is_member(t.members, requested[handled as int].0 as i64, user_id as i64) ==> gathered == history_gathered(
            t,
            user_id,
            requested.take(handled + 1int),
        ),
        is_member(t.members, requested[handled as int].0 as i64, user_id as i64) ==> gathered.insert(
            requested[handled as int].0,
            messages_after(t.messages, requested[handled as int].0 as i64, requested[handled as int].1 as i64),
        ) == history_gathered(t, user_id, requested.take(handled + 1int)),
        handled + 1 == requested.len() ==> history_model(t, user_id, requested) == (ResponseView {
            status: 200,
            body: BodyView::History(history_gathered(t, user_id, requested.take(handled + 1int))),
        }),
{
    assert(requested.take(0) =~= Seq::<(usize, usize)>::empty());
    let next = requested.take(handled + 1int);
    assert(next.drop_last() =~= requested.take(handled as int));
    assert(next.last() == requested[handled as int]);
    if handled + 1 == requested.len() {
        assert(next =~= requested);
    }
}

/// A history request under way agrees with the model: what it gathered is
/// what the model gathers from the entries it handled.
pub open spec fn run_agrees(t: Tables, run: HistoryRun) -> bool {
    run.gathered() == history_gathered(t, run.user(), run.requested().take(run.handled() as int))
}

/// The request's next step agrees with the model of the request of `user`
/// for `requested`: a run still under way agrees, and an answer is the
/// model's answer.
pub open spec fn next_agrees(t: Tables, user: usize, requested: Seq<(usize, usize)>, n: HistoryNext) -> bool {
    match n {
        HistoryNext::CheckMembership(run) => run.wf() && run.user() == user && run.requested() == requested
            && run_agrees(t, run),
        HistoryNext::FetchMessages(run) => run.wf() && run.user() == user && run.requested() == requested
            && run_agrees(t, run),
        HistoryNext::Respond(r) => r@ == history_model(t, user, requested),
    }
}

/// The history request starts in agreement with the model.
pub proof fn lemma_history_start_agrees(t: Tables, user_id: usize, entries: Seq<(usize, usize)>, n: HistoryNext)
    requires
        history_started(user_id, entries, n),
    ensures
        next_agrees(t, user_id, entries, n),
{
    assert(entries.take(0) =~= Seq::<(usize, usize)>::empty());
    if entries.len() == 0 {
        assert(history_gathered(t, user_id, entries) == Map::<usize, Seq<HistoryMessageView>>::empty());
    }
}

/// A request in agreement with the model stays so when the user does not
/// belong to the current entry's group and the check says so: the group is
/// skipped, and after the last entry the answer is the model's.
pub proof fn lemma_history_skip_agrees(t: Tables, run: HistoryRun, n: HistoryNext)
    requires
        run.wf(),
        run_agrees(t, run),
        !is_member(t.members, run.current_entry().0 as i64, run.user() as i64),
        after_membership(run, Ok::<bool, DbError>(false), n),
    ensures
        next_agrees(t, run.user(), run.requested(), n),
        n is FetchMessages ==> false,
{
    lemma_history_run_follows_model(t, run.user(), run.requested(), run.handled(), run.gathered());
    if run.handled() + 1 == run.requested().len() {
        assert(run.requested().take(run.handled() + 1int) =~= run.requested());
    }
}

/// A request in agreement with the model stays so when the user belongs to
/// the current entry's group, the check says so, and the fetch gives that
/// group's messages above the entry's latest id (`SELECT ... ORDER BY id
/// ASC`): the messages are recorded under the group even when there are
/// none, and after the last entry the answer is the model's, in which the
/// group is a key with exactly those messages.
pub proof fn lemma_history_fetch_agrees(
    t: Tables,
    run: HistoryRun,
    checked: HistoryNext,
    messages: Vec<HistoryMessage>,
    n: HistoryNext,
)
    requires
        run.wf(),
        run_agrees(t, run),
        is_member(t.members, run.current_entry().0 as i64, run.user() as i64),
        after_membership(run, Ok::<bool, DbError>(true), checked),
        messages_view(messages@) == messages_after(t.messages, run.current_entry().0 as i64, run.current_entry().1 as i64),
        checked matches HistoryNext::FetchMessages(fetching) && after_fetch(fetching, Ok::<Vec<HistoryMessage>, DbError>(messages), n),
    ensures
        checked is FetchMessages,
        next_agrees(t, run.user(), run.requested(), n),
        n is Respond ==> (n->Respond_0@.body matches BodyView::History(h) && h.contains_key(run.current_entry().0)
            && h[run.current_entry().0] == messages_view(messages@)),
        n is FetchMessages ==> false,
{
    let fetching = checked->FetchMessages_0;
    assert(fetching.current_entry() == run.current_entry());
    lemma_history_run_follows_model(t, run.user(), run.requested(), run.handled(), run.gathered());
    if run.handled() + 1 == run.requested().len() {
        assert(run.requested().take(run.handled() + 1int) =~= run.requested());
    }
}

} // verus!
