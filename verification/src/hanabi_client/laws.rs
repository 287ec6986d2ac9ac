//! What holds of every session, whatever the server sends.

use vstd::prelude::*;
use vstd::string::*;
use crate::command::client::{TableJoin, TableStart};
use crate::command::server::{TableView, UserView};
use crate::command::deserialize::DeserializeCommandFault;
use crate::command::{frame_parts, SessionFault, TableID};
use crate::hanabi_client::model::{joined, ActionView, CallView, StateView};
use crate::server_command::{decode, is_registered, ServerCommandView};
use crate::text::{lemma_split_at_space, lemma_split_needs_space};

verus! {

/// A session begins with every user and every table stored under its own
/// identifier: there are none.
pub proof fn lemma_initial_wf(username: Seq<char>)
    ensures
        StateView::initial(username).wf(),
{
}

/// Storing a table twice under one identifier leaves what storing the second
/// alone leaves: one entry for that identifier, which holds the second table.
pub proof fn lemma_insert_table_replaces(state: StateView, first: TableView, second: TableView)
    requires
        first.id == second.id,
    ensures
        state.insert_table(first).0.insert_table(second).0.tables == state.tables.insert(
            second.id,
            second,
        ),
        state.insert_table(first).0.insert_table(second).0.tables[second.id] == second,
        state.insert_table(first).0.insert_table(second).0.tables.dom() == state.tables.dom().insert(
            second.id,
        ),
{
    let after = state.insert_table(first).0.insert_table(second).0;
    assert(after.tables =~= state.tables.insert(second.id, second));
    assert(after.tables.dom() =~= state.tables.dom().insert(second.id));
}

/// Storing a user twice under one identifier leaves what storing the second
/// alone leaves.
pub proof fn lemma_insert_user_replaces(state: StateView, first: UserView, second: UserView)
    requires
        first.user_id == second.user_id,
    ensures
        state.insert_user(first).0.insert_user(second).0.users == state.users.insert(
            second.user_id,
            second,
        ),
{
    let after = state.insert_user(first).0.insert_user(second).0;
    assert(after.users =~= state.users.insert(second.user_id, second));
}

/// The wish to join a table is met once. Taken up while the lobby knows no
/// table of the wanted name, it joins nothing at first; the first table of
/// that name that is stored afterwards is joined; and whatever table is stored
/// after that one joins nothing.
pub proof fn lemma_join_table_once(
    state: StateView,
    name: Seq<char>,
    waiting: StateView,
    join: Option<TableJoin>,
    table: TableView,
    later: TableView,
)
    requires
        forall|id: TableID| state.tables.contains_key(id) ==> (#[trigger] state.tables[id]).name
            != name,
        state.join_table_outcome(name, waiting, join),
        table.name == name,
    ensures
        join is None,
        waiting.insert_table(table).1 == Some(TableJoin { table_id: table.id }),
        waiting.insert_table(table).0.insert_table(later).1 is None,
{
    if join is Some {
        assert(state.tables[join->0.table_id].name == name);
    }
}

/// Storing a table of another name than the wanted one joins nothing and
/// keeps the wish.
pub proof fn lemma_join_table_waits(state: StateView, table: TableView)
    requires
        state.join_table != Some(table.name),
    ensures
        state.insert_table(table).1 is None,
        state.insert_table(table).0.join_table == state.join_table,
{
}

/// The wish to follow a user is kept by whatever outcome taking it up has.
pub proof fn lemma_follow_user_kept(
    state: StateView,
    name: Seq<char>,
    following: StateView,
    join: Option<TableJoin>,
)
    requires
        state.follow_user_outcome(name, following, join),
    ensures
        following.follow_user == Some(name),
{
}

/// While a user is followed, every update of a user of that name who sits
/// at a table joins that table.
pub proof fn lemma_follow_user_joins(state: StateView, user: UserView)
    requires
        state.follow_user == Some(user.name),
        user.table_id is Some,
    ensures
        state.insert_user(user).1 == Some(TableJoin { table_id: user.table_id->0 }),
        state.insert_user(user).0.follow_user == state.follow_user,
{
}

/// No command of the server ends the wish to follow a user: after any
/// reaction the same user is followed.
pub proof fn lemma_react_keeps_follow_user(state: StateView, command: ServerCommandView)
    ensures
        state.react(command).0.follow_user == state.follow_user,
{
    match command {
        ServerCommandView::UserList(users) => {
            lemma_insert_users_keeps(state, users);
        },
        ServerCommandView::TableList(tables) => {
            lemma_insert_tables_keeps(state, tables);
        },
        _ => {},
    }
}

/// Storing a list of users changes nothing but the users.
pub proof fn lemma_insert_users_keeps(state: StateView, users: Seq<UserView>)
    ensures
        state.insert_users(users).0 == (StateView {
            users: state.insert_users(users).0.users,
            ..state
        }),
    decreases users.len(),
{
    if users.len() > 0 {
        lemma_insert_users_keeps(state, users.drop_last());
    }
}

/// Storing a list of tables changes nothing but the tables and the wish to
/// join one, and keeps the wish to follow a user.
pub proof fn lemma_insert_tables_keeps(state: StateView, tables: Seq<TableView>)
    ensures
        state.insert_tables(tables).0 == (StateView {
            tables: state.insert_tables(tables).0.tables,
            join_table: state.insert_tables(tables).0.join_table,
            ..state
        }),
    decreases tables.len(),
{
    if tables.len() > 0 {
        lemma_insert_tables_keeps(state, tables.drop_last());
    }
}

/// A frame whose name is not registered is skipped: the state stays as it
/// is, no error is reported, and the one action names the frame.
pub proof fn lemma_unregistered_is_skipped(state: StateView, name: Seq<char>, data: Seq<char>)
    requires
        !name.contains(' '),
        !is_registered(name),
    ensures
        decode(name, data) == Err::<ServerCommandView, DeserializeCommandFault>(
            DeserializeCommandFault::Custom(name),
        ),
        state.on_text(name + seq![' '] + data) == (
            state,
            Ok::<Seq<ActionView>, SessionFault>(seq![ActionView::Unhandled(name)]),
        ),
{
    lemma_split_at_space(name, data);
}

/// A line without a space is no frame, whatever it holds: it ends the session
/// and changes nothing.
pub proof fn lemma_line_without_space_is_refused(state: StateView, line: Seq<char>)
    requires
        !line.contains(' '),
    ensures
        state.on_text(line) == (
            state,
            Err::<Seq<ActionView>, SessionFault>(
                SessionFault::Frame(DeserializeCommandFault::NoSpace),
            ),
        ),
{
    lemma_split_needs_space(line);
}

/// An error that the server reports ends the session with the server's
/// message, and changes nothing.
pub proof fn lemma_server_error_ends(state: StateView, message: Seq<char>)
    ensures
        state.react(ServerCommandView::Error(message)) == (
            state,
            Err::<Seq<ActionView>, SessionFault>(SessionFault::Server(message)),
        ),
{
}

/// A warning of the server is handed on and changes nothing.
pub proof fn lemma_server_warning_goes_on(state: StateView, message: Seq<char>)
    ensures
        state.react(ServerCommandView::Warning(message)) == (
            state,
            Ok::<Seq<ActionView>, SessionFault>(seq![ActionView::Warned(message)]),
        ),
{
}

/// A line that cannot be read changes nothing.
pub proof fn lemma_failed_frame_changes_nothing(state: StateView, text: Seq<char>)
    requires
        state.on_text(text).1 is Err,
    ensures
        state.on_text(text).0 == state,
{
    match frame_parts(text) {
        Some((name, data)) => match decode(name, data) {
            Ok(command) => {
                assert(command is Error);
            },
            Err(_) => {},
        },
        None => {},
    }
}

/// The request to start without a table does nothing: no command goes out,
/// and the state stays as it is.
pub proof fn lemma_start_without_table(state: StateView, after: StateView, action: Option<ActionView>)
    requires
        state.current_table is None,
        state.call_outcome(CallView::Start, after, action),
    ensures
        action is None,
        after == state,
{
}

/// The request to start at a table sends the start of that table.
pub proof fn lemma_start_at_table(state: StateView, after: StateView, action: Option<ActionView>)
    requires
        state.current_table is Some,
        state.call_outcome(CallView::Start, after, action),
    ensures
        action == Some(ActionView::Start(TableStart { table_id: state.current_table->0 })),
        after == state,
{
}

/// Every reaction keeps each user and each table stored under its own
/// identifier.
pub proof fn lemma_react_preserves_wf(state: StateView, command: ServerCommandView)
    requires
        state.wf(),
    ensures
        state.react(command).0.wf(),
{
    match command {
        ServerCommandView::UserList(users) => {
            lemma_insert_users_preserves_wf(state, users);
        },
        ServerCommandView::TableList(tables) => {
            lemma_insert_tables_preserves_wf(state, tables);
        },
        _ => {},
    }
}

/// Storing a list of users keeps each user and each table stored under its
/// own identifier.
pub proof fn lemma_insert_users_preserves_wf(state: StateView, users: Seq<UserView>)
    requires
        state.wf(),
    ensures
        state.insert_users(users).0.wf(),
    decreases users.len(),
{
    if users.len() > 0 {
        lemma_insert_users_preserves_wf(state, users.drop_last());
    }
}

/// Storing a list of tables keeps each user and each table stored under its
/// own identifier.
pub proof fn lemma_insert_tables_preserves_wf(state: StateView, tables: Seq<TableView>)
    requires
        state.wf(),
    ensures
        state.insert_tables(tables).0.wf(),
    decreases tables.len(),
{
    if tables.len() > 0 {
        lemma_insert_tables_preserves_wf(state, tables.drop_last());
    }
}

/// Every line of text from the server keeps each user and each table stored
/// under its own identifier.
pub proof fn lemma_on_text_preserves_wf(state: StateView, text: Seq<char>)
    requires
        state.wf(),
    ensures
        state.on_text(text).0.wf(),
{
    match frame_parts(text) {
        Some((name, data)) => match decode(name, data) {
            Ok(command) => {
                lemma_react_preserves_wf(state, command);
            },
            Err(_) => {},
        },
        None => {},
    }
}

/// Every request of the owner keeps each user and each table stored under
/// its own identifier.
pub proof fn lemma_call_preserves_wf(
    state: StateView,
    call: CallView,
    after: StateView,
    action: Option<ActionView>,
)
    requires
        state.wf(),
        state.call_outcome(call, after, action),
    ensures
        after.wf(),
{
}

/// A table that a request joins is one that the lobby knows.
pub proof fn lemma_call_joins_known_table(
    state: StateView,
    name: Seq<char>,
    after: StateView,
    join: TableJoin,
)
    requires
        state.wf(),
        state.join_table_outcome(name, after, Some(join)),
    ensures
        state.tables.contains_key(join.table_id),
        state.tables[join.table_id].id == join.table_id,
        state.tables[join.table_id].name == name,
{
}

} // verus!
