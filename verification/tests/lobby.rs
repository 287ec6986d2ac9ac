use hanabi_bot::command::client::{TableJoin, TableStart};
use hanabi_bot::command::deserialize::{DeserializeCommandError, PayloadError};
use hanabi_bot::command::server::{
    Chat, Error, Joined, Left, Name, Table, TableGone, TableList, User, UserLeft, UserList,
    Warning, Welcome,
};
use hanabi_bot::command::{SessionError, TableID, UserID};
use hanabi_bot::hanabi_client::{Action, Call, State};
use hanabi_bot::server_command::ServerCommand;

fn session() -> State {
    State::new("bot".to_string())
}

fn table(id: u64, name: &str) -> Table {
    Table { id: TableID(id), name: name.to_string() }
}

fn user(id: i32, name: &str, table_id: Option<u64>) -> User {
    User { user_id: UserID(id), name: name.to_string(), status: 0, table_id: table_id.map(TableID) }
}

fn join(id: u64) -> TableJoin {
    TableJoin { table_id: TableID(id) }
}

fn text(state: &mut State, line: &str) -> Result<Vec<Action>, SessionError> {
    state.on_text(line.to_string())
}

#[test]
fn a_new_session_knows_its_name_and_nothing_else() {
    let mut state = session();
    assert_eq!(state.username(), "bot");
    assert_eq!(state.start(), None);
    assert!(!state.remove_user(UserID(1)));
    assert_eq!(state.join_table("foo".to_string()), None);
    assert_eq!(state.follow_user("alice".to_string()), None);
}

// Tables

#[test]
fn idempotent_upsert() {
    let mut state = session();
    assert_eq!(state.insert_table(table(7, "a")), None);
    assert_eq!(state.insert_table(table(7, "b")), None);
    // One entry is left for the identifier, and it holds the second name.
    assert_eq!(state.join_table("a".to_string()), None);
    assert_eq!(state.join_table("b".to_string()), Some(join(7)));
    state.remove_table(TableID(7));
    assert_eq!(state.join_table("b".to_string()), None);
}

#[test]
fn remove_table_is_silent_about_unknown_tables() {
    let mut state = session();
    state.remove_table(TableID(7));
    state.insert_table(table(7, "a"));
    state.remove_table(TableID(8));
    assert_eq!(state.join_table("a".to_string()), Some(join(7)));
    state.remove_table(TableID(7));
    state.remove_table(TableID(7));
    assert_eq!(state.join_table("a".to_string()), None);
}

// Joining a table by its name

#[test]
fn one_shot_join_intent() {
    let mut state = session();
    assert_eq!(state.join_table("foo".to_string()), None);
    assert_eq!(state.insert_table(table(7, "foo")), Some(join(7)));
    assert_eq!(state.insert_table(table(7, "foo")), None);
    assert_eq!(state.insert_table(table(8, "foo")), None);
}

#[test]
fn join_intent_waits_for_its_name() {
    let mut state = session();
    assert_eq!(state.join_table("foo".to_string()), None);
    assert_eq!(state.insert_table(table(1, "bar")), None);
    assert_eq!(state.insert_table(table(2, "Foo")), None);
    assert_eq!(state.insert_table(table(3, "foo ")), None);
    assert_eq!(state.insert_table(table(4, "foo")), Some(join(4)));
}

#[test]
fn join_intent_is_met_at_once_by_a_known_table() {
    let mut state = session();
    state.insert_table(table(1, "bar"));
    state.insert_table(table(7, "foo"));
    assert_eq!(state.join_table("foo".to_string()), Some(join(7)));
    // The wish was not kept.
    assert_eq!(state.insert_table(table(8, "foo")), None);
}

#[test]
fn join_intent_picks_one_of_several_tables_of_the_name() {
    let mut state = session();
    state.insert_table(table(7, "foo"));
    state.insert_table(table(8, "foo"));
    let joined = state.join_table("foo".to_string());
    assert!(joined == Some(join(7)) || joined == Some(join(8)));
}

#[test]
fn a_later_join_intent_replaces_an_earlier_one() {
    let mut state = session();
    assert_eq!(state.join_table("foo".to_string()), None);
    assert_eq!(state.join_table("bar".to_string()), None);
    assert_eq!(state.insert_table(table(1, "foo")), None);
    assert_eq!(state.insert_table(table(2, "bar")), Some(join(2)));
}

#[test]
fn check_join_table_drops_the_wish_it_meets() {
    let mut state = session();
    state.join_table("foo".to_string());
    assert_eq!(state.check_join_table(&table(1, "bar")), None);
    assert_eq!(state.check_join_table(&table(7, "foo")), Some(join(7)));
    assert_eq!(state.check_join_table(&table(7, "foo")), None);
}

// Following a user

#[test]
fn persistent_follow_intent() {
    let mut state = session();
    assert_eq!(state.follow_user("alice".to_string()), None);
    assert_eq!(state.insert_user(user(3, "alice", Some(9))), Some(join(9)));
    assert_eq!(state.insert_user(user(3, "alice", Some(12))), Some(join(12)));
}

#[test]
fn follow_intent_joins_again_on_every_update() {
    let mut state = session();
    state.follow_user("alice".to_string());
    assert_eq!(state.insert_user(user(3, "alice", Some(9))), Some(join(9)));
    assert_eq!(state.insert_user(user(3, "alice", Some(9))), Some(join(9)));
    assert_eq!(state.insert_user(user(3, "alice", None)), None);
    assert_eq!(state.insert_user(user(4, "bob", Some(5))), None);
    assert_eq!(state.insert_user(user(3, "alice", Some(0))), Some(join(0)));
}

#[test]
fn follow_intent_is_met_at_once_by_a_seated_user() {
    let mut state = session();
    state.insert_user(user(3, "alice", Some(9)));
    state.insert_user(user(4, "bob", Some(5)));
    state.insert_user(user(5, "carol", None));
    assert_eq!(state.follow_user("alice".to_string()), Some(join(9)));
    assert_eq!(state.follow_user("carol".to_string()), None);
    assert_eq!(state.follow_user("dave".to_string()), None);
    // The wish stays: the user is followed when they sit down.
    assert_eq!(state.insert_user(user(5, "carol", Some(2))), None);
    assert_eq!(state.insert_user(user(6, "dave", Some(2))), Some(join(2)));
}

#[test]
fn a_later_follow_intent_replaces_an_earlier_one() {
    let mut state = session();
    state.follow_user("alice".to_string());
    state.follow_user("bob".to_string());
    assert_eq!(state.insert_user(user(3, "alice", Some(9))), None);
    assert_eq!(state.insert_user(user(4, "bob", Some(5))), Some(join(5)));
}

#[test]
fn check_follow_user_keeps_the_wish() {
    let mut state = session();
    state.follow_user("alice".to_string());
    assert_eq!(state.check_follow_user(&user(3, "alice", Some(9))), Some(join(9)));
    assert_eq!(state.check_follow_user(&user(3, "alice", Some(9))), Some(join(9)));
    assert_eq!(state.check_follow_user(&user(3, "alice", None)), None);
    assert_eq!(state.check_follow_user(&user(3, "Alice", Some(9))), None);
}

#[test]
fn both_intents_are_held_side_by_side() {
    let mut state = session();
    state.join_table("foo".to_string());
    state.follow_user("alice".to_string());
    assert_eq!(state.insert_user(user(3, "alice", Some(9))), Some(join(9)));
    assert_eq!(state.insert_table(table(7, "foo")), Some(join(7)));
    assert_eq!(state.insert_user(user(3, "alice", Some(7))), Some(join(7)));
    assert_eq!(state.insert_table(table(7, "foo")), None);
}

// Users

#[test]
fn remove_user_says_whether_the_user_was_known() {
    let mut state = session();
    state.insert_user(user(3, "alice", Some(9)));
    assert!(state.remove_user(UserID(3)));
    assert!(!state.remove_user(UserID(3)));
    assert_eq!(state.follow_user("alice".to_string()), None);
}

#[test]
fn a_user_is_stored_once_under_their_identifier() {
    let mut state = session();
    state.insert_user(user(3, "alice", Some(9)));
    state.insert_user(user(3, "bob", Some(5)));
    assert_eq!(state.follow_user("alice".to_string()), None);
    assert_eq!(state.follow_user("bob".to_string()), Some(join(5)));
    assert!(state.remove_user(UserID(3)));
    assert_eq!(state.follow_user("bob".to_string()), None);
}

// Starting

#[test]
fn start_no_op() {
    let state = session();
    assert_eq!(state.start(), None);
    let mut state = session();
    assert_eq!(state.call(Call::Start), None);
    assert_eq!(state.start(), None);
}

#[test]
fn start_starts_the_table_of_the_session() {
    let mut state = session();
    state.set_current_table(Some(TableID(5)));
    assert_eq!(state.start(), Some(TableStart { table_id: TableID(5) }));
    assert_eq!(state.call(Call::Start), Some(Action::Start(TableStart { table_id: TableID(5) })));
    state.set_current_table(None);
    assert_eq!(state.start(), None);
}

#[test]
fn the_table_of_the_session_need_not_be_known() {
    let mut state = session();
    state.insert_table(table(5, "foo"));
    state.set_current_table(Some(TableID(5)));
    state.remove_table(TableID(5));
    assert_eq!(state.start(), Some(TableStart { table_id: TableID(5) }));
}

// Requests of the owner

#[test]
fn calls_are_carried_out() {
    let mut state = session();
    state.insert_table(table(7, "foo"));
    state.insert_user(user(3, "alice", Some(9)));
    assert_eq!(state.call(Call::JoinTable("foo".to_string())), Some(Action::Join(join(7))));
    assert_eq!(state.call(Call::JoinTable("bar".to_string())), None);
    assert_eq!(state.call(Call::FollowUser("alice".to_string())), Some(Action::Join(join(9))));
    assert_eq!(state.call(Call::FollowUser("bob".to_string())), None);
    assert_eq!(state.insert_table(table(8, "bar")), Some(join(8)));
    assert_eq!(state.insert_user(user(4, "bob", Some(8))), Some(join(8)));
}

// Lines of text from the server

#[test]
fn unknown_command_tolerance() {
    let mut state = session();
    state.join_table("foo".to_string());
    assert_eq!(
        text(&mut state, "futureCmd {}"),
        Ok(vec![Action::Unhandled("futureCmd".to_string())])
    );
    // Nothing changed: the wish is still there.
    assert_eq!(text(&mut state, "table {\"id\":7,\"name\":\"foo\"}"), Ok(vec![Action::Join(join(7))]));
}

#[test]
fn unregistered_server_commands_are_skipped() {
    let mut state = session();
    assert_eq!(
        text(&mut state, "tableStart {\"tableID\":7}"),
        Ok(vec![Action::Unhandled("tableStart".to_string())])
    );
    assert_eq!(text(&mut state, "init "), Ok(vec![Action::Unhandled("init".to_string())]));
    assert_eq!(
        text(&mut state, "chatTyping this is not json"),
        Ok(vec![Action::Unhandled("chatTyping".to_string())])
    );
}

#[test]
fn fatal_server_error() {
    let mut state = session();
    assert_eq!(
        text(&mut state, "error {\"error\":\"bad\"}"),
        Err(SessionError::Server("bad".to_string()))
    );
}

#[test]
fn server_warning_goes_on() {
    let mut state = session();
    assert_eq!(
        text(&mut state, "warning {\"warning\":\"slow down\"}"),
        Ok(vec![Action::Warned("slow down".to_string())])
    );
}

#[test]
fn a_line_that_is_no_frame_ends_the_session() {
    let mut state = session();
    assert_eq!(
        text(&mut state, "garbage"),
        Err(SessionError::Frame(DeserializeCommandError::NoSpace))
    );
    assert_eq!(text(&mut state, ""), Err(SessionError::Frame(DeserializeCommandError::NoSpace)));
    assert_eq!(text(&mut state, "left"), Err(SessionError::Frame(DeserializeCommandError::NoSpace)));
    assert_eq!(text(&mut state, "init"), Err(SessionError::Frame(DeserializeCommandError::NoSpace)));
}

#[test]
fn a_payload_that_cannot_be_read_ends_the_session() {
    let mut state = session();
    state.join_table("foo".to_string());
    assert_eq!(
        text(&mut state, "table {\"id\":7}"),
        Err(SessionError::Frame(DeserializeCommandError::DeserializeDataError(PayloadError::Shape)))
    );
    assert!(matches!(
        text(&mut state, "table {\"id\":7,"),
        Err(SessionError::Frame(DeserializeCommandError::DeserializeDataError(
            PayloadError::Syntax(_)
        )))
    ));
    assert_eq!(
        text(&mut state, "tableList [{\"id\":7,\"name\":\"foo\"},{\"id\":8}]"),
        Err(SessionError::Frame(DeserializeCommandError::DeserializeDataError(PayloadError::Shape)))
    );
    // Nothing was stored, not even the first table of the list.
    assert_eq!(text(&mut state, "table {\"id\":9,\"name\":\"foo\"}"), Ok(vec![Action::Join(join(9))]));
}

#[test]
fn welcome_and_name_change_nothing() {
    let mut state = session();
    assert_eq!(text(&mut state, "welcome {\"userID\":1,\"randomTableName\":\"x\"}"), Ok(vec![]));
    assert_eq!(text(&mut state, "name {\"name\":\"x\"}"), Ok(vec![]));
    assert_eq!(state.start(), None);
}

#[test]
fn table_frames_are_applied() {
    let mut state = session();
    assert_eq!(text(&mut state, "table {\"id\":7,\"name\":\"foo\"}"), Ok(vec![]));
    assert_eq!(state.join_table("foo".to_string()), Some(join(7)));
    assert_eq!(text(&mut state, "tableGone {\"tableID\":7}"), Ok(vec![]));
    assert_eq!(text(&mut state, "tableGone {\"tableID\":7}"), Ok(vec![]));
    assert_eq!(state.join_table("foo".to_string()), None);
    assert_eq!(
        text(&mut state, "tableList [{\"id\":1,\"name\":\"a\"},{\"id\":2,\"name\":\"foo\"},{\"id\":3,\"name\":\"foo\"}]"),
        Ok(vec![Action::Join(join(2))])
    );
    assert_eq!(state.join_table("a".to_string()), Some(join(1)));
    assert_eq!(text(&mut state, "tableList []"), Ok(vec![]));
}

#[test]
fn user_frames_are_applied() {
    let mut state = session();
    state.follow_user("alice".to_string());
    assert_eq!(
        text(&mut state, "user {\"userID\":3,\"name\":\"alice\",\"status\":0,\"tableID\":9}"),
        Ok(vec![Action::Join(join(9))])
    );
    assert_eq!(
        text(
            &mut state,
            "userList [{\"userID\":3,\"name\":\"alice\",\"status\":0,\"tableID\":12},\
             {\"userID\":4,\"name\":\"bob\",\"status\":0,\"tableID\":1},\
             {\"userID\":3,\"name\":\"alice\",\"status\":0},\
             {\"userID\":3,\"name\":\"alice\",\"status\":0,\"tableID\":13}]"
        ),
        Ok(vec![Action::Join(join(12)), Action::Join(join(13))])
    );
    assert_eq!(text(&mut state, "userLeft {\"userID\":3}"), Ok(vec![]));
    assert_eq!(
        text(&mut state, "userLeft {\"userID\":3}"),
        Ok(vec![Action::UnknownUser(UserID(3))])
    );
    assert_eq!(text(&mut state, "userLeft {\"userID\":4}"), Ok(vec![]));
}

#[test]
fn joined_and_left_move_the_session() {
    let mut state = session();
    assert_eq!(text(&mut state, "joined {\"tableID\":5}"), Ok(vec![]));
    assert_eq!(state.start(), Some(TableStart { table_id: TableID(5) }));
    assert_eq!(text(&mut state, "joined {\"tableID\":6}"), Ok(vec![]));
    assert_eq!(state.start(), Some(TableStart { table_id: TableID(6) }));
    assert_eq!(text(&mut state, "left "), Ok(vec![]));
    assert_eq!(state.start(), None);
    // The bare name is no frame: the session ends, and the seat is kept.
    assert_eq!(text(&mut state, "joined {\"tableID\":5}"), Ok(vec![]));
    assert_eq!(text(&mut state, "left"), Err(SessionError::Frame(DeserializeCommandError::NoSpace)));
    assert_eq!(state.start(), Some(TableStart { table_id: TableID(5) }));
}

#[test]
fn chat_commands_to_the_session_are_handed_on() {
    let mut state = session();
    let told = Action::Chat { who: "alice".to_string(), msg: "/start now".to_string() };
    assert_eq!(
        text(&mut state, "chat {\"recipient\":\"bot\",\"who\":\"alice\",\"msg\":\"/start now\"}"),
        Ok(vec![told])
    );
    // Not to the session.
    assert_eq!(
        text(&mut state, "chat {\"recipient\":\"\",\"who\":\"alice\",\"msg\":\"/start\"}"),
        Ok(vec![])
    );
    assert_eq!(
        text(&mut state, "chat {\"recipient\":\"Bot\",\"who\":\"alice\",\"msg\":\"/start\"}"),
        Ok(vec![])
    );
    // No command.
    assert_eq!(
        text(&mut state, "chat {\"recipient\":\"bot\",\"who\":\"alice\",\"msg\":\"hello /start\"}"),
        Ok(vec![])
    );
    assert_eq!(
        text(&mut state, "chat {\"recipient\":\"bot\",\"who\":\"alice\",\"msg\":\"\"}"),
        Ok(vec![])
    );
    assert_eq!(
        text(&mut state, "chat {\"recipient\":\"bot\",\"who\":\"alice\",\"msg\":\"/\"}"),
        Ok(vec![Action::Chat { who: "alice".to_string(), msg: "/".to_string() }])
    );
}

#[test]
fn chat_looks_at_recipient_and_trigger() {
    let state = session();
    let chat = |recipient: &str, msg: &str| Chat {
        recipient: recipient.to_string(),
        who: "alice".to_string(),
        msg: msg.to_string(),
    };
    assert_eq!(
        state.chat(chat("bot", "/join")),
        vec![Action::Chat { who: "alice".to_string(), msg: "/join".to_string() }]
    );
    assert_eq!(state.chat(chat("bot", "join")), vec![]);
    assert_eq!(state.chat(chat("alice", "/join")), vec![]);
}

// Reactions to commands that are already read

#[test]
fn react_takes_a_command() {
    let mut state = session();
    state.join_table("foo".to_string());
    state.follow_user("alice".to_string());
    assert_eq!(
        state.react(ServerCommand::Warning(Warning { warning: "w".to_string() })),
        Ok(vec![Action::Warned("w".to_string())])
    );
    assert_eq!(
        state.react(ServerCommand::Error(Error { error: "bad".to_string() })),
        Err(SessionError::Server("bad".to_string()))
    );
    assert_eq!(
        state.react(ServerCommand::Welcome(Welcome {
            user_id: UserID(1),
            random_table_name: "x".to_string()
        })),
        Ok(vec![])
    );
    assert_eq!(state.react(ServerCommand::Name(Name { name: "x".to_string() })), Ok(vec![]));
    assert_eq!(
        state.react(ServerCommand::User(user(3, "alice", Some(9)))),
        Ok(vec![Action::Join(join(9))])
    );
    assert_eq!(
        state.react(ServerCommand::UserList(UserList(vec![user(3, "alice", Some(1)), user(3, "alice", Some(2))]))),
        Ok(vec![Action::Join(join(1)), Action::Join(join(2))])
    );
    assert_eq!(state.react(ServerCommand::UserLeft(UserLeft { user_id: UserID(3) })), Ok(vec![]));
    assert_eq!(
        state.react(ServerCommand::UserLeft(UserLeft { user_id: UserID(3) })),
        Ok(vec![Action::UnknownUser(UserID(3))])
    );
    assert_eq!(
        state.react(ServerCommand::Table(table(7, "foo"))),
        Ok(vec![Action::Join(join(7))])
    );
    assert_eq!(
        state.react(ServerCommand::TableList(TableList(vec![table(7, "foo"), table(8, "foo")]))),
        Ok(vec![])
    );
    assert_eq!(state.react(ServerCommand::TableGone(TableGone { table_id: TableID(7) })), Ok(vec![]));
    assert_eq!(state.react(ServerCommand::Joined(Joined { table_id: TableID(8) })), Ok(vec![]));
    assert_eq!(state.start(), Some(TableStart { table_id: TableID(8) }));
    assert_eq!(state.react(ServerCommand::Left(Left)), Ok(vec![]));
    assert_eq!(state.start(), None);
}

#[test]
fn lists_are_stored_in_their_order() {
    let mut state = session();
    assert_eq!(state.insert_tables(vec![table(7, "a"), table(7, "b")]), vec![]);
    assert_eq!(state.join_table("a".to_string()), None);
    assert_eq!(state.join_table("b".to_string()), Some(join(7)));
    state.follow_user("alice".to_string());
    assert_eq!(
        state.insert_users(vec![user(3, "alice", Some(1)), user(4, "bob", None), user(3, "alice", Some(2))]),
        vec![Action::Join(join(1)), Action::Join(join(2))]
    );
    assert_eq!(state.follow_user("alice".to_string()), Some(join(2)));
    assert_eq!(state.insert_users(vec![]), vec![]);
    assert_eq!(state.insert_tables(vec![]), vec![]);
}

// Binary messages

#[test]
fn a_binary_message_ends_the_session() {
    let state = session();
    assert_eq!(state.on_binary(vec![1, 2, 3]), Err(SessionError::Binary));
    assert_eq!(state.on_binary(vec![]), Err(SessionError::Binary));
}
