//! The mathematical model of a session: the value of its state, and what
//! each step makes of it.

use vstd::prelude::*;
use vstd::string::*;
use crate::command::client::{TableJoin, TableStart};
use crate::command::deserialize::DeserializeCommandFault;
use crate::command::server::{ChatView, TableView, UserView};
use crate::command::{frame_parts, SessionFault, TableID, UserID};
use crate::server_command::{decode, ServerCommandView};

verus! {

/// The character that marks a chat message as a command to the session.
pub const COMMAND_TRIGGER: char = '/';

/// The mathematical value of an [`Action`].
pub enum ActionView {
    Join(TableJoin),
    Start(TableStart),
    Warned(Seq<char>),
    UnknownUser(UserID),
    Unhandled(Seq<char>),
    Chat { who: Seq<char>, msg: Seq<char> },
}

/// The mathematical value of a [`Call`].
pub enum CallView {
    JoinTable(Seq<char>),
    FollowUser(Seq<char>),
    Start,
}

/// The actions that an answer to a table or user update asks for: one join,
/// or none.
pub open spec fn joined(join: Option<TableJoin>) -> Seq<ActionView> {
    match join {
        Some(join) => seq![ActionView::Join(join)],
        None => Seq::empty(),
    }
}

/// The mathematical value of a [`State`].
pub struct StateView {
    /// The name under which the session is logged in.
    pub username: Seq<char>,
    /// The users of the lobby, by their identifiers.
    pub users: Map<UserID, UserView>,
    /// The tables of the lobby, by their identifiers.
    pub tables: Map<TableID, TableView>,
    /// The table at which the session sits.
    pub current_table: Option<TableID>,
    /// The user whom the session follows. The wish stays until it is replaced.
    pub follow_user: Option<Seq<char>>,
    /// The name of the table that the session wants to join. The wish is
    /// dropped when it is met.
    pub join_table: Option<Seq<char>>,
}

impl StateView {
    /// Every user and every table is stored under its own identifier.
    pub open spec fn wf(self) -> bool {
        &&& forall|id: UserID|
            self.users.contains_key(id) ==> (#[trigger] self.users[id]).user_id == id
        &&& forall|id: TableID|
            self.tables.contains_key(id) ==> (#[trigger] self.tables[id]).id == id
    }

    /// The state of a session that has just begun: an empty lobby, no seat,
    /// no wish.
    pub open spec fn initial(username: Seq<char>) -> StateView {
        StateView {
            username,
            users: Map::empty(),
            tables: Map::empty(),
            current_table: None,
            follow_user: None,
            join_table: None,
        }
    }

    /// Holds a table against the wish to join one: a table of the wanted name
    /// is joined, and the wish is dropped.
    pub open spec fn check_join_table(self, table: TableView) -> (StateView, Option<TableJoin>) {
        if self.join_table == Some(table.name) {
            (StateView { join_table: None, ..self }, Some(TableJoin { table_id: table.id }))
        } else {
            (self, None)
        }
    }

    /// Stores a table under its identifier, in place of what was there, and
    /// holds it against the wish to join one.
    pub open spec fn insert_table(self, table: TableView) -> (StateView, Option<TableJoin>) {
        (StateView { tables: self.tables.insert(table.id, table), ..self }).check_join_table(table)
    }

    /// Forgets a table. Nothing happens where it was not known.
    pub open spec fn remove_table(self, table_id: TableID) -> StateView {
        StateView { tables: self.tables.remove(table_id), ..self }
    }

    /// Holds a user against the wish to follow one: the table of the followed
    /// user is joined where they sit at one. The wish stays.
    pub open spec fn check_follow_user(self, user: UserView) -> Option<TableJoin> {
        match user.table_id {
            Some(table_id) if self.follow_user == Some(user.name) => Some(TableJoin { table_id }),
            _ => None,
        }
    }

    /// Stores a user under their identifier, in place of what was there, and
    /// holds them against the wish to follow one.
    pub open spec fn insert_user(self, user: UserView) -> (StateView, Option<TableJoin>) {
        (
            StateView { users: self.users.insert(user.user_id, user), ..self },
            self.check_follow_user(user),
        )
    }

    /// Forgets a user, and says whether they were known.
    pub open spec fn remove_user(self, user_id: UserID) -> (StateView, bool) {
        (StateView { users: self.users.remove(user_id), ..self }, self.users.contains_key(user_id))
    }

    /// Takes note of the table at which the session sits, or that it sits at
    /// none.
    pub open spec fn set_current_table(self, current_table: Option<TableID>) -> StateView {
        StateView { current_table, ..self }
    }

    /// The command that starts the game at the session's table. None where
    /// the session sits at no table.
    pub open spec fn start(self) -> Option<TableStart> {
        match self.current_table {
            Some(table_id) => Some(TableStart { table_id }),
            None => None,
        }
    }

    /// Whether `after` and `join` are an outcome of the wish to join the table
    /// named `name`: where the lobby knows a table of that name, one of them
    /// is joined and no wish is kept; where it knows none, the wish is kept.
    pub open spec fn join_table_outcome(
        self,
        name: Seq<char>,
        after: StateView,
        join: Option<TableJoin>,
    ) -> bool {
        match join {
            Some(join) => {
                &&& self.tables.contains_key(join.table_id)
                &&& self.tables[join.table_id].name == name
                &&& after == StateView { join_table: None, ..self }
            },
            None => {
                &&& forall|id: TableID|
                    self.tables.contains_key(id) ==> (#[trigger] self.tables[id]).name != name
                &&& after == StateView { join_table: Some(name), ..self }
            },
        }
    }

    /// Whether `user` is named `name` and sits at a table.
    pub open spec fn seated_as(user: UserView, name: Seq<char>) -> bool {
        user.name == name && user.table_id is Some
    }

    /// Whether `after` and `join` are an outcome of the wish to follow the
    /// user named `name`: the wish is kept in any case; where the lobby knows
    /// a user of that name who sits at a table, the table of one of them is
    /// joined; where it knows none, nothing is joined.
    pub open spec fn follow_user_outcome(
        self,
        name: Seq<char>,
        after: StateView,
        join: Option<TableJoin>,
    ) -> bool {
        &&& after == StateView { follow_user: Some(name), ..self }
        &&& match join {
            Some(join) => exists|id: UserID|
                self.users.contains_key(id) && Self::seated_as(#[trigger] self.users[id], name)
                    && self.users[id].table_id == Some(join.table_id),
            None => forall|id: UserID|
                self.users.contains_key(id) ==> !Self::seated_as(#[trigger] self.users[id], name),
        }
    }

    /// Whether `after` and `action` are an outcome of a request of the owner.
    pub open spec fn call_outcome(
        self,
        call: CallView,
        after: StateView,
        action: Option<ActionView>,
    ) -> bool {
        match call {
            CallView::JoinTable(name) => match action {
                Some(ActionView::Join(join)) => self.join_table_outcome(name, after, Some(join)),
                Some(_) => false,
                None => self.join_table_outcome(name, after, None),
            },
            CallView::FollowUser(name) => match action {
                Some(ActionView::Join(join)) => self.follow_user_outcome(name, after, Some(join)),
                Some(_) => false,
                None => self.follow_user_outcome(name, after, None),
            },
            CallView::Start => after == self && action == match self.start() {
                Some(start) => Some(ActionView::Start(start)),
                None => None,
            },
        }
    }

    /// What a chat message asks for: where it is addressed to the session and
    /// begins with the command trigger, it goes to the parser of chat
    /// commands.
    pub open spec fn chat(self, chat: ChatView) -> Seq<ActionView> {
        if chat.recipient == self.username && chat.msg.len() > 0 && chat.msg[0]
            == COMMAND_TRIGGER {
            seq![ActionView::Chat { who: chat.who, msg: chat.msg }]
        } else {
            Seq::empty()
        }
    }

    /// Stores the users of a list one after the other.
    pub open spec fn insert_users(self, users: Seq<UserView>) -> (StateView, Seq<ActionView>)
        decreases users.len(),
    {
        if users.len() == 0 {
            (self, Seq::empty())
        } else {
            let (before, actions) = self.insert_users(users.drop_last());
            let (after, join) = before.insert_user(users.last());
            (after, actions + joined(join))
        }
    }

    /// Stores the tables of a list one after the other.
    pub open spec fn insert_tables(self, tables: Seq<TableView>) -> (StateView, Seq<ActionView>)
        decreases tables.len(),
    {
        if tables.len() == 0 {
            (self, Seq::empty())
        } else {
            let (before, actions) = self.insert_tables(tables.drop_last());
            let (after, join) = before.insert_table(tables.last());
            (after, actions + joined(join))
        }
    }

    /// The reaction to a command of the server: the state after it, and
    /// either the actions that it asks for or the error that ends the
    /// session.
    pub open spec fn react(self, command: ServerCommandView) -> (
        StateView,
        Result<Seq<ActionView>, SessionFault>,
    ) {
        match command {
            ServerCommandView::Warning(warning) => (self, Ok(seq![ActionView::Warned(warning)])),
            ServerCommandView::Error(error) => (self, Err(SessionFault::Server(error))),
            ServerCommandView::Welcome(_) => (self, Ok(Seq::empty())),
            ServerCommandView::Name(_) => (self, Ok(Seq::empty())),
            ServerCommandView::User(user) => {
                let (after, join) = self.insert_user(user);
                (after, Ok(joined(join)))
            },
            ServerCommandView::UserList(users) => {
                let (after, actions) = self.insert_users(users);
                (after, Ok(actions))
            },
            ServerCommandView::UserLeft(left) => {
                let (after, known) = self.remove_user(left.user_id);
                (
                    after,
                    Ok(
                        if known {
                            Seq::empty()
                        } else {
                            seq![ActionView::UnknownUser(left.user_id)]
                        },
                    ),
                )
            },
            ServerCommandView::Table(table) => {
                let (after, join) = self.insert_table(table);
                (after, Ok(joined(join)))
            },
            ServerCommandView::TableList(tables) => {
                let (after, actions) = self.insert_tables(tables);
                (after, Ok(actions))
            },
            ServerCommandView::TableGone(gone) => (self.remove_table(gone.table_id), Ok(
                Seq::empty(),
            )),
            ServerCommandView::Chat(chat) => (self, Ok(self.chat(chat))),
            ServerCommandView::Joined(joined) => (
                self.set_current_table(Some(joined.table_id)),
                Ok(Seq::empty()),
            ),
            ServerCommandView::Left(_) => (self.set_current_table(None), Ok(Seq::empty())),
        }
    }

    /// The reaction to a line of text from the server. A line that is no
    /// frame, or whose payload cannot be read, ends the session and changes
    /// nothing. A frame whose name is not registered is skipped. Any other
    /// frame is reacted to as the command that it carries.
    pub open spec fn on_text(self, text: Seq<char>) -> (
        StateView,
        Result<Seq<ActionView>, SessionFault>,
    ) {
        match frame_parts(text) {
            Some((name, data)) => match decode(name, data) {
                Ok(command) => self.react(command),
                Err(DeserializeCommandFault::Custom(name)) => (self, Ok(
                    seq![ActionView::Unhandled(name)],
                )),
                Err(fault) => (self, Err(SessionFault::Frame(fault))),
            },
            None => (self, Err(SessionFault::Frame(DeserializeCommandFault::NoSpace))),
        }
    }
}

} // verus!
