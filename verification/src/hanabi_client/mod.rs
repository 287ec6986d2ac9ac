//! The lobby as one session knows it, and what the session does about it.
//!
//! A [`State`] mirrors the users and tables that the server announces, keeps
//! the table at which the session sits, and holds two wishes of its owner: to
//! join a table of a given name once, and to follow a user from table to
//! table. Every method says what it changes and which [`Action`]s its owner
//! has to carry out; the state itself sends nothing.

use std::collections::HashMap;
use vstd::prelude::*;
use vstd::std_specs::hash::spec_hash_map_iter;
use vstd::std_specs::iter::IteratorSpec;
use vstd::string::*;
use crate::command::client::{TableJoin, TableStart};
use crate::command::deserialize::{deserialize_command_from_str, DeserializeCommandError};
use crate::command::server::{Chat, Table, User};
use crate::command::{views, SessionError, SessionFault, TableID, UserID};
use crate::hanabi_client::model::{joined, ActionView, CallView, StateView, COMMAND_TRIGGER};
use crate::server_command::ServerCommand;
use crate::text::starts_with_char;

pub mod laws;
pub mod model;

verus! {

/// What the owner of a [`State`] has to do after a step.
#[derive(Debug, Clone, PartialEq, Eq)]
pub enum Action {
    /// Send this command: take a seat at a table.
    Join(TableJoin),
    /// Send this command: start the game at the session's table.
    Start(TableStart),
    /// The server sent a warning, held here. It is to be logged.
    Warned(String),
    /// The server said that a user left of whom the lobby knew nothing.
    UnknownUser(UserID),
    /// A frame came whose name is not registered, held here. It was skipped.
    Unhandled(String),
    /// Somebody told the session a chat message that begins with the command
    /// trigger: the sender and the message, for the parser of chat commands.
    Chat { who: String, msg: String },
}

impl View for Action {
    type V = ActionView;

    open spec fn view(&self) -> ActionView {
        match self {
            Action::Join(join) => ActionView::Join(*join),
            Action::Start(start) => ActionView::Start(*start),
            Action::Warned(warning) => ActionView::Warned(warning@),
            Action::UnknownUser(user_id) => ActionView::UnknownUser(*user_id),
            Action::Unhandled(name) => ActionView::Unhandled(name@),
            Action::Chat { who, msg } => ActionView::Chat { who: who@, msg: msg@ },
        }
    }
}

/// A request of the owner of a session.
#[derive(Debug, Clone, PartialEq, Eq)]
pub enum Call {
    /// Join the table of this name, once, as soon as there is one.
    JoinTable(String),
    /// Follow the user of this name to whichever table they sit at.
    FollowUser(String),
    /// Start the game at the session's table.
    Start,
}

impl View for Call {
    type V = CallView;

    open spec fn view(&self) -> CallView {
        match self {
            Call::JoinTable(name) => CallView::JoinTable(name@),
            Call::FollowUser(name) => CallView::FollowUser(name@),
            Call::Start => CallView::Start,
        }
    }
}

/// Whether what a step returned, and the state it left, are what `expected`
/// says.
pub open spec fn step_matches(
    after: StateView,
    returned: Result<Vec<Action>, SessionError>,
    expected: (StateView, Result<Seq<ActionView>, SessionFault>),
) -> bool {
    &&& after == expected.0
    &&& match returned {
        Ok(actions) => expected.1 == Ok::<Seq<ActionView>, SessionFault>(views(actions@)),
        Err(e) => expected.1 == Err::<Seq<ActionView>, SessionFault>(e@),
    }
}

/// The value of an action that may be absent.
pub open spec fn option_view(action: Option<Action>) -> Option<ActionView> {
    match action {
        Some(action) => Some(action@),
        None => None,
    }
}

/// Adds the action that a join asks for, if there is one.
fn push_join(actions: &mut Vec<Action>, join: Option<TableJoin>)
    ensures
        views(final(actions)@) == views(old(actions)@) + joined(join),
{
    match join {
        Some(join) => {
            actions.push(Action::Join(join));
        },
        None => {},
    }
    assert(views(actions@) =~= views(old(actions)@) + joined(join));
}

/// Looks for a table named `name` among the stored tables.
fn find_table(tables: &HashMap<u64, Table>, name: &String) -> (found: Option<TableID>)
    ensures
        match found {
            Some(table_id) => tables@.contains_key(table_id.0) && tables@[table_id.0].name@
                == name@,
            None => forall|key: u64|
                tables@.contains_key(key) ==> (#[trigger] tables@[key]).name@ != name@,
        },
{
    broadcast use vstd::std_specs::hash::group_hash_axioms;

    let entries = tables.iter();
    for entry in it: entries
        invariant
            it.seq() == spec_hash_map_iter(tables).remaining(),
            forall|j: int| 0 <= j < it.index() ==> (#[trigger] it.seq()[j]).1.name@ != name@,
    {
        let (key, table) = entry;
        if table.name == *name {
            assert(tables@.contains_key(*key) && tables@[*key] == *table);
            return Some(TableID(*key));
        }
    }
    proof {
        assert forall|key: u64| tables@.contains_key(key) implies (
        #[trigger] tables@[key]).name@ != name@ by {
            let all = spec_hash_map_iter(tables).remaining();
            assert(all.contains((&key, &tables@[key])));
            let j = choose|j: int| 0 <= j < all.len() && all[j] == (&key, &tables@[key]);
            assert(all[j].1.name@ != name@);
        }
    }
    None
}

/// Looks for a user named `name` who sits at a table, among the stored users.
fn find_seat(users: &HashMap<i32, User>, name: &String) -> (found: Option<(UserID, TableID)>)
    ensures
        match found {
            Some((user_id, table_id)) => users@.contains_key(user_id.0) && users@[user_id.0].name@
                == name@ && users@[user_id.0].table_id == Some(table_id),
            None => forall|key: i32|
                users@.contains_key(key) ==> !StateView::seated_as(
                    (#[trigger] users@[key])@,
                    name@,
                ),
        },
{
    broadcast use vstd::std_specs::hash::group_hash_axioms;

    let entries = users.iter();
    for entry in it: entries
        invariant
            it.seq() == spec_hash_map_iter(users).remaining(),
            forall|j: int|
                0 <= j < it.index() ==> !StateView::seated_as(
                    (#[trigger] it.seq()[j]).1@,
                    name@,
                ),
    {
        let (key, user) = entry;
        if user.name == *name {
            match user.table_id {
                Some(table_id) => {
                    assert(users@.contains_key(*key) && users@[*key] == *user);
                    return Some((UserID(*key), table_id));
                },
                None => {},
            }
        }
    }
    proof {
        assert forall|key: i32| users@.contains_key(key) implies !StateView::seated_as(
            (#[trigger] users@[key])@,
            name@,
        ) by {
            let all = spec_hash_map_iter(users).remaining();
            assert(all.contains((&key, &users@[key])));
            let j = choose|j: int| 0 <= j < all.len() && all[j] == (&key, &users@[key]);
            assert(!StateView::seated_as(all[j].1@, name@));
        }
    }
    None
}

/// The lobby as one session knows it, with the wishes of the session's owner.
pub struct State {
    username: String,
    users: HashMap<i32, User>,
    tables: HashMap<u64, Table>,
    current_table: Option<TableID>,
    follow_user: Option<String>,
    join_table: Option<String>,
}

/// The value of a name that may be absent.
pub open spec fn name_view(name: Option<String>) -> Option<Seq<char>> {
    match name {
        Some(name) => Some(name@),
        None => None,
    }
}

impl View for State {
    type V = StateView;

    closed spec fn view(&self) -> StateView {
        StateView {
            username: self.username@,
            users: Map::new(
                |id: UserID| self.users@.contains_key(id.0),
                |id: UserID| self.users@[id.0]@,
            ),
            tables: Map::new(
                |id: TableID| self.tables@.contains_key(id.0),
                |id: TableID| self.tables@[id.0]@,
            ),
            current_table: self.current_table,
            follow_user: name_view(self.follow_user),
            join_table: name_view(self.join_table),
        }
    }
}

impl State {
    #[verifier::type_invariant]
    spec fn consistent(self) -> bool {
        &&& forall|id: i32|
            self.users@.contains_key(id) ==> (#[trigger] self.users@[id]).user_id.0 == id
        &&& forall|id: u64| self.tables@.contains_key(id) ==> (#[trigger] self.tables@[id]).id.0 == id
    }

    /// In every state, each user and each table is stored under its own
    /// identifier.
    fn view_wf(&self)
        ensures
            self@.wf(),
    {
        proof {
            use_type_invariant(self);
        }
    }

    /// The state of a session that has just begun under the name `username`.
    pub fn new(username: String) -> (state: State)
        ensures
            state@ == StateView::initial(username@),
            state@.wf(),
    {
        let state = State {
            username,
            users: HashMap::new(),
            tables: HashMap::new(),
            current_table: None,
            follow_user: None,
            join_table: None,
        };
        assert(state@.users =~= Map::empty());
        assert(state@.tables =~= Map::empty());
        state
    }

    /// The name under which the session is logged in.
    pub fn username(&self) -> (username: &str)
        ensures
            username@ == self@.username,
    {
        self.username.as_str()
    }

    fn put_user(&mut self, user: User)
        ensures
            final(self)@ == (StateView {
                users: old(self)@.users.insert(user.user_id, user@),
                ..old(self)@
            }),
    {
        broadcast use vstd::std_specs::hash::group_hash_axioms;

        proof {
            use_type_invariant(&*self);
        }
        let mut users: HashMap<i32, User> = HashMap::new();
        std::mem::swap(&mut self.users, &mut users);
        users.insert(user.user_id.0, user);
        std::mem::swap(&mut self.users, &mut users);
        assert(self@.users =~= old(self)@.users.insert(user.user_id, user@));
    }

    fn take_user(&mut self, user_id: UserID) -> (known: bool)
        ensures
            (final(self)@, known) == old(self)@.remove_user(user_id),
    {
        broadcast use vstd::std_specs::hash::group_hash_axioms;

        proof {
            use_type_invariant(&*self);
        }
        let mut users: HashMap<i32, User> = HashMap::new();
        std::mem::swap(&mut self.users, &mut users);
        let removed = users.remove(&user_id.0);
        std::mem::swap(&mut self.users, &mut users);
        assert(self@.users =~= old(self)@.users.remove(user_id));
        removed.is_some()
    }

    fn put_table(&mut self, table: Table)
        ensures
            final(self)@ == (StateView {
                tables: old(self)@.tables.insert(table.id, table@),
                ..old(self)@
            }),
    {
        broadcast use vstd::std_specs::hash::group_hash_axioms;

        proof {
            use_type_invariant(&*self);
        }
        let mut tables: HashMap<u64, Table> = HashMap::new();
        std::mem::swap(&mut self.tables, &mut tables);
        tables.insert(table.id.0, table);
        std::mem::swap(&mut self.tables, &mut tables);
        assert(self@.tables =~= old(self)@.tables.insert(table.id, table@));
    }

    /// Stores a user under their identifier, in place of what was there,
    /// after holding them against the wish to follow one.
    pub fn insert_user(&mut self, user: User) -> (join: Option<TableJoin>)
        ensures
            (final(self)@, join) == old(self)@.insert_user(user@),
            final(self)@.wf(),
    {
        self.view_wf();
        let join = self.check_follow_user(&user);
        self.put_user(user);
        join
    }

    /// Forgets a user, and says whether they were known.
    pub fn remove_user(&mut self, user_id: UserID) -> (known: bool)
        ensures
            (final(self)@, known) == old(self)@.remove_user(user_id),
            final(self)@.wf(),
    {
        self.view_wf();
        self.take_user(user_id)
    }

    /// Stores a table under its identifier, in place of what was there, after
    /// holding it against the wish to join one.
    pub fn insert_table(&mut self, table: Table) -> (join: Option<TableJoin>)
        ensures
            (final(self)@, join) == old(self)@.insert_table(table@),
            final(self)@.wf(),
    {
        self.view_wf();
        let join = self.check_join_table(&table);
        self.put_table(table);
        join
    }

    /// Forgets a table. Nothing happens where it was not known.
    pub fn remove_table(&mut self, table_id: TableID)
        ensures
            final(self)@ == old(self)@.remove_table(table_id),
            final(self)@.wf(),
    {
        self.view_wf();
        broadcast use vstd::std_specs::hash::group_hash_axioms;

        proof {
            use_type_invariant(&*self);
        }
        let mut tables: HashMap<u64, Table> = HashMap::new();
        std::mem::swap(&mut self.tables, &mut tables);
        tables.remove(&table_id.0);
        std::mem::swap(&mut self.tables, &mut tables);
        assert(self@.tables =~= old(self)@.tables.remove(table_id));
    }

    /// Takes note of the table at which the session sits, or that it sits at
    /// none.
    pub fn set_current_table(&mut self, current_table: Option<TableID>)
        ensures
            final(self)@ == old(self)@.set_current_table(current_table),
            final(self)@.wf(),
    {
        self.view_wf();
        proof {
            use_type_invariant(&*self);
        }
        self.current_table = current_table;
    }

    /// Takes up the wish to join the table named `table_name`, in place of an
    /// earlier such wish. Where the lobby knows a table of that name, one of
    /// them is joined at once and no wish is kept.
    pub fn join_table(&mut self, table_name: String) -> (join: Option<TableJoin>)
        ensures
            old(self)@.join_table_outcome(table_name@, final(self)@, join),
            final(self)@.wf(),
    {
        self.view_wf();
        proof {
            use_type_invariant(&*self);
        }
        match find_table(&self.tables, &table_name) {
            Some(table_id) => {
                self.join_table = None;
                Some(TableJoin { table_id })
            },
            None => {
                assert forall|id: TableID| self@.tables.contains_key(id) implies (
                #[trigger] self@.tables[id]).name != table_name@ by {
                    assert(self.tables@.contains_key(id.0));
                }
                self.join_table = Some(table_name);
                None
            },
        }
    }

    /// Takes up the wish to follow the user named `username`, in place of an
    /// earlier such wish. Where the lobby knows a user of that name who sits
    /// at a table, the table of one of them is joined at once.
    pub fn follow_user(&mut self, username: String) -> (join: Option<TableJoin>)
        ensures
            old(self)@.follow_user_outcome(username@, final(self)@, join),
            final(self)@.wf(),
    {
        self.view_wf();
        proof {
            use_type_invariant(&*self);
        }
        let join = match find_seat(&self.users, &username) {
            Some((user_id, table_id)) => {
                assert(self@.users.contains_key(user_id) && StateView::seated_as(
                    self@.users[user_id],
                    username@,
                ));
                Some(TableJoin { table_id })
            },
            None => {
                assert forall|id: UserID| self@.users.contains_key(id) implies !StateView::seated_as(
                    #[trigger] self@.users[id],
                    username@,
                ) by {
                    assert(self.users@.contains_key(id.0));
                }
                None
            },
        };
        self.follow_user = Some(username);
        join
    }

    /// Holds a table against the wish to join one: a table of the wanted name
    /// is joined, and the wish is dropped.
    pub fn check_join_table(&mut self, table: &Table) -> (join: Option<TableJoin>)
        ensures
            (final(self)@, join) == old(self)@.check_join_table(table@),
            final(self)@.wf(),
    {
        self.view_wf();
        proof {
            use_type_invariant(&*self);
        }
        let wanted = match &self.join_table {
            Some(name) => *name == table.name,
            None => false,
        };
        if wanted {
            self.join_table = None;
            Some(TableJoin { table_id: table.id })
        } else {
            None
        }
    }

    /// Holds a user against the wish to follow one: the table of the followed
    /// user is joined where they sit at one. The wish stays.
    pub fn check_follow_user(&self, user: &User) -> (join: Option<TableJoin>)
        ensures
            join == self@.check_follow_user(user@),
    {
        let followed = match &self.follow_user {
            Some(name) => *name == user.name,
            None => false,
        };
        match user.table_id {
            Some(table_id) if followed => Some(TableJoin { table_id }),
            _ => None,
        }
    }

    /// The command that starts the game at the session's table. None where
    /// the session sits at no table.
    pub fn start(&self) -> (start: Option<TableStart>)
        ensures
            start == self@.start(),
    {
        match self.current_table {
            Some(table_id) => Some(TableStart { table_id }),
            None => None,
        }
    }

    /// Carries out a request of the owner of the session.
    pub fn call(&mut self, call: Call) -> (action: Option<Action>)
        ensures
            old(self)@.call_outcome(call@, final(self)@, option_view(action)),
            final(self)@.wf(),
    {
        self.view_wf();
        match call {
            Call::JoinTable(name) => match self.join_table(name) {
                Some(join) => Some(Action::Join(join)),
                None => None,
            },
            Call::FollowUser(name) => match self.follow_user(name) {
                Some(join) => Some(Action::Join(join)),
                None => None,
            },
            Call::Start => match self.start() {
                Some(start) => Some(Action::Start(start)),
                None => None,
            },
        }
    }

    /// What a chat message asks for: where it is addressed to the session and
    /// begins with the command trigger, it goes to the parser of chat
    /// commands.
    pub fn chat(&self, chat: Chat) -> (actions: Vec<Action>)
        ensures
            views(actions@) == self@.chat(chat@),
    {
        let mut actions: Vec<Action> = Vec::new();
        if chat.recipient == self.username && starts_with_char(
            chat.msg.as_str(),
            COMMAND_TRIGGER,
        ) {
            actions.push(Action::Chat { who: chat.who, msg: chat.msg });
        }
        assert(views(actions@) =~= self@.chat(chat@));
        actions
    }

    /// Stores the users of a list one after the other.
    pub fn insert_users(&mut self, users: Vec<User>) -> (actions: Vec<Action>)
        ensures
            (final(self)@, views(actions@)) == old(self)@.insert_users(views(users@)),
            final(self)@.wf(),
    {
        self.view_wf();
        let ghost all = views(users@);
        let mut actions: Vec<Action> = Vec::new();
        assert(views(actions@) =~= Seq::empty());
        assert(all.take(0) =~= Seq::empty());
        for user in it: users
            invariant
                it.seq() == users@,
                all == views(users@),
                self@.wf(),
                (self@, views(actions@)) == old(self)@.insert_users(all.take(it.index() as int)),
        {
            proof {
                let done = all.take(it.index() + 1);
                assert(done.drop_last() =~= all.take(it.index() as int));
                assert(done.last() == user@);
            }
            let join = self.insert_user(user);
            push_join(&mut actions, join);
        }
        assert(all.take(all.len() as int) =~= all);
        actions
    }

    /// Stores the tables of a list one after the other.
    pub fn insert_tables(&mut self, tables: Vec<Table>) -> (actions: Vec<Action>)
        ensures
            (final(self)@, views(actions@)) == old(self)@.insert_tables(views(tables@)),
            final(self)@.wf(),
    {
        self.view_wf();
        let ghost all = views(tables@);
        let mut actions: Vec<Action> = Vec::new();
        assert(views(actions@) =~= Seq::empty());
        assert(all.take(0) =~= Seq::empty());
        for table in it: tables
            invariant
                it.seq() == tables@,
                all == views(tables@),
                self@.wf(),
                (self@, views(actions@)) == old(self)@.insert_tables(all.take(it.index() as int)),
        {
            proof {
                let done = all.take(it.index() + 1);
                assert(done.drop_last() =~= all.take(it.index() as int));
                assert(done.last() == table@);
            }
            let join = self.insert_table(table);
            push_join(&mut actions, join);
        }
        assert(all.take(all.len() as int) =~= all);
        actions
    }

    /// Reacts to a command of the server.
    pub fn react(&mut self, command: ServerCommand) -> (done: Result<Vec<Action>, SessionError>)
        ensures
            step_matches(final(self)@, done, old(self)@.react(command@)),
            final(self)@.wf(),
    {
        self.view_wf();
        let mut actions: Vec<Action> = Vec::new();
        assert(views(actions@) =~= Seq::empty());
        match command {
            ServerCommand::Warning(warning) => {
                actions.push(Action::Warned(warning.warning));
                assert(views(actions@) =~= seq![ActionView::Warned(warning@)]);
            },
            ServerCommand::Error(error) => {
                return Err(SessionError::Server(error.error));
            },
            ServerCommand::Welcome(_) => {},
            ServerCommand::Name(_) => {},
            ServerCommand::User(user) => {
                let join = self.insert_user(user);
                push_join(&mut actions, join);
            },
            ServerCommand::UserList(users) => {
                actions = self.insert_users(users.0);
            },
            ServerCommand::UserLeft(left) => {
                if !self.remove_user(left.user_id) {
                    actions.push(Action::UnknownUser(left.user_id));
                    assert(views(actions@) =~= seq![ActionView::UnknownUser(left.user_id)]);
                }
            },
            ServerCommand::Table(table) => {
                let join = self.insert_table(table);
                push_join(&mut actions, join);
            },
            ServerCommand::TableList(tables) => {
                actions = self.insert_tables(tables.0);
            },
            ServerCommand::TableGone(gone) => {
                self.remove_table(gone.table_id);
            },
            ServerCommand::Chat(chat) => {
                actions = self.chat(chat);
            },
            ServerCommand::Joined(joined) => {
                self.set_current_table(Some(joined.table_id));
            },
            ServerCommand::Left(_) => {
                self.set_current_table(None);
            },
        }
        Ok(actions)
    }

    /// Reacts to a line of text from the server.
    pub fn on_text(&mut self, text: String) -> (done: Result<Vec<Action>, SessionError>)
        ensures
            step_matches(final(self)@, done, old(self)@.on_text(text@)),
            final(self)@.wf(),
    {
        self.view_wf();
        match deserialize_command_from_str(text.as_str()) {
            Ok(command) => self.react(command),
            Err(DeserializeCommandError::Custom(name)) => {
                let mut actions: Vec<Action> = Vec::new();
                actions.push(Action::Unhandled(name));
                assert(views(actions@) =~= seq![ActionView::Unhandled(name@)]);
                Ok(actions)
            },
            Err(e) => Err(SessionError::Frame(e)),
        }
    }

    /// A binary message from the server ends the session.
    pub fn on_binary(&self, _bytes: Vec<u8>) -> (done: Result<(), SessionError>)
        ensures
            done matches Err(e) && e@ == SessionFault::Binary,
    {
        Err(SessionError::Binary)
    }
}

} // verus!
