//! The commands of the server that a session reacts to, and how a frame is
//! read as one of them.

use vstd::prelude::*;
use vstd::string::*;
use crate::command::deserialize::{decoded, DeserializeCommandError, DeserializeCommandFault};
use crate::command::payload::PayloadValue;
use crate::command::server::{
    lemma_names, Chat, ChatView, Error, Joined, Left, Name, Table, TableGone, TableList, TableView,
    User, UserLeft, UserList, UserView, Warning, Welcome, WelcomeView,
};
use crate::command::{Command, Parse, SessionError, SessionFault};

verus! {

/// A command of the server that a session reacts to.
#[derive(Debug, Clone, PartialEq, Eq)]
pub enum ServerCommand {
    // Server messages
    Warning(Warning),
    Error(Error),
    // General information
    Welcome(Welcome),
    Name(Name),
    // Users
    User(User),
    UserList(UserList),
    UserLeft(UserLeft),
    // Tables
    Table(Table),
    TableList(TableList),
    TableGone(TableGone),
    // Chat
    Chat(Chat),
    // Actions on tables
    Joined(Joined),
    Left(Left),
}

/// The mathematical value of a [`ServerCommand`].
pub enum ServerCommandView {
    Warning(Seq<char>),
    Error(Seq<char>),
    Welcome(WelcomeView),
    Name(Seq<char>),
    User(UserView),
    UserList(Seq<UserView>),
    UserLeft(UserLeft),
    Table(TableView),
    TableList(Seq<TableView>),
    TableGone(TableGone),
    Chat(ChatView),
    Joined(Joined),
    Left(Left),
}

impl View for ServerCommand {
    type V = ServerCommandView;

    open spec fn view(&self) -> ServerCommandView {
        match self {
            ServerCommand::Warning(c) => ServerCommandView::Warning(c@),
            ServerCommand::Error(c) => ServerCommandView::Error(c@),
            ServerCommand::Welcome(c) => ServerCommandView::Welcome(c@),
            ServerCommand::Name(c) => ServerCommandView::Name(c@),
            ServerCommand::User(c) => ServerCommandView::User(c@),
            ServerCommand::UserList(c) => ServerCommandView::UserList(c@),
            ServerCommand::UserLeft(c) => ServerCommandView::UserLeft(c@),
            ServerCommand::Table(c) => ServerCommandView::Table(c@),
            ServerCommand::TableList(c) => ServerCommandView::TableList(c@),
            ServerCommand::TableGone(c) => ServerCommandView::TableGone(c@),
            ServerCommand::Chat(c) => ServerCommandView::Chat(c@),
            ServerCommand::Joined(c) => ServerCommandView::Joined(c@),
            ServerCommand::Left(c) => ServerCommandView::Left(c@),
        }
    }
}

/// Whether a session reacts to the command of this name.
pub open spec fn is_registered(name: Seq<char>) -> bool {
    ||| name == Warning::NAME@
    ||| name == Error::NAME@
    ||| name == Welcome::NAME@
    ||| name == Name::NAME@
    ||| name == User::NAME@
    ||| name == UserList::NAME@
    ||| name == UserLeft::NAME@
    ||| name == Table::NAME@
    ||| name == TableList::NAME@
    ||| name == TableGone::NAME@
    ||| name == Chat::NAME@
    ||| name == Joined::NAME@
    ||| name == Left::NAME@
}

/// What the payload text `data` holds, read as the command `T` and made a
/// server command by `wrap`.
pub open spec fn read_as<T: Command>(
    data: Seq<char>,
    wrap: spec_fn(T::V) -> ServerCommandView,
) -> Result<ServerCommandView, DeserializeCommandFault> {
    match decoded::<T>(data) {
        Ok(command) => Ok(wrap(command)),
        Err(fault) => Err(DeserializeCommandFault::DeserializeDataError(fault)),
    }
}

/// The server command that a frame with this name and this payload text
/// carries. The registered commands are tried in order, and the first of the
/// frame's name reads the payload; a name that is not registered is reported
/// as such.
pub open spec fn decode(name: Seq<char>, data: Seq<char>) -> Result<
    ServerCommandView,
    DeserializeCommandFault,
> {
    if name == Warning::NAME@ {
        read_as::<Warning>(data, |c| ServerCommandView::Warning(c))
    } else if name == Error::NAME@ {
        read_as::<Error>(data, |c| ServerCommandView::Error(c))
    } else if name == Welcome::NAME@ {
        read_as::<Welcome>(data, |c| ServerCommandView::Welcome(c))
    } else if name == Name::NAME@ {
        read_as::<Name>(data, |c| ServerCommandView::Name(c))
    } else if name == User::NAME@ {
        read_as::<User>(data, |c| ServerCommandView::User(c))
    } else if name == UserList::NAME@ {
        read_as::<UserList>(data, |c| ServerCommandView::UserList(c))
    } else if name == UserLeft::NAME@ {
        read_as::<UserLeft>(data, |c| ServerCommandView::UserLeft(c))
    } else if name == Table::NAME@ {
        read_as::<Table>(data, |c| ServerCommandView::Table(c))
    } else if name == TableList::NAME@ {
        read_as::<TableList>(data, |c| ServerCommandView::TableList(c))
    } else if name == TableGone::NAME@ {
        read_as::<TableGone>(data, |c| ServerCommandView::TableGone(c))
    } else if name == Chat::NAME@ {
        read_as::<Chat>(data, |c| ServerCommandView::Chat(c))
    } else if name == Joined::NAME@ {
        read_as::<Joined>(data, |c| ServerCommandView::Joined(c))
    } else if name == Left::NAME@ {
        read_as::<Left>(data, |c| ServerCommandView::Left(c))
    } else {
        Err(DeserializeCommandFault::Custom(name))
    }
}

/// Whether `done` reports that no registered command carries `name`.
pub open spec fn unmatched(name: Seq<char>, done: Result<ServerCommand, SessionError>) -> bool {
    done matches Err(e) && e@ == SessionFault::Frame(DeserializeCommandFault::Custom(name))
}

impl ServerCommand {
    /// Reads the frame with this name and this payload text.
    pub fn decode(name: &str, data: &str) -> (read: Result<ServerCommand, DeserializeCommandError>)
        ensures
            match read {
                Ok(command) => decode(name@, data@) == Ok::<
                    ServerCommandView,
                    DeserializeCommandFault,
                >(command@),
                Err(e) => decode(name@, data@) == Err::<
                    ServerCommandView,
                    DeserializeCommandFault,
                >(e@),
            },
    {
        let parse: Parse<ServerCommand> = Parse::Continue(name, data);
        let parse = parse.handle_command(
            |c: Warning| -> (made: ServerCommand) ensures made == ServerCommand::Warning(c) { ServerCommand::Warning(c) },
        );
        let parse = parse.handle_command(
            |c: Error| -> (made: ServerCommand) ensures made == ServerCommand::Error(c) { ServerCommand::Error(c) },
        );
        let parse = parse.handle_command(
            |c: Welcome| -> (made: ServerCommand) ensures made == ServerCommand::Welcome(c) { ServerCommand::Welcome(c) },
        );
        let parse = parse.handle_command(
            |c: Name| -> (made: ServerCommand) ensures made == ServerCommand::Name(c) { ServerCommand::Name(c) },
        );
        let parse = parse.handle_command(
            |c: User| -> (made: ServerCommand) ensures made == ServerCommand::User(c) { ServerCommand::User(c) },
        );
        let parse = parse.handle_command(
            |c: UserList| -> (made: ServerCommand) ensures made == ServerCommand::UserList(c) { ServerCommand::UserList(c) },
        );
        let parse = parse.handle_command(
            |c: UserLeft| -> (made: ServerCommand) ensures made == ServerCommand::UserLeft(c) { ServerCommand::UserLeft(c) },
        );
        let parse = parse.handle_command(
            |c: Table| -> (made: ServerCommand) ensures made == ServerCommand::Table(c) { ServerCommand::Table(c) },
        );
        let parse = parse.handle_command(
            |c: TableList| -> (made: ServerCommand) ensures made == ServerCommand::TableList(c) { ServerCommand::TableList(c) },
        );
        let parse = parse.handle_command(
            |c: TableGone| -> (made: ServerCommand) ensures made == ServerCommand::TableGone(c) { ServerCommand::TableGone(c) },
        );
        let parse = parse.handle_command(
            |c: Chat| -> (made: ServerCommand) ensures made == ServerCommand::Chat(c) { ServerCommand::Chat(c) },
        );
        let parse = parse.handle_command(
            |c: Joined| -> (made: ServerCommand) ensures made == ServerCommand::Joined(c) { ServerCommand::Joined(c) },
        );
        let parse = parse.handle_command(
            |c: Left| -> (made: ServerCommand) ensures made == ServerCommand::Left(c) { ServerCommand::Left(c) },
        );
        let done = parse.unhandled(
            |name: &str, _data: &str| -> (done: Result<ServerCommand, SessionError>) ensures unmatched(name@, done) { Err(SessionError::Frame(DeserializeCommandError::Custom(String::from_str(name)))) },
        );
        match done {
            Ok(command) => Ok(command),
            Err(SessionError::Frame(e)) => Err(e),
            Err(_) => {
                proof {
                    assert(false);
                }
                vstd::pervasive::unreached()
            },
        }
    }
}

impl ServerCommandView {
    /// The name that leads the frame of the command.
    pub open spec fn name(self) -> Seq<char> {
        match self {
            ServerCommandView::Warning(_) => Warning::NAME@,
            ServerCommandView::Error(_) => Error::NAME@,
            ServerCommandView::Welcome(_) => Welcome::NAME@,
            ServerCommandView::Name(_) => Name::NAME@,
            ServerCommandView::User(_) => User::NAME@,
            ServerCommandView::UserList(_) => UserList::NAME@,
            ServerCommandView::UserLeft(_) => UserLeft::NAME@,
            ServerCommandView::Table(_) => Table::NAME@,
            ServerCommandView::TableList(_) => TableList::NAME@,
            ServerCommandView::TableGone(_) => TableGone::NAME@,
            ServerCommandView::Chat(_) => Chat::NAME@,
            ServerCommandView::Joined(_) => Joined::NAME@,
            ServerCommandView::Left(_) => Left::NAME@,
        }
    }

    /// The payload that carries the command.
    pub open spec fn payload(self) -> PayloadValue {
        match self {
            ServerCommandView::Warning(c) => Warning::payload_of(c),
            ServerCommandView::Error(c) => Error::payload_of(c),
            ServerCommandView::Welcome(c) => Welcome::payload_of(c),
            ServerCommandView::Name(c) => Name::payload_of(c),
            ServerCommandView::User(c) => User::payload_of(c),
            ServerCommandView::UserList(c) => UserList::payload_of(c),
            ServerCommandView::UserLeft(c) => UserLeft::payload_of(c),
            ServerCommandView::Table(c) => Table::payload_of(c),
            ServerCommandView::TableList(c) => TableList::payload_of(c),
            ServerCommandView::TableGone(c) => TableGone::payload_of(c),
            ServerCommandView::Chat(c) => Chat::payload_of(c),
            ServerCommandView::Joined(c) => Joined::payload_of(c),
            ServerCommandView::Left(c) => Left::payload_of(c),
        }
    }
}

/// The names of the registered commands, letter by letter: what tells each
/// from the others.
proof fn lemma_names_spelled()
    ensures
        Warning::NAME@.len() == 7 && Warning::NAME@[1] == 'a',
        Welcome::NAME@.len() == 7 && Welcome::NAME@[1] == 'e',
        Error::NAME@.len() == 5 && Error::NAME@[0] == 'e',
        Table::NAME@.len() == 5 && Table::NAME@[0] == 't',
        Name::NAME@.len() == 4 && Name::NAME@[0] == 'n',
        User::NAME@.len() == 4 && User::NAME@[0] == 'u',
        Chat::NAME@.len() == 4 && Chat::NAME@[0] == 'c',
        Left::NAME@.len() == 4 && Left::NAME@[0] == 'l',
        UserList::NAME@.len() == 8 && UserList::NAME@[5] == 'i',
        UserLeft::NAME@.len() == 8 && UserLeft::NAME@[5] == 'e',
        TableList::NAME@.len() == 9 && TableList::NAME@[5] == 'L',
        TableGone::NAME@.len() == 9 && TableGone::NAME@[5] == 'G',
        Joined::NAME@.len() == 6,
        forall|a: ServerCommandView| !(#[trigger] a.name()).contains(' '),
{
    lemma_names();
    reveal_strlit("warning");
    reveal_strlit("error");
    reveal_strlit("welcome");
    reveal_strlit("name");
    reveal_strlit("user");
    reveal_strlit("userList");
    reveal_strlit("userLeft");
    reveal_strlit("table");
    reveal_strlit("tableList");
    reveal_strlit("tableGone");
    reveal_strlit("chat");
    reveal_strlit("joined");
    reveal_strlit("left");
    assert("warning"@[1] == 'a' && "welcome"@[1] == 'e');
    assert("error"@[0] == 'e' && "table"@[0] == 't');
    assert("name"@[0] == 'n' && "user"@[0] == 'u' && "chat"@[0] == 'c' && "left"@[0] == 'l');
    assert("userList"@[5] == 'i' && "userLeft"@[5] == 'e');
    assert("tableList"@[5] == 'L' && "tableGone"@[5] == 'G');
    assert("warning"@.len() == 7 && "welcome"@.len() == 7 && "error"@.len() == 5 && "table"@.len()
        == 5);
    assert("name"@.len() == 4 && "user"@.len() == 4 && "chat"@.len() == 4 && "left"@.len() == 4);
    assert("userList"@.len() == 8 && "userLeft"@.len() == 8 && "tableList"@.len() == 9
        && "tableGone"@.len() == 9 && "joined"@.len() == 6);
}

/// The names of the registered commands differ from one another, and none of
/// them holds a space.
pub proof fn lemma_registered_names()
    ensures
        forall|a: ServerCommandView, b: ServerCommandView|
            #![trigger a.name(), b.name()]
            a.name() == b.name() ==> same_kind(a, b),
        forall|a: ServerCommandView| !(#[trigger] a.name()).contains(' '),
{
    lemma_names_spelled();
}

/// Whether two commands are of the same kind, whatever their fields.
pub open spec fn same_kind(a: ServerCommandView, b: ServerCommandView) -> bool {
    match a {
        ServerCommandView::Warning(_) => b is Warning,
        ServerCommandView::Error(_) => b is Error,
        ServerCommandView::Welcome(_) => b is Welcome,
        ServerCommandView::Name(_) => b is Name,
        ServerCommandView::User(_) => b is User,
        ServerCommandView::UserList(_) => b is UserList,
        ServerCommandView::UserLeft(_) => b is UserLeft,
        ServerCommandView::Table(_) => b is Table,
        ServerCommandView::TableList(_) => b is TableList,
        ServerCommandView::TableGone(_) => b is TableGone,
        ServerCommandView::Chat(_) => b is Chat,
        ServerCommandView::Joined(_) => b is Joined,
        ServerCommandView::Left(_) => b is Left,
    }
}

/// A command comes back from its frame: where the payload text of a frame is
/// read as the payload of a command, the frame under the command's name is
/// read as that command.
pub proof fn lemma_decode_reads_back(command: ServerCommandView, data: Seq<char>)
    requires
        PayloadValue::read(data) == Some(command.payload()),
    ensures
        is_registered(command.name()),
        decode(command.name(), data) == Ok::<ServerCommandView, DeserializeCommandFault>(command),
{
    lemma_names_spelled();
    match command {
        ServerCommandView::Warning(c) => {
            Warning::lemma_round_trip(c);
        },
        ServerCommandView::Error(c) => {
            Error::lemma_round_trip(c);
        },
        ServerCommandView::Welcome(c) => {
            Welcome::lemma_round_trip(c);
        },
        ServerCommandView::Name(c) => {
            Name::lemma_round_trip(c);
        },
        ServerCommandView::User(c) => {
            User::lemma_round_trip(c);
        },
        ServerCommandView::UserList(c) => {
            UserList::lemma_round_trip(c);
        },
        ServerCommandView::UserLeft(c) => {
            UserLeft::lemma_round_trip(c);
        },
        ServerCommandView::Table(c) => {
            Table::lemma_round_trip(c);
        },
        ServerCommandView::TableList(c) => {
            TableList::lemma_round_trip(c);
        },
        ServerCommandView::TableGone(c) => {
            TableGone::lemma_round_trip(c);
        },
        ServerCommandView::Chat(c) => {
            Chat::lemma_round_trip(c);
        },
        ServerCommandView::Joined(c) => {
            Joined::lemma_round_trip(c);
        },
        ServerCommandView::Left(c) => {
            Left::lemma_round_trip(c);
        },
    }
}

} // verus!
