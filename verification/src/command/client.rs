//! Commands that the client sends.

use vstd::prelude::*;
use vstd::string::*;
use crate::command::payload::{
    empty_object_payload, empty_object_to_payload, is_object_payload, lemma_empty_object,
    lemma_table_id_round_trip, object_from_payload, table_id_from_payload, table_id_of_payload,
    table_id_payload, table_id_to_payload, Payload, PayloadValue,
};
use crate::command::{Command, TableID};
use crate::json::{lemma_find_member_absent, lemma_find_member_distinct, Json, JsonValue};

verus! {

// Tables

/// Asks the server to open a table; the server seats the session at it.
#[derive(Debug, Clone, PartialEq, Eq)]
pub struct TableCreate {
    /// The name of the table. Where there is none the member is left out of
    /// the frame, and the server picks a name.
    pub name: Option<String>,
    pub max_players: i32,
}

/// The mathematical value of a [`TableCreate`].
pub struct TableCreateView {
    pub name: Option<Seq<char>>,
    pub max_players: i32,
}

impl View for TableCreate {
    type V = TableCreateView;

    open spec fn view(&self) -> TableCreateView {
        TableCreateView {
            name: match self.name {
                Some(name) => Some(name@),
                None => None,
            },
            max_players: self.max_players,
        }
    }
}

impl Default for TableCreate {
    /// A table for six players, without a name.
    fn default() -> (table: TableCreate)
        ensures
            table@ == (TableCreateView { name: None, max_players: 6 }),
    {
        TableCreate { name: None, max_players: 6 }
    }
}

impl Command for TableCreate {
    const NAME: &'static str = "tableCreate";

    open spec fn payload_of(command: TableCreateView) -> PayloadValue {
        let max_players = ("maxPlayers"@, JsonValue::Number(Some(command.max_players as int)));
        match command.name {
            Some(name) => PayloadValue::Document(
                JsonValue::Object(seq![("name"@, JsonValue::Text(name)), max_players]),
            ),
            None => PayloadValue::Document(JsonValue::Object(seq![max_players])),
        }
    }

    open spec fn command_of(payload: PayloadValue) -> Option<TableCreateView> {
        match payload {
            PayloadValue::Document(document) => match (
                document.optional_text_member("name"@),
                document.int_member("maxPlayers"@, i32::MIN as int, i32::MAX as int),
            ) {
                (Some(name), Some(max_players)) => Some(
                    TableCreateView { name, max_players: max_players as i32 },
                ),
                _ => None,
            },
            PayloadValue::Empty => None,
        }
    }

    proof fn lemma_round_trip(command: TableCreateView) {
        reveal_strlit("name");
        reveal_strlit("maxPlayers");
        reveal_with_fuel(JsonValue::writable, 2);
        let members = Self::payload_of(command)->Document_0->Object_0;
        assert("name"@.len() == 4 && "maxPlayers"@.len() == 10);
        if command.name is Some {
            assert(members[0].0 == "name"@ && members[1].0 == "maxPlayers"@);
            lemma_find_member_distinct(members, 0);
            lemma_find_member_distinct(members, 1);
        } else {
            assert(members[0].0 == "maxPlayers"@);
            lemma_find_member_distinct(members, 0);
            lemma_find_member_absent(members, "name"@);
        }
    }

    fn to_payload(&self) -> Payload {
        let mut members: Vec<(String, Json)> = Vec::new();
        match &self.name {
            Some(name) => {
                members.push(Json::entry("name", Json::from_text(name.as_str())));
            },
            None => {},
        }
        members.push(Json::entry("maxPlayers", Json::from_i32(self.max_players)));
        let document = Json::object(members);
        assert(document@->Object_0 =~= Self::payload_of(self@)->Document_0->Object_0);
        Payload::Document(document)
    }

    fn from_payload(payload: &Payload) -> Option<TableCreate> {
        match payload {
            Payload::Document(document) => match (
                document.optional_text_member("name"),
                document.i32_member("maxPlayers"),
            ) {
                (Some(name), Some(max_players)) => Some(TableCreate { name, max_players }),
                _ => None,
            },
            Payload::Empty => None,
        }
    }
}

/// Asks for a seat at a table.
#[derive(Debug, Clone, Copy, PartialEq, Eq)]
pub struct TableJoin {
    pub table_id: TableID,
}

impl View for TableJoin {
    type V = TableJoin;

    open spec fn view(&self) -> TableJoin {
        *self
    }
}

impl Command for TableJoin {
    const NAME: &'static str = "tableJoin";

    open spec fn payload_of(command: TableJoin) -> PayloadValue {
        table_id_payload(command.table_id)
    }

    open spec fn command_of(payload: PayloadValue) -> Option<TableJoin> {
        match table_id_of_payload(payload) {
            Some(table_id) => Some(TableJoin { table_id }),
            None => None,
        }
    }

    proof fn lemma_round_trip(command: TableJoin) {
        lemma_table_id_round_trip(command.table_id);
    }

    fn to_payload(&self) -> Payload {
        table_id_to_payload(self.table_id)
    }

    fn from_payload(payload: &Payload) -> Option<TableJoin> {
        match table_id_from_payload(payload) {
            Some(table_id) => Some(TableJoin { table_id }),
            None => None,
        }
    }
}

/// Gives up the seat at a table.
#[derive(Debug, Clone, Copy, PartialEq, Eq)]
pub struct TableLeave {
    pub table_id: TableID,
}

impl View for TableLeave {
    type V = TableLeave;

    open spec fn view(&self) -> TableLeave {
        *self
    }
}

impl Command for TableLeave {
    const NAME: &'static str = "tableLeave";

    open spec fn payload_of(command: TableLeave) -> PayloadValue {
        table_id_payload(command.table_id)
    }

    open spec fn command_of(payload: PayloadValue) -> Option<TableLeave> {
        match table_id_of_payload(payload) {
            Some(table_id) => Some(TableLeave { table_id }),
            None => None,
        }
    }

    proof fn lemma_round_trip(command: TableLeave) {
        lemma_table_id_round_trip(command.table_id);
    }

    fn to_payload(&self) -> Payload {
        table_id_to_payload(self.table_id)
    }

    fn from_payload(payload: &Payload) -> Option<TableLeave> {
        match table_id_from_payload(payload) {
            Some(table_id) => Some(TableLeave { table_id }),
            None => None,
        }
    }
}

/// Steps away from a table while keeping the seat.
#[derive(Debug, Clone, Copy, PartialEq, Eq)]
pub struct TableUnattend {
    pub table_id: TableID,
}

impl View for TableUnattend {
    type V = TableUnattend;

    open spec fn view(&self) -> TableUnattend {
        *self
    }
}

impl Command for TableUnattend {
    const NAME: &'static str = "tableUnattend";

    open spec fn payload_of(command: TableUnattend) -> PayloadValue {
        table_id_payload(command.table_id)
    }

    open spec fn command_of(payload: PayloadValue) -> Option<TableUnattend> {
        match table_id_of_payload(payload) {
            Some(table_id) => Some(TableUnattend { table_id }),
            None => None,
        }
    }

    proof fn lemma_round_trip(command: TableUnattend) {
        lemma_table_id_round_trip(command.table_id);
    }

    fn to_payload(&self) -> Payload {
        table_id_to_payload(self.table_id)
    }

    fn from_payload(payload: &Payload) -> Option<TableUnattend> {
        match table_id_from_payload(payload) {
            Some(table_id) => Some(TableUnattend { table_id }),
            None => None,
        }
    }
}

/// Comes back to a table.
#[derive(Debug, Clone, Copy, PartialEq, Eq)]
pub struct TableReattend {
    pub table_id: TableID,
}

impl View for TableReattend {
    type V = TableReattend;

    open spec fn view(&self) -> TableReattend {
        *self
    }
}

impl Command for TableReattend {
    const NAME: &'static str = "tableReattend";

    open spec fn payload_of(command: TableReattend) -> PayloadValue {
        table_id_payload(command.table_id)
    }

    open spec fn command_of(payload: PayloadValue) -> Option<TableReattend> {
        match table_id_of_payload(payload) {
            Some(table_id) => Some(TableReattend { table_id }),
            None => None,
        }
    }

    proof fn lemma_round_trip(command: TableReattend) {
        lemma_table_id_round_trip(command.table_id);
    }

    fn to_payload(&self) -> Payload {
        table_id_to_payload(self.table_id)
    }

    fn from_payload(payload: &Payload) -> Option<TableReattend> {
        match table_id_from_payload(payload) {
            Some(table_id) => Some(TableReattend { table_id }),
            None => None,
        }
    }
}

/// Changes the variant that a table plays.
#[derive(Debug, Clone, Copy, PartialEq, Eq)]
pub struct TableSetVariant {}

impl View for TableSetVariant {
    type V = TableSetVariant;

    open spec fn view(&self) -> TableSetVariant {
        *self
    }
}

impl Command for TableSetVariant {
    const NAME: &'static str = "tableSetVariant";

    open spec fn payload_of(command: TableSetVariant) -> PayloadValue {
        empty_object_payload()
    }

    open spec fn command_of(payload: PayloadValue) -> Option<TableSetVariant> {
        if is_object_payload(payload) {
            Some(TableSetVariant {})
        } else {
            None
        }
    }

    proof fn lemma_round_trip(command: TableSetVariant) {
        lemma_empty_object();
    }

    fn to_payload(&self) -> Payload {
        empty_object_to_payload()
    }

    fn from_payload(payload: &Payload) -> Option<TableSetVariant> {
        if object_from_payload(payload) {
            Some(TableSetVariant {})
        } else {
            None
        }
    }
}

/// Hands the lead of a table to another player.
#[derive(Debug, Clone, Copy, PartialEq, Eq)]
pub struct TableSetLeader {}

impl View for TableSetLeader {
    type V = TableSetLeader;

    open spec fn view(&self) -> TableSetLeader {
        *self
    }
}

impl Command for TableSetLeader {
    const NAME: &'static str = "tableSetLeader";

    open spec fn payload_of(command: TableSetLeader) -> PayloadValue {
        empty_object_payload()
    }

    open spec fn command_of(payload: PayloadValue) -> Option<TableSetLeader> {
        if is_object_payload(payload) {
            Some(TableSetLeader {})
        } else {
            None
        }
    }

    proof fn lemma_round_trip(command: TableSetLeader) {
        lemma_empty_object();
    }

    fn to_payload(&self) -> Payload {
        empty_object_to_payload()
    }

    fn from_payload(payload: &Payload) -> Option<TableSetLeader> {
        if object_from_payload(payload) {
            Some(TableSetLeader {})
        } else {
            None
        }
    }
}

/// Starts the game at a table.
#[derive(Debug, Clone, Copy, PartialEq, Eq)]
pub struct TableStart {
    pub table_id: TableID,
}

impl View for TableStart {
    type V = TableStart;

    open spec fn view(&self) -> TableStart {
        *self
    }
}

impl Command for TableStart {
    const NAME: &'static str = "tableStart";

    open spec fn payload_of(command: TableStart) -> PayloadValue {
        table_id_payload(command.table_id)
    }

    open spec fn command_of(payload: PayloadValue) -> Option<TableStart> {
        match table_id_of_payload(payload) {
            Some(table_id) => Some(TableStart { table_id }),
            None => None,
        }
    }

    proof fn lemma_round_trip(command: TableStart) {
        lemma_table_id_round_trip(command.table_id);
    }

    fn to_payload(&self) -> Payload {
        table_id_to_payload(self.table_id)
    }

    fn from_payload(payload: &Payload) -> Option<TableStart> {
        match table_id_from_payload(payload) {
            Some(table_id) => Some(TableStart { table_id }),
            None => None,
        }
    }
}

/// Votes to end the game at a table.
#[derive(Debug, Clone, Copy, PartialEq, Eq)]
pub struct TableVoteForTermination {}

impl View for TableVoteForTermination {
    type V = TableVoteForTermination;

    open spec fn view(&self) -> TableVoteForTermination {
        *self
    }
}

impl Command for TableVoteForTermination {
    const NAME: &'static str = "tableVoteForTermination";

    open spec fn payload_of(command: TableVoteForTermination) -> PayloadValue {
        empty_object_payload()
    }

    open spec fn command_of(payload: PayloadValue) -> Option<TableVoteForTermination> {
        if is_object_payload(payload) {
            Some(TableVoteForTermination {})
        } else {
            None
        }
    }

    proof fn lemma_round_trip(command: TableVoteForTermination) {
        lemma_empty_object();
    }

    fn to_payload(&self) -> Payload {
        empty_object_to_payload()
    }

    fn from_payload(payload: &Payload) -> Option<TableVoteForTermination> {
        if object_from_payload(payload) {
            Some(TableVoteForTermination {})
        } else {
            None
        }
    }
}

/// Ends the game at a table.
#[derive(Debug, Clone, Copy, PartialEq, Eq)]
pub struct TableTerminate {}

impl View for TableTerminate {
    type V = TableTerminate;

    open spec fn view(&self) -> TableTerminate {
        *self
    }
}

impl Command for TableTerminate {
    const NAME: &'static str = "tableTerminate";

    open spec fn payload_of(command: TableTerminate) -> PayloadValue {
        empty_object_payload()
    }

    open spec fn command_of(payload: PayloadValue) -> Option<TableTerminate> {
        if is_object_payload(payload) {
            Some(TableTerminate {})
        } else {
            None
        }
    }

    proof fn lemma_round_trip(command: TableTerminate) {
        lemma_empty_object();
    }

    fn to_payload(&self) -> Payload {
        empty_object_to_payload()
    }

    fn from_payload(payload: &Payload) -> Option<TableTerminate> {
        if object_from_payload(payload) {
            Some(TableTerminate {})
        } else {
            None
        }
    }
}

/// Plays again at a table.
#[derive(Debug, Clone, Copy, PartialEq, Eq)]
pub struct TableRestart {}

impl View for TableRestart {
    type V = TableRestart;

    open spec fn view(&self) -> TableRestart {
        *self
    }
}

impl Command for TableRestart {
    const NAME: &'static str = "tableRestart";

    open spec fn payload_of(command: TableRestart) -> PayloadValue {
        empty_object_payload()
    }

    open spec fn command_of(payload: PayloadValue) -> Option<TableRestart> {
        if is_object_payload(payload) {
            Some(TableRestart {})
        } else {
            None
        }
    }

    proof fn lemma_round_trip(command: TableRestart) {
        lemma_empty_object();
    }

    fn to_payload(&self) -> Payload {
        empty_object_to_payload()
    }

    fn from_payload(payload: &Payload) -> Option<TableRestart> {
        if object_from_payload(payload) {
            Some(TableRestart {})
        } else {
            None
        }
    }
}

/// Changes the settings of a table.
#[derive(Debug, Clone, Copy, PartialEq, Eq)]
pub struct TableUpdate {}

impl View for TableUpdate {
    type V = TableUpdate;

    open spec fn view(&self) -> TableUpdate {
        *self
    }
}

impl Command for TableUpdate {
    const NAME: &'static str = "tableUpdate";

    open spec fn payload_of(command: TableUpdate) -> PayloadValue {
        empty_object_payload()
    }

    open spec fn command_of(payload: PayloadValue) -> Option<TableUpdate> {
        if is_object_payload(payload) {
            Some(TableUpdate {})
        } else {
            None
        }
    }

    proof fn lemma_round_trip(command: TableUpdate) {
        lemma_empty_object();
    }

    fn to_payload(&self) -> Payload {
        empty_object_to_payload()
    }

    fn from_payload(payload: &Payload) -> Option<TableUpdate> {
        if object_from_payload(payload) {
            Some(TableUpdate {})
        } else {
            None
        }
    }
}

/// Suggests a variant to the leader of a table.
#[derive(Debug, Clone, Copy, PartialEq, Eq)]
pub struct TableSuggest {}

impl View for TableSuggest {
    type V = TableSuggest;

    open spec fn view(&self) -> TableSuggest {
        *self
    }
}

impl Command for TableSuggest {
    const NAME: &'static str = "tableSuggest";

    open spec fn payload_of(command: TableSuggest) -> PayloadValue {
        empty_object_payload()
    }

    open spec fn command_of(payload: PayloadValue) -> Option<TableSuggest> {
        if is_object_payload(payload) {
            Some(TableSuggest {})
        } else {
            None
        }
    }

    proof fn lemma_round_trip(command: TableSuggest) {
        lemma_empty_object();
    }

    fn to_payload(&self) -> Payload {
        empty_object_to_payload()
    }

    fn from_payload(payload: &Payload) -> Option<TableSuggest> {
        if object_from_payload(payload) {
            Some(TableSuggest {})
        } else {
            None
        }
    }
}

// Chat

/// Says something in a room.
#[derive(Debug, Clone, Copy, PartialEq, Eq)]
pub struct Chat {}

impl View for Chat {
    type V = Chat;

    open spec fn view(&self) -> Chat {
        *self
    }
}

impl Command for Chat {
    const NAME: &'static str = "chat";

    open spec fn payload_of(command: Chat) -> PayloadValue {
        empty_object_payload()
    }

    open spec fn command_of(payload: PayloadValue) -> Option<Chat> {
        if is_object_payload(payload) {
            Some(Chat {})
        } else {
            None
        }
    }

    proof fn lemma_round_trip(command: Chat) {
        lemma_empty_object();
    }

    fn to_payload(&self) -> Payload {
        empty_object_to_payload()
    }

    fn from_payload(payload: &Payload) -> Option<Chat> {
        if object_from_payload(payload) {
            Some(Chat {})
        } else {
            None
        }
    }
}

/// Says something to one user.
#[derive(Debug, Clone, Copy, PartialEq, Eq)]
pub struct ChatPM {}

impl View for ChatPM {
    type V = ChatPM;

    open spec fn view(&self) -> ChatPM {
        *self
    }
}

impl Command for ChatPM {
    const NAME: &'static str = "chatPM";

    open spec fn payload_of(command: ChatPM) -> PayloadValue {
        empty_object_payload()
    }

    open spec fn command_of(payload: PayloadValue) -> Option<ChatPM> {
        if is_object_payload(payload) {
            Some(ChatPM {})
        } else {
            None
        }
    }

    proof fn lemma_round_trip(command: ChatPM) {
        lemma_empty_object();
    }

    fn to_payload(&self) -> Payload {
        empty_object_to_payload()
    }

    fn from_payload(payload: &Payload) -> Option<ChatPM> {
        if object_from_payload(payload) {
            Some(ChatPM {})
        } else {
            None
        }
    }
}

/// Marks the chat of a table as read.
#[derive(Debug, Clone, Copy, PartialEq, Eq)]
pub struct ChatRead {}

impl View for ChatRead {
    type V = ChatRead;

    open spec fn view(&self) -> ChatRead {
        *self
    }
}

impl Command for ChatRead {
    const NAME: &'static str = "chatRead";

    open spec fn payload_of(command: ChatRead) -> PayloadValue {
        empty_object_payload()
    }

    open spec fn command_of(payload: PayloadValue) -> Option<ChatRead> {
        if is_object_payload(payload) {
            Some(ChatRead {})
        } else {
            None
        }
    }

    proof fn lemma_round_trip(command: ChatRead) {
        lemma_empty_object();
    }

    fn to_payload(&self) -> Payload {
        empty_object_to_payload()
    }

    fn from_payload(payload: &Payload) -> Option<ChatRead> {
        if object_from_payload(payload) {
            Some(ChatRead {})
        } else {
            None
        }
    }
}

// Other commands

/// Asks the server to propose a name for a table.
#[derive(Debug, Clone, Copy, PartialEq, Eq)]
pub struct GetName;

impl View for GetName {
    type V = GetName;

    open spec fn view(&self) -> GetName {
        *self
    }
}

impl Command for GetName {
    const NAME: &'static str = "getName";

    open spec fn payload_of(command: GetName) -> PayloadValue {
        PayloadValue::Empty
    }

    open spec fn command_of(payload: PayloadValue) -> Option<GetName> {
        match payload {
            PayloadValue::Empty => Some(GetName),
            PayloadValue::Document(_) => None,
        }
    }

    proof fn lemma_round_trip(command: GetName) {
    }

    fn to_payload(&self) -> Payload {
        Payload::Empty
    }

    fn from_payload(payload: &Payload) -> Option<GetName> {
        match payload {
            Payload::Empty => Some(GetName),
            Payload::Document(_) => None,
        }
    }
}

// In game

/// Makes a move in a game.
#[derive(Debug, Clone, Copy, PartialEq, Eq)]
pub struct Action {}

impl View for Action {
    type V = Action;

    open spec fn view(&self) -> Action {
        *self
    }
}

impl Command for Action {
    const NAME: &'static str = "action";

    open spec fn payload_of(command: Action) -> PayloadValue {
        empty_object_payload()
    }

    open spec fn command_of(payload: PayloadValue) -> Option<Action> {
        if is_object_payload(payload) {
            Some(Action {})
        } else {
            None
        }
    }

    proof fn lemma_round_trip(command: Action) {
        lemma_empty_object();
    }

    fn to_payload(&self) -> Payload {
        empty_object_to_payload()
    }

    fn from_payload(payload: &Payload) -> Option<Action> {
        if object_from_payload(payload) {
            Some(Action {})
        } else {
            None
        }
    }
}

/// Writes a note on a card.
#[derive(Debug, Clone, Copy, PartialEq, Eq)]
pub struct Note {}

impl View for Note {
    type V = Note;

    open spec fn view(&self) -> Note {
        *self
    }
}

impl Command for Note {
    const NAME: &'static str = "note";

    open spec fn payload_of(command: Note) -> PayloadValue {
        empty_object_payload()
    }

    open spec fn command_of(payload: PayloadValue) -> Option<Note> {
        if is_object_payload(payload) {
            Some(Note {})
        } else {
            None
        }
    }

    proof fn lemma_round_trip(command: Note) {
        lemma_empty_object();
    }

    fn to_payload(&self) -> Payload {
        empty_object_to_payload()
    }

    fn from_payload(payload: &Payload) -> Option<Note> {
        if object_from_payload(payload) {
            Some(Note {})
        } else {
            None
        }
    }
}

/// Pauses a timed game.
#[derive(Debug, Clone, Copy, PartialEq, Eq)]
pub struct Pause {}

impl View for Pause {
    type V = Pause;

    open spec fn view(&self) -> Pause {
        *self
    }
}

impl Command for Pause {
    const NAME: &'static str = "pause";

    open spec fn payload_of(command: Pause) -> PayloadValue {
        empty_object_payload()
    }

    open spec fn command_of(payload: PayloadValue) -> Option<Pause> {
        if is_object_payload(payload) {
            Some(Pause {})
        } else {
            None
        }
    }

    proof fn lemma_round_trip(command: Pause) {
        lemma_empty_object();
    }

    fn to_payload(&self) -> Payload {
        empty_object_to_payload()
    }

    fn from_payload(payload: &Payload) -> Option<Pause> {
        if object_from_payload(payload) {
            Some(Pause {})
        } else {
            None
        }
    }
}

// Names

/// The names of the client's commands, as they stand in a frame.
pub proof fn lemma_names()
    ensures
        TableCreate::NAME@ == "tableCreate"@,
        TableJoin::NAME@ == "tableJoin"@,
        TableLeave::NAME@ == "tableLeave"@,
        TableUnattend::NAME@ == "tableUnattend"@,
        TableReattend::NAME@ == "tableReattend"@,
        TableSetVariant::NAME@ == "tableSetVariant"@,
        TableSetLeader::NAME@ == "tableSetLeader"@,
        TableStart::NAME@ == "tableStart"@,
        TableVoteForTermination::NAME@ == "tableVoteForTermination"@,
        TableTerminate::NAME@ == "tableTerminate"@,
        TableRestart::NAME@ == "tableRestart"@,
        TableUpdate::NAME@ == "tableUpdate"@,
        TableSuggest::NAME@ == "tableSuggest"@,
        Chat::NAME@ == "chat"@,
        ChatPM::NAME@ == "chatPM"@,
        ChatRead::NAME@ == "chatRead"@,
        GetName::NAME@ == "getName"@,
        Action::NAME@ == "action"@,
        Note::NAME@ == "note"@,
        Pause::NAME@ == "pause"@,
{
}

} // verus!
