//! Commands that the server sends.

use vstd::prelude::*;
use vstd::string::*;
use crate::command::payload::{
    lemma_list_round_trip, lemma_table_id_round_trip, lemma_text_round_trip, list_document,
    list_from_document, list_from_payload, list_of_document, list_of_payload, list_payload,
    list_to_document, list_to_payload, record_from_payload, record_of_payload, record_payload,
    record_to_payload, table_id_from_payload, table_id_of_payload, table_id_payload,
    table_id_to_payload, text_from_payload, text_of_payload, text_payload, text_to_payload,
    Payload, PayloadValue,
};
use crate::command::{views, Command, Record, TableID, UserID};
use crate::json::{lemma_find_member_absent, lemma_find_member_distinct, Json, JsonValue};

verus! {

// Server messages

/// A warning of the server: the session goes on.
#[derive(Debug, Clone, PartialEq, Eq)]
pub struct Warning {
    pub warning: String,
}

impl View for Warning {
    type V = Seq<char>;

    open spec fn view(&self) -> Seq<char> {
        self.warning@
    }
}

impl Command for Warning {
    const NAME: &'static str = "warning";

    open spec fn payload_of(command: Seq<char>) -> PayloadValue {
        text_payload("warning"@, command)
    }

    open spec fn command_of(payload: PayloadValue) -> Option<Seq<char>> {
        text_of_payload("warning"@, payload)
    }

    proof fn lemma_round_trip(command: Seq<char>) {
        lemma_text_round_trip("warning"@, command);
    }

    fn to_payload(&self) -> Payload {
        text_to_payload("warning", self.warning.as_str())
    }

    fn from_payload(payload: &Payload) -> Option<Warning> {
        match text_from_payload("warning", payload) {
            Some(warning) => Some(Warning { warning }),
            None => None,
        }
    }
}

/// An error that the server reports: the session ends.
#[derive(Debug, Clone, PartialEq, Eq)]
pub struct Error {
    pub error: String,
}

impl View for Error {
    type V = Seq<char>;

    open spec fn view(&self) -> Seq<char> {
        self.error@
    }
}

impl Command for Error {
    const NAME: &'static str = "error";

    open spec fn payload_of(command: Seq<char>) -> PayloadValue {
        text_payload("error"@, command)
    }

    open spec fn command_of(payload: PayloadValue) -> Option<Seq<char>> {
        text_of_payload("error"@, payload)
    }

    proof fn lemma_round_trip(command: Seq<char>) {
        lemma_text_round_trip("error"@, command);
    }

    fn to_payload(&self) -> Payload {
        text_to_payload("error", self.error.as_str())
    }

    fn from_payload(payload: &Payload) -> Option<Error> {
        match text_from_payload("error", payload) {
            Some(error) => Some(Error { error }),
            None => None,
        }
    }
}

// General information

/// The server's greeting after login.
#[derive(Debug, Clone, PartialEq, Eq)]
pub struct Welcome {
    pub user_id: UserID,
    pub random_table_name: String,
}

/// The mathematical value of a [`Welcome`].
pub struct WelcomeView {
    pub user_id: UserID,
    pub random_table_name: Seq<char>,
}

impl View for Welcome {
    type V = WelcomeView;

    open spec fn view(&self) -> WelcomeView {
        WelcomeView { user_id: self.user_id, random_table_name: self.random_table_name@ }
    }
}

impl Record for Welcome {
    open spec fn document_of(record: WelcomeView) -> JsonValue {
        JsonValue::Object(
            seq![
                ("userID"@, JsonValue::Number(Some(record.user_id.0 as int))),
                ("randomTableName"@, JsonValue::Text(record.random_table_name)),
            ],
        )
    }

    open spec fn record_of(document: JsonValue) -> Option<WelcomeView> {
        match (
            document.int_member("userID"@, i32::MIN as int, i32::MAX as int),
            document.text_member("randomTableName"@),
        ) {
            (Some(id), Some(random_table_name)) => Some(
                WelcomeView { user_id: UserID(id as i32), random_table_name },
            ),
            _ => None,
        }
    }

    proof fn lemma_record_round_trip(record: WelcomeView) {
        reveal_strlit("userID");
        reveal_strlit("randomTableName");
        reveal_with_fuel(JsonValue::writable, 2);
        let members = Self::document_of(record)->Object_0;
        assert("userID"@.len() == 6 && "randomTableName"@.len() == 15);
        assert(members[0].0 == "userID"@ && members[1].0 == "randomTableName"@);
        lemma_find_member_distinct(members, 0);
        lemma_find_member_distinct(members, 1);
    }

    fn to_document(&self) -> Json {
        let mut members: Vec<(String, Json)> = Vec::new();
        members.push(Json::entry("userID", Json::from_i32(self.user_id.0)));
        members.push(
            Json::entry("randomTableName", Json::from_text(self.random_table_name.as_str())),
        );
        let document = Json::object(members);
        assert(document@->Object_0 =~= Self::document_of(self@)->Object_0);
        document
    }

    fn from_document(document: &Json) -> Option<Welcome> {
        match (document.i32_member("userID"), document.text_member("randomTableName")) {
            (Some(id), Some(random_table_name)) => Some(
                Welcome { user_id: UserID(id), random_table_name },
            ),
            _ => None,
        }
    }
}

impl Command for Welcome {
    const NAME: &'static str = "welcome";

    open spec fn payload_of(command: WelcomeView) -> PayloadValue {
        record_payload::<Welcome>(command)
    }

    open spec fn command_of(payload: PayloadValue) -> Option<WelcomeView> {
        record_of_payload::<Welcome>(payload)
    }

    proof fn lemma_round_trip(command: WelcomeView) {
        Welcome::lemma_record_round_trip(command);
    }

    fn to_payload(&self) -> Payload {
        record_to_payload(self)
    }

    fn from_payload(payload: &Payload) -> Option<Welcome> {
        record_from_payload(payload)
    }
}

/// A name that the server proposes for a new table.
#[derive(Debug, Clone, PartialEq, Eq)]
pub struct Name {
    pub name: String,
}

impl View for Name {
    type V = Seq<char>;

    open spec fn view(&self) -> Seq<char> {
        self.name@
    }
}

impl Command for Name {
    const NAME: &'static str = "name";

    open spec fn payload_of(command: Seq<char>) -> PayloadValue {
        text_payload("name"@, command)
    }

    open spec fn command_of(payload: PayloadValue) -> Option<Seq<char>> {
        text_of_payload("name"@, payload)
    }

    proof fn lemma_round_trip(command: Seq<char>) {
        lemma_text_round_trip("name"@, command);
    }

    fn to_payload(&self) -> Payload {
        text_to_payload("name", self.name.as_str())
    }

    fn from_payload(payload: &Payload) -> Option<Name> {
        match text_from_payload("name", payload) {
            Some(name) => Some(Name { name }),
            None => None,
        }
    }
}

// Tables

/// A table of the lobby, as the server announces it.
#[derive(Debug, Clone, PartialEq, Eq)]
pub struct Table {
    pub id: TableID,
    pub name: String,
}

/// The mathematical value of a [`Table`].
pub struct TableView {
    pub id: TableID,
    pub name: Seq<char>,
}

impl View for Table {
    type V = TableView;

    open spec fn view(&self) -> TableView {
        TableView { id: self.id, name: self.name@ }
    }
}

impl Record for Table {
    open spec fn document_of(record: TableView) -> JsonValue {
        JsonValue::Object(
            seq![
                ("id"@, JsonValue::Number(Some(record.id.0 as int))),
                ("name"@, JsonValue::Text(record.name)),
            ],
        )
    }

    open spec fn record_of(document: JsonValue) -> Option<TableView> {
        match (document.int_member("id"@, 0, u64::MAX as int), document.text_member("name"@)) {
            (Some(id), Some(name)) => Some(TableView { id: TableID(id as u64), name }),
            _ => None,
        }
    }

    proof fn lemma_record_round_trip(record: TableView) {
        reveal_strlit("id");
        reveal_strlit("name");
        reveal_with_fuel(JsonValue::writable, 2);
        let members = Self::document_of(record)->Object_0;
        assert("id"@.len() == 2 && "name"@.len() == 4);
        assert(members[0].0 == "id"@ && members[1].0 == "name"@);
        lemma_find_member_distinct(members, 0);
        lemma_find_member_distinct(members, 1);
    }

    fn to_document(&self) -> Json {
        let mut members: Vec<(String, Json)> = Vec::new();
        members.push(Json::entry("id", Json::from_u64(self.id.0)));
        members.push(Json::entry("name", Json::from_text(self.name.as_str())));
        let document = Json::object(members);
        assert(document@->Object_0 =~= Self::document_of(self@)->Object_0);
        document
    }

    fn from_document(document: &Json) -> Option<Table> {
        match (document.u64_member("id"), document.text_member("name")) {
            (Some(id), Some(name)) => Some(Table { id: TableID(id), name }),
            _ => None,
        }
    }
}

impl Command for Table {
    const NAME: &'static str = "table";

    open spec fn payload_of(command: TableView) -> PayloadValue {
        record_payload::<Table>(command)
    }

    open spec fn command_of(payload: PayloadValue) -> Option<TableView> {
        record_of_payload::<Table>(payload)
    }

    proof fn lemma_round_trip(command: TableView) {
        Table::lemma_record_round_trip(command);
    }

    fn to_payload(&self) -> Payload {
        record_to_payload(self)
    }

    fn from_payload(payload: &Payload) -> Option<Table> {
        record_from_payload(payload)
    }
}

/// The tables of the lobby, sent in one frame.
#[derive(Debug, Clone, PartialEq, Eq)]
pub struct TableList(pub Vec<Table>);

impl View for TableList {
    type V = Seq<TableView>;

    open spec fn view(&self) -> Seq<TableView> {
        views(self.0@)
    }
}

impl Command for TableList {
    const NAME: &'static str = "tableList";

    open spec fn payload_of(command: Seq<TableView>) -> PayloadValue {
        list_payload::<Table>(command)
    }

    open spec fn command_of(payload: PayloadValue) -> Option<Seq<TableView>> {
        list_of_payload::<Table>(payload)
    }

    proof fn lemma_round_trip(command: Seq<TableView>) {
        lemma_list_round_trip::<Table>(command);
    }

    fn to_payload(&self) -> Payload {
        list_to_payload(&self.0)
    }

    fn from_payload(payload: &Payload) -> Option<TableList> {
        match list_from_payload(payload) {
            Some(items) => Some(TableList(items)),
            None => None,
        }
    }
}

/// The game at a table has started.
#[derive(Debug, Clone, Copy, PartialEq, Eq)]
pub struct TableStart {
    pub table_id: TableID,
}

impl View for TableStart {
    type V = TableStart;

    open spec fn view(&self) -> TableStart {
        *self
    }
}

impl Command for TableStart {
    const NAME: &'static str = "tableStart";

    open spec fn payload_of(command: TableStart) -> PayloadValue {
        table_id_payload(command.table_id)
    }

    open spec fn command_of(payload: PayloadValue) -> Option<TableStart> {
        match table_id_of_payload(payload) {
            Some(table_id) => Some(TableStart { table_id }),
            None => None,
        }
    }

    proof fn lemma_round_trip(command: TableStart) {
        lemma_table_id_round_trip(command.table_id);
    }

    fn to_payload(&self) -> Payload {
        table_id_to_payload(self.table_id)
    }

    fn from_payload(payload: &Payload) -> Option<TableStart> {
        match table_id_from_payload(payload) {
            Some(table_id) => Some(TableStart { table_id }),
            None => None,
        }
    }
}

/// The game at a table has moved on.
#[derive(Debug, Clone, Copy, PartialEq, Eq)]
pub struct TableProgress {
    pub table_id: TableID,
}

impl View for TableProgress {
    type V = TableProgress;

    open spec fn view(&self) -> TableProgress {
        *self
    }
}

impl Command for TableProgress {
    const NAME: &'static str = "tableProgress";

    open spec fn payload_of(command: TableProgress) -> PayloadValue {
        table_id_payload(command.table_id)
    }

    open spec fn command_of(payload: PayloadValue) -> Option<TableProgress> {
        match table_id_of_payload(payload) {
            Some(table_id) => Some(TableProgress { table_id }),
            None => None,
        }
    }

    proof fn lemma_round_trip(command: TableProgress) {
        lemma_table_id_round_trip(command.table_id);
    }

    fn to_payload(&self) -> Payload {
        table_id_to_payload(self.table_id)
    }

    fn from_payload(payload: &Payload) -> Option<TableProgress> {
        match table_id_from_payload(payload) {
            Some(table_id) => Some(TableProgress { table_id }),
            None => None,
        }
    }
}

/// A table has been closed.
#[derive(Debug, Clone, Copy, PartialEq, Eq)]
pub struct TableGone {
    pub table_id: TableID,
}

impl View for TableGone {
    type V = TableGone;

    open spec fn view(&self) -> TableGone {
        *self
    }
}

impl Command for TableGone {
    const NAME: &'static str = "tableGone";

    open spec fn payload_of(command: TableGone) -> PayloadValue {
        table_id_payload(command.table_id)
    }

    open spec fn command_of(payload: PayloadValue) -> Option<TableGone> {
        match table_id_of_payload(payload) {
            Some(table_id) => Some(TableGone { table_id }),
            None => None,
        }
    }

    proof fn lemma_round_trip(command: TableGone) {
        lemma_table_id_round_trip(command.table_id);
    }

    fn to_payload(&self) -> Payload {
        table_id_to_payload(self.table_id)
    }

    fn from_payload(payload: &Payload) -> Option<TableGone> {
        match table_id_from_payload(payload) {
            Some(table_id) => Some(TableGone { table_id }),
            None => None,
        }
    }
}

// Users

/// A user of the lobby, as the server announces them.
#[derive(Debug, Clone, PartialEq, Eq)]
pub struct User {
    pub user_id: UserID,
    pub name: String,
    pub status: i32,
    /// The table at which the user sits, if any. In a frame the member is
    /// left out, or null, for a user who sits nowhere.
    pub table_id: Option<TableID>,
}

/// The mathematical value of a [`User`].
pub struct UserView {
    pub user_id: UserID,
    pub name: Seq<char>,
    pub status: i32,
    pub table_id: Option<TableID>,
}

impl View for User {
    type V = UserView;

    open spec fn view(&self) -> UserView {
        UserView {
            user_id: self.user_id,
            name: self.name@,
            status: self.status,
            table_id: self.table_id,
        }
    }
}

impl Record for User {
    open spec fn document_of(record: UserView) -> JsonValue {
        let always = seq![
            ("userID"@, JsonValue::Number(Some(record.user_id.0 as int))),
            ("name"@, JsonValue::Text(record.name)),
            ("status"@, JsonValue::Number(Some(record.status as int))),
        ];
        match record.table_id {
            Some(table_id) => JsonValue::Object(
                always.push(("tableID"@, JsonValue::Number(Some(table_id.0 as int)))),
            ),
            None => JsonValue::Object(always),
        }
    }

    open spec fn record_of(document: JsonValue) -> Option<UserView> {
        match (
            document.int_member("userID"@, i32::MIN as int, i32::MAX as int),
            document.text_member("name"@),
            document.int_member("status"@, i32::MIN as int, i32::MAX as int),
            document.optional_int_member("tableID"@, 0, u64::MAX as int),
        ) {
            (Some(id), Some(name), Some(status), Some(table)) => Some(
                UserView {
                    user_id: UserID(id as i32),
                    name,
                    status: status as i32,
                    table_id: match table {
                        Some(table_id) => Some(TableID(table_id as u64)),
                        None => None,
                    },
                },
            ),
            _ => None,
        }
    }

    proof fn lemma_record_round_trip(record: UserView) {
        reveal_strlit("userID");
        reveal_strlit("name");
        reveal_strlit("status");
        reveal_strlit("tableID");
        reveal_with_fuel(JsonValue::writable, 2);
        let members = Self::document_of(record)->Object_0;
        assert("userID"@.len() == 6 && "name"@.len() == 4 && "tableID"@.len() == 7);
        assert("userID"@[0] == 'u' && "status"@[0] == 's' && "status"@.len() == 6);
        assert(members[0].0 == "userID"@ && members[1].0 == "name"@ && members[2].0 == "status"@);
        if record.table_id is Some {
            assert(members[3].0 == "tableID"@);
            lemma_find_member_distinct(members, 3);
        } else {
            lemma_find_member_absent(members, "tableID"@);
        }
        lemma_find_member_distinct(members, 0);
        lemma_find_member_distinct(members, 1);
        lemma_find_member_distinct(members, 2);
    }

    fn to_document(&self) -> Json {
        let mut members: Vec<(String, Json)> = Vec::new();
        members.push(Json::entry("userID", Json::from_i32(self.user_id.0)));
        members.push(Json::entry("name", Json::from_text(self.name.as_str())));
        members.push(Json::entry("status", Json::from_i32(self.status)));
        match self.table_id {
            Some(table_id) => {
                members.push(Json::entry("tableID", Json::from_u64(table_id.0)));
            },
            None => {},
        }
        let document = Json::object(members);
        assert(document@->Object_0 =~= Self::document_of(self@)->Object_0);
        document
    }

    fn from_document(document: &Json) -> Option<User> {
        match (
            document.i32_member("userID"),
            document.text_member("name"),
            document.i32_member("status"),
            document.optional_u64_member("tableID"),
        ) {
            (Some(id), Some(name), Some(status), Some(table)) => Some(
                User {
                    user_id: UserID(id),
                    name,
                    status,
                    table_id: match table {
                        Some(table_id) => Some(TableID(table_id)),
                        None => None,
                    },
                },
            ),
            _ => None,
        }
    }
}

impl Command for User {
    const NAME: &'static str = "user";

    open spec fn payload_of(command: UserView) -> PayloadValue {
        record_payload::<User>(command)
    }

    open spec fn command_of(payload: PayloadValue) -> Option<UserView> {
        record_of_payload::<User>(payload)
    }

    proof fn lemma_round_trip(command: UserView) {
        User::lemma_record_round_trip(command);
    }

    fn to_payload(&self) -> Payload {
        record_to_payload(self)
    }

    fn from_payload(payload: &Payload) -> Option<User> {
        record_from_payload(payload)
    }
}

/// The users of the lobby, sent in one frame.
#[derive(Debug, Clone, PartialEq, Eq)]
pub struct UserList(pub Vec<User>);

impl View for UserList {
    type V = Seq<UserView>;

    open spec fn view(&self) -> Seq<UserView> {
        views(self.0@)
    }
}

impl Command for UserList {
    const NAME: &'static str = "userList";

    open spec fn payload_of(command: Seq<UserView>) -> PayloadValue {
        list_payload::<User>(command)
    }

    open spec fn command_of(payload: PayloadValue) -> Option<Seq<UserView>> {
        list_of_payload::<User>(payload)
    }

    proof fn lemma_round_trip(command: Seq<UserView>) {
        lemma_list_round_trip::<User>(command);
    }

    fn to_payload(&self) -> Payload {
        list_to_payload(&self.0)
    }

    fn from_payload(payload: &Payload) -> Option<UserList> {
        match list_from_payload(payload) {
            Some(items) => Some(UserList(items)),
            None => None,
        }
    }
}

/// A user has left the lobby.
#[derive(Debug, Clone, Copy, PartialEq, Eq)]
pub struct UserLeft {
    pub user_id: UserID,
}

impl View for UserLeft {
    type V = UserLeft;

    open spec fn view(&self) -> UserLeft {
        *self
    }
}

impl Command for UserLeft {
    const NAME: &'static str = "userLeft";

    open spec fn payload_of(command: UserLeft) -> PayloadValue {
        PayloadValue::Document(
            JsonValue::Object(
                seq![("userID"@, JsonValue::Number(Some(command.user_id.0 as int)))],
            ),
        )
    }

    open spec fn command_of(payload: PayloadValue) -> Option<UserLeft> {
        match payload {
            PayloadValue::Document(document) => match document.int_member(
                "userID"@,
                i32::MIN as int,
                i32::MAX as int,
            ) {
                Some(id) => Some(UserLeft { user_id: UserID(id as i32) }),
                None => None,
            },
            PayloadValue::Empty => None,
        }
    }

    proof fn lemma_round_trip(command: UserLeft) {
        reveal_with_fuel(JsonValue::writable, 2);
        let members = Self::payload_of(command)->Document_0->Object_0;
        lemma_find_member_distinct(members, 0);
    }

    fn to_payload(&self) -> Payload {
        let mut members: Vec<(String, Json)> = Vec::new();
        members.push(Json::entry("userID", Json::from_i32(self.user_id.0)));
        let document = Json::object(members);
        assert(document@->Object_0 =~= Self::payload_of(self@)->Document_0->Object_0);
        Payload::Document(document)
    }

    fn from_payload(payload: &Payload) -> Option<UserLeft> {
        match payload {
            Payload::Document(document) => match document.i32_member("userID") {
                Some(id) => Some(UserLeft { user_id: UserID(id) }),
                None => None,
            },
            Payload::Empty => None,
        }
    }
}

// Games

/// The games that the user has played.
#[derive(Debug, Clone, Copy, PartialEq, Eq)]
pub struct GameHistory;

impl View for GameHistory {
    type V = GameHistory;

    open spec fn view(&self) -> GameHistory {
        *self
    }
}

impl Command for GameHistory {
    const NAME: &'static str = "gameHistory";

    open spec fn payload_of(command: GameHistory) -> PayloadValue {
        PayloadValue::Empty
    }

    open spec fn command_of(payload: PayloadValue) -> Option<GameHistory> {
        match payload {
            PayloadValue::Empty => Some(GameHistory),
            PayloadValue::Document(_) => None,
        }
    }

    proof fn lemma_round_trip(command: GameHistory) {
    }

    fn to_payload(&self) -> Payload {
        Payload::Empty
    }

    fn from_payload(payload: &Payload) -> Option<GameHistory> {
        match payload {
            Payload::Empty => Some(GameHistory),
            Payload::Document(_) => None,
        }
    }
}

// Chat

/// A chat message.
#[derive(Debug, Clone, PartialEq, Eq)]
pub struct Chat {
    pub recipient: String,
    pub who: String,
    pub msg: String,
}

/// The mathematical value of a [`Chat`].
pub struct ChatView {
    pub recipient: Seq<char>,
    pub who: Seq<char>,
    pub msg: Seq<char>,
}

impl View for Chat {
    type V = ChatView;

    open spec fn view(&self) -> ChatView {
        ChatView { recipient: self.recipient@, who: self.who@, msg: self.msg@ }
    }
}

impl Record for Chat {
    open spec fn document_of(record: ChatView) -> JsonValue {
        JsonValue::Object(
            seq![
                ("recipient"@, JsonValue::Text(record.recipient)),
                ("who"@, JsonValue::Text(record.who)),
                ("msg"@, JsonValue::Text(record.msg)),
            ],
        )
    }

    open spec fn record_of(document: JsonValue) -> Option<ChatView> {
        match (
            document.text_member("recipient"@),
            document.text_member("who"@),
            document.text_member("msg"@),
        ) {
            (Some(recipient), Some(who), Some(msg)) => Some(ChatView { recipient, who, msg }),
            _ => None,
        }
    }

    proof fn lemma_record_round_trip(record: ChatView) {
        reveal_strlit("recipient");
        reveal_strlit("who");
        reveal_strlit("msg");
        reveal_with_fuel(JsonValue::writable, 2);
        let members = Self::document_of(record)->Object_0;
        assert("recipient"@.len() == 9 && "who"@.len() == 3 && "msg"@.len() == 3);
        assert("who"@[0] == 'w' && "msg"@[0] == 'm');
        assert(members[0].0 == "recipient"@ && members[1].0 == "who"@ && members[2].0 == "msg"@);
        lemma_find_member_distinct(members, 0);
        lemma_find_member_distinct(members, 1);
        lemma_find_member_distinct(members, 2);
    }

    fn to_document(&self) -> Json {
        let mut members: Vec<(String, Json)> = Vec::new();
        members.push(Json::entry("recipient", Json::from_text(self.recipient.as_str())));
        members.push(Json::entry("who", Json::from_text(self.who.as_str())));
        members.push(Json::entry("msg", Json::from_text(self.msg.as_str())));
        let document = Json::object(members);
        assert(document@->Object_0 =~= Self::document_of(self@)->Object_0);
        document
    }

    fn from_document(document: &Json) -> Option<Chat> {
        match (
            document.text_member("recipient"),
            document.text_member("who"),
            document.text_member("msg"),
        ) {
            (Some(recipient), Some(who), Some(msg)) => Some(Chat { recipient, who, msg }),
            _ => None,
        }
    }
}

impl Command for Chat {
    const NAME: &'static str = "chat";

    open spec fn payload_of(command: ChatView) -> PayloadValue {
        record_payload::<Chat>(command)
    }

    open spec fn command_of(payload: PayloadValue) -> Option<ChatView> {
        record_of_payload::<Chat>(payload)
    }

    proof fn lemma_round_trip(command: ChatView) {
        Chat::lemma_record_round_trip(command);
    }

    fn to_payload(&self) -> Payload {
        record_to_payload(self)
    }

    fn from_payload(payload: &Payload) -> Option<Chat> {
        record_from_payload(payload)
    }
}

/// The chat messages of a room, sent in one frame.
#[derive(Debug, Clone, PartialEq, Eq)]
pub struct ChatList {
    pub list: Vec<Chat>,
}

impl View for ChatList {
    type V = Seq<ChatView>;

    open spec fn view(&self) -> Seq<ChatView> {
        views(self.list@)
    }
}

impl Command for ChatList {
    const NAME: &'static str = "chatList";

    open spec fn payload_of(command: Seq<ChatView>) -> PayloadValue {
        PayloadValue::Document(
            JsonValue::Object(seq![("list"@, list_document::<Chat>(command))]),
        )
    }

    open spec fn command_of(payload: PayloadValue) -> Option<Seq<ChatView>> {
        match payload {
            PayloadValue::Document(document) => match document.member("list"@) {
                Some(list) => list_of_document::<Chat>(list),
                None => None,
            },
            PayloadValue::Empty => None,
        }
    }

    proof fn lemma_round_trip(command: Seq<ChatView>) {
        reveal_with_fuel(JsonValue::writable, 2);
        let members = Self::payload_of(command)->Document_0->Object_0;
        lemma_find_member_distinct(members, 0);
        lemma_list_round_trip::<Chat>(command);
    }

    fn to_payload(&self) -> Payload {
        let mut members: Vec<(String, Json)> = Vec::new();
        members.push(Json::entry("list", list_to_document(&self.list)));
        let document = Json::object(members);
        assert(document@->Object_0 =~= Self::payload_of(self@)->Document_0->Object_0);
        Payload::Document(document)
    }

    fn from_payload(payload: &Payload) -> Option<ChatList> {
        match payload {
            Payload::Document(document) => match document.member("list") {
                Some(list) => match list_from_document(list) {
                    Some(list) => Some(ChatList { list }),
                    None => None,
                },
                None => None,
            },
            Payload::Empty => None,
        }
    }
}

/// Somebody is typing in the chat.
#[derive(Debug, Clone, Copy, PartialEq, Eq)]
pub struct ChatTyping;

impl View for ChatTyping {
    type V = ChatTyping;

    open spec fn view(&self) -> ChatTyping {
        *self
    }
}

impl Command for ChatTyping {
    const NAME: &'static str = "chatTyping";

    open spec fn payload_of(command: ChatTyping) -> PayloadValue {
        PayloadValue::Empty
    }

    open spec fn command_of(payload: PayloadValue) -> Option<ChatTyping> {
        match payload {
            PayloadValue::Empty => Some(ChatTyping),
            PayloadValue::Document(_) => None,
        }
    }

    proof fn lemma_round_trip(command: ChatTyping) {
    }

    fn to_payload(&self) -> Payload {
        Payload::Empty
    }

    fn from_payload(payload: &Payload) -> Option<ChatTyping> {
        match payload {
            Payload::Empty => Some(ChatTyping),
            Payload::Document(_) => None,
        }
    }
}

// Actions on tables

/// The session has taken a seat at a table.
#[derive(Debug, Clone, Copy, PartialEq, Eq)]
pub struct Joined {
    pub table_id: TableID,
}

impl View for Joined {
    type V = Joined;

    open spec fn view(&self) -> Joined {
        *self
    }
}

impl Command for Joined {
    const NAME: &'static str = "joined";

    open spec fn payload_of(command: Joined) -> PayloadValue {
        table_id_payload(command.table_id)
    }

    open spec fn command_of(payload: PayloadValue) -> Option<Joined> {
        match table_id_of_payload(payload) {
            Some(table_id) => Some(Joined { table_id }),
            None => None,
        }
    }

    proof fn lemma_round_trip(command: Joined) {
        lemma_table_id_round_trip(command.table_id);
    }

    fn to_payload(&self) -> Payload {
        table_id_to_payload(self.table_id)
    }

    fn from_payload(payload: &Payload) -> Option<Joined> {
        match table_id_from_payload(payload) {
            Some(table_id) => Some(Joined { table_id }),
            None => None,
        }
    }
}

/// The session has left its table.
#[derive(Debug, Clone, Copy, PartialEq, Eq)]
pub struct Left;

impl View for Left {
    type V = Left;

    open spec fn view(&self) -> Left {
        *self
    }
}

impl Command for Left {
    const NAME: &'static str = "left";

    open spec fn payload_of(command: Left) -> PayloadValue {
        PayloadValue::Empty
    }

    open spec fn command_of(payload: PayloadValue) -> Option<Left> {
        match payload {
            PayloadValue::Empty => Some(Left),
            PayloadValue::Document(_) => None,
        }
    }

    proof fn lemma_round_trip(command: Left) {
    }

    fn to_payload(&self) -> Payload {
        Payload::Empty
    }

    fn from_payload(payload: &Payload) -> Option<Left> {
        match payload {
            Payload::Empty => Some(Left),
            Payload::Document(_) => None,
        }
    }
}

// In game

/// A game begins.
#[derive(Debug, Clone, Copy, PartialEq, Eq)]
pub struct Init;

impl View for Init {
    type V = Init;

    open spec fn view(&self) -> Init {
        *self
    }
}

impl Command for Init {
    const NAME: &'static str = "init";

    open spec fn payload_of(command: Init) -> PayloadValue {
        PayloadValue::Empty
    }

    open spec fn command_of(payload: PayloadValue) -> Option<Init> {
        match payload {
            PayloadValue::Empty => Some(Init),
            PayloadValue::Document(_) => None,
        }
    }

    proof fn lemma_round_trip(command: Init) {
    }

    fn to_payload(&self) -> Payload {
        Payload::Empty
    }

    fn from_payload(payload: &Payload) -> Option<Init> {
        match payload {
            Payload::Empty => Some(Init),
            Payload::Document(_) => None,
        }
    }
}

/// One action of a game.
#[derive(Debug, Clone, Copy, PartialEq, Eq)]
pub struct GameAction;

impl View for GameAction {
    type V = GameAction;

    open spec fn view(&self) -> GameAction {
        *self
    }
}

impl Command for GameAction {
    const NAME: &'static str = "gameAction";

    open spec fn payload_of(command: GameAction) -> PayloadValue {
        PayloadValue::Empty
    }

    open spec fn command_of(payload: PayloadValue) -> Option<GameAction> {
        match payload {
            PayloadValue::Empty => Some(GameAction),
            PayloadValue::Document(_) => None,
        }
    }

    proof fn lemma_round_trip(command: GameAction) {
    }

    fn to_payload(&self) -> Payload {
        Payload::Empty
    }

    fn from_payload(payload: &Payload) -> Option<GameAction> {
        match payload {
            Payload::Empty => Some(GameAction),
            Payload::Document(_) => None,
        }
    }
}

/// The actions of a game so far.
#[derive(Debug, Clone, Copy, PartialEq, Eq)]
pub struct GameActionList;

impl View for GameActionList {
    type V = GameActionList;

    open spec fn view(&self) -> GameActionList {
        *self
    }
}

impl Command for GameActionList {
    const NAME: &'static str = "gameActionList";

    open spec fn payload_of(command: GameActionList) -> PayloadValue {
        PayloadValue::Empty
    }

    open spec fn command_of(payload: PayloadValue) -> Option<GameActionList> {
        match payload {
            PayloadValue::Empty => Some(GameActionList),
            PayloadValue::Document(_) => None,
        }
    }

    proof fn lemma_round_trip(command: GameActionList) {
    }

    fn to_payload(&self) -> Payload {
        Payload::Empty
    }

    fn from_payload(payload: &Payload) -> Option<GameActionList> {
        match payload {
            Payload::Empty => Some(GameActionList),
            Payload::Document(_) => None,
        }
    }
}

/// The identifier under which a game is stored.
#[derive(Debug, Clone, Copy, PartialEq, Eq)]
pub struct DatabaseID;

impl View for DatabaseID {
    type V = DatabaseID;

    open spec fn view(&self) -> DatabaseID {
        *self
    }
}

impl Command for DatabaseID {
    const NAME: &'static str = "databaseID";

    open spec fn payload_of(command: DatabaseID) -> PayloadValue {
        PayloadValue::Empty
    }

    open spec fn command_of(payload: PayloadValue) -> Option<DatabaseID> {
        match payload {
            PayloadValue::Empty => Some(DatabaseID),
            PayloadValue::Document(_) => None,
        }
    }

    proof fn lemma_round_trip(command: DatabaseID) {
    }

    fn to_payload(&self) -> Payload {
        Payload::Empty
    }

    fn from_payload(payload: &Payload) -> Option<DatabaseID> {
        match payload {
            Payload::Empty => Some(DatabaseID),
            Payload::Document(_) => None,
        }
    }
}

/// Which players of a game are connected.
#[derive(Debug, Clone, Copy, PartialEq, Eq)]
pub struct Connected;

impl View for Connected {
    type V = Connected;

    open spec fn view(&self) -> Connected {
        *self
    }
}

impl Command for Connected {
    const NAME: &'static str = "connected";

    open spec fn payload_of(command: Connected) -> PayloadValue {
        PayloadValue::Empty
    }

    open spec fn command_of(payload: PayloadValue) -> Option<Connected> {
        match payload {
            PayloadValue::Empty => Some(Connected),
            PayloadValue::Document(_) => None,
        }
    }

    proof fn lemma_round_trip(command: Connected) {
    }

    fn to_payload(&self) -> Payload {
        Payload::Empty
    }

    fn from_payload(payload: &Payload) -> Option<Connected> {
        match payload {
            Payload::Empty => Some(Connected),
            Payload::Document(_) => None,
        }
    }
}

/// The clocks of a timed game.
#[derive(Debug, Clone, Copy, PartialEq, Eq)]
pub struct Clock;

impl View for Clock {
    type V = Clock;

    open spec fn view(&self) -> Clock {
        *self
    }
}

impl Command for Clock {
    const NAME: &'static str = "clock";

    open spec fn payload_of(command: Clock) -> PayloadValue {
        PayloadValue::Empty
    }

    open spec fn command_of(payload: PayloadValue) -> Option<Clock> {
        match payload {
            PayloadValue::Empty => Some(Clock),
            PayloadValue::Document(_) => None,
        }
    }

    proof fn lemma_round_trip(command: Clock) {
    }

    fn to_payload(&self) -> Payload {
        Payload::Empty
    }

    fn from_payload(payload: &Payload) -> Option<Clock> {
        match payload {
            Payload::Empty => Some(Clock),
            Payload::Document(_) => None,
        }
    }
}

/// The notes of a player.
#[derive(Debug, Clone, Copy, PartialEq, Eq)]
pub struct NoteListPlayer;

impl View for NoteListPlayer {
    type V = NoteListPlayer;

    open spec fn view(&self) -> NoteListPlayer {
        *self
    }
}

impl Command for NoteListPlayer {
    const NAME: &'static str = "noteListPlayer";

    open spec fn payload_of(command: NoteListPlayer) -> PayloadValue {
        PayloadValue::Empty
    }

    open spec fn command_of(payload: PayloadValue) -> Option<NoteListPlayer> {
        match payload {
            PayloadValue::Empty => Some(NoteListPlayer),
            PayloadValue::Document(_) => None,
        }
    }

    proof fn lemma_round_trip(command: NoteListPlayer) {
    }

    fn to_payload(&self) -> Payload {
        Payload::Empty
    }

    fn from_payload(payload: &Payload) -> Option<NoteListPlayer> {
        match payload {
            Payload::Empty => Some(NoteListPlayer),
            Payload::Document(_) => None,
        }
    }
}

// Names

/// The names of the server's commands, as they stand in a frame.
pub proof fn lemma_names()
    ensures
        Warning::NAME@ == "warning"@,
        Error::NAME@ == "error"@,
        Welcome::NAME@ == "welcome"@,
        Name::NAME@ == "name"@,
        Table::NAME@ == "table"@,
        TableList::NAME@ == "tableList"@,
        TableStart::NAME@ == "tableStart"@,
        TableProgress::NAME@ == "tableProgress"@,
        TableGone::NAME@ == "tableGone"@,
        User::NAME@ == "user"@,
        UserList::NAME@ == "userList"@,
        UserLeft::NAME@ == "userLeft"@,
        GameHistory::NAME@ == "gameHistory"@,
        Chat::NAME@ == "chat"@,
        ChatList::NAME@ == "chatList"@,
        ChatTyping::NAME@ == "chatTyping"@,
        Joined::NAME@ == "joined"@,
        Left::NAME@ == "left"@,
        Init::NAME@ == "init"@,
        GameAction::NAME@ == "gameAction"@,
        GameActionList::NAME@ == "gameActionList"@,
        DatabaseID::NAME@ == "databaseID"@,
        Connected::NAME@ == "connected"@,
        Clock::NAME@ == "clock"@,
        NoteListPlayer::NAME@ == "noteListPlayer"@,
{
}

} // verus!
