//! Commands of the lobby protocol and their frames.
//!
//! A frame is one line of text: the name of a command, one space, and the
//! command's payload. The payload is empty for a command without fields, and
//! a JSON document for any other.

use vstd::prelude::*;
use vstd::string::*;
use crate::command::deserialize::{
    decoded, deserialize_command, DeserializeCommandError, DeserializeCommandFault, PayloadFault,
};
use crate::command::payload::{write_payload, Payload, PayloadValue};
use crate::json::{Json, JsonValue};
use crate::text::{split_at_space, split_once_space, str_eq};

pub mod client;
pub mod deserialize;
pub mod payload;
pub mod server;

verus! {

/// Identifier of a user.
#[derive(Debug, Clone, Copy, PartialEq, Eq, Hash, Structural)]
pub struct UserID(pub i32);

/// Identifier of a table.
#[derive(Debug, Clone, Copy, PartialEq, Eq, Hash, Structural)]
pub struct TableID(pub u64);

/// A command of the protocol: a name, and fields that travel as a payload.
pub trait Command: Sized + View {
    /// The name that leads the command's frame.
    const NAME: &'static str;

    /// The payload that carries a command.
    spec fn payload_of(command: Self::V) -> PayloadValue;

    /// The command that a payload carries, where it has the command's shape.
    spec fn command_of(payload: PayloadValue) -> Option<Self::V>;

    /// Every command comes back from its own payload, and its payload can be
    /// written.
    proof fn lemma_round_trip(command: Self::V)
        ensures
            Self::command_of(Self::payload_of(command)) == Some(command),
            Self::payload_of(command).writable(),
    ;

    /// Lays the command's fields out as a payload.
    fn to_payload(&self) -> (payload: Payload)
        ensures
            payload@ == Self::payload_of(self@),
    ;

    /// Reads the command's fields from a payload.
    fn from_payload(payload: &Payload) -> (command: Option<Self>)
        ensures
            match command {
                Some(command) => Self::command_of(payload@) == Some(command@),
                None => Self::command_of(payload@) is None,
            },
    ;
}

/// A value that travels as one JSON document, alone or as an item of a list.
pub trait Record: Sized + View {
    /// The document that carries a value.
    spec fn document_of(record: Self::V) -> JsonValue;

    /// The value that a document carries, where it has the value's shape.
    spec fn record_of(document: JsonValue) -> Option<Self::V>;

    /// Every value comes back from its own document, and its document can be
    /// written.
    proof fn lemma_record_round_trip(record: Self::V)
        ensures
            Self::record_of(Self::document_of(record)) == Some(record),
            Self::document_of(record).writable(),
    ;

    /// Lays the value out as a document.
    fn to_document(&self) -> (document: Json)
        ensures
            document@ == Self::document_of(self@),
    ;

    /// Reads the value from a document.
    fn from_document(document: &Json) -> (record: Option<Self>)
        ensures
            match record {
                Some(record) => Self::record_of(document@) == Some(record@),
                None => Self::record_of(document@) is None,
            },
    ;
}

/// The values of a sequence of records, in their order.
pub open spec fn views<T: View>(items: Seq<T>) -> Seq<T::V> {
    Seq::new(items.len(), |i: int| items[i]@)
}

/// The text of the frame that carries `payload` under `name`.
pub open spec fn frame_text(name: Seq<char>, payload: PayloadValue) -> Seq<char> {
    name + seq![' '] + payload.written()
}

/// Writes the frame of a command: its name, a space, and its payload.
pub fn serialize_command<T: Command>(command: &T) -> (line: String)
    ensures
        line@ == frame_text(T::NAME@, T::payload_of(command@)),
{
    let payload = command.to_payload();
    proof {
        T::lemma_round_trip(command@);
    }
    let text = write_payload(&payload);
    let mut line = String::from_str(T::NAME);
    line.append(" ");
    proof {
        reveal_strlit(" ");
        assert(" "@ =~= seq![' ']);
    }
    line.append(text.as_str());
    line
}

/// Why a session ends.
#[derive(Debug, Clone, PartialEq, Eq)]
pub enum SessionError {
    /// A frame could not be read.
    Frame(DeserializeCommandError),
    /// The server reported an error. The variant holds its message.
    Server(String),
    /// The server sent a binary message.
    Binary,
}

/// The mathematical value of a [`SessionError`].
pub enum SessionFault {
    Frame(DeserializeCommandFault),
    Server(Seq<char>),
    Binary,
}

impl View for SessionError {
    type V = SessionFault;

    open spec fn view(&self) -> SessionFault {
        match self {
            SessionError::Frame(e) => SessionFault::Frame(e@),
            SessionError::Server(message) => SessionFault::Server(message@),
            SessionError::Binary => SessionFault::Binary,
        }
    }
}

/// The name and the payload text of a frame: what stands before the first
/// space of the line, and what stands after it. A line without a space is no
/// frame, whatever it holds.
pub open spec fn frame_parts(line: Seq<char>) -> Option<(Seq<char>, Seq<char>)> {
    split_at_space(line)
}

/// A frame on its way through a chain of handlers: either still waiting for
/// the handler of its name, or done, with what its handler made of it.
pub enum Parse<'a, O> {
    /// A handler took the frame, or the line was no frame at all.
    Break(Result<O, SessionError>),
    /// No handler took the frame yet: its name and its payload text.
    Continue(&'a str, &'a str),
}

impl<'a, O> Parse<'a, O> {
    /// Whether the frame still waits for its handler and carries `command`,
    /// a command of the kind `T`.
    pub open spec fn carries<T: Command>(self, command: T) -> bool {
        self matches Parse::Continue(name, data) && name@ == T::NAME@ && decoded::<T>(data@) == Ok::<
            T::V,
            PayloadFault,
        >(command@)
    }

    /// Splits a line into the name and the payload text of a frame.
    pub fn from_str(s: &'a str) -> (parse: Self)
        ensures
            match parse {
                Parse::Continue(name, data) => frame_parts(s@) == Some((name@, data@)),
                Parse::Break(done) => {
                    &&& frame_parts(s@) is None
                    &&& done matches Err(e)
                    &&& e@ == SessionFault::Frame(DeserializeCommandFault::NoSpace)
                },
            },
    {
        match split_once_space(s) {
            Some((name, data)) => Parse::Continue(name, data),
            None => Parse::Break(Err(SessionError::Frame(DeserializeCommandError::NoSpace))),
        }
    }

    /// Hands the frame to `f` where it carries the command `T` and no handler
    /// took it before. A handler that cannot fail.
    pub fn handle_command<T: Command, F: FnOnce(T) -> O>(self, f: F) -> (parse: Self)
        requires
            forall|command: T| self.carries::<T>(command) ==> f.requires((command,)),
        ensures
            match self {
                Parse::Continue(name, data) => if name@ == T::NAME@ {
                    match decoded::<T>(data@) {
                        Ok(value) => exists|command: T, made: O|
                            command@ == value && #[trigger] f.ensures((command,), made) && parse
                                == Parse::<'a, O>::Break(Ok(made)),
                        Err(fault) => {
                            &&& parse matches Parse::Break(Err(e))
                            &&& e@ == SessionFault::Frame(
                                DeserializeCommandFault::DeserializeDataError(fault),
                            )
                        },
                    }
                } else {
                    parse == self
                },
                Parse::Break(_) => parse == self,
            },
    {
        let parse = self.handle_command_result(
            |command: T| -> (made: Result<O, SessionError>) requires f.requires((command,)) ensures made matches Ok(made) && f.ensures((command,), made) { Ok(f(command)) },
        );
        parse
    }

    /// Hands the frame to `f` where it carries the command `T` and no handler
    /// took it before. A handler that may fail.
    pub fn handle_command_result<T: Command, F: FnOnce(T) -> Result<O, SessionError>>(
        self,
        f: F,
    ) -> (parse: Self)
        requires
            forall|command: T| self.carries::<T>(command) ==> f.requires((command,)),
        ensures
            match self {
                Parse::Continue(name, data) => if name@ == T::NAME@ {
                    match decoded::<T>(data@) {
                        Ok(value) => exists|command: T, made: Result<O, SessionError>|
                            command@ == value && #[trigger] f.ensures((command,), made) && parse
                                == Parse::<'a, O>::Break(made),
                        Err(fault) => {
                            &&& parse matches Parse::Break(Err(e))
                            &&& e@ == SessionFault::Frame(
                                DeserializeCommandFault::DeserializeDataError(fault),
                            )
                        },
                    }
                } else {
                    parse == self
                },
                Parse::Break(_) => parse == self,
            },
    {
        match self {
            Parse::Continue(name, data) => {
                if str_eq(name, T::NAME) {
                    match deserialize_command::<T>(data) {
                        Ok(command) => {
                            assert(Parse::<'a, O>::Continue(name, data).carries::<T>(command));
                            Parse::Break(f(command))
                        },
                        Err(e) => Parse::Break(
                            Err(
                                SessionError::Frame(
                                    DeserializeCommandError::DeserializeDataError(e),
                                ),
                            ),
                        ),
                    }
                } else {
                    Parse::Continue(name, data)
                }
            },
            Parse::Break(done) => Parse::Break(done),
        }
    }

    /// Ends the chain: what a handler made of the frame, or what `f` makes of
    /// a frame that no handler took.
    pub fn unhandled<F: FnOnce(&'a str, &'a str) -> Result<O, SessionError>>(self, f: F) -> (done:
        Result<O, SessionError>)
        requires
            self matches Parse::Continue(name, data) ==> f.requires((name, data)),
        ensures
            match self {
                Parse::Break(made) => done == made,
                Parse::Continue(name, data) => f.ensures((name, data), done),
            },
    {
        match self {
            Parse::Break(made) => made,
            Parse::Continue(name, data) => f(name, data),
        }
    }
}

} // verus!
