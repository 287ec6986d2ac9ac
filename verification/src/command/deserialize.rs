//! Reading frames: the payload text of a frame as the command of a given
//! kind, and a whole line as one of the commands that a session reacts to.

use vstd::prelude::*;
use vstd::string::*;
use crate::command::payload::{read_payload, PayloadValue};
use crate::command::{frame_parts, frame_text, Command, Parse};
use crate::server_command::{
    decode, lemma_decode_reads_back, lemma_registered_names, ServerCommand, ServerCommandView,
};
use crate::text::lemma_split_at_space;

verus! {

/// Why a payload could not be read as the command that the frame names.
#[derive(Debug, Clone, PartialEq, Eq)]
pub enum PayloadError {
    /// The payload is not empty and is not JSON text either. The variant
    /// holds the JSON reader's account of what is wrong.
    Syntax(String),
    /// The payload was read, but it has not the shape of the command.
    Shape,
}

/// The kind of a [`PayloadError`].
pub enum PayloadFault {
    Syntax,
    Shape,
}

impl View for PayloadError {
    type V = PayloadFault;

    open spec fn view(&self) -> PayloadFault {
        match self {
            PayloadError::Syntax(_) => PayloadFault::Syntax,
            PayloadError::Shape => PayloadFault::Shape,
        }
    }
}

/// Why a frame could not be read as a command.
#[derive(Debug, Clone, PartialEq, Eq)]
pub enum DeserializeCommandError {
    /// No registered command carries the name of the frame. The variant holds
    /// that name. A session skips such a frame and goes on.
    Custom(String),
    /// The line holds no space: it cannot be told apart into a name and a
    /// payload, and is no frame.
    NoSpace,
    /// The name of the frame is registered, but its payload cannot be read as
    /// the command of that name.
    DeserializeDataError(PayloadError),
}

/// The mathematical value of a [`DeserializeCommandError`].
pub enum DeserializeCommandFault {
    Custom(Seq<char>),
    NoSpace,
    DeserializeDataError(PayloadFault),
}

impl View for DeserializeCommandError {
    type V = DeserializeCommandFault;

    open spec fn view(&self) -> DeserializeCommandFault {
        match self {
            DeserializeCommandError::Custom(name) => DeserializeCommandFault::Custom(name@),
            DeserializeCommandError::NoSpace => DeserializeCommandFault::NoSpace,
            DeserializeCommandError::DeserializeDataError(e) => {
                DeserializeCommandFault::DeserializeDataError(e@)
            },
        }
    }
}

/// What the payload text of a frame holds, read as the command `T`.
pub open spec fn decoded<T: Command>(text: Seq<char>) -> Result<T::V, PayloadFault> {
    match PayloadValue::read(text) {
        Some(payload) => match T::command_of(payload) {
            Some(command) => Ok(command),
            None => Err(PayloadFault::Shape),
        },
        None => Err(PayloadFault::Syntax),
    }
}

/// Reads the payload text of a frame as the command `T`.
pub fn deserialize_command<T: Command>(text: &str) -> (read: Result<T, PayloadError>)
    ensures
        match read {
            Ok(command) => decoded::<T>(text@) == Ok::<T::V, PayloadFault>(command@),
            Err(e) => decoded::<T>(text@) == Err::<T::V, PayloadFault>(e@),
        },
{
    match read_payload(text) {
        Ok(payload) => match T::from_payload(&payload) {
            Some(command) => Ok(command),
            None => Err(PayloadError::Shape),
        },
        Err(e) => Err(PayloadError::Syntax(e)),
    }
}

/// The server command that a line of text carries: the line is split into
/// the name and the payload text of a frame, and the frame is read.
pub open spec fn decode_line(line: Seq<char>) -> Result<
    ServerCommandView,
    DeserializeCommandFault,
> {
    match frame_parts(line) {
        Some((name, data)) => decode(name, data),
        None => Err(DeserializeCommandFault::NoSpace),
    }
}

/// Reads a line of text from the server as a command.
pub fn deserialize_command_from_str(s: &str) -> (read: Result<
    ServerCommand,
    DeserializeCommandError,
>)
    ensures
        match read {
            Ok(command) => decode_line(s@) == Ok::<ServerCommandView, DeserializeCommandFault>(
                command@,
            ),
            Err(e) => decode_line(s@) == Err::<ServerCommandView, DeserializeCommandFault>(e@),
        },
{
    match Parse::<ServerCommand>::from_str(s) {
        Parse::Continue(name, data) => ServerCommand::decode(name, data),
        Parse::Break(_) => Err(DeserializeCommandError::NoSpace),
    }
}

/// A command comes back from its frame: the line that is written for a
/// command is read as that command, wherever the payload of the command comes
/// back from its own text.
pub proof fn lemma_frame_reads_back(command: ServerCommandView, line: Seq<char>)
    requires
        command.payload().reads_back(),
        line == frame_text(command.name(), command.payload()),
    ensures
        decode_line(line) == Ok::<ServerCommandView, DeserializeCommandFault>(command),
{
    let text = command.payload().written();
    lemma_registered_names();
    lemma_split_at_space(command.name(), text);
    lemma_decode_reads_back(command, text);
}

/// A command without fields comes back from its frame, whatever the JSON
/// reader and writer do: its payload is empty, and so is the text of it.
pub proof fn lemma_empty_payload_reads_back()
    ensures
        PayloadValue::Empty.reads_back(),
{
}

} // verus!
