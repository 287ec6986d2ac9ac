use hanabi_bot::command::deserialize::{DeserializeCommandError, PayloadError};
use hanabi_bot::command::server::{Error, Left, Table, Warning};
use hanabi_bot::command::{Parse, SessionError, TableID};

fn parts<'a>(parse: Parse<'a, u32>) -> Option<(&'a str, &'a str)> {
    match parse {
        Parse::Continue(name, data) => Some((name, data)),
        Parse::Break(_) => None,
    }
}

fn done(parse: Parse<'_, u32>) -> Option<Result<u32, SessionError>> {
    match parse {
        Parse::Continue(_, _) => None,
        Parse::Break(done) => Some(done),
    }
}

fn no_space() -> SessionError {
    SessionError::Frame(DeserializeCommandError::NoSpace)
}

#[test]
fn from_str_splits_at_the_first_space() {
    assert_eq!(parts(Parse::from_str("table {\"id\": 7}")), Some(("table", "{\"id\": 7}")));
    assert_eq!(parts(Parse::from_str("left ")), Some(("left", "")));
    assert_eq!(parts(Parse::from_str(" x")), Some(("", "x")));
    assert_eq!(parts(Parse::from_str("futureCmd {} {}")), Some(("futureCmd", "{} {}")));
}

#[test]
fn from_str_refuses_every_line_without_space() {
    for line in ["", "table", "joined", "Left", "lef", "leftt", "futureCmd", "{}", "gameHistory",
        "chatTyping", "left", "init", "gameAction", "gameActionList", "databaseID", "connected",
        "clock", "noteListPlayer"] {
        assert_eq!(done(Parse::from_str(line)), Some(Err(no_space())));
    }
}

#[test]
fn handle_command_takes_the_frame_of_its_name() {
    let parse: Parse<u32> = Parse::from_str("table {\"id\":7,\"name\":\"foo\"}");
    let parse = parse.handle_command(|_: Warning| 1);
    assert_eq!(parts(Parse::from_str("table {\"id\":7,\"name\":\"foo\"}")), Some(("table", "{\"id\":7,\"name\":\"foo\"}")));
    let parse = parse.handle_command(|table: Table| {
        assert_eq!(table, Table { id: TableID(7), name: "foo".to_string() });
        2
    });
    // A frame that was taken is not handed to a later handler.
    let parse = parse.handle_command(|_: Table| 3);
    assert_eq!(parse.unhandled(|_, _| Ok(4)), Ok(2));
}

#[test]
fn handle_command_reports_a_payload_that_it_cannot_read() {
    let parse: Parse<u32> = Parse::from_str("table {\"id\":7}");
    let parse = parse.handle_command(|_: Table| 2);
    assert_eq!(
        done(parse),
        Some(Err(SessionError::Frame(DeserializeCommandError::DeserializeDataError(
            PayloadError::Shape
        ))))
    );
    let parse: Parse<u32> = Parse::from_str("table {");
    let parse = parse.handle_command_result(|_: Table| Ok(2));
    assert!(matches!(
        done(parse),
        Some(Err(SessionError::Frame(DeserializeCommandError::DeserializeDataError(
            PayloadError::Syntax(_)
        ))))
    ));
}

#[test]
fn handle_command_result_hands_on_what_the_handler_returns() {
    let parse: Parse<u32> = Parse::from_str("error {\"error\":\"bad\"}");
    let parse = parse
        .handle_command(|_: Warning| 1)
        .handle_command_result(|Error { error }| Err(SessionError::Server(error)))
        .handle_command_result(|_: Error| Ok(3));
    assert_eq!(parse.unhandled(|_, _| Ok(4)), Err(SessionError::Server("bad".to_string())));
    let parse: Parse<u32> = Parse::from_str("left ");
    let parse = parse.handle_command_result(|_: Left| Ok(5));
    assert_eq!(done(parse), Some(Ok(5)));
}

#[test]
fn unhandled_gets_the_frame_that_nobody_took() {
    let parse: Parse<String> = Parse::from_str("futureCmd {}");
    let parse = parse.handle_command(|_: Warning| "warning".to_string());
    assert_eq!(
        parse.unhandled(|name, data| Ok(format!("{name}|{data}"))),
        Ok("futureCmd|{}".to_string())
    );
}

#[test]
fn unhandled_hands_on_a_line_that_was_no_frame() {
    let parse: Parse<u32> = Parse::from_str("garbage");
    let parse = parse.handle_command(|_: Warning| 1);
    assert_eq!(parse.unhandled(|_, _| Ok(4)), Err(no_space()));
}
