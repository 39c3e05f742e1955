//! A line chat client: what the server says is printed, what the user types is sent.
//!
//! The client connects to the server, reads lines from it and from standard input, whichever
//! come first, and writes to the server. `respond` says what to do about each of these.

use vstd::prelude::*;
use vstd::string::*;
use vstd::utf8::*;

verus! {

/// The byte that ends a line on the wire.
pub const NEWLINE: u8 = 10;

/// What came of reading a line.
pub enum Read {
    /// A line, without its end.
    Line(String),
    /// There are no more lines.
    End,
    /// The line could not be read, for the reason that the text describes.
    Failed(String),
}

/// Something happened. `E` is the error of an operation on the connection.
pub enum Event<E> {
    /// The connection to the server was made, or could not be.
    Connected(Result<(), E>),
    /// A line was read from the server.
    Server(Read),
    /// A line was read from standard input.
    Stdin(Read),
    /// The bytes for the server were written, or could not be.
    Sent(Result<(), E>),
}

/// What to do about an event.
pub enum Action<E> {
    /// Read the next line.
    Proceed,
    /// Print a line to standard output, and read the next one.
    Print(String),
    /// Print a line to standard error, and read the next one.
    Report(String),
    /// Write bytes to the server.
    Send(Vec<u8>),
    /// Print a last line to standard output, and stop.
    Quit(String),
    /// Stop with the error.
    Fail(E),
}

/// `Read`, as a mathematical value.
pub enum ReadModel {
    /// A line.
    Line(Seq<char>),
    /// No more lines.
    End,
    /// A failure.
    Failed(Seq<char>),
}

/// `Event`, as a mathematical value.
pub enum EventModel<E> {
    /// The connection was made or not.
    Connected(Result<(), E>),
    /// From the server.
    Server(ReadModel),
    /// From standard input.
    Stdin(ReadModel),
    /// The bytes were written or not.
    Sent(Result<(), E>),
}

/// `Action`, as a mathematical value.
pub enum ActionModel<E> {
    /// Nothing but the next line.
    Proceed,
    /// A line for standard output.
    Print(Seq<char>),
    /// A line for standard error.
    Report(Seq<char>),
    /// Bytes for the server.
    Send(Seq<u8>),
    /// The last line.
    Quit(Seq<char>),
    /// The error.
    Fail(E),
}

impl View for Read {
    type V = ReadModel;

    open spec fn view(&self) -> ReadModel {
        match *self {
            Read::Line(line) => ReadModel::Line(line@),
            Read::End => ReadModel::End,
            Read::Failed(reason) => ReadModel::Failed(reason@),
        }
    }
}

impl<E> View for Event<E> {
    type V = EventModel<E>;

    open spec fn view(&self) -> EventModel<E> {
        match *self {
            Event::Connected(outcome) => EventModel::Connected(outcome),
            Event::Server(read) => EventModel::Server(read@),
            Event::Stdin(read) => EventModel::Stdin(read@),
            Event::Sent(outcome) => EventModel::Sent(outcome),
        }
    }
}

impl<E> View for Action<E> {
    type V = ActionModel<E>;

    open spec fn view(&self) -> ActionModel<E> {
        match *self {
            Action::Proceed => ActionModel::Proceed,
            Action::Print(line) => ActionModel::Print(line@),
            Action::Report(line) => ActionModel::Report(line@),
            Action::Send(bytes) => ActionModel::Send(bytes@),
            Action::Quit(line) => ActionModel::Quit(line@),
            Action::Fail(error) => ActionModel::Fail(error),
        }
    }
}

/// A line as it goes over the wire.
pub open spec fn wire_line(line: Seq<char>) -> Seq<u8> {
    encode_utf8(line).push(NEWLINE)
}

/// The report of a read that failed.
pub open spec fn failure_report(reason: Seq<char>) -> Seq<char> {
    "Error "@ + reason + ":"@
}

/// What the client says last.
pub open spec fn farewell() -> Seq<char> {
    "Server disconnected! Hit enter to quit."@
}

/// The answer to an event: lines of the server are printed, lines of the user are sent, and
/// reads that failed are reported. The end of either side's lines ends the client with a
/// farewell, and a connection or a write that failed ends it with the error.
pub open spec fn response<E>(event: EventModel<E>) -> ActionModel<E> {
    match event {
        EventModel::Connected(Ok(_)) => ActionModel::Proceed,
        EventModel::Sent(Ok(_)) => ActionModel::Proceed,
        EventModel::Connected(Err(error)) => ActionModel::Fail(error),
        EventModel::Sent(Err(error)) => ActionModel::Fail(error),
        EventModel::Server(ReadModel::Line(line)) => ActionModel::Print(line),
        EventModel::Stdin(ReadModel::Line(line)) => ActionModel::Send(wire_line(line)),
        EventModel::Server(ReadModel::End) => ActionModel::Quit(farewell()),
        EventModel::Stdin(ReadModel::End) => ActionModel::Quit(farewell()),
        EventModel::Server(ReadModel::Failed(reason)) => ActionModel::Report(
            failure_report(reason),
        ),
        EventModel::Stdin(ReadModel::Failed(reason)) => ActionModel::Report(
            failure_report(reason),
        ),
    }
}

/// What to do about `event`.
pub fn respond<E>(event: Event<E>) -> (action: Action<E>)
    ensures
        action@ == response(event@),
        match event {
            Event::Connected(Ok(_)) => action is Proceed,
            Event::Sent(Ok(_)) => action is Proceed,
            Event::Connected(Err(error)) => action matches Action::Fail(e) && e == error,
            Event::Sent(Err(error)) => action matches Action::Fail(e) && e == error,
            Event::Server(Read::Line(line)) => action matches Action::Print(text) && text@ == line@,
            Event::Stdin(Read::Line(line)) => action matches Action::Send(bytes) && bytes@
                == encode_utf8(line@) + seq![10u8],
            Event::Server(Read::End) => action matches Action::Quit(text) && text@
                == "Server disconnected! Hit enter to quit."@,
            Event::Stdin(Read::End) => action matches Action::Quit(text) && text@
                == "Server disconnected! Hit enter to quit."@,
            Event::Server(Read::Failed(reason)) => action matches Action::Report(text) && text@
                == "Error "@ + reason@ + ":"@,
            Event::Stdin(Read::Failed(reason)) => action matches Action::Report(text) && text@
                == "Error "@ + reason@ + ":"@,
        },
{
    match event {
        Event::Connected(Ok(_)) | Event::Sent(Ok(_)) => Action::Proceed,
        Event::Connected(Err(error)) | Event::Sent(Err(error)) => Action::Fail(error),
        Event::Server(Read::Line(line)) => Action::Print(line),
        Event::Stdin(Read::Line(line)) => {
            let mut bytes = line.as_str().as_bytes_vec();
            bytes.push(NEWLINE);
            assert(bytes@ =~= encode_utf8(line@) + seq![10u8]);
            Action::Send(bytes)
        },
        Event::Server(Read::End) | Event::Stdin(Read::End) => Action::Quit(
            "Server disconnected! Hit enter to quit.".to_owned(),
        ),
        Event::Server(Read::Failed(reason)) | Event::Stdin(Read::Failed(reason)) => {
            let mut line = "Error ".to_owned();
            line.append(reason.as_str());
            line.append(":");
            Action::Report(line)
        },
    }
}

/// What a client did in a session.
pub struct Session<E> {
    /// The lines on standard output, without the last one.
    pub printed: Seq<Seq<char>>,
    /// The lines on standard error.
    pub reported: Seq<Seq<char>>,
    /// The bytes that were to be written to the server.
    pub sent: Seq<u8>,
    /// The last line on standard output, if there was one.
    pub farewell: Option<Seq<char>>,
    /// The error that the client stopped with, if it did.
    pub failure: Option<E>,
}

/// A session in which nothing has happened.
pub open spec fn silence<E>() -> Session<E> {
    Session {
        printed: Seq::empty(),
        reported: Seq::empty(),
        sent: Seq::empty(),
        farewell: None,
        failure: None,
    }
}

/// What a client does that is given `events` in order.
pub open spec fn session<E>(events: Seq<EventModel<E>>) -> Session<E>
    decreases events.len(),
{
    if events.len() == 0 {
        silence()
    } else {
        let rest = session(events.skip(1));
        match response(events[0]) {
            ActionModel::Proceed => rest,
            ActionModel::Print(line) => Session { printed: seq![line] + rest.printed, ..rest },
            ActionModel::Report(line) => Session { reported: seq![line] + rest.reported, ..rest },
            ActionModel::Send(bytes) => Session { sent: bytes + rest.sent, ..rest },
            ActionModel::Quit(line) => Session { farewell: Some(line), ..silence() },
            ActionModel::Fail(error) => Session { failure: Some(error), ..silence() },
        }
    }
}

/// Whether `event` is the end of the server's lines or of the user's.
pub open spec fn is_end<E>(event: EventModel<E>) -> bool {
    match event {
        EventModel::Server(ReadModel::End) => true,
        EventModel::Stdin(ReadModel::End) => true,
        _ => false,
    }
}

/// The error of a connection or of a write that failed, if `event` is one.
pub open spec fn failure_of<E>(event: EventModel<E>) -> Option<E> {
    match event {
        EventModel::Connected(Err(error)) => Some(error),
        EventModel::Sent(Err(error)) => Some(error),
        _ => None,
    }
}

/// Whether `event` stops the client.
pub open spec fn is_stop<E>(event: EventModel<E>) -> bool {
    is_end(event) || failure_of(event) is Some
}

/// The lines that the server sent before the client was stopped.
pub open spec fn heard<E>(events: Seq<EventModel<E>>) -> Seq<Seq<char>>
    decreases events.len(),
{
    if events.len() == 0 || is_stop(events[0]) {
        Seq::empty()
    } else {
        match events[0] {
            EventModel::Server(ReadModel::Line(line)) => seq![line] + heard(events.skip(1)),
            _ => heard(events.skip(1)),
        }
    }
}

/// The lines that the user typed before the client was stopped.
pub open spec fn typed<E>(events: Seq<EventModel<E>>) -> Seq<Seq<char>>
    decreases events.len(),
{
    if events.len() == 0 || is_stop(events[0]) {
        Seq::empty()
    } else {
        match events[0] {
            EventModel::Stdin(ReadModel::Line(line)) => seq![line] + typed(events.skip(1)),
            _ => typed(events.skip(1)),
        }
    }
}

/// The reasons of the reads that failed before the client was stopped.
pub open spec fn troubles<E>(events: Seq<EventModel<E>>) -> Seq<Seq<char>>
    decreases events.len(),
{
    if events.len() == 0 || is_stop(events[0]) {
        Seq::empty()
    } else {
        match events[0] {
            EventModel::Server(ReadModel::Failed(reason)) => seq![reason] + troubles(
                events.skip(1),
            ),
            EventModel::Stdin(ReadModel::Failed(reason)) => seq![reason] + troubles(
                events.skip(1),
            ),
            _ => troubles(events.skip(1)),
        }
    }
}

/// How many bytes stand before the first newline in `bytes`, or in all of `bytes`.
pub open spec fn line_len(bytes: Seq<u8>) -> nat
    decreases bytes.len(),
{
    if bytes.len() == 0 || bytes[0] == NEWLINE {
        0
    } else {
        1 + line_len(bytes.skip(1))
    }
}

/// The lines in `bytes`, each of which a newline ends.
pub open spec fn wire_lines(bytes: Seq<u8>) -> Seq<Seq<u8>>
    decreases bytes.len(),
{
    let len = line_len(bytes);
    if len >= bytes.len() {
        Seq::empty()
    } else {
        seq![bytes.take(len as int)] + wire_lines(bytes.skip(len as int + 1))
    }
}

/// The first line of bytes that begin with a line.
proof fn lemma_line_len(line: Seq<u8>, rest: Seq<u8>)
    requires
        !line.contains(NEWLINE),
    ensures
        line_len(line.push(NEWLINE) + rest) == line.len(),
    decreases line.len(),
{
    let bytes = line.push(NEWLINE) + rest;
    if line.len() > 0 {
        assert(line.contains(line[0]));
        assert(bytes[0] == line[0]);
        let tail = line.skip(1);
        assert(!tail.contains(NEWLINE)) by {
            assert forall|i: int| 0 <= i < tail.len() implies tail[i] != NEWLINE by {
                assert(line.contains(line[i + 1]));
            }
        }
        lemma_line_len(tail, rest);
        assert(bytes.skip(1) =~= tail.push(NEWLINE) + rest);
    }
}

/// Only the newline character has the newline byte in its encoding.
proof fn lemma_scalar_without_newline(c: char, i: int)
    requires
        c != '\n',
        0 <= i < encode_scalar(c as u32).len(),
    ensures
        encode_scalar(c as u32)[i] != NEWLINE,
{
    let s: u32 = c as u32;
    if has_width_1_encoding(s) {
        assert((s & 0x7f) as u8 != 10) by (bit_vector)
            requires
                s <= 0x7f,
                s != 10,
        ;
    } else {
        let low: u8 = (s & 0x3f) as u8;
        let mid: u8 = ((s >> 6) & 0x3f) as u8;
        let high: u8 = ((s >> 12) & 0x3f) as u8;
        assert(0x80 | low != 10 && 0x80 | mid != 10 && 0x80 | high != 10) by (bit_vector);
        let two: u8 = ((s >> 6) & 0x1f) as u8;
        let three: u8 = ((s >> 12) & 0x0f) as u8;
        let four: u8 = ((s >> 18) & 0x7) as u8;
        assert(0xc0 | two != 10 && 0xe0 | three != 10 && 0xf0 | four != 10) by (bit_vector);
    }
}

/// A line without a newline character has no newline byte in its encoding.
proof fn lemma_encoding_without_newline(line: Seq<char>)
    requires
        !line.contains('\n'),
    ensures
        !encode_utf8(line).contains(NEWLINE),
    decreases line.len(),
{
    if line.len() > 0 {
        let first = encode_scalar(line[0] as u32);
        let tail = line.drop_first();
        assert(line.contains(line[0]));
        assert(!tail.contains('\n')) by {
            assert forall|i: int| 0 <= i < tail.len() implies tail[i] != '\n' by {
                assert(line.contains(line[i + 1]));
            }
        }
        lemma_encoding_without_newline(tail);
        let rest = encode_utf8(tail);
        assert forall|i: int| 0 <= i < encode_utf8(line).len() implies encode_utf8(line)[i]
            != NEWLINE by {
            if i < first.len() {
                lemma_scalar_without_newline(line[0], i);
            } else {
                assert(rest.contains(rest[i - first.len()]));
            }
        }
    }
}

/// A line on the wire is the whole line in UTF-8 and one newline byte behind it: without that last
/// byte it decodes to the line.
pub proof fn law_wire_line_decodes(line: Seq<char>)
    ensures
        wire_line(line).len() == encode_utf8(line).len() + 1,
        wire_line(line).last() == 10,
        decode_utf8(wire_line(line).drop_last()) == line,
{
    assert(wire_line(line).drop_last() =~= encode_utf8(line));
    encode_utf8_decode_utf8(line);
}

/// What the client does about each event: a line of the server is printed and nothing else, a line
/// of the user is sent and nothing else. Either end gets the same farewell, and a read that
/// failed the same report from either side. An operation that worked calls for nothing, and
/// the error of one that failed is passed on.
pub proof fn law_responses<E>(text: Seq<char>, error: E)
    ensures
        response::<E>(EventModel::Server(ReadModel::Line(text))) == ActionModel::<E>::Print(text),
        response::<E>(EventModel::Stdin(ReadModel::Line(text))) == ActionModel::<E>::Send(
            encode_utf8(text) + seq![10u8],
        ),
        response::<E>(EventModel::Server(ReadModel::End)) == ActionModel::<E>::Quit(
            "Server disconnected! Hit enter to quit."@,
        ),
        response::<E>(EventModel::Stdin(ReadModel::End)) == response::<E>(
            EventModel::Server(ReadModel::End),
        ),
        response::<E>(EventModel::Server(ReadModel::Failed(text))) == ActionModel::<E>::Report(
            "Error "@ + text + ":"@,
        ),
        response::<E>(EventModel::Stdin(ReadModel::Failed(text))) == response::<E>(
            EventModel::Server(ReadModel::Failed(text)),
        ),
        response::<E>(EventModel::Connected(Ok(()))) == ActionModel::<E>::Proceed,
        response::<E>(EventModel::Sent(Ok(()))) == ActionModel::<E>::Proceed,
        response(EventModel::Connected(Err(error))) == ActionModel::Fail(error),
        response(EventModel::Sent(Err(error))) == ActionModel::Fail(error),
{
    assert(wire_line(text) =~= encode_utf8(text) + seq![10u8]);
}

/// Every line that the server sent is printed as it is, in order, and nothing else is.
pub proof fn law_server_lines_are_printed<E>(events: Seq<EventModel<E>>)
    ensures
        session(events).printed == heard(events),
    decreases events.len(),
{
    if events.len() > 0 {
        law_server_lines_are_printed(events.skip(1));
    }
}

/// Every read that failed is reported, in order, and nothing else is.
pub proof fn law_failed_reads_are_reported<E>(events: Seq<EventModel<E>>)
    ensures
        session(events).reported == troubles(events).map_values(
            |reason: Seq<char>| failure_report(reason),
        ),
    decreases events.len(),
{
    let report = |reason: Seq<char>| failure_report(reason);
    if events.len() > 0 {
        law_failed_reads_are_reported(events.skip(1));
    }
    assert(session(events).reported =~= troubles(events).map_values(report));
}

/// What goes to the server is every line that the user typed, in order, each with its end, and
/// nothing else.
pub proof fn law_typed_lines_are_sent<E>(events: Seq<EventModel<E>>)
    ensures
        session(events).sent == typed(events).map_values(
            |line: Seq<char>| wire_line(line),
        ).flatten(),
    decreases events.len(),
{
    let wire = |line: Seq<char>| wire_line(line);
    let lines = typed(events).map_values(wire);
    if events.len() > 0 && !is_stop(events[0]) {
        let rest = events.skip(1);
        law_typed_lines_are_sent(rest);
        match events[0] {
            EventModel::Stdin(ReadModel::Line(line)) => {
                assert(lines.first() == wire_line(line));
                assert(lines.drop_first() =~= typed(rest).map_values(wire));
            },
            _ => {},
        }
    } else {
        assert(lines =~= Seq::empty());
    }
}

/// The lines that the bytes sent hold are the encodings of those typed, in order. A line that
/// was read holds no newline, for a newline is what ended it.
pub proof fn law_typed_lines_read_back<E>(events: Seq<EventModel<E>>)
    requires
        forall|i: int|
            0 <= i < typed(events).len() ==> !(#[trigger] typed(events)[i]).contains('\n'),
    ensures
        wire_lines(session(events).sent) == typed(events).map_values(
            |line: Seq<char>| encode_utf8(line),
        ),
    decreases events.len(),
{
    let encode = |line: Seq<char>| encode_utf8(line);
    if events.len() > 0 && !is_stop(events[0]) {
        let rest = events.skip(1);
        match events[0] {
            EventModel::Stdin(ReadModel::Line(line)) => {
                assert(typed(events)[0] == line);
                assert forall|i: int| 0 <= i < typed(rest).len() implies !(
                #[trigger] typed(rest)[i]).contains('\n') by {
                    assert(typed(events)[i + 1] == typed(rest)[i]);
                }
                law_typed_lines_read_back(rest);
                let bytes = encode_utf8(line);
                let later = session(rest).sent;
                let sent = session(events).sent;
                lemma_encoding_without_newline(line);
                lemma_line_len(bytes, later);
                assert(sent == bytes.push(NEWLINE) + later);
                assert(sent.take(bytes.len() as int) =~= bytes);
                assert(sent.skip(bytes.len() as int + 1) =~= later);
                assert(wire_lines(sent) =~= typed(events).map_values(encode));
            },
            _ => {
                law_typed_lines_read_back(rest);
            },
        }
    } else {
        assert(session(events).sent =~= Seq::empty());
        assert(wire_lines(session(events).sent) =~= typed(events).map_values(encode));
    }
}

/// The first event that stops the client decides how it ends. The end of either side's lines
/// ends it with the farewell and without an error, a connection or a write that failed ends it
/// with the error and without the farewell.
pub proof fn law_first_stop_decides<E>(events: Seq<EventModel<E>>, k: int)
    requires
        0 <= k < events.len(),
        is_stop(events[k]),
        forall|i: int| 0 <= i < k ==> !is_stop(#[trigger] events[i]),
    ensures
        session(events).farewell == if is_end(events[k]) {
            Some(farewell())
        } else {
            None
        },
        session(events).failure == failure_of(events[k]),
    decreases events.len(),
{
    if k > 0 {
        let rest = events.skip(1);
        assert(!is_stop(events[0]));
        assert forall|i: int| 0 <= i < k - 1 implies !is_stop(#[trigger] rest[i]) by {
            assert(!is_stop(events[i + 1]));
        }
        law_first_stop_decides(rest, k - 1);
    }
}

/// A client that nothing stops goes on: neither lines nor failed reads end it.
pub proof fn law_nothing_else_stops_the_client<E>(events: Seq<EventModel<E>>)
    requires
        forall|i: int| 0 <= i < events.len() ==> !is_stop(#[trigger] events[i]),
    ensures
        session(events).farewell is None,
        session(events).failure is None,
    decreases events.len(),
{
    if events.len() > 0 {
        let rest = events.skip(1);
        assert(!is_stop(events[0]));
        assert forall|i: int| 0 <= i < rest.len() implies !is_stop(#[trigger] rest[i]) by {
            assert(!is_stop(events[i + 1]));
        }
        law_nothing_else_stops_the_client(rest);
    }
}

/// What comes after the event that stops the client has no effect.
pub proof fn law_nothing_follows_a_stop<E>(
    before: Seq<EventModel<E>>,
    stop: EventModel<E>,
    after: Seq<EventModel<E>>,
)
    requires
        is_stop(stop),
    ensures
        session(before + seq![stop] + after) == session(before + seq![stop]),
    decreases before.len(),
{
    let events = before + seq![stop] + after;
    let cut = before + seq![stop];
    if before.len() > 0 {
        let rest = before.skip(1);
        law_nothing_follows_a_stop(rest, stop, after);
        assert(events.skip(1) =~= rest + seq![stop] + after);
        assert(cut.skip(1) =~= rest + seq![stop]);
    }
}

} // verus!
