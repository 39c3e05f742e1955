use dk::client::{respond, Action, Event, Read, NEWLINE};

fn answer(event: Event<String>) -> Action<String> {
    respond(event)
}

fn line(text: &str) -> Read {
    Read::Line(text.to_string())
}

#[test]
fn server_lines_are_printed() {
    match answer(Event::Server(line("hello \u{e9}"))) {
        Action::Print(text) => assert_eq!(text, "hello \u{e9}"),
        _ => panic!(),
    }
}

#[test]
fn typed_lines_are_sent_with_a_newline() {
    match answer(Event::Stdin(line("hi"))) {
        Action::Send(bytes) => assert_eq!(bytes, b"hi\n".to_vec()),
        _ => panic!(),
    }
    match answer(Event::Stdin(line(""))) {
        Action::Send(bytes) => assert_eq!(bytes, b"\n".to_vec()),
        _ => panic!(),
    }
}

#[test]
fn typed_lines_are_sent_as_utf8() {
    match answer(Event::Stdin(line("\u{e9}\u{20ac}"))) {
        Action::Send(bytes) => assert_eq!(bytes, vec![0xc3, 0xa9, 0xe2, 0x82, 0xac, NEWLINE]),
        _ => panic!(),
    }
}

#[test]
fn sent_lines_read_back() {
    let lines = ["first", "", "\u{10a}\u{200a}\u{1000a}", "last"];
    let mut wire = Vec::new();
    for text in lines {
        match answer(Event::Stdin(line(text))) {
            Action::Send(bytes) => wire.extend(bytes),
            _ => panic!(),
        }
    }
    let read: Vec<String> = String::from_utf8(wire).unwrap().lines().map(String::from).collect();
    assert_eq!(read, lines);
}

#[test]
fn either_end_quits() {
    for event in [Event::Server(Read::End), Event::Stdin(Read::End)] {
        match answer(event) {
            Action::Quit(text) => assert_eq!(text, "Server disconnected! Hit enter to quit."),
            _ => panic!(),
        }
    }
}

#[test]
fn failures_are_reported() {
    for event in [
        Event::Server(Read::Failed("Reset".to_string())),
        Event::Stdin(Read::Failed("Reset".to_string())),
    ] {
        match answer(event) {
            Action::Report(text) => assert_eq!(text, "Error Reset:"),
            _ => panic!(),
        }
    }
}

#[test]
fn connection_and_writes_that_work_let_the_client_proceed() {
    assert!(matches!(answer(Event::Connected(Ok(()))), Action::Proceed));
    assert!(matches!(answer(Event::Sent(Ok(()))), Action::Proceed));
}

#[test]
fn connection_and_writes_that_fail_stop_with_the_error() {
    for event in [
        Event::Connected(Err("Refused".to_string())),
        Event::Sent(Err("Refused".to_string())),
    ] {
        match answer(event) {
            Action::Fail(error) => assert_eq!(error, "Refused"),
            _ => panic!(),
        }
    }
}

struct Ran {
    printed: Vec<String>,
    reported: Vec<String>,
    sent: Vec<u8>,
    failure: Option<String>,
}

fn run(events: Vec<Event<String>>) -> Ran {
    let mut ran = Ran { printed: vec![], reported: vec![], sent: vec![], failure: None };
    for event in events {
        match answer(event) {
            Action::Proceed => {}
            Action::Print(text) => ran.printed.push(text),
            Action::Report(text) => ran.reported.push(text),
            Action::Send(bytes) => ran.sent.extend(bytes),
            Action::Quit(text) => {
                ran.printed.push(text);
                break;
            }
            Action::Fail(error) => {
                ran.failure = Some(error);
                break;
            }
        }
    }
    ran
}

#[test]
fn session_runs_to_the_first_end() {
    let ran = run(vec![
        Event::Connected(Ok(())),
        Event::Server(line("welcome")),
        Event::Stdin(line("hi")),
        Event::Sent(Ok(())),
        Event::Stdin(Read::Failed("Again".to_string())),
        Event::Server(line("hi yourself")),
        Event::Stdin(line("bye")),
        Event::Sent(Ok(())),
        Event::Stdin(Read::End),
        Event::Server(line("too late")),
        Event::Stdin(line("too late")),
    ]);
    assert_eq!(ran.printed, ["welcome", "hi yourself", "Server disconnected! Hit enter to quit."]);
    assert_eq!(ran.reported, ["Error Again:"]);
    assert_eq!(ran.sent, b"hi\nbye\n".to_vec());
    assert_eq!(ran.failure, None);
}

#[test]
fn session_with_a_failed_write_has_no_farewell() {
    let ran = run(vec![
        Event::Connected(Ok(())),
        Event::Server(line("welcome")),
        Event::Stdin(line("hi")),
        Event::Sent(Err("Broken".to_string())),
        Event::Server(Read::End),
    ]);
    assert_eq!(ran.printed, ["welcome"]);
    assert_eq!(ran.failure, Some("Broken".to_string()));
}

#[test]
fn session_that_does_not_connect_prints_nothing() {
    let ran = run(vec![Event::Connected(Err("Refused".to_string())), Event::Stdin(Read::End)]);
    assert!(ran.printed.is_empty());
    assert!(ran.sent.is_empty());
    assert_eq!(ran.failure, Some("Refused".to_string()));
}

#[test]
fn session_without_a_stop_goes_on() {
    let ran = run(vec![Event::Connected(Ok(())), Event::Server(Read::Failed("x".to_string()))]);
    assert!(ran.printed.is_empty());
    assert_eq!(ran.failure, None);
}
