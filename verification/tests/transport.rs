use robert_core::error::RobotError;
use robert_core::transport::{
    classify_response, decode_text, device_error_in, effective_timeout, frame_command,
    response_complete,
    Exchange, ExchangeStep, LinkEvent, LINE_END, READ_WINDOW, TERMINATOR,
};

fn written(command: &str) -> Exchange {
    match Exchange::begin(command) {
        ExchangeStep::Write(exchange, _) => match exchange.step(LinkEvent::Written) {
            ExchangeStep::Read(exchange) => exchange,
            other => panic!("expected a read, got {:?}", other),
        },
        other => panic!("expected a write, got {:?}", other),
    }
}

#[test]
fn framing_constants() {
    assert_eq!(TERMINATOR, b'~');
    assert_eq!(LINE_END, b'\n');
    assert_eq!(READ_WINDOW, 1024);
}

#[test]
fn timeout_defaults_to_three_seconds() {
    assert_eq!(effective_timeout(None), 3_000);
    assert_eq!(effective_timeout(Some(35_000)), 35_000);
    assert_eq!(effective_timeout(Some(0)), 0);
}

#[test]
fn frame_appends_the_terminator() {
    assert_eq!(frame_command("CHECK>"), b"CHECK>~".to_vec());
    assert_eq!(frame_command("MOVE>J1_100;"), b"MOVE>J1_100;~".to_vec());
    assert_eq!(frame_command(""), b"~".to_vec());
}

#[test]
fn response_is_complete_at_a_terminator() {
    assert!(response_complete(b"CONNECTED~"));
    assert!(response_complete(b"CONNECTED\n"));
    assert!(response_complete(b"~"));
    assert!(!response_complete(b""));
    assert!(!response_complete(b"CONNECTED"));
    assert!(!response_complete(b"CONNECTED~ "));
    assert!(!response_complete(b"a~b"));
    assert!(!response_complete(b"CONNECTED\r"));
}

#[test]
fn every_error_code_is_recognised() {
    let table = [
        ("C001", "Command was not properly formatted"),
        ("C002", "Command not defined"),
        ("I001", "Invalid stepper"),
        ("I002", "Invalid stepper state"),
        ("I003", "Invalid limit switch conversion"),
    ];
    for (code, message) in table {
        let response = format!("{}~", code);
        assert_eq!(
            device_error_in(response.as_bytes()),
            Some(RobotError::DeviceError { code, message })
        );
        assert_eq!(
            classify_response(response.as_bytes()),
            Err(RobotError::DeviceError { code, message })
        );
    }
}

#[test]
fn error_code_counts_at_the_start_only() {
    assert_eq!(
        classify_response(b"I001: no such stepper\n"),
        Err(RobotError::DeviceError { code: "I001", message: "Invalid stepper" })
    );
    assert_eq!(device_error_in(b" I001~"), None);
    assert_eq!(device_error_in(b"i001~"), None);
    assert_eq!(device_error_in(b"I00"), None);
    assert_eq!(device_error_in(b"I004~"), None);
    assert_eq!(device_error_in(b"[STATE];I001;~"), None);
    assert_eq!(device_error_in(b""), None);
}

#[test]
fn other_responses_become_text() {
    assert_eq!(classify_response(b"CONNECTED~"), Ok("CONNECTED~".to_string()));
    assert_eq!(classify_response(b""), Ok(String::new()));
    assert_eq!(
        classify_response(b"[STEPS];J1_200;J2_UNKNOWN;~"),
        Ok("[STEPS];J1_200;J2_UNKNOWN;~".to_string())
    );
}

#[test]
fn invalid_bytes_are_replaced_in_the_text() {
    assert_eq!(classify_response(b"OK\xff~"), Ok("OK\u{fffd}~".to_string()));
    assert_eq!(classify_response(b"\xc3\xa9~"), Ok("\u{e9}~".to_string()));
    assert_eq!(classify_response(b"\xc3~"), Ok("\u{fffd}~".to_string()));
}

#[test]
fn exchange_begins_with_one_write_of_the_whole_frame() {
    assert_eq!(
        Exchange::begin("SETVEL>200"),
        ExchangeStep::Write(
            Exchange { awaiting_write: true, received: vec![] },
            b"SETVEL>200~".to_vec()
        )
    );
}

#[test]
fn exchange_reads_after_the_write() {
    let exchange = Exchange { awaiting_write: true, received: vec![] };
    assert_eq!(
        exchange.step(LinkEvent::Written),
        ExchangeStep::Read(Exchange { awaiting_write: false, received: vec![] })
    );
}

#[test]
fn exchange_fails_when_the_write_fails() {
    let exchange = Exchange { awaiting_write: true, received: vec![] };
    assert_eq!(
        exchange.step(LinkEvent::WriteFailed),
        ExchangeStep::Done(Err(RobotError::TransportWriteError))
    );
}

#[test]
fn exchange_accumulates_until_a_terminator() {
    let exchange = written("STATE>");
    let exchange = match exchange.step(LinkEvent::Received(b"[STATE];J1_".to_vec())) {
        ExchangeStep::Read(exchange) => exchange,
        other => panic!("expected a read, got {:?}", other),
    };
    assert_eq!(exchange.received, b"[STATE];J1_".to_vec());
    let exchange = match exchange.step(LinkEvent::Received(vec![])) {
        ExchangeStep::Read(exchange) => exchange,
        other => panic!("expected a read, got {:?}", other),
    };
    assert_eq!(exchange.received, b"[STATE];J1_".to_vec());
    assert_eq!(
        exchange.step(LinkEvent::Received(b"ENABLED;~".to_vec())),
        ExchangeStep::Done(Ok("[STATE];J1_ENABLED;~".to_string()))
    );
}

#[test]
fn exchange_ends_at_a_line_end() {
    assert_eq!(
        written("CHECK>").step(LinkEvent::Received(b"CONNECTED\n".to_vec())),
        ExchangeStep::Done(Ok("CONNECTED\n".to_string()))
    );
}

#[test]
fn exchange_reports_a_device_error() {
    assert_eq!(
        written("MOVE>J9_1;").step(LinkEvent::Received(b"I001~".to_vec())),
        ExchangeStep::Done(Err(RobotError::DeviceError {
            code: "I001",
            message: "Invalid stepper"
        }))
    );
}

#[test]
fn exchange_times_out_without_a_partial_response() {
    let exchange = written("STEPS>");
    let exchange = match exchange.step(LinkEvent::Received(b"[STEPS];J1_2".to_vec())) {
        ExchangeStep::Read(exchange) => exchange,
        other => panic!("expected a read, got {:?}", other),
    };
    assert_eq!(
        exchange.step(LinkEvent::TimedOut),
        ExchangeStep::Done(Err(RobotError::ResponseTimeout))
    );
    let unwritten = Exchange { awaiting_write: true, received: vec![] };
    assert_eq!(
        unwritten.step(LinkEvent::TimedOut),
        ExchangeStep::Done(Err(RobotError::ResponseTimeout))
    );
}

#[test]
fn exchange_fails_when_a_read_fails() {
    assert_eq!(
        written("STEPS>").step(LinkEvent::ReadFailed),
        ExchangeStep::Done(Err(RobotError::TransportReadError))
    );
}

#[test]
fn exchange_ends_on_a_report_that_was_not_asked_for() {
    let unwritten = Exchange { awaiting_write: true, received: vec![] };
    assert_eq!(
        unwritten.step(LinkEvent::Received(b"CONNECTED~".to_vec())),
        ExchangeStep::Done(Err(RobotError::TransportReadError))
    );
    assert_eq!(
        written("CHECK>").step(LinkEvent::Written),
        ExchangeStep::Done(Err(RobotError::TransportWriteError))
    );
    assert_eq!(
        written("CHECK>").step(LinkEvent::WriteFailed),
        ExchangeStep::Done(Err(RobotError::TransportWriteError))
    );
}

#[test]
fn two_exchanges_write_one_whole_frame_each() {
    // Whatever is reported to either exchange, and in whatever order the two are
    // stepped, the only writes are the two whole frames asked for at the start.
    let (velocity, velocity_frame) = match Exchange::begin("SETVEL>200") {
        ExchangeStep::Write(exchange, frame) => (exchange, frame),
        other => panic!("expected a write, got {:?}", other),
    };
    let (state, state_frame) = match Exchange::begin("STATE>") {
        ExchangeStep::Write(exchange, frame) => (exchange, frame),
        other => panic!("expected a write, got {:?}", other),
    };
    assert_eq!(velocity_frame, b"SETVEL>200~".to_vec());
    assert_eq!(state_frame, b"STATE>~".to_vec());

    let mut steps = vec![
        velocity.step(LinkEvent::Written),
        state.step(LinkEvent::Written),
    ];
    let reports = [
        LinkEvent::Received(b"O".to_vec()),
        LinkEvent::Received(b"[STATE];".to_vec()),
        LinkEvent::Written,
        LinkEvent::Received(b"J1_ENABLED;~".to_vec()),
    ];
    let mut turn = 0;
    for report in reports {
        let step = steps.remove(turn % steps.len());
        assert!(!matches!(step, ExchangeStep::Write(_, _)));
        if let ExchangeStep::Read(exchange) = step {
            let next = exchange.step(report);
            assert!(!matches!(next, ExchangeStep::Write(_, _)));
            steps.push(next);
        } else {
            steps.push(step);
        }
        turn += 1;
    }
}

#[test]
fn decode_text_keeps_utf8_and_replaces_the_rest() {
    assert_eq!(decode_text(b"[STEPS];J1_200;~"), "[STEPS];J1_200;~");
    assert_eq!(decode_text("J1 \u{e9}\u{20ac}\u{1f600}".as_bytes()), "J1 \u{e9}\u{20ac}\u{1f600}");
    assert_eq!(decode_text(b""), "");
    assert_eq!(decode_text(b"a\xffb"), "a\u{fffd}b");
    assert_eq!(decode_text(b"\x80"), "\u{fffd}");
    assert_eq!(decode_text(b"\xed\xa0\x80").chars().all(|c| c == '\u{fffd}'), true);
}
