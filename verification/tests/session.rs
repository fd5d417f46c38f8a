use wiretrap::session::{farewell_payload, step, Directive, Event, HandlerState, ReadOutcome};

fn data(bytes: &[u8]) -> Event {
    Event::Read(ReadOutcome::Data(bytes.to_vec()))
}

#[test]
fn farewell_is_goodbye_line() {
    assert_eq!(farewell_payload(), b"Goodbye!\n".to_vec());
}

#[test]
fn successful_handshake_opens_read_loop() {
    let (state, directive) = step(HandlerState::Handshaking, Event::Handshake(true));
    assert_eq!(state, HandlerState::Reading);
    assert_eq!(directive, Directive::AwaitRead);
}

#[test]
fn failed_handshake_closes_without_response() {
    let (state, directive) = step(HandlerState::Handshaking, Event::Handshake(false));
    assert_eq!(state, HandlerState::Closed);
    assert_eq!(directive, Directive::Close);
}

#[test]
fn exit_yields_farewell_then_close() {
    let (state, directive) = step(HandlerState::Reading, data(b"exit\n"));
    assert_eq!(state, HandlerState::Closed);
    assert_eq!(directive, Directive::WriteAndClose(b"Goodbye!\n".to_vec()));
}

#[test]
fn exit_after_prior_commands_still_yields_farewell() {
    let (state, _) = step(HandlerState::Handshaking, Event::Handshake(true));
    let (state, _) = step(state, data(b"bar\n"));
    let (state, _) = step(state, data(b"qux\n"));
    let (state, directive) = step(state, data(b"exit\n"));
    assert_eq!(state, HandlerState::Closed);
    assert_eq!(directive, Directive::WriteAndClose(b"Goodbye!\n".to_vec()));
}

#[test]
fn invalid_utf8_closes_connection() {
    let (state, directive) = step(HandlerState::Reading, data(&[0xff, 0xfe, 0x80]));
    assert_eq!(state, HandlerState::Closed);
    assert_eq!(directive, Directive::Close);
}

#[test]
fn invalid_utf8_after_valid_command_closes_connection() {
    let (state, directive) = step(HandlerState::Reading, data(b"bar\n"));
    assert_eq!(state, HandlerState::Reading);
    assert_eq!(directive, Directive::AwaitRead);
    let (state, directive) = step(state, data(b"exit\xf0\x28"));
    assert_eq!(state, HandlerState::Closed);
    assert_eq!(directive, Directive::Close);
}

#[test]
fn foo_runs_listing_and_writes_captured_output() {
    let (state, directive) = step(HandlerState::Reading, data(b"foo\n"));
    assert_eq!(state, HandlerState::AwaitingListing);
    assert_eq!(directive, Directive::RunListing);
    // The action is substitutable: whatever output it captured is the payload.
    let mock_output = b"total 0\ndrwxr-xr-x .\n".to_vec();
    let (state, directive) = step(state, Event::ListingDone(Some(mock_output.clone())));
    assert_eq!(state, HandlerState::Writing);
    assert_eq!(directive, Directive::Write(mock_output));
    let (state, directive) = step(state, Event::WriteDone(true));
    assert_eq!(state, HandlerState::Reading);
    assert_eq!(directive, Directive::AwaitRead);
}

#[test]
fn failed_listing_keeps_connection_open_without_payload() {
    let (state, _) = step(HandlerState::Reading, data(b"foo\n"));
    let (state, directive) = step(state, Event::ListingDone(None));
    assert_eq!(state, HandlerState::Reading);
    assert_eq!(directive, Directive::AwaitRead);
}

#[test]
fn failed_write_closes_connection() {
    let (state, _) = step(HandlerState::Reading, data(b"foo\n"));
    let (state, _) = step(state, Event::ListingDone(Some(b"out\n".to_vec())));
    let (state, directive) = step(state, Event::WriteDone(false));
    assert_eq!(state, HandlerState::Closed);
    assert_eq!(directive, Directive::Close);
}

#[test]
fn bar_is_acknowledged_silently() {
    let (state, directive) = step(HandlerState::Reading, data(b"bar\n"));
    assert_eq!(state, HandlerState::Reading);
    assert_eq!(directive, Directive::AwaitRead);
}

#[test]
fn unknown_token_is_ignored_and_exit_still_works() {
    let (state, directive) = step(HandlerState::Reading, data(b"qux\n"));
    assert_eq!(state, HandlerState::Reading);
    assert_eq!(directive, Directive::AwaitRead);
    let (state, directive) = step(state, data(b"exit\n"));
    assert_eq!(state, HandlerState::Closed);
    assert_eq!(directive, Directive::WriteAndClose(b"Goodbye!\n".to_vec()));
}

#[test]
fn bar_then_exit_scenario() {
    // Two reads: nothing after `bar`, then exactly the farewell after `exit`.
    let (state, directive) = step(HandlerState::Reading, data(b"bar\n"));
    assert_eq!(state, HandlerState::Reading);
    assert_eq!(directive, Directive::AwaitRead);
    let (state, directive) = step(state, data(b"exit\n"));
    assert_eq!(state, HandlerState::Closed);
    assert_eq!(directive, Directive::WriteAndClose(b"Goodbye!\n".to_vec()));
}

#[test]
fn interleaved_connections_never_cross() {
    // Two sessions driven with interleaved commands behave exactly as each
    // would alone, and each response goes to the session that asked for it.
    let (a, a_dir) = step(HandlerState::Reading, data(b"foo\n"));
    let (b, b_dir) = step(HandlerState::Reading, data(b"bar\n"));
    assert_eq!(a, HandlerState::AwaitingListing);
    assert_eq!(a_dir, Directive::RunListing);
    assert_eq!(b, HandlerState::Reading);
    assert_eq!(b_dir, Directive::AwaitRead);
    let (a, a_dir) = step(a, Event::ListingDone(Some(b"listing for a\n".to_vec())));
    let (b, b_dir) = step(b, data(b"exit\n"));
    assert_eq!(a_dir, Directive::Write(b"listing for a\n".to_vec()));
    assert_eq!(a, HandlerState::Writing);
    assert_eq!(b_dir, Directive::WriteAndClose(b"Goodbye!\n".to_vec()));
    assert_eq!(b, HandlerState::Closed);
    let (a, a_dir) = step(a, Event::WriteDone(true));
    assert_eq!((a, a_dir), (HandlerState::Reading, Directive::AwaitRead));
}

#[test]
fn eof_closes_connection() {
    let (state, directive) = step(HandlerState::Reading, Event::Read(ReadOutcome::Eof));
    assert_eq!(state, HandlerState::Closed);
    assert_eq!(directive, Directive::Close);
}

#[test]
fn read_error_closes_connection() {
    let (state, directive) = step(HandlerState::Reading, Event::Read(ReadOutcome::Failed));
    assert_eq!(state, HandlerState::Closed);
    assert_eq!(directive, Directive::Close);
}

#[test]
fn closed_is_terminal() {
    let (state, directive) = step(HandlerState::Closed, data(b"exit\n"));
    assert_eq!(state, HandlerState::Closed);
    assert_eq!(directive, Directive::Close);
    let (state, directive) = step(HandlerState::Closed, Event::Handshake(true));
    assert_eq!(state, HandlerState::Closed);
    assert_eq!(directive, Directive::Close);
}

#[test]
fn event_out_of_phase_closes_connection() {
    let (state, directive) = step(HandlerState::Reading, Event::WriteDone(true));
    assert_eq!(state, HandlerState::Closed);
    assert_eq!(directive, Directive::Close);
}

#[test]
fn commands_are_trimmed_of_surrounding_whitespace() {
    let (state, directive) = step(HandlerState::Reading, data(b"  exit \r\n"));
    assert_eq!(state, HandlerState::Closed);
    assert_eq!(directive, Directive::WriteAndClose(b"Goodbye!\n".to_vec()));
    let (state, directive) = step(HandlerState::Reading, data("\u{00A0}foo\u{3000}\n".as_bytes()));
    assert_eq!(state, HandlerState::AwaitingListing);
    assert_eq!(directive, Directive::RunListing);
}

#[test]
fn embedded_whitespace_is_not_trimmed() {
    let (state, directive) = step(HandlerState::Reading, data(b"ex it\n"));
    assert_eq!(state, HandlerState::Reading);
    assert_eq!(directive, Directive::AwaitRead);
}
