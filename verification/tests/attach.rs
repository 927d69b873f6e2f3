use libshpool::attach::{
    attach_header, check_name, detach_request, dial_client, local_env_keys, read_reply, run,
    AttachLoop, Attached, Attempt, DialNext, Dialed, NameError, Next, Resized, SignalHandler,
    Start, MAX_FORCE_RETRIES,
};
use libshpool::protocol::{
    AttachStatus, ConnectHeader, ResizeReply, ResizeRequest, SessionMessageDetachReply,
    SessionMessageReply, SessionMessageRequestPayload, TtySize,
};
use std::path::PathBuf;

#[test]
fn names_are_checked() {
    assert_eq!(check_name("work"), Ok(()));
    assert_eq!(check_name(""), Err(NameError::Blank));
    assert_eq!(check_name("a b"), Err(NameError::Whitespace));
    assert_eq!(check_name("tab\t"), Err(NameError::Whitespace));
    assert_eq!(check_name("\u{3000}wide"), Err(NameError::Whitespace));
    assert_eq!(check_name("\u{e9}mile-1"), Ok(()));
}

#[test]
fn run_checks_the_name_before_the_ttl() {
    assert_eq!(run("", false, Some(None)), Start::Refused(NameError::Blank));
    assert_eq!(run("a b", true, None), Start::Refused(NameError::Whitespace));
    assert_eq!(run("work", false, Some(None)), Start::BadTtl);
    assert_eq!(
        run("work", true, Some(Some(60))),
        Start::Attach {
            state: AttachLoop { force: true, detached: false, tries: 0 },
            ttl_secs: Some(60)
        }
    );
    assert_eq!(
        run("work", false, None),
        Start::Attach {
            state: AttachLoop { force: false, detached: false, tries: 0 },
            ttl_secs: None
        }
    );
}

#[test]
fn unforced_attach_reports_busy() {
    let mut state = AttachLoop { force: false, detached: false, tries: 0 };
    assert_eq!(state.next(Attempt::Busy), Next::ReportBusy);
    assert_eq!(state, AttachLoop { force: false, detached: false, tries: 0 });
    assert_eq!(state.next(Attempt::Finished), Next::Done);
    assert_eq!(state.next(Attempt::Failed), Next::Fail);
}

#[test]
fn forced_attach_gives_up_after_the_cap() {
    assert_eq!(MAX_FORCE_RETRIES, 20);
    let mut state = AttachLoop { force: true, detached: false, tries: 0 };
    assert_eq!(state.next(Attempt::Busy), Next::Retry { detach: true });
    let mut retries = 1;
    loop {
        match state.next(Attempt::Busy) {
            Next::Retry { detach } => {
                assert!(!detach);
                retries += 1;
            }
            Next::GiveUp { detach } => {
                assert!(!detach);
                break;
            }
            other => panic!("unexpected step {:?}", other),
        }
    }
    assert_eq!(retries, 21);
    assert_eq!(state, AttachLoop { force: true, detached: true, tries: 21 });
}

#[test]
fn forced_attach_ends_when_attached() {
    let mut state = AttachLoop { force: true, detached: false, tries: 0 };
    assert_eq!(state.next(Attempt::Busy), Next::Retry { detach: true });
    assert_eq!(state.next(Attempt::Finished), Next::Done);
    assert_eq!(state.tries, 1);
}

#[test]
fn env_keys_start_with_the_fixed_ones() {
    assert_eq!(local_env_keys(None), vec!["TERM", "DISPLAY", "LANG", "SSH_AUTH_SOCK"]);
    let more = vec!["EDITOR".to_string(), "TZ".to_string()];
    assert_eq!(
        local_env_keys(Some(&more)),
        vec!["TERM", "DISPLAY", "LANG", "SSH_AUTH_SOCK", "EDITOR", "TZ"]
    );
}

#[test]
fn header_leaves_out_unset_variables() {
    let looked_up = vec![
        ("TERM".to_string(), Some("xterm".to_string())),
        ("DISPLAY".to_string(), None),
        ("LANG".to_string(), Some("C".to_string())),
    ];
    let header = attach_header("work", None, &looked_up, Some(30), Some("top".to_string()));
    assert_eq!(header.name, "work");
    assert_eq!(header.local_tty_size, TtySize { rows: 24, cols: 80, xpixel: 0, ypixel: 0 });
    assert_eq!(
        header.local_env,
        vec![("TERM".to_string(), "xterm".to_string()), ("LANG".to_string(), "C".to_string())]
    );
    assert_eq!(header.ttl_secs, Some(30));
    assert_eq!(header.cmd, Some("top".to_string()));
    let size = TtySize { rows: 50, cols: 132, xpixel: 1, ypixel: 2 };
    let sized = attach_header("w", Some(size), &Vec::new(), None, None);
    assert_eq!(sized.local_tty_size, size);
    assert!(sized.local_env.is_empty());
}

#[test]
fn replies_are_read() {
    assert!(matches!(read_reply(AttachStatus::Busy), Attached::Busy));
    match read_reply(AttachStatus::Forbidden("no".to_string())) {
        Attached::Forbidden(r) => assert_eq!(r, "no"),
        other => panic!("unexpected {:?}", other),
    }
    match read_reply(AttachStatus::Attached { warnings: vec!["w".to_string()] }) {
        Attached::Streaming { created, warnings } => {
            assert!(!created);
            assert_eq!(warnings, vec!["w"]);
        }
        other => panic!("unexpected {:?}", other),
    }
    match read_reply(AttachStatus::Created { warnings: vec![] }) {
        Attached::Streaming { created, warnings } => {
            assert!(created);
            assert!(warnings.is_empty());
        }
        other => panic!("unexpected {:?}", other),
    }
    match read_reply(AttachStatus::UnexpectedError("boom".to_string())) {
        Attached::Unexpected(e) => assert_eq!(e, "boom"),
        other => panic!("unexpected {:?}", other),
    }
}

#[test]
fn detach_request_names_one_session() {
    match detach_request("work") {
        ConnectHeader::Detach(r) => assert_eq!(r.sessions, vec!["work"]),
        other => panic!("unexpected {:?}", other),
    }
}

#[test]
fn dialling_decides() {
    assert_eq!(dial_client(Dialed::JustClient), DialNext::Proceed);
    assert_eq!(dial_client(Dialed::VersionMismatch), DialNext::Confirm);
    assert_eq!(dial_client(Dialed::NotFound), DialNext::Fail { hint: true });
    assert_eq!(dial_client(Dialed::Failed), DialNext::Fail { hint: false });
}

#[test]
fn signal_handler_asks_for_a_resize() {
    let handler = SignalHandler::new("work".to_string(), PathBuf::from("/run/shpool.socket"));
    assert_eq!(handler.session_name, "work");
    assert_eq!(handler.socket, PathBuf::from("/run/shpool.socket"));
    let size = TtySize { rows: 10, cols: 20, xpixel: 0, ypixel: 0 };
    match handler.handle_sigwinch(size) {
        ConnectHeader::SessionMessage(m) => {
            assert_eq!(m.session_name, "work");
            assert_eq!(
                m.payload,
                SessionMessageRequestPayload::Resize(ResizeRequest { tty_size: size })
            );
        }
        other => panic!("unexpected {:?}", other),
    }
}

#[test]
fn resize_replies_are_read() {
    assert_eq!(SignalHandler::resized(SessionMessageReply::NotFound), Resized::NotFound);
    assert_eq!(
        SignalHandler::resized(SessionMessageReply::Resize(ResizeReply::Done)),
        Resized::Done
    );
    assert_eq!(
        SignalHandler::resized(SessionMessageReply::Detach(SessionMessageDetachReply::Done)),
        Resized::Unexpected
    );
}
