use libshpool::config::Config;
use libshpool::daemon::server::{
    check_peer, handle_conn, AttachDecision, AttachError, ConnAction, PeerError, Server,
    SessionAction, Spawned,
};
use libshpool::daemon::shell::{Fork, ReaderTask};
use libshpool::protocol::{
    AttachHeader, AttachStatus, ConnectHeader, DetachRequest, KillRequest, ResizeReply,
    ResizeRequest, SessionMessageDetachReply, SessionMessageReply, SessionMessageRequest,
    SessionMessageRequestPayload, TtySize,
};

fn server() -> Server {
    Server::new(Config::new(), "/run/user/1000/shpool".to_string())
}

fn header(name: &str, ttl_secs: Option<u64>) -> AttachHeader {
    AttachHeader {
        name: name.to_string(),
        local_tty_size: TtySize { rows: 30, cols: 100, xpixel: 0, ypixel: 0 },
        local_env: Vec::new(),
        ttl_secs,
        cmd: None,
    }
}

fn spawned(pid: i32) -> Option<Spawned> {
    Some(Spawned { child_pid: pid, master: pid + 1000, started_at: 1_700_000_000_000 + pid as i64 })
}

fn names(list: &[&str]) -> Vec<String> {
    list.iter().map(|s| s.to_string()).collect()
}

fn listed(server: &Server) -> Vec<String> {
    server.handle_list().sessions.into_iter().map(|s| s.name).collect()
}

#[test]
fn first_attach_creates_second_is_busy_third_joins() {
    let mut s = server();
    assert_eq!(s.attach_decision("work"), AttachDecision::Create);
    let r1 = s.handle_attach(1, &header("work", None), vec![], spawned(41), 0);
    assert!(matches!(r1, Ok(AttachStatus::Created { .. })));
    assert_eq!(s.session("work").unwrap().child_pid, 41);
    assert_eq!(s.session("work").unwrap().holder, Some(1));

    assert_eq!(s.attach_decision("work"), AttachDecision::Busy);
    let r2 = s.handle_attach(2, &header("work", None), vec![], spawned(42), 0);
    assert!(matches!(r2, Ok(AttachStatus::Busy)));
    assert_eq!(s.session("work").unwrap().child_pid, 41);
    assert_eq!(s.session("work").unwrap().inner.client_stream, Some(1));

    assert_eq!(s.finish_attach("work", 1, false), Ok(()));
    assert_eq!(s.session("work").unwrap().holder, None);
    assert_eq!(s.attach_decision("work"), AttachDecision::Reattach);
    let r3 = s.handle_attach(3, &header("work", None), vec!["w".to_string()], None, 0);
    match r3 {
        Ok(AttachStatus::Attached { warnings }) => assert_eq!(warnings, vec!["w"]),
        other => panic!("unexpected {:?}", other),
    }
    let session = s.session("work").unwrap();
    assert_eq!(session.child_pid, 41);
    assert_eq!(session.holder, Some(3));
    assert_eq!(session.inner.client_stream, Some(3));
    assert_eq!(s.len(), 1);
}

#[test]
fn exited_shell_is_replaced_on_attach() {
    let mut s = server();
    s.handle_attach(1, &header("work", None), vec![], spawned(41), 0).unwrap();
    s.finish_attach("work", 1, false).unwrap();
    s.notify_exit("work", 41, 3);
    assert_eq!(s.session("work").unwrap().child_exit_notifier.wait(), Some(3));
    assert_eq!(s.attach_decision("work"), AttachDecision::Create);
    let r = s.handle_attach(2, &header("work", None), vec![], spawned(77), 0);
    assert!(matches!(r, Ok(AttachStatus::Created { .. })));
    let session = s.session("work").unwrap();
    assert_eq!(session.child_pid, 77);
    assert_eq!(session.child_exit_notifier.wait(), None);
    assert_eq!(session.inner.pty_master, Fork::Parent { child_pid: 77, master: 1077 });
    assert_eq!(s.len(), 1);
}

#[test]
fn exit_of_another_child_is_ignored_and_first_status_stays() {
    let mut s = server();
    s.handle_attach(1, &header("work", None), vec![], spawned(41), 0).unwrap();
    s.notify_exit("work", 99, 1);
    assert_eq!(s.session("work").unwrap().child_exit_notifier.wait(), None);
    s.notify_exit("work", 41, 0);
    s.notify_exit("work", 41, 9);
    assert_eq!(s.session("work").unwrap().child_exit_notifier.wait(), Some(0));
    s.notify_exit("gone", 41, 0);
    assert_eq!(s.len(), 1);
}

#[test]
fn attach_without_subshell_fails_and_changes_nothing() {
    let mut s = server();
    let r = s.handle_attach(1, &header("work", Some(5)), vec![], None, 0);
    assert!(matches!(r, Err(AttachError::NoSubshell)));
    assert_eq!(s.len(), 0);
    assert!(s.reap(100).is_empty());
}

#[test]
fn finished_reader_makes_attach_create() {
    let mut s = server();
    s.handle_attach(1, &header("work", None), vec![], spawned(41), 0).unwrap();
    s.finish_attach("work", 1, false).unwrap();
    s.reader_done("work", 41, false);
    assert_eq!(s.session("work").unwrap().inner.reader, ReaderTask::Finished);
    assert_eq!(s.attach_decision("work"), AttachDecision::Create);
    let r = s.handle_attach(2, &header("work", None), vec![], spawned(50), 0);
    assert!(matches!(r, Ok(AttachStatus::Created { .. })));
    assert_eq!(s.session("work").unwrap().child_pid, 50);
}

#[test]
fn failed_reader_is_passed_on() {
    let mut s = server();
    s.handle_attach(1, &header("work", None), vec![], spawned(41), 0).unwrap();
    s.finish_attach("work", 1, false).unwrap();
    s.reader_done("work", 41, true);
    s.reader_done("work", 41, false);
    assert_eq!(s.session("work").unwrap().inner.reader, ReaderTask::Failed);
    assert_eq!(s.attach_decision("work"), AttachDecision::ReaderFailed);
    let r = s.handle_attach(2, &header("work", None), vec![], spawned(50), 0);
    assert!(matches!(r, Err(AttachError::ReaderFailed)));
    assert_eq!(s.session("work").unwrap().child_pid, 41);
}

#[test]
fn engine_end_with_exited_child_removes_the_entry() {
    let mut s = server();
    s.handle_attach(1, &header("a", None), vec![], spawned(1), 0).unwrap();
    s.handle_attach(2, &header("b", None), vec![], spawned(2), 0).unwrap();
    assert_eq!(s.finish_attach("a", 1, true), Ok(()));
    assert_eq!(listed(&s), names(&["b"]));
    s.reader_done("b", 2, true);
    assert_eq!(s.finish_attach("b", 2, true), Err(AttachError::ReaderFailed));
    assert_eq!(s.len(), 0);
    assert_eq!(s.finish_attach("b", 2, true), Ok(()));
}

#[test]
fn release_needs_the_holder() {
    let mut s = server();
    s.handle_attach(1, &header("a", None), vec![], spawned(1), 0).unwrap();
    assert_eq!(s.finish_attach("a", 5, false), Ok(()));
    assert_eq!(s.session("a").unwrap().holder, Some(1));
}

#[test]
fn detach_sorts_names() {
    let mut s = server();
    s.handle_attach(1, &header("attached", None), vec![], spawned(1), 0).unwrap();
    s.handle_attach(2, &header("idle", None), vec![], spawned(2), 0).unwrap();
    s.finish_attach("idle", 2, false).unwrap();
    let request = DetachRequest { sessions: names(&["nope", "idle", "attached", "attached"]) };
    let (reply, disconnect) = s.handle_detach(&request);
    assert_eq!(reply.not_found_sessions, names(&["nope"]));
    assert_eq!(reply.not_attached_sessions, names(&["idle", "attached"]));
    assert_eq!(disconnect, vec![1]);
    let session = s.session("attached").unwrap();
    assert_eq!(session.inner.client_stream, None);
    assert_eq!(session.holder, Some(1));
    assert_eq!(session.child_pid, 1);
    assert_eq!(s.len(), 2);
}

#[test]
fn resize_is_answered_once_and_sets_geometry() {
    let mut s = server();
    s.handle_attach(1, &header("work", None), vec![], spawned(41), 0).unwrap();
    let size = TtySize { rows: 11, cols: 22, xpixel: 3, ypixel: 4 };
    let request = SessionMessageRequest {
        session_name: "work".to_string(),
        payload: SessionMessageRequestPayload::Resize(ResizeRequest { tty_size: size }),
    };
    let (reply, action) = s.handle_session_message(&request);
    assert_eq!(reply, SessionMessageReply::Resize(ResizeReply::Done));
    assert_eq!(action, SessionAction::Resize { master: 1041, tty_size: size });
    assert_eq!(s.session("work").unwrap().inner.tty_size, size);

    let missing = SessionMessageRequest {
        session_name: "none".to_string(),
        payload: SessionMessageRequestPayload::Resize(ResizeRequest { tty_size: size }),
    };
    let (reply, action) = s.handle_session_message(&missing);
    assert_eq!(reply, SessionMessageReply::NotFound);
    assert_eq!(action, SessionAction::Nothing);
}

#[test]
fn detach_message_unwires_the_client() {
    let mut s = server();
    s.handle_attach(4, &header("work", None), vec![], spawned(41), 0).unwrap();
    let request = SessionMessageRequest {
        session_name: "work".to_string(),
        payload: SessionMessageRequestPayload::Detach,
    };
    let (reply, action) = s.handle_session_message(&request);
    assert_eq!(reply, SessionMessageReply::Detach(SessionMessageDetachReply::Done));
    assert_eq!(action, SessionAction::Disconnect { conn: 4 });
    let (reply, action) = s.handle_session_message(&request);
    assert_eq!(reply, SessionMessageReply::Detach(SessionMessageDetachReply::Done));
    assert_eq!(action, SessionAction::Nothing);
}

#[test]
fn kill_removes_from_list_attached_or_not() {
    let mut s = server();
    s.handle_attach(1, &header("a", None), vec![], spawned(10), 0).unwrap();
    s.handle_attach(2, &header("b", None), vec![], spawned(20), 0).unwrap();
    s.handle_attach(3, &header("c", None), vec![], spawned(30), 0).unwrap();
    s.finish_attach("b", 2, false).unwrap();
    let request = KillRequest { sessions: names(&["b", "zz", "a", "b"]) };
    assert_eq!(s.kill_targets(&request), vec![20, 10, 20]);
    let reply = s.handle_kill(&request);
    assert_eq!(reply.not_found_sessions, names(&["zz"]));
    assert_eq!(listed(&s), names(&["c"]));
    assert!(s.session("a").is_none());
    assert!(s.session("b").is_none());
}

#[test]
fn list_gives_names_and_start_times_in_order() {
    let mut s = server();
    assert!(s.handle_list().sessions.is_empty());
    s.handle_attach(1, &header("x", None), vec![], spawned(10), 0).unwrap();
    s.handle_attach(2, &header("y", None), vec![], spawned(20), 0).unwrap();
    let reply = s.handle_list();
    assert_eq!(reply.sessions.len(), 2);
    assert_eq!(reply.sessions[0].name, "x");
    assert_eq!(reply.sessions[0].started_at_unix_ms, 1_700_000_000_010);
    assert_eq!(reply.sessions[1].name, "y");
    assert_eq!(reply.sessions[1].started_at_unix_ms, 1_700_000_000_020);
}

#[test]
fn reaper_ends_sessions_at_their_deadline_not_before() {
    let mut s = server();
    s.handle_attach(1, &header("short", Some(10)), vec![], spawned(10), 100).unwrap();
    s.handle_attach(2, &header("long", Some(50)), vec![], spawned(20), 100).unwrap();
    s.handle_attach(3, &header("forever", None), vec![], spawned(30), 100).unwrap();
    assert!(s.reap(109).is_empty());
    assert_eq!(s.len(), 3);
    assert_eq!(s.reap(110), vec![10]);
    assert_eq!(listed(&s), names(&["long", "forever"]));
    assert!(s.reap(149).is_empty());
    assert_eq!(s.reap(1000), vec![20]);
    assert_eq!(listed(&s), names(&["forever"]));
    assert!(s.reap(u64::MAX).is_empty());
}

#[test]
fn reaping_an_absent_name_is_silent() {
    let mut s = server();
    s.handle_attach(1, &header("short", Some(10)), vec![], spawned(10), 100).unwrap();
    s.handle_attach(2, &header("other", None), vec![], spawned(20), 100).unwrap();
    s.handle_kill(&KillRequest { sessions: names(&["short"]) });
    assert!(s.reap(500).is_empty());
    assert_eq!(listed(&s), names(&["other"]));
}

#[test]
fn deadline_does_not_overflow() {
    let mut s = server();
    s.handle_attach(1, &header("big", Some(u64::MAX)), vec![], spawned(10), 5).unwrap();
    assert!(s.reap(u64::MAX).is_empty());
    assert_eq!(s.len(), 1);
    s.handle_attach(2, &header("edge", Some(u64::MAX)), vec![], spawned(20), 0).unwrap();
    assert_eq!(s.reap(u64::MAX), vec![20]);
}

#[test]
fn connections_are_numbered_from_one() {
    let mut s = server();
    assert_eq!(s.serve(true), Some(1));
    assert_eq!(s.serve(false), None);
    assert_eq!(s.serve(true), Some(2));
    assert_eq!(s.serve(true), Some(3));
}

#[test]
fn peers_are_checked() {
    assert_eq!(check_peer(None, 1000, Some("/a"), Some("/a")), Err(PeerError::NoCredentials));
    assert_eq!(check_peer(Some(0), 1000, Some("/a"), Some("/a")), Err(PeerError::UidMismatch));
    assert_eq!(check_peer(Some(1000), 1000, None, Some("/a")), Err(PeerError::NoPeerExe));
    assert_eq!(check_peer(Some(1000), 1000, Some("/a"), None), Err(PeerError::NoSelfExe));
    assert_eq!(check_peer(Some(1000), 1000, Some("/a"), Some("/a")), Ok(vec![]));
    assert_eq!(
        check_peer(Some(1000), 1000, Some("/a"), Some("/b")),
        Ok(vec!["attach binary differs from daemon binary".to_string()])
    );
    assert_eq!(PeerError::UidMismatch.message(), "shpool prohibits connections across users");
}

#[test]
fn refused_peer_gets_forbidden_only_on_attach() {
    let action = handle_conn(
        ConnectHeader::Attach(header("work", None)),
        Err(PeerError::UidMismatch),
    );
    match action {
        ConnAction::Forbid { reason, error } => {
            assert_eq!(reason, "shpool prohibits connections across users");
            assert_eq!(error, PeerError::UidMismatch);
        }
        other => panic!("unexpected {:?}", other),
    }
    let action = handle_conn(ConnectHeader::List, Err(PeerError::UidMismatch));
    assert!(matches!(action, ConnAction::Close(PeerError::UidMismatch)));
    let action = handle_conn(
        ConnectHeader::Kill(KillRequest { sessions: names(&["a"]) }),
        Err(PeerError::NoCredentials),
    );
    assert!(matches!(action, ConnAction::Close(PeerError::NoCredentials)));
}

#[test]
fn admitted_peer_is_routed() {
    let warnings = vec!["w".to_string()];
    match handle_conn(ConnectHeader::Attach(header("work", Some(3))), Ok(warnings.clone())) {
        ConnAction::Attach { header, warnings: w } => {
            assert_eq!(header.name, "work");
            assert_eq!(header.ttl_secs, Some(3));
            assert_eq!(w, warnings);
        }
        other => panic!("unexpected {:?}", other),
    }
    assert!(matches!(handle_conn(ConnectHeader::List, Ok(vec![])), ConnAction::List));
    match handle_conn(
        ConnectHeader::Detach(DetachRequest { sessions: names(&["a", "b"]) }),
        Ok(vec![]),
    ) {
        ConnAction::Detach(r) => assert_eq!(r.sessions, names(&["a", "b"])),
        other => panic!("unexpected {:?}", other),
    }
    match handle_conn(ConnectHeader::Kill(KillRequest { sessions: names(&["k"]) }), Ok(vec![])) {
        ConnAction::Kill(r) => assert_eq!(r.sessions, names(&["k"])),
        other => panic!("unexpected {:?}", other),
    }
    let message = SessionMessageRequest {
        session_name: "m".to_string(),
        payload: SessionMessageRequestPayload::Detach,
    };
    match handle_conn(ConnectHeader::SessionMessage(message), Ok(vec![])) {
        ConnAction::SessionMessage(m) => assert_eq!(m.session_name, "m"),
        other => panic!("unexpected {:?}", other),
    }
}
