use libshpool::daemon::exit_notify::{reported_exit_status, ExitNotifier};
use libshpool::daemon::shell::{
    heartbeat, rpc, shell_to_client, supervisor, BeatAction, BeatEvent, BidiStream, ClientAction,
    ClientEvent, ClientToShell, ExitWatch, Fork, IoFailure, ReaderTask, RpcAction, RpcEvent,
    SelectFailure, SessionInner, ShellAction, ShellError, ShellEvent, SupervisorNext,
    SupervisorStep, Task, TaskError, TaskState,
};
use libshpool::protocol::{
    ChunkKind, ResizeReply, ResizeRequest, SessionMessageDetachReply, SessionMessageReply,
    SessionMessageRequestPayload, TtySize,
};

fn inner(client: Option<usize>, fork: Fork) -> SessionInner {
    SessionInner {
        name: "work".to_string(),
        pty_master: fork,
        client_stream: client,
        tty_size: TtySize { rows: 24, cols: 80, xpixel: 0, ypixel: 0 },
        reader: ReaderTask::Running,
    }
}

fn parent() -> Fork {
    Fork::Parent { child_pid: 7, master: 9 }
}

fn run() -> BidiStream {
    inner(Some(3), parent()).bidi_stream().unwrap()
}

#[test]
fn engine_starts_with_five_running_tasks() {
    let e = run();
    assert_eq!(e.conn, 3);
    assert_eq!(e.master, 9);
    assert!(!e.stop);
    assert!(!e.child_done);
    for t in [Task::ClientToShell, Task::ShellToClient, Task::Heartbeat, Task::Supervisor, Task::Rpc]
    {
        assert_eq!(e.task(t), TaskState::Running);
    }
    assert_eq!(e.join(), None);
}

#[test]
fn engine_needs_a_client_and_the_parent_end() {
    assert_eq!(inner(None, parent()).bidi_stream(), Err(ShellError::NoClientStream));
    assert_eq!(inner(None, Fork::Child).bidi_stream(), Err(ShellError::NoClientStream));
    assert_eq!(inner(Some(1), Fork::Child).bidi_stream(), Err(ShellError::NotParent));
}

#[test]
fn joiner_stops_on_first_finished_task() {
    let mut e = run();
    assert!(!e.poll());
    e.finish(Task::Heartbeat, Ok(()));
    assert!(e.poll());
    assert!(e.stop);
    assert!(e.poll());
    assert_eq!(e.join(), None);
}

#[test]
fn joiner_stops_on_child_exit_and_join_waits_for_all() {
    let mut e = run();
    e.child_exited();
    assert!(e.poll());
    e.finish(Task::ClientToShell, Ok(()));
    e.finish(Task::ShellToClient, Ok(()));
    e.finish(Task::Heartbeat, Ok(()));
    e.finish(Task::Supervisor, Ok(()));
    assert_eq!(e.join(), None);
    e.finish(Task::Rpc, Ok(()));
    assert_eq!(e.join(), Some(Ok(true)));
}

#[test]
fn join_is_not_ready_before_stop_was_signalled() {
    let mut e = run();
    for t in [Task::ClientToShell, Task::ShellToClient, Task::Heartbeat, Task::Supervisor, Task::Rpc]
    {
        e.finish(t, Ok(()));
    }
    assert_eq!(e.join(), None);
    assert!(e.poll());
    assert_eq!(e.join(), Some(Ok(false)));
}

#[test]
fn join_reports_the_first_error_in_order() {
    let mut e = run();
    e.finish(Task::Rpc, Err(TaskError::SendReply));
    e.finish(Task::Heartbeat, Err(TaskError::WriteHeartbeat));
    e.finish(Task::ShellToClient, Err(TaskError::ReadPty));
    e.finish(Task::ClientToShell, Ok(()));
    e.finish(Task::Supervisor, Ok(()));
    e.child_exited();
    e.poll();
    assert_eq!(e.join(), Some(Err(TaskError::ReadPty)));
}

#[test]
fn first_result_of_a_task_stays() {
    let mut e = run();
    e.finish(Task::Rpc, Err(TaskError::RecvRpc));
    e.finish(Task::Rpc, Ok(()));
    assert_eq!(e.task(Task::Rpc), TaskState::Failed(TaskError::RecvRpc));
}

#[test]
fn resize_sets_geometry_on_the_parent_end_only() {
    let size = TtySize { rows: 1, cols: 2, xpixel: 3, ypixel: 4 };
    let mut p = inner(None, parent());
    assert_eq!(p.set_pty_size(&size), Ok(()));
    assert_eq!(p.tty_size, size);
    let other = TtySize { rows: 5, cols: 6, xpixel: 0, ypixel: 0 };
    assert_eq!(p.handle_resize_rpc(ResizeRequest { tty_size: other }), Ok(ResizeReply::Done));
    assert_eq!(p.tty_size, other);
    let mut c = inner(None, Fork::Child);
    assert_eq!(c.set_pty_size(&size), Err(ShellError::NotParent));
    assert_eq!(c.handle_resize_rpc(ResizeRequest { tty_size: size }), Err(ShellError::NotParent));
    assert_eq!(c.tty_size, TtySize { rows: 24, cols: 80, xpixel: 0, ypixel: 0 });
}

#[test]
fn fork_ends() {
    assert_eq!(parent().is_parent(), Some(9));
    assert_eq!(parent().child_pid(), Some(7));
    assert_eq!(Fork::Child.is_parent(), None);
    assert_eq!(Fork::Child.child_pid(), None);
}

#[test]
fn client_input_is_written_verbatim_then_flushed() {
    let mut t = ClientToShell::new();
    assert_eq!(t.step(false, ClientEvent::Started), ClientAction::Read);
    assert_eq!(t.step(false, ClientEvent::Read(b"echo hi\n".to_vec())), ClientAction::Write);
    assert_eq!(t.pending, b"echo hi\n".to_vec());
    assert_eq!(t.step(false, ClientEvent::Wrote(5)), ClientAction::Write);
    assert_eq!(t.pending, b"hi\n".to_vec());
    assert_eq!(t.step(false, ClientEvent::WriteFailed(IoFailure::WouldBlock)), ClientAction::Sleep);
    assert_eq!(t.step(false, ClientEvent::Woke), ClientAction::Write);
    assert_eq!(t.step(false, ClientEvent::Wrote(0)), ClientAction::Write);
    assert_eq!(t.step(false, ClientEvent::Wrote(3)), ClientAction::Flush);
    assert!(t.pending.is_empty());
    assert_eq!(t.step(false, ClientEvent::Flushed), ClientAction::Read);
}

#[test]
fn client_task_retries_and_stops() {
    let mut t = ClientToShell::new();
    assert_eq!(t.step(true, ClientEvent::Started), ClientAction::Exit);
    assert_eq!(t.step(false, ClientEvent::Read(Vec::new())), ClientAction::Read);
    assert_eq!(t.step(true, ClientEvent::Read(Vec::new())), ClientAction::Exit);
    assert_eq!(t.step(false, ClientEvent::ReadFailed(IoFailure::WouldBlock)), ClientAction::Sleep);
    assert_eq!(t.step(true, ClientEvent::ReadFailed(IoFailure::WouldBlock)), ClientAction::Sleep);
    assert_eq!(t.step(true, ClientEvent::Woke), ClientAction::Exit);
    assert_eq!(t.step(true, ClientEvent::Read(vec![1, 2])), ClientAction::Exit);
    assert_eq!(t.pending, vec![1, 2]);
    assert_eq!(t.step(true, ClientEvent::Wrote(1)), ClientAction::Exit);
    assert_eq!(t.step(true, ClientEvent::Wrote(1)), ClientAction::Flush);
    assert_eq!(t.step(true, ClientEvent::Flushed), ClientAction::Exit);
}

#[test]
fn client_task_fails_on_other_errors() {
    let mut t = ClientToShell::new();
    assert_eq!(
        t.step(false, ClientEvent::ReadFailed(IoFailure::Other)),
        ClientAction::Fail(TaskError::ReadClient)
    );
    assert_eq!(
        t.step(false, ClientEvent::ReadFailed(IoFailure::BrokenPipe)),
        ClientAction::Fail(TaskError::ReadClient)
    );
    assert_eq!(
        t.step(false, ClientEvent::WriteFailed(IoFailure::BrokenPipe)),
        ClientAction::Fail(TaskError::WritePty)
    );
    assert_eq!(t.step(false, ClientEvent::FlushFailed), ClientAction::Fail(TaskError::FlushPty));
}

#[test]
fn shell_output_is_framed_as_data() {
    assert!(matches!(shell_to_client(false, ShellEvent::Started), ShellAction::Select));
    assert!(matches!(shell_to_client(true, ShellEvent::Started), ShellAction::Exit));
    assert!(matches!(
        shell_to_client(false, ShellEvent::Selected { nready: 1, master_ready: true }),
        ShellAction::ReadPty
    ));
    match shell_to_client(false, ShellEvent::Read(b"hi\n".to_vec())) {
        ShellAction::Send(chunk) => {
            assert_eq!(chunk.kind, ChunkKind::Data);
            assert_eq!(chunk.buf, b"hi\n".to_vec());
        }
        other => panic!("unexpected {:?}", other),
    }
    assert!(matches!(shell_to_client(true, ShellEvent::Sent), ShellAction::Flush));
    assert!(matches!(shell_to_client(false, ShellEvent::Flushed), ShellAction::Select));
    assert!(matches!(shell_to_client(true, ShellEvent::Flushed), ShellAction::Exit));
}

#[test]
fn shell_task_handles_idle_and_failures() {
    assert!(matches!(
        shell_to_client(false, ShellEvent::Selected { nready: 0, master_ready: false }),
        ShellAction::Select
    ));
    assert!(matches!(
        shell_to_client(true, ShellEvent::Selected { nready: 0, master_ready: true }),
        ShellAction::Exit
    ));
    assert!(matches!(
        shell_to_client(false, ShellEvent::Selected { nready: 2, master_ready: false }),
        ShellAction::Flush
    ));
    assert!(matches!(
        shell_to_client(false, ShellEvent::SelectFailed(SelectFailure::BadDescriptor)),
        ShellAction::Exit
    ));
    assert!(matches!(
        shell_to_client(false, ShellEvent::SelectFailed(SelectFailure::Other)),
        ShellAction::Fail(TaskError::SelectPty)
    ));
    assert!(matches!(shell_to_client(false, ShellEvent::Read(Vec::new())), ShellAction::Sleep));
    assert!(matches!(
        shell_to_client(false, ShellEvent::ReadFailed(IoFailure::WouldBlock)),
        ShellAction::Sleep
    ));
    assert!(matches!(
        shell_to_client(false, ShellEvent::ReadFailed(IoFailure::Other)),
        ShellAction::Fail(TaskError::ReadPty)
    ));
    assert!(matches!(shell_to_client(false, ShellEvent::Woke), ShellAction::Select));
    assert!(matches!(
        shell_to_client(false, ShellEvent::SendFailed),
        ShellAction::Fail(TaskError::WriteChunk)
    ));
    assert!(matches!(
        shell_to_client(false, ShellEvent::FlushFailed),
        ShellAction::Fail(TaskError::FlushClient)
    ));
}

#[test]
fn heartbeat_sends_empty_frames() {
    assert!(matches!(heartbeat(false, BeatEvent::Started), BeatAction::Sleep));
    assert!(matches!(heartbeat(true, BeatEvent::Started), BeatAction::Exit));
    match heartbeat(true, BeatEvent::Woke) {
        BeatAction::Send(chunk) => {
            assert_eq!(chunk.kind, ChunkKind::Heartbeat);
            assert!(chunk.buf.is_empty());
        }
        other => panic!("unexpected {:?}", other),
    }
    assert!(matches!(heartbeat(false, BeatEvent::Sent), BeatAction::Sleep));
    assert!(matches!(heartbeat(true, BeatEvent::Sent), BeatAction::Exit));
    assert!(matches!(
        heartbeat(false, BeatEvent::SendFailed(IoFailure::BrokenPipe)),
        BeatAction::Exit
    ));
    assert!(matches!(
        heartbeat(false, BeatEvent::SendFailed(IoFailure::Other)),
        BeatAction::Fail(TaskError::WriteHeartbeat)
    ));
    assert!(matches!(
        heartbeat(false, BeatEvent::SendFailed(IoFailure::WouldBlock)),
        BeatAction::Fail(TaskError::WriteHeartbeat)
    ));
}

#[test]
fn supervisor_watches_for_exit() {
    let wait = SupervisorStep { bug: false, next: SupervisorNext::Wait };
    assert_eq!(supervisor(false, ExitWatch::Started), wait);
    assert_eq!(supervisor(false, ExitWatch::Timeout), wait);
    assert_eq!(
        supervisor(true, ExitWatch::Timeout),
        SupervisorStep { bug: false, next: SupervisorNext::Exit }
    );
    assert_eq!(
        supervisor(false, ExitWatch::Received),
        SupervisorStep { bug: true, next: SupervisorNext::Wait }
    );
    assert_eq!(
        supervisor(true, ExitWatch::Received),
        SupervisorStep { bug: true, next: SupervisorNext::Exit }
    );
    assert_eq!(
        supervisor(false, ExitWatch::Disconnected),
        SupervisorStep { bug: false, next: SupervisorNext::ChildExited }
    );
    assert_eq!(
        supervisor(true, ExitWatch::Disconnected),
        SupervisorStep { bug: false, next: SupervisorNext::ChildExited }
    );
}

#[test]
fn rpc_answers_each_request_once() {
    let size = TtySize { rows: 3, cols: 4, xpixel: 0, ypixel: 0 };
    let resize = SessionMessageRequestPayload::Resize(ResizeRequest { tty_size: size });
    assert_eq!(rpc(false, RpcEvent::Started), RpcAction::Wait);
    assert_eq!(rpc(true, RpcEvent::Started), RpcAction::Exit);
    assert_eq!(rpc(false, RpcEvent::Timeout), RpcAction::Wait);
    assert_eq!(rpc(true, RpcEvent::Received(resize)), RpcAction::Serve(resize));
    assert_eq!(
        rpc(false, RpcEvent::Served(resize)),
        RpcAction::Reply(SessionMessageReply::Resize(ResizeReply::Done))
    );
    assert_eq!(
        rpc(false, RpcEvent::Served(SessionMessageRequestPayload::Detach)),
        RpcAction::Reply(SessionMessageReply::Detach(SessionMessageDetachReply::Done))
    );
    assert_eq!(rpc(false, RpcEvent::Replied), RpcAction::Wait);
    assert_eq!(rpc(true, RpcEvent::Replied), RpcAction::Exit);
    assert_eq!(rpc(false, RpcEvent::ReplyFailed), RpcAction::Fail(TaskError::SendReply));
    assert_eq!(rpc(false, RpcEvent::ServeFailed), RpcAction::Fail(TaskError::Resize));
    assert_eq!(rpc(false, RpcEvent::Disconnected), RpcAction::Fail(TaskError::RecvRpc));
}

#[test]
fn exit_notifier_fires_once() {
    let mut n = ExitNotifier::new();
    assert_eq!(n.wait(), None);
    n.notify_exit(3);
    assert_eq!(n.wait(), Some(3));
    n.notify_exit(4);
    assert_eq!(n.wait(), Some(3));
    assert_eq!(n.wait(), Some(3));
}

#[test]
fn exit_status_defaults_to_one() {
    assert_eq!(reported_exit_status(Some(Some(0))), 0);
    assert_eq!(reported_exit_status(Some(Some(130))), 130);
    assert_eq!(reported_exit_status(Some(None)), 1);
    assert_eq!(reported_exit_status(None), 1);
}
