//! What holds of a session over its life in the table: who gets it, who is
//! refused, and how it leaves.

use crate::daemon::server::{
    attach_outcome, detach_all, fresh_session, has_session, index_of,
    lemma_index_of, listing, message_action, message_reply, named, names_unique, not_named,
    released, table_after_attach, table_after_finish, table_after_message, table_wf, taken_over,
    pending_after_attach, unwired, child_pids, AttachOutcome, SessionAction, Spawned,
};
use crate::seqs::{lemma_filter_keeps_all, lemma_filter_keeps_none};
use crate::daemon::shell::SessionView;
use crate::daemon::ttl_reaper::{
    due_at, due_entries, entry_names, not_due_at, waiting_entries, ReapEntryView,
};
use crate::protocol::{
    ResizeReply, ResizeRequest, SessionMessageReply, SessionMessageRequestPayload, TtySize,
};
use vstd::prelude::*;

verus! {

/// The first attach for a free name creates the session. While its client is
/// connected, a second attach is refused as busy and changes nothing. Once
/// the first client's engine has ended with the shell alive, the next attach
/// joins the session, and the shell it gets is the one that was created.
pub proof fn lemma_create_busy_reattach(
    table: Seq<SessionView>,
    name: Seq<char>,
    first: usize,
    second: usize,
    third: usize,
    tty_size: TtySize,
    spawned: Spawned,
    spare: Option<Spawned>,
)
    requires
        table_wf(table),
        !has_session(table, name),
    ensures
        attach_outcome(table, name, Some(spawned)) == AttachOutcome::Created,
        ({
            let created = table_after_attach(table, first, name, tty_size, Some(spawned));
            let freed = table_after_finish(created, name, first, false);
            let joined = table_after_attach(freed, third, name, tty_size, spare);
            &&& table_wf(created)
            &&& attach_outcome(created, name, spare) == AttachOutcome::Busy
            &&& table_after_attach(created, second, name, tty_size, spare) == created
            &&& table_wf(freed)
            &&& attach_outcome(freed, name, spare) == AttachOutcome::Attached
            &&& table_wf(joined)
            &&& has_session(joined, name)
            &&& joined[index_of(joined, name)].child_pid == spawned.child_pid
            &&& joined[index_of(joined, name)].holder == Some(third)
            &&& joined[index_of(joined, name)].inner.client_stream == Some(third)
        }),
{
    let fresh = fresh_session(first, name, tty_size, spawned);
    let created = table_after_attach(table, first, name, tty_size, Some(spawned));
    assert(created == table.push(fresh));
    let i = table.len() as int;
    assert(created[i] == fresh);
    assert(names_unique(created));
    lemma_index_of(created, i);
    let freed = table_after_finish(created, name, first, false);
    assert(freed == created.update(i, released(fresh)));
    assert(freed[i] == released(fresh));
    assert(names_unique(freed));
    lemma_index_of(freed, i);
    let joined = table_after_attach(freed, third, name, tty_size, spare);
    assert(joined == freed.update(i, taken_over(released(fresh), third)));
    assert(joined[i] == taken_over(released(fresh), third));
    assert(names_unique(joined));
    lemma_index_of(joined, i);
}

/// A session whose shell has exited is never joined: an attach for its name
/// starts a new shell in its place, or fails, and after a success the entry
/// holds the new shell's process id.
pub proof fn lemma_exited_is_recreated(
    table: Seq<SessionView>,
    name: Seq<char>,
    conn: usize,
    tty_size: TtySize,
    spawned: Option<Spawned>,
)
    requires
        table_wf(table),
        has_session(table, name),
        table[index_of(table, name)].holder is None,
        table[index_of(table, name)].exit_status is Some,
    ensures
        attach_outcome(table, name, spawned) != AttachOutcome::Attached,
        attach_outcome(table, name, spawned) != AttachOutcome::Busy,
        spawned is Some && !(table[index_of(table, name)].inner.reader is Failed) ==> ({
            let after = table_after_attach(table, conn, name, tty_size, spawned);
            &&& attach_outcome(table, name, spawned) == AttachOutcome::Created
            &&& table_wf(after)
            &&& has_session(after, name)
            &&& after[index_of(after, name)].child_pid == (spawned->0).child_pid
            &&& after[index_of(after, name)].exit_status is None
        }),
{
    if spawned is Some && !(table[index_of(table, name)].inner.reader is Failed) {
        let i = index_of(table, name);
        let after = table_after_attach(table, conn, name, tty_size, spawned);
        assert(after == table.update(i, fresh_session(conn, name, tty_size, spawned->0)));
        assert(after[i].name() == name);
        assert(names_unique(after));
        lemma_index_of(after, i);
    }
}

/// At most one client is wired to a session at a time: while a connection
/// holds a session, every attach for its name is refused as busy and the
/// table stays as it is, so the client that is wired stays the only one.
pub proof fn lemma_held_session_is_busy(
    table: Seq<SessionView>,
    name: Seq<char>,
    conn: usize,
    tty_size: TtySize,
    spawned: Option<Spawned>,
)
    requires
        table_wf(table),
        has_session(table, name),
        table[index_of(table, name)].holder is Some,
    ensures
        attach_outcome(table, name, spawned) == AttachOutcome::Busy,
        table_after_attach(table, conn, name, tty_size, spawned) == table,
{
}

/// An attach changes no session but the one it asks for, and keeps the table
/// well formed.
pub proof fn lemma_attach_is_local(
    table: Seq<SessionView>,
    name: Seq<char>,
    conn: usize,
    tty_size: TtySize,
    spawned: Option<Spawned>,
    other: int,
)
    requires
        table_wf(table),
        0 <= other < table.len(),
        table[other].name() != name,
    ensures
        table_wf(table_after_attach(table, conn, name, tty_size, spawned)),
        table_after_attach(table, conn, name, tty_size, spawned)[other] == table[other],
{
    let after = table_after_attach(table, conn, name, tty_size, spawned);
    if has_session(table, name) {
        let i = index_of(table, name);
        assert(after.len() == table.len());
        assert(forall|k: int| 0 <= k < table.len() ==> (#[trigger] after[k]).name() == table[k].name());
    } else {
        assert(forall|k: int| 0 <= k < table.len() ==> (#[trigger] after[k]) == table[k]);
    }
}

/// A resize for a session that is in the table is answered once, with
/// `Done`, asks for one change of the terminal's geometry, and leaves the
/// session with the geometry asked for. A resize for a name that is not in
/// the table is answered `NotFound` and changes nothing.
pub proof fn lemma_resize_once(table: Seq<SessionView>, name: Seq<char>, req: ResizeRequest)
    requires
        table_wf(table),
    ensures
        ({
            let payload = SessionMessageRequestPayload::Resize(req);
            let after = table_after_message(table, name, payload);
            &&& has_session(table, name) ==> {
                &&& message_reply(table, name, payload) == SessionMessageReply::Resize(
                    ResizeReply::Done,
                )
                &&& message_action(table, name, payload) matches SessionAction::Resize {
                    tty_size,
                    ..
                } && tty_size == req.tty_size
                &&& has_session(after, name)
                &&& after[index_of(after, name)].inner.tty_size == req.tty_size
                &&& after[index_of(after, name)].child_pid == table[index_of(
                    table,
                    name,
                )].child_pid
            }
            &&& !has_session(table, name) ==> {
                &&& message_reply(table, name, payload) == SessionMessageReply::NotFound
                &&& message_action(table, name, payload) == SessionAction::Nothing
                &&& after == table
            }
        }),
{
    if has_session(table, name) {
        let payload = SessionMessageRequestPayload::Resize(req);
        let i = index_of(table, name);
        let after = table_after_message(table, name, payload);
        assert(after[i].name() == name);
        assert(names_unique(after));
        lemma_index_of(after, i);
    }
}

/// What detaching leaves of a table: the same sessions under the same names
/// in the same places, each as it was or without its client, and the client
/// of each session that lost one among the connections told to leave.
pub proof fn lemma_detach_shape(table: Seq<SessionView>, names: Seq<Seq<char>>)
    requires
        table_wf(table),
    ensures
        ({
            let outcome = detach_all(table, names);
            &&& table_wf(outcome.table)
            &&& outcome.table.len() == table.len()
            &&& forall|i: int|
                0 <= i < table.len() ==> {
                    ||| (#[trigger] outcome.table[i]) == table[i]
                    ||| outcome.table[i] == unwired(table[i]) && table[i].inner.client_stream
                        is Some && outcome.disconnected.contains(
                        table[i].inner.client_stream->0,
                    )
                }
            &&& forall|name: Seq<char>|
                has_session(outcome.table, name) == has_session(table, name)
        }),
    decreases names.len(),
{
    let outcome = detach_all(table, names);
    if names.len() == 0 {
    } else {
        lemma_detach_shape(table, names.drop_last());
        let before = detach_all(table, names.drop_last());
        let name = names.last();
        assert forall|i: int| 0 <= i < table.len() implies {
            ||| (#[trigger] outcome.table[i]) == table[i]
            ||| outcome.table[i] == unwired(table[i]) && table[i].inner.client_stream is Some
                && outcome.disconnected.contains(table[i].inner.client_stream->0)
        } by {
            let prev = before.table[i];
            if prev != table[i] {
                let conn = table[i].inner.client_stream->0;
                let k = choose|k: int|
                    0 <= k < before.disconnected.len() && before.disconnected[k] == conn;
                assert(outcome.disconnected[k] == conn);
            }
            if has_session(before.table, name) && index_of(before.table, name) == i
                && before.table[i].inner.client_stream is Some {
                let conn = before.table[i].inner.client_stream->0;
                assert(outcome.disconnected == before.disconnected.push(conn));
                assert(outcome.disconnected[before.disconnected.len() as int] == conn);
            }
        }
        assert forall|n: Seq<char>| has_session(outcome.table, n) == has_session(table, n) by {
            assert(forall|i: int|
                0 <= i < table.len() ==> (#[trigger] outcome.table[i]).name() == table[i].name());
            if has_session(table, n) {
                let i = index_of(table, n);
                assert(outcome.table[i].name() == n);
            }
            if has_session(outcome.table, n) {
                let i = index_of(outcome.table, n);
                assert(table[i].name() == n);
            }
        }
        assert(forall|i: int|
            0 <= i < table.len() ==> (#[trigger] outcome.table[i]).name() == table[i].name());
    }
}

/// A name that is asked to detach and is not in the table is reported as not
/// found.
pub proof fn lemma_detach_reports_absent(table: Seq<SessionView>, names: Seq<Seq<char>>, k: int)
    requires
        table_wf(table),
        0 <= k < names.len(),
        !has_session(table, names[k]),
    ensures
        detach_all(table, names).not_found.contains(names[k]),
    decreases names.len(),
{
    let before = detach_all(table, names.drop_last());
    lemma_detach_shape(table, names.drop_last());
    let outcome = detach_all(table, names);
    if k == names.len() - 1 {
        assert(outcome.not_found == before.not_found.push(names[k]));
        assert(outcome.not_found[before.not_found.len() as int] == names[k]);
    } else {
        lemma_detach_reports_absent(table, names.drop_last(), k);
        let j = choose|j: int| 0 <= j < before.not_found.len() && before.not_found[j] == names[k];
        assert(outcome.not_found[j] == names[k]);
    }
}

/// A session that is asked to detach and has no client is reported as not
/// attached.
pub proof fn lemma_detach_reports_unattached(
    table: Seq<SessionView>,
    names: Seq<Seq<char>>,
    k: int,
)
    requires
        table_wf(table),
        0 <= k < names.len(),
        has_session(table, names[k]),
        table[index_of(table, names[k])].inner.client_stream is None,
    ensures
        detach_all(table, names).not_attached.contains(names[k]),
    decreases names.len(),
{
    let before = detach_all(table, names.drop_last());
    lemma_detach_shape(table, names.drop_last());
    let outcome = detach_all(table, names);
    if k == names.len() - 1 {
        let i = index_of(table, names[k]);
        assert(before.table[i].name() == names[k]);
        lemma_index_of(before.table, i);
        assert(outcome.not_attached == before.not_attached.push(names[k]));
        assert(outcome.not_attached[before.not_attached.len() as int] == names[k]);
    } else {
        lemma_detach_reports_unattached(table, names.drop_last(), k);
        let j = choose|j: int|
            0 <= j < before.not_attached.len() && before.not_attached[j] == names[k];
        assert(outcome.not_attached[j] == names[k]);
    }
}

/// A session that is asked to detach and has a client loses it: afterwards
/// no client is wired to the session, its client's connection is among those
/// told to leave, and the shell is the same.
pub proof fn lemma_detach_unwires(table: Seq<SessionView>, names: Seq<Seq<char>>, k: int)
    requires
        table_wf(table),
        0 <= k < names.len(),
        has_session(table, names[k]),
        table[index_of(table, names[k])].inner.client_stream is Some,
    ensures
        ({
            let outcome = detach_all(table, names);
            let conn = table[index_of(table, names[k])].inner.client_stream->0;
            &&& has_session(outcome.table, names[k])
            &&& outcome.table[index_of(outcome.table, names[k])] == unwired(
                table[index_of(table, names[k])],
            )
            &&& outcome.disconnected.contains(conn)
        }),
    decreases names.len(),
{
    let i = index_of(table, names[k]);
    let before = detach_all(table, names.drop_last());
    lemma_detach_shape(table, names.drop_last());
    lemma_detach_shape(table, names);
    let outcome = detach_all(table, names);
    assert(outcome.table[i].name() == names[k]);
    lemma_index_of(outcome.table, i);
    if k == names.len() - 1 {
        assert(before.table[i].name() == names[k]);
        lemma_index_of(before.table, i);
    } else {
        lemma_detach_unwires(table, names.drop_last(), k);
        assert(before.table[i].name() == names[k]);
        lemma_index_of(before.table, i);
        assert(before.table[i] == unwired(table[i]));
        if has_session(before.table, names.last()) {
            let m = index_of(before.table, names.last());
            if m == i {
                assert(outcome.table == before.table);
            }
        }
    }
}

/// A session that was killed is in no listing made afterwards, whether a
/// client was attached to it or not.
pub proof fn lemma_killed_is_not_listed(
    table: Seq<SessionView>,
    names: Seq<Seq<char>>,
    name: Seq<char>,
)
    requires
        names.contains(name),
    ensures
        ({
            let after = table.filter(not_named(names));
            &&& !has_session(after, name)
            &&& forall|i: int| 0 <= i < listing(after).len() ==> (#[trigger] listing(after)[i]).0 != name
        }),
{
    let after = table.filter(not_named(names));
    table.filter_lemma(not_named(names));
    assert forall|i: int| 0 <= i < after.len() implies (#[trigger] after[i]).name() != name by {
        assert(not_named(names)(after[i]));
    }
}

/// A kill leaves every session that it does not name in the table.
pub proof fn lemma_kill_spares_others(table: Seq<SessionView>, names: Seq<Seq<char>>, i: int)
    requires
        0 <= i < table.len(),
        !names.contains(table[i].name()),
    ensures
        table.filter(not_named(names)).contains(table[i]),
        has_session(table.filter(not_named(names)), table[i].name()),
{
    assert(not_named(names)(table[i]));
    table.lemma_filter_contains(not_named(names), i);
    let after = table.filter(not_named(names));
    let j = choose|j: int| 0 <= j < after.len() && after[j] == table[i];
    assert(after[j].name() == table[i].name());
}

/// A session with a deadline that has been reached is ended by the reaper:
/// it leaves the table, its subshell is among those to terminate, and its
/// deadline is no longer waited for.
pub proof fn lemma_due_session_is_reaped(
    table: Seq<SessionView>,
    pending: Seq<ReapEntryView>,
    now: u64,
    k: int,
)
    requires
        0 <= k < pending.len(),
        pending[k].is_due(now),
    ensures
        ({
            let due = entry_names(due_entries(pending, now));
            let name = pending[k].name;
            &&& due.contains(name)
            &&& !has_session(table.filter(not_named(due)), name)
            &&& has_session(table, name) ==> child_pids(table.filter(named(due))).contains(
                table[index_of(table, name)].child_pid,
            )
            &&& !waiting_entries(pending, now).contains(pending[k])
        }),
{
    let is_due = due_at(now);
    let not_due = not_due_at(now);
    let due_now = due_entries(pending, now);
    let due = entry_names(due_now);
    let name = pending[k].name;
    assert(is_due(pending[k]));
    pending.lemma_filter_contains(is_due, k);
    let j = choose|j: int| 0 <= j < due_now.len() && due_now[j] == pending[k];
    assert(due[j] == name);
    lemma_killed_is_not_listed(table, due, name);
    if has_session(table, name) {
        let i = index_of(table, name);
        assert(named(due)(table[i]));
        table.lemma_filter_contains(named(due), i);
        let gone = table.filter(named(due));
        let m = choose|m: int| 0 <= m < gone.len() && gone[m] == table[i];
        assert(child_pids(gone)[m] == table[i].child_pid);
    }
    pending.filter_lemma(not_due);
    let waiting = waiting_entries(pending, now);
    if waiting.contains(pending[k]) {
        let w = choose|w: int| 0 <= w < waiting.len() && waiting[w] == pending[k];
        assert(not_due(waiting[w]));
    }
}

/// The reaper ends no session before its time: a session none of whose
/// deadlines has been reached stays in the table as it is, and a deadline
/// that has not been reached is still waited for.
pub proof fn lemma_reaper_waits(
    table: Seq<SessionView>,
    pending: Seq<ReapEntryView>,
    now: u64,
    i: int,
)
    requires
        0 <= i < table.len(),
        forall|k: int|
            0 <= k < pending.len() && (#[trigger] pending[k]).name == table[i].name()
                ==> !pending[k].is_due(now),
    ensures
        table.filter(not_named(entry_names(due_entries(pending, now)))).contains(table[i]),
        forall|k: int|
            0 <= k < pending.len() && !(#[trigger] pending[k]).is_due(now) ==> waiting_entries(
                pending,
                now,
            ).contains(pending[k]),
{
    let is_due = due_at(now);
    let not_due = not_due_at(now);
    let due_now = due_entries(pending, now);
    let due = entry_names(due_now);
    pending.filter_lemma(is_due);
    if due.contains(table[i].name()) {
        let j = choose|j: int| 0 <= j < due.len() && due[j] == table[i].name();
        assert(is_due(due_now[j]));
        pending.lemma_filter_contains_rev(is_due, due_now[j]);
        let k = choose|k: int| 0 <= k < pending.len() && pending[k] == due_now[j];
        assert(pending[k].name == table[i].name());
    }
    assert(not_named(due)(table[i]));
    table.lemma_filter_contains(not_named(due), i);
    assert forall|k: int| 0 <= k < pending.len() && !(#[trigger] pending[k]).is_due(
        now,
    ) implies waiting_entries(pending, now).contains(pending[k]) by {
        assert(not_due(pending[k]));
        pending.lemma_filter_contains(not_due, k);
    }
}

/// Reaping deadlines whose sessions have left the table by other means
/// changes nothing in the table and ends no subshell.
pub proof fn lemma_reaping_absent_is_silent(
    table: Seq<SessionView>,
    pending: Seq<ReapEntryView>,
    now: u64,
)
    requires
        forall|k: int|
            0 <= k < pending.len() && (#[trigger] pending[k]).is_due(now) ==> !has_session(
                table,
                pending[k].name,
            ),
    ensures
        table.filter(not_named(entry_names(due_entries(pending, now)))) == table,
        child_pids(table.filter(named(entry_names(due_entries(pending, now))))) == Seq::<
            i32,
        >::empty(),
{
    let is_due = due_at(now);
    let due_now = due_entries(pending, now);
    let due = entry_names(due_now);
    pending.filter_lemma(is_due);
    assert forall|i: int| 0 <= i < table.len() implies !due.contains(
        (#[trigger] table[i]).name(),
    ) by {
        if due.contains(table[i].name()) {
            let j = choose|j: int| 0 <= j < due.len() && due[j] == table[i].name();
            assert(is_due(due_now[j]));
            pending.lemma_filter_contains_rev(is_due, due_now[j]);
            let k = choose|k: int| 0 <= k < pending.len() && pending[k] == due_now[j];
            assert(has_session(table, pending[k].name));
        }
    }
    assert forall|i: int| 0 <= i < table.len() implies not_named(due)(#[trigger] table[i]) by {
        assert(!due.contains(table[i].name()));
    }
    assert forall|i: int| 0 <= i < table.len() implies !named(due)(#[trigger] table[i]) by {
        assert(!due.contains(table[i].name()));
    }
    lemma_filter_keeps_all(table, not_named(due));
    lemma_filter_keeps_none(table, named(due));
    assert(child_pids(Seq::<SessionView>::empty()) =~= Seq::<i32>::empty());
}

/// A session that is created at `start` with a time to live of `ttl_secs`
/// seconds, under a name for which no older deadline is waited for, stays in
/// the table at every look of the reaper before `start + ttl_secs`, and at
/// the first look at or after that instant it leaves the table and its
/// subshell is among those to terminate.
pub proof fn lemma_ttl_ends_session_on_time(
    table: Seq<SessionView>,
    pending: Seq<ReapEntryView>,
    name: Seq<char>,
    conn: usize,
    tty_size: TtySize,
    spawned: Spawned,
    ttl_secs: u64,
    start: u64,
    now: u64,
)
    requires
        table_wf(table),
        !has_session(table, name),
        forall|k: int| 0 <= k < pending.len() ==> (#[trigger] pending[k]).name != name,
    ensures
        ({
            let created = table_after_attach(table, conn, name, tty_size, Some(spawned));
            let waited = pending_after_attach(
                pending,
                AttachOutcome::Created,
                name,
                Some(ttl_secs),
                start,
            );
            let due = entry_names(due_entries(waited, now));
            &&& has_session(created, name)
            &&& now < start + ttl_secs ==> has_session(created.filter(not_named(due)), name)
            &&& now >= start + ttl_secs ==> !has_session(created.filter(not_named(due)), name)
                && child_pids(created.filter(named(due))).contains(spawned.child_pid)
        }),
{
    let fresh = fresh_session(conn, name, tty_size, spawned);
    let created = table_after_attach(table, conn, name, tty_size, Some(spawned));
    assert(created == table.push(fresh));
    let i = table.len() as int;
    assert(created[i] == fresh);
    assert(names_unique(created));
    lemma_index_of(created, i);
    let entry = ReapEntryView { name, deadline: start + ttl_secs };
    let waited = pending.push(entry);
    let k = pending.len() as int;
    assert(waited[k] == entry);
    if now >= start + ttl_secs {
        lemma_due_session_is_reaped(created, waited, now, k);
    } else {
        assert forall|j: int|
            0 <= j < waited.len() && (#[trigger] waited[j]).name == created[i].name()
            implies !waited[j].is_due(now) by {
            if j < k {
                assert(waited[j] == pending[j]);
            }
        }
        lemma_reaper_waits(created, waited, now, i);
        let kept = created.filter(not_named(entry_names(due_entries(waited, now))));
        let m = choose|m: int| 0 <= m < kept.len() && kept[m] == created[i];
        assert(kept[m].name() == name);
    }
}

} // verus!
