//! The deadlines after which sessions are ended without being asked.

use crate::seqs::lemma_filter_take_next;
use vstd::prelude::*;

verus! {

/// A session that is to be ended once its time to live has passed.
#[derive(Clone, Debug)]
pub struct ReapEntry {
    /// The session's name.
    pub name: String,
    /// When the session was registered, in seconds on the daemon's clock.
    pub registered_at: u64,
    /// How many seconds after that the session may live.
    pub ttl_secs: u64,
}

/// A `ReapEntry` as a name and the instant at which it falls due.
pub struct ReapEntryView {
    pub name: Seq<char>,
    pub deadline: int,
}

impl View for ReapEntry {
    type V = ReapEntryView;

    open spec fn view(&self) -> ReapEntryView {
        ReapEntryView { name: self.name@, deadline: self.registered_at + self.ttl_secs }
    }
}

impl ReapEntryView {
    /// An entry is due at `now` when its deadline is not after `now`.
    pub open spec fn is_due(self, now: u64) -> bool {
        self.deadline <= now
    }
}

impl ReapEntry {
    /// Whether the entry's deadline has been reached at `now`.
    pub fn is_due(&self, now: u64) -> (due: bool)
        ensures
            due == self@.is_due(now),
    {
        now >= self.registered_at && now - self.registered_at >= self.ttl_secs
    }
}

/// The test whether an entry is due at `now`.
pub open spec fn due_at(now: u64) -> spec_fn(ReapEntryView) -> bool {
    |e: ReapEntryView| e.is_due(now)
}

/// The test whether an entry is not yet due at `now`.
pub open spec fn not_due_at(now: u64) -> spec_fn(ReapEntryView) -> bool {
    |e: ReapEntryView| !e.is_due(now)
}

/// The entries of `pending` that are due at `now`, in their order.
pub open spec fn due_entries(pending: Seq<ReapEntryView>, now: u64) -> Seq<ReapEntryView> {
    pending.filter(due_at(now))
}

/// The entries of `pending` that are not yet due at `now`, in their order.
pub open spec fn waiting_entries(pending: Seq<ReapEntryView>, now: u64) -> Seq<ReapEntryView> {
    pending.filter(not_due_at(now))
}

/// The names of `entries`, in their order.
pub open spec fn entry_names(entries: Seq<ReapEntryView>) -> Seq<Seq<char>> {
    entries.map_values(|e: ReapEntryView| e.name)
}

/// The deadlines that have been registered and have not yet passed.
#[derive(Clone, Debug)]
pub struct TtlReaper {
    pending: Vec<ReapEntry>,
}

impl View for TtlReaper {
    type V = Seq<ReapEntryView>;

    closed spec fn view(&self) -> Seq<ReapEntryView> {
        self.pending@.map_values(|e: ReapEntry| e@)
    }
}

impl TtlReaper {
    /// A reaper that waits for nothing.
    pub fn new() -> (reaper: TtlReaper)
        ensures
            reaper@ == Seq::<ReapEntryView>::empty(),
    {
        let reaper = TtlReaper { pending: Vec::new() };
        assert(reaper@ =~= Seq::<ReapEntryView>::empty());
        reaper
    }

    /// Registers that the session `name`, created at `now`, may live for
    /// `ttl_secs` seconds.
    pub fn register(&mut self, name: String, now: u64, ttl_secs: u64)
        ensures
            final(self)@ == old(self)@.push(
                ReapEntryView { name: name@, deadline: now + ttl_secs },
            ),
    {
        self.pending.push(ReapEntry { name, registered_at: now, ttl_secs });
        assert(self@ =~= old(self)@.push(ReapEntryView { name: name@, deadline: now + ttl_secs }));
    }

    /// How many deadlines are being waited for.
    pub fn len(&self) -> (n: usize)
        ensures
            n == self@.len(),
    {
        self.pending.len()
    }

    /// Takes out the entries that are due at `now` and returns their names in
    /// the order in which they were registered. The others stay.
    pub fn take_due(&mut self, now: u64) -> (names: Vec<String>)
        ensures
            names.deep_view() == entry_names(due_entries(old(self)@, now)),
            final(self)@ == waiting_entries(old(self)@, now),
    {
        let ghost all = self@;
        let ghost due = due_at(now);
        let ghost waiting = not_due_at(now);
        let mut names: Vec<String> = Vec::new();
        let mut kept: Vec<ReapEntry> = Vec::new();
        let mut i: usize = 0;
        assert(all.take(0) =~= Seq::<ReapEntryView>::empty());
        while i < self.pending.len()
            invariant
                i <= self.pending.len(),
                self@ == all,
                all.len() == self.pending.len(),
                due == due_at(now),
                waiting == not_due_at(now),
                names.deep_view() == entry_names(all.take(i as int).filter(due)),
                kept@.map_values(|e: ReapEntry| e@) == all.take(i as int).filter(waiting),
            decreases self.pending.len() - i,
        {
            let entry = &self.pending[i];
            proof {
                lemma_filter_take_next(all, due, i as int);
                lemma_filter_take_next(all, waiting, i as int);
                assert(all[i as int] == entry@);
            }
            if entry.is_due(now) {
                let ghost before = names;
                names.push(entry.name.clone());
                proof {
                    let found = all.take(i as int).filter(due);
                    assert(names.deep_view() =~= before.deep_view().push(entry.name@));
                    assert(entry_names(found.push(entry@)) =~= entry_names(found).push(
                        entry.name@,
                    ));
                }
            } else {
                let ghost before = kept;
                kept.push(entry.clone_entry());
                assert(kept@.map_values(|e: ReapEntry| e@) =~= before@.map_values(
                    |e: ReapEntry| e@,
                ).push(entry@));
            }
            i += 1;
        }
        assert(all.take(i as int) =~= all);
        self.pending = kept;
        names
    }
}

impl ReapEntry {
    /// A copy of the entry.
    pub fn clone_entry(&self) -> (copy: ReapEntry)
        ensures
            copy@ == self@,
    {
        ReapEntry {
            name: self.name.clone(),
            registered_at: self.registered_at,
            ttl_secs: self.ttl_secs,
        }
    }
}

} // verus!
