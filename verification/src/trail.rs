use vstd::prelude::*;
use crate::audit::{AuditLogEntry, AuditLogEntryView};
use crate::common::{views, Copyable};
use crate::error::EngineError;
use crate::identity::Identity;
use crate::registry::Registry;
use crate::state::{resolved, State};

verus! {

/// The pointers to the trail that the profile of `who` holds.
pub open spec fn pointers_of(s: State, who: Seq<u8>) -> Seq<u64> {
    if s.users.dom().contains(who) {
        s.users[who].audit_pointer
    } else {
        Seq::empty()
    }
}

/// `sorted` with `entry` put behind the last entry that is not older than it.
pub open spec fn placed(sorted: Seq<AuditLogEntryView>, entry: AuditLogEntryView) -> Seq<
    AuditLogEntryView,
>
    decreases sorted.len(),
{
    if sorted.len() == 0 {
        seq![entry]
    } else if sorted.last().timestamp >= entry.timestamp {
        sorted.push(entry)
    } else {
        placed(sorted.drop_last(), entry).push(sorted.last())
    }
}

/// The entries from the newest to the oldest; entries of the same time stay
/// in the order in which `entries` holds them.
pub open spec fn newest_first(entries: Seq<AuditLogEntryView>) -> Seq<AuditLogEntryView>
    decreases entries.len(),
{
    if entries.len() == 0 {
        Seq::empty()
    } else {
        placed(newest_first(entries.drop_last()), entries.last())
    }
}

/// No entry is newer than one before it.
pub open spec fn descending(entries: Seq<AuditLogEntryView>) -> bool {
    forall|i: int, j: int|
        0 <= i < j < entries.len() ==> (#[trigger] entries[i]).timestamp >= (#[trigger] entries[j]).timestamp
}

/// Putting an entry at place `at` is what `placed` does, where `at` is the
/// place behind the last entry that is not older.
pub proof fn placed_is_insert(sorted: Seq<AuditLogEntryView>, entry: AuditLogEntryView, at: int)
    requires
        0 <= at <= sorted.len(),
        forall|k: int| at <= k < sorted.len() ==> (#[trigger] sorted[k]).timestamp < entry.timestamp,
        at == 0 || sorted[at - 1].timestamp >= entry.timestamp,
    ensures
        placed(sorted, entry) == sorted.insert(at, entry),
    decreases sorted.len(),
{
    if sorted.len() == 0 {
        assert(seq![entry] =~= sorted.insert(at, entry));
    } else if at == sorted.len() {
        assert(sorted.push(entry) =~= sorted.insert(at, entry));
    } else {
        let rest = sorted.drop_last();
        assert(sorted[sorted.len() - 1].timestamp < entry.timestamp);
        assert forall|k: int| at <= k < rest.len() implies (#[trigger] rest[k]).timestamp
            < entry.timestamp by {
            assert(rest[k] == sorted[k]);
        }
        placed_is_insert(rest, entry, at);
        assert(rest.insert(at, entry).push(sorted.last()) =~= sorted.insert(at, entry));
    }
}

/// Putting an entry into a descending list keeps it descending and keeps
/// every entry, each as often as before.
pub proof fn placed_keeps_order(sorted: Seq<AuditLogEntryView>, entry: AuditLogEntryView)
    requires
        descending(sorted),
    ensures
        descending(placed(sorted, entry)),
        placed(sorted, entry).to_multiset() == sorted.to_multiset().insert(entry),
        placed(sorted, entry).len() == sorted.len() + 1,
    decreases sorted.len(),
{
    broadcast use vstd::seq_lib::group_to_multiset_ensures;

    if sorted.len() == 0 {
        assert(seq![entry] =~= sorted.push(entry));
    } else if sorted.last().timestamp >= entry.timestamp {
        let out = sorted.push(entry);
        assert forall|i: int, j: int| 0 <= i < j < out.len() implies (#[trigger] out[i]).timestamp
            >= (#[trigger] out[j]).timestamp by {
            if j == sorted.len() {
                if i < sorted.len() - 1 {
                    assert(sorted[i].timestamp >= sorted[sorted.len() - 1].timestamp);
                }
            } else {
                assert(sorted[i].timestamp >= sorted[j].timestamp);
            }
        }
    } else {
        let rest = sorted.drop_last();
        let last = sorted.last();
        assert forall|i: int, j: int| 0 <= i < j < rest.len() implies (#[trigger] rest[i]).timestamp
            >= (#[trigger] rest[j]).timestamp by {
            assert(sorted[i].timestamp >= sorted[j].timestamp);
        }
        placed_keeps_order(rest, entry);
        let inner = placed(rest, entry);
        let out = inner.push(last);
        assert(sorted =~= rest.push(last));
        assert forall|x: AuditLogEntryView| inner.contains(x) implies x.timestamp
            >= last.timestamp by {
            assert(inner.to_multiset().count(x) > 0);
            if x != entry {
                assert(rest.to_multiset().count(x) > 0);
                assert(rest.contains(x));
                let k = choose|k: int| 0 <= k < rest.len() && rest[k] == x;
                assert(sorted[k].timestamp >= sorted[sorted.len() - 1].timestamp);
            }
        }
        assert forall|i: int, j: int| 0 <= i < j < out.len() implies (#[trigger] out[i]).timestamp
            >= (#[trigger] out[j]).timestamp by {
            if j == inner.len() {
                assert(inner.contains(inner[i]));
            } else {
                assert(inner[i].timestamp >= inner[j].timestamp);
            }
        }
        assert(out.to_multiset() =~= sorted.to_multiset().insert(entry));
    }
}

/// The listing from the newest to the oldest is descending and holds every
/// entry as often as the list it was made from.
pub proof fn newest_first_is_sorted(entries: Seq<AuditLogEntryView>)
    ensures
        descending(newest_first(entries)),
        newest_first(entries).to_multiset() == entries.to_multiset(),
        newest_first(entries).len() == entries.len(),
    decreases entries.len(),
{
    broadcast use vstd::seq_lib::group_to_multiset_ensures;

    if entries.len() == 0 {
        assert(newest_first(entries) =~= entries);
    } else {
        newest_first_is_sorted(entries.drop_last());
        placed_keeps_order(newest_first(entries.drop_last()), entries.last());
        assert(entries =~= entries.drop_last().push(entries.last()));
    }
}

impl Registry {
    /// The trail entries to which the profile of `caller` points, from the
    /// newest to the oldest. A pointer to which no entry belongs is passed
    /// over.
    pub fn get_my_audit_log(&self, caller: &Identity) -> (r: Result<Vec<AuditLogEntry>, EngineError>)
        requires
            self.wf(),
        ensures
            r matches Ok(found) && views(found@) == newest_first(
                resolved(pointers_of(self@, caller@), self@.audit),
            ),
    {
        let mut out: Vec<AuditLogEntry> = Vec::new();
        match self.user(caller) {
            Some(user) => {
                let ids = &user.audit_pointer;
                let mut i: usize = 0;
                assert(ids@.take(0) =~= Seq::empty());
                assert(views(out@) =~= Seq::empty());
                while i < ids.len()
                    invariant
                        self.wf(),
                        i <= ids.len(),
                        views(out@) == newest_first(resolved(ids@.take(i as int), self@.audit)),
                    decreases ids.len() - i,
                {
                    proof {
                        let next = ids@.take(i + 1);
                        assert(next.drop_last() =~= ids@.take(i as int));
                        assert(next.last() == ids@[i as int]);
                        if self@.audit.dom().contains(ids@[i as int]) {
                            assert(resolved(next, self@.audit).drop_last() =~= resolved(
                                next.drop_last(),
                                self@.audit,
                            ));
                        }
                    }
                    match self.audit_entry(ids[i]) {
                        Some(entry) => {
                            let ghost before = views(out@);
                            let mut at: usize = out.len();
                            while at > 0 && out[at - 1].timestamp < entry.timestamp
                                invariant
                                    at <= out.len(),
                                    forall|k: int|
                                        at <= k < out.len() ==> (#[trigger] views(out@)[k]).timestamp
                                            < entry@.timestamp,
                                decreases at,
                            {
                                at = at - 1;
                            }
                            proof {
                                if at > 0 {
                                    assert(views(out@)[at - 1].timestamp >= entry@.timestamp);
                                }
                                placed_is_insert(before, entry@, at as int);
                            }
                            out.insert(at, entry.duplicate());
                            assert(views(out@) =~= before.insert(at as int, entry@));
                        },
                        None => {},
                    }
                    i = i + 1;
                }
                assert(ids@.take(i as int) =~= ids@);
            },
            None => {
                assert(views(out@) =~= Seq::empty());
            },
        }
        Ok(out)
    }
}

} // verus!
