use vstd::prelude::*;
use crate::common::{views, Copyable};
use crate::error::EngineError;
use crate::identity::Identity;
use crate::record::MedicalRecordView;
use crate::records::owned_ids;
use crate::registry::Registry;
use crate::state::{resolved, State};
use crate::trail::pointers_of;

verus! {

/// The participants other than `caller` whom the access lists of `records`
/// name.
pub open spec fn grantees_of(records: Seq<MedicalRecordView>, caller: Seq<u8>) -> Set<Seq<u8>>
    decreases records.len(),
{
    if records.len() == 0 {
        Set::empty()
    } else {
        grantees_of(records.drop_last(), caller).union(
            records.last().access_list.dom().remove(caller),
        )
    }
}

/// The sizes of `records` added up, each addition wrapping around at 2^64. A
/// record without a size counts as nothing.
pub open spec fn storage_of(records: Seq<MedicalRecordView>) -> u64
    decreases records.len(),
{
    if records.len() == 0 {
        0
    } else {
        match records.last().file_size {
            Some(size) => storage_of(records.drop_last()).wrapping_add(size),
            None => storage_of(records.drop_last()),
        }
    }
}

/// The records that the profile of `who` lists, as far as they are stored.
pub open spec fn owned_records(s: State, who: Seq<u8>) -> Seq<MedicalRecordView> {
    resolved(owned_ids(s, who), s.records)
}

/// Whether `seen` holds `who`.
fn seen_before(seen: &Vec<Identity>, who: &Identity) -> (r: bool)
    ensures
        r == views(seen@).contains(who@),
{
    let mut i: usize = 0;
    while i < seen.len()
        invariant
            i <= seen.len(),
            forall|j: int| 0 <= j < i ==> views(seen@)[j] != who@,
        decreases seen.len() - i,
    {
        if seen[i].same(who) {
            assert(views(seen@)[i as int] == who@);
            return true;
        }
        i = i + 1;
    }
    false
}

impl Registry {
    /// Three figures for `caller`: how many different participants their
    /// records are shared with, how many trail pointers their profile holds,
    /// and how much their records store.
    pub fn get_dashboard_stats(&self, caller: &Identity) -> (r: Result<(u64, u64, u64), EngineError>)
        requires
            self.wf(),
        ensures
            r matches Ok(stats) && stats.0 == grantees_of(owned_records(self@, caller@), caller@).len()
                && stats.1 == pointers_of(self@, caller@).len() && stats.2 == storage_of(
                owned_records(self@, caller@),
            ),
            grantees_of(owned_records(self@, caller@), caller@).finite(),
    {
        let mut seen: Vec<Identity> = Vec::new();
        let mut total: u64 = 0;
        let mut pointers: u64 = 0;
        match self.user(caller) {
            Some(user) => {
                let ids = &user.records;
                pointers = user.audit_pointer.len() as u64;
                let mut i: usize = 0;
                assert(views(ids@).take(0) =~= Seq::empty());
                assert(views(seen@).to_set() =~= Set::empty());
                while i < ids.len()
                    invariant
                        self.wf(),
                        i <= ids.len(),
                        views(seen@).no_duplicates(),
                        views(seen@).to_set() == grantees_of(
                            resolved(views(ids@).take(i as int), self@.records),
                            caller@,
                        ),
                        total == storage_of(resolved(views(ids@).take(i as int), self@.records)),
                    decreases ids.len() - i,
                {
                    let ghost done = resolved(views(ids@).take(i as int), self@.records);
                    proof {
                        let next = views(ids@).take(i + 1);
                        assert(next.drop_last() =~= views(ids@).take(i as int));
                        assert(next.last() == ids@[i as int]@);
                        if self@.records.dom().contains(ids@[i as int]@) {
                            assert(resolved(next, self@.records).drop_last() =~= done);
                        }
                    }
                    match self.record(&ids[i]) {
                        Some(record) => {
                            let n = record.access_list.len();
                            let ghost names = record.access_list.grantees();
                            let mut k: usize = 0;
                            assert(names.take(0) =~= Seq::empty());
                            assert(names.take(0).to_set() =~= Set::empty());
                            while k < n
                                invariant
                                    k <= n,
                                    n == names.len(),
                                    names == record.access_list.grantees(),
                                    views(seen@).no_duplicates(),
                                    views(seen@).to_set() == grantees_of(done, caller@).union(
                                        names.take(k as int).to_set().remove(caller@),
                                    ),
                                decreases n - k,
                            {
                                let entry = record.access_list.entry(k);
                                let ghost before = views(seen@);
                                proof {
                                    assert(names.take(k + 1) =~= names.take(k as int).push(
                                        names[k as int],
                                    ));
                                    names.take(k as int).lemma_push_to_set_commute(names[k as int]);
                                    before.lemma_push_to_set_commute(entry.grantee@);
                                    assert(names.take(k + 1).to_set() =~= names.take(k as int).to_set().insert(
                                        names[k as int],
                                    ));
                                }
                                if !entry.grantee.same(caller) && !seen_before(&seen, &entry.grantee) {
                                    seen.push(entry.grantee.duplicate());
                                    assert(views(seen@) =~= before.push(entry.grantee@));
                                    assert(views(seen@).to_set() =~= before.to_set().insert(
                                        entry.grantee@,
                                    ));
                                }
                                assert(views(seen@).to_set() =~= grantees_of(done, caller@).union(
                                    names.take(k + 1).to_set().remove(caller@),
                                ));
                                k = k + 1;
                            }
                            assert(names.take(k as int) =~= names);
                            match record.file_size {
                                Some(size) => {
                                    total = total.wrapping_add(size);
                                },
                                None => {},
                            }
                        },
                        None => {},
                    }
                    i = i + 1;
                }
                assert(views(ids@).take(i as int) =~= views(ids@));
            },
            None => {
                assert(views(seen@).to_set() =~= Set::empty());
            },
        }
        proof {
            views(seen@).unique_seq_to_set();
            vstd::seq_lib::seq_to_set_is_finite(views(seen@));
        }
        Ok((seen.len() as u64, pointers, total))
    }
}

} // verus!
