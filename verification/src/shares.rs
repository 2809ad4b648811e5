use vstd::prelude::*;
use vstd::string::*;
use crate::common::{copy_opt, opt_view, views, Copyable};
use crate::dashboard::owned_records;
use crate::error::EngineError;
use crate::identity::{principal_text, Identity};
use crate::record::{ActiveShare, ActiveShareView, MedicalRecord, MedicalRecordView};
use crate::registry::Registry;
use crate::state::{resolved, State};
use crate::text::{comes_before, join, joined, text_before};

verus! {

/// The order of display names: no name comes before any name, and names go
/// by the order of texts.
pub open spec fn name_before(a: Option<Seq<char>>, b: Option<Seq<char>>) -> bool {
    match (a, b) {
        (None, Some(_)) => true,
        (Some(x), Some(y)) => text_before(x, y),
        _ => false,
    }
}

/// The grant that `record` holds for `grantee`, as it is shown to the owner.
pub open spec fn share_of(s: State, record: MedicalRecordView, grantee: Seq<u8>) -> ActiveShareView {
    ActiveShareView {
        grant_id: joined(joined(record.record_id, ":"@), principal_text(grantee)),
        grantee_principal: principal_text(grantee),
        grantee_name: if s.users.dom().contains(grantee) {
            s.users[grantee].name
        } else {
            None
        },
        record_id: record.record_id,
        record_name: record.file_name,
        permissions: record.access_list[grantee],
    }
}

/// `part` shows the grants of `record` to participants other than `caller`,
/// each once, in some order.
pub open spec fn lists_shares_of_record(
    part: Seq<ActiveShareView>,
    s: State,
    record: MedicalRecordView,
    caller: Seq<u8>,
) -> bool {
    exists|grantees: Seq<Seq<u8>>|
        #![trigger grantees.no_duplicates()]
        {
            &&& grantees.no_duplicates()
            &&& grantees.to_set() == record.access_list.dom().remove(caller)
            &&& part == Seq::new(grantees.len(), |i: int| share_of(s, record, grantees[i]))
        }
}

/// `shares` shows the grants of `records` to participants other than
/// `caller`, record after record.
pub open spec fn lists_shares(
    shares: Seq<ActiveShareView>,
    s: State,
    records: Seq<MedicalRecordView>,
    caller: Seq<u8>,
) -> bool
    decreases records.len(),
{
    if records.len() == 0 {
        shares.len() == 0
    } else {
        exists|k: int|
            #![trigger shares.take(k)]
            {
                &&& 0 <= k <= shares.len()
                &&& lists_shares(shares.take(k), s, records.drop_last(), caller)
                &&& lists_shares_of_record(shares.skip(k), s, records.last(), caller)
            }
    }
}

/// `sorted` with `share` put behind the last share whose grantee's name does
/// not come after its own.
pub open spec fn placed_by_name(sorted: Seq<ActiveShareView>, share: ActiveShareView) -> Seq<
    ActiveShareView,
>
    decreases sorted.len(),
{
    if sorted.len() == 0 {
        seq![share]
    } else if !name_before(share.grantee_name, sorted.last().grantee_name) {
        sorted.push(share)
    } else {
        placed_by_name(sorted.drop_last(), share).push(sorted.last())
    }
}

/// The shares in the order of their grantees' names; shares of grantees with
/// the same name stay in the order in which `shares` holds them.
pub open spec fn by_name(shares: Seq<ActiveShareView>) -> Seq<ActiveShareView>
    decreases shares.len(),
{
    if shares.len() == 0 {
        Seq::empty()
    } else {
        placed_by_name(by_name(shares.drop_last()), shares.last())
    }
}

/// `found` shows every grant that `caller` has given on their records, in the
/// order of the grantees' names.
pub open spec fn lists_active_shares(found: Seq<ActiveShareView>, s: State, caller: Seq<u8>) -> bool {
    exists|shares: Seq<ActiveShareView>| #[trigger]
        lists_shares(shares, s, owned_records(s, caller), caller) && found == by_name(shares)
}

/// Putting a share at place `at` is what `placed_by_name` does, where `at` is
/// the place behind the last share whose name does not come after.
pub proof fn placed_by_name_is_insert(sorted: Seq<ActiveShareView>, share: ActiveShareView, at: int)
    requires
        0 <= at <= sorted.len(),
        forall|k: int|
            at <= k < sorted.len() ==> name_before(share.grantee_name, (#[trigger] sorted[k]).grantee_name),
        at == 0 || !name_before(share.grantee_name, sorted[at - 1].grantee_name),
    ensures
        placed_by_name(sorted, share) == sorted.insert(at, share),
    decreases sorted.len(),
{
    if sorted.len() == 0 {
        assert(seq![share] =~= sorted.insert(at, share));
    } else if at == sorted.len() {
        assert(sorted.push(share) =~= sorted.insert(at, share));
    } else {
        let rest = sorted.drop_last();
        assert(name_before(share.grantee_name, sorted[sorted.len() - 1].grantee_name));
        assert forall|k: int| at <= k < rest.len() implies name_before(
            share.grantee_name,
            (#[trigger] rest[k]).grantee_name,
        ) by {
            assert(rest[k] == sorted[k]);
        }
        placed_by_name_is_insert(rest, share, at);
        assert(rest.insert(at, share).push(sorted.last()) =~= sorted.insert(at, share));
    }
}

/// No share stands behind one whose grantee's name comes after its own.
pub open spec fn in_name_order(shares: Seq<ActiveShareView>) -> bool {
    forall|i: int, j: int|
        0 <= i < j < shares.len() ==> !name_before(
            (#[trigger] shares[j]).grantee_name,
            (#[trigger] shares[i]).grantee_name,
        )
}

/// A name that does not come after a second, which does not come after a
/// third, does not come after the third.
pub proof fn name_order_is_transitive(
    a: Option<Seq<char>>,
    b: Option<Seq<char>>,
    c: Option<Seq<char>>,
)
    requires
        !name_before(b, a),
        !name_before(c, b),
    ensures
        !name_before(c, a),
{
    if name_before(c, a) {
        match (a, b, c) {
            (Some(x), Some(y), Some(z)) => {
                crate::order::text_before_is_total(x, y);
                crate::order::text_before_is_total(y, z);
                if x != y && y != z {
                    crate::order::text_before_is_transitive(z, x, y);
                    crate::order::text_before_is_transitive(y, z, x);
                    crate::order::text_before_is_irreflexive(y);
                }
            },
            _ => {},
        }
    }
}

/// Putting a share into a list in name order keeps the list in name order and
/// keeps every share, each as often as before.
pub proof fn placed_by_name_keeps_order(sorted: Seq<ActiveShareView>, share: ActiveShareView)
    requires
        in_name_order(sorted),
    ensures
        in_name_order(placed_by_name(sorted, share)),
        placed_by_name(sorted, share).to_multiset() == sorted.to_multiset().insert(share),
        placed_by_name(sorted, share).len() == sorted.len() + 1,
    decreases sorted.len(),
{
    broadcast use vstd::seq_lib::group_to_multiset_ensures;

    if sorted.len() == 0 {
        assert(seq![share] =~= sorted.push(share));
    } else if !name_before(share.grantee_name, sorted.last().grantee_name) {
        let out = sorted.push(share);
        assert forall|i: int, j: int| 0 <= i < j < out.len() implies !name_before(
            (#[trigger] out[j]).grantee_name,
            (#[trigger] out[i]).grantee_name,
        ) by {
            if j == sorted.len() {
                if i < sorted.len() - 1 {
                    assert(!name_before(
                        sorted[sorted.len() - 1].grantee_name,
                        sorted[i].grantee_name,
                    ));
                    name_order_is_transitive(
                        sorted[i].grantee_name,
                        sorted[sorted.len() - 1].grantee_name,
                        share.grantee_name,
                    );
                }
            } else {
                assert(!name_before(sorted[j].grantee_name, sorted[i].grantee_name));
            }
        }
    } else {
        let rest = sorted.drop_last();
        let last = sorted.last();
        assert forall|i: int, j: int| 0 <= i < j < rest.len() implies !name_before(
            (#[trigger] rest[j]).grantee_name,
            (#[trigger] rest[i]).grantee_name,
        ) by {
            assert(!name_before(sorted[j].grantee_name, sorted[i].grantee_name));
        }
        placed_by_name_keeps_order(rest, share);
        let inner = placed_by_name(rest, share);
        let out = inner.push(last);
        assert(sorted =~= rest.push(last));
        assert forall|x: ActiveShareView| inner.contains(x) implies !name_before(
            last.grantee_name,
            x.grantee_name,
        ) by {
            assert(inner.to_multiset().count(x) > 0);
            if x != share {
                assert(rest.to_multiset().count(x) > 0);
                assert(rest.contains(x));
                let k = choose|k: int| 0 <= k < rest.len() && rest[k] == x;
                assert(!name_before(sorted[sorted.len() - 1].grantee_name, sorted[k].grantee_name));
            } else {
                match (share.grantee_name, last.grantee_name) {
                    (Some(a), Some(b)) => {
                        if crate::text::text_before(b, a) {
                            crate::order::text_before_is_transitive(a, b, a);
                            crate::order::text_before_is_irreflexive(a);
                        }
                    },
                    _ => {},
                }
            }
        }
        assert forall|i: int, j: int| 0 <= i < j < out.len() implies !name_before(
            (#[trigger] out[j]).grantee_name,
            (#[trigger] out[i]).grantee_name,
        ) by {
            if j == inner.len() {
                assert(inner.contains(inner[i]));
            } else {
                assert(!name_before(inner[j].grantee_name, inner[i].grantee_name));
            }
        }
        assert(out.to_multiset() =~= sorted.to_multiset().insert(share));
    }
}

/// The listing by name is in name order and holds every share as often as
/// the list it was made from.
pub proof fn by_name_is_sorted(shares: Seq<ActiveShareView>)
    ensures
        in_name_order(by_name(shares)),
        by_name(shares).to_multiset() == shares.to_multiset(),
        by_name(shares).len() == shares.len(),
    decreases shares.len(),
{
    broadcast use vstd::seq_lib::group_to_multiset_ensures;

    if shares.len() == 0 {
        assert(by_name(shares) =~= shares);
    } else {
        by_name_is_sorted(shares.drop_last());
        placed_by_name_keeps_order(by_name(shares.drop_last()), shares.last());
        assert(shares =~= shares.drop_last().push(shares.last()));
    }
}

/// Whether the name `a` comes before the name `b`.
pub fn name_comes_before(a: &Option<String>, b: &Option<String>) -> (r: bool)
    ensures
        r == name_before(opt_view(*a), opt_view(*b)),
{
    match (a, b) {
        (None, Some(_)) => true,
        (Some(x), Some(y)) => comes_before(x.as_str(), y.as_str()),
        _ => false,
    }
}

/// The shares in the order of their grantees' names.
pub fn sort_by_name(shares: Vec<ActiveShare>) -> (sorted: Vec<ActiveShare>)
    ensures
        views(sorted@) == by_name(views(shares@)),
{
    let mut out: Vec<ActiveShare> = Vec::new();
    let mut i: usize = 0;
    assert(views(shares@).take(0) =~= Seq::empty());
    assert(views(out@) =~= Seq::empty());
    while i < shares.len()
        invariant
            i <= shares.len(),
            views(out@) == by_name(views(shares@).take(i as int)),
        decreases shares.len() - i,
    {
        let share = shares[i].duplicate();
        let ghost before = views(out@);
        proof {
            let next = views(shares@).take(i + 1);
            assert(next.drop_last() =~= views(shares@).take(i as int));
            assert(next.last() == shares@[i as int]@);
        }
        let mut at: usize = out.len();
        while at > 0 && name_comes_before(&share.grantee_name, &out[at - 1].grantee_name)
            invariant
                at <= out.len(),
                forall|k: int|
                    at <= k < out.len() ==> name_before(
                        share@.grantee_name,
                        (#[trigger] views(out@)[k]).grantee_name,
                    ),
            decreases at,
        {
            at = at - 1;
        }
        proof {
            if at > 0 {
                assert(!name_before(share@.grantee_name, views(out@)[at - 1].grantee_name));
            }
            placed_by_name_is_insert(before, share@, at as int);
        }
        out.insert(at, share);
        assert(views(out@) =~= before.insert(at as int, shares@[i as int]@));
        i = i + 1;
    }
    assert(views(shares@).take(i as int) =~= views(shares@));
    out
}

impl Registry {
    /// The grants of `record` to participants other than `caller`, added to
    /// `out` in the order of the access list.
    fn add_shares_of(&self, out: &mut Vec<ActiveShare>, record: &MedicalRecord, caller: &Identity)
        requires
            self.wf(),
        ensures
            views(final(out)@).len() >= views(old(out)@).len(),
            views(final(out)@).take(views(old(out)@).len() as int) == views(old(out)@),
            lists_shares_of_record(
                views(final(out)@).skip(views(old(out)@).len() as int),
                self@,
                record@,
                caller@,
            ),
    {
        let n = record.access_list.len();
        let ghost names = record.access_list.grantees();
        let ghost start = views(out@);
        let ghost mut chosen: Seq<Seq<u8>> = Seq::empty();
        let mut k: usize = 0;
        assert(names.take(0) =~= Seq::empty());
        assert(views(out@).take(start.len() as int) =~= start);
        assert(chosen.to_set() =~= names.take(0).to_set().remove(caller@));
        while k < n
            invariant
                self.wf(),
                k <= n,
                n == names.len(),
                names == record.access_list.grantees(),
                names.no_duplicates(),
                names.to_set() == record@.access_list.dom(),
                views(out@).len() == start.len() + chosen.len(),
                views(out@).take(start.len() as int) == start,
                chosen.no_duplicates(),
                chosen.to_set() == names.take(k as int).to_set().remove(caller@),
                forall|i: int|
                    0 <= i < chosen.len() ==> (#[trigger] views(out@)[start.len() + i]) == share_of(
                        self@,
                        record@,
                        chosen[i],
                    ),
            decreases n - k,
        {
            let entry = record.access_list.entry(k);
            let ghost before = views(out@);
            let ghost picked = chosen;
            proof {
                assert(names.take(k + 1) =~= names.take(k as int).push(names[k as int]));
                names.take(k as int).lemma_push_to_set_commute(names[k as int]);
                assert(!names.take(k as int).contains(names[k as int])) by {
                    if names.take(k as int).contains(names[k as int]) {
                        let j = choose|j: int|
                            0 <= j < names.take(k as int).len() && names.take(k as int)[j]
                                == names[k as int];
                        assert(names[j] == names[k as int]);
                    }
                }
            }
            if !entry.grantee.same(caller) {
                let text = entry.grantee.to_text();
                let head = join(record.record_id.as_str(), ":");
                let grantee_name = match self.user(&entry.grantee) {
                    Some(user) => copy_opt(&user.name),
                    None => None,
                };
                let share = ActiveShare {
                    grant_id: join(head.as_str(), text.as_str()),
                    grantee_principal: text,
                    grantee_name,
                    record_id: record.record_id.clone(),
                    record_name: copy_opt(&record.file_name),
                    permissions: entry.permission,
                };
                assert(share@ == share_of(self@, record@, entry.grantee@));
                out.push(share);
                proof {
                    chosen = picked.push(entry.grantee@);
                    assert(views(out@) =~= before.push(share_of(self@, record@, entry.grantee@)));
                    picked.lemma_push_to_set_commute(entry.grantee@);
                    assert(!picked.contains(entry.grantee@)) by {
                        if picked.contains(entry.grantee@) {
                            assert(picked.to_set().contains(entry.grantee@));
                        }
                    }
                    assert(views(out@).take(start.len() as int) =~= start);
                    assert forall|i: int| 0 <= i < chosen.len() implies (#[trigger] views(
                        out@,
                    )[start.len() + i]) == share_of(self@, record@, chosen[i]) by {
                        if i < picked.len() {
                            assert(views(out@)[start.len() + i] == before[start.len() + i]);
                        }
                    }
                }
            }
            proof {
                assert(chosen.to_set() =~= names.take(k + 1).to_set().remove(caller@));
            }
            k = k + 1;
        }
        proof {
            assert(names.take(k as int) =~= names);
            let part = views(out@).skip(start.len() as int);
            let wanted = Seq::new(chosen.len(), |i: int| share_of(self@, record@, chosen[i]));
            assert(part.len() == wanted.len());
            assert forall|i: int| 0 <= i < part.len() implies part[i] == wanted[i] by {
                assert(part[i] == views(out@)[start.len() + i]);
            }
            assert(part =~= wanted);
            assert(chosen.no_duplicates());
        }
    }

    /// Every grant that `caller` has given on their records to someone else,
    /// in the order of the grantees' names; grantees without a name come first.
    pub fn get_my_active_shares(&self, caller: &Identity) -> (r: Result<Vec<ActiveShare>, EngineError>)
        requires
            self.wf(),
        ensures
            r matches Ok(found) && lists_active_shares(views(found@), self@, caller@),
    {
        let mut shares: Vec<ActiveShare> = Vec::new();
        match self.user(caller) {
            Some(user) => {
                let ids = &user.records;
                let mut i: usize = 0;
                assert(views(ids@).take(0) =~= Seq::empty());
                assert(views(shares@) =~= Seq::empty());
                while i < ids.len()
                    invariant
                        self.wf(),
                        i <= ids.len(),
                        lists_shares(
                            views(shares@),
                            self@,
                            resolved(views(ids@).take(i as int), self@.records),
                            caller@,
                        ),
                    decreases ids.len() - i,
                {
                    let ghost done = resolved(views(ids@).take(i as int), self@.records);
                    let ghost before = views(shares@);
                    proof {
                        let next = views(ids@).take(i + 1);
                        assert(next.drop_last() =~= views(ids@).take(i as int));
                        assert(next.last() == ids@[i as int]@);
                    }
                    match self.record(&ids[i]) {
                        Some(record) => {
                            self.add_shares_of(&mut shares, record, caller);
                            proof {
                                let all = resolved(views(ids@).take(i + 1), self@.records);
                                assert(all.drop_last() =~= done);
                                assert(all.last() == record@);
                                let k = before.len() as int;
                                assert(views(shares@).take(k) == before);
                            }
                        },
                        None => {},
                    }
                    i = i + 1;
                }
                assert(views(ids@).take(i as int) =~= views(ids@));
                assert(owned_records(self@, caller@) == resolved(views(ids@), self@.records));
            },
            None => {
                assert(owned_records(self@, caller@) =~= Seq::empty());
            },
        }
        let ghost unsorted = views(shares@);
        assert(lists_shares(unsorted, self@, owned_records(self@, caller@), caller@));
        Ok(sort_by_name(shares))
    }
}

} // verus!
