use vstd::prelude::*;
use vstd::string::*;
use crate::access::AccessPermission;
use crate::common::{views, Copyable};
use crate::error::EngineError;
use crate::identity::{principal_text, Identity};
use crate::record::SharedRecordIdList;
use crate::registry::Registry;
use crate::state::{enrolled, granted, logged, noted, revoked, without_id, State};
use crate::text::{join, joined};

verus! {

/// Whether `ids` holds `id`.
pub fn holds_id(ids: &Vec<String>, id: &String) -> (r: bool)
    ensures
        r == views(ids@).contains(id@),
{
    let mut i: usize = 0;
    while i < ids.len()
        invariant
            i <= ids.len(),
            forall|j: int| 0 <= j < i ==> views(ids@)[j] != id@,
        decreases ids.len() - i,
    {
        if ids[i] == *id {
            assert(views(ids@)[i as int] == id@);
            return true;
        }
        i = i + 1;
    }
    false
}

/// The identifiers of `ids` other than `id`, in order.
pub fn drop_id(ids: &Vec<String>, id: &String) -> (r: Vec<String>)
    ensures
        views(r@) == without_id(views(ids@), id@),
{
    let mut r: Vec<String> = Vec::new();
    let mut i: usize = 0;
    assert(views(ids@).take(0) =~= Seq::empty());
    assert(views(r@) =~= Seq::empty());
    while i < ids.len()
        invariant
            i <= ids.len(),
            views(r@) == without_id(views(ids@).take(i as int), id@),
        decreases ids.len() - i,
    {
        let ghost before = views(r@);
        if ids[i] != *id {
            r.push(ids[i].clone());
            assert(views(r@) =~= before.push(ids@[i as int]@));
        }
        proof {
            let next = views(ids@).take(i + 1);
            assert(next.drop_last() =~= views(ids@).take(i as int));
            assert(next.last() == ids@[i as int]@);
        }
        i = i + 1;
    }
    assert(views(ids@).take(i as int) =~= views(ids@));
    r
}

/// What `grant_access` does to the registry and what it answers.
pub open spec fn grant_access_spec(
    s: State,
    caller: Seq<u8>,
    record_id: Seq<char>,
    grantee: Seq<u8>,
    permission: AccessPermission,
    now: u64,
) -> (State, Result<(), EngineError>) {
    let s1 = enrolled(s, caller, now);
    if !s1.records.dom().contains(record_id) {
        (s1, Err(EngineError::RecordNotFound))
    } else if s1.records[record_id].owner != caller {
        (s1, Err(EngineError::NotOwner))
    } else {
        let s2 = granted(s1, record_id, grantee, permission);
        let s3 = logged(
            s2,
            caller,
            joined("grant_access_to_"@, principal_text(grantee)),
            Some(record_id),
            Some(principal_text(grantee)),
            None,
            now,
        );
        (noted(s3, caller, now), Ok(()))
    }
}

/// What `revoke_access` does to the registry and what it answers.
pub open spec fn revoke_access_spec(
    s: State,
    caller: Seq<u8>,
    record_id: Seq<char>,
    grantee: Seq<u8>,
    now: u64,
) -> (State, Result<(), EngineError>) {
    let s1 = enrolled(s, caller, now);
    if !s1.records.dom().contains(record_id) {
        (s1, Err(EngineError::RecordNotFound))
    } else if s1.records[record_id].owner != caller {
        (s1, Err(EngineError::NotOwner))
    } else {
        let s2 = revoked(s1, record_id, grantee);
        let s3 = logged(
            s2,
            caller,
            joined("revoke_access_from_"@, principal_text(grantee)),
            Some(record_id),
            Some(principal_text(grantee)),
            None,
            now,
        );
        (noted(s3, caller, now), Ok(()))
    }
}

/// What `submit_for_research` does to the registry and what it answers.
pub open spec fn submit_for_research_spec(
    s: State,
    caller: Seq<u8>,
    record_id: Seq<char>,
    now: u64,
) -> (State, Result<(), EngineError>) {
    let s1 = enrolled(s, caller, now);
    if !s1.records.dom().contains(record_id) {
        (s1, Err(EngineError::RecordNotFound))
    } else if s1.records[record_id].owner != caller {
        (s1, Err(EngineError::NotOwner))
    } else {
        let s2 = granted(
            s1,
            record_id,
            crate::identity::anonymous_bytes(),
            AccessPermission::research_spec(),
        );
        let s3 = logged(s2, caller, "submit_for_research"@, Some(record_id), None, None, now);
        (noted(s3, caller, now), Ok(()))
    }
}

impl Registry {
    /// Whether the record `record_id` exists and `caller` owns it.
    fn check_owner(&self, caller: &Identity, record_id: &String) -> (r: Result<(), EngineError>)
        requires
            self.wf(),
        ensures
            r == (if !self@.records.dom().contains(record_id@) {
                Err::<(), EngineError>(EngineError::RecordNotFound)
            } else if self@.records[record_id@].owner != caller@ {
                Err(EngineError::NotOwner)
            } else {
                Ok(())
            }),
    {
        match self.record(record_id) {
            Some(record) => {
                if record.owner.same(caller) {
                    Ok(())
                } else {
                    Err(EngineError::NotOwner)
                }
            },
            None => Err(EngineError::RecordNotFound),
        }
    }

    /// Enters the grant in the access list of the record and in the sharing
    /// index of the grantee.
    fn share(&mut self, record_id: &String, grantee: &Identity, permission: AccessPermission)
        requires
            old(self).wf(),
            old(self)@.records.dom().contains(record_id@),
        ensures
            final(self).wf(),
            final(self)@ == granted(old(self)@, record_id@, grantee@, permission),
    {
        let found = match self.record(record_id) {
            Some(record) => Some(record.duplicate()),
            None => None,
        };
        let listed = match self.shared_list(grantee) {
            Some(list) => list.duplicate(),
            None => SharedRecordIdList { record_ids: Vec::new() },
        };
        proof {
            if !self@.shared.dom().contains(grantee@) {
                assert(listed@.record_ids =~= Seq::empty());
            }
        }
        match found {
            Some(mut record) => {
                let to_owner = record.owner.same(grantee);
                record.access_list.insert(grantee.duplicate(), permission);
                self.put_record(record_id.clone(), record);
                if !to_owner {
                    let mut list = listed;
                    if !holds_id(&list.record_ids, record_id) {
                        let ghost before = views(list.record_ids@);
                        list.record_ids.push(record_id.clone());
                        assert(views(list.record_ids@) =~= before.push(record_id@));
                    }
                    self.put_shared_list(grantee, list);
                }
            },
            None => {},
        }
    }

    /// Takes the grantee out of the access list of the record and the record
    /// out of the sharing index of the grantee.
    fn unshare(&mut self, record_id: &String, grantee: &Identity)
        requires
            old(self).wf(),
            old(self)@.records.dom().contains(record_id@),
        ensures
            final(self).wf(),
            final(self)@ == revoked(old(self)@, record_id@, grantee@),
    {
        let found = match self.record(record_id) {
            Some(record) => Some(record.duplicate()),
            None => None,
        };
        let listed = match self.shared_list(grantee) {
            Some(list) => Some(SharedRecordIdList { record_ids: drop_id(&list.record_ids, record_id) }),
            None => None,
        };
        match found {
            Some(mut record) => {
                record.access_list.remove(grantee);
                self.put_record(record_id.clone(), record);
                match listed {
                    Some(list) => {
                        self.put_shared_list(grantee, list);
                    },
                    None => {},
                }
            },
            None => {},
        }
    }

    /// Gives `grantee` the permission `permission` on a record that `caller`
    /// owns, in place of any permission they had on it.
    pub fn grant_access(
        &mut self,
        caller: &Identity,
        record_id: String,
        grantee: &Identity,
        permission: AccessPermission,
        now: u64,
    ) -> (r: Result<(), EngineError>)
        requires
            old(self).wf(),
        ensures
            final(self).wf(),
            final(self)@ == grant_access_spec(
                old(self)@,
                caller@,
                record_id@,
                grantee@,
                permission,
                now,
            ).0,
            r == grant_access_spec(old(self)@, caller@, record_id@, grantee@, permission, now).1,
    {
        let _ = self.get_or_create_user_profile(caller, now);
        match self.check_owner(caller, &record_id) {
            Err(e) => Err(e),
            Ok(()) => {
                self.share(&record_id, grantee, permission);
                let text = grantee.to_text();
                let action = join("grant_access_to_", text.as_str());
                let entry = self.log_action(caller, Some(record_id), action, Some(text), None, now);
                self.note(caller, entry);
                Ok(())
            },
        }
    }

    /// Takes away whatever `grantee` was granted on a record that `caller`
    /// owns. Succeeds also where there was no grant.
    pub fn revoke_access(
        &mut self,
        caller: &Identity,
        record_id: String,
        grantee: &Identity,
        now: u64,
    ) -> (r: Result<(), EngineError>)
        requires
            old(self).wf(),
        ensures
            final(self).wf(),
            final(self)@ == revoke_access_spec(old(self)@, caller@, record_id@, grantee@, now).0,
            r == revoke_access_spec(old(self)@, caller@, record_id@, grantee@, now).1,
    {
        let _ = self.get_or_create_user_profile(caller, now);
        match self.check_owner(caller, &record_id) {
            Err(e) => Err(e),
            Ok(()) => {
                self.unshare(&record_id, grantee);
                let text = grantee.to_text();
                let action = join("revoke_access_from_", text.as_str());
                let entry = self.log_action(caller, Some(record_id), action, Some(text), None, now);
                self.note(caller, entry);
                Ok(())
            },
        }
    }

    /// Folds a record that `caller` owns into the research pool: the anonymous
    /// identity may view its anonymized form.
    pub fn submit_for_research(&mut self, caller: &Identity, record_id: String, now: u64) -> (r:
        Result<(), EngineError>)
        requires
            old(self).wf(),
        ensures
            final(self).wf(),
            final(self)@ == submit_for_research_spec(old(self)@, caller@, record_id@, now).0,
            r == submit_for_research_spec(old(self)@, caller@, record_id@, now).1,
    {
        let _ = self.get_or_create_user_profile(caller, now);
        match self.check_owner(caller, &record_id) {
            Err(e) => Err(e),
            Ok(()) => {
                let pool = Identity::anonymous();
                self.share(&record_id, &pool, AccessPermission::research());
                let action = "submit_for_research".to_string();
                let entry = self.log_action(caller, Some(record_id), action, None, None, now);
                self.note(caller, entry);
                Ok(())
            },
        }
    }
}

} // verus!
