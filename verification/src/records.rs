use vstd::prelude::*;
use vstd::string::*;
use vstd::utf8::encode_utf8;
use crate::access::{AccessList, AccessPermission};
use crate::common::{opt_view, views, Copyable};
use crate::digest::{hash_of_text, hash_text};
use crate::error::EngineError;
use crate::identity::{principal_text, Identity};
use crate::profile::IdentityStatus;
use crate::record::{MedicalRecord, MedicalRecordView, SharedRecordInfo, SharedRecordInfoView};
use crate::registry::Registry;
use crate::state::{enrolled, logged, resolved, shared_ids, State};
use crate::text::{decimal, decimal_text, join, joined};

verus! {

/// What `who` may do with the record: everything where they own it, what the
/// access list grants them otherwise.
pub open spec fn effective_permission(r: MedicalRecordView, who: Seq<u8>) -> Option<
    AccessPermission,
> {
    if who == r.owner {
        Some(AccessPermission::full_spec())
    } else if r.access_list.dom().contains(who) {
        Some(r.access_list[who])
    } else {
        None
    }
}

/// Whether `who` may view the record.
pub open spec fn may_view_spec(r: MedicalRecordView, who: Seq<u8>) -> bool {
    effective_permission(r, who) matches Some(p) && p.can_view
}

/// Whether `who` may change the record.
pub open spec fn may_edit_spec(r: MedicalRecordView, who: Seq<u8>) -> bool {
    effective_permission(r, who) matches Some(p) && p.can_edit
}

/// Whether `who` may pass the record on.
pub open spec fn may_share_spec(r: MedicalRecordView, who: Seq<u8>) -> bool {
    effective_permission(r, who) matches Some(p) && p.can_share
}

impl MedicalRecord {
    /// What `who` may do with this record.
    pub fn permission_for(&self, who: &Identity) -> (r: Option<AccessPermission>)
        ensures
            r == effective_permission(self@, who@),
    {
        if self.owner.same(who) {
            Some(AccessPermission::full())
        } else {
            self.access_list.get(who)
        }
    }

    /// Whether `who` may view this record.
    pub fn may_view(&self, who: &Identity) -> (r: bool)
        ensures
            r == may_view_spec(self@, who@),
    {
        match self.permission_for(who) {
            Some(p) => p.can_view,
            None => false,
        }
    }

    /// Whether `who` may change this record.
    pub fn may_edit(&self, who: &Identity) -> (r: bool)
        ensures
            r == may_edit_spec(self@, who@),
    {
        match self.permission_for(who) {
            Some(p) => p.can_edit,
            None => false,
        }
    }

    /// Whether `who` may pass this record on.
    pub fn may_share(&self, who: &Identity) -> (r: bool)
        ensures
            r == may_share_spec(self@, who@),
    {
        match self.permission_for(who) {
            Some(p) => p.can_share,
            None => false,
        }
    }
}

/// The text from which the identifier of an uploaded record is derived.
pub open spec fn seed_text(head: Seq<char>, now: u64) -> Seq<char> {
    joined(joined(head, "-"@), decimal(now as nat))
}

/// The identifier of a record with the content reference `file_cid` that is
/// uploaded at time `now`.
pub open spec fn upload_id(file_cid: Seq<char>, now: u64) -> Seq<char> {
    hash_text(encode_utf8(seed_text(file_cid, now)))
}

/// The identifier of a folder that `caller` creates at time `now`.
pub open spec fn folder_id(caller: Seq<u8>, now: u64) -> Seq<char> {
    hash_text(encode_utf8(seed_text(principal_text(caller), now)))
}

/// An uploaded record as it is first stored: the owner holds every
/// permission, and nothing else is known of it.
pub open spec fn file_record(
    record_id: Seq<char>,
    owner: Seq<u8>,
    file_cid: Seq<char>,
    file_type: Seq<char>,
    file_name: Seq<char>,
    parent_folder_id: Option<Seq<char>>,
    file_size: u64,
    now: u64,
) -> MedicalRecordView {
    MedicalRecordView {
        record_id,
        owner,
        file_cid,
        file_name: Some(file_name),
        file_type,
        file_size: Some(file_size),
        aes_key_enc_for_owner: Seq::empty(),
        per_principal_keys: Seq::empty(),
        timestamp: now,
        parent_folder_id,
        tags: Seq::empty(),
        references: Seq::empty(),
        derived_artifacts: Seq::empty(),
        metadata_completeness_score: 0,
        uses_standard_codes: false,
        plausibility_flags: Seq::empty(),
        access_list: Map::empty().insert(owner, AccessPermission::full_spec()),
        latest_version_id: None,
        is_anonymized: false,
    }
}

/// A folder as it is first stored: a record without content, size or access
/// list.
pub open spec fn folder_record(
    record_id: Seq<char>,
    owner: Seq<u8>,
    folder_name: Seq<char>,
    parent_folder_id: Option<Seq<char>>,
    now: u64,
) -> MedicalRecordView {
    MedicalRecordView {
        record_id,
        owner,
        file_cid: Seq::empty(),
        file_name: Some(folder_name),
        file_type: "folder"@,
        file_size: None,
        aes_key_enc_for_owner: Seq::empty(),
        per_principal_keys: Seq::empty(),
        timestamp: now,
        parent_folder_id,
        tags: Seq::empty(),
        references: Seq::empty(),
        derived_artifacts: Seq::empty(),
        metadata_completeness_score: 0,
        uses_standard_codes: false,
        plausibility_flags: Seq::empty(),
        access_list: Map::empty(),
        latest_version_id: None,
        is_anonymized: false,
    }
}

/// The registry after `record` has been stored for `caller`: the record is
/// filed under its identifier, in place of any record that was there, the
/// trail has an entry for `action`, and the profile of `caller`, if there is
/// one, lists the record and points to the entry.
pub open spec fn stored(
    s: State,
    caller: Seq<u8>,
    record: MedicalRecordView,
    action: Seq<char>,
    meta_cid: Option<Seq<char>>,
    now: u64,
) -> State {
    let s1 = State { records: s.records.insert(record.record_id, record), ..s };
    let s2 = logged(s1, caller, action, Some(record.record_id), None, meta_cid, now);
    if s2.users.dom().contains(caller) {
        let u = s2.users[caller];
        State {
            users: s2.users.insert(
                caller,
                crate::profile::UserView {
                    records: u.records.push(record.record_id),
                    audit_pointer: u.audit_pointer.push(now),
                    ..u
                },
            ),
            ..s2
        }
    } else {
        s2
    }
}

/// The registry after an uploaded record has been stored for `caller` under
/// the identifier `record_id`.
pub open spec fn file_stored(
    s: State,
    caller: Seq<u8>,
    record_id: Seq<char>,
    file_cid: Seq<char>,
    file_type: Seq<char>,
    file_name: Seq<char>,
    parent_folder_id: Option<Seq<char>>,
    file_size: u64,
    now: u64,
) -> State {
    stored(
        s,
        caller,
        file_record(
            record_id,
            caller,
            file_cid,
            file_type,
            file_name,
            parent_folder_id,
            file_size,
            now,
        ),
        "upload"@,
        Some(file_cid),
        now,
    )
}

/// The registry after a folder has been stored for `caller` under the
/// identifier `record_id`.
pub open spec fn folder_stored(
    s: State,
    caller: Seq<u8>,
    record_id: Seq<char>,
    folder_name: Seq<char>,
    parent_folder_id: Option<Seq<char>>,
    now: u64,
) -> State {
    stored(
        s,
        caller,
        folder_record(record_id, caller, folder_name, parent_folder_id, now),
        "create_folder"@,
        None,
        now,
    )
}

/// What `upload_record` does to the registry.
pub open spec fn upload_record_spec(
    s: State,
    caller: Seq<u8>,
    file_cid: Seq<char>,
    file_type: Seq<char>,
    file_name: Seq<char>,
    parent_folder_id: Option<Seq<char>>,
    file_size: u64,
    now: u64,
) -> State {
    file_stored(
        enrolled(s, caller, now),
        caller,
        upload_id(file_cid, now),
        file_cid,
        file_type,
        file_name,
        parent_folder_id,
        file_size,
        now,
    )
}

/// What `create_folder` does to the registry.
pub open spec fn create_folder_spec(
    s: State,
    caller: Seq<u8>,
    folder_name: Seq<char>,
    parent_folder_id: Option<Seq<char>>,
    now: u64,
) -> State {
    folder_stored(
        enrolled(s, caller, now),
        caller,
        folder_id(caller, now),
        folder_name,
        parent_folder_id,
        now,
    )
}

/// The identifiers of the records that the profile of `who` lists.
pub open spec fn owned_ids(s: State, who: Seq<u8>) -> Seq<Seq<char>> {
    if s.users.dom().contains(who) {
        s.users[who].records
    } else {
        Seq::empty()
    }
}

/// A shared record with what the directory knows of its owner: the display
/// name, and whether the owner's identity is approved. An owner without a
/// profile has no name and is not verified.
pub open spec fn info_of(s: State, record: MedicalRecordView) -> SharedRecordInfoView {
    SharedRecordInfoView {
        record,
        owner_name: if s.users.dom().contains(record.owner) {
            s.users[record.owner].name
        } else {
            None
        },
        owner_is_verified: s.users.dom().contains(record.owner) && s.users[record.owner].identity_status
            == IdentityStatus::Approved,
    }
}

/// The records shared with `who`, each with what is known of its owner, in the
/// order of the sharing index.
pub open spec fn shared_infos(s: State, who: Seq<u8>) -> Seq<SharedRecordInfoView> {
    let records = resolved(shared_ids(s, who), s.records);
    Seq::new(records.len(), |i: int| info_of(s, records[i]))
}

/// The text from which an identifier is derived: `head`, a dash, and `now` in
/// decimal.
pub fn seed(head: &str, now: u64) -> (s: String)
    ensures
        s@ == seed_text(head@, now),
{
    let dashed = join(head, "-");
    let number = decimal_text(now);
    join(dashed.as_str(), number.as_str())
}

impl Registry {
    /// Stores `record` for `caller` and returns its identifier.
    fn store_record(
        &mut self,
        caller: &Identity,
        record: MedicalRecord,
        action: String,
        meta_cid: Option<String>,
        now: u64,
    ) -> (id: String)
        requires
            old(self).wf(),
        ensures
            final(self).wf(),
            final(self)@ == stored(old(self)@, caller@, record@, action@, opt_view(meta_cid), now),
            id@ == record@.record_id,
    {
        let id = record.record_id.clone();
        self.put_record(record.record_id.clone(), record);
        let entry = self.log_action(caller, Some(id.clone()), action, None, meta_cid, now);
        let found = match self.user(caller) {
            Some(user) => Some(user.duplicate()),
            None => None,
        };
        match found {
            Some(mut user) => {
                let ghost before = views(user.records@);
                user.records.push(id.clone());
                assert(views(user.records@) =~= before.push(id@));
                user.audit_pointer.push(entry);
                self.put_user(caller, user);
            },
            None => {},
        }
        id
    }

    /// Stores an uploaded record for `caller` under the identifier `record_id`,
    /// in place of any record that was there, and returns the identifier.
    pub fn store_file(
        &mut self,
        caller: &Identity,
        record_id: String,
        file_cid: String,
        file_type: String,
        file_name: String,
        parent_folder_id: Option<String>,
        file_size: u64,
        now: u64,
    ) -> (id: String)
        requires
            old(self).wf(),
        ensures
            final(self).wf(),
            final(self)@ == file_stored(
                old(self)@,
                caller@,
                record_id@,
                file_cid@,
                file_type@,
                file_name@,
                opt_view(parent_folder_id),
                file_size,
                now,
            ),
            id@ == record_id@,
    {
        let mut access_list = AccessList::new();
        access_list.insert(caller.duplicate(), AccessPermission::full());
        let meta = file_cid.clone();
        let record = MedicalRecord {
            record_id,
            owner: caller.duplicate(),
            file_cid,
            file_name: Some(file_name),
            file_type,
            file_size: Some(file_size),
            aes_key_enc_for_owner: Vec::new(),
            per_principal_keys: Vec::new(),
            timestamp: now,
            parent_folder_id,
            tags: Vec::new(),
            references: Vec::new(),
            derived_artifacts: Vec::new(),
            metadata_completeness_score: 0,
            uses_standard_codes: false,
            plausibility_flags: Vec::new(),
            access_list,
            latest_version_id: None,
            is_anonymized: false,
        };
        proof {
            let v = record@;
            let w = file_record(
                record_id@,
                caller@,
                file_cid@,
                file_type@,
                file_name@,
                opt_view(parent_folder_id),
                file_size,
                now,
            );
            assert(v.aes_key_enc_for_owner =~= w.aes_key_enc_for_owner);
            assert(v.per_principal_keys =~= w.per_principal_keys);
            assert(v.tags =~= w.tags);
            assert(v.references =~= w.references);
            assert(v.derived_artifacts =~= w.derived_artifacts);
            assert(v.plausibility_flags =~= w.plausibility_flags);
            assert(v == w);
        }
        self.store_record(caller, record, "upload".to_string(), Some(meta), now)
    }

    /// Stores a folder for `caller` under the identifier `record_id`, in place
    /// of any record that was there, and returns the identifier.
    pub fn store_folder(
        &mut self,
        caller: &Identity,
        record_id: String,
        folder_name: String,
        parent_folder_id: Option<String>,
        now: u64,
    ) -> (id: String)
        requires
            old(self).wf(),
        ensures
            final(self).wf(),
            final(self)@ == folder_stored(
                old(self)@,
                caller@,
                record_id@,
                folder_name@,
                opt_view(parent_folder_id),
                now,
            ),
            id@ == record_id@,
    {
        let record = MedicalRecord {
            record_id,
            owner: caller.duplicate(),
            file_cid: String::new(),
            file_name: Some(folder_name),
            file_type: "folder".to_string(),
            file_size: None,
            aes_key_enc_for_owner: Vec::new(),
            per_principal_keys: Vec::new(),
            timestamp: now,
            parent_folder_id,
            tags: Vec::new(),
            references: Vec::new(),
            derived_artifacts: Vec::new(),
            metadata_completeness_score: 0,
            uses_standard_codes: false,
            plausibility_flags: Vec::new(),
            access_list: AccessList::new(),
            latest_version_id: None,
            is_anonymized: false,
        };
        proof {
            let v = record@;
            let w = folder_record(record_id@, caller@, folder_name@, opt_view(parent_folder_id), now);
            assert(v.aes_key_enc_for_owner =~= w.aes_key_enc_for_owner);
            assert(v.per_principal_keys =~= w.per_principal_keys);
            assert(v.tags =~= w.tags);
            assert(v.references =~= w.references);
            assert(v.derived_artifacts =~= w.derived_artifacts);
            assert(v.plausibility_flags =~= w.plausibility_flags);
            assert(v == w);
        }
        self.store_record(caller, record, "create_folder".to_string(), None, now)
    }

    /// Stores a new record with the content reference `file_cid` for `caller`
    /// and returns its identifier, which is derived from the content
    /// reference and the time.
    pub fn upload_record(
        &mut self,
        caller: &Identity,
        file_cid: String,
        file_type: String,
        file_name: String,
        parent_folder_id: Option<String>,
        file_size: u64,
        now: u64,
    ) -> (r: Result<String, EngineError>)
        requires
            old(self).wf(),
        ensures
            final(self).wf(),
            final(self)@ == upload_record_spec(
                old(self)@,
                caller@,
                file_cid@,
                file_type@,
                file_name@,
                opt_view(parent_folder_id),
                file_size,
                now,
            ),
            r matches Ok(id) && id@ == upload_id(file_cid@, now),
    {
        let _ = self.get_or_create_user_profile(caller, now);
        let text = seed(file_cid.as_str(), now);
        let record_id = hash_of_text(text.as_str());
        Ok(
            self.store_file(
                caller,
                record_id,
                file_cid,
                file_type,
                file_name,
                parent_folder_id,
                file_size,
                now,
            ),
        )
    }

    /// Stores a new folder for `caller` and returns its identifier, which is
    /// derived from the caller and the time.
    pub fn create_folder(
        &mut self,
        caller: &Identity,
        folder_name: String,
        parent_folder_id: Option<String>,
        now: u64,
    ) -> (r: Result<String, EngineError>)
        requires
            old(self).wf(),
        ensures
            final(self).wf(),
            final(self)@ == create_folder_spec(
                old(self)@,
                caller@,
                folder_name@,
                opt_view(parent_folder_id),
                now,
            ),
            r matches Ok(id) && id@ == folder_id(caller@, now),
    {
        let _ = self.get_or_create_user_profile(caller, now);
        let text = seed(caller.to_text().as_str(), now);
        let record_id = hash_of_text(text.as_str());
        Ok(self.store_folder(caller, record_id, folder_name, parent_folder_id, now))
    }

    /// The records that the profile of `caller` lists, in the order of the
    /// list. An identifier under which no record is stored is passed over.
    pub fn get_my_records(&self, caller: &Identity) -> (r: Result<Vec<MedicalRecord>, EngineError>)
        requires
            self.wf(),
        ensures
            r matches Ok(found) && views(found@) == resolved(owned_ids(self@, caller@), self@.records),
    {
        let mut out: Vec<MedicalRecord> = Vec::new();
        match self.user(caller) {
            Some(user) => {
                let ids = &user.records;
                let mut i: usize = 0;
                assert(views(ids@).take(0) =~= Seq::empty());
                assert(views(out@) =~= Seq::empty());
                while i < ids.len()
                    invariant
                        self.wf(),
                        i <= ids.len(),
                        views(out@) == resolved(views(ids@).take(i as int), self@.records),
                    decreases ids.len() - i,
                {
                    let ghost before = views(out@);
                    proof {
                        let next = views(ids@).take(i + 1);
                        assert(next.drop_last() =~= views(ids@).take(i as int));
                        assert(next.last() == ids@[i as int]@);
                    }
                    match self.record(&ids[i]) {
                        Some(record) => {
                            out.push(record.duplicate());
                            assert(views(out@) =~= before.push(self@.records[ids@[i as int]@]));
                        },
                        None => {},
                    }
                    i = i + 1;
                }
                assert(views(ids@).take(i as int) =~= views(ids@));
            },
            None => {
                assert(views(out@) =~= Seq::empty());
            },
        }
        Ok(out)
    }

    /// The records shared with `caller`, in the order of their sharing index,
    /// each with the display name of its owner and whether the owner's identity
    /// is approved.
    pub fn shared_with_me(&self, caller: &Identity) -> (r: Result<Vec<SharedRecordInfo>, EngineError>)
        requires
            self.wf(),
        ensures
            r matches Ok(found) && views(found@) == shared_infos(self@, caller@),
    {
        let mut out: Vec<SharedRecordInfo> = Vec::new();
        match self.shared_list(caller) {
            Some(list) => {
                let ids = &list.record_ids;
                let mut i: usize = 0;
                assert(views(ids@).take(0) =~= Seq::empty());
                assert(views(out@) =~= Seq::empty());
                while i < ids.len()
                    invariant
                        self.wf(),
                        i <= ids.len(),
                        out@.len() == resolved(views(ids@).take(i as int), self@.records).len(),
                        forall|j: int|
                            0 <= j < out@.len() ==> (#[trigger] out@[j])@ == info_of(
                                self@,
                                resolved(views(ids@).take(i as int), self@.records)[j],
                            ),
                    decreases ids.len() - i,
                {
                    proof {
                        let next = views(ids@).take(i + 1);
                        assert(next.drop_last() =~= views(ids@).take(i as int));
                        assert(next.last() == ids@[i as int]@);
                    }
                    match self.record(&ids[i]) {
                        Some(record) => {
                            let owner = self.user(&record.owner);
                            let info = match owner {
                                Some(user) => SharedRecordInfo {
                                    record: record.duplicate(),
                                    owner_name: crate::common::copy_opt(&user.name),
                                    owner_is_verified: user.identity_status == IdentityStatus::Approved,
                                },
                                None => SharedRecordInfo {
                                    record: record.duplicate(),
                                    owner_name: None,
                                    owner_is_verified: false,
                                },
                            };
                            out.push(info);
                        },
                        None => {},
                    }
                    i = i + 1;
                }
                assert(views(ids@).take(i as int) =~= views(ids@));
                assert(views(out@) =~= shared_infos(self@, caller@));
            },
            None => {
                assert(views(out@) =~= shared_infos(self@, caller@));
            },
        }
        Ok(out)
    }
}

} // verus!
