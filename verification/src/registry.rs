use vstd::prelude::*;
use crate::audit::AuditLogEntry;
use crate::common::{copy_plain, views};
use crate::identity::Identity;
use crate::index::{bytes_key_order, key_order, BytesIndex, SeqIndex, Table, TextIndex};
use crate::profile::User;
use crate::record::{MedicalRecord, SharedRecordIdList};
use crate::request::AccessRequest;
use crate::state::{empty_state, resolved, State};

verus! {

/// The state of the engine: profiles, display names, records, the sharing
/// index, requests and the audit trail.
pub struct Registry {
    users: Table<BytesIndex, User>,
    names: Table<TextIndex, Identity>,
    records: Table<TextIndex, MedicalRecord>,
    shared: Table<BytesIndex, SharedRecordIdList>,
    requests: Table<TextIndex, AccessRequest>,
    audit: Table<SeqIndex, AuditLogEntry>,
}

impl View for Registry {
    type V = State;

    closed spec fn view(&self) -> State {
        State {
            users: self.users@,
            names: self.names@,
            records: self.records@,
            shared: self.shared@,
            requests: self.requests@,
            audit: self.audit@,
        }
    }
}

impl Registry {
    /// Each table files its keys under rows of its own.
    pub closed spec fn wf(&self) -> bool {
        &&& self.users.wf()
        &&& self.names.wf()
        &&& self.records.wf()
        &&& self.shared.wf()
        &&& self.requests.wf()
        &&& self.audit.wf()
    }

    /// A registry in which nothing has happened yet.
    pub fn new() -> (r: Registry)
        ensures
            r.wf(),
            r@ == empty_state(),
    {
        Registry {
            users: Table::new(),
            names: Table::new(),
            records: Table::new(),
            shared: Table::new(),
            requests: Table::new(),
            audit: Table::new(),
        }
    }

    /// The profile of `who`, if they have one.
    pub fn user(&self, who: &Identity) -> (r: Option<&User>)
        requires
            self.wf(),
        ensures
            r is Some <==> self@.users.dom().contains(who@),
            r matches Some(u) ==> u@ == self@.users[who@],
    {
        self.users.get(who.as_bytes())
    }

    /// The profiles in ascending order of the bytes of their identities.
    pub fn users_in_order(&self) -> (r: Vec<&User>)
        requires
            self.wf(),
        ensures
            exists|keys: Seq<Seq<u8>>| #[trigger]
                bytes_key_order(keys, self@.users.dom()) && views(r@) == resolved(
                    keys,
                    self@.users,
                ),
    {
        let keys = self.users.keys();
        let mut out: Vec<&User> = Vec::new();
        let mut i: usize = 0;
        assert(views(keys@).take(0) =~= Seq::empty());
        assert(views(out@) =~= Seq::empty());
        while i < keys.len()
            invariant
                self.wf(),
                i <= keys.len(),
                views(out@) == resolved(views(keys@).take(i as int), self@.users),
            decreases keys.len() - i,
        {
            let ghost before = views(out@);
            proof {
                let next = views(keys@).take(i + 1);
                assert(next.drop_last() =~= views(keys@).take(i as int));
                assert(next.last() == keys@[i as int]@);
            }
            match self.users.get(&keys[i]) {
                Some(user) => {
                    out.push(user);
                    assert(views(out@) =~= before.push(self@.users[keys@[i as int]@]));
                },
                None => {},
            }
            i = i + 1;
        }
        assert(views(keys@).take(i as int) =~= views(keys@));
        out
    }

    /// Files `user` as the profile of `who`.
    pub(crate) fn put_user(&mut self, who: &Identity, user: User)
        requires
            old(self).wf(),
        ensures
            final(self).wf(),
            final(self)@ == (State { users: old(self)@.users.insert(who@, user@), ..old(self)@ }),
    {
        self.users.put(copy_plain(who.as_bytes()), user);
    }

    /// The participant who holds the display name `name`, if anyone does.
    pub fn name_holder(&self, name: &String) -> (r: Option<&Identity>)
        requires
            self.wf(),
        ensures
            r is Some <==> self@.names.dom().contains(name@),
            r matches Some(id) ==> id@ == self@.names[name@],
    {
        self.names.get(name)
    }

    /// Gives the display name `name` to `holder`.
    pub(crate) fn put_name(&mut self, name: String, holder: Identity)
        requires
            old(self).wf(),
        ensures
            final(self).wf(),
            final(self)@ == (State { names: old(self)@.names.insert(name@, holder@), ..old(self)@ }),
    {
        self.names.put(name, holder);
    }

    /// Sets the display name `name` free.
    pub(crate) fn drop_name(&mut self, name: &String)
        requires
            old(self).wf(),
        ensures
            final(self).wf(),
            final(self)@ == (State { names: old(self)@.names.remove(name@), ..old(self)@ }),
    {
        self.names.remove(name);
    }

    /// The record with the identifier `id`, if there is one.
    pub fn record(&self, id: &String) -> (r: Option<&MedicalRecord>)
        requires
            self.wf(),
        ensures
            r is Some <==> self@.records.dom().contains(id@),
            r matches Some(rec) ==> rec@ == self@.records[id@],
    {
        self.records.get(id)
    }

    /// Files `record` under the identifier `id`.
    pub(crate) fn put_record(&mut self, id: String, record: MedicalRecord)
        requires
            old(self).wf(),
        ensures
            final(self).wf(),
            final(self)@ == (State { records: old(self)@.records.insert(id@, record@), ..old(self)@ }),
    {
        self.records.put(id, record);
    }

    /// The sharing index entry of `who`, if they have one.
    pub fn shared_list(&self, who: &Identity) -> (r: Option<&SharedRecordIdList>)
        requires
            self.wf(),
        ensures
            r is Some <==> self@.shared.dom().contains(who@),
            r matches Some(list) ==> list@ == self@.shared[who@],
    {
        self.shared.get(who.as_bytes())
    }

    /// Files `list` as the sharing index entry of `who`.
    pub(crate) fn put_shared_list(&mut self, who: &Identity, list: SharedRecordIdList)
        requires
            old(self).wf(),
        ensures
            final(self).wf(),
            final(self)@ == (State { shared: old(self)@.shared.insert(who@, list@), ..old(self)@ }),
    {
        self.shared.put(copy_plain(who.as_bytes()), list);
    }

    /// The request with the identifier `id`, if there is one.
    pub fn request(&self, id: &String) -> (r: Option<&AccessRequest>)
        requires
            self.wf(),
        ensures
            r is Some <==> self@.requests.dom().contains(id@),
            r matches Some(req) ==> req@ == self@.requests[id@],
    {
        self.requests.get(id)
    }

    /// The identifiers of all requests in ascending order.
    pub fn request_ids(&self) -> (ids: Vec<String>)
        ensures
            key_order(views(ids@), self@.requests.dom()),
    {
        self.requests.keys()
    }

    /// Files `request` under the identifier `id`.
    pub(crate) fn put_request(&mut self, id: String, request: AccessRequest)
        requires
            old(self).wf(),
        ensures
            final(self).wf(),
            final(self)@ == (State {
                requests: old(self)@.requests.insert(id@, request@),
                ..old(self)@
            }),
    {
        self.requests.put(id, request);
    }

    /// The trail entry with the identifier `id`, if there is one.
    pub fn audit_entry(&self, id: u64) -> (r: Option<&AuditLogEntry>)
        requires
            self.wf(),
        ensures
            r is Some <==> self@.audit.dom().contains(id),
            r matches Some(e) ==> e@ == self@.audit[id],
    {
        self.audit.get(&id)
    }

    /// Files `entry` in the trail under the identifier `id`.
    pub(crate) fn put_audit_entry(&mut self, id: u64, entry: AuditLogEntry)
        requires
            old(self).wf(),
        ensures
            final(self).wf(),
            final(self)@ == (State { audit: old(self)@.audit.insert(id, entry@), ..old(self)@ }),
    {
        self.audit.put(id, entry);
    }
}

} // verus!
