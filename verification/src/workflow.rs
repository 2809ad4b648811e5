use vstd::prelude::*;
use vstd::string::*;
use vstd::utf8::encode_utf8;
use crate::access::AccessPermission;
use crate::common::{copy_opt, views, Copyable};
use crate::digest::{hash_of_text, hash_text};
use crate::error::EngineError;
use crate::identity::{principal_parse, principal_text, Identity};
use crate::index::key_order;
use crate::records::{seed, seed_text};
use crate::registry::Registry;
use crate::request::{AccessRequest, AccessRequestView, RequestStatus};
use crate::sharing::grant_access_spec;
use crate::state::{enrolled, logged, noted, resolved, State};
use crate::text::{join, joined};
use crate::directory::says;

verus! {

/// The identifier of a request that `requester` makes for the record
/// `record_id` at time `now`.
pub open spec fn request_id_of(record_id: Seq<char>, requester: Seq<u8>, now: u64) -> Seq<char> {
    hash_text(
        encode_utf8(seed_text(joined(joined(record_id, "-"@), principal_text(requester)), now)),
    )
}

/// The registry after `request` has been filed for `caller`: the request is
/// stored under its identifier, the trail has an entry that names the owner,
/// and the profile of `caller` points to the entry.
pub open spec fn filed(s: State, caller: Seq<u8>, request: AccessRequestView, now: u64) -> State {
    let s1 = State { requests: s.requests.insert(request.request_id, request), ..s };
    let s2 = logged(
        s1,
        caller,
        "request_access"@,
        Some(request.record_id),
        Some(request.owner_principal),
        None,
        now,
    );
    noted(s2, caller, now)
}

/// What `request_access_to_record` does to the registry and what it answers.
pub open spec fn request_access_to_record_spec(
    s: State,
    caller: Seq<u8>,
    record_id: Seq<char>,
    message: Seq<char>,
    now: u64,
) -> (State, Result<Seq<char>, EngineError>) {
    let s1 = enrolled(s, caller, now);
    if !s1.records.dom().contains(record_id) {
        (s1, Err(EngineError::RecordNotFound))
    } else {
        let record = s1.records[record_id];
        let request = AccessRequestView {
            request_id: request_id_of(record_id, caller, now),
            record_id,
            record_name: record.file_name,
            requester_principal: principal_text(caller),
            requester_name: s1.users[caller].name,
            owner_principal: principal_text(record.owner),
            status: RequestStatus::Pending,
            message,
            requested_at: now,
            resolved_at: None,
        };
        (filed(s1, caller, request, now), Ok(request.request_id))
    }
}

/// The request `request_id` names `requester` as its requester and the owner
/// of its record as the owner, in texts that denote them.
pub open spec fn names_both_parties(s: State, request_id: Seq<char>, requester: Seq<u8>) -> bool {
    &&& s.requests.dom().contains(request_id)
    &&& s.records.dom().contains(s.requests[request_id].record_id)
    &&& principal_parse(s.requests[request_id].requester_principal) == Some(requester)
    &&& principal_parse(s.requests[request_id].owner_principal) == Some(
        s.records[s.requests[request_id].record_id].owner,
    )
    &&& s.requests[request_id].owner_principal == principal_text(
        s.records[s.requests[request_id].record_id].owner,
    )
}

/// The registry after the request `request_id` has been settled at time `now`.
pub open spec fn settled(s: State, request_id: Seq<char>, status: RequestStatus, now: u64) -> State
    recommends
        s.requests.dom().contains(request_id),
{
    let request = s.requests[request_id];
    State {
        requests: s.requests.insert(
            request_id,
            AccessRequestView { status, resolved_at: Some(now), ..request },
        ),
        ..s
    }
}

/// What `approve_access_request` does to the registry and what it answers:
/// the owner named in the request, and nobody else, may approve it; the
/// requester then gets view-only access through `grant_access`, whose refusal
/// is passed on; and the request is marked as approved.
pub open spec fn approve_access_request_spec(
    s: State,
    caller: Seq<u8>,
    request_id: Seq<char>,
    now: u64,
) -> (State, Result<(), EngineError>) {
    if !s.requests.dom().contains(request_id) {
        (s, Err(EngineError::RequestNotFound))
    } else if s.requests[request_id].owner_principal != principal_text(caller) {
        (s, Err(EngineError::Unauthorized))
    } else {
        match principal_parse(s.requests[request_id].requester_principal) {
            None => (s, Err(EngineError::InvalidPrincipal)),
            Some(requester) => {
                let g = grant_access_spec(
                    s,
                    caller,
                    s.requests[request_id].record_id,
                    requester,
                    AccessPermission::view_only_spec(),
                    now,
                );
                match g.1 {
                    Err(e) => (g.0, Err(e)),
                    Ok(_) => (settled(g.0, request_id, RequestStatus::Approved, now), Ok(())),
                }
            },
        }
    }
}

/// What `deny_access_request` does to the registry and what it answers.
pub open spec fn deny_access_request_spec(
    s: State,
    caller: Seq<u8>,
    request_id: Seq<char>,
    now: u64,
) -> (State, Result<(), EngineError>) {
    if !s.requests.dom().contains(request_id) {
        (s, Err(EngineError::RequestNotFound))
    } else if s.requests[request_id].owner_principal != principal_text(caller) {
        (s, Err(EngineError::Unauthorized))
    } else {
        (settled(s, request_id, RequestStatus::Denied, now), Ok(()))
    }
}

/// Whether a request is pending and names `who` as the owner of its record,
/// or, where `as_owner` is false, as its requester.
pub open spec fn is_open_for(request: AccessRequestView, who: Seq<char>, as_owner: bool) -> bool {
    &&& request.status == RequestStatus::Pending
    &&& if as_owner {
        request.owner_principal == who
    } else {
        request.requester_principal == who
    }
}

/// The requests of `requests` that are open for `who`, in order.
pub open spec fn open_requests(requests: Seq<AccessRequestView>, who: Seq<char>, as_owner: bool) -> Seq<
    AccessRequestView,
>
    decreases requests.len(),
{
    if requests.len() == 0 {
        Seq::empty()
    } else if is_open_for(requests.last(), who, as_owner) {
        open_requests(requests.drop_last(), who, as_owner).push(requests.last())
    } else {
        open_requests(requests.drop_last(), who, as_owner)
    }
}

/// `found` holds the requests that are open for `who`, in ascending order of
/// their identifiers.
pub open spec fn lists_open_requests(
    found: Seq<AccessRequestView>,
    s: State,
    who: Seq<char>,
    as_owner: bool,
) -> bool {
    exists|ids: Seq<Seq<char>>| #[trigger]
        key_order(ids, s.requests.dom()) && found == open_requests(
            resolved(ids, s.requests),
            who,
            as_owner,
        )
}

impl Registry {
    /// Files `request` for `caller`.
    pub fn file_request(&mut self, caller: &Identity, request: AccessRequest, now: u64)
        requires
            old(self).wf(),
        ensures
            final(self).wf(),
            final(self)@ == filed(old(self)@, caller@, request@, now),
    {
        let record_id = request.record_id.clone();
        let owner = request.owner_principal.clone();
        self.put_request(request.request_id.clone(), request);
        let entry = self.log_action(
            caller,
            Some(record_id),
            "request_access".to_string(),
            Some(owner),
            None,
            now,
        );
        self.note(caller, entry);
    }

    /// Asks the owner of the record `record_id` for access, with a message,
    /// and returns the identifier of the request.
    pub fn request_access_to_record(
        &mut self,
        caller: &Identity,
        record_id: String,
        message: String,
        now: u64,
    ) -> (r: Result<String, EngineError>)
        requires
            old(self).wf(),
        ensures
            final(self).wf(),
            final(self)@ == request_access_to_record_spec(
                old(self)@,
                caller@,
                record_id@,
                message@,
                now,
            ).0,
            says(r, request_access_to_record_spec(old(self)@, caller@, record_id@, message@, now).1),
            r matches Ok(id) ==> names_both_parties(final(self)@, id@, caller@),
    {
        let profile = self.get_or_create_user_profile(caller, now);
        let found = match self.record(&record_id) {
            Some(record) => Some((copy_opt(&record.file_name), record.owner.to_text())),
            None => None,
        };
        match found {
            None => Err(EngineError::RecordNotFound),
            Some((record_name, owner_principal)) => {
                let requester_principal = caller.to_text();
                let dashed = join(record_id.as_str(), "-");
                let head = join(dashed.as_str(), requester_principal.as_str());
                let text = seed(head.as_str(), now);
                let request_id = hash_of_text(text.as_str());
                let answer = request_id.clone();
                let request = AccessRequest {
                    request_id,
                    record_id,
                    record_name,
                    requester_principal,
                    requester_name: profile.name,
                    owner_principal,
                    status: RequestStatus::Pending,
                    message,
                    requested_at: now,
                    resolved_at: None,
                };
                self.file_request(caller, request, now);
                Ok(answer)
            },
        }
    }

    /// Marks the request `request_id` as settled at time `now`.
    fn settle(&mut self, request_id: String, status: RequestStatus, now: u64)
        requires
            old(self).wf(),
            old(self)@.requests.dom().contains(request_id@),
        ensures
            final(self).wf(),
            final(self)@ == settled(old(self)@, request_id@, status, now),
    {
        let found = match self.request(&request_id) {
            Some(request) => Some(request.duplicate()),
            None => None,
        };
        match found {
            Some(mut request) => {
                request.status = status;
                request.resolved_at = Some(now);
                self.put_request(request_id, request);
            },
            None => {},
        }
    }

    /// Approves the request `request_id`: the requester gets view-only access
    /// to the record. Only the owner named in the request may approve it. A
    /// request that is settled already may be settled again: the grant is made
    /// once more and the time of settlement is set anew.
    pub fn approve_access_request(&mut self, caller: &Identity, request_id: String, now: u64) -> (r:
        Result<(), EngineError>)
        requires
            old(self).wf(),
        ensures
            final(self).wf(),
            final(self)@ == approve_access_request_spec(old(self)@, caller@, request_id@, now).0,
            r == approve_access_request_spec(old(self)@, caller@, request_id@, now).1,
    {
        let found = match self.request(&request_id) {
            Some(request) => Some(request.duplicate()),
            None => None,
        };
        match found {
            None => Err(EngineError::RequestNotFound),
            Some(request) => {
                if request.owner_principal != caller.to_text() {
                    return Err(EngineError::Unauthorized);
                }
                match Identity::from_text(request.requester_principal.as_str()) {
                    Err(e) => Err(e),
                    Ok(requester) => {
                        match self.grant_access(
                            caller,
                            request.record_id,
                            &requester,
                            AccessPermission::view_only(),
                            now,
                        ) {
                            Err(e) => Err(e),
                            Ok(_) => {
                                self.settle(request_id, RequestStatus::Approved, now);
                                Ok(())
                            },
                        }
                    },
                }
            },
        }
    }

    /// Denies the request `request_id`. Only the owner named in the request
    /// may deny it. No access list changes, also where the request had been
    /// approved before: a denial settles the request anew and revokes nothing.
    pub fn deny_access_request(&mut self, caller: &Identity, request_id: String, now: u64) -> (r: Result<
        (),
        EngineError,
    >)
        requires
            old(self).wf(),
        ensures
            final(self).wf(),
            final(self)@ == deny_access_request_spec(old(self)@, caller@, request_id@, now).0,
            r == deny_access_request_spec(old(self)@, caller@, request_id@, now).1,
    {
        let allowed = match self.request(&request_id) {
            Some(request) => Some(request.owner_principal == caller.to_text()),
            None => None,
        };
        match allowed {
            None => Err(EngineError::RequestNotFound),
            Some(false) => Err(EngineError::Unauthorized),
            Some(true) => {
                self.settle(request_id, RequestStatus::Denied, now);
                Ok(())
            },
        }
    }

    /// The pending requests that name `who`, in ascending order of their
    /// identifiers.
    fn open_requests_for(&self, who: &String, as_owner: bool) -> (found: Vec<AccessRequest>)
        requires
            self.wf(),
        ensures
            lists_open_requests(views(found@), self@, who@, as_owner),
    {
        let ids = self.request_ids();
        let mut out: Vec<AccessRequest> = Vec::new();
        let mut i: usize = 0;
        assert(views(ids@).take(0) =~= Seq::empty());
        assert(views(out@) =~= Seq::empty());
        while i < ids.len()
            invariant
                self.wf(),
                i <= ids.len(),
                views(out@) == open_requests(
                    resolved(views(ids@).take(i as int), self@.requests),
                    who@,
                    as_owner,
                ),
            decreases ids.len() - i,
        {
            let ghost before = views(out@);
            proof {
                let next = views(ids@).take(i + 1);
                assert(next.drop_last() =~= views(ids@).take(i as int));
                assert(next.last() == ids@[i as int]@);
                let all = resolved(next, self@.requests);
                if self@.requests.dom().contains(ids@[i as int]@) {
                    assert(all.drop_last() =~= resolved(next.drop_last(), self@.requests));
                }
            }
            match self.request(&ids[i]) {
                Some(request) => {
                    let named = if as_owner {
                        request.owner_principal == *who
                    } else {
                        request.requester_principal == *who
                    };
                    if named && request.status == RequestStatus::Pending {
                        out.push(request.duplicate());
                        assert(views(out@) =~= before.push(self@.requests[ids@[i as int]@]));
                    }
                },
                None => {},
            }
            i = i + 1;
        }
        assert(views(ids@).take(i as int) =~= views(ids@));
        out
    }

    /// The pending requests for records of `caller`, in ascending order of
    /// their identifiers.
    pub fn get_pending_requests(&self, caller: &Identity) -> (r: Result<Vec<AccessRequest>, EngineError>)
        requires
            self.wf(),
        ensures
            r matches Ok(found) && lists_open_requests(
                views(found@),
                self@,
                principal_text(caller@),
                true,
            ),
    {
        Ok(self.open_requests_for(&caller.to_text(), true))
    }

    /// The pending requests that `caller` has made, in ascending order of their
    /// identifiers.
    pub fn get_my_sent_requests(&self, caller: &Identity) -> (r: Result<Vec<AccessRequest>, EngineError>)
        requires
            self.wf(),
        ensures
            r matches Ok(found) && lists_open_requests(
                views(found@),
                self@,
                principal_text(caller@),
                false,
            ),
    {
        Ok(self.open_requests_for(&caller.to_text(), false))
    }
}

} // verus!
