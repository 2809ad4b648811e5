use vstd::prelude::*;
use crate::common::{copy_opt, opt_view, Copyable};

verus! {

/// Where a request for access stands. `Approved` and `Denied` are final.
#[derive(Clone, Copy, PartialEq, Eq, Debug, Structural)]
pub enum RequestStatus {
    Pending,
    Approved,
    Denied,
}

/// A request of a participant for access to a record of another. The names and
/// the owner are those at the time of the request.
pub struct AccessRequest {
    pub request_id: String,
    pub record_id: String,
    pub record_name: Option<String>,
    pub requester_principal: String,
    pub requester_name: Option<String>,
    pub owner_principal: String,
    pub status: RequestStatus,
    pub message: String,
    pub requested_at: u64,
    pub resolved_at: Option<u64>,
}

/// The mathematical value of a `AccessRequest`.
pub struct AccessRequestView {
    pub request_id: Seq<char>,
    pub record_id: Seq<char>,
    pub record_name: Option<Seq<char>>,
    pub requester_principal: Seq<char>,
    pub requester_name: Option<Seq<char>>,
    pub owner_principal: Seq<char>,
    pub status: RequestStatus,
    pub message: Seq<char>,
    pub requested_at: u64,
    pub resolved_at: Option<u64>,
}

impl View for AccessRequest {
    type V = AccessRequestView;

    open spec fn view(&self) -> AccessRequestView {
        AccessRequestView {
            request_id: self.request_id@,
            record_id: self.record_id@,
            record_name: opt_view(self.record_name),
            requester_principal: self.requester_principal@,
            requester_name: opt_view(self.requester_name),
            owner_principal: self.owner_principal@,
            status: self.status,
            message: self.message@,
            requested_at: self.requested_at,
            resolved_at: self.resolved_at,
        }
    }
}

impl Copyable for AccessRequest {
    fn duplicate(&self) -> (r: Self) {
        AccessRequest {
            request_id: self.request_id.clone(),
            record_id: self.record_id.clone(),
            record_name: copy_opt(&self.record_name),
            requester_principal: self.requester_principal.clone(),
            requester_name: copy_opt(&self.requester_name),
            owner_principal: self.owner_principal.clone(),
            status: self.status,
            message: self.message.clone(),
            requested_at: self.requested_at,
            resolved_at: self.resolved_at,
        }
    }
}

} // verus!
