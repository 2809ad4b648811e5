use vstd::prelude::*;
use crate::common::{copy_opt, opt_view, Copyable};

verus! {

/// One privileged action, as the trail records it. The identifier is the time at
/// which the entry was made.
pub struct AuditLogEntry {
    pub id: u64,
    pub actor: String,
    pub action: String,
    pub record_id: Option<String>,
    pub target: Option<String>,
    pub meta_cid: Option<String>,
    pub timestamp: u64,
}

/// The mathematical value of a `AuditLogEntry`.
pub struct AuditLogEntryView {
    pub id: u64,
    pub actor: Seq<char>,
    pub action: Seq<char>,
    pub record_id: Option<Seq<char>>,
    pub target: Option<Seq<char>>,
    pub meta_cid: Option<Seq<char>>,
    pub timestamp: u64,
}

impl View for AuditLogEntry {
    type V = AuditLogEntryView;

    open spec fn view(&self) -> AuditLogEntryView {
        AuditLogEntryView {
            id: self.id,
            actor: self.actor@,
            action: self.action@,
            record_id: opt_view(self.record_id),
            target: opt_view(self.target),
            meta_cid: opt_view(self.meta_cid),
            timestamp: self.timestamp,
        }
    }
}

impl Copyable for AuditLogEntry {
    fn duplicate(&self) -> (r: Self) {
        AuditLogEntry {
            id: self.id,
            actor: self.actor.clone(),
            action: self.action.clone(),
            record_id: copy_opt(&self.record_id),
            target: copy_opt(&self.target),
            meta_cid: copy_opt(&self.meta_cid),
            timestamp: self.timestamp,
        }
    }
}

} // verus!
