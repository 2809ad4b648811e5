use vstd::prelude::*;
use crate::access::AccessPermission;
use crate::audit::AuditLogEntryView;
use crate::identity::{principal_parse, principal_text};
use crate::profile::{
    IdentityStatus, PrivacySettings, TokenBalanceView, UserRole, UserView, VerifiedTier,
};
use crate::record::{MedicalRecordView, SharedRecordIdListView};
use crate::request::AccessRequestView;

verus! {

/// The mathematical value of the registry: its six tables.
pub struct State {
    /// The profile of each participant who has one.
    pub users: Map<Seq<u8>, UserView>,
    /// The participant who holds each display name.
    pub names: Map<Seq<char>, Seq<u8>>,
    /// The records by identifier.
    pub records: Map<Seq<char>, MedicalRecordView>,
    /// For each grantee, the identifiers of the records shared with them.
    pub shared: Map<Seq<u8>, SharedRecordIdListView>,
    /// The requests for access by identifier.
    pub requests: Map<Seq<char>, AccessRequestView>,
    /// The audit trail by entry identifier.
    pub audit: Map<u64, AuditLogEntryView>,
}

/// The registry in which nothing has happened yet.
pub open spec fn empty_state() -> State {
    State {
        users: Map::empty(),
        names: Map::empty(),
        records: Map::empty(),
        shared: Map::empty(),
        requests: Map::empty(),
        audit: Map::empty(),
    }
}

/// The text of the one identity that is an administrator from the start.
pub open spec fn bootstrap_admin_text() -> Seq<char> {
    "2yq74-dyvun-4jltq-lkpbl-jcoao-kj4pl-7qemg-sbkrs-p3neo-47oxb-mqe"@
}

/// Whether `who` is the identity that is an administrator from the start.
pub open spec fn is_bootstrap_admin(who: Seq<u8>) -> bool {
    principal_parse(bootstrap_admin_text()) == Some(who)
}

/// The roles of a profile at its creation.
pub open spec fn initial_roles(who: Seq<u8>) -> Seq<UserRole> {
    if is_bootstrap_admin(who) {
        seq![UserRole::Patient, UserRole::Researcher, UserRole::Doctor, UserRole::Admin]
    } else {
        seq![UserRole::Patient, UserRole::Researcher, UserRole::Doctor]
    }
}

/// The profile that `who` gets at their first call, made at time `now`.
pub open spec fn new_profile(who: Seq<u8>, now: u64) -> UserView {
    UserView {
        identity: who,
        name: None,
        created_at: now,
        records: Seq::empty(),
        principal_text: principal_text(who),
        email_hash: None,
        roles: initial_roles(who),
        verified_tier: VerifiedTier::Basic,
        nationality: None,
        proof_of_identity: None,
        identity_status: IdentityStatus::Pending,
        profile: None,
        verification_badge: None,
        records_index: Seq::empty(),
        research_submissions: Seq::empty(),
        public_stats: None,
        settings: PrivacySettings::initial(),
        tokens: TokenBalanceView {},
        audit_pointer: Seq::empty(),
    }
}

/// The registry after `who` has been looked up: a profile is made for them if
/// they had none, and the bootstrap administrator gets back the `Admin` role
/// if it was lost.
pub open spec fn enrolled(s: State, who: Seq<u8>, now: u64) -> State {
    if s.users.dom().contains(who) {
        let u = s.users[who];
        if is_bootstrap_admin(who) && !u.roles.contains(UserRole::Admin) {
            State {
                users: s.users.insert(who, UserView { roles: u.roles.push(UserRole::Admin), ..u }),
                ..s
            }
        } else {
            s
        }
    } else {
        State { users: s.users.insert(who, new_profile(who, now)), ..s }
    }
}

/// The entry that the trail gets for an action of `actor` at time `now`.
pub open spec fn audit_entry(
    actor: Seq<u8>,
    action: Seq<char>,
    record_id: Option<Seq<char>>,
    target: Option<Seq<char>>,
    meta_cid: Option<Seq<char>>,
    now: u64,
) -> AuditLogEntryView {
    AuditLogEntryView {
        id: now,
        actor: principal_text(actor),
        action,
        record_id,
        target,
        meta_cid,
        timestamp: now,
    }
}

/// The registry after the trail has recorded an action under the identifier
/// `now`. An entry made earlier at the same time is replaced.
pub open spec fn logged(
    s: State,
    actor: Seq<u8>,
    action: Seq<char>,
    record_id: Option<Seq<char>>,
    target: Option<Seq<char>>,
    meta_cid: Option<Seq<char>>,
    now: u64,
) -> State {
    State {
        audit: s.audit.insert(now, audit_entry(actor, action, record_id, target, meta_cid, now)),
        ..s
    }
}

/// The registry after the profile of `who`, if there is one, has got a pointer
/// to the trail entry `entry`.
pub open spec fn noted(s: State, who: Seq<u8>, entry: u64) -> State {
    if s.users.dom().contains(who) {
        let u = s.users[who];
        State {
            users: s.users.insert(who, UserView { audit_pointer: u.audit_pointer.push(entry), ..u }),
            ..s
        }
    } else {
        s
    }
}

/// The record identifiers shared with `who`, in the order of sharing.
pub open spec fn shared_ids(s: State, who: Seq<u8>) -> Seq<Seq<char>> {
    if s.shared.dom().contains(who) {
        s.shared[who].record_ids
    } else {
        Seq::empty()
    }
}

/// `ids` with `id` at its end, unless `ids` holds it already.
pub open spec fn with_id(ids: Seq<Seq<char>>, id: Seq<char>) -> Seq<Seq<char>> {
    if ids.contains(id) {
        ids
    } else {
        ids.push(id)
    }
}

/// `ids` without any occurrence of `id`, the rest in order.
pub open spec fn without_id(ids: Seq<Seq<char>>, id: Seq<char>) -> Seq<Seq<char>>
    decreases ids.len(),
{
    if ids.len() == 0 {
        ids
    } else if ids.last() == id {
        without_id(ids.drop_last(), id)
    } else {
        without_id(ids.drop_last(), id).push(ids.last())
    }
}

/// The registry after `grantee` has been given `permission` on the record
/// `id`: the access list has the entry, replacing an earlier one, and the
/// sharing index of a grantee other than the owner holds `id` once.
pub open spec fn granted(
    s: State,
    id: Seq<char>,
    grantee: Seq<u8>,
    permission: AccessPermission,
) -> State
    recommends
        s.records.dom().contains(id),
{
    let r = s.records[id];
    let records = s.records.insert(
        id,
        MedicalRecordView { access_list: r.access_list.insert(grantee, permission), ..r },
    );
    if grantee == r.owner {
        State { records, ..s }
    } else {
        State {
            records,
            shared: s.shared.insert(
                grantee,
                SharedRecordIdListView { record_ids: with_id(shared_ids(s, grantee), id) },
            ),
            ..s
        }
    }
}

/// The registry after whatever `grantee` had on the record `id` has been
/// taken away: the access list has no entry for them, and their sharing
/// index, if they have one, no longer holds `id`.
pub open spec fn revoked(s: State, id: Seq<char>, grantee: Seq<u8>) -> State
    recommends
        s.records.dom().contains(id),
{
    let r = s.records[id];
    let records = s.records.insert(
        id,
        MedicalRecordView { access_list: r.access_list.remove(grantee), ..r },
    );
    if s.shared.dom().contains(grantee) {
        State {
            records,
            shared: s.shared.insert(
                grantee,
                SharedRecordIdListView { record_ids: without_id(s.shared[grantee].record_ids, id) },
            ),
            ..s
        }
    } else {
        State { records, ..s }
    }
}

/// Whether `grantee` is someone other than the owner of the record `id` and is
/// named in its access list.
pub open spec fn is_grantee(s: State, id: Seq<char>, grantee: Seq<u8>) -> bool {
    &&& s.records.dom().contains(id)
    &&& s.records[id].access_list.dom().contains(grantee)
    &&& grantee != s.records[id].owner
}

/// Whether the sharing index of `grantee` holds the record `id`.
pub open spec fn is_indexed(s: State, grantee: Seq<u8>, id: Seq<char>) -> bool {
    shared_ids(s, grantee).contains(id)
}

/// The sharing index says of every record and every participant exactly what
/// the access lists say, and holds no record twice.
pub open spec fn index_consistent(s: State) -> bool {
    &&& forall|id: Seq<char>, g: Seq<u8>|
        #![trigger is_grantee(s, id, g)]
        #![trigger is_indexed(s, g, id)]
        is_grantee(s, id, g) <==> is_indexed(s, g, id)
    &&& forall|g: Seq<u8>| #[trigger] shared_ids(s, g).no_duplicates()
}

/// Every display name in the lookup table belongs to the profile it points
/// to, and every named profile is found under its name.
pub open spec fn names_consistent(s: State) -> bool {
    &&& forall|n: Seq<char>| #[trigger]
        s.names.dom().contains(n) ==> s.users.dom().contains(s.names[n]) && s.users[s.names[n]].name
            == Some(n)
    &&& forall|u: Seq<u8>| #[trigger]
        s.users.dom().contains(u) && s.users[u].name is Some ==> s.names.dom().contains(
            s.users[u].name->0,
        ) && s.names[s.users[u].name->0] == u
}

/// Every profile, record, request and trail entry is filed under its own
/// identity or identifier.
pub open spec fn filed_by_key(s: State) -> bool {
    &&& forall|k: Seq<u8>| #[trigger] s.users.dom().contains(k) ==> s.users[k].identity == k
    &&& forall|k: Seq<char>| #[trigger] s.records.dom().contains(k) ==> s.records[k].record_id == k
    &&& forall|k: Seq<char>| #[trigger]
        s.requests.dom().contains(k) ==> s.requests[k].request_id == k
    &&& forall|k: u64| #[trigger] s.audit.dom().contains(k) ==> s.audit[k].id == k
}

/// The values found under the keys `keys`, in order; keys under which there
/// is nothing are passed over.
pub open spec fn resolved<K, V>(keys: Seq<K>, table: Map<K, V>) -> Seq<V>
    decreases keys.len(),
{
    if keys.len() == 0 {
        Seq::empty()
    } else if table.dom().contains(keys.last()) {
        resolved(keys.drop_last(), table).push(table[keys.last()])
    } else {
        resolved(keys.drop_last(), table)
    }
}

/// The items of `items` of which `wanted` holds, in order.
pub open spec fn kept<T>(items: Seq<T>, wanted: spec_fn(T) -> bool) -> Seq<T>
    decreases items.len(),
{
    if items.len() == 0 {
        Seq::empty()
    } else if wanted(items.last()) {
        kept(items.drop_last(), wanted).push(items.last())
    } else {
        kept(items.drop_last(), wanted)
    }
}

} // verus!
