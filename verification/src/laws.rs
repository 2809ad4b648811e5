use vstd::prelude::*;
use crate::access::AccessPermission;
use crate::directory::{
    add_admin_spec, add_user_role_spec, approve_identity_spec, name_taken, promoted, renamed,
    submit_identity_verification_spec, update_profile_spec, update_settings_spec,
    update_user_name_spec,
};
use crate::profile::{PrivacySettingsView, UserProfileView, UserRole};
use crate::record::MedicalRecordView;
use crate::records::{
    create_folder_spec, file_stored, folder_stored, may_edit_spec, may_share_spec, may_view_spec,
    stored, upload_record_spec,
};
use crate::sharing::{grant_access_spec, revoke_access_spec, submit_for_research_spec};
use crate::state::{
    empty_state, enrolled, filed_by_key, granted, index_consistent, is_grantee, is_indexed,
    names_consistent,
    revoked, shared_ids, with_id, without_id, State,
};
use crate::workflow::{
    approve_access_request_spec, deny_access_request_spec, names_both_parties,
    request_access_to_record_spec,
};

verus! {

/// Taking `id` out of a list leaves exactly the other identifiers, each as
/// often as before, so a list without repetitions stays one.
pub proof fn without_id_holds(ids: Seq<Seq<char>>, id: Seq<char>)
    ensures
        forall|x: Seq<char>| #[trigger]
            without_id(ids, id).contains(x) <==> ids.contains(x) && x != id,
        ids.no_duplicates() ==> without_id(ids, id).no_duplicates(),
        !ids.contains(id) ==> without_id(ids, id) == ids,
    decreases ids.len(),
{
    if ids.len() > 0 {
        let rest = ids.drop_last();
        let last = ids.last();
        without_id_holds(rest, id);
        let out = without_id(ids, id);
        let sub = without_id(rest, id);
        assert(ids =~= rest.push(last));
        assert forall|x: Seq<char>| #[trigger] out.contains(x) <==> ids.contains(x) && x != id by {
            if out.contains(x) {
                let i = choose|i: int| 0 <= i < out.len() && out[i] == x;
                if last != id && i == sub.len() {
                    assert(ids[ids.len() - 1] == x);
                } else {
                    assert(sub[i] == x);
                    assert(sub.contains(x));
                    let j = choose|j: int| 0 <= j < rest.len() && rest[j] == x;
                    assert(ids[j] == x);
                }
            }
            if ids.contains(x) && x != id {
                let j = choose|j: int| 0 <= j < ids.len() && ids[j] == x;
                if j == ids.len() - 1 {
                    assert(out[sub.len() as int] == x);
                } else {
                    assert(rest[j] == x);
                    assert(rest.contains(x));
                    assert(sub.contains(x));
                    let i = choose|i: int| 0 <= i < sub.len() && sub[i] == x;
                    assert(out[i] == x);
                }
            }
        }
        if ids.no_duplicates() {
            assert(rest.no_duplicates());
            if last != id {
                assert(!rest.contains(last)) by {
                    if rest.contains(last) {
                        let j = choose|j: int| 0 <= j < rest.len() && rest[j] == last;
                        assert(ids[j] == ids[ids.len() - 1]);
                    }
                }
                assert(!sub.contains(last));
                assert(out.no_duplicates());
            }
        }
        if !ids.contains(id) {
            assert(last != id) by {
                assert(ids[ids.len() - 1] == last);
            }
            assert(!rest.contains(id)) by {
                if rest.contains(id) {
                    let j = choose|j: int| 0 <= j < rest.len() && rest[j] == id;
                    assert(ids[j] == id);
                }
            }
            assert(out =~= ids);
        }
    }
}

/// In a registry in which nothing has happened, the sharing index and the
/// access lists agree.
pub proof fn index_consistent_at_start()
    ensures
        index_consistent(empty_state()),
{
    let s = empty_state();
    assert forall|g: Seq<u8>| #[trigger] shared_ids(s, g).no_duplicates() by {
        assert(shared_ids(s, g) =~= Seq::empty());
    }
}

/// A grant keeps the sharing index and the access lists in agreement, also
/// where the grantee is the owner.
pub proof fn granted_keeps_index(s: State, id: Seq<char>, grantee: Seq<u8>, permission: AccessPermission)
    requires
        index_consistent(s),
        s.records.dom().contains(id),
    ensures
        index_consistent(granted(s, id, grantee, permission)),
{
    let t = granted(s, id, grantee, permission);
    let owner = s.records[id].owner;
    assert forall|i: Seq<char>, g: Seq<u8>| is_grantee(t, i, g) <==> is_indexed(t, g, i) by {
        assert(is_grantee(s, i, g) <==> is_indexed(s, g, i));
        if g == grantee && grantee != owner {
            let ids = shared_ids(s, grantee);
            assert(shared_ids(t, g) == with_id(ids, id));
            if !ids.contains(id) {
                assert(ids.push(id)[ids.len() as int] == id);
                if ids.contains(i) {
                    let j = choose|j: int| 0 <= j < ids.len() && ids[j] == i;
                    assert(ids.push(id)[j] == i);
                }
                if ids.push(id).contains(i) && i != id {
                    let j = choose|j: int| 0 <= j < ids.push(id).len() && ids.push(id)[j] == i;
                    assert(ids[j] == i);
                }
            }
        } else {
            assert(shared_ids(t, g) == shared_ids(s, g));
        }
    }
    assert forall|g: Seq<u8>| #[trigger] shared_ids(t, g).no_duplicates() by {
        assert(shared_ids(s, g).no_duplicates());
        if g == grantee && grantee != owner {
            let ids = shared_ids(s, grantee);
            assert(shared_ids(t, g) == with_id(ids, id));
        } else {
            assert(shared_ids(t, g) == shared_ids(s, g));
        }
    }
}

/// A revocation keeps the sharing index and the access lists in agreement.
pub proof fn revoked_keeps_index(s: State, id: Seq<char>, grantee: Seq<u8>)
    requires
        index_consistent(s),
        s.records.dom().contains(id),
    ensures
        index_consistent(revoked(s, id, grantee)),
{
    let t = revoked(s, id, grantee);
    without_id_holds(shared_ids(s, grantee), id);
    assert forall|i: Seq<char>, g: Seq<u8>| is_grantee(t, i, g) <==> is_indexed(t, g, i) by {
        assert(is_grantee(s, i, g) <==> is_indexed(s, g, i));
        if g == grantee && s.shared.dom().contains(grantee) {
            assert(shared_ids(t, g) == without_id(shared_ids(s, g), id));
        } else {
            assert(shared_ids(t, g) =~= shared_ids(s, g));
            if g == grantee {
                assert(shared_ids(s, g) =~= Seq::empty());
                assert(!is_indexed(s, g, id));
            }
        }
    }
    assert forall|g: Seq<u8>| #[trigger] shared_ids(t, g).no_duplicates() by {
        assert(shared_ids(s, g).no_duplicates());
        if g == grantee && s.shared.dom().contains(grantee) {
            assert(shared_ids(t, g) == without_id(shared_ids(s, g), id));
        } else {
            assert(shared_ids(t, g) =~= shared_ids(s, g));
        }
    }
}

/// Looking a participant up, writing to the trail and adding a trail pointer
/// to a profile touch neither the records nor the sharing index.
pub proof fn bookkeeping_keeps_index(s: State, t: State)
    requires
        index_consistent(s),
        t.records == s.records,
        t.shared == s.shared,
    ensures
        index_consistent(t),
{
    assert forall|i: Seq<char>, g: Seq<u8>| is_grantee(t, i, g) <==> is_indexed(t, g, i) by {
        assert(is_grantee(s, i, g) <==> is_indexed(s, g, i));
        assert(shared_ids(t, g) == shared_ids(s, g));
    }
    assert forall|g: Seq<u8>| #[trigger] shared_ids(t, g).no_duplicates() by {
        assert(shared_ids(s, g).no_duplicates());
        assert(shared_ids(t, g) == shared_ids(s, g));
    }
}

/// For every record and every participant: the participant is a grantee of
/// the record other than its owner exactly if their sharing index holds the
/// record. `grant_access` keeps it so, whatever it answers.
pub proof fn grant_access_keeps_index(
    s: State,
    caller: Seq<u8>,
    record_id: Seq<char>,
    grantee: Seq<u8>,
    permission: AccessPermission,
    now: u64,
)
    requires
        index_consistent(s),
    ensures
        index_consistent(grant_access_spec(s, caller, record_id, grantee, permission, now).0),
{
    let s1 = enrolled(s, caller, now);
    bookkeeping_keeps_index(s, s1);
    if s1.records.dom().contains(record_id) && s1.records[record_id].owner == caller {
        let s2 = granted(s1, record_id, grantee, permission);
        granted_keeps_index(s1, record_id, grantee, permission);
        bookkeeping_keeps_index(s2, grant_access_spec(s, caller, record_id, grantee, permission, now).0);
    }
}

/// `revoke_access` keeps the sharing index and the access lists in agreement,
/// whatever it answers.
pub proof fn revoke_access_keeps_index(
    s: State,
    caller: Seq<u8>,
    record_id: Seq<char>,
    grantee: Seq<u8>,
    now: u64,
)
    requires
        index_consistent(s),
    ensures
        index_consistent(revoke_access_spec(s, caller, record_id, grantee, now).0),
{
    let s1 = enrolled(s, caller, now);
    bookkeeping_keeps_index(s, s1);
    if s1.records.dom().contains(record_id) && s1.records[record_id].owner == caller {
        let s2 = revoked(s1, record_id, grantee);
        revoked_keeps_index(s1, record_id, grantee);
        bookkeeping_keeps_index(s2, revoke_access_spec(s, caller, record_id, grantee, now).0);
    }
}

/// `submit_for_research` keeps the sharing index and the access lists in
/// agreement, whatever it answers.
pub proof fn submit_for_research_keeps_index(s: State, caller: Seq<u8>, record_id: Seq<char>, now: u64)
    requires
        index_consistent(s),
    ensures
        index_consistent(submit_for_research_spec(s, caller, record_id, now).0),
{
    let s1 = enrolled(s, caller, now);
    bookkeeping_keeps_index(s, s1);
    if s1.records.dom().contains(record_id) && s1.records[record_id].owner == caller {
        let pool = crate::identity::anonymous_bytes();
        let s2 = granted(s1, record_id, pool, AccessPermission::research_spec());
        granted_keeps_index(s1, record_id, pool, AccessPermission::research_spec());
        bookkeeping_keeps_index(s2, submit_for_research_spec(s, caller, record_id, now).0);
    }
}

/// A revocation followed by a grant to the same grantee leaves the access
/// list as the grant alone would: the grantee has exactly the new permission,
/// whatever they had before.
pub proof fn revoke_then_grant_gives_new_permission(
    s: State,
    caller: Seq<u8>,
    record_id: Seq<char>,
    grantee: Seq<u8>,
    permission: AccessPermission,
    first: u64,
    second: u64,
)
    requires
        s.records.dom().contains(record_id),
        s.records[record_id].owner == caller,
    ensures
        ({
            let r1 = revoke_access_spec(s, caller, record_id, grantee, first);
            let r2 = grant_access_spec(r1.0, caller, record_id, grantee, permission, second);
            &&& r1.1 is Ok
            &&& r2.1 is Ok
            &&& r2.0.records[record_id].access_list == s.records[record_id].access_list.insert(
                grantee,
                permission,
            )
            &&& r2.0.records[record_id].access_list[grantee] == permission
        }),
{
    let r1 = revoke_access_spec(s, caller, record_id, grantee, first);
    let r2 = grant_access_spec(r1.0, caller, record_id, grantee, permission, second);
    assert(r2.0.records[record_id].access_list =~= s.records[record_id].access_list.insert(
        grantee,
        permission,
    ));
}

/// Granting the same permission to the same grantee twice leaves the records
/// and the sharing index as one grant does: the second grant adds no entry
/// to either.
pub proof fn grant_twice_is_grant_once(
    s: State,
    caller: Seq<u8>,
    record_id: Seq<char>,
    grantee: Seq<u8>,
    permission: AccessPermission,
    first: u64,
    second: u64,
)
    ensures
        ({
            let r1 = grant_access_spec(s, caller, record_id, grantee, permission, first);
            let r2 = grant_access_spec(r1.0, caller, record_id, grantee, permission, second);
            &&& r2.1 == r1.1
            &&& r2.0.records == r1.0.records
            &&& r2.0.shared == r1.0.shared
        }),
{
    let r1 = grant_access_spec(s, caller, record_id, grantee, permission, first);
    let r2 = grant_access_spec(r1.0, caller, record_id, grantee, permission, second);
    let s1 = enrolled(s, caller, first);
    if s1.records.dom().contains(record_id) && s1.records[record_id].owner == caller {
        let ids = shared_ids(s1, grantee);
        assert(with_id(ids, record_id).contains(record_id)) by {
            if !ids.contains(record_id) {
                assert(ids.push(record_id)[ids.len() as int] == record_id);
            }
        }
        assert(r2.0.records[record_id].access_list =~= r1.0.records[record_id].access_list);
        assert(r2.0.records =~= r1.0.records);
        assert(r2.0.shared =~= r1.0.shared);
    }
}

/// Revoking twice succeeds twice, and the second revocation changes neither
/// the records nor the sharing index.
pub proof fn revoke_twice_is_revoke_once(
    s: State,
    caller: Seq<u8>,
    record_id: Seq<char>,
    grantee: Seq<u8>,
    first: u64,
    second: u64,
)
    requires
        s.records.dom().contains(record_id),
        s.records[record_id].owner == caller,
    ensures
        ({
            let r1 = revoke_access_spec(s, caller, record_id, grantee, first);
            let r2 = revoke_access_spec(r1.0, caller, record_id, grantee, second);
            &&& r1.1 is Ok
            &&& r2.1 is Ok
            &&& r2.0.records == r1.0.records
            &&& r2.0.shared == r1.0.shared
        }),
{
    let r1 = revoke_access_spec(s, caller, record_id, grantee, first);
    let r2 = revoke_access_spec(r1.0, caller, record_id, grantee, second);
    let s1 = enrolled(s, caller, first);
    if s1.shared.dom().contains(grantee) {
        let ids = s1.shared[grantee].record_ids;
        without_id_holds(ids, record_id);
        without_id_holds(without_id(ids, record_id), record_id);
    }
    assert(r2.0.records[record_id].access_list =~= r1.0.records[record_id].access_list);
    assert(r2.0.records =~= r1.0.records);
    assert(r2.0.shared =~= r1.0.shared);
}

/// Revoking a participant whom the access list does not name succeeds and
/// changes neither the records nor the sharing index.
pub proof fn revoke_of_absent_grantee_changes_nothing(
    s: State,
    caller: Seq<u8>,
    record_id: Seq<char>,
    grantee: Seq<u8>,
    now: u64,
)
    requires
        index_consistent(s),
        s.records.dom().contains(record_id),
        s.records[record_id].owner == caller,
        !s.records[record_id].access_list.dom().contains(grantee),
    ensures
        ({
            let r = revoke_access_spec(s, caller, record_id, grantee, now);
            &&& r.1 is Ok
            &&& r.0.records == s.records
            &&& r.0.shared == s.shared
        }),
{
    let r = revoke_access_spec(s, caller, record_id, grantee, now);
    let s1 = enrolled(s, caller, now);
    assert(!is_grantee(s, record_id, grantee));
    assert(!is_indexed(s, grantee, record_id));
    without_id_holds(shared_ids(s, grantee), record_id);
    assert(r.0.records[record_id].access_list =~= s.records[record_id].access_list);
    assert(r.0.records =~= s.records);
    assert(r.0.shared =~= s.shared);
}

/// A grant to the owner of the record enters the access list and leaves the
/// sharing index alone.
pub proof fn grant_to_owner_leaves_index(
    s: State,
    caller: Seq<u8>,
    record_id: Seq<char>,
    permission: AccessPermission,
    now: u64,
)
    requires
        s.records.dom().contains(record_id),
        s.records[record_id].owner == caller,
    ensures
        ({
            let r = grant_access_spec(s, caller, record_id, caller, permission, now);
            &&& r.1 is Ok
            &&& r.0.shared == s.shared
            &&& r.0.records[record_id].access_list == s.records[record_id].access_list.insert(
                caller,
                permission,
            )
        }),
{
}

/// The owner of a record may view, change and pass on the record, whatever
/// its access list says of them or fails to say.
pub proof fn owner_passes_every_check(record: MedicalRecordView, who: Seq<u8>)
    requires
        who == record.owner,
    ensures
        may_view_spec(record, who),
        may_edit_spec(record, who),
        may_share_spec(record, who),
{
}

/// Storing a record under an identifier that is not in use keeps the sharing
/// index and the access lists in agreement, where the new access list names
/// nobody but the owner.
proof fn stored_keeps_index(
    s: State,
    caller: Seq<u8>,
    record: MedicalRecordView,
    action: Seq<char>,
    meta_cid: Option<Seq<char>>,
    now: u64,
)
    requires
        index_consistent(s),
        !s.records.dom().contains(record.record_id),
        forall|g: Seq<u8>| record.access_list.dom().contains(g) ==> g == record.owner,
    ensures
        index_consistent(stored(s, caller, record, action, meta_cid, now)),
{
    let t = stored(s, caller, record, action, meta_cid, now);
    assert(t.shared == s.shared);
    assert forall|i: Seq<char>, g: Seq<u8>| is_grantee(t, i, g) <==> is_indexed(t, g, i) by {
        assert(is_grantee(s, i, g) <==> is_indexed(s, g, i));
        assert(shared_ids(t, g) == shared_ids(s, g));
    }
    assert forall|g: Seq<u8>| #[trigger] shared_ids(t, g).no_duplicates() by {
        assert(shared_ids(s, g).no_duplicates());
        assert(shared_ids(t, g) == shared_ids(s, g));
    }
}

/// Storing a file or a folder under an identifier that is not in use keeps
/// the sharing index and the access lists in agreement.
pub proof fn storing_keeps_index(
    s: State,
    caller: Seq<u8>,
    record_id: Seq<char>,
    file_cid: Seq<char>,
    file_type: Seq<char>,
    file_name: Seq<char>,
    parent_folder_id: Option<Seq<char>>,
    file_size: u64,
    now: u64,
)
    requires
        index_consistent(s),
        !s.records.dom().contains(record_id),
    ensures
        index_consistent(
            file_stored(
                s,
                caller,
                record_id,
                file_cid,
                file_type,
                file_name,
                parent_folder_id,
                file_size,
                now,
            ),
        ),
        index_consistent(folder_stored(s, caller, record_id, file_name, parent_folder_id, now)),
{
    stored_keeps_index(
        s,
        caller,
        crate::records::file_record(
            record_id,
            caller,
            file_cid,
            file_type,
            file_name,
            parent_folder_id,
            file_size,
            now,
        ),
        "upload"@,
        Some(file_cid),
        now,
    );
    stored_keeps_index(
        s,
        caller,
        crate::records::folder_record(record_id, caller, file_name, parent_folder_id, now),
        "create_folder"@,
        None,
        now,
    );
}

/// `upload_record` keeps the sharing index and the access lists in agreement,
/// where the identifier of the new record is not in use.
pub proof fn upload_record_keeps_index(
    s: State,
    caller: Seq<u8>,
    file_cid: Seq<char>,
    file_type: Seq<char>,
    file_name: Seq<char>,
    parent_folder_id: Option<Seq<char>>,
    file_size: u64,
    now: u64,
)
    requires
        index_consistent(s),
        !s.records.dom().contains(crate::records::upload_id(file_cid, now)),
    ensures
        index_consistent(
            upload_record_spec(
                s,
                caller,
                file_cid,
                file_type,
                file_name,
                parent_folder_id,
                file_size,
                now,
            ),
        ),
{
    let s1 = enrolled(s, caller, now);
    bookkeeping_keeps_index(s, s1);
    storing_keeps_index(
        s1,
        caller,
        crate::records::upload_id(file_cid, now),
        file_cid,
        file_type,
        file_name,
        parent_folder_id,
        file_size,
        now,
    );
}

/// `create_folder` keeps the sharing index and the access lists in agreement,
/// where the identifier of the new folder is not in use.
pub proof fn create_folder_keeps_index(
    s: State,
    caller: Seq<u8>,
    folder_name: Seq<char>,
    parent_folder_id: Option<Seq<char>>,
    now: u64,
)
    requires
        index_consistent(s),
        !s.records.dom().contains(crate::records::folder_id(caller, now)),
    ensures
        index_consistent(create_folder_spec(s, caller, folder_name, parent_folder_id, now)),
{
    let s1 = enrolled(s, caller, now);
    bookkeeping_keeps_index(s, s1);
    storing_keeps_index(
        s1,
        caller,
        crate::records::folder_id(caller, now),
        Seq::empty(),
        Seq::empty(),
        folder_name,
        parent_folder_id,
        0,
        now,
    );
}

/// The request workflow keeps the sharing index and the access lists in
/// agreement: filing and denying touch neither, and approving grants.
pub proof fn requests_keep_index(
    s: State,
    caller: Seq<u8>,
    record_id: Seq<char>,
    request_id: Seq<char>,
    message: Seq<char>,
    now: u64,
)
    requires
        index_consistent(s),
    ensures
        index_consistent(request_access_to_record_spec(s, caller, record_id, message, now).0),
        index_consistent(approve_access_request_spec(s, caller, request_id, now).0),
        index_consistent(deny_access_request_spec(s, caller, request_id, now).0),
{
    bookkeeping_keeps_index(s, request_access_to_record_spec(s, caller, record_id, message, now).0);
    bookkeeping_keeps_index(s, deny_access_request_spec(s, caller, request_id, now).0);
    let a = approve_access_request_spec(s, caller, request_id, now);
    if s.requests.dom().contains(request_id) {
        let req = s.requests[request_id];
        match crate::identity::principal_parse(req.requester_principal) {
            Some(requester) => {
                let perm = AccessPermission::view_only_spec();
                grant_access_keeps_index(s, caller, req.record_id, requester, perm, now);
                let g = grant_access_spec(s, caller, req.record_id, requester, perm, now);
                if req.owner_principal == crate::identity::principal_text(caller) {
                    bookkeeping_keeps_index(g.0, a.0);
                }
            },
            None => {},
        }
    }
}

/// The operations on profiles keep the sharing index and the access lists in
/// agreement: they touch neither.
pub proof fn directory_keeps_index(
    s: State,
    caller: Seq<u8>,
    target: Seq<u8>,
    name: Seq<char>,
    profile: UserProfileView,
    settings: PrivacySettingsView,
    role: UserRole,
    now: u64,
)
    requires
        index_consistent(s),
    ensures
        index_consistent(enrolled(s, caller, now)),
        index_consistent(update_user_name_spec(s, caller, name, now).0),
        index_consistent(update_profile_spec(s, caller, profile, now).0),
        index_consistent(update_settings_spec(s, caller, settings, now)),
        index_consistent(add_user_role_spec(s, caller, role, now).0),
        index_consistent(add_admin_spec(s, caller, target, now).0),
        index_consistent(submit_identity_verification_spec(s, caller, name, now)),
        index_consistent(approve_identity_spec(s, caller, target, now).0),
{
    bookkeeping_keeps_index(s, enrolled(s, caller, now));
    bookkeeping_keeps_index(s, update_user_name_spec(s, caller, name, now).0);
    bookkeeping_keeps_index(s, update_profile_spec(s, caller, profile, now).0);
    bookkeeping_keeps_index(s, update_settings_spec(s, caller, settings, now));
    bookkeeping_keeps_index(s, add_user_role_spec(s, caller, role, now).0);
    bookkeeping_keeps_index(s, add_admin_spec(s, caller, target, now).0);
    bookkeeping_keeps_index(s, submit_identity_verification_spec(s, caller, name, now));
    bookkeeping_keeps_index(s, approve_identity_spec(s, caller, target, now).0);
}

/// In a registry in which nothing has happened, the display names and the
/// profiles agree.
pub proof fn names_consistent_at_start()
    ensures
        names_consistent(empty_state()),
{
}

/// Changes to profiles that leave every display name alone, and give none to
/// a new profile, keep the names and the profiles in agreement.
pub proof fn bookkeeping_keeps_names(s: State, t: State)
    requires
        names_consistent(s),
        t.names == s.names,
        forall|u: Seq<u8>| #[trigger] s.users.dom().contains(u) ==> t.users.dom().contains(u),
        forall|u: Seq<u8>| #[trigger]
            t.users.dom().contains(u) ==> if s.users.dom().contains(u) {
                t.users[u].name == s.users[u].name
            } else {
                t.users[u].name is None
            },
    ensures
        names_consistent(t),
{
    assert forall|n: Seq<char>| #[trigger] t.names.dom().contains(n) implies t.users.dom().contains(
        t.names[n],
    ) && t.users[t.names[n]].name == Some(n) by {
        assert(s.names.dom().contains(n));
        assert(s.users.dom().contains(s.names[n]));
    }
    assert forall|u: Seq<u8>| #[trigger]
        t.users.dom().contains(u) && t.users[u].name is Some implies t.names.dom().contains(
        t.users[u].name->0,
    ) && t.names[t.users[u].name->0] == u by {
        assert(s.users.dom().contains(u));
    }
}

/// Taking a display name that nobody else holds keeps the names and the
/// profiles in agreement: the name held before is free, and the new name
/// points to the caller alone.
pub proof fn renamed_keeps_names(s: State, caller: Seq<u8>, name: Seq<char>)
    requires
        names_consistent(s),
        s.users.dom().contains(caller),
        !name_taken(s, caller, name),
    ensures
        names_consistent(renamed(s, caller, name)),
{
    let t = renamed(s, caller, name);
    let old_name = s.users[caller].name;
    assert forall|n: Seq<char>| #[trigger] t.names.dom().contains(n) implies t.users.dom().contains(
        t.names[n],
    ) && t.users[t.names[n]].name == Some(n) by {
        if n != name {
            assert(s.names.dom().contains(n));
            assert(s.users.dom().contains(s.names[n]));
            if s.names[n] == caller {
                assert(s.users[caller].name == Some(n));
            }
        }
    }
    assert forall|u: Seq<u8>| #[trigger]
        t.users.dom().contains(u) && t.users[u].name is Some implies t.names.dom().contains(
        t.users[u].name->0,
    ) && t.names[t.users[u].name->0] == u by {
        if u != caller {
            assert(s.users.dom().contains(u));
            let m = s.users[u].name->0;
            assert(s.names.dom().contains(m) && s.names[m] == u);
            if old_name is Some && m == old_name->0 {
                assert(s.users.dom().contains(caller));
                assert(s.names[m] == caller);
            }
        }
    }
}

/// For every profile: it shows a display name exactly if the lookup table
/// points from that name to it, so no two profiles show the same name.
/// `update_user_name` and `update_profile` keep it so, whatever they answer.
pub proof fn renaming_keeps_names(
    s: State,
    caller: Seq<u8>,
    name: Seq<char>,
    profile: UserProfileView,
    now: u64,
)
    requires
        names_consistent(s),
    ensures
        names_consistent(update_user_name_spec(s, caller, name, now).0),
        names_consistent(update_profile_spec(s, caller, profile, now).0),
{
    let s1 = enrolled(s, caller, now);
    bookkeeping_keeps_names(s, s1);
    if name.len() != 0 && !name_taken(s1, caller, name) {
        let s2 = renamed(s1, caller, name);
        renamed_keeps_names(s1, caller, name);
        bookkeeping_keeps_names(s2, update_user_name_spec(s, caller, name, now).0);
    }
    match profile.name {
        Some(n) => {
            if n.len() != 0 && !name_taken(s1, caller, n) {
                let s2 = renamed(s1, caller, n);
                renamed_keeps_names(s1, caller, n);
                bookkeeping_keeps_names(s2, update_profile_spec(s, caller, profile, now).0);
            }
        },
        None => {
            bookkeeping_keeps_names(s1, update_profile_spec(s, caller, profile, now).0);
        },
    }
}

/// Two profiles that show the same display name are one profile.
pub proof fn display_names_are_unique(s: State, a: Seq<u8>, b: Seq<u8>)
    requires
        names_consistent(s),
        s.users.dom().contains(a),
        s.users.dom().contains(b),
        s.users[a].name is Some,
        s.users[a].name == s.users[b].name,
    ensures
        a == b,
{
}

/// The operations on records and grants rename nobody, so they keep the
/// names and the profiles in agreement.
pub proof fn sharing_keeps_names(
    s: State,
    caller: Seq<u8>,
    other: Seq<u8>,
    id: Seq<char>,
    permission: AccessPermission,
    now: u64,
)
    requires
        names_consistent(s),
    ensures
        names_consistent(enrolled(s, caller, now)),
        names_consistent(grant_access_spec(s, caller, id, other, permission, now).0),
        names_consistent(revoke_access_spec(s, caller, id, other, now).0),
        names_consistent(submit_for_research_spec(s, caller, id, now).0),
{
    bookkeeping_keeps_names(s, enrolled(s, caller, now));
    bookkeeping_keeps_names(s, grant_access_spec(s, caller, id, other, permission, now).0);
    bookkeeping_keeps_names(s, revoke_access_spec(s, caller, id, other, now).0);
    bookkeeping_keeps_names(s, submit_for_research_spec(s, caller, id, now).0);
}

/// Storing a record renames nobody.
proof fn stored_keeps_names(
    s: State,
    caller: Seq<u8>,
    record: MedicalRecordView,
    action: Seq<char>,
    meta_cid: Option<Seq<char>>,
    now: u64,
)
    requires
        names_consistent(s),
    ensures
        names_consistent(stored(s, caller, record, action, meta_cid, now)),
{
    bookkeeping_keeps_names(s, stored(s, caller, record, action, meta_cid, now));
}

/// Storing a file or a folder, under whatever identifier, renames nobody, so
/// it keeps the names and the profiles in agreement; so do `upload_record`
/// and `create_folder`.
pub proof fn creation_keeps_names(
    s: State,
    caller: Seq<u8>,
    record_id: Seq<char>,
    file_cid: Seq<char>,
    file_type: Seq<char>,
    file_name: Seq<char>,
    parent_folder_id: Option<Seq<char>>,
    file_size: u64,
    now: u64,
)
    requires
        names_consistent(s),
    ensures
        names_consistent(
            file_stored(
                s,
                caller,
                record_id,
                file_cid,
                file_type,
                file_name,
                parent_folder_id,
                file_size,
                now,
            ),
        ),
        names_consistent(folder_stored(s, caller, record_id, file_name, parent_folder_id, now)),
        names_consistent(
            upload_record_spec(
                s,
                caller,
                file_cid,
                file_type,
                file_name,
                parent_folder_id,
                file_size,
                now,
            ),
        ),
        names_consistent(create_folder_spec(s, caller, file_name, parent_folder_id, now)),
{
    let s1 = enrolled(s, caller, now);
    bookkeeping_keeps_names(s, s1);
    let up = crate::records::upload_id(file_cid, now);
    let dir = crate::records::folder_id(caller, now);
    stored_keeps_names(
        s,
        caller,
        crate::records::file_record(
            record_id,
            caller,
            file_cid,
            file_type,
            file_name,
            parent_folder_id,
            file_size,
            now,
        ),
        "upload"@,
        Some(file_cid),
        now,
    );
    stored_keeps_names(
        s,
        caller,
        crate::records::folder_record(record_id, caller, file_name, parent_folder_id, now),
        "create_folder"@,
        None,
        now,
    );
    stored_keeps_names(
        s1,
        caller,
        crate::records::file_record(
            up,
            caller,
            file_cid,
            file_type,
            file_name,
            parent_folder_id,
            file_size,
            now,
        ),
        "upload"@,
        Some(file_cid),
        now,
    );
    stored_keeps_names(
        s1,
        caller,
        crate::records::folder_record(dir, caller, file_name, parent_folder_id, now),
        "create_folder"@,
        None,
        now,
    );
}

/// The operations on roles, settings and identity checks rename nobody, so
/// they keep the names and the profiles in agreement.
pub proof fn roles_keep_names(
    s: State,
    caller: Seq<u8>,
    target: Seq<u8>,
    evidence_cid: Seq<char>,
    settings: PrivacySettingsView,
    role: UserRole,
    now: u64,
)
    requires
        names_consistent(s),
    ensures
        names_consistent(update_settings_spec(s, caller, settings, now)),
        names_consistent(add_user_role_spec(s, caller, role, now).0),
        names_consistent(add_admin_spec(s, caller, target, now).0),
        names_consistent(submit_identity_verification_spec(s, caller, evidence_cid, now)),
        names_consistent(approve_identity_spec(s, caller, target, now).0),
{
    let s1 = enrolled(s, caller, now);
    bookkeeping_keeps_names(s, s1);
    bookkeeping_keeps_names(s1, update_settings_spec(s, caller, settings, now));
    bookkeeping_keeps_names(s1, add_user_role_spec(s, caller, role, now).0);
    bookkeeping_keeps_names(s1, add_admin_spec(s, caller, target, now).0);
    bookkeeping_keeps_names(s1, submit_identity_verification_spec(s, caller, evidence_cid, now));
    bookkeeping_keeps_names(s1, approve_identity_spec(s, caller, target, now).0);
}

/// The request workflow renames nobody, so it keeps the names and the
/// profiles in agreement.
pub proof fn requests_keep_names(
    s: State,
    caller: Seq<u8>,
    record_id: Seq<char>,
    request_id: Seq<char>,
    message: Seq<char>,
    now: u64,
)
    requires
        names_consistent(s),
    ensures
        names_consistent(request_access_to_record_spec(s, caller, record_id, message, now).0),
        names_consistent(approve_access_request_spec(s, caller, request_id, now).0),
        names_consistent(deny_access_request_spec(s, caller, request_id, now).0),
{
    let s1 = enrolled(s, caller, now);
    bookkeeping_keeps_names(s, s1);
    bookkeeping_keeps_names(s1, request_access_to_record_spec(s, caller, record_id, message, now).0);
    bookkeeping_keeps_names(s, deny_access_request_spec(s, caller, request_id, now).0);
    let a = approve_access_request_spec(s, caller, request_id, now);
    if s.requests.dom().contains(request_id) {
        let req = s.requests[request_id];
        match crate::identity::principal_parse(req.requester_principal) {
            Some(requester) => {
                let perm = AccessPermission::view_only_spec();
                let g = grant_access_spec(s, caller, req.record_id, requester, perm, now);
                sharing_keeps_names(s, caller, requester, req.record_id, perm, now);
                if req.owner_principal == crate::identity::principal_text(caller) {
                    bookkeeping_keeps_names(g.0, a.0);
                }
            },
            None => {},
        }
    }
}

/// Taking the same display name twice succeeds twice, and the name points to
/// the caller after the first time and after the second.
pub proof fn rename_twice_succeeds_twice(
    s: State,
    caller: Seq<u8>,
    name: Seq<char>,
    first: u64,
    second: u64,
)
    requires
        update_user_name_spec(s, caller, name, first).1 is Ok,
    ensures
        ({
            let r1 = update_user_name_spec(s, caller, name, first);
            let r2 = update_user_name_spec(r1.0, caller, name, second);
            &&& r2.1 is Ok
            &&& r1.0.names.dom().contains(name) && r1.0.names[name] == caller
            &&& r2.0.names.dom().contains(name) && r2.0.names[name] == caller
            &&& r2.0.names == r1.0.names
            &&& r2.0.users[caller].name == Some(name)
        }),
{
    let r1 = update_user_name_spec(s, caller, name, first);
    let r2 = update_user_name_spec(r1.0, caller, name, second);
    assert(r1.0.users[caller].name == Some(name));
    assert(r2.0.names =~= r1.0.names);
}

/// A display name that someone holds is refused to everybody else, as a
/// conflict.
pub proof fn held_name_is_refused(s: State, holder: Seq<u8>, caller: Seq<u8>, name: Seq<char>, now: u64)
    requires
        s.names.dom().contains(name),
        s.names[name] == holder,
        holder != caller,
        name.len() > 0,
    ensures
        update_user_name_spec(s, caller, name, now).1 == Err::<Seq<char>, crate::error::EngineError>(
            crate::error::EngineError::NameTaken,
        ),
        crate::error::EngineError::NameTaken.kind_of() == crate::error::ErrorKind::Conflict,
{
}

/// Where the sharing index and the access lists agree: a participant is
/// named in the access list of a record that they do not own exactly if their
/// sharing index holds the record.
pub proof fn index_agrees_with_access_lists(s: State, record_id: Seq<char>, who: Seq<u8>)
    requires
        index_consistent(s),
        s.records.dom().contains(record_id),
    ensures
        s.records[record_id].access_list.dom().contains(who) && who != s.records[record_id].owner
            <==> shared_ids(s, who).contains(record_id),
        shared_ids(s, who).no_duplicates(),
{
    assert(is_grantee(s, record_id, who) <==> is_indexed(s, who, record_id));
}

/// Where the sharing index and the access lists agree, the index holds only
/// records that exist.
pub proof fn index_holds_existing_records(s: State, record_id: Seq<char>, who: Seq<u8>)
    requires
        index_consistent(s),
        shared_ids(s, who).contains(record_id),
    ensures
        s.records.dom().contains(record_id),
{
    assert(is_indexed(s, who, record_id));
    assert(is_grantee(s, record_id, who));
}

/// Looking a participant up twice is looking them up once: the second time
/// finds the profile that the first made.
pub proof fn enrolling_twice_is_enrolling_once(s: State, who: Seq<u8>, first: u64, second: u64)
    ensures
        enrolled(enrolled(s, who, first), who, second) == enrolled(s, who, first),
{
    let s1 = enrolled(s, who, first);
    if s.users.dom().contains(who) {
        let u = s.users[who];
        if crate::state::is_bootstrap_admin(who) && !u.roles.contains(UserRole::Admin) {
            let roles = u.roles.push(UserRole::Admin);
            assert(roles[roles.len() - 1] == UserRole::Admin);
        }
    } else {
        let roles = crate::state::initial_roles(who);
        if crate::state::is_bootstrap_admin(who) {
            assert(roles[3] == UserRole::Admin);
        }
    }
}

/// Making an administrator of someone who is one changes nothing, so
/// promoting twice is promoting once.
pub proof fn promoting_twice_is_promoting_once(s: State, who: Seq<u8>)
    requires
        s.users.dom().contains(who),
    ensures
        promoted(promoted(s, who), who) == promoted(s, who),
{
    let u = s.users[who];
    if !u.roles.contains(UserRole::Admin) {
        let roles = u.roles.push(UserRole::Admin);
        assert(roles[roles.len() - 1] == UserRole::Admin);
    }
}

/// Denying a request changes no record, no access list and no sharing index.
pub proof fn denial_leaves_access_alone(s: State, caller: Seq<u8>, request_id: Seq<char>, now: u64)
    ensures
        deny_access_request_spec(s, caller, request_id, now).0.records == s.records,
        deny_access_request_spec(s, caller, request_id, now).0.shared == s.shared,
{
}

/// A request that names both parties is approved by the owner of the record,
/// and by nobody else: the requester then holds view-only access without
/// expiry, and the request is marked as approved.
pub proof fn approval_grants_view_only(
    s: State,
    caller: Seq<u8>,
    requester: Seq<u8>,
    request_id: Seq<char>,
    now: u64,
)
    requires
        names_both_parties(s, request_id, requester),
        crate::identity::principal_parse(crate::identity::principal_text(caller)) == Some(caller),
    ensures
        ({
            let r = approve_access_request_spec(s, caller, request_id, now);
            let record_id = s.requests[request_id].record_id;
            &&& r.1 is Ok <==> caller == s.records[record_id].owner
            &&& r.1 is Err ==> r.1 == Err::<(), crate::error::EngineError>(
                crate::error::EngineError::Unauthorized,
            )
            &&& r.1 is Ok ==> r.0.records[record_id].access_list == s.records[record_id].access_list.insert(
                requester,
                AccessPermission::view_only_spec(),
            ) && r.0.requests[request_id].status == crate::request::RequestStatus::Approved
                && r.0.requests[request_id].resolved_at == Some(now)
        }),
{
    let r = approve_access_request_spec(s, caller, request_id, now);
    let record_id = s.requests[request_id].record_id;
    if caller == s.records[record_id].owner {
        assert(r.0.records[record_id].access_list =~= s.records[record_id].access_list.insert(
            requester,
            AccessPermission::view_only_spec(),
        ));
    }
}

/// The pending requests that name a participant have one listing in
/// ascending order of their identifiers.
pub proof fn open_requests_have_one_listing(
    first: Seq<crate::request::AccessRequestView>,
    second: Seq<crate::request::AccessRequestView>,
    s: State,
    who: Seq<char>,
    as_owner: bool,
)
    requires
        crate::workflow::lists_open_requests(first, s, who, as_owner),
        crate::workflow::lists_open_requests(second, s, who, as_owner),
    ensures
        first == second,
{
    let a = choose|ids: Seq<Seq<char>>| #[trigger]
        crate::index::key_order(ids, s.requests.dom()) && first
            == crate::workflow::open_requests(crate::state::resolved(ids, s.requests), who, as_owner);
    let b = choose|ids: Seq<Seq<char>>| #[trigger]
        crate::index::key_order(ids, s.requests.dom()) && second
            == crate::workflow::open_requests(crate::state::resolved(ids, s.requests), who, as_owner);
    crate::order::key_order_is_unique(a, b, s.requests.dom());
}

/// The profiles of which a test holds have one listing in ascending order of
/// the bytes of their identities.
pub proof fn profiles_have_one_listing(
    first: Seq<crate::profile::UserView>,
    second: Seq<crate::profile::UserView>,
    s: State,
    wanted: spec_fn(crate::profile::UserView) -> bool,
)
    requires
        crate::directory::lists_profiles(first, s, wanted),
        crate::directory::lists_profiles(second, s, wanted),
    ensures
        first == second,
{
    let a = choose|keys: Seq<Seq<u8>>| #[trigger]
        crate::index::bytes_key_order(keys, s.users.dom()) && first == crate::state::kept(
            crate::state::resolved(keys, s.users),
            wanted,
        );
    let b = choose|keys: Seq<Seq<u8>>| #[trigger]
        crate::index::bytes_key_order(keys, s.users.dom()) && second == crate::state::kept(
            crate::state::resolved(keys, s.users),
            wanted,
        );
    crate::order::bytes_key_order_is_unique(a, b, s.users.dom());
}

/// Grants and revocations change the access list of one record and the
/// sharing index of one participant, and nothing else: every record keeps
/// its owner and its content, and every other record is as before.
pub proof fn grants_change_access_only(
    s: State,
    caller: Seq<u8>,
    record_id: Seq<char>,
    grantee: Seq<u8>,
    permission: AccessPermission,
    now: u64,
    other: Seq<char>,
)
    requires
        s.records.dom().contains(other),
    ensures
        ({
            let g = grant_access_spec(s, caller, record_id, grantee, permission, now).0;
            let r = revoke_access_spec(s, caller, record_id, grantee, now).0;
            let p = submit_for_research_spec(s, caller, record_id, now).0;
            &&& g.records.dom() == s.records.dom()
            &&& r.records.dom() == s.records.dom()
            &&& p.records.dom() == s.records.dom()
            &&& g.records[other] == (MedicalRecordView {
                access_list: g.records[other].access_list,
                ..s.records[other]
            })
            &&& r.records[other] == (MedicalRecordView {
                access_list: r.records[other].access_list,
                ..s.records[other]
            })
            &&& p.records[other] == (MedicalRecordView {
                access_list: p.records[other].access_list,
                ..s.records[other]
            })
            &&& other != record_id ==> g.records[other] == s.records[other] && r.records[other]
                == s.records[other] && p.records[other] == s.records[other]
        }),
{
    let g = grant_access_spec(s, caller, record_id, grantee, permission, now).0;
    let r = revoke_access_spec(s, caller, record_id, grantee, now).0;
    let p = submit_for_research_spec(s, caller, record_id, now).0;
    assert(g.records.dom() =~= s.records.dom());
    assert(r.records.dom() =~= s.records.dom());
    assert(p.records.dom() =~= s.records.dom());
}

/// In a registry in which nothing has happened, everything is filed under
/// its own key.
pub proof fn filed_by_key_at_start()
    ensures
        filed_by_key(empty_state()),
{
}

/// The operations on records and grants keep every profile, record, request
/// and trail entry filed under its own key.
pub proof fn sharing_keeps_keys(
    s: State,
    caller: Seq<u8>,
    record_id: Seq<char>,
    grantee: Seq<u8>,
    permission: AccessPermission,
    now: u64,
)
    requires
        filed_by_key(s),
    ensures
        filed_by_key(enrolled(s, caller, now)),
        filed_by_key(grant_access_spec(s, caller, record_id, grantee, permission, now).0),
        filed_by_key(revoke_access_spec(s, caller, record_id, grantee, now).0),
        filed_by_key(submit_for_research_spec(s, caller, record_id, now).0),
{
}

/// Storing a file or a folder keeps everything filed under its own key; so
/// do `upload_record` and `create_folder`.
pub proof fn creation_keeps_keys(
    s: State,
    caller: Seq<u8>,
    record_id: Seq<char>,
    file_cid: Seq<char>,
    file_type: Seq<char>,
    file_name: Seq<char>,
    parent_folder_id: Option<Seq<char>>,
    file_size: u64,
    now: u64,
)
    requires
        filed_by_key(s),
    ensures
        filed_by_key(
            file_stored(
                s,
                caller,
                record_id,
                file_cid,
                file_type,
                file_name,
                parent_folder_id,
                file_size,
                now,
            ),
        ),
        filed_by_key(folder_stored(s, caller, record_id, file_name, parent_folder_id, now)),
        filed_by_key(
            upload_record_spec(
                s,
                caller,
                file_cid,
                file_type,
                file_name,
                parent_folder_id,
                file_size,
                now,
            ),
        ),
        filed_by_key(create_folder_spec(s, caller, file_name, parent_folder_id, now)),
{
}

/// The operations on profiles keep everything filed under its own key.
pub proof fn directory_keeps_keys(
    s: State,
    caller: Seq<u8>,
    target: Seq<u8>,
    name: Seq<char>,
    profile: UserProfileView,
    settings: PrivacySettingsView,
    role: UserRole,
    now: u64,
)
    requires
        filed_by_key(s),
    ensures
        filed_by_key(update_user_name_spec(s, caller, name, now).0),
        filed_by_key(update_profile_spec(s, caller, profile, now).0),
        filed_by_key(update_settings_spec(s, caller, settings, now)),
        filed_by_key(add_user_role_spec(s, caller, role, now).0),
        filed_by_key(add_admin_spec(s, caller, target, now).0),
        filed_by_key(submit_identity_verification_spec(s, caller, name, now)),
        filed_by_key(approve_identity_spec(s, caller, target, now).0),
{
}

/// Asking for access, approving and denying keep everything filed under its
/// own key.
pub proof fn requests_keep_keys(
    s: State,
    caller: Seq<u8>,
    record_id: Seq<char>,
    request_id: Seq<char>,
    message: Seq<char>,
    now: u64,
)
    requires
        filed_by_key(s),
    ensures
        filed_by_key(request_access_to_record_spec(s, caller, record_id, message, now).0),
        filed_by_key(approve_access_request_spec(s, caller, request_id, now).0),
        filed_by_key(deny_access_request_spec(s, caller, request_id, now).0),
{
    let a = approve_access_request_spec(s, caller, request_id, now);
    if s.requests.dom().contains(request_id) {
        let req = s.requests[request_id];
        match crate::identity::principal_parse(req.requester_principal) {
            Some(requester) => {
                sharing_keeps_keys(
                    s,
                    caller,
                    req.record_id,
                    requester,
                    AccessPermission::view_only_spec(),
                    now,
                );
            },
            None => {},
        }
    }
}

} // verus!
