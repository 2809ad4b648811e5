use hospital_chain::access::AccessPermission;
use hospital_chain::error::{EngineError, ErrorKind};
use hospital_chain::identity::Identity;
use hospital_chain::registry::Registry;

fn who(n: u8) -> Identity {
    Identity::from_bytes(vec![n, 7, 7, 7, 1]).unwrap()
}

fn shared_ids(reg: &Registry, g: &Identity) -> Vec<String> {
    match reg.shared_list(g) {
        Some(list) => list.record_ids.clone(),
        None => vec![],
    }
}

fn upload(reg: &mut Registry, owner: &Identity, cid: &str, now: u64) -> String {
    reg.upload_record(owner, cid.to_string(), "text/plain".to_string(), "note.txt".to_string(), None, 10, now)
        .unwrap()
}

fn edit_until(t: u64) -> AccessPermission {
    AccessPermission { can_view: true, can_edit: true, can_share: false, is_anonymized: false, expiry: Some(t) }
}

/// Whether the index and the access lists agree on these records and people.
fn agree(reg: &Registry, records: &[String], people: &[Identity]) -> bool {
    for id in records {
        let rec = reg.record(id).unwrap();
        for g in people {
            let granted = rec.access_list.get(g).is_some() && !g.same(&rec.owner);
            let indexed = shared_ids(reg, g).contains(id);
            if granted != indexed {
                return false;
            }
        }
    }
    for g in people {
        let ids = shared_ids(reg, g);
        for (i, id) in ids.iter().enumerate() {
            if ids[..i].contains(id) || reg.record(id).is_none() {
                return false;
            }
        }
    }
    true
}

#[test]
fn index_and_access_lists_agree_through_a_history() {
    let mut reg = Registry::new();
    let (a, b, c) = (who(1), who(2), who(3));
    let people = [who(1), who(2), who(3), Identity::anonymous()];
    let r1 = upload(&mut reg, &a, "one", 1);
    let r2 = upload(&mut reg, &a, "two", 2);
    let r3 = upload(&mut reg, &b, "three", 3);
    let records = [r1.clone(), r2.clone(), r3.clone()];
    assert!(agree(&reg, &records, &people));
    reg.grant_access(&a, r1.clone(), &b, AccessPermission::view_only(), 4).unwrap();
    assert!(agree(&reg, &records, &people));
    reg.grant_access(&a, r2.clone(), &b, edit_until(99), 5).unwrap();
    reg.grant_access(&a, r2.clone(), &c, AccessPermission::view_only(), 6).unwrap();
    reg.grant_access(&b, r3.clone(), &a, AccessPermission::view_only(), 7).unwrap();
    assert!(agree(&reg, &records, &people));
    assert_eq!(shared_ids(&reg, &b), vec![r1.clone(), r2.clone()]);
    reg.revoke_access(&a, r1.clone(), &b, 8).unwrap();
    assert!(agree(&reg, &records, &people));
    assert_eq!(shared_ids(&reg, &b), vec![r2.clone()]);
    reg.submit_for_research(&a, r2.clone(), 9).unwrap();
    assert!(agree(&reg, &records, &people));
    reg.grant_access(&a, r1.clone(), &a, AccessPermission::view_only(), 10).unwrap();
    reg.revoke_access(&a, r2.clone(), &a, 11).unwrap();
    assert!(agree(&reg, &records, &people));
}

#[test]
fn revoke_then_grant_gives_only_the_new_permission() {
    let mut reg = Registry::new();
    let (a, b) = (who(1), who(2));
    let r1 = upload(&mut reg, &a, "one", 1);
    reg.grant_access(&a, r1.clone(), &b, edit_until(50), 2).unwrap();
    reg.revoke_access(&a, r1.clone(), &b, 3).unwrap();
    reg.grant_access(&a, r1.clone(), &b, AccessPermission::view_only(), 4).unwrap();
    let got = reg.record(&r1).unwrap().access_list.get(&b).unwrap();
    assert_eq!(got, AccessPermission::view_only());
    assert!(!got.can_edit);
    assert_eq!(got.expiry, None);
}

#[test]
fn grant_overwrites_without_a_revoke() {
    let mut reg = Registry::new();
    let (a, b) = (who(1), who(2));
    let r1 = upload(&mut reg, &a, "one", 1);
    reg.grant_access(&a, r1.clone(), &b, edit_until(50), 2).unwrap();
    reg.grant_access(&a, r1.clone(), &b, AccessPermission::view_only(), 3).unwrap();
    assert_eq!(reg.record(&r1).unwrap().access_list.get(&b), Some(AccessPermission::view_only()));
    assert_eq!(reg.record(&r1).unwrap().access_list.len(), 2);
}

#[test]
fn owner_passes_every_check_without_an_entry() {
    let mut reg = Registry::new();
    let (a, b, c) = (who(1), who(2), who(3));
    let f = reg.create_folder(&a, "scans".to_string(), None, 1).unwrap();
    let folder = reg.record(&f).unwrap();
    assert_eq!(folder.access_list.len(), 0);
    assert!(folder.may_view(&a) && folder.may_edit(&a) && folder.may_share(&a));
    assert_eq!(folder.permission_for(&a), Some(AccessPermission::full()));
    assert!(!folder.may_view(&b) && !folder.may_edit(&b) && !folder.may_share(&b));
    assert_eq!(folder.permission_for(&b), None);
    let none = AccessPermission { can_view: false, can_edit: false, can_share: false, is_anonymized: false, expiry: None };
    reg.grant_access(&a, f.clone(), &a, none, 2).unwrap();
    reg.grant_access(&a, f.clone(), &c, AccessPermission::view_only(), 3).unwrap();
    let folder = reg.record(&f).unwrap();
    assert!(folder.may_view(&a) && folder.may_edit(&a) && folder.may_share(&a));
    assert!(folder.may_view(&c) && !folder.may_edit(&c) && !folder.may_share(&c));
}

#[test]
fn granting_twice_is_granting_once() {
    let mut reg = Registry::new();
    let (a, b) = (who(1), who(2));
    let r1 = upload(&mut reg, &a, "one", 1);
    assert_eq!(reg.grant_access(&a, r1.clone(), &b, AccessPermission::view_only(), 2), Ok(()));
    let ids_once = shared_ids(&reg, &b);
    let len_once = reg.record(&r1).unwrap().access_list.len();
    assert_eq!(reg.grant_access(&a, r1.clone(), &b, AccessPermission::view_only(), 3), Ok(()));
    assert_eq!(shared_ids(&reg, &b), ids_once);
    assert_eq!(shared_ids(&reg, &b), vec![r1.clone()]);
    assert_eq!(reg.record(&r1).unwrap().access_list.len(), len_once);
    assert_eq!(reg.record(&r1).unwrap().access_list.get(&b), Some(AccessPermission::view_only()));
    assert_eq!(reg.shared_with_me(&b).unwrap().len(), 1);
}

#[test]
fn revoking_twice_succeeds_twice() {
    let mut reg = Registry::new();
    let (a, b) = (who(1), who(2));
    let r1 = upload(&mut reg, &a, "one", 1);
    let r2 = upload(&mut reg, &a, "two", 2);
    reg.grant_access(&a, r1.clone(), &b, AccessPermission::view_only(), 3).unwrap();
    reg.grant_access(&a, r2.clone(), &b, AccessPermission::view_only(), 4).unwrap();
    assert_eq!(reg.revoke_access(&a, r1.clone(), &b, 5), Ok(()));
    assert_eq!(shared_ids(&reg, &b), vec![r2.clone()]);
    assert_eq!(reg.revoke_access(&a, r1.clone(), &b, 6), Ok(()));
    assert_eq!(shared_ids(&reg, &b), vec![r2.clone()]);
    assert_eq!(reg.record(&r1).unwrap().access_list.len(), 1);
}

#[test]
fn revoking_someone_never_granted_changes_nothing() {
    let mut reg = Registry::new();
    let (a, b, c) = (who(1), who(2), who(3));
    let r1 = upload(&mut reg, &a, "one", 1);
    reg.grant_access(&a, r1.clone(), &b, AccessPermission::view_only(), 2).unwrap();
    assert_eq!(reg.revoke_access(&a, r1.clone(), &c, 3), Ok(()));
    assert!(reg.shared_list(&c).is_none());
    assert_eq!(shared_ids(&reg, &b), vec![r1.clone()]);
    assert_eq!(reg.record(&r1).unwrap().access_list.len(), 2);
}

#[test]
fn granting_to_the_owner_leaves_the_index_alone() {
    let mut reg = Registry::new();
    let a = who(1);
    let r1 = upload(&mut reg, &a, "one", 1);
    assert_eq!(reg.grant_access(&a, r1.clone(), &a, AccessPermission::view_only(), 2), Ok(()));
    assert!(reg.shared_list(&a).is_none());
    assert!(reg.shared_with_me(&a).unwrap().is_empty());
    assert_eq!(reg.record(&r1).unwrap().access_list.get(&a), Some(AccessPermission::view_only()));
    assert!(reg.record(&r1).unwrap().may_edit(&a));
}

#[test]
fn only_the_owner_grants_and_revokes() {
    let mut reg = Registry::new();
    let (a, b, c) = (who(1), who(2), who(3));
    let r1 = upload(&mut reg, &a, "one", 1);
    let r = reg.grant_access(&b, r1.clone(), &c, AccessPermission::full(), 2);
    assert_eq!(r, Err(EngineError::NotOwner));
    assert_eq!(r.unwrap_err().kind(), ErrorKind::Unauthorized);
    assert_eq!(reg.revoke_access(&b, r1.clone(), &a, 3), Err(EngineError::NotOwner));
    assert_eq!(reg.submit_for_research(&b, r1.clone(), 4), Err(EngineError::NotOwner));
    assert_eq!(reg.record(&r1).unwrap().access_list.len(), 1);
    assert!(reg.shared_list(&c).is_none());
    assert!(reg.user(&b).is_some());
}

#[test]
fn missing_record_is_reported() {
    let mut reg = Registry::new();
    let (a, b) = (who(1), who(2));
    let r = reg.grant_access(&a, "nope".to_string(), &b, AccessPermission::view_only(), 5);
    assert_eq!(r, Err(EngineError::RecordNotFound));
    assert_eq!(r.unwrap_err().kind(), ErrorKind::NotFound);
    assert_eq!(reg.revoke_access(&a, "nope".to_string(), &b, 6), Err(EngineError::RecordNotFound));
    assert_eq!(reg.submit_for_research(&a, "nope".to_string(), 7), Err(EngineError::RecordNotFound));
    assert!(reg.user(&a).is_some());
    assert!(reg.get_my_audit_log(&a).unwrap().is_empty());
}

#[test]
fn grant_and_revoke_are_audited() {
    let mut reg = Registry::new();
    let (a, b) = (who(1), who(2));
    let r1 = upload(&mut reg, &a, "one", 1);
    reg.grant_access(&a, r1.clone(), &b, AccessPermission::view_only(), 2).unwrap();
    reg.revoke_access(&a, r1.clone(), &b, 3).unwrap();
    let log = reg.get_my_audit_log(&a).unwrap();
    assert_eq!(log.len(), 3);
    assert_eq!(log[0].timestamp, 3);
    assert_eq!(log[0].id, 3);
    assert_eq!(log[0].action, "revoke_access_from_dq6cy-eaca4-dqoai");
    assert_eq!(log[0].target, Some("dq6cy-eaca4-dqoai".to_string()));
    assert_eq!(log[0].actor, "loofn-qaba4-dqoai");
    assert_eq!(log[0].record_id, Some(r1.clone()));
    assert_eq!(log[0].meta_cid, None);
    assert_eq!(log[1].action, "grant_access_to_dq6cy-eaca4-dqoai");
    assert_eq!(log[1].target, Some("dq6cy-eaca4-dqoai".to_string()));
    assert_eq!(log[2].action, "upload");
    assert_eq!(log[2].meta_cid, Some("one".to_string()));
}

#[test]
fn research_submission_shares_with_the_anonymous_identity() {
    let mut reg = Registry::new();
    let a = who(1);
    let pool = Identity::anonymous();
    let r1 = upload(&mut reg, &a, "one", 1);
    assert_eq!(reg.submit_for_research(&a, r1.clone(), 2), Ok(()));
    let rec = reg.record(&r1).unwrap();
    assert_eq!(rec.access_list.get(&pool), Some(AccessPermission::research()));
    assert!(rec.may_view(&pool) && !rec.may_edit(&pool) && !rec.may_share(&pool));
    assert_eq!(shared_ids(&reg, &pool), vec![r1.clone()]);
    let log = reg.get_my_audit_log(&a).unwrap();
    assert_eq!(log[0].action, "submit_for_research");
    assert_eq!(log[0].target, None);
    assert_eq!(reg.submit_for_research(&a, r1.clone(), 3), Ok(()));
    assert_eq!(shared_ids(&reg, &pool), vec![r1]);
}
