use hospital_chain::access::AccessPermission;
use hospital_chain::error::{EngineError, ErrorKind};
use hospital_chain::identity::Identity;
use hospital_chain::registry::Registry;
use hospital_chain::request::RequestStatus;

fn who(n: u8) -> Identity {
    Identity::from_bytes(vec![n, 7, 7, 7, 1]).unwrap()
}

fn shared_ids(reg: &Registry, g: &Identity) -> Vec<String> {
    match reg.shared_list(g) {
        Some(list) => list.record_ids.clone(),
        None => vec![],
    }
}

fn upload(reg: &mut Registry, owner: &Identity, cid: &str, now: u64) -> String {
    reg.upload_record(
        owner,
        cid.to_string(),
        "application/pdf".to_string(),
        "scan.pdf".to_string(),
        None,
        1200,
        now,
    )
    .unwrap()
}

#[test]
fn owner_lists_the_record_they_created() {
    let mut reg = Registry::new();
    let a = who(1);
    let r1 = upload(&mut reg, &a, "bafy-one", 10);
    let owned = reg.get_my_records(&a).unwrap();
    assert_eq!(owned.len(), 1);
    assert_eq!(owned[0].record_id, r1);
    assert!(owned[0].owner.same(&a));
    assert_eq!(owned[0].file_size, Some(1200));
    assert_eq!(owned[0].access_list.get(&a), Some(AccessPermission::full()));
    assert!(reg.shared_with_me(&a).unwrap().is_empty());
    assert!(shared_ids(&reg, &a).is_empty());
}

#[test]
fn grant_shows_the_record_to_the_grantee() {
    let mut reg = Registry::new();
    let a = who(1);
    let b = who(2);
    let r1 = upload(&mut reg, &a, "bafy-one", 10);
    reg.update_user_name(&a, "alice".to_string(), 11).unwrap();
    reg.grant_access(&a, r1.clone(), &b, AccessPermission::view_only(), 12).unwrap();
    let seen = reg.shared_with_me(&b).unwrap();
    assert_eq!(seen.len(), 1);
    assert_eq!(seen[0].record.record_id, r1);
    assert_eq!(seen[0].owner_name, Some("alice".to_string()));
    assert!(!seen[0].owner_is_verified);
    assert_eq!(shared_ids(&reg, &b), vec![r1.clone()]);
    let rec = reg.record(&r1).unwrap();
    assert_eq!(rec.access_list.get(&b), Some(AccessPermission::view_only()));
}

#[test]
fn revoke_hides_the_record_again() {
    let mut reg = Registry::new();
    let a = who(1);
    let b = who(2);
    let r1 = upload(&mut reg, &a, "bafy-one", 10);
    reg.grant_access(&a, r1.clone(), &b, AccessPermission::view_only(), 12).unwrap();
    reg.revoke_access(&a, r1.clone(), &b, 13).unwrap();
    assert!(reg.shared_with_me(&b).unwrap().is_empty());
    assert!(shared_ids(&reg, &b).is_empty());
    assert_eq!(reg.record(&r1).unwrap().access_list.get(&b), None);
}

#[test]
fn approved_request_grants_view_only() {
    let mut reg = Registry::new();
    let a = who(1);
    let c = who(3);
    let r1 = upload(&mut reg, &a, "bafy-one", 10);
    let req = reg
        .request_access_to_record(&c, r1.clone(), "need for study".to_string(), 20)
        .unwrap();
    let pending = reg.get_pending_requests(&a).unwrap();
    assert_eq!(pending.len(), 1);
    assert_eq!(pending[0].request_id, req);
    assert_eq!(pending[0].message, "need for study");
    assert_eq!(pending[0].requester_principal, c.to_text());
    assert_eq!(pending[0].owner_principal, a.to_text());
    assert_eq!(pending[0].record_name, Some("scan.pdf".to_string()));
    let sent = reg.get_my_sent_requests(&c).unwrap();
    assert_eq!(sent.len(), 1);
    assert_eq!(reg.approve_access_request(&a, req.clone(), 21), Ok(()));
    let rec = reg.record(&r1).unwrap();
    assert_eq!(rec.access_list.get(&c), Some(AccessPermission::view_only()));
    assert_eq!(rec.access_list.get(&c).unwrap().expiry, None);
    let stored = reg.request(&req).unwrap();
    assert_eq!(stored.status, RequestStatus::Approved);
    assert_eq!(stored.resolved_at, Some(21));
    assert!(reg.get_pending_requests(&a).unwrap().is_empty());
    assert_eq!(shared_ids(&reg, &c), vec![r1]);
}

#[test]
fn second_holder_of_a_name_is_refused() {
    let mut reg = Registry::new();
    let a = who(1);
    let d = who(4);
    assert_eq!(
        reg.update_user_name(&a, "alice".to_string(), 5),
        Ok("User name updated to alice".to_string())
    );
    let r = reg.update_user_name(&d, "alice".to_string(), 6);
    assert_eq!(r, Err(EngineError::NameTaken));
    assert_eq!(r.unwrap_err().kind(), ErrorKind::Conflict);
    assert!(reg.get_principal_by_name("alice".to_string()).unwrap().same(&a));
}

#[test]
fn stranger_cannot_approve() {
    let mut reg = Registry::new();
    let a = who(1);
    let c = who(3);
    let e = who(5);
    let r1 = upload(&mut reg, &a, "bafy-one", 10);
    let req = reg.request_access_to_record(&c, r1.clone(), "please".to_string(), 20).unwrap();
    assert_eq!(reg.approve_access_request(&e, req.clone(), 21), Err(EngineError::Unauthorized));
    assert_eq!(reg.deny_access_request(&e, req.clone(), 21), Err(EngineError::Unauthorized));
    assert_eq!(
        reg.approve_access_request(&a, "missing".to_string(), 21),
        Err(EngineError::RequestNotFound)
    );
    assert_eq!(reg.deny_access_request(&a, req.clone(), 22), Ok(()));
    let stored = reg.request(&req).unwrap();
    assert_eq!(stored.status, RequestStatus::Denied);
    assert_eq!(stored.resolved_at, Some(22));
    assert_eq!(reg.record(&r1).unwrap().access_list.get(&c), None);
}
