use hospital_chain::access::AccessPermission;
use hospital_chain::error::{EngineError, ErrorKind};
use hospital_chain::identity::Identity;
use hospital_chain::registry::Registry;
use hospital_chain::request::{AccessRequest, RequestStatus};

fn who(n: u8) -> Identity {
    Identity::from_bytes(vec![n, 7, 7, 7, 1]).unwrap()
}

fn upload(reg: &mut Registry, owner: &Identity, cid: &str, now: u64) -> String {
    reg.upload_record(owner, cid.to_string(), "t".to_string(), "scan.pdf".to_string(), None, 10, now).unwrap()
}

#[test]
fn request_derives_its_identifier() {
    let mut reg = Registry::new();
    let (a, c) = (who(1), who(3));
    let r1 = upload(&mut reg, &a, "bafy-one", 10);
    reg.update_user_name(&c, "carol".to_string(), 15).unwrap();
    let id = reg.request_access_to_record(&c, r1.clone(), "need for study".to_string(), 20).unwrap();
    assert_eq!(id, "ec4780c41624248cb2d1ee944c7e59ce8d76c04927a6a888b3ec0ef9f5d6db53");
    let req = reg.request(&id).unwrap();
    assert_eq!(req.request_id, id);
    assert_eq!(req.record_id, r1);
    assert_eq!(req.record_name, Some("scan.pdf".to_string()));
    assert_eq!(req.requester_principal, "efoal-iada4-dqoai");
    assert_eq!(req.requester_name, Some("carol".to_string()));
    assert_eq!(req.owner_principal, "loofn-qaba4-dqoai");
    assert_eq!(req.status, RequestStatus::Pending);
    assert_eq!(req.message, "need for study");
    assert_eq!(req.requested_at, 20);
    assert_eq!(req.resolved_at, None);
    let entry = reg.audit_entry(20).unwrap();
    assert_eq!(entry.action, "request_access");
    assert_eq!(entry.target, Some("loofn-qaba4-dqoai".to_string()));
    assert_eq!(entry.record_id, Some(r1));
    assert_eq!(reg.user(&c).unwrap().audit_pointer, vec![15, 20]);
}

#[test]
fn request_for_a_missing_record_is_refused() {
    let mut reg = Registry::new();
    let c = who(3);
    let r = reg.request_access_to_record(&c, "nope".to_string(), "m".to_string(), 1);
    assert_eq!(r, Err(EngineError::RecordNotFound));
    assert!(reg.user(&c).is_some());
    assert!(reg.get_my_sent_requests(&c).unwrap().is_empty());
}

#[test]
fn request_keeps_the_names_of_its_time() {
    let mut reg = Registry::new();
    let (a, c) = (who(1), who(3));
    let r1 = upload(&mut reg, &a, "one", 1);
    let id = reg.request_access_to_record(&c, r1, "m".to_string(), 2).unwrap();
    reg.update_user_name(&c, "carol".to_string(), 3).unwrap();
    assert_eq!(reg.request(&id).unwrap().requester_name, None);
}

#[test]
fn pending_requests_come_in_order_of_their_identifiers() {
    let mut reg = Registry::new();
    let (a, b, c) = (who(1), who(2), who(3));
    let r1 = upload(&mut reg, &a, "one", 1);
    let r2 = upload(&mut reg, &b, "two", 2);
    let mut made = vec![];
    for t in 10..16 {
        made.push(reg.request_access_to_record(&c, r1.clone(), "m".to_string(), t).unwrap());
    }
    let other = reg.request_access_to_record(&c, r2.clone(), "m".to_string(), 30).unwrap();
    let from_a = reg.request_access_to_record(&a, r2.clone(), "m".to_string(), 31).unwrap();
    made.sort();
    let pending: Vec<String> = reg.get_pending_requests(&a).unwrap().iter().map(|r| r.request_id.clone()).collect();
    assert_eq!(pending, made);
    let mut for_b = vec![other.clone(), from_a.clone()];
    for_b.sort();
    let pending_b: Vec<String> = reg.get_pending_requests(&b).unwrap().iter().map(|r| r.request_id.clone()).collect();
    assert_eq!(pending_b, for_b);
    let mut sent = made.clone();
    sent.push(other);
    sent.sort();
    let sent_c: Vec<String> = reg.get_my_sent_requests(&c).unwrap().iter().map(|r| r.request_id.clone()).collect();
    assert_eq!(sent_c, sent);
    reg.deny_access_request(&a, made[2].clone(), 40).unwrap();
    reg.approve_access_request(&a, made[0].clone(), 41).unwrap();
    let pending: Vec<String> = reg.get_pending_requests(&a).unwrap().iter().map(|r| r.request_id.clone()).collect();
    assert_eq!(pending, vec![made[1].clone(), made[3].clone(), made[4].clone(), made[5].clone()]);
    assert_eq!(reg.get_my_sent_requests(&c).unwrap().len(), 5);
    assert_eq!(reg.get_my_sent_requests(&a).unwrap().len(), 1);
}

#[test]
fn approval_goes_through_the_grant() {
    let mut reg = Registry::new();
    let (a, c) = (who(1), who(3));
    let r1 = upload(&mut reg, &a, "one", 1);
    let id = reg.request_access_to_record(&c, r1.clone(), "m".to_string(), 2).unwrap();
    assert_eq!(reg.approve_access_request(&a, id.clone(), 3), Ok(()));
    assert_eq!(reg.record(&r1).unwrap().access_list.get(&c), Some(AccessPermission::view_only()));
    assert_eq!(reg.shared_list(&c).unwrap().record_ids, vec![r1.clone()]);
    assert_eq!(reg.audit_entry(3).unwrap().action, "grant_access_to_efoal-iada4-dqoai");
    assert_eq!(reg.user(&a).unwrap().audit_pointer, vec![1, 3]);
    assert_eq!(reg.approve_access_request(&a, id.clone(), 4), Ok(()));
    assert_eq!(reg.request(&id).unwrap().resolved_at, Some(4));
    assert_eq!(reg.shared_list(&c).unwrap().record_ids, vec![r1]);
}

#[test]
fn request_naming_another_owner_cannot_be_approved_by_the_record_owner() {
    let mut reg = Registry::new();
    let (a, b, c) = (who(1), who(2), who(3));
    let r1 = upload(&mut reg, &a, "one", 1);
    let stale = AccessRequest {
        request_id: "stale".to_string(),
        record_id: r1.clone(),
        record_name: None,
        requester_principal: c.to_text(),
        requester_name: None,
        owner_principal: b.to_text(),
        status: RequestStatus::Pending,
        message: "m".to_string(),
        requested_at: 2,
        resolved_at: None,
    };
    reg.file_request(&c, stale, 2);
    let r = reg.approve_access_request(&a, "stale".to_string(), 3);
    assert_eq!(r, Err(EngineError::Unauthorized));
    assert_eq!(r.unwrap_err().kind(), ErrorKind::Unauthorized);
    assert_eq!(reg.approve_access_request(&b, "stale".to_string(), 4), Err(EngineError::NotOwner));
    assert_eq!(reg.request(&"stale".to_string()).unwrap().status, RequestStatus::Pending);
    assert_eq!(reg.record(&r1).unwrap().access_list.get(&c), None);
}

#[test]
fn request_with_a_malformed_requester_cannot_be_approved() {
    let mut reg = Registry::new();
    let (a, c) = (who(1), who(3));
    let r1 = upload(&mut reg, &a, "one", 1);
    let broken = AccessRequest {
        request_id: "broken".to_string(),
        record_id: r1.clone(),
        record_name: None,
        requester_principal: "nobody".to_string(),
        requester_name: None,
        owner_principal: a.to_text(),
        status: RequestStatus::Pending,
        message: "m".to_string(),
        requested_at: 2,
        resolved_at: None,
    };
    reg.file_request(&c, broken, 2);
    let r = reg.approve_access_request(&a, "broken".to_string(), 3);
    assert_eq!(r, Err(EngineError::InvalidPrincipal));
    assert_eq!(r.unwrap_err().kind(), ErrorKind::InvalidInput);
    assert_eq!(reg.request(&"broken".to_string()).unwrap().status, RequestStatus::Pending);
    assert_eq!(reg.deny_access_request(&a, "broken".to_string(), 4), Ok(()));
}

#[test]
fn request_for_a_vanished_record_passes_the_refusal_on() {
    let mut reg = Registry::new();
    let (a, c) = (who(1), who(3));
    let ghost = AccessRequest {
        request_id: "ghost".to_string(),
        record_id: "no-such-record".to_string(),
        record_name: None,
        requester_principal: c.to_text(),
        requester_name: None,
        owner_principal: a.to_text(),
        status: RequestStatus::Pending,
        message: "m".to_string(),
        requested_at: 2,
        resolved_at: None,
    };
    reg.file_request(&c, ghost, 2);
    let r = reg.approve_access_request(&a, "ghost".to_string(), 3);
    assert_eq!(r, Err(EngineError::RecordNotFound));
    assert_eq!(reg.request(&"ghost".to_string()).unwrap().status, RequestStatus::Pending);
    let r = reg.deny_access_request(&a, "absent".to_string(), 4);
    assert_eq!(r, Err(EngineError::RequestNotFound));
    assert_eq!(r.unwrap_err().kind(), ErrorKind::NotFound);
}
