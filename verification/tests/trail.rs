use hospital_chain::access::AccessPermission;
use hospital_chain::identity::Identity;
use hospital_chain::registry::Registry;

fn who(n: u8) -> Identity {
    Identity::from_bytes(vec![n, 7, 7, 7, 1]).unwrap()
}

fn upload(reg: &mut Registry, owner: &Identity, cid: &str, size: u64, now: u64) -> String {
    reg.upload_record(owner, cid.to_string(), "t".to_string(), "n".to_string(), None, size, now).unwrap()
}

#[test]
fn log_action_files_the_entry_under_its_time() {
    let mut reg = Registry::new();
    let a = who(1);
    let id = reg.log_action(&a, Some("r".to_string()), "did".to_string(), Some("t".to_string()), Some("m".to_string()), 77);
    assert_eq!(id, 77);
    let e = reg.audit_entry(77).unwrap();
    assert_eq!(e.id, 77);
    assert_eq!(e.timestamp, 77);
    assert_eq!(e.actor, "loofn-qaba4-dqoai");
    assert_eq!(e.action, "did");
    assert_eq!(e.record_id, Some("r".to_string()));
    assert_eq!(e.target, Some("t".to_string()));
    assert_eq!(e.meta_cid, Some("m".to_string()));
    assert!(reg.audit_entry(78).is_none());
    assert!(reg.user(&a).is_none());
    reg.log_action(&a, None, "again".to_string(), None, None, 77);
    assert_eq!(reg.audit_entry(77).unwrap().action, "again");
}

#[test]
fn note_adds_a_pointer_to_an_existing_profile_only() {
    let mut reg = Registry::new();
    let (a, b) = (who(1), who(2));
    reg.get_or_create_user_profile(&a, 1);
    reg.note(&a, 5);
    reg.note(&a, 3);
    reg.note(&b, 9);
    assert_eq!(reg.user(&a).unwrap().audit_pointer, vec![5, 3]);
    assert!(reg.user(&b).is_none());
}

#[test]
fn audit_log_is_newest_first_and_skips_dangling_pointers() {
    let mut reg = Registry::new();
    let a = who(1);
    reg.get_or_create_user_profile(&a, 1);
    for t in [30u64, 10, 20] {
        reg.log_action(&a, None, format!("at-{}", t), None, None, t);
        reg.note(&a, t);
    }
    reg.note(&a, 999);
    reg.note(&a, 10);
    let log = reg.get_my_audit_log(&a).unwrap();
    let times: Vec<u64> = log.iter().map(|e| e.timestamp).collect();
    assert_eq!(times, vec![30, 20, 10, 10]);
    assert_eq!(log[0].action, "at-30");
    assert_eq!(log[3].action, "at-10");
    assert!(reg.get_my_audit_log(&who(2)).unwrap().is_empty());
}

#[test]
fn two_actions_at_one_time_share_one_entry() {
    let mut reg = Registry::new();
    let (a, b) = (who(1), who(2));
    let r1 = upload(&mut reg, &a, "one", 1, 5);
    reg.grant_access(&a, r1, &b, AccessPermission::view_only(), 5).unwrap();
    assert_eq!(reg.user(&a).unwrap().audit_pointer, vec![5, 5]);
    let log = reg.get_my_audit_log(&a).unwrap();
    assert_eq!(log.len(), 2);
    assert_eq!(log[0].action, "grant_access_to_dq6cy-eaca4-dqoai");
    assert_eq!(log[1].action, "grant_access_to_dq6cy-eaca4-dqoai");
}

#[test]
fn dashboard_counts_grantees_pointers_and_storage() {
    let mut reg = Registry::new();
    let (a, b, c) = (who(1), who(2), who(3));
    assert_eq!(reg.get_dashboard_stats(&a), Ok((0, 0, 0)));
    let r1 = upload(&mut reg, &a, "one", 100, 1);
    let r2 = upload(&mut reg, &a, "two", 250, 2);
    let f = reg.create_folder(&a, "dir".to_string(), None, 3).unwrap();
    assert_eq!(reg.get_dashboard_stats(&a), Ok((0, 3, 350)));
    reg.grant_access(&a, r1.clone(), &b, AccessPermission::view_only(), 4).unwrap();
    reg.grant_access(&a, r2.clone(), &b, AccessPermission::view_only(), 5).unwrap();
    reg.grant_access(&a, r2.clone(), &c, AccessPermission::view_only(), 6).unwrap();
    reg.grant_access(&a, f.clone(), &c, AccessPermission::view_only(), 7).unwrap();
    reg.grant_access(&a, f.clone(), &a, AccessPermission::view_only(), 8).unwrap();
    assert_eq!(reg.get_dashboard_stats(&a), Ok((2, 8, 350)));
    reg.submit_for_research(&a, r1.clone(), 9).unwrap();
    assert_eq!(reg.get_dashboard_stats(&a), Ok((3, 9, 350)));
    reg.revoke_access(&a, r2.clone(), &c, 10).unwrap();
    reg.revoke_access(&a, f.clone(), &c, 11).unwrap();
    assert_eq!(reg.get_dashboard_stats(&a), Ok((2, 11, 350)));
    assert_eq!(reg.get_dashboard_stats(&b), Ok((0, 0, 0)));
}

#[test]
fn dashboard_storage_wraps_around() {
    let mut reg = Registry::new();
    let a = who(1);
    upload(&mut reg, &a, "one", u64::MAX, 1);
    upload(&mut reg, &a, "two", 5, 2);
    assert_eq!(reg.get_dashboard_stats(&a), Ok((0, 2, 4)));
}

#[test]
fn active_shares_are_sorted_by_the_name_of_the_grantee() {
    let mut reg = Registry::new();
    let (a, b, c, d) = (who(1), who(2), who(3), who(4));
    let r1 = upload(&mut reg, &a, "one", 1, 1);
    let r2 = upload(&mut reg, &a, "two", 1, 2);
    reg.update_user_name(&b, "zoe".to_string(), 3).unwrap();
    reg.update_user_name(&c, "Adam".to_string(), 4).unwrap();
    reg.grant_access(&a, r1.clone(), &b, AccessPermission::view_only(), 5).unwrap();
    reg.grant_access(&a, r1.clone(), &c, AccessPermission::full(), 6).unwrap();
    reg.grant_access(&a, r2.clone(), &d, AccessPermission::view_only(), 7).unwrap();
    reg.grant_access(&a, r2.clone(), &b, AccessPermission::research(), 8).unwrap();
    let shares = reg.get_my_active_shares(&a).unwrap();
    let names: Vec<Option<String>> = shares.iter().map(|s| s.grantee_name.clone()).collect();
    assert_eq!(
        names,
        vec![None, Some("Adam".to_string()), Some("zoe".to_string()), Some("zoe".to_string())]
    );
    assert_eq!(shares[0].grantee_principal, d.to_text());
    assert_eq!(shares[0].record_id, r2);
    assert_eq!(shares[0].grant_id, format!("{}:{}", r2, d.to_text()));
    assert_eq!(shares[0].record_name, Some("n".to_string()));
    assert_eq!(shares[1].permissions, AccessPermission::full());
    assert_eq!(shares[1].grant_id, format!("{}:{}", r1, c.to_text()));
    assert_eq!(shares[2].record_id, r1);
    assert_eq!(shares[3].record_id, r2);
    assert_eq!(shares[3].permissions, AccessPermission::research());
    assert!(reg.get_my_active_shares(&b).unwrap().is_empty());
    assert!(reg.get_my_active_shares(&who(9)).unwrap().is_empty());
}
