use hospital_chain::access::AccessPermission;
use hospital_chain::identity::Identity;
use hospital_chain::registry::Registry;

fn who(n: u8) -> Identity {
    Identity::from_bytes(vec![n, 7, 7, 7, 1]).unwrap()
}

#[test]
fn upload_derives_the_identifier_from_content_and_time() {
    let mut reg = Registry::new();
    let a = who(1);
    let id = reg
        .upload_record(&a, "bafy-one".to_string(), "application/pdf".to_string(), "scan.pdf".to_string(), Some("dir".to_string()), 1200, 10)
        .unwrap();
    assert_eq!(id, "5fea5a2c38eebea356a2b6ea6d7be13ab6a5e9ad802296688ce8f20d852b95bf");
    let rec = reg.record(&id).unwrap();
    assert_eq!(rec.record_id, id);
    assert!(rec.owner.same(&a));
    assert_eq!(rec.file_cid, "bafy-one");
    assert_eq!(rec.file_type, "application/pdf");
    assert_eq!(rec.file_name, Some("scan.pdf".to_string()));
    assert_eq!(rec.file_size, Some(1200));
    assert_eq!(rec.parent_folder_id, Some("dir".to_string()));
    assert_eq!(rec.timestamp, 10);
    assert_eq!(rec.access_list.len(), 1);
    assert_eq!(rec.access_list.get(&a), Some(AccessPermission::full()));
    assert!(rec.tags.is_empty() && rec.references.is_empty() && rec.derived_artifacts.is_empty());
    assert!(rec.plausibility_flags.is_empty() && rec.per_principal_keys.is_empty());
    assert!(rec.aes_key_enc_for_owner.is_empty());
    assert_eq!(rec.metadata_completeness_score, 0);
    assert!(!rec.uses_standard_codes && !rec.is_anonymized);
    assert_eq!(rec.latest_version_id, None);
    let user = reg.user(&a).unwrap();
    assert_eq!(user.records, vec![id.clone()]);
    assert_eq!(user.audit_pointer, vec![10]);
    let entry = reg.audit_entry(10).unwrap();
    assert_eq!(entry.action, "upload");
    assert_eq!(entry.record_id, Some(id));
    assert_eq!(entry.meta_cid, Some("bafy-one".to_string()));
    assert_eq!(entry.target, None);
    assert_eq!(entry.actor, "loofn-qaba4-dqoai");
}

#[test]
fn folder_derives_the_identifier_from_caller_and_time() {
    let mut reg = Registry::new();
    let a = who(1);
    let id = reg.create_folder(&a, "scans".to_string(), None, 10).unwrap();
    assert_eq!(id, "2a5c28dad93482392016d4b482b5ee58db588db62d3d8152a723e9e14d33f07e");
    let rec = reg.record(&id).unwrap();
    assert_eq!(rec.file_cid, "");
    assert_eq!(rec.file_type, "folder");
    assert_eq!(rec.file_name, Some("scans".to_string()));
    assert_eq!(rec.file_size, None);
    assert_eq!(rec.parent_folder_id, None);
    assert_eq!(rec.access_list.len(), 0);
    assert_eq!(rec.timestamp, 10);
    let entry = reg.audit_entry(10).unwrap();
    assert_eq!(entry.action, "create_folder");
    assert_eq!(entry.meta_cid, None);
    assert_eq!(reg.user(&a).unwrap().records, vec![id]);
}

#[test]
fn same_content_at_another_time_is_another_record() {
    let mut reg = Registry::new();
    let a = who(1);
    let x = reg.upload_record(&a, "c".to_string(), "t".to_string(), "n".to_string(), None, 1, 1).unwrap();
    let y = reg.upload_record(&a, "c".to_string(), "t".to_string(), "n".to_string(), None, 1, 2).unwrap();
    assert_ne!(x, y);
    let owned = reg.get_my_records(&a).unwrap();
    assert_eq!(owned.len(), 2);
    assert_eq!(owned[0].record_id, x);
    assert_eq!(owned[1].record_id, y);
}

#[test]
fn child_record_names_its_folder() {
    let mut reg = Registry::new();
    let a = who(1);
    let folder = reg.create_folder(&a, "scans".to_string(), None, 1).unwrap();
    let child = reg
        .upload_record(&a, "c".to_string(), "t".to_string(), "n".to_string(), Some(folder.clone()), 5, 2)
        .unwrap();
    assert_eq!(reg.record(&child).unwrap().parent_folder_id, Some(folder));
}

#[test]
fn stranger_owns_nothing() {
    let reg = Registry::new();
    let a = who(1);
    assert!(reg.get_my_records(&a).unwrap().is_empty());
    assert!(reg.shared_with_me(&a).unwrap().is_empty());
    assert!(reg.user(&a).is_none());
    assert!(reg.record(&"x".to_string()).is_none());
}

#[test]
fn shared_records_show_the_owner() {
    let mut reg = Registry::new();
    let (a, b, admin) = (who(1), who(2), Identity::from_text("2yq74-dyvun-4jltq-lkpbl-jcoao-kj4pl-7qemg-sbkrs-p3neo-47oxb-mqe").unwrap());
    let r1 = reg.upload_record(&a, "one".to_string(), "t".to_string(), "n".to_string(), None, 1, 1).unwrap();
    let r2 = reg.upload_record(&a, "two".to_string(), "t".to_string(), "n".to_string(), None, 1, 2).unwrap();
    reg.grant_access(&a, r2.clone(), &b, AccessPermission::view_only(), 3).unwrap();
    reg.grant_access(&a, r1.clone(), &b, AccessPermission::view_only(), 4).unwrap();
    let seen = reg.shared_with_me(&b).unwrap();
    assert_eq!(seen.len(), 2);
    assert_eq!(seen[0].record.record_id, r2);
    assert_eq!(seen[1].record.record_id, r1);
    assert_eq!(seen[0].owner_name, None);
    assert!(!seen[0].owner_is_verified);
    reg.update_user_name(&a, "alice".to_string(), 5).unwrap();
    reg.approve_identity(&admin, &a, 6).unwrap();
    let seen = reg.shared_with_me(&b).unwrap();
    assert_eq!(seen[0].owner_name, Some("alice".to_string()));
    assert!(seen[0].owner_is_verified);
    assert!(seen[1].owner_is_verified);
}

#[test]
fn storing_under_a_used_identifier_replaces_the_record() {
    let mut reg = Registry::new();
    let (a, b) = (who(1), who(2));
    let id = reg.store_file(&a, "fixed".to_string(), "c1".to_string(), "t".to_string(), "n1".to_string(), None, 1, 1);
    assert_eq!(id, "fixed");
    reg.store_folder(&b, "fixed".to_string(), "dir".to_string(), None, 2);
    let rec = reg.record(&id).unwrap();
    assert!(rec.owner.same(&b));
    assert_eq!(rec.file_type, "folder");
    assert_eq!(rec.access_list.len(), 0);
    assert!(reg.user(&a).is_none());
    assert!(reg.user(&b).is_none());
    assert_eq!(reg.audit_entry(2).unwrap().action, "create_folder");
}
