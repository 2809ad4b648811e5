use hospital_chain::error::{EngineError, ErrorKind};
use hospital_chain::identity::Identity;
use hospital_chain::profile::{
    IdentityStatus, PrivacySettings, SharingScope, UserProfile, UserRole, VerificationEvidence,
    VerifiedTier,
};
use hospital_chain::registry::Registry;

const ADMIN: &str = "2yq74-dyvun-4jltq-lkpbl-jcoao-kj4pl-7qemg-sbkrs-p3neo-47oxb-mqe";

fn who(n: u8) -> Identity {
    Identity::from_bytes(vec![n, 7, 7, 7, 1]).unwrap()
}

fn admin() -> Identity {
    Identity::from_text(ADMIN).unwrap()
}

fn bare_profile(name: Option<&str>) -> UserProfile {
    UserProfile {
        name: name.map(|n| n.to_string()),
        avatar_cid: None,
        bio: Some("hello".to_string()),
        phone_hash: None,
        email: None,
        age: None,
        sex: None,
        ethnicity: None,
        meta: Some(vec![("k".to_string(), "v".to_string())]),
        nationality: None,
    }
}

#[test]
fn first_call_makes_the_profile() {
    let mut reg = Registry::new();
    let a = who(1);
    assert!(reg.get_user_profile(&a).is_none());
    let u = reg.get_or_create_user_profile(&a, 42);
    assert!(u.identity.same(&a));
    assert_eq!(u.principal_text, "loofn-qaba4-dqoai");
    assert_eq!(u.name, None);
    assert_eq!(u.created_at, 42);
    assert_eq!(u.roles, vec![UserRole::Patient, UserRole::Researcher, UserRole::Doctor]);
    assert_eq!(u.verified_tier, VerifiedTier::Basic);
    assert_eq!(u.identity_status, IdentityStatus::Pending);
    assert!(u.records.is_empty() && u.audit_pointer.is_empty());
    assert!(u.proof_of_identity.is_none() && u.profile.is_none());
    assert!(u.verification_badge.is_none() && u.public_stats.is_none());
    assert!(u.email_hash.is_none() && u.nationality.is_none());
    assert!(u.records_index.is_empty() && u.research_submissions.is_empty());
    assert!(u.settings.email_updates && u.settings.access_alerts && u.settings.security_alerts);
    assert!(!u.settings.research_updates && u.settings.analytics);
    assert_eq!(u.settings.profile_visibility, "private");
    let again = reg.get_or_create_user_profile(&a, 99);
    assert_eq!(again.created_at, 42);
    assert_eq!(again.roles.len(), 3);
    assert_eq!(reg.get_user_profile(&a).unwrap().created_at, 42);
}

#[test]
fn profile_can_be_read_without_being_made() {
    let reg = Registry::new();
    let a = who(1);
    let u = reg.get_profile(&a, 7).unwrap();
    assert_eq!(u.created_at, 7);
    assert_eq!(u.roles.len(), 3);
    assert!(reg.user(&a).is_none());
}

#[test]
fn bootstrap_identity_is_an_administrator() {
    let mut reg = Registry::new();
    let u = reg.get_or_create_user_profile(&admin(), 1);
    assert_eq!(
        u.roles,
        vec![UserRole::Patient, UserRole::Researcher, UserRole::Doctor, UserRole::Admin]
    );
}

#[test]
fn rename_moves_the_name() {
    let mut reg = Registry::new();
    let a = who(1);
    assert_eq!(reg.update_user_name(&a, "alice".to_string(), 1), Ok("User name updated to alice".to_string()));
    assert!(reg.get_principal_by_name("alice".to_string()).unwrap().same(&a));
    assert_eq!(reg.update_user_name(&a, "alicia".to_string(), 2), Ok("User name updated to alicia".to_string()));
    assert_eq!(reg.get_principal_by_name("alice".to_string()).err(), Some(EngineError::UserNotFound));
    assert!(reg.get_principal_by_name("alicia".to_string()).unwrap().same(&a));
    let u = reg.user(&a).unwrap();
    assert_eq!(u.name, Some("alicia".to_string()));
    assert_eq!(u.audit_pointer, vec![1, 2]);
    assert_eq!(reg.audit_entry(2).unwrap().action, "update_user_name");
}

#[test]
fn renaming_to_the_same_name_twice_succeeds_twice() {
    let mut reg = Registry::new();
    let a = who(1);
    assert!(reg.update_user_name(&a, "alice".to_string(), 1).is_ok());
    assert!(reg.update_user_name(&a, "alice".to_string(), 2).is_ok());
    assert!(reg.get_principal_by_name("alice".to_string()).unwrap().same(&a));
    assert_eq!(reg.user(&a).unwrap().name, Some("alice".to_string()));
}

#[test]
fn name_and_profile_agree() {
    let mut reg = Registry::new();
    let (a, b) = (who(1), who(2));
    reg.update_user_name(&a, "alice".to_string(), 1).unwrap();
    reg.update_user_name(&b, "bob".to_string(), 2).unwrap();
    assert_eq!(reg.update_user_name(&b, "alice".to_string(), 3), Err(EngineError::NameTaken));
    reg.update_user_name(&a, "ally".to_string(), 4).unwrap();
    reg.update_user_name(&b, "alice".to_string(), 5).unwrap();
    for (name, holder) in [("ally", &a), ("alice", &b)] {
        assert!(reg.get_principal_by_name(name.to_string()).unwrap().same(holder));
        assert_eq!(reg.user(holder).unwrap().name, Some(name.to_string()));
    }
    assert!(reg.get_principal_by_name("bob".to_string()).is_err());
}

#[test]
fn empty_name_is_refused() {
    let mut reg = Registry::new();
    let a = who(1);
    let r = reg.update_user_name(&a, "".to_string(), 1);
    assert_eq!(r, Err(EngineError::EmptyName));
    assert_eq!(r.unwrap_err().kind(), ErrorKind::InvalidInput);
    assert_eq!(reg.update_profile(&a, bare_profile(Some("")), 2), Err(EngineError::EmptyName));
    assert_eq!(reg.user(&a).unwrap().name, None);
    assert!(reg.user(&a).unwrap().audit_pointer.is_empty());
}

#[test]
fn profile_update_takes_the_name_too() {
    let mut reg = Registry::new();
    let (a, b) = (who(1), who(2));
    assert_eq!(reg.update_profile(&a, bare_profile(Some("alice")), 1), Ok("Profile updated successfully".to_string()));
    assert!(reg.get_principal_by_name("alice".to_string()).unwrap().same(&a));
    assert_eq!(reg.update_profile(&b, bare_profile(Some("alice")), 2), Err(EngineError::NameTaken));
    assert!(reg.user(&b).unwrap().profile.is_none());
    assert_eq!(reg.update_profile(&b, bare_profile(None), 3), Ok("Profile updated successfully".to_string()));
    let u = reg.user(&b).unwrap();
    assert_eq!(u.name, None);
    assert_eq!(u.profile.as_ref().unwrap().bio, Some("hello".to_string()));
    assert_eq!(u.profile.as_ref().unwrap().meta, Some(vec![("k".to_string(), "v".to_string())]));
    assert_eq!(u.audit_pointer, vec![3]);
    assert_eq!(reg.audit_entry(3).unwrap().action, "update_profile");
    assert_eq!(reg.update_profile(&a, bare_profile(Some("alice")), 4), Ok("Profile updated successfully".to_string()));
    assert_eq!(reg.user(&a).unwrap().name, Some("alice".to_string()));
}

#[test]
fn roles_are_added_once() {
    let mut reg = Registry::new();
    let a = who(1);
    let r = reg.add_user_role(&a, UserRole::Patient, 1);
    assert_eq!(r, Err(EngineError::RoleAlreadyPresent));
    assert_eq!(r.unwrap_err().kind(), ErrorKind::Conflict);
    assert_eq!(reg.add_user_role(&a, UserRole::Admin, 2), Ok("Role added to user".to_string()));
    assert_eq!(reg.add_user_role(&a, UserRole::Admin, 3), Err(EngineError::RoleAlreadyPresent));
    assert_eq!(
        reg.user(&a).unwrap().roles,
        vec![UserRole::Patient, UserRole::Researcher, UserRole::Doctor, UserRole::Admin]
    );
}

#[test]
fn only_an_administrator_promotes() {
    let mut reg = Registry::new();
    let (a, b) = (who(1), who(2));
    reg.get_or_create_user_profile(&b, 1);
    let r = reg.add_admin(&a, &b, 2);
    assert_eq!(r, Err(EngineError::Unauthorized));
    assert_eq!(r.unwrap_err().kind(), ErrorKind::Unauthorized);
    let r = reg.add_admin(&admin(), &who(9), 3);
    assert_eq!(r, Err(EngineError::UserNotFound));
    assert_eq!(r.unwrap_err().kind(), ErrorKind::NotFound);
    assert_eq!(reg.add_admin(&admin(), &b, 4), Ok("dq6cy-eaca4-dqoai is now an admin.".to_string()));
    assert_eq!(reg.user(&b).unwrap().roles.len(), 4);
    assert_eq!(reg.add_admin(&admin(), &b, 5), Ok("dq6cy-eaca4-dqoai is now an admin.".to_string()));
    assert_eq!(reg.user(&b).unwrap().roles.len(), 4);
    assert_eq!(reg.add_admin(&b, &b, 6), Ok("dq6cy-eaca4-dqoai is now an admin.".to_string()));
}

#[test]
fn settings_are_stored() {
    let mut reg = Registry::new();
    let a = who(1);
    assert_eq!(reg.get_settings(&a).err(), Some(EngineError::UserNotFound));
    let mut settings = PrivacySettings::default();
    settings.allow_research_use = true;
    settings.default_sharing_scope = Some(SharingScope::TrustedDoctors);
    settings.auto_expire_days = Some(30);
    settings.allowed_data_regions = vec!["IN".to_string(), "EU".to_string()];
    settings.custom_prefs = Some(vec![("theme".to_string(), "dark".to_string())]);
    settings.profile_visibility = "public".to_string();
    assert_eq!(reg.update_settings(&a, settings, 5), Ok(()));
    let got = reg.get_settings(&a).unwrap();
    assert!(got.allow_research_use);
    assert_eq!(got.default_sharing_scope, Some(SharingScope::TrustedDoctors));
    assert_eq!(got.auto_expire_days, Some(30));
    assert_eq!(got.allowed_data_regions, vec!["IN".to_string(), "EU".to_string()]);
    assert_eq!(got.custom_prefs, Some(vec![("theme".to_string(), "dark".to_string())]));
    assert_eq!(got.profile_visibility, "public");
    assert_eq!(reg.user(&a).unwrap().audit_pointer, vec![5]);
    assert_eq!(reg.audit_entry(5).unwrap().action, "update_settings");
}

#[test]
fn default_settings_and_evidence() {
    let s = PrivacySettings::default();
    assert!(!s.allow_research_use && !s.show_public_stats && !s.require_manual_approval);
    assert!(!s.watermark_on_view && !s.notify_on_access && !s.research_updates);
    assert!(s.email_updates && s.access_alerts && s.security_alerts && s.analytics);
    assert_eq!(s.default_sharing_scope, None);
    assert_eq!(s.auto_expire_days, None);
    assert!(s.allowed_data_regions.is_empty());
    assert_eq!(s.custom_prefs, None);
    assert_eq!(s.profile_visibility, "private");
    let e = VerificationEvidence::default();
    assert_eq!(e.evidence_cid, "");
    assert_eq!(e.uploaded_at, 0);
    assert_eq!(VerifiedTier::default(), VerifiedTier::Basic);
    assert_eq!(IdentityStatus::default(), IdentityStatus::Pending);
}

#[test]
fn verification_is_submitted_and_approved() {
    let mut reg = Registry::new();
    let (a, b) = (who(1), who(2));
    assert_eq!(reg.submit_identity_verification(&a, "cid-1".to_string(), 10), Ok(()));
    let u = reg.user(&a).unwrap();
    assert_eq!(u.identity_status, IdentityStatus::Pending);
    assert_eq!(u.proof_of_identity.as_ref().unwrap().evidence_cid, "cid-1");
    assert_eq!(u.proof_of_identity.as_ref().unwrap().uploaded_at, 10);
    assert!(u.audit_pointer.is_empty());
    assert_eq!(reg.audit_entry(10).unwrap().action, "submit_identity_verification");
    assert_eq!(reg.audit_entry(10).unwrap().meta_cid, Some("cid-1".to_string()));
    assert_eq!(reg.approve_identity(&b, &a, 11), Err(EngineError::Unauthorized));
    assert_eq!(reg.approve_identity(&admin(), &who(9), 12), Err(EngineError::UserNotFound));
    assert_eq!(reg.approve_identity(&admin(), &a, 13), Ok(()));
    let u = reg.user(&a).unwrap();
    assert_eq!(u.identity_status, IdentityStatus::Approved);
    assert_eq!(u.verified_tier, VerifiedTier::Verified);
    assert_eq!(reg.audit_entry(13).unwrap().action, "approve_identity");
    assert_eq!(reg.audit_entry(13).unwrap().target, Some("loofn-qaba4-dqoai".to_string()));
    assert_eq!(reg.audit_entry(13).unwrap().actor, ADMIN);
    assert_eq!(reg.submit_identity_verification(&a, "cid-2".to_string(), 14), Ok(()));
    let u = reg.user(&a).unwrap();
    assert_eq!(u.identity_status, IdentityStatus::Pending);
    assert_eq!(u.proof_of_identity.as_ref().unwrap().evidence_cid, "cid-2");
    assert_eq!(u.verified_tier, VerifiedTier::Verified);
}

#[test]
fn pending_verifications_are_for_administrators() {
    let mut reg = Registry::new();
    let (a, b, c) = (who(3), who(1), who(2));
    reg.submit_identity_verification(&a, "cid-a".to_string(), 1).unwrap();
    reg.submit_identity_verification(&b, "cid-b".to_string(), 2).unwrap();
    reg.get_or_create_user_profile(&c, 3);
    assert_eq!(reg.get_pending_verifications(&c, 4).err(), Some(EngineError::Unauthorized));
    let found = reg.get_pending_verifications(&admin(), 5).unwrap();
    assert_eq!(found.len(), 2);
    assert!(found[0].identity.same(&b));
    assert!(found[1].identity.same(&a));
    reg.approve_identity(&admin(), &b, 6).unwrap();
    let found = reg.get_pending_verifications(&admin(), 7).unwrap();
    assert_eq!(found.len(), 1);
    assert!(found[0].identity.same(&a));
}

#[test]
fn patients_are_found_by_part_of_their_name() {
    let mut reg = Registry::new();
    let (a, b, c, d) = (who(4), who(1), who(2), who(3));
    reg.update_user_name(&a, "Alice Smith".to_string(), 1).unwrap();
    reg.update_user_name(&b, "Bob SMITHSON".to_string(), 2).unwrap();
    reg.update_user_name(&c, "Carol".to_string(), 3).unwrap();
    reg.get_or_create_user_profile(&d, 4);
    let found = reg.search_patients_by_name("smith".to_string()).unwrap();
    assert_eq!(found.len(), 2);
    assert!(found[0].identity.same(&b));
    assert!(found[1].identity.same(&a));
    assert_eq!(reg.search_patients_by_name("SMITHS".to_string()).unwrap().len(), 1);
    assert_eq!(reg.search_patients_by_name("zed".to_string()).unwrap().len(), 0);
    assert_eq!(reg.search_patients_by_name("".to_string()).unwrap().len(), 4);
}
