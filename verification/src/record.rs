use vstd::prelude::*;
use crate::access::{AccessList, AccessPermission};
use crate::common::{copy_list, copy_opt, copy_plain, opt_view, views, Copyable};
use crate::identity::Identity;

verus! {

/// A content key wrapped for one participant. The engine stores such keys and
/// never opens them.
pub struct EncryptedKeyForPrincipal {
    pub principal_text: String,
    pub encrypted_key: Vec<u8>,
    pub expires_at: Option<u64>,
}

/// The mathematical value of a `EncryptedKeyForPrincipal`.
pub struct EncryptedKeyForPrincipalView {
    pub principal_text: Seq<char>,
    pub encrypted_key: Seq<u8>,
    pub expires_at: Option<u64>,
}

impl View for EncryptedKeyForPrincipal {
    type V = EncryptedKeyForPrincipalView;

    open spec fn view(&self) -> EncryptedKeyForPrincipalView {
        EncryptedKeyForPrincipalView {
            principal_text: self.principal_text@,
            encrypted_key: self.encrypted_key@,
            expires_at: self.expires_at,
        }
    }
}

impl Copyable for EncryptedKeyForPrincipal {
    fn duplicate(&self) -> (r: Self) {
        EncryptedKeyForPrincipal {
            principal_text: self.principal_text.clone(),
            encrypted_key: copy_plain(&self.encrypted_key),
            expires_at: self.expires_at,
        }
    }
}

/// A shareable unit held by its owner: a file, or a folder where the content
/// reference is empty.
pub struct MedicalRecord {
    pub record_id: String,
    pub owner: Identity,
    pub file_cid: String,
    pub file_name: Option<String>,
    pub file_type: String,
    pub file_size: Option<u64>,
    pub aes_key_enc_for_owner: Vec<u8>,
    pub per_principal_keys: Vec<EncryptedKeyForPrincipal>,
    pub timestamp: u64,
    pub parent_folder_id: Option<String>,
    pub tags: Vec<String>,
    pub references: Vec<String>,
    pub derived_artifacts: Vec<String>,
    pub metadata_completeness_score: u8,
    pub uses_standard_codes: bool,
    pub plausibility_flags: Vec<String>,
    pub access_list: AccessList,
    pub latest_version_id: Option<String>,
    pub is_anonymized: bool,
}

/// The mathematical value of a `MedicalRecord`.
pub struct MedicalRecordView {
    pub record_id: Seq<char>,
    pub owner: Seq<u8>,
    pub file_cid: Seq<char>,
    pub file_name: Option<Seq<char>>,
    pub file_type: Seq<char>,
    pub file_size: Option<u64>,
    pub aes_key_enc_for_owner: Seq<u8>,
    pub per_principal_keys: Seq<EncryptedKeyForPrincipalView>,
    pub timestamp: u64,
    pub parent_folder_id: Option<Seq<char>>,
    pub tags: Seq<Seq<char>>,
    pub references: Seq<Seq<char>>,
    pub derived_artifacts: Seq<Seq<char>>,
    pub metadata_completeness_score: u8,
    pub uses_standard_codes: bool,
    pub plausibility_flags: Seq<Seq<char>>,
    pub access_list: Map<Seq<u8>, AccessPermission>,
    pub latest_version_id: Option<Seq<char>>,
    pub is_anonymized: bool,
}

impl View for MedicalRecord {
    type V = MedicalRecordView;

    open spec fn view(&self) -> MedicalRecordView {
        MedicalRecordView {
            record_id: self.record_id@,
            owner: self.owner@,
            file_cid: self.file_cid@,
            file_name: opt_view(self.file_name),
            file_type: self.file_type@,
            file_size: self.file_size,
            aes_key_enc_for_owner: self.aes_key_enc_for_owner@,
            per_principal_keys: views(self.per_principal_keys@),
            timestamp: self.timestamp,
            parent_folder_id: opt_view(self.parent_folder_id),
            tags: views(self.tags@),
            references: views(self.references@),
            derived_artifacts: views(self.derived_artifacts@),
            metadata_completeness_score: self.metadata_completeness_score,
            uses_standard_codes: self.uses_standard_codes,
            plausibility_flags: views(self.plausibility_flags@),
            access_list: self.access_list@,
            latest_version_id: opt_view(self.latest_version_id),
            is_anonymized: self.is_anonymized,
        }
    }
}

impl Copyable for MedicalRecord {
    fn duplicate(&self) -> (r: Self) {
        MedicalRecord {
            record_id: self.record_id.clone(),
            owner: self.owner.duplicate(),
            file_cid: self.file_cid.clone(),
            file_name: copy_opt(&self.file_name),
            file_type: self.file_type.clone(),
            file_size: self.file_size,
            aes_key_enc_for_owner: copy_plain(&self.aes_key_enc_for_owner),
            per_principal_keys: copy_list(&self.per_principal_keys),
            timestamp: self.timestamp,
            parent_folder_id: copy_opt(&self.parent_folder_id),
            tags: copy_list(&self.tags),
            references: copy_list(&self.references),
            derived_artifacts: copy_list(&self.derived_artifacts),
            metadata_completeness_score: self.metadata_completeness_score,
            uses_standard_codes: self.uses_standard_codes,
            plausibility_flags: copy_list(&self.plausibility_flags),
            access_list: self.access_list.duplicate(),
            latest_version_id: copy_opt(&self.latest_version_id),
            is_anonymized: self.is_anonymized,
        }
    }
}

/// The identifiers of the records shared with one participant, in the order in
/// which they were shared.
pub struct SharedRecordIdList {
    pub record_ids: Vec<String>,
}

/// The mathematical value of a `SharedRecordIdList`.
pub struct SharedRecordIdListView {
    pub record_ids: Seq<Seq<char>>,
}

impl View for SharedRecordIdList {
    type V = SharedRecordIdListView;

    open spec fn view(&self) -> SharedRecordIdListView {
        SharedRecordIdListView {
            record_ids: views(self.record_ids@),
        }
    }
}

impl Copyable for SharedRecordIdList {
    fn duplicate(&self) -> (r: Self) {
        SharedRecordIdList {
            record_ids: copy_list(&self.record_ids),
        }
    }
}

/// A record shared with the caller, with what the directory knows of its owner.
pub struct SharedRecordInfo {
    pub record: MedicalRecord,
    pub owner_name: Option<String>,
    pub owner_is_verified: bool,
}

/// The mathematical value of a `SharedRecordInfo`.
pub struct SharedRecordInfoView {
    pub record: MedicalRecordView,
    pub owner_name: Option<Seq<char>>,
    pub owner_is_verified: bool,
}

impl View for SharedRecordInfo {
    type V = SharedRecordInfoView;

    open spec fn view(&self) -> SharedRecordInfoView {
        SharedRecordInfoView {
            record: self.record@,
            owner_name: opt_view(self.owner_name),
            owner_is_verified: self.owner_is_verified,
        }
    }
}

impl Copyable for SharedRecordInfo {
    fn duplicate(&self) -> (r: Self) {
        SharedRecordInfo {
            record: self.record.duplicate(),
            owner_name: copy_opt(&self.owner_name),
            owner_is_verified: self.owner_is_verified,
        }
    }
}

/// One grant that an owner has given on one of their records.
pub struct ActiveShare {
    pub grant_id: String,
    pub grantee_principal: String,
    pub grantee_name: Option<String>,
    pub record_id: String,
    pub record_name: Option<String>,
    pub permissions: AccessPermission,
}

/// The mathematical value of a `ActiveShare`.
pub struct ActiveShareView {
    pub grant_id: Seq<char>,
    pub grantee_principal: Seq<char>,
    pub grantee_name: Option<Seq<char>>,
    pub record_id: Seq<char>,
    pub record_name: Option<Seq<char>>,
    pub permissions: AccessPermission,
}

impl View for ActiveShare {
    type V = ActiveShareView;

    open spec fn view(&self) -> ActiveShareView {
        ActiveShareView {
            grant_id: self.grant_id@,
            grantee_principal: self.grantee_principal@,
            grantee_name: opt_view(self.grantee_name),
            record_id: self.record_id@,
            record_name: opt_view(self.record_name),
            permissions: self.permissions,
        }
    }
}

impl Copyable for ActiveShare {
    fn duplicate(&self) -> (r: Self) {
        ActiveShare {
            grant_id: self.grant_id.clone(),
            grantee_principal: self.grantee_principal.clone(),
            grantee_name: copy_opt(&self.grantee_name),
            record_id: self.record_id.clone(),
            record_name: copy_opt(&self.record_name),
            permissions: self.permissions,
        }
    }
}

/// One stored version of a record's content.
pub struct RecordVersion {
    pub version_id: String,
    pub record_id: String,
    pub file_cid: String,
    pub change_note: String,
    pub previous_version_id: Option<String>,
    pub uploader: String,
    pub timestamp: u64,
}

/// A grant as it is shown to its owner.
pub struct AccessGrant {
    pub principal_text: String,
    pub can_view: bool,
    pub can_edit: bool,
    pub can_share: bool,
    pub is_anonymized: bool,
    pub expires_at: Option<u64>,
    pub granted_at: u64,
    pub granted_by: String,
}

/// A consent given by an owner for a purpose.
pub struct Consent {
    pub consent_id: String,
    pub owner_principal: String,
    pub researcher_principal: Option<String>,
    pub scope: String,
    pub purpose: String,
    pub expires_at: Option<u64>,
    pub created_at: u64,
    pub consent_evidence_cid: Option<String>,
    pub revoked_at: Option<u64>,
}

/// A bundle of records handed to research.
pub struct ResearchSubmission {
    pub submission_id: String,
    pub owner: String,
    pub aggregated_cid: String,
    pub researcher_principal: Option<String>,
    pub reward_amount: u128,
    pub provenance_cid: Option<String>,
    pub consent_ids: Vec<String>,
    pub created_at: u64,
}

} // verus!
