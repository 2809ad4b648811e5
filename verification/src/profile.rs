use vstd::prelude::*;
use crate::common::{copy_list, copy_opt, copy_pairs, copy_plain, opt_pair_views, opt_view, views, Copyable};
use crate::identity::Identity;

verus! {

/// A capability that a profile can hold.
#[derive(Clone, Copy, PartialEq, Eq, Debug, Structural)]
pub enum UserRole {
    Patient,
    Doctor,
    Researcher,
    Admin,
}

/// How far a profile's identity has been confirmed.
#[derive(Clone, Copy, PartialEq, Eq, Debug, Structural)]
pub enum VerifiedTier {
    Basic,
    Verified,
}

/// Where the check of a profile's identity stands.
#[derive(Clone, Copy, PartialEq, Eq, Debug, Structural)]
pub enum IdentityStatus {
    Pending,
    Approved,
    Rejected,
    Expired,
}

/// The sex that a participant states of themselves.
#[derive(Clone, Copy, PartialEq, Eq, Debug, Structural)]
pub enum Sex {
    Male,
    Female,
    Other,
}

/// The default audience of newly created records.
#[derive(Clone, Copy, PartialEq, Eq, Debug, Structural)]
pub enum SharingScope {
    Private,
    TrustedDoctors,
    PublicAnonymized,
}

impl Default for VerifiedTier {
    fn default() -> (r: Self)
        ensures
            r == VerifiedTier::Basic,
    {
        VerifiedTier::Basic
    }
}

impl Default for IdentityStatus {
    fn default() -> (r: Self)
        ensures
            r == IdentityStatus::Pending,
    {
        IdentityStatus::Pending
    }
}

/// The evidence a participant handed in to have their identity checked.
pub struct VerificationEvidence {
    pub evidence_cid: String,
    pub uploaded_at: u64,
}

/// The mathematical value of a `VerificationEvidence`.
pub struct VerificationEvidenceView {
    pub evidence_cid: Seq<char>,
    pub uploaded_at: u64,
}

impl View for VerificationEvidence {
    type V = VerificationEvidenceView;

    open spec fn view(&self) -> VerificationEvidenceView {
        VerificationEvidenceView {
            evidence_cid: self.evidence_cid@,
            uploaded_at: self.uploaded_at,
        }
    }
}

impl Copyable for VerificationEvidence {
    fn duplicate(&self) -> (r: Self) {
        VerificationEvidence {
            evidence_cid: self.evidence_cid.clone(),
            uploaded_at: self.uploaded_at,
        }
    }
}

impl Default for VerificationEvidence {
    fn default() -> (r: Self)
        ensures
            r@.evidence_cid == Seq::<char>::empty(),
            r@.uploaded_at == 0,
    {
        VerificationEvidence { evidence_cid: String::new(), uploaded_at: 0 }
    }
}

/// The privacy and notification preferences of a participant. The engine
/// stores them and reads none of them.
pub struct PrivacySettings {
    pub allow_research_use: bool,
    pub show_public_stats: bool,
    pub default_sharing_scope: Option<SharingScope>,
    pub require_manual_approval: bool,
    pub watermark_on_view: bool,
    pub auto_expire_days: Option<u32>,
    pub notify_on_access: bool,
    pub allowed_data_regions: Vec<String>,
    pub custom_prefs: Option<Vec<(String, String)>>,
    pub email_updates: bool,
    pub access_alerts: bool,
    pub security_alerts: bool,
    pub research_updates: bool,
    pub profile_visibility: String,
    pub analytics: bool,
}

/// The mathematical value of a `PrivacySettings`.
pub struct PrivacySettingsView {
    pub allow_research_use: bool,
    pub show_public_stats: bool,
    pub default_sharing_scope: Option<SharingScope>,
    pub require_manual_approval: bool,
    pub watermark_on_view: bool,
    pub auto_expire_days: Option<u32>,
    pub notify_on_access: bool,
    pub allowed_data_regions: Seq<Seq<char>>,
    pub custom_prefs: Option<Seq<(Seq<char>, Seq<char>)>>,
    pub email_updates: bool,
    pub access_alerts: bool,
    pub security_alerts: bool,
    pub research_updates: bool,
    pub profile_visibility: Seq<char>,
    pub analytics: bool,
}

impl View for PrivacySettings {
    type V = PrivacySettingsView;

    open spec fn view(&self) -> PrivacySettingsView {
        PrivacySettingsView {
            allow_research_use: self.allow_research_use,
            show_public_stats: self.show_public_stats,
            default_sharing_scope: self.default_sharing_scope,
            require_manual_approval: self.require_manual_approval,
            watermark_on_view: self.watermark_on_view,
            auto_expire_days: self.auto_expire_days,
            notify_on_access: self.notify_on_access,
            allowed_data_regions: views(self.allowed_data_regions@),
            custom_prefs: opt_pair_views(self.custom_prefs),
            email_updates: self.email_updates,
            access_alerts: self.access_alerts,
            security_alerts: self.security_alerts,
            research_updates: self.research_updates,
            profile_visibility: self.profile_visibility@,
            analytics: self.analytics,
        }
    }
}

impl Copyable for PrivacySettings {
    fn duplicate(&self) -> (r: Self) {
        PrivacySettings {
            allow_research_use: self.allow_research_use,
            show_public_stats: self.show_public_stats,
            default_sharing_scope: self.default_sharing_scope,
            require_manual_approval: self.require_manual_approval,
            watermark_on_view: self.watermark_on_view,
            auto_expire_days: self.auto_expire_days,
            notify_on_access: self.notify_on_access,
            allowed_data_regions: copy_list(&self.allowed_data_regions),
            custom_prefs: copy_pairs(&self.custom_prefs),
            email_updates: self.email_updates,
            access_alerts: self.access_alerts,
            security_alerts: self.security_alerts,
            research_updates: self.research_updates,
            profile_visibility: self.profile_visibility.clone(),
            analytics: self.analytics,
        }
    }
}

impl PrivacySettings {
    /// The settings of a new profile: nothing shared, the three alert kinds on,
    /// the profile private.
    pub open spec fn initial() -> PrivacySettingsView {
        PrivacySettingsView {
            allow_research_use: false,
            show_public_stats: false,
            default_sharing_scope: None,
            require_manual_approval: false,
            watermark_on_view: false,
            auto_expire_days: None,
            notify_on_access: false,
            allowed_data_regions: Seq::empty(),
            custom_prefs: None,
            email_updates: true,
            access_alerts: true,
            security_alerts: true,
            research_updates: false,
            profile_visibility: "private"@,
            analytics: true,
        }
    }
}

impl Default for PrivacySettings {
    fn default() -> (r: Self)
        ensures
            r@ == PrivacySettings::initial(),
    {
        let r = PrivacySettings {
            allow_research_use: false,
            show_public_stats: false,
            default_sharing_scope: None,
            require_manual_approval: false,
            watermark_on_view: false,
            auto_expire_days: None,
            notify_on_access: false,
            allowed_data_regions: Vec::new(),
            custom_prefs: None,
            email_updates: true,
            access_alerts: true,
            security_alerts: true,
            research_updates: false,
            profile_visibility: "private".to_string(),
            analytics: true,
        };
        assert(r@.allowed_data_regions =~= Seq::empty());
        r
    }
}

/// A badge that an issuer has given to a participant whose identity it
/// confirmed.
pub struct VerificationBadge {
    pub verified: bool,
    pub issuer: String,
    pub issued_at: u64,
    pub expires_at: Option<u64>,
    pub evidence_cid: Option<String>,
    pub badge_signature: Option<Vec<u8>>,
}

/// The mathematical value of a `VerificationBadge`.
pub struct VerificationBadgeView {
    pub verified: bool,
    pub issuer: Seq<char>,
    pub issued_at: u64,
    pub expires_at: Option<u64>,
    pub evidence_cid: Option<Seq<char>>,
    pub badge_signature: Option<Seq<u8>>,
}

impl View for VerificationBadge {
    type V = VerificationBadgeView;

    open spec fn view(&self) -> VerificationBadgeView {
        VerificationBadgeView {
            verified: self.verified,
            issuer: self.issuer@,
            issued_at: self.issued_at,
            expires_at: self.expires_at,
            evidence_cid: opt_view(self.evidence_cid),
            badge_signature: opt_view(self.badge_signature),
        }
    }
}

impl Copyable for VerificationBadge {
    fn duplicate(&self) -> (r: Self) {
        VerificationBadge {
            verified: self.verified,
            issuer: self.issuer.clone(),
            issued_at: self.issued_at,
            expires_at: self.expires_at,
            evidence_cid: copy_opt(&self.evidence_cid),
            badge_signature: copy_opt(&self.badge_signature),
        }
    }
}

/// What a participant lets others see of their records.
pub struct PublicStats {
    pub record_count: u32,
    pub tags: Vec<String>,
    pub region: Option<String>,
    pub age_band: Option<String>,
    pub visible: bool,
}

/// The mathematical value of a `PublicStats`.
pub struct PublicStatsView {
    pub record_count: u32,
    pub tags: Seq<Seq<char>>,
    pub region: Option<Seq<char>>,
    pub age_band: Option<Seq<char>>,
    pub visible: bool,
}

impl View for PublicStats {
    type V = PublicStatsView;

    open spec fn view(&self) -> PublicStatsView {
        PublicStatsView {
            record_count: self.record_count,
            tags: views(self.tags@),
            region: opt_view(self.region),
            age_band: opt_view(self.age_band),
            visible: self.visible,
        }
    }
}

impl Copyable for PublicStats {
    fn duplicate(&self) -> (r: Self) {
        PublicStats {
            record_count: self.record_count,
            tags: copy_list(&self.tags),
            region: copy_opt(&self.region),
            age_band: copy_opt(&self.age_band),
            visible: self.visible,
        }
    }
}

/// The token balance of a participant. The engine keeps none.
pub struct TokenBalance {}

/// The mathematical value of a `TokenBalance`.
pub struct TokenBalanceView {}

impl View for TokenBalance {
    type V = TokenBalanceView;

    open spec fn view(&self) -> TokenBalanceView {
        TokenBalanceView {}
    }
}

impl Copyable for TokenBalance {
    fn duplicate(&self) -> (r: Self) {
        TokenBalance {}
    }
}

/// What a participant tells about themselves.
pub struct UserProfile {
    pub name: Option<String>,
    pub avatar_cid: Option<String>,
    pub bio: Option<String>,
    pub phone_hash: Option<String>,
    pub email: Option<String>,
    pub age: Option<String>,
    pub sex: Option<Sex>,
    pub ethnicity: Option<String>,
    pub meta: Option<Vec<(String, String)>>,
    pub nationality: Option<String>,
}

/// The mathematical value of a `UserProfile`.
pub struct UserProfileView {
    pub name: Option<Seq<char>>,
    pub avatar_cid: Option<Seq<char>>,
    pub bio: Option<Seq<char>>,
    pub phone_hash: Option<Seq<char>>,
    pub email: Option<Seq<char>>,
    pub age: Option<Seq<char>>,
    pub sex: Option<Sex>,
    pub ethnicity: Option<Seq<char>>,
    pub meta: Option<Seq<(Seq<char>, Seq<char>)>>,
    pub nationality: Option<Seq<char>>,
}

impl View for UserProfile {
    type V = UserProfileView;

    open spec fn view(&self) -> UserProfileView {
        UserProfileView {
            name: opt_view(self.name),
            avatar_cid: opt_view(self.avatar_cid),
            bio: opt_view(self.bio),
            phone_hash: opt_view(self.phone_hash),
            email: opt_view(self.email),
            age: opt_view(self.age),
            sex: self.sex,
            ethnicity: opt_view(self.ethnicity),
            meta: opt_pair_views(self.meta),
            nationality: opt_view(self.nationality),
        }
    }
}

impl Copyable for UserProfile {
    fn duplicate(&self) -> (r: Self) {
        UserProfile {
            name: copy_opt(&self.name),
            avatar_cid: copy_opt(&self.avatar_cid),
            bio: copy_opt(&self.bio),
            phone_hash: copy_opt(&self.phone_hash),
            email: copy_opt(&self.email),
            age: copy_opt(&self.age),
            sex: self.sex,
            ethnicity: copy_opt(&self.ethnicity),
            meta: copy_pairs(&self.meta),
            nationality: copy_opt(&self.nationality),
        }
    }
}

/// The profile of one participant.
pub struct User {
    pub identity: Identity,
    pub name: Option<String>,
    pub created_at: u64,
    pub records: Vec<String>,
    pub principal_text: String,
    pub email_hash: Option<String>,
    pub roles: Vec<UserRole>,
    pub verified_tier: VerifiedTier,
    pub nationality: Option<String>,
    pub proof_of_identity: Option<VerificationEvidence>,
    pub identity_status: IdentityStatus,
    pub profile: Option<UserProfile>,
    pub verification_badge: Option<VerificationBadge>,
    pub records_index: Vec<String>,
    pub research_submissions: Vec<String>,
    pub public_stats: Option<PublicStats>,
    pub settings: PrivacySettings,
    pub tokens: TokenBalance,
    pub audit_pointer: Vec<u64>,
}

/// The mathematical value of a `User`.
pub struct UserView {
    pub identity: Seq<u8>,
    pub name: Option<Seq<char>>,
    pub created_at: u64,
    pub records: Seq<Seq<char>>,
    pub principal_text: Seq<char>,
    pub email_hash: Option<Seq<char>>,
    pub roles: Seq<UserRole>,
    pub verified_tier: VerifiedTier,
    pub nationality: Option<Seq<char>>,
    pub proof_of_identity: Option<VerificationEvidenceView>,
    pub identity_status: IdentityStatus,
    pub profile: Option<UserProfileView>,
    pub verification_badge: Option<VerificationBadgeView>,
    pub records_index: Seq<Seq<char>>,
    pub research_submissions: Seq<Seq<char>>,
    pub public_stats: Option<PublicStatsView>,
    pub settings: PrivacySettingsView,
    pub tokens: TokenBalanceView,
    pub audit_pointer: Seq<u64>,
}

impl View for User {
    type V = UserView;

    open spec fn view(&self) -> UserView {
        UserView {
            identity: self.identity@,
            name: opt_view(self.name),
            created_at: self.created_at,
            records: views(self.records@),
            principal_text: self.principal_text@,
            email_hash: opt_view(self.email_hash),
            roles: self.roles@,
            verified_tier: self.verified_tier,
            nationality: opt_view(self.nationality),
            proof_of_identity: opt_view(self.proof_of_identity),
            identity_status: self.identity_status,
            profile: opt_view(self.profile),
            verification_badge: opt_view(self.verification_badge),
            records_index: views(self.records_index@),
            research_submissions: views(self.research_submissions@),
            public_stats: opt_view(self.public_stats),
            settings: self.settings@,
            tokens: self.tokens@,
            audit_pointer: self.audit_pointer@,
        }
    }
}

impl Copyable for User {
    fn duplicate(&self) -> (r: Self) {
        User {
            identity: self.identity.duplicate(),
            name: copy_opt(&self.name),
            created_at: self.created_at,
            records: copy_list(&self.records),
            principal_text: self.principal_text.clone(),
            email_hash: copy_opt(&self.email_hash),
            roles: copy_plain(&self.roles),
            verified_tier: self.verified_tier,
            nationality: copy_opt(&self.nationality),
            proof_of_identity: copy_opt(&self.proof_of_identity),
            identity_status: self.identity_status,
            profile: copy_opt(&self.profile),
            verification_badge: copy_opt(&self.verification_badge),
            records_index: copy_list(&self.records_index),
            research_submissions: copy_list(&self.research_submissions),
            public_stats: copy_opt(&self.public_stats),
            settings: self.settings.duplicate(),
            tokens: self.tokens.duplicate(),
            audit_pointer: copy_plain(&self.audit_pointer),
        }
    }
}

} // verus!
