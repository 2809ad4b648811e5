use vstd::prelude::*;
use vstd::string::*;
use crate::audit::AuditLogEntry;
use crate::common::{opt_view, views, Copyable};
use crate::error::EngineError;
use crate::identity::{principal_text, Identity};
use crate::profile::{
    IdentityStatus, PrivacySettings, PrivacySettingsView, TokenBalance, User, UserProfile,
    UserProfileView, UserRole, UserView, VerificationEvidence, VerificationEvidenceView, VerifiedTier,
};
use crate::index::bytes_key_order;
use crate::registry::Registry;
use crate::state::{
    enrolled, is_bootstrap_admin, kept, logged, new_profile, noted, resolved, State,
};
use crate::text::{has_part, join, joined, lowercase, occurs_in, to_lower};

verus! {

/// Whether `caller` is the identity that is an administrator from the start.
pub fn is_bootstrap(caller: &Identity) -> (r: bool)
    ensures
        r == is_bootstrap_admin(caller@),
{
    match Identity::from_text("2yq74-dyvun-4jltq-lkpbl-jcoao-kj4pl-7qemg-sbkrs-p3neo-47oxb-mqe") {
        Ok(admin) => admin.same(caller),
        Err(_) => false,
    }
}

/// Whether `roles` holds `role`.
pub fn has_role(roles: &Vec<UserRole>, role: UserRole) -> (r: bool)
    ensures
        r == roles@.contains(role),
{
    let mut i: usize = 0;
    while i < roles.len()
        invariant
            i <= roles.len(),
            forall|j: int| 0 <= j < i ==> roles@[j] != role,
        decreases roles.len() - i,
    {
        if roles[i] == role {
            return true;
        }
        i = i + 1;
    }
    false
}

/// Whether the answer `r` is the one that `m` describes.
pub open spec fn says(r: Result<String, EngineError>, m: Result<Seq<char>, EngineError>) -> bool {
    match (r, m) {
        (Ok(text), Ok(expected)) => text@ == expected,
        (Err(e), Err(f)) => e == f,
        _ => false,
    }
}

/// Whether the display name `name` is held by someone other than `caller`.
pub open spec fn name_taken(s: State, caller: Seq<u8>, name: Seq<char>) -> bool {
    s.names.dom().contains(name) && s.names[name] != caller
}

/// The registry after `caller` has taken the display name `name`: the name
/// they held before is free, `name` points to them, and their profile shows it.
pub open spec fn renamed(s: State, caller: Seq<u8>, name: Seq<char>) -> State
    recommends
        s.users.dom().contains(caller),
{
    let u = s.users[caller];
    let released = match u.name {
        Some(old_name) => s.names.remove(old_name),
        None => s.names,
    };
    State {
        names: released.insert(name, caller),
        users: s.users.insert(caller, UserView { name: Some(name), ..u }),
        ..s
    }
}

/// What `update_user_name` does to the registry and what it answers.
pub open spec fn update_user_name_spec(s: State, caller: Seq<u8>, name: Seq<char>, now: u64) -> (
    State,
    Result<Seq<char>, EngineError>,
) {
    let s1 = enrolled(s, caller, now);
    if name.len() == 0 {
        (s1, Err(EngineError::EmptyName))
    } else if name_taken(s1, caller, name) {
        (s1, Err(EngineError::NameTaken))
    } else {
        let s2 = renamed(s1, caller, name);
        let s3 = logged(s2, caller, "update_user_name"@, None, None, None, now);
        (noted(s3, caller, now), Ok(joined("User name updated to "@, name)))
    }
}

/// What `update_profile` does to the registry and what it answers.
pub open spec fn update_profile_spec(s: State, caller: Seq<u8>, profile: UserProfileView, now: u64) -> (
    State,
    Result<Seq<char>, EngineError>,
) {
    let s1 = enrolled(s, caller, now);
    if profile.name matches Some(name) && name.len() == 0 {
        (s1, Err(EngineError::EmptyName))
    } else if profile.name matches Some(name) && name_taken(s1, caller, name) {
        (s1, Err(EngineError::NameTaken))
    } else {
        let s2 = match profile.name {
            Some(name) => renamed(s1, caller, name),
            None => s1,
        };
        let s3 = logged(s2, caller, "update_profile"@, None, None, None, now);
        let u = s3.users[caller];
        let users = s3.users.insert(
            caller,
            UserView { profile: Some(profile), audit_pointer: u.audit_pointer.push(now), ..u },
        );
        (State { users, ..s3 }, Ok("Profile updated successfully"@))
    }
}

/// What `update_settings` does to the registry.
pub open spec fn update_settings_spec(
    s: State,
    caller: Seq<u8>,
    settings: PrivacySettingsView,
    now: u64,
) -> State {
    let s1 = logged(enrolled(s, caller, now), caller, "update_settings"@, None, None, None, now);
    let u = s1.users[caller];
    let users = s1.users.insert(
        caller,
        UserView { settings, audit_pointer: u.audit_pointer.push(now), ..u },
    );
    State { users, ..s1 }
}

/// What `add_user_role` does to the registry and what it answers.
pub open spec fn add_user_role_spec(s: State, caller: Seq<u8>, role: UserRole, now: u64) -> (
    State,
    Result<Seq<char>, EngineError>,
) {
    let s1 = enrolled(s, caller, now);
    let u = s1.users[caller];
    if u.roles.contains(role) {
        (s1, Err(EngineError::RoleAlreadyPresent))
    } else {
        (
            State { users: s1.users.insert(caller, UserView { roles: u.roles.push(role), ..u }), ..s1 },
            Ok("Role added to user"@),
        )
    }
}

/// The registry after `who`, who has a profile, holds the `Admin` role.
pub open spec fn promoted(s: State, who: Seq<u8>) -> State
    recommends
        s.users.dom().contains(who),
{
    let u = s.users[who];
    if u.roles.contains(UserRole::Admin) {
        s
    } else {
        State {
            users: s.users.insert(who, UserView { roles: u.roles.push(UserRole::Admin), ..u }),
            ..s
        }
    }
}

/// What `add_admin` does to the registry and what it answers.
pub open spec fn add_admin_spec(s: State, caller: Seq<u8>, target: Seq<u8>, now: u64) -> (
    State,
    Result<Seq<char>, EngineError>,
) {
    let s1 = enrolled(s, caller, now);
    if !s1.users[caller].roles.contains(UserRole::Admin) {
        (s1, Err(EngineError::Unauthorized))
    } else if !s1.users.dom().contains(target) {
        (s1, Err(EngineError::UserNotFound))
    } else {
        (promoted(s1, target), Ok(joined(principal_text(target), " is now an admin."@)))
    }
}

/// What `submit_identity_verification` does to the registry.
pub open spec fn submit_identity_verification_spec(
    s: State,
    caller: Seq<u8>,
    evidence_cid: Seq<char>,
    now: u64,
) -> State {
    let s1 = enrolled(s, caller, now);
    let u = s1.users[caller];
    let users = s1.users.insert(
        caller,
        UserView {
            proof_of_identity: Some(VerificationEvidenceView { evidence_cid, uploaded_at: now }),
            identity_status: IdentityStatus::Pending,
            ..u
        },
    );
    logged(
        State { users, ..s1 },
        caller,
        "submit_identity_verification"@,
        None,
        None,
        Some(evidence_cid),
        now,
    )
}

/// What `approve_identity` does to the registry and what it answers.
pub open spec fn approve_identity_spec(s: State, caller: Seq<u8>, target: Seq<u8>, now: u64) -> (
    State,
    Result<(), EngineError>,
) {
    let s1 = enrolled(s, caller, now);
    if !s1.users[caller].roles.contains(UserRole::Admin) {
        (s1, Err(EngineError::Unauthorized))
    } else if !s1.users.dom().contains(target) {
        (s1, Err(EngineError::UserNotFound))
    } else {
        let u = s1.users[target];
        let users = s1.users.insert(
            target,
            UserView {
                identity_status: IdentityStatus::Approved,
                verified_tier: VerifiedTier::Verified,
                ..u
            },
        );
        (
            logged(
                State { users, ..s1 },
                caller,
                "approve_identity"@,
                None,
                Some(principal_text(target)),
                None,
                now,
            ),
            Ok(()),
        )
    }
}

/// Whether a profile waits for its identity to be checked: evidence has been
/// handed in and the check is pending.
pub open spec fn awaits_verification(u: UserView) -> bool {
    u.identity_status == IdentityStatus::Pending && u.proof_of_identity is Some
}

/// The test `awaits_verification`.
pub open spec fn awaiting() -> spec_fn(UserView) -> bool {
    |u: UserView| awaits_verification(u)
}

/// The display name of a profile, or the empty text where it has none.
pub open spec fn shown_name(u: UserView) -> Seq<char> {
    match u.name {
        Some(name) => name,
        None => Seq::empty(),
    }
}

/// Whether a profile is a patient's and its display name holds `query`, upper
/// and lower case taken as the same.
pub open spec fn matches_patient(u: UserView, query: Seq<char>) -> bool {
    u.roles.contains(UserRole::Patient) && occurs_in(lowercase(query), lowercase(shown_name(u)))
}

/// The test `matches_patient` for `query`.
pub open spec fn matching(query: Seq<char>) -> spec_fn(UserView) -> bool {
    |u: UserView| matches_patient(u, query)
}

/// `found` holds the profiles of which `wanted` holds, in ascending order of
/// the bytes of their identities.
pub open spec fn lists_profiles(found: Seq<UserView>, s: State, wanted: spec_fn(UserView) -> bool) -> bool {
    exists|keys: Seq<Seq<u8>>| #[trigger]
        bytes_key_order(keys, s.users.dom()) && found == kept(resolved(keys, s.users), wanted)
}

/// Whether `caller` is an administrator, as their profile is or would be at
/// a first call now.
pub open spec fn is_admin(s: State, caller: Seq<u8>, now: u64) -> bool {
    enrolled(s, caller, now).users[caller].roles.contains(UserRole::Admin)
}

impl Registry {
    /// The profiles that wait for their identity to be checked. Only an
    /// administrator may ask.
    pub fn get_pending_verifications(&self, caller: &Identity, now: u64) -> (r: Result<
        Vec<User>,
        EngineError,
    >)
        requires
            self.wf(),
        ensures
            r is Ok <==> is_admin(self@, caller@, now),
            r matches Ok(found) ==> lists_profiles(views(found@), self@, awaiting()),
            r matches Err(e) ==> e == EngineError::Unauthorized,
    {
        let profile = self.profile_now(caller, now);
        if !has_role(&profile.roles, UserRole::Admin) {
            return Err(EngineError::Unauthorized);
        }
        let all = self.users_in_order();
        let ghost keys = choose|keys: Seq<Seq<u8>>| #[trigger]
            bytes_key_order(keys, self@.users.dom()) && views(all@) == resolved(keys, self@.users);
        let mut out: Vec<User> = Vec::new();
        let mut i: usize = 0;
        assert(views(all@).take(0) =~= Seq::empty());
        assert(views(out@) =~= Seq::empty());
        while i < all.len()
            invariant
                i <= all.len(),
                views(out@) == kept(views(all@).take(i as int), awaiting()),
            decreases all.len() - i,
        {
            let ghost before = views(out@);
            proof {
                let next = views(all@).take(i + 1);
                assert(next.drop_last() =~= views(all@).take(i as int));
                assert(next.last() == all@[i as int]@);
            }
            let user = all[i];
            if user.identity_status == IdentityStatus::Pending && user.proof_of_identity.is_some() {
                out.push(user.duplicate());
                assert(views(out@) =~= before.push(all@[i as int]@));
            }
            i = i + 1;
        }
        assert(views(all@).take(i as int) =~= views(all@));
        Ok(out)
    }

    /// The profiles of patients whose display name holds `query`, upper and
    /// lower case taken as the same.
    pub fn search_patients_by_name(&self, query: String) -> (r: Result<Vec<User>, EngineError>)
        requires
            self.wf(),
        ensures
            r matches Ok(found) && lists_profiles(views(found@), self@, matching(query@)),
    {
        let wanted = to_lower(query.as_str());
        let all = self.users_in_order();
        let ghost keys = choose|keys: Seq<Seq<u8>>| #[trigger]
            bytes_key_order(keys, self@.users.dom()) && views(all@) == resolved(keys, self@.users);
        let mut out: Vec<User> = Vec::new();
        let mut i: usize = 0;
        assert(views(all@).take(0) =~= Seq::empty());
        assert(views(out@) =~= Seq::empty());
        while i < all.len()
            invariant
                i <= all.len(),
                wanted@ == lowercase(query@),
                views(out@) == kept(views(all@).take(i as int), matching(query@)),
            decreases all.len() - i,
        {
            let ghost before = views(out@);
            proof {
                let next = views(all@).take(i + 1);
                assert(next.drop_last() =~= views(all@).take(i as int));
                assert(next.last() == all@[i as int]@);
            }
            let user = all[i];
            let shown = match &user.name {
                Some(name) => to_lower(name.as_str()),
                None => {
                    proof {
                        reveal_strlit("");
                        assert(""@ =~= Seq::<char>::empty());
                    }
                    to_lower("")
                },
            };
            if has_role(&user.roles, UserRole::Patient) && has_part(shown.as_str(), wanted.as_str()) {
                out.push(user.duplicate());
                assert(views(out@) =~= before.push(all@[i as int]@));
            }
            i = i + 1;
        }
        assert(views(all@).take(i as int) =~= views(all@));
        Ok(out)
    }

    /// The profile of `caller`, if they have one.
    pub fn get_user_profile(&self, caller: &Identity) -> (r: Option<User>)
        requires
            self.wf(),
        ensures
            r is Some <==> self@.users.dom().contains(caller@),
            r matches Some(u) ==> u@ == self@.users[caller@],
    {
        match self.user(caller) {
            Some(user) => Some(user.duplicate()),
            None => None,
        }
    }

    /// The profile that `caller` has, or would get at a first call now; the
    /// bootstrap administrator is shown with the `Admin` role.
    pub fn get_profile(&self, caller: &Identity, now: u64) -> (r: Result<User, EngineError>)
        requires
            self.wf(),
        ensures
            r matches Ok(u) && u@ == enrolled(self@, caller@, now).users[caller@],
    {
        Ok(self.profile_now(caller, now))
    }

    fn profile_now(&self, caller: &Identity, now: u64) -> (u: User)
        requires
            self.wf(),
        ensures
            u@ == enrolled(self@, caller@, now).users[caller@],
    {
        let admin = is_bootstrap(caller);
        match self.user(caller) {
            Some(found) => {
                let mut user = found.duplicate();
                if admin && !has_role(&user.roles, UserRole::Admin) {
                    user.roles.push(UserRole::Admin);
                }
                user
            },
            None => {
                let mut roles: Vec<UserRole> = Vec::new();
                roles.push(UserRole::Patient);
                roles.push(UserRole::Researcher);
                roles.push(UserRole::Doctor);
                if admin {
                    roles.push(UserRole::Admin);
                }
                let user = User {
                    identity: caller.duplicate(),
                    name: None,
                    created_at: now,
                    records: Vec::new(),
                    principal_text: caller.to_text(),
                    email_hash: None,
                    roles,
                    verified_tier: VerifiedTier::Basic,
                    nationality: None,
                    proof_of_identity: None,
                    identity_status: IdentityStatus::Pending,
                    profile: None,
                    verification_badge: None,
                    records_index: Vec::new(),
                    research_submissions: Vec::new(),
                    public_stats: None,
                    settings: PrivacySettings::default(),
                    tokens: TokenBalance {},
                    audit_pointer: Vec::new(),
                };
                proof {
                    assert(user@.roles =~= new_profile(caller@, now).roles);
                    assert(user@.records =~= Seq::empty());
                    assert(user@.records_index =~= Seq::empty());
                    assert(user@.research_submissions =~= Seq::empty());
                    assert(user@.audit_pointer =~= Seq::empty());
                    assert(user@ == new_profile(caller@, now));
                }
                user
            },
        }
    }

    /// Looks `caller` up, making their profile at the first call, and returns
    /// the profile.
    pub fn get_or_create_user_profile(&mut self, caller: &Identity, now: u64) -> (u: User)
        requires
            old(self).wf(),
        ensures
            final(self).wf(),
            final(self)@ == enrolled(old(self)@, caller@, now),
            u@ == final(self)@.users[caller@],
            final(self)@.users.dom().contains(caller@),
    {
        let user = self.profile_now(caller, now);
        let kept = user.duplicate();
        self.put_user(caller, user);
        assert(self@.users =~= enrolled(old(self)@, caller@, now).users);
        kept
    }

    /// Records an action of `actor` in the trail, under the identifier `now`,
    /// and returns that identifier.
    pub fn log_action(
        &mut self,
        actor: &Identity,
        record_id: Option<String>,
        action: String,
        target: Option<String>,
        meta_cid: Option<String>,
        now: u64,
    ) -> (id: u64)
        requires
            old(self).wf(),
        ensures
            final(self).wf(),
            final(self)@ == logged(
                old(self)@,
                actor@,
                action@,
                opt_view(record_id),
                opt_view(target),
                opt_view(meta_cid),
                now,
            ),
            id == now,
    {
        let entry = AuditLogEntry {
            id: now,
            actor: actor.to_text(),
            action,
            record_id,
            target,
            meta_cid,
            timestamp: now,
        };
        self.put_audit_entry(now, entry);
        now
    }

    /// Adds a pointer to the trail entry `entry` to the profile of `who`, if
    /// they have one.
    pub fn note(&mut self, who: &Identity, entry: u64)
        requires
            old(self).wf(),
        ensures
            final(self).wf(),
            final(self)@ == noted(old(self)@, who@, entry),
    {
        let found = match self.user(who) {
            Some(user) => Some(user.duplicate()),
            None => None,
        };
        match found {
            Some(mut user) => {
                user.audit_pointer.push(entry);
                self.put_user(who, user);
            },
            None => {},
        }
    }

    /// Whether the display name `name` is held by someone other than `caller`.
    fn taken(&self, caller: &Identity, name: &String) -> (r: bool)
        requires
            self.wf(),
        ensures
            r == name_taken(self@, caller@, name@),
    {
        match self.name_holder(name) {
            Some(holder) => !holder.same(caller),
            None => false,
        }
    }

    /// Gives `caller` the display name `name` and sets free the one they held.
    fn rename(&mut self, caller: &Identity, name: &String)
        requires
            old(self).wf(),
            old(self)@.users.dom().contains(caller@),
        ensures
            final(self).wf(),
            final(self)@ == renamed(old(self)@, caller@, name@),
    {
        let found = match self.user(caller) {
            Some(user) => Some(user.duplicate()),
            None => None,
        };
        match found {
            Some(mut user) => {
                match &user.name {
                    Some(old_name) => {
                        self.drop_name(old_name);
                    },
                    None => {},
                }
                self.put_name(name.clone(), caller.duplicate());
                user.name = Some(name.clone());
                self.put_user(caller, user);
            },
            None => {},
        }
    }

    /// Gives `caller` the display name `name`, unless it is empty or someone
    /// else holds it.
    pub fn update_user_name(&mut self, caller: &Identity, name: String, now: u64) -> (r: Result<
        String,
        EngineError,
    >)
        requires
            old(self).wf(),
        ensures
            final(self).wf(),
            final(self)@ == update_user_name_spec(old(self)@, caller@, name@, now).0,
            says(r, update_user_name_spec(old(self)@, caller@, name@, now).1),
    {
        let _ = self.get_or_create_user_profile(caller, now);
        if name.as_str().is_empty() {
            return Err(EngineError::EmptyName);
        }
        if self.taken(caller, &name) {
            return Err(EngineError::NameTaken);
        }
        self.rename(caller, &name);
        let entry = self.log_action(caller, None, "update_user_name".to_string(), None, None, now);
        self.note(caller, entry);
        Ok(join("User name updated to ", name.as_str()))
    }

    /// Stores what `caller` tells about themselves. Where it holds a display
    /// name, `caller` takes that name, unless it is empty or someone else
    /// holds it.
    pub fn update_profile(&mut self, caller: &Identity, profile: UserProfile, now: u64) -> (r: Result<
        String,
        EngineError,
    >)
        requires
            old(self).wf(),
        ensures
            final(self).wf(),
            final(self)@ == update_profile_spec(old(self)@, caller@, profile@, now).0,
            says(r, update_profile_spec(old(self)@, caller@, profile@, now).1),
    {
        let _ = self.get_or_create_user_profile(caller, now);
        match &profile.name {
            Some(name) => {
                if name.as_str().is_empty() {
                    return Err(EngineError::EmptyName);
                }
                if self.taken(caller, name) {
                    return Err(EngineError::NameTaken);
                }
                self.rename(caller, name);
            },
            None => {},
        }
        let entry = self.log_action(caller, None, "update_profile".to_string(), None, None, now);
        let found = match self.user(caller) {
            Some(user) => Some(user.duplicate()),
            None => None,
        };
        match found {
            Some(mut user) => {
                user.profile = Some(profile);
                user.audit_pointer.push(entry);
                self.put_user(caller, user);
            },
            None => {},
        }
        Ok("Profile updated successfully".to_string())
    }

    /// Stores the settings of `caller`.
    pub fn update_settings(&mut self, caller: &Identity, settings: PrivacySettings, now: u64) -> (r:
        Result<(), EngineError>)
        requires
            old(self).wf(),
        ensures
            final(self).wf(),
            final(self)@ == update_settings_spec(old(self)@, caller@, settings@, now),
            r is Ok,
    {
        let _ = self.get_or_create_user_profile(caller, now);
        let entry = self.log_action(caller, None, "update_settings".to_string(), None, None, now);
        let found = match self.user(caller) {
            Some(user) => Some(user.duplicate()),
            None => None,
        };
        match found {
            Some(mut user) => {
                user.settings = settings;
                user.audit_pointer.push(entry);
                self.put_user(caller, user);
            },
            None => {},
        }
        Ok(())
    }

    /// The settings of `caller`; `UserNotFound` where they have no profile.
    pub fn get_settings(&self, caller: &Identity) -> (r: Result<PrivacySettings, EngineError>)
        requires
            self.wf(),
        ensures
            r is Ok <==> self@.users.dom().contains(caller@),
            r matches Ok(settings) ==> settings@ == self@.users[caller@].settings,
            r matches Err(e) ==> e == EngineError::UserNotFound,
    {
        match self.user(caller) {
            Some(user) => Ok(user.settings.duplicate()),
            None => Err(EngineError::UserNotFound),
        }
    }

    /// The participant who holds the display name `name`; `UserNotFound` where
    /// nobody does.
    pub fn get_principal_by_name(&self, name: String) -> (r: Result<Identity, EngineError>)
        requires
            self.wf(),
        ensures
            r is Ok <==> self@.names.dom().contains(name@),
            r matches Ok(holder) ==> holder@ == self@.names[name@],
            r matches Err(e) ==> e == EngineError::UserNotFound,
    {
        match self.name_holder(&name) {
            Some(holder) => Ok(holder.duplicate()),
            None => Err(EngineError::UserNotFound),
        }
    }

    /// Adds `role` to the roles of `caller`, unless they hold it.
    pub fn add_user_role(&mut self, caller: &Identity, role: UserRole, now: u64) -> (r: Result<
        String,
        EngineError,
    >)
        requires
            old(self).wf(),
        ensures
            final(self).wf(),
            final(self)@ == add_user_role_spec(old(self)@, caller@, role, now).0,
            says(r, add_user_role_spec(old(self)@, caller@, role, now).1),
    {
        let mut user = self.get_or_create_user_profile(caller, now);
        if has_role(&user.roles, role) {
            Err(EngineError::RoleAlreadyPresent)
        } else {
            user.roles.push(role);
            self.put_user(caller, user);
            Ok("Role added to user".to_string())
        }
    }

    /// Gives `who`, who has a profile, the `Admin` role, unless they hold it.
    fn promote(&mut self, who: &Identity)
        requires
            old(self).wf(),
            old(self)@.users.dom().contains(who@),
        ensures
            final(self).wf(),
            final(self)@ == promoted(old(self)@, who@),
    {
        let found = match self.user(who) {
            Some(user) => Some(user.duplicate()),
            None => None,
        };
        match found {
            Some(mut user) => {
                if !has_role(&user.roles, UserRole::Admin) {
                    user.roles.push(UserRole::Admin);
                    self.put_user(who, user);
                }
            },
            None => {},
        }
    }

    /// Makes `target` an administrator. Only an administrator may do so, and
    /// only for a participant who has a profile.
    pub fn add_admin(&mut self, caller: &Identity, target: &Identity, now: u64) -> (r: Result<
        String,
        EngineError,
    >)
        requires
            old(self).wf(),
        ensures
            final(self).wf(),
            final(self)@ == add_admin_spec(old(self)@, caller@, target@, now).0,
            says(r, add_admin_spec(old(self)@, caller@, target@, now).1),
    {
        let profile = self.get_or_create_user_profile(caller, now);
        if !has_role(&profile.roles, UserRole::Admin) {
            return Err(EngineError::Unauthorized);
        }
        if self.user(target).is_none() {
            return Err(EngineError::UserNotFound);
        }
        self.promote(target);
        Ok(join(target.to_text().as_str(), " is now an admin."))
    }

    /// Hands in evidence for the identity of `caller`: the check starts anew,
    /// whatever its state was.
    pub fn submit_identity_verification(&mut self, caller: &Identity, evidence_cid: String, now: u64) -> (r:
        Result<(), EngineError>)
        requires
            old(self).wf(),
        ensures
            final(self).wf(),
            final(self)@ == submit_identity_verification_spec(old(self)@, caller@, evidence_cid@, now),
            r is Ok,
    {
        let mut user = self.get_or_create_user_profile(caller, now);
        user.proof_of_identity = Some(
            VerificationEvidence { evidence_cid: evidence_cid.clone(), uploaded_at: now },
        );
        user.identity_status = IdentityStatus::Pending;
        self.put_user(caller, user);
        let _ = self.log_action(
            caller,
            None,
            "submit_identity_verification".to_string(),
            None,
            Some(evidence_cid),
            now,
        );
        Ok(())
    }

    /// Confirms the identity of `target`. Only an administrator may do so, and
    /// only for a participant who has a profile.
    pub fn approve_identity(&mut self, caller: &Identity, target: &Identity, now: u64) -> (r: Result<
        (),
        EngineError,
    >)
        requires
            old(self).wf(),
        ensures
            final(self).wf(),
            final(self)@ == approve_identity_spec(old(self)@, caller@, target@, now).0,
            r == approve_identity_spec(old(self)@, caller@, target@, now).1,
    {
        let profile = self.get_or_create_user_profile(caller, now);
        if !has_role(&profile.roles, UserRole::Admin) {
            return Err(EngineError::Unauthorized);
        }
        let found = match self.user(target) {
            Some(user) => Some(user.duplicate()),
            None => None,
        };
        match found {
            Some(mut user) => {
                user.identity_status = IdentityStatus::Approved;
                user.verified_tier = VerifiedTier::Verified;
                self.put_user(target, user);
                let _ = self.log_action(
                    caller,
                    None,
                    "approve_identity".to_string(),
                    Some(target.to_text()),
                    None,
                    now,
                );
                Ok(())
            },
            None => Err(EngineError::UserNotFound),
        }
    }
}

} // verus!
