use vstd::prelude::*;
use vstd::string::*;

verus! {

/// The four classes into which every failure of the engine falls.
#[derive(Clone, Copy, PartialEq, Eq, Debug, Structural)]
pub enum ErrorKind {
    NotFound,
    Unauthorized,
    Conflict,
    InvalidInput,
}

/// Why an operation of the engine was refused.
#[derive(Clone, Copy, PartialEq, Eq, Debug, Structural)]
pub enum EngineError {
    RecordNotFound,
    RequestNotFound,
    UserNotFound,
    NotOwner,
    Unauthorized,
    NameTaken,
    RoleAlreadyPresent,
    EmptyName,
    InvalidPrincipal,
}

impl EngineError {
    /// The class of this failure.
    pub open spec fn kind_of(self) -> ErrorKind {
        match self {
            EngineError::RecordNotFound => ErrorKind::NotFound,
            EngineError::RequestNotFound => ErrorKind::NotFound,
            EngineError::UserNotFound => ErrorKind::NotFound,
            EngineError::NotOwner => ErrorKind::Unauthorized,
            EngineError::Unauthorized => ErrorKind::Unauthorized,
            EngineError::NameTaken => ErrorKind::Conflict,
            EngineError::RoleAlreadyPresent => ErrorKind::Conflict,
            EngineError::EmptyName => ErrorKind::InvalidInput,
            EngineError::InvalidPrincipal => ErrorKind::InvalidInput,
        }
    }

    /// The text shown to a caller for this failure.
    pub open spec fn message_of(self) -> Seq<char> {
        match self {
            EngineError::RecordNotFound => "Record not found"@,
            EngineError::RequestNotFound => "Request not found"@,
            EngineError::UserNotFound => "User not found"@,
            EngineError::NotOwner => "Record not owned by caller"@,
            EngineError::Unauthorized => "You are not authorized to perform this action."@,
            EngineError::NameTaken => "This display name is already taken."@,
            EngineError::RoleAlreadyPresent => "User already has this role"@,
            EngineError::EmptyName => "Display name cannot be empty."@,
            EngineError::InvalidPrincipal => "Invalid principal"@,
        }
    }

    /// The class of this failure.
    pub fn kind(&self) -> (k: ErrorKind)
        ensures
            k == self.kind_of(),
    {
        match self {
            EngineError::RecordNotFound => ErrorKind::NotFound,
            EngineError::RequestNotFound => ErrorKind::NotFound,
            EngineError::UserNotFound => ErrorKind::NotFound,
            EngineError::NotOwner => ErrorKind::Unauthorized,
            EngineError::Unauthorized => ErrorKind::Unauthorized,
            EngineError::NameTaken => ErrorKind::Conflict,
            EngineError::RoleAlreadyPresent => ErrorKind::Conflict,
            EngineError::EmptyName => ErrorKind::InvalidInput,
            EngineError::InvalidPrincipal => ErrorKind::InvalidInput,
        }
    }

    /// The text shown to a caller for this failure.
    pub fn message(&self) -> (s: String)
        ensures
            s@ == self.message_of(),
    {
        let text: &'static str = match self {
            EngineError::RecordNotFound => "Record not found",
            EngineError::RequestNotFound => "Request not found",
            EngineError::UserNotFound => "User not found",
            EngineError::NotOwner => "Record not owned by caller",
            EngineError::Unauthorized => "You are not authorized to perform this action.",
            EngineError::NameTaken => "This display name is already taken.",
            EngineError::RoleAlreadyPresent => "User already has this role",
            EngineError::EmptyName => "Display name cannot be empty.",
            EngineError::InvalidPrincipal => "Invalid principal",
        };
        String::from_str(text)
    }
}

} // verus!
