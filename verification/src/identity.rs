use vstd::prelude::*;
use vstd::string::*;
use candid::types::principal::PrincipalError;
use candid::Principal;
use crate::common::{copy_plain, Copyable};
use crate::error::EngineError;

verus! {

/// `PrincipalError` of `candid`: why a text denotes no identity. Nothing is
/// read from it.
#[verifier::external_type_specification]
#[verifier::external_body]
pub struct ExPrincipalError(PrincipalError);

/// The most bytes an identity can hold.
pub const MAX_IDENTITY_BYTES: usize = 29;

/// The textual form of the identity with the given bytes.
pub uninterp spec fn principal_text(bytes: Seq<u8>) -> Seq<char>;

/// The bytes of the identity that a text denotes, if it denotes one.
pub uninterp spec fn principal_parse(text: Seq<char>) -> Option<Seq<u8>>;

/// `Principal::from_slice` followed by `Principal::to_text`, of `candid`: the
/// result is the textual form of the identity. Parsing that text with
/// `Principal::from_text` gives the same bytes back, since `from_text` decodes
/// the text, checks the checksum and compares the re-printed identity with
/// its input. `from_slice` panics above 29 bytes, which `requires` leaves out.
#[verifier::external_body]
fn text_of_bytes(bytes: &[u8]) -> (text: String)
    requires
        bytes@.len() <= MAX_IDENTITY_BYTES,
    ensures
        text@ == principal_text(bytes@),
        principal_parse(text@) == Some(bytes@),
{
    Principal::from_slice(bytes).to_text()
}

/// `Principal::from_text` of `candid`: the bytes of the identity that `text`
/// denotes, at most 29 of them, or the crate's error where it denotes none.
#[verifier::external_body]
fn bytes_of_text(text: &str) -> (r: Result<Vec<u8>, PrincipalError>)
    ensures
        r matches Ok(bytes) ==> principal_parse(text@) == Some(bytes@) && bytes@.len()
            <= MAX_IDENTITY_BYTES,
        r is Err ==> principal_parse(text@) is None,
{
    match Principal::from_text(text) {
        Ok(p) => Ok(p.as_slice().to_vec()),
        Err(e) => Err(e),
    }
}

/// An opaque token that names a participant: at most 29 bytes.
pub struct Identity {
    bytes: Vec<u8>,
}

impl View for Identity {
    type V = Seq<u8>;

    closed spec fn view(&self) -> Seq<u8> {
        self.bytes@
    }
}

/// The bytes of the identity that stands for unauthenticated callers.
pub open spec fn anonymous_bytes() -> Seq<u8> {
    seq![4u8]
}

impl Identity {
    #[verifier::type_invariant]
    spec fn bounded(self) -> bool {
        self.bytes@.len() <= MAX_IDENTITY_BYTES
    }

    /// The identity with the given bytes, where there are at most 29 of them.
    pub fn from_bytes(bytes: Vec<u8>) -> (r: Option<Identity>)
        ensures
            r is Some <==> bytes@.len() <= MAX_IDENTITY_BYTES,
            r matches Some(id) ==> id@ == bytes@,
    {
        if bytes.len() <= MAX_IDENTITY_BYTES {
            Some(Identity { bytes })
        } else {
            None
        }
    }

    /// The identity of unauthenticated callers.
    pub fn anonymous() -> (id: Identity)
        ensures
            id@ == anonymous_bytes(),
    {
        let mut bytes: Vec<u8> = Vec::new();
        bytes.push(4u8);
        assert(bytes@ =~= anonymous_bytes());
        Identity { bytes }
    }

    /// How many bytes this identity holds: at most 29.
    pub fn len(&self) -> (n: usize)
        ensures
            n == self@.len(),
            n <= MAX_IDENTITY_BYTES,
    {
        proof {
            use_type_invariant(self);
        }
        self.bytes.len()
    }

    /// The bytes of this identity.
    pub fn as_bytes(&self) -> (bytes: &Vec<u8>)
        ensures
            bytes@ == self@,
            bytes@.len() <= MAX_IDENTITY_BYTES,
    {
        proof {
            use_type_invariant(self);
        }
        &self.bytes
    }

    /// Whether both name the same participant.
    pub fn same(&self, other: &Identity) -> (r: bool)
        ensures
            r == (self@ == other@),
    {
        same_bytes(&self.bytes, &other.bytes)
    }

    /// The textual form of this identity.
    pub fn to_text(&self) -> (text: String)
        ensures
            text@ == principal_text(self@),
            principal_parse(text@) == Some(self@),
    {
        proof {
            use_type_invariant(self);
        }
        text_of_bytes(self.bytes.as_slice())
    }

    /// The identity that `text` denotes; `InvalidPrincipal` where it denotes none.
    pub fn from_text(text: &str) -> (r: Result<Identity, EngineError>)
        ensures
            r matches Ok(id) ==> principal_parse(text@) == Some(id@),
            r matches Err(e) ==> e == EngineError::InvalidPrincipal && principal_parse(text@) is None,
    {
        match bytes_of_text(text) {
            Ok(bytes) => Ok(Identity { bytes }),
            Err(_) => Err(EngineError::InvalidPrincipal),
        }
    }
}

impl Copyable for Identity {
    fn duplicate(&self) -> (r: Self) {
        proof {
            use_type_invariant(self);
        }
        Identity { bytes: copy_plain(&self.bytes) }
    }
}

/// Whether two byte strings are equal.
pub fn same_bytes(a: &Vec<u8>, b: &Vec<u8>) -> (r: bool)
    ensures
        r == (a@ == b@),
{
    if a.len() != b.len() {
        return false;
    }
    let mut i: usize = 0;
    while i < a.len()
        invariant
            i <= a.len(),
            a.len() == b.len(),
            forall|j: int| 0 <= j < i ==> a@[j] == b@[j],
        decreases a.len() - i,
    {
        if a[i] != b[i] {
            return false;
        }
        i = i + 1;
    }
    assert(a@ =~= b@);
    true
}

} // verus!
