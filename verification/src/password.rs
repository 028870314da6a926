//! Passwords and their hashes.

use vstd::prelude::*;

verus! {

/// Not looked into here: why a password could not be hashed or checked.
#[verifier::external_type_specification]
#[verifier::external_body]
pub struct ExBcryptError(bcrypt::BcryptError);

/// What checking a password against a hash gives: whether it is the password
/// that was hashed, or nothing if the two cannot be compared.
pub uninterp spec fn verification(password: Seq<char>, hashed: Seq<char>) -> Option<bool>;

/// Not proved here: `bcrypt::verify` depends on its two arguments alone; its
/// result is what `verification` stands for.
#[verifier::external_body]
fn verify(password: &str, hashed: &str) -> (res: Result<bool, bcrypt::BcryptError>)
    ensures
        match res {
            Ok(same) => verification(password@, hashed@) == Some(same),
            Err(_) => verification(password@, hashed@) is None,
        },
{
    bcrypt::verify(password, hashed)
}

/// Why a password could not be hashed.
#[derive(Debug)]
pub struct HashError {
    nul: bool,
    _cause: bcrypt::BcryptError,
}

impl HashError {
    /// The password was refused because of a NUL character in it.
    pub closed spec fn is_nul(self) -> bool {
        self.nul
    }

    /// Whether it is the password that cannot be hashed. If not, the system had
    /// no randomness to give.
    pub fn is_refusal(&self) -> (res: bool)
        ensures
            res == self.is_nul(),
    {
        self.nul
    }
}

/// Not proved here: `bcrypt::hash`, at the default cost of its crate, refuses
/// a password with a NUL character, and no other password, and a hash that it
/// returns is one that `bcrypt::verify` accepts the password for. The salt is
/// random: nothing else is said about the hash, nor that the system can provide
/// randomness, without which every password fails.
#[verifier::external_body]
pub(crate) fn hash(password: &str) -> (res: Result<String, HashError>)
    ensures
        password@.contains('\0') ==> res is Err,
        res matches Err(e) ==> (e.is_nul() ==> password@.contains('\0')),
        res matches Ok(hashed) ==> verification(password@, hashed@) == Some(true),
{
    match bcrypt::hash(password, bcrypt::DEFAULT_COST) {
        Ok(hashed) => Ok(hashed),
        Err(e @ bcrypt::BcryptError::InvalidPassword) => Err(HashError { nul: true, _cause: e }),
        Err(e) => Err(HashError { nul: false, _cause: e }),
    }
}

/// What counts as the right password.
pub open spec fn is_password(password: Seq<char>, hashed: Seq<char>) -> bool {
    verification(password, hashed) == Some(true)
}

/// Whether `password` is the one that was hashed. If the two cannot be
/// compared it is not.
pub fn accepts(password: &str, hashed: &str) -> (res: bool)
    ensures
        res == is_password(password@, hashed@),
{
    match verify(password, hashed) {
        Ok(same) => same,
        Err(_) => false,
    }
}

} // verus!
