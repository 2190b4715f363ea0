//! Deterministic derivation of per-site, human-typable passwords from a user
//! identity, a master passphrase and a site name.
//!
//! The pipeline runs strictly forward: a memory-hard key-stretching step turns
//! the passphrase and an identity-bound salt into a 64-byte master key; a keyed
//! hash of a site-bound message turns that key into a 32-byte site seed; one
//! byte of the seed selects a character pattern from a template class; the
//! remaining bytes pick one output character per pattern position.

use vstd::prelude::*;

pub mod tables;
pub mod encode;
pub mod hashes;
pub mod pipeline;

verus! {

/// The intended use of the derived credential. Each purpose is bound to a
/// distinct namespace string so that derivations for different purposes never
/// collide.
#[derive(Clone, Copy, Debug, PartialEq, Eq, Structural)]
pub enum UsagePurpose {
    Authentication,
    Login,
    Recovery,
}

/// Everything that can go wrong during a derivation. All of these reflect a
/// configuration or programming error, none a transient condition: retrying
/// with the same inputs cannot change the outcome.
#[derive(Clone, Copy, Debug, PartialEq, Eq, Structural)]
pub enum DerivationError {
    /// The usage selector is not in the purpose table.
    UnknownUsagePurpose,
    /// The template-class selector is not in the template table.
    UnknownTemplateClass,
    /// A pattern contains a character absent from the character-class table.
    UnknownPatternChar,
    /// The selected pattern is longer than the seed bytes available for
    /// rendering.
    PatternTooLong,
    /// The key-stretching cost parameters are invalid.
    KeyDerivationConfigError,
}

/// Maps the one-character usage selector of the command-line interface to a
/// purpose: `a` authenticates, `i` derives a login name, `r` a recovery
/// answer. Every other character is rejected.
pub fn usage_from_char(c: char) -> (r: Result<UsagePurpose, DerivationError>)
    ensures
        c == 'a' ==> r == Ok::<UsagePurpose, DerivationError>(UsagePurpose::Authentication),
        c == 'i' ==> r == Ok::<UsagePurpose, DerivationError>(UsagePurpose::Login),
        c == 'r' ==> r == Ok::<UsagePurpose, DerivationError>(UsagePurpose::Recovery),
        c != 'a' && c != 'i' && c != 'r' ==> r == Err::<UsagePurpose, DerivationError>(
            DerivationError::UnknownUsagePurpose,
        ),
{
    match c {
        'a' => Ok(UsagePurpose::Authentication),
        'i' => Ok(UsagePurpose::Login),
        'r' => Ok(UsagePurpose::Recovery),
        _ => Err(DerivationError::UnknownUsagePurpose),
    }
}

} // verus!
