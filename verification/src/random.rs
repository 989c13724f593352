//! Random bytes from the operating system.
use ring::rand::SecureRandom;
use vstd::prelude::*;

verus! {

/// The error of `ring`, which says nothing of its cause.
#[verifier::external_type_specification]
#[verifier::external_body]
pub struct ExUnspecified(ring::error::Unspecified);

/// Fills `len` bytes with `fill` of `ring::rand::SystemRandom`.
///
/// Trusted: on success there are as many bytes as were asked for. What they are is chance, and
/// whether the system has them is not known beforehand.
#[verifier::external_body]
pub(crate) fn random_bytes(len: usize) -> (r: Result<Vec<u8>, ring::error::Unspecified>)
    requires
        len <= isize::MAX,
    ensures
        r matches Ok(bytes) ==> bytes@.len() == len,
{
    let mut bytes = vec![0u8; len];
    ring::rand::SystemRandom::new().fill(&mut bytes)?;
    Ok(bytes)
}

} // verus!
