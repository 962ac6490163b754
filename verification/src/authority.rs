//! The vault authority: the address, derived from the program's own id,
//! that signs for both custody accounts.

use vstd::prelude::*;
use anchor_lang::prelude::Pubkey;
use crate::identity::Identity;

verus! {

/// Seed of the vault authority's address.
pub const VAULT_AUTH_SEED: &'static str = "vault_authority";

/// Seed of a depositor's stake counter.
pub const STAKE_COUNTER_SEED: &'static str = "stake_counter";

/// Seed of the configuration record.
pub const CONFIG_SEED: &'static str = "config";

/// Seed of a stake record.
pub const STAKE_SEED: &'static str = "stake";

/// The program-derived address for the single seed `seed` under the program
/// `program_id`, with its bump seed; `None` where no bump seed yields one.
pub uninterp spec fn program_address(seed: Seq<char>, program_id: Seq<u8>) -> Option<
    (Seq<u8>, u8),
>;

/// A derived address and bump seed, the address by its bytes.
pub open spec fn derived_view(derived: Option<(Identity, u8)>) -> Option<(Seq<u8>, u8)> {
    match derived {
        Some((key, bump)) => Some((key@, bump)),
        None => None,
    }
}

/// The address that `program_id` derives for its vault authority.
pub open spec fn vault_authority_of(program_id: Seq<u8>) -> Option<Seq<u8>> {
    match program_address(VAULT_AUTH_SEED@, program_id) {
        Some((key, _)) => Some(key),
        None => None,
    }
}

/// Calls `Pubkey::try_find_program_address` of `anchor_lang` with the bytes
/// of `seed` as the only seed.
///
/// Trusted, not proved: that the result is a function of the seed and the
/// program id alone, here named `program_address`. The call hashes the seed,
/// one more byte (the bump seed, tried from 255 downwards), the program id
/// and a fixed marker, and returns the first hash that is no point of the
/// curve, with the bump seed that gave it. It returns `None`, and does not
/// panic, where no bump seed gives one or the seed is longer than 32 bytes.
#[verifier::external_body]
pub(crate) fn find_program_address(seed: &str, program_id: &Identity) -> (r: Option<
    (Identity, u8),
>)
    ensures
        derived_view(r) == program_address(seed@, program_id@),
{
    let id = Pubkey::new_from_array(program_id.bytes);
    match Pubkey::try_find_program_address(&[seed.as_bytes()], &id) {
        Some((key, bump)) => Some((Identity { bytes: key.to_bytes() }, bump)),
        None => None,
    }
}

} // verus!
