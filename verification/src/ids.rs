use vstd::prelude::*;

verus! {

/// A 32-byte account address, compared byte for byte.  Every identity in the
/// protocol — users, merchants, managers, token mints, token accounts and
/// programs — is such an address; the logic never looks inside one except to
/// compare it against another or against a derived address.
#[derive(Clone, Copy, Debug)]
pub struct AccountId {
    pub bytes: [u8; 32],
}

impl View for AccountId {
    type V = Seq<u8>;

    open spec fn view(&self) -> Seq<u8> {
        self.bytes@
    }
}

impl AccountId {
    /// The all-zero address, used where no account is referenced.
    pub open spec fn spec_zero() -> Seq<u8> {
        Seq::new(32, |_i: int| 0u8)
    }

    pub fn new(bytes: [u8; 32]) -> (r: AccountId)
        ensures
            r@ == bytes@,
    {
        AccountId { bytes }
    }
}

impl Default for AccountId {
    fn default() -> (r: AccountId)
        ensures
            r@ == AccountId::spec_zero(),
    {
        let r = AccountId { bytes: [0u8; 32] };
        proof {
            assert(r@ =~= AccountId::spec_zero());
        }
        r
    }
}

impl PartialEq for AccountId {
    fn eq(&self, other: &Self) -> (r: bool) {
        let mut i: usize = 0;
        while i < 32
            invariant
                i <= 32,
                forall|j: int| 0 <= j < i ==> self.bytes@[j] == other.bytes@[j],
            decreases 32 - i,
        {
            if self.bytes[i] != other.bytes[i] {
                return false;
            }
            i += 1;
        }
        proof {
            assert(self.bytes@ =~= other.bytes@);
        }
        true
    }
}

impl vstd::std_specs::cmp::PartialEqSpecImpl for AccountId {
    open spec fn obeys_eq_spec() -> bool {
        true
    }

    open spec fn eq_spec(&self, other: &Self) -> bool {
        self.bytes@ == other.bytes@
    }
}

/// An account as the runtime resolved it: its address together with the
/// program that owns its data.  Approval records are checked against their
/// owner before anything inside them is believed.
#[derive(Clone, Copy, Debug)]
pub struct OwnedAccount {
    pub key: AccountId,
    pub owner: AccountId,
}

/// The address that deterministic derivation yields for three 32-byte seeds,
/// a bump seed and an owning program, or `None` where derivation fails for
/// that bump.  Every supplied token account whose address must be bound to
/// its owner is checked against this value.
pub uninterp spec fn derived_address(
    seed_a: Seq<u8>,
    seed_b: Seq<u8>,
    seed_c: Seq<u8>,
    bump: u8,
    owner: Seq<u8>,
) -> Option<Seq<u8>>;

/// Relies on solana_program::pubkey::Pubkey::create_program_address: the
/// derived address is a deterministic function of the seed slices and the
/// owning program alone (a SHA-256 digest of them), and derivation fails
/// exactly when the digest lands on the ed25519 curve.  With four seeds of
/// 32, 32, 32 and 1 bytes the seed-count and seed-length limits cannot be
/// hit, so the curve check is the only source of failure.
#[verifier::external_body]
pub(crate) fn derive_address(
    seed_a: &AccountId,
    seed_b: &AccountId,
    seed_c: &AccountId,
    bump: u8,
    owner: &AccountId,
) -> (r: Option<AccountId>)
    ensures
        match r {
            Some(k) => derived_address(seed_a@, seed_b@, seed_c@, bump, owner@) == Some(k@),
            None => derived_address(seed_a@, seed_b@, seed_c@, bump, owner@) is None,
        },
{
    let owner_key = solana_program::pubkey::Pubkey::new_from_array(owner.bytes);
    let derived = solana_program::pubkey::Pubkey::create_program_address(
        &[&seed_a.bytes, &seed_b.bytes, &seed_c.bytes, &[bump]],
        &owner_key,
    );
    match derived {
        Ok(k) => Some(AccountId { bytes: k.to_bytes() }),
        Err(_) => None,
    }
}

} // verus!
