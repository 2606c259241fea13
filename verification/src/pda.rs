use vstd::prelude::*;
use crate::codec::push_key;
use crate::error::ProtocolError;
use crate::keys::{key_eq, Pubkey};

verus! {

/// What the deterministic address derivation returns for a seed list under a
/// program identifier: the derived address, or nothing when the derivation
/// rejects the seeds (too many seeds, a seed over the length limit, or a
/// digest that lands on the curve). The result depends on the seeds and the
/// program identifier alone.
pub uninterp spec fn derived_address(seeds: Seq<Seq<u8>>, program_id: Seq<u8>) -> Option<Seq<u8>>;

/// The byte-sequence views of a seed list.
pub open spec fn seeds_view(seeds: Seq<Vec<u8>>) -> Seq<Seq<u8>> {
    seeds.map_values(|v: Vec<u8>| v@)
}

/// Relies on solana_pubkey::Pubkey::create_program_address: recomputes the
/// deterministic derived address of a seed list under a program identifier,
/// or reports that the derivation rejects the seeds.
#[verifier::external_body]
fn derive_address(seeds: &Vec<Vec<u8>>, program_id: &Pubkey) -> (r: Option<Pubkey>)
    ensures
        r is Some <==> derived_address(seeds_view(seeds@), program_id@) is Some,
        r matches Some(a) ==> derived_address(seeds_view(seeds@), program_id@) == Some(a@),
{
    let refs: Vec<&[u8]> = seeds.iter().map(|s| s.as_slice()).collect();
    let pid = solana_pubkey::Pubkey::new_from_array(*program_id);
    solana_pubkey::Pubkey::create_program_address(&refs, &pid).ok().map(|p| p.to_bytes())
}

/// Confirms that a claimed address equals its deterministic recomputation
/// from the seed material. This is the sole authorization mechanism for a
/// derived account: the validator accepts exactly when the claim matches the
/// recomputed address, and rejects any other claim.
pub fn validate_pda(seeds: &Vec<Vec<u8>>, program_id: &Pubkey, address: &Pubkey) -> (r: Result<
    (),
    ProtocolError,
>)
    ensures
        r is Ok <==> derived_address(seeds_view(seeds@), program_id@) == Some(address@),
        r is Err ==> r == Err::<(), ProtocolError>(ProtocolError::AuthorizationFailure),
{
    match derive_address(seeds, program_id) {
        Some(pda) => {
            if key_eq(&pda, address) {
                Ok(())
            } else {
                Err(ProtocolError::AuthorizationFailure)
            }
        },
        None => Err(ProtocolError::AuthorizationFailure),
    }
}

/// The seed list that binds an escrow record to its maker:
/// the tag `escrow`, the maker's address, the bump.
pub open spec fn spec_escrow_seeds(maker: Seq<u8>, bump: u8) -> Seq<Seq<u8>> {
    seq![seq![101u8, 115u8, 99u8, 114u8, 111u8, 119u8], maker, seq![bump]]
}

/// The seed list that binds a fundraiser record to its maker:
/// the tag `fundraiser`, the maker's address, the bump.
pub open spec fn spec_fundraiser_seeds(maker: Seq<u8>, bump: u8) -> Seq<Seq<u8>> {
    seq![
        seq![102u8, 117u8, 110u8, 100u8, 114u8, 97u8, 105u8, 115u8, 101u8, 114u8],
        maker,
        seq![bump],
    ]
}

/// The seed list that binds a vault to its fundraiser:
/// the tag `vault`, the fundraiser record's address, the bump.
pub open spec fn spec_vault_seeds(fundraiser: Seq<u8>, bump: u8) -> Seq<Seq<u8>> {
    seq![seq![118u8, 97u8, 117u8, 108u8, 116u8], fundraiser, seq![bump]]
}

/// An address as a one-piece seed.
pub fn key_vec(k: &Pubkey) -> (r: Vec<u8>)
    ensures
        r@ == k@,
{
    let mut out: Vec<u8> = Vec::new();
    push_key(&mut out, k);
    out
}

pub fn escrow_seeds(maker: &Pubkey, bump: u8) -> (r: Vec<Vec<u8>>)
    ensures
        seeds_view(r@) == spec_escrow_seeds(maker@, bump),
{
    let mut s: Vec<Vec<u8>> = Vec::new();
    s.push(vec![101u8, 115u8, 99u8, 114u8, 111u8, 119u8]);
    s.push(key_vec(maker));
    s.push(vec![bump]);
    proof {
        assert(seeds_view(s@) =~~= spec_escrow_seeds(maker@, bump));
    }
    s
}

pub fn fundraiser_seeds(maker: &Pubkey, bump: u8) -> (r: Vec<Vec<u8>>)
    ensures
        seeds_view(r@) == spec_fundraiser_seeds(maker@, bump),
{
    let mut s: Vec<Vec<u8>> = Vec::new();
    s.push(vec![102u8, 117u8, 110u8, 100u8, 114u8, 97u8, 105u8, 115u8, 101u8, 114u8]);
    s.push(key_vec(maker));
    s.push(vec![bump]);
    proof {
        assert(seeds_view(s@) =~~= spec_fundraiser_seeds(maker@, bump));
    }
    s
}

pub fn vault_seeds(fundraiser: &Pubkey, bump: u8) -> (r: Vec<Vec<u8>>)
    ensures
        seeds_view(r@) == spec_vault_seeds(fundraiser@, bump),
{
    let mut s: Vec<Vec<u8>> = Vec::new();
    s.push(vec![118u8, 97u8, 117u8, 108u8, 116u8]);
    s.push(key_vec(fundraiser));
    s.push(vec![bump]);
    proof {
        assert(seeds_view(s@) =~~= spec_vault_seeds(fundraiser@, bump));
    }
    s
}

/// The low byte of a bump carried as a 64-bit argument field.
pub fn bump_byte(bump: u64) -> (r: u8)
    ensures
        r == bump % 256,
{
    (bump % 256) as u8
}

} // verus!
