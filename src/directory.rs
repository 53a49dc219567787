use crate::identity::Identity;
use vstd::prelude::*;

verus! {

/// The address derived for a provider's record under a program: the seeds are
/// the tag `escrow` followed by the provider's bytes. `None` where no bump seed
/// gives an address off the curve.
pub uninterp spec fn escrow_address_of(program_id: Seq<u8>, provider: Seq<u8>) -> Option<Seq<u8>>;

/// The view of an optional identity.
pub open spec fn opt_view(a: Option<Identity>) -> Option<Seq<u8>> {
    match a {
        Some(x) => Some(x@),
        None => None,
    }
}

/// Relies on `Pubkey::try_find_program_address` (reached through anchor_lang's
/// prelude): the program-derived address for the seeds, a pure function of the
/// seeds and the program id. The bump seed it also returns is dropped.
#[verifier::external_body]
fn find_escrow_address(program_id: &Identity, provider: &Identity) -> (r: Option<Identity>)
    ensures
        opt_view(r) == escrow_address_of(program_id@, provider@),
{
    let program = anchor_lang::prelude::Pubkey::new_from_array(program_id.bytes);
    let seeds: [&[u8]; 2] = [b"escrow", &provider.bytes];
    anchor_lang::prelude::Pubkey::try_find_program_address(&seeds, &program).map(
        |(address, _bump)| Identity { bytes: address.to_bytes() },
    )
}

/// The address at which the record of `provider` lives under `program_id`.
pub fn escrow_address(program_id: &Identity, provider: &Identity) -> (r: Option<Identity>)
    ensures
        opt_view(r) == escrow_address_of(program_id@, provider@),
{
    find_escrow_address(program_id, provider)
}

} // verus!
