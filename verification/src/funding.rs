//! Funding of program-derived accounts whose address anyone may pre-fund.
use vstd::prelude::*;

verus! {

/// Lamports the payer must add so that an account holding `lamports` reaches
/// `rent_minimum`: nothing when it is already funded, so lamports sent to a public address
/// ahead of its creation never block the creation.
pub fn rent_top_up(lamports: u64, rent_minimum: u64) -> (top_up: u64)
    ensures
        top_up == (if lamports >= rent_minimum {
            0
        } else {
            rent_minimum - lamports
        }),
        lamports + top_up >= rent_minimum,
        top_up <= rent_minimum,
{
    if lamports >= rent_minimum {
        0
    } else {
        rent_minimum - lamports
    }
}

} // verus!
