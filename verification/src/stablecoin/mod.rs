//! The permissioned stablecoin issuer: configuration, minters, wallet policies and pause.
pub mod errors;
pub mod events;
pub mod instructions;
pub mod laws;
pub mod state;

use vstd::prelude::*;

use crate::pubkey::Pubkey;

verus! {

/// The stablecoin program's address, `6GuaNWi16p2a1T6jChe2d2cC2SjKDiCoiHN14tciMzE1`.
pub fn id() -> (key: Pubkey)
    ensures
        key@ == seq![78u8, 93u8, 152u8, 10u8, 247u8, 154u8, 7u8, 177u8, 166u8, 71u8, 96u8, 33u8, 5u8, 68u8, 175u8, 180u8, 120u8, 41u8, 10u8, 125u8, 149u8, 51u8, 245u8, 47u8, 138u8, 33u8, 61u8, 124u8, 210u8, 10u8, 207u8, 198u8],
{
    let key = Pubkey { bytes: [78, 93, 152, 10, 247, 154, 7, 177, 166, 71, 96, 33, 5, 68, 175, 180, 120, 41, 10, 125, 149, 51, 245, 47, 138, 33, 61, 124, 210, 10, 207, 198] };
    assert(key@ =~= seq![78u8, 93u8, 152u8, 10u8, 247u8, 154u8, 7u8, 177u8, 166u8, 71u8, 96u8, 33u8, 5u8, 68u8, 175u8, 180u8, 120u8, 41u8, 10u8, 125u8, 149u8, 51u8, 245u8, 47u8, 138u8, 33u8, 61u8, 124u8, 210u8, 10u8, 207u8, 198u8]);
    key
}

} // verus!
