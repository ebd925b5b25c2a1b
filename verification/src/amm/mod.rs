//! The constant-product pool that trades issued stablecoins against each other.
pub mod errors;
pub mod events;
pub mod instructions;
pub mod laws;
pub mod state;

use vstd::prelude::*;

use crate::pubkey::Pubkey;

verus! {

/// The pool program's address, `F8JkSibw1r9bfqj1XGaomozVbTq5YPg7L7zqJWKv7evU`.
pub fn id() -> (key: Pubkey)
    ensures
        key@ == seq![209u8, 226u8, 192u8, 99u8, 124u8, 205u8, 181u8, 212u8, 129u8, 231u8, 253u8, 253u8, 158u8, 46u8, 189u8, 229u8, 136u8, 226u8, 231u8, 192u8, 237u8, 140u8, 208u8, 186u8, 251u8, 53u8, 49u8, 247u8, 197u8, 2u8, 250u8, 145u8],
{
    let key = Pubkey { bytes: [209, 226, 192, 99, 124, 205, 181, 212, 129, 231, 253, 253, 158, 46, 189, 229, 136, 226, 231, 192, 237, 140, 208, 186, 251, 53, 49, 247, 197, 2, 250, 145] };
    assert(key@ =~= seq![209u8, 226u8, 192u8, 99u8, 124u8, 205u8, 181u8, 212u8, 129u8, 231u8, 253u8, 253u8, 158u8, 46u8, 189u8, 229u8, 136u8, 226u8, 231u8, 192u8, 237u8, 140u8, 208u8, 186u8, 251u8, 53u8, 49u8, 247u8, 197u8, 2u8, 250u8, 145u8]);
    key
}

} // verus!
