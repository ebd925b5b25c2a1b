//! What the programs read from Token-2022 account data, and the account sizes it computes.
//! The parsing and sizing belong to `spl-token-2022`; every function here that touches it
//! is a thin trusted wrapper, and the decisions made on its results are verified.
use vstd::prelude::*;

use anchor_lang::prelude::Pubkey as AccountAddress;
use anchor_spl::token_2022::spl_token_2022::extension::pausable::PausableConfig;
use anchor_spl::token_2022::spl_token_2022::extension::{
    BaseStateWithExtensions, ExtensionType, StateWithExtensions,
};
use anchor_spl::token_2022::spl_token_2022::state::{
    Account as AccountLayout, AccountState, Mint as MintLayout,
};
use anchor_spl::token_2022_extensions::spl_pod::optional_keys::OptionalNonZeroPubkey;
use anchor_spl::token_2022_extensions::spl_token_metadata_interface::state::TokenMetadata;

use crate::pubkey::Pubkey;

verus! {

/// A refusal by the program's own rules, or an error Token-2022 reported, carried as the
/// numeric code of its `ProgramError`.
#[derive(Clone, Copy, Debug, PartialEq, Eq, Structural)]
pub enum Failure<E> {
    Rejected(E),
    Program(u64),
}

/// The state of a Token-2022 token account.
#[derive(Clone, Copy, Debug, PartialEq, Eq, Structural)]
pub enum TokenAccountState {
    Uninitialized,
    Initialized,
    Frozen,
}

/// Extension type codes, as Token-2022 numbers them in account data.
pub const DEFAULT_ACCOUNT_STATE_EXTENSION: u16 = 6;

pub const METADATA_POINTER_EXTENSION: u16 = 18;

pub const TOKEN_METADATA_EXTENSION: u16 = 19;

pub const PAUSABLE_EXTENSION: u16 = 26;

// ---------------------------------------------------------------------------
// Names for what Token-2022 computes from its account data
// ---------------------------------------------------------------------------

/// The state of the token account that `data` holds, or the unpack error's code.
pub uninterp spec fn token_account_state_of(data: Seq<u8>) -> Result<TokenAccountState, u64>;

/// Whether the Pausable extension of the mint that `data` holds is set, or the error's code.
pub uninterp spec fn mint_paused_of(data: Seq<u8>) -> Result<bool, u64>;

/// The extension type codes present on the mint that `data` holds, or the error's code.
pub uninterp spec fn mint_extension_types_of(data: Seq<u8>) -> Result<Seq<u16>, u64>;

/// The token-account extension codes that the given mint extension codes require.
pub uninterp spec fn required_account_extensions_of(mint_extensions: Seq<u16>) -> Result<
    Seq<u16>,
    u64,
>;

/// Length of a token account carrying the given extensions, or the error's code.
pub uninterp spec fn token_account_len_of(extensions: Seq<u16>) -> Result<usize, u64>;

/// Length of a mint carrying the given extensions, or the error's code.
pub uninterp spec fn mint_len_of(extensions: Seq<u16>) -> Result<usize, u64>;

/// TLV size of token metadata with the given authority, mint and texts, or the error's code.
pub uninterp spec fn token_metadata_size_of(
    update_authority: Seq<u8>,
    mint: Seq<u8>,
    name: Seq<char>,
    symbol: Seq<char>,
    uri: Seq<char>,
) -> Result<usize, u64>;

/// Results carrying a `Vec`, seen through its contents.
pub open spec fn seq_result(result: Result<Vec<u16>, u64>) -> Result<Seq<u16>, u64> {
    match result {
        Ok(codes) => Ok(codes@),
        Err(code) => Err(code),
    }
}

// ---------------------------------------------------------------------------
// Trusted wrappers
// ---------------------------------------------------------------------------

/// `StateWithExtensions::<Account>::unpack`, read for the account's `state` field.
/// The contract names the result only: which bytes unpack is Token-2022's layout.
#[verifier::external_body]
fn unpack_token_account_state(data: &[u8]) -> (state: Result<TokenAccountState, u64>)
    ensures
        state == token_account_state_of(data@),
{
    match StateWithExtensions::<AccountLayout>::unpack(data) {
        Ok(account) => match account.base.state {
            AccountState::Uninitialized => Ok(TokenAccountState::Uninitialized),
            AccountState::Initialized => Ok(TokenAccountState::Initialized),
            AccountState::Frozen => Ok(TokenAccountState::Frozen),
        },
        Err(error) => Err(u64::from(error)),
    }
}

/// `StateWithExtensions::<Mint>::unpack` followed by `get_extension::<PausableConfig>`,
/// read for its `paused` flag. The contract names the result only.
#[verifier::external_body]
fn unpack_mint_paused(data: &[u8]) -> (paused: Result<bool, u64>)
    ensures
        paused == mint_paused_of(data@),
{
    let mint = StateWithExtensions::<MintLayout>::unpack(data).map_err(u64::from)?;
    let config = mint.get_extension::<PausableConfig>().map_err(u64::from)?;
    Ok(bool::from(config.paused))
}

/// `StateWithExtensions::<Mint>::unpack` followed by `get_extension_types`, each type given
/// by its numeric code. The contract names the result only.
#[verifier::external_body]
fn unpack_mint_extension_types(data: &[u8]) -> (types: Result<Vec<u16>, u64>)
    ensures
        seq_result(types) == mint_extension_types_of(data@),
{
    let mint = StateWithExtensions::<MintLayout>::unpack(data).map_err(u64::from)?;
    let types = mint.get_extension_types().map_err(u64::from)?;
    Ok(types.into_iter().map(u16::from).collect())
}

/// `ExtensionType::get_required_init_account_extensions`, with the codes converted to and
/// from `ExtensionType` through Token-2022's own byte conversion (whose error an unknown
/// code gives). The contract
/// names the result only.
#[verifier::external_body]
fn required_account_extensions(mint_extensions: &Vec<u16>) -> (types: Result<Vec<u16>, u64>)
    ensures
        seq_result(types) == required_account_extensions_of(mint_extensions@),
{
    let types = mint_extensions.iter().map(|code| ExtensionType::try_from(&code.to_le_bytes()[..])).collect::<
        Result<Vec<ExtensionType>, _>,
    >().map_err(u64::from)?;
    let required = ExtensionType::get_required_init_account_extensions(&types);
    Ok(required.into_iter().map(u16::from).collect())
}

/// `ExtensionType::try_calculate_account_len::<Account>`. The contract names the result only.
#[verifier::external_body]
fn token_account_len(extensions: &Vec<u16>) -> (len: Result<usize, u64>)
    ensures
        len == token_account_len_of(extensions@),
{
    let types = extensions.iter().map(|code| ExtensionType::try_from(&code.to_le_bytes()[..])).collect::<
        Result<Vec<ExtensionType>, _>,
    >().map_err(u64::from)?;
    ExtensionType::try_calculate_account_len::<AccountLayout>(&types).map_err(u64::from)
}

/// `ExtensionType::try_calculate_account_len::<Mint>`. The contract names the result only.
#[verifier::external_body]
fn mint_len(extensions: &Vec<u16>) -> (len: Result<usize, u64>)
    ensures
        len == mint_len_of(extensions@),
{
    let types = extensions.iter().map(|code| ExtensionType::try_from(&code.to_le_bytes()[..])).collect::<
        Result<Vec<ExtensionType>, _>,
    >().map_err(u64::from)?;
    ExtensionType::try_calculate_account_len::<MintLayout>(&types).map_err(u64::from)
}

/// `TokenMetadata::tlv_size_of` for metadata without additional fields. The contract
/// names the result only.
#[verifier::external_body]
fn token_metadata_size(
    update_authority: &Pubkey,
    mint: &Pubkey,
    name: &str,
    symbol: &str,
    uri: &str,
) -> (size: Result<usize, u64>)
    ensures
        size == token_metadata_size_of(update_authority@, mint@, name@, symbol@, uri@),
{
    let metadata = TokenMetadata {
        update_authority: OptionalNonZeroPubkey::try_from(Some(AccountAddress::new_from_array(
            update_authority.bytes,
        ))).map_err(u64::from)?,
        mint: AccountAddress::new_from_array(mint.bytes),
        name: name.to_string(),
        symbol: symbol.to_string(),
        uri: uri.to_string(),
        additional_metadata: Vec::new(),
    };
    metadata.tlv_size_of().map_err(u64::from)
}

// ---------------------------------------------------------------------------
// Verified readers
// ---------------------------------------------------------------------------

/// Whether the token account `data` holds is frozen.
pub fn is_frozen(data: &[u8]) -> (frozen: Result<bool, u64>)
    ensures
        frozen == (match token_account_state_of(data@) {
            Ok(state) => Ok::<bool, u64>(state == TokenAccountState::Frozen),
            Err(code) => Err(code),
        }),
{
    match unpack_token_account_state(data)? {
        TokenAccountState::Frozen => Ok(true),
        _ => Ok(false),
    }
}

/// Whether the mint `data` holds is paused through its Pausable extension.
pub fn pausable_is_paused(data: &[u8]) -> (paused: Result<bool, u64>)
    ensures
        paused == mint_paused_of(data@),
{
    unpack_mint_paused(data)
}

/// The mint extensions a pool vault may see: the four every stablecoin mint carries.
pub open spec fn is_supported_mint_extension(code: u16) -> bool {
    code == DEFAULT_ACCOUNT_STATE_EXTENSION || code == PAUSABLE_EXTENSION || code
        == METADATA_POINTER_EXTENSION || code == TOKEN_METADATA_EXTENSION
}

pub open spec fn vault_space_result<E>(data: Seq<u8>, unsupported: E) -> Result<usize, Failure<E>> {
    match mint_extension_types_of(data) {
        Err(code) => Err(Failure::Program(code)),
        Ok(types) => if !(forall|i: int|
            0 <= i < types.len() ==> is_supported_mint_extension(#[trigger] types[i])) {
            Err(Failure::Rejected(unsupported))
        } else {
            match required_account_extensions_of(types) {
                Err(code) => Err(Failure::Program(code)),
                Ok(required) => match token_account_len_of(required) {
                    Ok(len) => Ok(len),
                    Err(code) => Err(Failure::Program(code)),
                },
            }
        },
    }
}

/// Size of a token account for the mint `data` holds, refusing (with `unsupported`) a
/// mint that carries any extension outside the supported four.
pub fn vault_space<E: Copy>(data: &[u8], unsupported: E) -> (space: Result<usize, Failure<E>>)
    ensures
        space == vault_space_result(data@, unsupported),
{
    let extensions = match unpack_mint_extension_types(data) {
        Ok(extensions) => extensions,
        Err(code) => return Err(Failure::Program(code)),
    };
    assert(mint_extension_types_of(data@) == Ok::<Seq<u16>, u64>(extensions@));
    let mut i: usize = 0;
    while i < extensions.len()
        invariant
            0 <= i <= extensions@.len(),
            mint_extension_types_of(data@) == Ok::<Seq<u16>, u64>(extensions@),
            forall|j: int| 0 <= j < i ==> is_supported_mint_extension(#[trigger] extensions@[j]),
        decreases extensions@.len() - i,
    {
        let code = extensions[i];
        if !(code == DEFAULT_ACCOUNT_STATE_EXTENSION || code == PAUSABLE_EXTENSION || code
            == METADATA_POINTER_EXTENSION || code == TOKEN_METADATA_EXTENSION) {
            assert(!is_supported_mint_extension(extensions@[i as int]));

            return Err(Failure::Rejected(unsupported));
        }
        i += 1;
    }
    let required = match required_account_extensions(&extensions) {
        Ok(required) => required,
        Err(code) => return Err(Failure::Program(code)),
    };
    match token_account_len(&required) {
        Ok(len) => Ok(len),
        Err(code) => Err(Failure::Program(code)),
    }
}

/// Size of a pool's LP mint, which carries no extension.
pub fn lp_mint_space() -> (space: Result<usize, u64>)
    ensures
        space == mint_len_of(Seq::<u16>::empty()),
{
    let none: Vec<u16> = Vec::new();
    assert(none@ =~= Seq::<u16>::empty());
    mint_len(&none)
}

/// Size of a pool's locked LP account, a token account of the LP mint without extensions.
pub fn locked_lp_space() -> (space: Result<usize, u64>)
    ensures
        space == token_account_len_of(Seq::<u16>::empty()),
{
    let none: Vec<u16> = Vec::new();
    assert(none@ =~= Seq::<u16>::empty());
    token_account_len(&none)
}

/// The extensions every stablecoin mint is created with, before its metadata is written.
pub open spec fn stablecoin_mint_extensions() -> Seq<u16> {
    seq![DEFAULT_ACCOUNT_STATE_EXTENSION, PAUSABLE_EXTENSION, METADATA_POINTER_EXTENSION]
}

pub open spec fn mint_space_result<E>(
    config: Seq<u8>,
    mint: Seq<u8>,
    name: Seq<char>,
    symbol: Seq<char>,
    uri: Seq<char>,
    overflow: E,
) -> Result<(usize, usize), Failure<E>> {
    match mint_len_of(stablecoin_mint_extensions()) {
        Err(code) => Err(Failure::Program(code)),
        Ok(base_len) => match token_metadata_size_of(config, mint, name, symbol, uri) {
            Err(code) => Err(Failure::Program(code)),
            Ok(metadata_len) => if base_len + metadata_len > usize::MAX {
                Err(Failure::Rejected(overflow))
            } else {
                Ok((base_len, (base_len + metadata_len) as usize))
            },
        },
    }
}

/// The length a new stablecoin mint is created with and the length its rent is funded
/// for: token metadata is appended later by a call that grows the mint without funding
/// it. Overflow of the sum is refused with `overflow`.
pub fn mint_space<E: Copy>(
    config: &Pubkey,
    mint: &Pubkey,
    name: &str,
    symbol: &str,
    uri: &str,
    overflow: E,
) -> (space: Result<(usize, usize), Failure<E>>)
    ensures
        space == mint_space_result(config@, mint@, name@, symbol@, uri@, overflow),
{
    let mut extensions: Vec<u16> = Vec::new();
    extensions.push(DEFAULT_ACCOUNT_STATE_EXTENSION);
    extensions.push(PAUSABLE_EXTENSION);
    extensions.push(METADATA_POINTER_EXTENSION);
    assert(extensions@ =~= stablecoin_mint_extensions());
    let base_len = match mint_len(&extensions) {
        Ok(len) => len,
        Err(code) => return Err(Failure::Program(code)),
    };
    let metadata_len = match token_metadata_size(config, mint, name, symbol, uri) {
        Ok(len) => len,
        Err(code) => return Err(Failure::Program(code)),
    };
    match base_len.checked_add(metadata_len) {
        Some(final_len) => Ok((base_len, final_len)),
        None => Err(Failure::Rejected(overflow)),
    }
}

} // verus!
