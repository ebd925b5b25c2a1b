//! The decisions of each stablecoin instruction, from the accounts it reads to the state
//! it writes. Token-2022 calls happen between a decision and its confirmation.
use vstd::prelude::*;
use vstd::string::*;
use vstd::utf8::*;

use crate::constants::{MAX_NAME_LEN, MAX_SUPPLY_CAP, MAX_URI_LEN, STABLECOIN_DECIMALS};
use crate::pubkey::{default_key, Pubkey};
use crate::stablecoin::errors::StablecoinError;
use crate::stablecoin::events::{
    AdminAccepted, ConfigUpdated, MinterGranted, MinterRevoked, PauseChanged,
    StablecoinInitialized, TokensBurned, TokensMinted, WalletPolicyChanged,
};
use crate::stablecoin::state::{MintConfig, MinterRole, PolicyStatus, TokenAccount, WalletPolicy};

verus! {

// ---------------------------------------------------------------------------
// Supply accounting
// ---------------------------------------------------------------------------

/// Tracked outstanding supply (`total_minted − total_burned`) exists and covers the live
/// supply. It is an upper bound, not an equality: an owner may burn a thawed balance
/// through Token-2022 directly, which this program never sees.
pub open spec fn outstanding_covers(config: MintConfig, supply: u64) -> bool {
    config.total_minted >= config.total_burned && config.total_minted - config.total_burned
        >= supply
}

pub fn ensure_supply_tracked(config: &MintConfig, supply: u64) -> (result: Result<(), StablecoinError>)
    ensures
        result is Ok <==> outstanding_covers(*config, supply),
        result is Err ==> result == Err::<(), StablecoinError>(
            StablecoinError::CounterInvariantViolation,
        ),
{
    let outstanding = config.total_minted.checked_sub(config.total_burned).ok_or(
        StablecoinError::CounterInvariantViolation,
    )?;
    if outstanding < supply as u128 {
        return Err(StablecoinError::CounterInvariantViolation);
    }
    Ok(())
}

// ---------------------------------------------------------------------------
// initialize_stablecoin
// ---------------------------------------------------------------------------

/// An ASCII letter or digit.
pub open spec fn is_symbol_byte(byte: u8) -> bool {
    (0x30 <= byte <= 0x39) || (0x41 <= byte <= 0x5a) || (0x61 <= byte <= 0x7a)
}

/// Index of the first zero byte at or after `from`, or the length when there is none.
pub open spec fn first_zero_from(bytes: Seq<u8>, from: int) -> int
    decreases bytes.len() - from,
{
    if from >= bytes.len() {
        bytes.len() as int
    } else if bytes[from] == 0 {
        from
    } else {
        first_zero_from(bytes, from + 1)
    }
}

/// Where the symbol text ends: at its first zero byte, or at the end of the field.
pub open spec fn symbol_end(symbol: Seq<u8>) -> int {
    first_zero_from(symbol, 0)
}

/// A symbol is non-empty ASCII alphanumeric text right-padded with zero bytes.
pub open spec fn symbol_is_valid(symbol: Seq<u8>) -> bool {
    let end = symbol_end(symbol);
    &&& end > 0
    &&& forall|i: int| 0 <= i < end ==> is_symbol_byte(#[trigger] symbol[i])
    &&& forall|i: int| end <= i < symbol.len() ==> #[trigger] symbol[i] == 0
}

/// The symbol text, without its padding.
pub open spec fn symbol_text(symbol: Seq<u8>) -> Seq<char> {
    symbol.subrange(0, symbol_end(symbol)).map_values(|byte: u8| byte as char)
}

/// `first_zero_from` lies in range, skips only non-zero bytes, and stops at a zero byte.
pub(crate) proof fn lemma_first_zero_from(bytes: Seq<u8>, from: int)
    requires
        0 <= from <= bytes.len(),
    ensures
        from <= first_zero_from(bytes, from) <= bytes.len(),
        forall|i: int| from <= i < first_zero_from(bytes, from) ==> bytes[i] != 0,
        first_zero_from(bytes, from) < bytes.len() ==> bytes[first_zero_from(bytes, from)] == 0,
    decreases bytes.len() - from,
{
    if from < bytes.len() && bytes[from] != 0 {
        lemma_first_zero_from(bytes, from + 1);
    }
}

/// ASCII bytes are valid UTF-8 and decode to the same characters.
proof fn lemma_ascii_is_utf8(bytes: Seq<u8>)
    requires
        forall|i: int| 0 <= i < bytes.len() ==> #[trigger] bytes[i] <= 0x7f,
    ensures
        valid_utf8(bytes),
        decode_utf8(bytes) =~= bytes.map_values(|byte: u8| byte as char),
    decreases bytes.len(),
{
    if bytes.len() > 0 {
        let rest = bytes.subrange(1, bytes.len() as int);
        assert forall|i: int| 0 <= i < rest.len() implies #[trigger] rest[i] <= 0x7f by {
            assert(rest[i] == bytes[i + 1]);
        }
        lemma_ascii_is_utf8(rest);
        let b = bytes[0];
        assert(b <= 0x7f);
        assert((b & 0x7f) as u32 == b as u32) by (bit_vector)
            requires
                b <= 0x7f,
        ;
        assert(is_leading_byte_width_1(b));
        assert(decode_first_codepoint(bytes) == b as u32);
        assert(valid_first_scalar(bytes));
        assert(pop_first_scalar(bytes) =~= rest);
        assert(valid_utf8(bytes));
        assert(decode_utf8(bytes) == seq![decode_first_scalar(bytes) as char] + decode_utf8(rest));
        assert(decode_utf8(bytes) =~= bytes.map_values(|byte: u8| byte as char)) by {
            assert forall|i: int| 0 <= i < bytes.len() implies #[trigger] decode_utf8(bytes)[i]
                == bytes.map_values(|byte: u8| byte as char)[i] by {
                if i > 0 {
                    assert(rest.map_values(|byte: u8| byte as char)[i - 1] == bytes[i] as char);
                }
            }
        }
    }
}

/// `String::from_utf8`: succeeds exactly on valid UTF-8 and then holds the decoded text,
/// as its documentation states.
#[verifier::external_body]
fn string_from_utf8(bytes: Vec<u8>) -> (text: Option<String>)
    ensures
        text is Some <==> valid_utf8(bytes@),
        text matches Some(s) ==> s@ == decode_utf8(bytes@),
{
    match String::from_utf8(bytes) {
        Ok(text) => Some(text),
        Err(_) => None,
    }
}

/// Reads the symbol text out of its zero-padded field.
pub fn normalize_symbol(symbol: &[u8; 8]) -> (result: Result<String, StablecoinError>)
    ensures
        result is Ok <==> symbol_is_valid(symbol@),
        result is Err ==> result == Err::<String, StablecoinError>(StablecoinError::InvalidSymbol),
        result matches Ok(text) ==> text@ == symbol_text(symbol@),
{
    proof {
        lemma_first_zero_from(symbol@, 0);
    }
    let mut end: usize = 0;
    while end < 8 && symbol[end] != 0
        invariant
            0 <= end <= 8,
            symbol@.len() == 8,
            forall|i: int| 0 <= i < end ==> symbol@[i] != 0,
            first_zero_from(symbol@, 0) == first_zero_from(symbol@, end as int),
        decreases 8 - end,
    {
        end += 1;
    }
    assert(end as int == symbol_end(symbol@));

    if end == 0 {
        return Err(StablecoinError::InvalidSymbol);
    }
    let mut i: usize = 0;
    while i < 8
        invariant
            0 <= i <= 8,
            symbol@.len() == 8,
            end as int == symbol_end(symbol@),
            forall|j: int| 0 <= j < i && j < end ==> is_symbol_byte(#[trigger] symbol@[j]),
            forall|j: int| end <= j < i ==> #[trigger] symbol@[j] == 0,
        decreases 8 - i,
    {
        let byte = symbol[i];
        if i < end {
            if !((0x30 <= byte && byte <= 0x39) || (0x41 <= byte && byte <= 0x5a) || (0x61 <= byte
                && byte <= 0x7a)) {
                return Err(StablecoinError::InvalidSymbol);
            }
        } else if byte != 0 {
            return Err(StablecoinError::InvalidSymbol);
        }
        i += 1;
    }

    let mut text_bytes: Vec<u8> = Vec::new();
    let mut k: usize = 0;
    while k < end
        invariant
            0 <= k <= end <= 8,
            symbol@.len() == 8,
            text_bytes@ =~= symbol@.subrange(0, k as int),
        decreases end - k,
    {
        text_bytes.push(symbol[k]);
        k += 1;
    }
    proof {
        assert forall|j: int| 0 <= j < text_bytes@.len() implies #[trigger] text_bytes@[j]
            <= 0x7f by {
            assert(is_symbol_byte(symbol@[j]));
        }
        lemma_ascii_is_utf8(text_bytes@);
    }
    match string_from_utf8(text_bytes) {
        Some(text) => Ok(text),
        None => Err(StablecoinError::InvalidSymbol),
    }
}

/// The argument checks of `initialize_stablecoin`, in the order the instruction makes them;
/// success yields the symbol text written into the token metadata.
pub fn validate_initialize(
    symbol: &[u8; 8],
    name: &str,
    uri: &str,
    decimals: u8,
    supply_cap: u64,
) -> (result: Result<String, StablecoinError>)
    ensures
        decimals != STABLECOIN_DECIMALS ==> result == Err::<String, StablecoinError>(
            StablecoinError::UnsupportedDecimals,
        ),
        decimals == STABLECOIN_DECIMALS && supply_cap == 0 ==> result == Err::<
            String,
            StablecoinError,
        >(StablecoinError::ZeroSupplyCap),
        decimals == STABLECOIN_DECIMALS && supply_cap > MAX_SUPPLY_CAP ==> result == Err::<
            String,
            StablecoinError,
        >(StablecoinError::SupplyCapTooLarge),
        decimals == STABLECOIN_DECIMALS && 0 < supply_cap <= MAX_SUPPLY_CAP && (name@.len() == 0
            || name.len() > MAX_NAME_LEN) ==> result == Err::<String, StablecoinError>(
            StablecoinError::InvalidName,
        ),
        decimals == STABLECOIN_DECIMALS && 0 < supply_cap <= MAX_SUPPLY_CAP && name@.len() != 0
            && name.len() <= MAX_NAME_LEN && (uri@.len() == 0
            || uri.len() > MAX_URI_LEN) ==> result == Err::<String, StablecoinError>(
            StablecoinError::InvalidUri,
        ),
        decimals == STABLECOIN_DECIMALS && 0 < supply_cap <= MAX_SUPPLY_CAP && name@.len() != 0
            && name.len() <= MAX_NAME_LEN && uri@.len() != 0
            && uri.len() <= MAX_URI_LEN ==> {
            &&& (result is Ok <==> symbol_is_valid(symbol@))
            &&& result is Err ==> result == Err::<String, StablecoinError>(
                StablecoinError::InvalidSymbol,
            )
            &&& result matches Ok(text) ==> text@ == symbol_text(symbol@)
        },
{
    if decimals != STABLECOIN_DECIMALS {
        return Err(StablecoinError::UnsupportedDecimals);
    }
    if supply_cap == 0 {
        return Err(StablecoinError::ZeroSupplyCap);
    }
    if supply_cap > MAX_SUPPLY_CAP {
        return Err(StablecoinError::SupplyCapTooLarge);
    }
    if name.is_empty() || name.len() > MAX_NAME_LEN {
        return Err(StablecoinError::InvalidName);
    }
    if uri.is_empty() || uri.len() > MAX_URI_LEN {
        return Err(StablecoinError::InvalidUri);
    }
    normalize_symbol(symbol)
}

/// The configuration a freshly initialized stablecoin starts with: the payer is both
/// admin and compliance authority, nothing is minted, burned or paused.
pub open spec fn initial_config(
    payer: Pubkey,
    mint: Pubkey,
    symbol: [u8; 8],
    decimals: u8,
    supply_cap: u64,
    bump: u8,
    mint_bump: u8,
) -> MintConfig {
    MintConfig {
        admin: payer,
        pending_admin: None,
        compliance_authority: payer,
        mint,
        symbol,
        decimals,
        supply_cap,
        total_minted: 0,
        total_burned: 0,
        paused: false,
        bump,
        mint_bump,
    }
}

pub fn new_mint_config(
    payer: &Pubkey,
    mint: &Pubkey,
    config_key: &Pubkey,
    symbol: &[u8; 8],
    decimals: u8,
    supply_cap: u64,
    bump: u8,
    mint_bump: u8,
) -> (result: (MintConfig, StablecoinInitialized))
    ensures
        result.0 == initial_config(*payer, *mint, *symbol, decimals, supply_cap, bump, mint_bump),
        result.1 == (StablecoinInitialized {
            mint: *mint,
            config: *config_key,
            admin: *payer,
            symbol: *symbol,
            decimals,
            supply_cap,
        }),
{
    (
        MintConfig {
            admin: *payer,
            pending_admin: None,
            compliance_authority: *payer,
            mint: *mint,
            symbol: *symbol,
            decimals,
            supply_cap,
            total_minted: 0,
            total_burned: 0,
            paused: false,
            bump,
            mint_bump,
        },
        StablecoinInitialized {
            mint: *mint,
            config: *config_key,
            admin: *payer,
            symbol: *symbol,
            decimals,
            supply_cap,
        },
    )
}

// ---------------------------------------------------------------------------
// grant_minter / revoke_minter
// ---------------------------------------------------------------------------

pub open spec fn grant_minter_result(
    config: MintConfig,
    config_key: Pubkey,
    admin: Pubkey,
    authority: Pubkey,
    allowance: u64,
    bump: u8,
) -> Result<(MinterRole, MinterGranted), StablecoinError> {
    if admin@ != config.admin@ {
        Err(StablecoinError::Unauthorized)
    } else if allowance == 0 {
        Err(StablecoinError::ZeroAllowance)
    } else if authority@ == default_key() {
        Err(StablecoinError::InvalidAuthority)
    } else {
        Ok(
            (
                MinterRole { config: config_key, authority, allowance, minted: 0, bump },
                MinterGranted { config: config_key, authority, allowance },
            ),
        )
    }
}

/// The admin opens a role for `authority` with a fixed allowance and nothing minted.
pub fn grant_minter(
    config: &MintConfig,
    config_key: &Pubkey,
    admin: &Pubkey,
    authority: &Pubkey,
    allowance: u64,
    bump: u8,
) -> (result: Result<(MinterRole, MinterGranted), StablecoinError>)
    ensures
        result == grant_minter_result(*config, *config_key, *admin, *authority, allowance, bump),
{
    if !admin.same_as(&config.admin) {
        return Err(StablecoinError::Unauthorized);
    }
    if allowance == 0 {
        return Err(StablecoinError::ZeroAllowance);
    }
    if authority.is_default() {
        return Err(StablecoinError::InvalidAuthority);
    }
    Ok(
        (
            MinterRole { config: *config_key, authority: *authority, allowance, minted: 0, bump },
            MinterGranted { config: *config_key, authority: *authority, allowance },
        ),
    )
}

pub open spec fn revoke_minter_result(
    config: MintConfig,
    config_key: Pubkey,
    admin: Pubkey,
    authority: Pubkey,
    role: MinterRole,
) -> Result<MinterRevoked, StablecoinError> {
    if admin@ != config.admin@ {
        Err(StablecoinError::Unauthorized)
    } else if role.config@ != config_key@ || role.authority@ != authority@ {
        Err(StablecoinError::Unauthorized)
    } else {
        Ok(MinterRevoked { config: config_key, authority, minted: role.minted })
    }
}

/// The admin closes a role of this config held by `authority`.
pub fn revoke_minter(
    config: &MintConfig,
    config_key: &Pubkey,
    admin: &Pubkey,
    authority: &Pubkey,
    role: &MinterRole,
) -> (result: Result<MinterRevoked, StablecoinError>)
    ensures
        result == revoke_minter_result(*config, *config_key, *admin, *authority, *role),
{
    if !admin.same_as(&config.admin) {
        return Err(StablecoinError::Unauthorized);
    }
    if !role.config.same_as(config_key) || !role.authority.same_as(authority) {
        return Err(StablecoinError::Unauthorized);
    }
    Ok(MinterRevoked { config: *config_key, authority: *authority, minted: role.minted })
}

// ---------------------------------------------------------------------------
// mint_to / burn
// ---------------------------------------------------------------------------

/// What a successful `mint_to` writes and reports.
#[derive(Clone, Copy, Debug, PartialEq, Eq)]
pub struct MintOutcome {
    pub config: MintConfig,
    pub role: MinterRole,
    pub new_supply: u64,
    pub event: TokensMinted,
}

pub open spec fn mint_to_result(
    config: MintConfig,
    config_key: Pubkey,
    role: MinterRole,
    minter: Pubkey,
    destination: TokenAccount,
    policy: WalletPolicy,
    supply: u64,
    amount: u64,
) -> Result<MintOutcome, StablecoinError> {
    if role.config@ != config_key@ || role.authority@ != minter@ {
        Err(StablecoinError::Unauthorized)
    } else if destination.mint@ != config.mint@ {
        Err(StablecoinError::TokenAccountMintMismatch)
    } else if amount == 0 {
        Err(StablecoinError::ZeroAmount)
    } else if config.paused {
        Err(StablecoinError::ProtocolPaused)
    } else if policy.status != PolicyStatus::Allowed {
        Err(StablecoinError::WalletNotAllowed)
    } else if !outstanding_covers(config, supply) {
        Err(StablecoinError::CounterInvariantViolation)
    } else if role.minted + amount > u64::MAX {
        Err(StablecoinError::MathOverflow)
    } else if role.minted + amount > role.allowance {
        Err(StablecoinError::AllowanceExceeded)
    } else if supply + amount > u64::MAX {
        Err(StablecoinError::MathOverflow)
    } else if supply + amount > config.supply_cap {
        Err(StablecoinError::SupplyCapExceeded)
    } else if config.total_minted + amount > u128::MAX {
        Err(StablecoinError::MathOverflow)
    } else {
        let minted = (role.minted + amount) as u64;
        let new_supply = (supply + amount) as u64;
        Ok(
            MintOutcome {
                config: MintConfig { total_minted: (config.total_minted + amount) as u128, ..config },
                role: MinterRole { minted, ..role },
                new_supply,
                event: TokensMinted {
                    mint: config.mint,
                    minter,
                    destination: destination.key,
                    amount,
                    minter_minted: minted,
                    supply: new_supply,
                },
            },
        )
    }
}

/// A minter issues `amount` into an allowed token account, within its allowance and the
/// supply cap. `supply` is the live mint supply before the issuance.
pub fn mint_to(
    config: &MintConfig,
    config_key: &Pubkey,
    role: &MinterRole,
    minter: &Pubkey,
    destination: &TokenAccount,
    policy: &WalletPolicy,
    supply: u64,
    amount: u64,
) -> (result: Result<MintOutcome, StablecoinError>)
    ensures
        result == mint_to_result(
            *config,
            *config_key,
            *role,
            *minter,
            *destination,
            *policy,
            supply,
            amount,
        ),
{
    if !role.config.same_as(config_key) || !role.authority.same_as(minter) {
        return Err(StablecoinError::Unauthorized);
    }
    if !destination.mint.same_as(&config.mint) {
        return Err(StablecoinError::TokenAccountMintMismatch);
    }
    if amount == 0 {
        return Err(StablecoinError::ZeroAmount);
    }
    if config.paused {
        return Err(StablecoinError::ProtocolPaused);
    }
    if policy.status.is_blocked() {
        return Err(StablecoinError::WalletNotAllowed);
    }
    ensure_supply_tracked(config, supply)?;

    let minted = role.minted.checked_add(amount).ok_or(StablecoinError::MathOverflow)?;
    if minted > role.allowance {
        return Err(StablecoinError::AllowanceExceeded);
    }
    let new_supply = supply.checked_add(amount).ok_or(StablecoinError::MathOverflow)?;
    if new_supply > config.supply_cap {
        return Err(StablecoinError::SupplyCapExceeded);
    }
    let total_minted = config.total_minted.checked_add(amount as u128).ok_or(
        StablecoinError::MathOverflow,
    )?;

    let mut updated_config = *config;
    updated_config.total_minted = total_minted;
    let mut updated_role = *role;
    updated_role.minted = minted;
    Ok(
        MintOutcome {
            config: updated_config,
            role: updated_role,
            new_supply,
            event: TokensMinted {
                mint: config.mint,
                minter: *minter,
                destination: destination.key,
                amount,
                minter_minted: minted,
                supply: new_supply,
            },
        },
    )
}

/// After the mint CPI the live supply must be exactly the one the issuance planned.
pub fn confirm_supply(expected: u64, live_supply: u64) -> (result: Result<(), StablecoinError>)
    ensures
        result is Ok <==> live_supply == expected,
        result is Err ==> result == Err::<(), StablecoinError>(
            StablecoinError::CounterInvariantViolation,
        ),
{
    if live_supply != expected {
        return Err(StablecoinError::CounterInvariantViolation);
    }
    Ok(())
}

pub open spec fn burn_result(
    config: MintConfig,
    owner: Pubkey,
    source: TokenAccount,
    supply: u64,
    amount: u64,
) -> Result<MintConfig, StablecoinError> {
    if source.mint@ != config.mint@ {
        Err(StablecoinError::TokenAccountMintMismatch)
    } else if source.owner@ != owner@ {
        Err(StablecoinError::Unauthorized)
    } else if amount == 0 {
        Err(StablecoinError::ZeroAmount)
    } else if config.paused {
        Err(StablecoinError::ProtocolPaused)
    } else if !outstanding_covers(config, supply) {
        Err(StablecoinError::CounterInvariantViolation)
    } else if config.total_burned + amount > u128::MAX {
        Err(StablecoinError::MathOverflow)
    } else {
        Ok(MintConfig { total_burned: (config.total_burned + amount) as u128, ..config })
    }
}

/// An owner burns `amount` from its own token account through this program, which counts
/// the burn. `supply` is the live mint supply before the burn.
pub fn burn(
    config: &MintConfig,
    owner: &Pubkey,
    source: &TokenAccount,
    supply: u64,
    amount: u64,
) -> (result: Result<MintConfig, StablecoinError>)
    ensures
        result == burn_result(*config, *owner, *source, supply, amount),
{
    if !source.mint.same_as(&config.mint) {
        return Err(StablecoinError::TokenAccountMintMismatch);
    }
    if !source.owner.same_as(owner) {
        return Err(StablecoinError::Unauthorized);
    }
    if amount == 0 {
        return Err(StablecoinError::ZeroAmount);
    }
    if config.paused {
        return Err(StablecoinError::ProtocolPaused);
    }
    ensure_supply_tracked(config, supply)?;

    let total_burned = config.total_burned.checked_add(amount as u128).ok_or(
        StablecoinError::MathOverflow,
    )?;
    let mut updated = *config;
    updated.total_burned = total_burned;
    Ok(updated)
}

/// The event of a counted burn, reported once Token-2022 has burned: `live_supply` is the
/// mint supply read back after the burn.
pub fn burned_event(
    config: &MintConfig,
    owner: &Pubkey,
    source: &TokenAccount,
    amount: u64,
    live_supply: u64,
) -> (event: TokensBurned)
    ensures
        event == (TokensBurned {
            mint: config.mint,
            owner: *owner,
            source: source.key,
            amount,
            supply: live_supply,
        }),
{
    TokensBurned { mint: config.mint, owner: *owner, source: source.key, amount, supply: live_supply }
}

// ---------------------------------------------------------------------------
// update_config / accept_admin
// ---------------------------------------------------------------------------

pub open spec fn update_config_result(
    config: MintConfig,
    admin: Pubkey,
    supply: u64,
    supply_cap: Option<u64>,
    compliance_authority: Option<Pubkey>,
    pending_admin: Option<Pubkey>,
) -> Result<(MintConfig, ConfigUpdated), StablecoinError> {
    if admin@ != config.admin@ {
        Err(StablecoinError::Unauthorized)
    } else if supply_cap is None && compliance_authority is None && pending_admin is None {
        Err(StablecoinError::NoConfigChange)
    } else if supply_cap matches Some(cap) && cap == 0 {
        Err(StablecoinError::ZeroSupplyCap)
    } else if supply_cap matches Some(cap) && cap > MAX_SUPPLY_CAP {
        Err(StablecoinError::SupplyCapTooLarge)
    } else if supply_cap is Some && !outstanding_covers(config, supply) {
        Err(StablecoinError::CounterInvariantViolation)
    } else if supply_cap matches Some(cap) && cap < supply {
        Err(StablecoinError::SupplyCapBelowSupply)
    } else if compliance_authority matches Some(authority) && authority@ == default_key() {
        Err(StablecoinError::InvalidAuthority)
    } else if pending_admin matches Some(nominee) && (nominee@ == default_key() || nominee@
        == config.admin@) {
        Err(StablecoinError::InvalidPendingAdmin)
    } else {
        let updated = MintConfig {
            supply_cap: match supply_cap {
                Some(cap) => cap,
                None => config.supply_cap,
            },
            compliance_authority: match compliance_authority {
                Some(authority) => authority,
                None => config.compliance_authority,
            },
            pending_admin: match pending_admin {
                Some(nominee) => Some(nominee),
                None => config.pending_admin,
            },
            ..config
        };
        Ok(
            (
                updated,
                ConfigUpdated {
                    mint: config.mint,
                    admin: config.admin,
                    supply_cap: updated.supply_cap,
                    compliance_authority: updated.compliance_authority,
                    pending_admin: updated.pending_admin,
                },
            ),
        )
    }
}

/// The admin changes any of the supply cap, the compliance authority, or the nominated
/// next admin; every other field stays as it was.
pub fn update_config(
    config: &MintConfig,
    admin: &Pubkey,
    supply: u64,
    supply_cap: Option<u64>,
    compliance_authority: Option<Pubkey>,
    pending_admin: Option<Pubkey>,
) -> (result: Result<(MintConfig, ConfigUpdated), StablecoinError>)
    ensures
        result == update_config_result(
            *config,
            *admin,
            supply,
            supply_cap,
            compliance_authority,
            pending_admin,
        ),
{
    if !admin.same_as(&config.admin) {
        return Err(StablecoinError::Unauthorized);
    }
    if supply_cap.is_none() && compliance_authority.is_none() && pending_admin.is_none() {
        return Err(StablecoinError::NoConfigChange);
    }
    let mut updated = *config;

    if let Some(cap) = supply_cap {
        if cap == 0 {
            return Err(StablecoinError::ZeroSupplyCap);
        }
        if cap > MAX_SUPPLY_CAP {
            return Err(StablecoinError::SupplyCapTooLarge);
        }
        ensure_supply_tracked(config, supply)?;
        if cap < supply {
            return Err(StablecoinError::SupplyCapBelowSupply);
        }
        updated.supply_cap = cap;
    }

    if let Some(authority) = compliance_authority {
        if authority.is_default() {
            return Err(StablecoinError::InvalidAuthority);
        }
        updated.compliance_authority = authority;
    }

    if let Some(nominee) = pending_admin {
        if nominee.is_default() {
            return Err(StablecoinError::InvalidPendingAdmin);
        }
        if nominee.same_as(&config.admin) {
            return Err(StablecoinError::InvalidPendingAdmin);
        }
        updated.pending_admin = Some(nominee);
    }

    let event = ConfigUpdated {
        mint: config.mint,
        admin: config.admin,
        supply_cap: updated.supply_cap,
        compliance_authority: updated.compliance_authority,
        pending_admin: updated.pending_admin,
    };
    Ok((updated, event))
}

pub open spec fn accept_admin_result(config: MintConfig, signer: Pubkey) -> Result<
    (MintConfig, AdminAccepted),
    StablecoinError,
> {
    if !(config.pending_admin matches Some(nominee) && nominee@ == signer@) {
        Err(StablecoinError::NoPendingAdmin)
    } else {
        Ok(
            (
                MintConfig { admin: signer, pending_admin: None, ..config },
                AdminAccepted { mint: config.mint, previous_admin: config.admin, admin: signer },
            ),
        )
    }
}

/// The nominated admin completes the rotation and the nomination is cleared.
pub fn accept_admin(config: &MintConfig, signer: &Pubkey) -> (result: Result<
    (MintConfig, AdminAccepted),
    StablecoinError,
>)
    ensures
        result == accept_admin_result(*config, *signer),
{
    let nominated = match &config.pending_admin {
        Some(nominee) => nominee.same_as(signer),
        None => false,
    };
    if !nominated {
        return Err(StablecoinError::NoPendingAdmin);
    }
    let mut updated = *config;
    updated.admin = *signer;
    updated.pending_admin = None;
    Ok((updated, AdminAccepted { mint: config.mint, previous_admin: config.admin, admin: *signer }))
}

// ---------------------------------------------------------------------------
// set_pause
// ---------------------------------------------------------------------------

/// Both the admin and the compliance authority may pause and resume.
pub open spec fn may_pause(config: MintConfig, authority: Pubkey) -> bool {
    authority@ == config.admin@ || authority@ == config.compliance_authority@
}

pub open spec fn begin_pause_result(
    config: MintConfig,
    authority: Pubkey,
    live_paused: bool,
    paused: bool,
) -> Result<(), StablecoinError> {
    if !may_pause(config, authority) {
        Err(StablecoinError::Unauthorized)
    } else if live_paused != config.paused {
        Err(StablecoinError::PauseStateDrift)
    } else if live_paused == paused {
        Err(StablecoinError::PauseStateUnchanged)
    } else {
        Ok(())
    }
}

/// Decides whether the mint's pause state may be switched to `paused`; `live_paused` is
/// what Token-2022's Pausable extension currently holds.
pub fn begin_pause(config: &MintConfig, authority: &Pubkey, live_paused: bool, paused: bool) -> (result:
    Result<(), StablecoinError>)
    ensures
        result == begin_pause_result(*config, *authority, live_paused, paused),
{
    if !(config.admin.same_as(authority) || config.compliance_authority.same_as(authority)) {
        return Err(StablecoinError::Unauthorized);
    }
    if live_paused != config.paused {
        return Err(StablecoinError::PauseStateDrift);
    }
    if live_paused == paused {
        return Err(StablecoinError::PauseStateUnchanged);
    }
    Ok(())
}

pub open spec fn complete_pause_result(
    config: MintConfig,
    authority: Pubkey,
    live_paused: bool,
    paused: bool,
) -> Result<(MintConfig, PauseChanged), StablecoinError> {
    if live_paused != paused {
        Err(StablecoinError::PauseStateDrift)
    } else {
        Ok(
            (
                MintConfig { paused, ..config },
                PauseChanged { mint: config.mint, authority, paused },
            ),
        )
    }
}

/// After the Pausable CPI the live state must be the requested one; only then is it
/// mirrored into the config.
pub fn complete_pause(config: &MintConfig, authority: &Pubkey, live_paused: bool, paused: bool) -> (result:
    Result<(MintConfig, PauseChanged), StablecoinError>)
    ensures
        result == complete_pause_result(*config, *authority, live_paused, paused),
{
    if live_paused != paused {
        return Err(StablecoinError::PauseStateDrift);
    }
    let mut updated = *config;
    updated.paused = paused;
    Ok((updated, PauseChanged { mint: config.mint, authority: *authority, paused }))
}

// ---------------------------------------------------------------------------
// set_wallet_policy
// ---------------------------------------------------------------------------

/// The Token-2022 call a policy change needs. Token-2022 rejects freezing a frozen account
/// and thawing a thawed one, so the call is made only when the states differ.
#[derive(Clone, Copy, Debug, PartialEq, Eq, Structural)]
pub enum FreezeAction {
    Keep,
    Freeze,
    Thaw,
}

pub open spec fn plan_wallet_policy_result(
    config: MintConfig,
    signer: Pubkey,
    token_account: TokenAccount,
    status: PolicyStatus,
    frozen: bool,
) -> Result<FreezeAction, StablecoinError> {
    if signer@ != config.compliance_authority@ {
        Err(StablecoinError::Unauthorized)
    } else if token_account.mint@ != config.mint@ {
        Err(StablecoinError::TokenAccountMintMismatch)
    } else if (status == PolicyStatus::Blocked) == frozen {
        Ok(FreezeAction::Keep)
    } else if status == PolicyStatus::Blocked {
        Ok(FreezeAction::Freeze)
    } else {
        Ok(FreezeAction::Thaw)
    }
}

/// The compliance authority allows or blocks a token account of this mint; `frozen` is
/// the account's current frozen state.
pub fn plan_wallet_policy(
    config: &MintConfig,
    signer: &Pubkey,
    token_account: &TokenAccount,
    status: PolicyStatus,
    frozen: bool,
) -> (result: Result<FreezeAction, StablecoinError>)
    ensures
        result == plan_wallet_policy_result(*config, *signer, *token_account, status, frozen),
{
    if !signer.same_as(&config.compliance_authority) {
        return Err(StablecoinError::Unauthorized);
    }
    if !token_account.mint.same_as(&config.mint) {
        return Err(StablecoinError::TokenAccountMintMismatch);
    }
    if status.is_blocked() == frozen {
        Ok(FreezeAction::Keep)
    } else if status.is_blocked() {
        Ok(FreezeAction::Freeze)
    } else {
        Ok(FreezeAction::Thaw)
    }
}

pub open spec fn record_wallet_policy_result(
    config: MintConfig,
    signer: Pubkey,
    token_account: TokenAccount,
    status: PolicyStatus,
    frozen_after: bool,
    updated_at: i64,
    bump: u8,
) -> Result<(WalletPolicy, WalletPolicyChanged), StablecoinError> {
    if frozen_after != (status == PolicyStatus::Blocked) {
        Err(StablecoinError::PolicyStateMismatch)
    } else {
        Ok(
            (
                WalletPolicy {
                    mint: config.mint,
                    token_account: token_account.key,
                    owner: token_account.owner,
                    status,
                    updated_at,
                    updated_by: signer,
                    bump,
                },
                WalletPolicyChanged {
                    mint: config.mint,
                    token_account: token_account.key,
                    owner: token_account.owner,
                    status,
                    updated_by: signer,
                    updated_at,
                },
            ),
        )
    }
}

/// After any freeze or thaw the account's frozen state must match the requested status;
/// only then is the policy recorded.
pub fn record_wallet_policy(
    config: &MintConfig,
    signer: &Pubkey,
    token_account: &TokenAccount,
    status: PolicyStatus,
    frozen_after: bool,
    updated_at: i64,
    bump: u8,
) -> (result: Result<(WalletPolicy, WalletPolicyChanged), StablecoinError>)
    ensures
        result == record_wallet_policy_result(
            *config,
            *signer,
            *token_account,
            status,
            frozen_after,
            updated_at,
            bump,
        ),
{
    if frozen_after != status.is_blocked() {
        return Err(StablecoinError::PolicyStateMismatch);
    }
    Ok(
        (
            WalletPolicy {
                mint: config.mint,
                token_account: token_account.key,
                owner: token_account.owner,
                status,
                updated_at,
                updated_by: *signer,
                bump,
            },
            WalletPolicyChanged {
                mint: config.mint,
                token_account: token_account.key,
                owner: token_account.owner,
                status,
                updated_by: *signer,
                updated_at,
            },
        ),
    )
}

} // verus!
