//! Properties that span the stablecoin instructions.
use vstd::prelude::*;

use crate::constants::MAX_SUPPLY_CAP;
use crate::pubkey::Pubkey;
use crate::stablecoin::errors::StablecoinError;
use crate::stablecoin::instructions::{
    accept_admin_result, begin_pause_result, burn_result, complete_pause_result, initial_config,
    lemma_first_zero_from, mint_to_result, outstanding_covers, plan_wallet_policy_result,
    record_wallet_policy_result, symbol_end, symbol_is_valid, update_config_result, FreezeAction,
    MintOutcome,
};
use crate::stablecoin::state::{MintConfig, MinterRole, PolicyStatus, TokenAccount, WalletPolicy};

verus! {

/// The issuance invariant: the cap is within the protocol maximum, the live supply is
/// within the cap, and tracked outstanding supply covers the live supply.
pub open spec fn issuance_invariant(config: MintConfig, supply: u64) -> bool {
    &&& config.supply_cap <= MAX_SUPPLY_CAP
    &&& supply <= config.supply_cap
    &&& outstanding_covers(config, supply)
}

/// Every field but the issuance counters is the same in both configs.
pub open spec fn same_settings(before: MintConfig, after: MintConfig) -> bool {
    &&& after.admin == before.admin
    &&& after.pending_admin == before.pending_admin
    &&& after.compliance_authority == before.compliance_authority
    &&& after.mint == before.mint
    &&& after.symbol == before.symbol
    &&& after.decimals == before.decimals
    &&& after.supply_cap == before.supply_cap
    &&& after.paused == before.paused
    &&& after.bump == before.bump
    &&& after.mint_bump == before.mint_bump
}

/// A stablecoin whose arguments pass `initialize_stablecoin`'s checks starts inside the
/// issuance invariant with nothing minted, burned, paused or nominated, and with the payer
/// holding both the admin and the compliance role.
pub proof fn law_initialization_establishes_issuance_invariant(
    payer: Pubkey,
    mint: Pubkey,
    symbol: [u8; 8],
    decimals: u8,
    supply_cap: u64,
    bump: u8,
    mint_bump: u8,
)
    requires
        0 < supply_cap <= MAX_SUPPLY_CAP,
    ensures
        ({
            let config = initial_config(payer, mint, symbol, decimals, supply_cap, bump, mint_bump);
            &&& issuance_invariant(config, 0)
            &&& config.total_minted == 0
            &&& config.total_burned == 0
            &&& !config.paused
            &&& config.pending_admin is None
            &&& config.admin == payer
            &&& config.compliance_authority == payer
        }),
{
}

/// A successful mint keeps the issuance invariant, counts exactly the minted amount, and
/// keeps the minter within its allowance.
pub proof fn law_minting_keeps_issuance_invariant(
    config: MintConfig,
    config_key: Pubkey,
    role: MinterRole,
    minter: Pubkey,
    destination: TokenAccount,
    policy: WalletPolicy,
    supply: u64,
    amount: u64,
)
    requires
        config.supply_cap <= MAX_SUPPLY_CAP,
        mint_to_result(config, config_key, role, minter, destination, policy, supply, amount)
            is Ok,
    ensures
        ({
            let outcome = mint_to_result(
                config,
                config_key,
                role,
                minter,
                destination,
                policy,
                supply,
                amount,
            )->Ok_0;
            &&& issuance_invariant(outcome.config, outcome.new_supply)
            &&& outcome.new_supply == supply + amount
            &&& outcome.config.total_minted == config.total_minted + amount
            &&& outcome.config.total_burned == config.total_burned
            &&& same_settings(config, outcome.config)
            &&& outcome.role.minted == role.minted + amount
            &&& outcome.role.minted <= outcome.role.allowance
            &&& outcome.role.allowance == role.allowance
        }),
{
}

/// A successful burn of a held amount keeps the issuance invariant and counts exactly the
/// burned amount.
pub proof fn law_burning_keeps_issuance_invariant(
    config: MintConfig,
    owner: Pubkey,
    source: TokenAccount,
    supply: u64,
    amount: u64,
)
    requires
        issuance_invariant(config, supply),
        amount <= supply,
        burn_result(config, owner, source, supply, amount) is Ok,
    ensures
        ({
            let after = burn_result(config, owner, source, supply, amount)->Ok_0;
            &&& issuance_invariant(after, (supply - amount) as u64)
            &&& after.total_burned == config.total_burned + amount
            &&& after.total_minted == config.total_minted
            &&& same_settings(config, after)
        }),
{
}

/// A burn made directly through Token-2022, which this program never sees, lowers the
/// live supply only, and the invariant still holds: tracked supply is an upper bound.
pub proof fn law_direct_burn_keeps_issuance_invariant(config: MintConfig, supply: u64, burned: u64)
    requires
        issuance_invariant(config, supply),
        burned <= supply,
    ensures
        issuance_invariant(config, (supply - burned) as u64),
{
}

/// A successful config update keeps the issuance invariant and touches only the fields it
/// was given: counters, mint, symbol, decimals, pause state and the admin stay as they were.
pub proof fn law_update_keeps_issuance_invariant(
    config: MintConfig,
    admin: Pubkey,
    supply: u64,
    supply_cap: Option<u64>,
    compliance_authority: Option<Pubkey>,
    pending_admin: Option<Pubkey>,
)
    requires
        issuance_invariant(config, supply),
        update_config_result(config, admin, supply, supply_cap, compliance_authority, pending_admin)
            is Ok,
    ensures
        ({
            let after = update_config_result(
                config,
                admin,
                supply,
                supply_cap,
                compliance_authority,
                pending_admin,
            )->Ok_0.0;
            &&& issuance_invariant(after, supply)
            &&& after.admin == config.admin
            &&& after.mint == config.mint
            &&& after.symbol == config.symbol
            &&& after.decimals == config.decimals
            &&& after.total_minted == config.total_minted
            &&& after.total_burned == config.total_burned
            &&& after.paused == config.paused
            &&& supply_cap is None ==> after.supply_cap == config.supply_cap
            &&& compliance_authority is None ==> after.compliance_authority
                == config.compliance_authority
            &&& pending_admin is None ==> after.pending_admin == config.pending_admin
        }),
{
}

/// Admin rotation takes two steps: a nomination leaves the current admin in place, only
/// the nominee can then accept, and acceptance makes the nominee admin and clears the
/// nomination.
pub proof fn law_two_step_admin_rotation(
    config: MintConfig,
    admin: Pubkey,
    supply: u64,
    nominee: Pubkey,
    other: Pubkey,
)
    requires
        update_config_result(config, admin, supply, None, None, Some(nominee)) is Ok,
        other@ != nominee@,
    ensures
        ({
            let nominated = update_config_result(config, admin, supply, None, None, Some(nominee))->Ok_0.0;
            &&& nominated.admin == config.admin
            &&& nominated.pending_admin == Some(nominee)
            &&& accept_admin_result(nominated, other) == Err::<
                (MintConfig, crate::stablecoin::events::AdminAccepted),
                StablecoinError,
            >(StablecoinError::NoPendingAdmin)
            &&& accept_admin_result(nominated, nominee) is Ok
            &&& accept_admin_result(nominated, nominee)->Ok_0.0.admin == nominee
            &&& accept_admin_result(nominated, nominee)->Ok_0.0.pending_admin is None
            &&& accept_admin_result(nominated, nominee)->Ok_0.0.compliance_authority
                == config.compliance_authority
        }),
{
}

/// A completed pause change leaves the stored pause state equal to the live one, which
/// is the requested state and differs from the state before.
pub proof fn law_pause_mirrors_live_state(
    config: MintConfig,
    authority: Pubkey,
    live_before: bool,
    live_after: bool,
    paused: bool,
)
    requires
        begin_pause_result(config, authority, live_before, paused) is Ok,
        complete_pause_result(config, authority, live_after, paused) is Ok,
    ensures
        ({
            let after = complete_pause_result(config, authority, live_after, paused)->Ok_0.0;
            &&& after.paused == live_after
            &&& after.paused == paused
            &&& after.paused != config.paused
            &&& live_before == config.paused
        }),
{
}

/// The frozen state of a token account after carrying out a planned action.
pub open spec fn frozen_after(frozen: bool, action: FreezeAction) -> bool {
    match action {
        FreezeAction::Keep => frozen,
        FreezeAction::Freeze => true,
        FreezeAction::Thaw => false,
    }
}

/// Carrying out the planned freeze or thaw brings the account's frozen state to exactly
/// the requested status, and a recorded policy always agrees with the frozen state.
pub proof fn law_policy_agrees_with_frozen_state(
    config: MintConfig,
    signer: Pubkey,
    token_account: TokenAccount,
    status: PolicyStatus,
    frozen: bool,
    live_after: bool,
    updated_at: i64,
    bump: u8,
)
    requires
        plan_wallet_policy_result(config, signer, token_account, status, frozen) is Ok,
    ensures
        ({
            let action = plan_wallet_policy_result(config, signer, token_account, status, frozen)->Ok_0;
            frozen_after(frozen, action) == (status == PolicyStatus::Blocked)
        }),
        record_wallet_policy_result(
            config,
            signer,
            token_account,
            status,
            live_after,
            updated_at,
            bump,
        ) is Ok ==> {
            let policy = record_wallet_policy_result(
                config,
                signer,
                token_account,
                status,
                live_after,
                updated_at,
                bump,
            )->Ok_0.0;
            (policy.status == PolicyStatus::Blocked) == live_after
        },
{
}

/// A minter's allowance caps its cumulative issuance. When every other check of `mint_to`
/// passes (the role belongs to this config and signer, the account holds this mint, the
/// amount is positive, the mint is not paused, the wallet is allowed, the counters cover the
/// supply and the cap has room), the mint is refused with `AllowanceExceeded` exactly when
/// `role.minted + amount > role.allowance`; otherwise it succeeds and raises the minter's
/// total, the live supply and `total_minted` by exactly `amount`.
pub proof fn law_allowance_caps_cumulative_issuance(
    config: MintConfig,
    config_key: Pubkey,
    role: MinterRole,
    minter: Pubkey,
    destination: TokenAccount,
    policy: WalletPolicy,
    supply: u64,
    amount: u64,
)
    requires
        role.config@ == config_key@,
        role.authority@ == minter@,
        destination.mint@ == config.mint@,
        amount > 0,
        !config.paused,
        policy.status == PolicyStatus::Allowed,
        config.total_minted >= config.total_burned,
        config.total_minted - config.total_burned >= supply,
        supply + amount <= config.supply_cap,
        config.total_minted + amount <= u128::MAX,
        role.minted + amount <= u64::MAX,
    ensures
        ({
            let result = mint_to_result(
                config,
                config_key,
                role,
                minter,
                destination,
                policy,
                supply,
                amount,
            );
            &&& (result == Err::<MintOutcome, StablecoinError>(
                StablecoinError::AllowanceExceeded,
            )) <==> role.minted + amount > role.allowance
            &&& role.minted + amount <= role.allowance ==> (result matches Ok(outcome)
                && outcome.role.minted == role.minted + amount && outcome.new_supply == supply
                + amount && outcome.config.total_minted == config.total_minted + amount)
        }),
{
}

/// A nomination by the admin is refused with `InvalidPendingAdmin` exactly when the nominee
/// is the all-zero address or the current admin. Any other nominee, the compliance authority
/// included, is recorded as the pending admin while the admin and the compliance authority
/// stay as they were.
pub proof fn law_nomination_refuses_only_zero_or_current_admin(
    config: MintConfig,
    admin: Pubkey,
    supply: u64,
    nominee: Pubkey,
)
    requires
        admin@ == config.admin@,
    ensures
        ({
            let result = update_config_result(config, admin, supply, None, None, Some(nominee));
            let refused = (forall|i: int| 0 <= i < 32 ==> #[trigger] nominee@[i] == 0)
                || nominee@ == config.admin@;
            &&& (result == Err::<
                (MintConfig, crate::stablecoin::events::ConfigUpdated),
                StablecoinError,
            >(StablecoinError::InvalidPendingAdmin)) <==> refused
            &&& !refused ==> (result matches Ok((updated, event)) && updated.pending_admin == Some(
                nominee,
            ) && updated.admin == config.admin && updated.compliance_authority
                == config.compliance_authority)
        }),
{
    assert((forall|i: int| 0 <= i < 32 ==> #[trigger] nominee@[i] == 0) <==> nominee@
        =~= crate::pubkey::default_key());
}

/// A symbol field is accepted exactly when its first byte is non-zero, every non-zero byte
/// is an ASCII letter or digit (`'0'..='9'`, `'A'..='Z'`, `'a'..='z'`), and no non-zero byte
/// follows a zero byte.
pub proof fn law_symbol_acceptance(symbol: [u8; 8])
    ensures
        symbol_is_valid(symbol@) <==> {
            &&& symbol@[0] != 0
            &&& forall|i: int, j: int|
                0 <= i <= j < 8 && #[trigger] symbol@[i] == 0 ==> #[trigger] symbol@[j] == 0
            &&& forall|i: int|
                0 <= i < 8 && #[trigger] symbol@[i] != 0 ==> ('0' as int <= symbol@[i] <= '9' as int
                    || 'A' as int <= symbol@[i] <= 'Z' as int || 'a' as int <= symbol@[i]
                    <= 'z' as int)
        },
{
    let s = symbol@;
    lemma_first_zero_from(s, 0);
    let end = symbol_end(s);
    assert('0' as int == 0x30 && '9' as int == 0x39 && 'A' as int == 0x41 && 'Z' as int == 0x5a
        && 'a' as int == 0x61 && 'z' as int == 0x7a);
    if symbol_is_valid(s) {
        assert(s[0] != 0);
        assert forall|i: int, j: int| 0 <= i <= j < 8 && #[trigger] s[i] == 0 implies #[trigger] s[j]
            == 0 by {
            assert(i >= end);
        }
        assert forall|i: int| 0 <= i < 8 && #[trigger] s[i] != 0 implies ('0' as int <= s[i]
            <= '9' as int || 'A' as int <= s[i] <= 'Z' as int || 'a' as int <= s[i]
            <= 'z' as int) by {
            assert(i < end);
        }
    }
    if s[0] != 0 && (forall|i: int, j: int|
        0 <= i <= j < 8 && #[trigger] s[i] == 0 ==> #[trigger] s[j] == 0) && (forall|i: int|
        0 <= i < 8 && #[trigger] s[i] != 0 ==> ('0' as int <= s[i] <= '9' as int || 'A' as int
            <= s[i] <= 'Z' as int || 'a' as int <= s[i] <= 'z' as int)) {
        assert(end > 0);
        assert forall|i: int| 0 <= i < end implies crate::stablecoin::instructions::is_symbol_byte(
            #[trigger] s[i],
        ) by {
            assert(s[i] != 0);
        }
        assert forall|i: int| end <= i < s.len() implies #[trigger] s[i] == 0 by {
            assert(s[end] == 0);
        }
        assert(symbol_is_valid(s));
    }
}

/// An owner's burn of a positive amount from its own account of this mint, while the mint
/// is not paused and the counters cover the supply, always succeeds unless `total_burned`
/// would leave `u128`: it raises `total_burned` by exactly `amount` and changes nothing else.
pub proof fn law_owner_burn_succeeds(
    config: MintConfig,
    owner: Pubkey,
    source: TokenAccount,
    supply: u64,
    amount: u64,
)
    requires
        source.mint@ == config.mint@,
        source.owner@ == owner@,
        amount > 0,
        !config.paused,
        config.total_minted >= config.total_burned,
        config.total_minted - config.total_burned >= supply,
        config.total_burned + amount <= u128::MAX,
    ensures
        burn_result(config, owner, source, supply, amount) matches Ok(after) && after.total_burned
            == config.total_burned + amount && after.total_minted == config.total_minted
            && same_settings(config, after),
{
}

} // verus!
