use stablecoin_amm::constants::{MAX_NAME_LEN, MAX_SUPPLY_CAP, MAX_URI_LEN};
use stablecoin_amm::pubkey::Pubkey;
use stablecoin_amm::stablecoin::errors::StablecoinError;
use stablecoin_amm::stablecoin::events::{StablecoinInitialized, TokensBurned};
use stablecoin_amm::stablecoin::instructions::{
    accept_admin, begin_pause, burn, burned_event, complete_pause, confirm_supply, ensure_supply_tracked,
    grant_minter, mint_to, new_mint_config, normalize_symbol, plan_wallet_policy,
    record_wallet_policy, revoke_minter, update_config, validate_initialize, FreezeAction,
};
use stablecoin_amm::stablecoin::state::{
    MintConfig, MinterRole, PolicyStatus, TokenAccount, WalletPolicy,
};

const SYMBOL: [u8; 8] = *b"USDx\0\0\0\0";
const NAME: &str = "Portfolio USD";
const URI: &str = "https://example.com/usdx.json";
const DECIMALS: u8 = 6;
const SUPPLY_CAP: u64 = 1_000_000_000_000;
const ALLOWANCE: u64 = 500_000_000;

fn key(n: u8) -> Pubkey {
    Pubkey::new([n; 32])
}

fn admin() -> Pubkey {
    key(1)
}

fn mint() -> Pubkey {
    key(2)
}

fn config_key() -> Pubkey {
    key(3)
}

/// A stablecoin as `initialize_stablecoin` leaves it, together with its live supply.
struct Env {
    config: MintConfig,
    supply: u64,
    live_paused: bool,
}

impl Env {
    fn new() -> Env {
        Env::with_supply_cap(SUPPLY_CAP)
    }

    fn with_supply_cap(cap: u64) -> Env {
        validate_initialize(&SYMBOL, NAME, URI, DECIMALS, cap).expect("valid arguments");
        let (config, _event) =
            new_mint_config(&admin(), &mint(), &config_key(), &SYMBOL, DECIMALS, cap, 254, 253);
        Env { config, supply: 0, live_paused: false }
    }

    fn account(&self, n: u8) -> TokenAccount {
        TokenAccount { key: key(n), mint: mint(), owner: key(n + 1), amount: 0 }
    }

    fn allowed(&self, account: &TokenAccount) -> WalletPolicy {
        let signer = self.config.compliance_authority;
        record_wallet_policy(&self.config, &signer, account, PolicyStatus::Allowed, false, 7, 250)
            .expect("allowing must succeed")
            .0
    }

    fn minter(&self, authority: &Pubkey, allowance: u64) -> MinterRole {
        grant_minter(&self.config, &config_key(), &admin(), authority, allowance, 249)
            .expect("granting must succeed")
            .0
    }

    fn mint_to(
        &mut self,
        role: &mut MinterRole,
        destination: &TokenAccount,
        policy: &WalletPolicy,
        amount: u64,
    ) -> Result<(), StablecoinError> {
        let outcome = mint_to(
            &self.config,
            &config_key(),
            role,
            &role.authority,
            destination,
            policy,
            self.supply,
            amount,
        )?;
        confirm_supply(outcome.new_supply, self.supply + amount)?;
        self.config = outcome.config;
        *role = outcome.role;
        self.supply = outcome.new_supply;
        Ok(())
    }

    fn burn(&mut self, owner: &Pubkey, source: &TokenAccount, amount: u64) -> Result<(), StablecoinError> {
        self.burn_reporting(owner, source, amount).map(|_| ())
    }

    fn burn_reporting(
        &mut self,
        owner: &Pubkey,
        source: &TokenAccount,
        amount: u64,
    ) -> Result<TokensBurned, StablecoinError> {
        let config = burn(&self.config, owner, source, self.supply, amount)?;
        self.supply -= amount;
        self.config = config;
        Ok(burned_event(&self.config, owner, source, amount, self.supply))
    }

    fn update(
        &mut self,
        cap: Option<u64>,
        compliance: Option<Pubkey>,
        nominee: Option<Pubkey>,
    ) -> Result<(), StablecoinError> {
        let signer = self.config.admin;
        self.update_as(&signer, cap, compliance, nominee)
    }

    fn update_as(
        &mut self,
        signer: &Pubkey,
        cap: Option<u64>,
        compliance: Option<Pubkey>,
        nominee: Option<Pubkey>,
    ) -> Result<(), StablecoinError> {
        let (updated, event) =
            update_config(&self.config, signer, self.supply, cap, compliance, nominee)?;
        assert_eq!(event.supply_cap, updated.supply_cap);
        assert_eq!(event.pending_admin, updated.pending_admin);
        self.config = updated;
        Ok(())
    }

    fn accept(&mut self, signer: &Pubkey) -> Result<(), StablecoinError> {
        let (updated, event) = accept_admin(&self.config, signer)?;
        assert_eq!(event.admin, *signer);
        self.config = updated;
        Ok(())
    }

    fn pause_as(&mut self, authority: &Pubkey, paused: bool) -> Result<(), StablecoinError> {
        begin_pause(&self.config, authority, self.live_paused, paused)?;
        self.live_paused = paused;
        let (updated, event) = complete_pause(&self.config, authority, self.live_paused, paused)?;
        assert_eq!(event.paused, paused);
        self.config = updated;
        Ok(())
    }

    fn pause(&mut self, paused: bool) -> Result<(), StablecoinError> {
        let signer = self.config.admin;
        self.pause_as(&signer, paused)
    }

    fn assert_pause_states_agree(&self, paused: bool) {
        assert_eq!(self.live_paused, paused);
        assert_eq!(self.config.paused, paused);
    }
}

#[test]
fn initialize_checks_arguments_in_order() {
    assert_eq!(
        validate_initialize(&SYMBOL, NAME, URI, DECIMALS, SUPPLY_CAP),
        Ok("USDx".to_string())
    );
    let (config, event) =
        new_mint_config(&admin(), &mint(), &config_key(), &SYMBOL, DECIMALS, SUPPLY_CAP, 9, 8);
    assert_eq!(config.admin, admin());
    assert_eq!(config.compliance_authority, admin());
    assert_eq!(config.pending_admin, None);
    assert_eq!(config.total_minted, 0);
    assert_eq!(config.total_burned, 0);
    assert!(!config.paused);
    assert_eq!((config.bump, config.mint_bump), (9, 8));
    assert_eq!(
        event,
        StablecoinInitialized {
            mint: mint(),
            config: config_key(),
            admin: admin(),
            symbol: SYMBOL,
            decimals: DECIMALS,
            supply_cap: SUPPLY_CAP,
        }
    );
}

#[test]
fn unsupported_decimals_fails() {
    assert_eq!(
        validate_initialize(&SYMBOL, NAME, URI, 9, SUPPLY_CAP),
        Err(StablecoinError::UnsupportedDecimals)
    );
}

#[test]
fn zero_supply_cap_fails() {
    assert_eq!(
        validate_initialize(&SYMBOL, NAME, URI, DECIMALS, 0),
        Err(StablecoinError::ZeroSupplyCap)
    );
}

#[test]
fn supply_cap_above_maximum_fails() {
    assert_eq!(
        validate_initialize(&SYMBOL, NAME, URI, DECIMALS, MAX_SUPPLY_CAP + 1),
        Err(StablecoinError::SupplyCapTooLarge)
    );
    assert!(validate_initialize(&SYMBOL, NAME, URI, DECIMALS, MAX_SUPPLY_CAP).is_ok());
}

#[test]
fn invalid_symbols_fail() {
    for symbol in [[0u8; 8], *b"US\0Dx\0\0\0", *b"USD-x\0\0\0"] {
        assert_eq!(
            validate_initialize(&symbol, NAME, URI, DECIMALS, SUPPLY_CAP),
            Err(StablecoinError::InvalidSymbol)
        );
    }
}

#[test]
fn unpadded_symbol_is_accepted() {
    let symbol = *b"USDxEURx";
    assert_eq!(
        validate_initialize(&symbol, NAME, URI, DECIMALS, SUPPLY_CAP),
        Ok("USDxEURx".to_string())
    );
}

#[test]
fn normalize_symbol_strips_the_padding() {
    assert_eq!(normalize_symbol(b"EURx\0\0\0\0"), Ok("EURx".to_string()));
    assert_eq!(normalize_symbol(b"A\0\0\0\0\0\0\0"), Ok("A".to_string()));
    assert_eq!(normalize_symbol(b"usd1\0\0\0\0"), Ok("usd1".to_string()));
    assert_eq!(normalize_symbol(b"USDx\0\0\0x"), Err(StablecoinError::InvalidSymbol));
    assert_eq!(normalize_symbol(b"US x\0\0\0\0"), Err(StablecoinError::InvalidSymbol));
    assert_eq!(normalize_symbol(&[0xc3, 0xa9, 0, 0, 0, 0, 0, 0]), Err(StablecoinError::InvalidSymbol));
}

#[test]
fn invalid_name_fails() {
    for name in [String::new(), "n".repeat(MAX_NAME_LEN + 1)] {
        assert_eq!(
            validate_initialize(&SYMBOL, &name, URI, DECIMALS, SUPPLY_CAP),
            Err(StablecoinError::InvalidName)
        );
    }
    assert!(validate_initialize(&SYMBOL, &"n".repeat(MAX_NAME_LEN), URI, DECIMALS, SUPPLY_CAP).is_ok());
}

#[test]
fn invalid_uri_fails() {
    for uri in [String::new(), "u".repeat(MAX_URI_LEN + 1)] {
        assert_eq!(
            validate_initialize(&SYMBOL, NAME, &uri, DECIMALS, SUPPLY_CAP),
            Err(StablecoinError::InvalidUri)
        );
    }
    assert!(validate_initialize(&SYMBOL, NAME, &"u".repeat(MAX_URI_LEN), DECIMALS, SUPPLY_CAP).is_ok());
}

#[test]
fn admin_can_pause_and_resume() {
    let mut env = Env::new();
    env.assert_pause_states_agree(false);
    env.pause(true).expect("admin pause must succeed");
    env.assert_pause_states_agree(true);
    env.pause(false).expect("admin resume must succeed");
    env.assert_pause_states_agree(false);
}

#[test]
fn compliance_authority_can_pause_and_resume() {
    let mut env = Env::new();
    let compliance = key(40);
    env.update(None, Some(compliance), None)
        .expect("rotating compliance authority must succeed");
    env.pause_as(&compliance, true).expect("compliance pause must succeed");
    env.assert_pause_states_agree(true);
    env.pause_as(&compliance, false).expect("compliance resume must succeed");
    env.assert_pause_states_agree(false);
}

#[test]
fn unauthorized_signer_cannot_pause_or_resume() {
    let mut env = Env::new();
    let intruder = key(41);
    assert_eq!(env.pause_as(&intruder, true), Err(StablecoinError::Unauthorized));
    env.assert_pause_states_agree(false);
    env.pause(true).expect("admin pause must succeed");
    assert_eq!(env.pause_as(&intruder, false), Err(StablecoinError::Unauthorized));
    env.assert_pause_states_agree(true);
}

#[test]
fn double_pause_and_double_resume_fail_without_changing_state() {
    let mut env = Env::new();
    assert_eq!(env.pause(false), Err(StablecoinError::PauseStateUnchanged));
    env.assert_pause_states_agree(false);
    env.pause(true).expect("pause must succeed");
    assert_eq!(env.pause(true), Err(StablecoinError::PauseStateUnchanged));
    env.assert_pause_states_agree(true);
}

#[test]
fn corrupted_mirror_state_reports_drift_without_changing_state() {
    let mut env = Env::new();
    env.config.paused = true;
    assert_eq!(env.pause(false), Err(StablecoinError::PauseStateDrift));
    assert_eq!(env.pause(true), Err(StablecoinError::PauseStateDrift));
    assert!(!env.live_paused);
    assert!(env.config.paused);
}

#[test]
fn complete_pause_requires_the_requested_live_state() {
    let env = Env::new();
    assert_eq!(
        complete_pause(&env.config, &admin(), false, true),
        Err(StablecoinError::PauseStateDrift)
    );
}

#[test]
fn supply_cap_can_be_increased() {
    let mut env = Env::new();
    let raised = SUPPLY_CAP * 2;
    env.update(Some(raised), None, None).expect("raising the cap must succeed");
    assert_eq!(env.config.supply_cap, raised);
}

/// An allowed account holding `amount`, minted by a freshly granted minter.
fn funded_account(env: &mut Env, amount: u64) -> TokenAccount {
    let destination = env.account(20);
    let policy = env.allowed(&destination);
    let mut role = env.minter(&key(30), ALLOWANCE);
    env.mint_to(&mut role, &destination, &policy, amount).expect("minting must succeed");
    destination
}

#[test]
fn supply_cap_can_be_lowered_above_and_exactly_to_current_supply() {
    let mut env = Env::new();
    funded_account(&mut env, 10_000);
    env.update(Some(50_000), None, None).expect("lowering above supply must succeed");
    assert_eq!(env.config.supply_cap, 50_000);
    env.update(Some(10_000), None, None)
        .expect("lowering to exactly the supply must succeed");
    assert_eq!(env.config.supply_cap, 10_000);
}

#[test]
fn invalid_supply_caps_are_rejected() {
    let mut env = Env::new();
    funded_account(&mut env, 10_000);
    assert_eq!(env.update(Some(0), None, None), Err(StablecoinError::ZeroSupplyCap));
    assert_eq!(
        env.update(Some(MAX_SUPPLY_CAP + 1), None, None),
        Err(StablecoinError::SupplyCapTooLarge)
    );
    assert_eq!(env.update(Some(9_999), None, None), Err(StablecoinError::SupplyCapBelowSupply));
    assert_eq!(env.config.supply_cap, SUPPLY_CAP);
}

#[test]
fn counters_below_the_live_supply_block_supply_cap_changes() {
    let mut env = Env::new();
    funded_account(&mut env, 10_000);
    env.config.total_minted -= 1;
    assert_eq!(
        env.update(Some(50_000), None, None),
        Err(StablecoinError::CounterInvariantViolation)
    );
}

#[test]
fn invalid_and_empty_updates_are_rejected() {
    let mut env = Env::new();
    assert_eq!(
        env.update(None, Some(Pubkey::default_key()), None),
        Err(StablecoinError::InvalidAuthority)
    );
    assert_eq!(env.update(None, None, None), Err(StablecoinError::NoConfigChange));
}

#[test]
fn config_updates_work_while_paused() {
    let mut env = Env::new();
    env.pause(true).expect("pause must succeed");
    let compliance = key(42);
    let nominee = key(43);
    env.update(Some(2_000), Some(compliance), Some(nominee))
        .expect("config updates must work while paused");
    assert_eq!(env.config.supply_cap, 2_000);
    assert_eq!(env.config.compliance_authority, compliance);
    assert_eq!(env.config.pending_admin, Some(nominee));
    assert!(env.config.paused);
}

#[test]
fn updates_leave_unrelated_fields_untouched() {
    let mut env = Env::new();
    funded_account(&mut env, 10_000);
    let before = env.config;
    env.update(Some(777_777), None, None).expect("update must succeed");
    let after = env.config;
    assert_eq!(after.supply_cap, 777_777);
    assert_eq!(after.admin, before.admin);
    assert_eq!(after.pending_admin, before.pending_admin);
    assert_eq!(after.compliance_authority, before.compliance_authority);
    assert_eq!(after.mint, before.mint);
    assert_eq!(after.symbol, before.symbol);
    assert_eq!(after.decimals, before.decimals);
    assert_eq!(after.total_minted, before.total_minted);
    assert_eq!(after.total_burned, before.total_burned);
    assert_eq!(after.paused, before.paused);
    assert_eq!(after.bump, before.bump);
    assert_eq!(after.mint_bump, before.mint_bump);
}

#[test]
fn unauthorized_config_update_is_rejected() {
    let mut env = Env::new();
    let intruder = key(44);
    assert_eq!(
        env.update_as(&intruder, Some(1_000), None, None),
        Err(StablecoinError::Unauthorized)
    );
}

#[test]
fn nomination_does_not_change_the_current_admin() {
    let mut env = Env::new();
    let nominee = key(45);
    env.update(None, None, Some(nominee)).expect("nomination must succeed");
    assert_eq!(env.config.admin, admin());
    assert_eq!(env.config.pending_admin, Some(nominee));
}

#[test]
fn only_the_pending_admin_can_accept() {
    let mut env = Env::new();
    let nominee = key(46);
    let intruder = key(47);
    env.update(None, None, Some(nominee)).expect("nomination must succeed");
    assert_eq!(env.accept(&intruder), Err(StablecoinError::NoPendingAdmin));
    assert_eq!(env.config.admin, admin());
    env.accept(&nominee).expect("acceptance must succeed");
    assert_eq!(env.config.admin, nominee);
    assert_eq!(env.config.pending_admin, None);
    assert_eq!(env.accept(&nominee), Err(StablecoinError::NoPendingAdmin));
}

#[test]
fn admin_rotation_transfers_every_admin_permission() {
    let mut env = Env::new();
    let compliance = key(48);
    env.update(None, Some(compliance), None).expect("compliance rotation must succeed");
    let nominee = key(49);
    env.update(None, None, Some(nominee)).expect("nomination must succeed");
    env.accept(&nominee).expect("acceptance must succeed");

    let old_admin = admin();
    assert_eq!(
        grant_minter(&env.config, &config_key(), &old_admin, &key(50), 1_000, 1),
        Err(StablecoinError::Unauthorized)
    );
    let (role, _) = grant_minter(&env.config, &config_key(), &nominee, &key(50), 1_000, 1)
        .expect("the new admin must be able to grant");
    revoke_minter(&env.config, &config_key(), &nominee, &key(50), &role)
        .expect("the new admin must be able to revoke");
    env.update(Some(1_000), None, None).expect("the new admin must be able to update config");
    env.pause(true).expect("the new admin must be able to pause");
}

#[test]
fn admin_rotation_leaves_compliance_authority_unchanged() {
    let mut env = Env::new();
    let nominee = key(51);
    env.update(None, None, Some(nominee)).expect("nomination must succeed");
    env.accept(&nominee).expect("acceptance must succeed");
    assert_eq!(env.config.compliance_authority, admin());
    let account = env.account(60);
    plan_wallet_policy(&env.config, &admin(), &account, PolicyStatus::Allowed, true)
        .expect("the unchanged compliance authority must keep its policy access");
}

#[test]
fn invalid_nominations_are_rejected() {
    let mut env = Env::new();
    assert_eq!(
        env.update(None, None, Some(Pubkey::default_key())),
        Err(StablecoinError::InvalidPendingAdmin)
    );
    assert_eq!(env.update(None, None, Some(admin())), Err(StablecoinError::InvalidPendingAdmin));
    assert_eq!(env.config.pending_admin, None);
}

#[test]
fn a_newer_nomination_replaces_an_unaccepted_one() {
    let mut env = Env::new();
    let first = key(52);
    let second = key(53);
    env.update(None, None, Some(first)).expect("first nomination must succeed");
    env.update(None, None, Some(second)).expect("second nomination must succeed");
    assert_eq!(env.config.pending_admin, Some(second));
    assert_eq!(env.accept(&first), Err(StablecoinError::NoPendingAdmin));
    env.accept(&second).expect("the latest nominee must be able to accept");
    assert_eq!(env.config.admin, second);
}

#[test]
fn allowing_a_fresh_account_thaws_it() {
    let env = Env::new();
    let account = env.account(20);
    let frozen = true;
    assert_eq!(
        plan_wallet_policy(&env.config, &admin(), &account, PolicyStatus::Allowed, frozen),
        Ok(FreezeAction::Thaw)
    );
    let (policy, event) =
        record_wallet_policy(&env.config, &admin(), &account, PolicyStatus::Allowed, false, 7, 250)
            .expect("allowing must succeed");
    assert_eq!(policy.status, PolicyStatus::Allowed);
    assert_eq!(event.status, PolicyStatus::Allowed);
}

#[test]
fn blocking_an_allowed_account_freezes_it() {
    let env = Env::new();
    let account = env.account(20);
    assert_eq!(
        plan_wallet_policy(&env.config, &admin(), &account, PolicyStatus::Blocked, false),
        Ok(FreezeAction::Freeze)
    );
    let (policy, _) =
        record_wallet_policy(&env.config, &admin(), &account, PolicyStatus::Blocked, true, 7, 250)
            .expect("blocking must succeed");
    assert_eq!(policy.status, PolicyStatus::Blocked);
}

#[test]
fn allow_block_allow_cycle_keeps_policy_and_freeze_state_in_sync() {
    let env = Env::new();
    let account = env.account(20);
    let mut frozen = true;
    for status in [PolicyStatus::Allowed, PolicyStatus::Blocked, PolicyStatus::Allowed] {
        let action = plan_wallet_policy(&env.config, &admin(), &account, status, frozen)
            .expect("policy change must succeed");
        frozen = match action {
            FreezeAction::Keep => frozen,
            FreezeAction::Freeze => true,
            FreezeAction::Thaw => false,
        };
        let (policy, _) =
            record_wallet_policy(&env.config, &admin(), &account, status, frozen, 7, 250)
                .expect("policy change must succeed");
        assert_eq!(policy.status, status);
        assert_eq!(frozen, status == PolicyStatus::Blocked);
    }
}

#[test]
fn reapplying_the_same_status_is_idempotent() {
    let env = Env::new();
    let account = env.account(20);
    assert_eq!(
        plan_wallet_policy(&env.config, &admin(), &account, PolicyStatus::Allowed, false),
        Ok(FreezeAction::Keep)
    );
    assert_eq!(
        plan_wallet_policy(&env.config, &admin(), &account, PolicyStatus::Blocked, true),
        Ok(FreezeAction::Keep)
    );
}

#[test]
fn policy_records_identity_bump_and_updater() {
    let env = Env::new();
    let account = env.account(20);
    let (policy, _) =
        record_wallet_policy(&env.config, &admin(), &account, PolicyStatus::Allowed, false, 1_700_000_000, 251)
            .expect("allowing must succeed");
    assert_eq!(policy.mint, mint());
    assert_eq!(policy.token_account, account.key);
    assert_eq!(policy.owner, account.owner);
    assert_eq!(policy.updated_by, admin());
    assert_eq!(policy.updated_at, 1_700_000_000);
    assert_eq!(policy.bump, 251);
}

#[test]
fn a_policy_is_refused_when_the_freeze_state_disagrees() {
    let env = Env::new();
    let account = env.account(20);
    assert_eq!(
        record_wallet_policy(&env.config, &admin(), &account, PolicyStatus::Allowed, true, 7, 250),
        Err(StablecoinError::PolicyStateMismatch)
    );
}

#[test]
fn unauthorized_policy_change_fails() {
    let env = Env::new();
    let account = env.account(20);
    assert_eq!(
        plan_wallet_policy(&env.config, &key(61), &account, PolicyStatus::Allowed, true),
        Err(StablecoinError::Unauthorized)
    );
}

#[test]
fn policy_for_token_account_of_another_mint_fails() {
    let env = Env::new();
    let foreign = TokenAccount { key: key(62), mint: key(63), owner: key(64), amount: 0 };
    assert_eq!(
        plan_wallet_policy(&env.config, &admin(), &foreign, PolicyStatus::Allowed, true),
        Err(StablecoinError::TokenAccountMintMismatch)
    );
}

#[test]
fn grant_and_revoke_minter() {
    let env = Env::new();
    let minter = key(30);
    let (role, event) = grant_minter(&env.config, &config_key(), &admin(), &minter, ALLOWANCE, 249)
        .expect("granting must succeed");
    assert_eq!(role.config, config_key());
    assert_eq!(role.authority, minter);
    assert_eq!(role.allowance, ALLOWANCE);
    assert_eq!(role.minted, 0);
    assert_eq!(role.bump, 249);
    assert_eq!(event.allowance, ALLOWANCE);
    let revoked = revoke_minter(&env.config, &config_key(), &admin(), &minter, &role)
        .expect("revoking must succeed");
    assert_eq!(revoked.minted, 0);
    assert_eq!(revoked.authority, minter);
}

#[test]
fn unauthorized_grant_and_revoke_fail() {
    let env = Env::new();
    let minter = key(30);
    let role = env.minter(&minter, ALLOWANCE);
    let intruder = key(65);
    assert_eq!(
        grant_minter(&env.config, &config_key(), &intruder, &intruder, ALLOWANCE, 1),
        Err(StablecoinError::Unauthorized)
    );
    assert_eq!(
        revoke_minter(&env.config, &config_key(), &intruder, &minter, &role),
        Err(StablecoinError::Unauthorized)
    );
    assert_eq!(
        revoke_minter(&env.config, &config_key(), &admin(), &key(66), &role),
        Err(StablecoinError::Unauthorized)
    );
}

#[test]
fn zero_allowance_and_default_authority_are_rejected() {
    let env = Env::new();
    assert_eq!(
        grant_minter(&env.config, &config_key(), &admin(), &key(30), 0, 1),
        Err(StablecoinError::ZeroAllowance)
    );
    assert_eq!(
        grant_minter(&env.config, &config_key(), &admin(), &Pubkey::default_key(), ALLOWANCE, 1),
        Err(StablecoinError::InvalidAuthority)
    );
}

#[test]
fn mint_to_allowed_account_updates_supply_role_and_counters() {
    let mut env = Env::new();
    let destination = env.account(20);
    let policy = env.allowed(&destination);
    let mut role = env.minter(&key(30), ALLOWANCE);
    let amount = 125_000_000;
    env.mint_to(&mut role, &destination, &policy, amount).expect("minting must succeed");
    assert_eq!(env.supply, amount);
    assert_eq!(role.minted, amount);
    assert_eq!(env.config.total_minted, u128::from(amount));
    assert_eq!(env.config.total_burned, 0);
    assert_eq!(ensure_supply_tracked(&env.config, env.supply), Ok(()));
}

#[test]
fn mint_reports_what_it_issued() {
    let env = Env::new();
    let destination = env.account(20);
    let policy = env.allowed(&destination);
    let role = env.minter(&key(30), ALLOWANCE);
    let outcome = mint_to(&env.config, &config_key(), &role, &key(30), &destination, &policy, 0, 5_000)
        .expect("minting must succeed");
    assert_eq!(outcome.new_supply, 5_000);
    assert_eq!(outcome.event.amount, 5_000);
    assert_eq!(outcome.event.minter_minted, 5_000);
    assert_eq!(outcome.event.supply, 5_000);
    assert_eq!(outcome.event.destination, destination.key);
    assert_eq!(outcome.event.minter, key(30));
}

#[test]
fn mint_exactly_to_allowance_succeeds_and_one_more_fails() {
    let mut env = Env::new();
    let destination = env.account(20);
    let policy = env.allowed(&destination);
    let mut role = env.minter(&key(30), ALLOWANCE);
    env.mint_to(&mut role, &destination, &policy, ALLOWANCE)
        .expect("minting the full allowance must succeed");
    assert_eq!(role.minted, ALLOWANCE);
    assert_eq!(ensure_supply_tracked(&env.config, env.supply), Ok(()));
    assert_eq!(
        env.mint_to(&mut role, &destination, &policy, 1),
        Err(StablecoinError::AllowanceExceeded)
    );
}

#[test]
fn mint_exactly_to_supply_cap_succeeds_and_one_more_fails() {
    let cap = 1_000_000;
    let mut env = Env::with_supply_cap(cap);
    let destination = env.account(20);
    let policy = env.allowed(&destination);
    let mut role = env.minter(&key(30), u64::MAX);
    env.mint_to(&mut role, &destination, &policy, cap).expect("minting up to the cap must succeed");
    assert_eq!(env.supply, cap);
    assert_eq!(ensure_supply_tracked(&env.config, env.supply), Ok(()));
    assert_eq!(
        env.mint_to(&mut role, &destination, &policy, 1),
        Err(StablecoinError::SupplyCapExceeded)
    );
}

#[test]
fn zero_mint_amount_is_rejected() {
    let mut env = Env::new();
    let destination = env.account(20);
    let policy = env.allowed(&destination);
    let mut role = env.minter(&key(30), ALLOWANCE);
    assert_eq!(env.mint_to(&mut role, &destination, &policy, 0), Err(StablecoinError::ZeroAmount));
}

#[test]
fn non_minter_and_revoked_minter_cannot_mint() {
    let env = Env::new();
    let destination = env.account(20);
    let policy = env.allowed(&destination);
    let role = env.minter(&key(30), ALLOWANCE);
    let stranger = key(67);
    assert_eq!(
        mint_to(&env.config, &config_key(), &role, &stranger, &destination, &policy, 0, 1),
        Err(StablecoinError::Unauthorized)
    );
    let other_config = key(68);
    assert_eq!(
        mint_to(&env.config, &other_config, &role, &key(30), &destination, &policy, 0, 1),
        Err(StablecoinError::Unauthorized)
    );
}

#[test]
fn minting_into_blocked_or_foreign_accounts_fails() {
    let env = Env::new();
    let destination = env.account(20);
    let role = env.minter(&key(30), ALLOWANCE);
    let (blocked, _) =
        record_wallet_policy(&env.config, &admin(), &destination, PolicyStatus::Blocked, true, 7, 250)
            .expect("blocking must succeed");
    assert_eq!(
        mint_to(&env.config, &config_key(), &role, &key(30), &destination, &blocked, 0, 1),
        Err(StablecoinError::WalletNotAllowed)
    );
    let foreign = TokenAccount { key: key(69), mint: key(70), owner: key(71), amount: 0 };
    let policy = env.allowed(&destination);
    assert_eq!(
        mint_to(&env.config, &config_key(), &role, &key(30), &foreign, &policy, 0, 1),
        Err(StablecoinError::TokenAccountMintMismatch)
    );
}

#[test]
fn partial_and_full_burn_update_supply_and_counters() {
    let mut env = Env::new();
    let account = env.account(20);
    let owner = account.owner;
    let policy = env.allowed(&account);
    let mut role = env.minter(&key(30), ALLOWANCE);
    let minted = 400_000_000;
    env.mint_to(&mut role, &account, &policy, minted).expect("minting must succeed");

    env.burn(&owner, &account, 150_000_000).expect("partial burn must succeed");
    assert_eq!(env.supply, 250_000_000);
    assert_eq!(env.config.total_burned, 150_000_000);
    assert_eq!(ensure_supply_tracked(&env.config, env.supply), Ok(()));

    env.burn(&owner, &account, 250_000_000).expect("full burn must succeed");
    assert_eq!(env.supply, 0);
    assert_eq!(env.config.total_minted, u128::from(minted));
    assert_eq!(env.config.total_burned, u128::from(minted));
    assert_eq!(ensure_supply_tracked(&env.config, env.supply), Ok(()));
}

#[test]
fn zero_burn_is_rejected() {
    let mut env = Env::new();
    let account = env.account(20);
    let owner = account.owner;
    assert_eq!(env.burn(&owner, &account, 0), Err(StablecoinError::ZeroAmount));
}

#[test]
fn burn_by_non_owner_is_rejected() {
    let mut env = Env::new();
    let account = funded_account(&mut env, 1_000);
    let stranger = key(72);
    assert_eq!(env.burn(&stranger, &account, 1), Err(StablecoinError::Unauthorized));
}

#[test]
fn paused_protocol_blocks_issuance_but_not_policy_changes() {
    let mut env = Env::new();
    let account = env.account(20);
    let owner = account.owner;
    let policy = env.allowed(&account);
    let mut role = env.minter(&key(30), ALLOWANCE);
    env.mint_to(&mut role, &account, &policy, 1_000).expect("minting must succeed");
    env.config.paused = true;
    assert_eq!(env.mint_to(&mut role, &account, &policy, 1), Err(StablecoinError::ProtocolPaused));
    assert_eq!(env.burn(&owner, &account, 1), Err(StablecoinError::ProtocolPaused));
    assert_eq!(
        plan_wallet_policy(&env.config, &admin(), &account, PolicyStatus::Blocked, false),
        Ok(FreezeAction::Freeze)
    );
}

#[test]
fn broken_supply_counters_block_issuance() {
    let mut env = Env::new();
    let account = env.account(20);
    let owner = account.owner;
    let policy = env.allowed(&account);
    let mut role = env.minter(&key(30), ALLOWANCE);
    env.mint_to(&mut role, &account, &policy, 1_000).expect("minting must succeed");

    env.config.total_burned = env.config.total_minted + 1;
    assert_eq!(
        env.mint_to(&mut role, &account, &policy, 1),
        Err(StablecoinError::CounterInvariantViolation)
    );
    assert_eq!(env.burn(&owner, &account, 1), Err(StablecoinError::CounterInvariantViolation));

    env.config.total_minted = 999;
    env.config.total_burned = 0;
    assert_eq!(
        env.mint_to(&mut role, &account, &policy, 1),
        Err(StablecoinError::CounterInvariantViolation)
    );
    assert_eq!(env.burn(&owner, &account, 1), Err(StablecoinError::CounterInvariantViolation));
}

#[test]
fn a_direct_token_2022_burn_leaves_the_program_counters_untouched() {
    let mut env = Env::new();
    let account = env.account(20);
    let owner = account.owner;
    let policy = env.allowed(&account);
    let mut role = env.minter(&key(30), ALLOWANCE);
    env.mint_to(&mut role, &account, &policy, 10_000).expect("minting must succeed");

    // The owner burns 4_000 through Token-2022 itself: only the live supply changes.
    env.supply -= 4_000;
    assert_eq!(env.supply, 6_000);
    assert_eq!(env.config.total_minted, 10_000);
    assert_eq!(env.config.total_burned, 0);

    env.mint_to(&mut role, &account, &policy, 2_000).expect("minting must still succeed");
    env.burn(&owner, &account, 1_000).expect("program burning must still succeed");
    env.update(Some(SUPPLY_CAP / 2), None, None).expect("supply cap updates must still succeed");
    assert_eq!(env.supply, 7_000);
    assert!(env.supply <= env.config.supply_cap);
    let outstanding = env
        .config
        .total_minted
        .checked_sub(env.config.total_burned)
        .expect("tracked outstanding supply must not underflow");
    assert!(outstanding >= u128::from(env.supply));
    assert_eq!(env.config.total_minted, 12_000);
    assert_eq!(env.config.total_burned, 1_000);
}

#[test]
fn confirm_supply_requires_the_planned_supply() {
    assert_eq!(confirm_supply(10, 10), Ok(()));
    assert_eq!(confirm_supply(10, 11), Err(StablecoinError::CounterInvariantViolation));
}

#[test]
fn minting_keeps_the_issuance_invariant() {
    let mut env = Env::new();
    let account = env.account(20);
    let policy = env.allowed(&account);
    let mut role = env.minter(&key(30), ALLOWANCE);
    for amount in [1, 999, 123_456, 7] {
        assert_eq!(ensure_supply_tracked(&env.config, env.supply), Ok(()));
        env.mint_to(&mut role, &account, &policy, amount).expect("minting must succeed");
        assert_eq!(ensure_supply_tracked(&env.config, env.supply), Ok(()));
    }
    assert_eq!(env.supply, 124_463);
}

#[test]
fn policy_status_reports_blocking() {
    assert!(PolicyStatus::Blocked.is_blocked());
    assert!(!PolicyStatus::Allowed.is_blocked());
}

#[test]
fn minter_lifecycle_emits_typed_events() {
    let mut env = Env::new();
    let minter = key(30);
    let (mut role, granted) =
        grant_minter(&env.config, &config_key(), &admin(), &minter, ALLOWANCE, 249).expect("grant failed");
    assert_eq!(granted.config, config_key());
    assert_eq!(granted.authority, minter);
    assert_eq!(granted.allowance, ALLOWANCE);

    let destination = TokenAccount { key: key(20), mint: mint(), owner: minter, amount: 0 };
    let (policy, changed) =
        record_wallet_policy(&env.config, &admin(), &destination, PolicyStatus::Allowed, false, 7, 250)
            .expect("policy failed");
    assert_eq!(changed.mint, mint());
    assert_eq!(changed.token_account, destination.key);
    assert_eq!(changed.owner, minter);
    assert_eq!(changed.status, PolicyStatus::Allowed);
    assert_eq!(changed.updated_by, admin());

    let outcome = mint_to(&env.config, &config_key(), &role, &minter, &destination, &policy, env.supply, 5_000)
        .expect("mint failed");
    assert_eq!(outcome.event.mint, mint());
    assert_eq!(outcome.event.minter, minter);
    assert_eq!(outcome.event.destination, destination.key);
    assert_eq!(outcome.event.amount, 5_000);
    assert_eq!(outcome.event.minter_minted, 5_000);
    assert_eq!(outcome.event.supply, 5_000);
    env.config = outcome.config;
    env.supply = outcome.new_supply;
    role = outcome.role;

    let burned = env.burn_reporting(&minter, &destination, 2_000).expect("burn failed");
    assert_eq!(burned.owner, minter);
    assert_eq!(burned.source, destination.key);
    assert_eq!(burned.amount, 2_000);
    assert_eq!(burned.supply, 3_000);

    let revoked = revoke_minter(&env.config, &config_key(), &admin(), &minter, &role).expect("revoke failed");
    assert_eq!(revoked.authority, minter);
    assert_eq!(revoked.minted, 5_000);
}

#[test]
fn pause_config_and_admin_changes_emit_typed_events() {
    let env = Env::new();
    begin_pause(&env.config, &admin(), false, true).expect("pause failed");
    let (paused_config, paused) = complete_pause(&env.config, &admin(), true, true).expect("pause failed");
    assert_eq!(paused.mint, mint());
    assert_eq!(paused.authority, admin());
    assert!(paused.paused);

    let compliance = key(54);
    let successor = key(55);
    let (updated_config, updated) =
        update_config(&paused_config, &admin(), 0, Some(SUPPLY_CAP / 2), Some(compliance), Some(successor))
            .expect("update failed");
    assert_eq!(updated.mint, mint());
    assert_eq!(updated.admin, admin());
    assert_eq!(updated.supply_cap, SUPPLY_CAP / 2);
    assert_eq!(updated.compliance_authority, compliance);
    assert_eq!(updated.pending_admin, Some(successor));

    let (_, accepted) = accept_admin(&updated_config, &successor).expect("accept failed");
    assert_eq!(accepted.mint, mint());
    assert_eq!(accepted.previous_admin, admin());
    assert_eq!(accepted.admin, successor);
}
