use stablecoin_amm::amm;
use stablecoin_amm::pubkey::Pubkey;
use stablecoin_amm::stablecoin;

#[test]
fn programs_have_distinct_ids() {
    assert_ne!(
        stablecoin::id(),
        amm::id(),
        "stablecoin and amm must not share a program id"
    );
}

#[test]
fn keys_compare_by_their_bytes() {
    let zero = Pubkey::default_key();
    assert!(zero.is_default());
    assert!(!stablecoin::id().is_default());
    assert_eq!(zero.to_bytes(), [0u8; 32]);
    assert!(zero.same_as(&Pubkey::new([0u8; 32])));
    assert!(!zero.same_as(&stablecoin::id()));
    assert!(zero.precedes(&stablecoin::id()));
    assert_eq!(stablecoin::id().to_bytes()[0], 78);
}
