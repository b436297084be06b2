use rwa_auction::address::Address;
use rwa_auction::ledger::{Account, TransferOrder};
use rwa_auction::registry::{
    initialize, mint_rwa_nft, transfer_rwa, update_appraisal, AppraisalUpdated, AssetCategory,
    Initialize, MintRwaNft, PlatformConfig, RwaMetadata, RwaNftError, RwaNftMinted,
    RwaNftTransferred, TransferRwa, UpdateAppraisal,
};

fn who(tag: u8) -> Address {
    Address::new([tag; 32])
}

fn config() -> PlatformConfig {
    initialize(&Initialize { authority: who(1), bump: 9 }, who(2), 250, 1000)
}

fn minting(authority: u8) -> MintRwaNft {
    MintRwaNft { platform_config: config(), mint: who(3), authority: who(authority), bump: 7 }
}

#[test]
fn initialize_sets_the_configuration() {
    assert_eq!(
        config(),
        PlatformConfig {
            authority: who(1),
            treasury: who(2),
            fee_basis_points: 250,
            total_minted: 0,
            created_at: 1000,
            bump: 9,
        }
    );
}

#[test]
fn mint_records_metadata_and_counts() {
    let mut ctx = minting(1);
    let (metadata, event) = mint_rwa_nft(
        &mut ctx,
        "Rare cask".to_string(),
        AssetCategory::Spirits,
        "https://example.org/cask".to_string(),
        5000,
        "sealed".to_string(),
        2000,
    )
    .unwrap();
    assert_eq!(
        metadata,
        RwaMetadata {
            mint: who(3),
            name: "Rare cask".to_string(),
            category: AssetCategory::Spirits,
            uri: "https://example.org/cask".to_string(),
            appraised_value: 5000,
            condition: "sealed".to_string(),
            minted_at: 2000,
            appraised_at: 2000,
            bump: 7,
        }
    );
    assert_eq!(
        event,
        RwaNftMinted {
            mint: who(3),
            name: "Rare cask".to_string(),
            category: AssetCategory::Spirits,
            appraised_value: 5000,
            timestamp: 2000,
        }
    );
    assert_eq!(ctx.platform_config.total_minted, 1);
    assert_eq!(PlatformConfig { total_minted: 0, ..ctx.platform_config }, config());
}

#[test]
fn mint_checks_the_lengths_in_bytes() {
    let mut ctx = minting(1);
    let ok = mint_rwa_nft(
        &mut ctx,
        "n".repeat(64),
        AssetCategory::Watches,
        "u".repeat(200),
        1,
        "c".repeat(32),
        1,
    );
    assert!(ok.is_ok());

    let before = ctx;
    let long_name = mint_rwa_nft(
        &mut ctx,
        "n".repeat(65),
        AssetCategory::Watches,
        "u".repeat(201),
        1,
        "c".repeat(33),
        1,
    );
    assert_eq!(long_name.unwrap_err(), RwaNftError::NameTooLong);
    let long_uri = mint_rwa_nft(
        &mut ctx,
        "n".repeat(64),
        AssetCategory::Watches,
        "u".repeat(201),
        1,
        "c".repeat(33),
        1,
    );
    assert_eq!(long_uri.unwrap_err(), RwaNftError::UriTooLong);
    let long_condition = mint_rwa_nft(
        &mut ctx,
        "n".repeat(64),
        AssetCategory::Watches,
        "u".repeat(200),
        1,
        "c".repeat(33),
        1,
    );
    assert_eq!(long_condition.unwrap_err(), RwaNftError::ConditionTooLong);
    // 33 two-byte letters are 66 bytes.
    let wide = mint_rwa_nft(
        &mut ctx,
        "\u{e9}".repeat(33),
        AssetCategory::Watches,
        String::new(),
        1,
        String::new(),
        1,
    );
    assert_eq!(wide.unwrap_err(), RwaNftError::NameTooLong);
    assert_eq!(ctx, before);
}

#[test]
fn mint_by_another_is_unauthorized() {
    let mut ctx = minting(8);
    let r = mint_rwa_nft(
        &mut ctx,
        "a".to_string(),
        AssetCategory::DigitalArt,
        "b".to_string(),
        1,
        "c".to_string(),
        1,
    );
    assert_eq!(r.unwrap_err(), RwaNftError::UnauthorizedMinter);
    assert_eq!(ctx, minting(8));
}

#[test]
fn mint_count_does_not_wrap() {
    let mut ctx = minting(1);
    ctx.platform_config.total_minted = u32::MAX;
    let r = mint_rwa_nft(
        &mut ctx,
        "a".to_string(),
        AssetCategory::TCGCards,
        "b".to_string(),
        1,
        "c".to_string(),
        1,
    );
    assert_eq!(r.unwrap_err(), RwaNftError::OverflowError);
    assert_eq!(ctx.platform_config.total_minted, u32::MAX);
}

#[test]
fn update_appraisal_by_authority_only() {
    let mut minted = minting(1);
    let (metadata, _) = mint_rwa_nft(
        &mut minted,
        "card".to_string(),
        AssetCategory::SportsCards,
        "uri".to_string(),
        10,
        "mint".to_string(),
        50,
    )
    .unwrap();
    let mut ctx = UpdateAppraisal {
        platform_config: minted.platform_config,
        rwa_metadata: metadata.clone(),
        authority: who(1),
    };
    let event = update_appraisal(&mut ctx, 99, 77).unwrap();
    assert_eq!(event, AppraisalUpdated { mint: who(3), new_value: 99, timestamp: 77 });
    assert_eq!(
        ctx.rwa_metadata,
        RwaMetadata { appraised_value: 99, appraised_at: 77, ..metadata.clone() }
    );

    let mut stranger = UpdateAppraisal {
        platform_config: minted.platform_config,
        rwa_metadata: metadata.clone(),
        authority: who(5),
    };
    assert_eq!(
        update_appraisal(&mut stranger, 1, 2).unwrap_err(),
        RwaNftError::UnauthorizedUpdater
    );
    assert_eq!(stranger.rwa_metadata, metadata);
}

#[test]
fn transfer_orders_the_move_between_holders() {
    let ctx = TransferRwa { mint: who(3), owner: who(4), recipient: who(5) };
    let (order, event) = transfer_rwa(&ctx, 1, 123);
    assert_eq!(
        order,
        TransferOrder {
            from: Account::AssetHolding(who(4)),
            to: Account::AssetHolding(who(5)),
            amount: 1,
        }
    );
    assert_eq!(
        event,
        RwaNftTransferred { mint: who(3), from: who(4), to: who(5), timestamp: 123 }
    );
}

#[test]
fn registry_error_messages() {
    assert_eq!(RwaNftError::NameTooLong.message(), "Name exceeds maximum length of 64");
    assert_eq!(RwaNftError::UriTooLong.message(), "URI exceeds maximum length of 200");
    assert_eq!(RwaNftError::ConditionTooLong.message(), "Condition exceeds maximum length of 32");
    assert_eq!(RwaNftError::UnauthorizedMinter.message(), "Only the authority can mint RWA NFTs");
    assert_eq!(
        RwaNftError::UnauthorizedUpdater.message(),
        "Only the authority can update appraisals"
    );
    assert_eq!(RwaNftError::OverflowError.message(), "Overflow error");
}
