//! The asset registry: platform configuration and the metadata of each
//! registered asset.

use vstd::prelude::*;
use vstd::utf8::encode_utf8;
use crate::address::Address;
use crate::ledger::{Account, TransferOrder};

verus! {

/// Most bytes in an asset's name.
pub const MAX_NAME_LEN: usize = 64;

/// Most bytes in an asset's URI.
pub const MAX_URI_LEN: usize = 200;

/// Most bytes in an asset's condition.
pub const MAX_CONDITION_LEN: usize = 32;

/// Why a registry call was rejected.
#[derive(Clone, Copy, Debug, PartialEq, Eq, Structural)]
pub enum RwaNftError {
    NameTooLong,
    UriTooLong,
    ConditionTooLong,
    UnauthorizedMinter,
    UnauthorizedUpdater,
    OverflowError,
}

/// The kind of a registered asset.
#[derive(Clone, Copy, Debug, PartialEq, Eq, Structural)]
pub enum AssetCategory {
    DigitalArt,
    Spirits,
    TCGCards,
    SportsCards,
    Watches,
}

/// The platform's configuration.
#[derive(Clone, Copy, Debug, PartialEq, Eq)]
pub struct PlatformConfig {
    pub authority: Address,
    pub treasury: Address,
    pub fee_basis_points: u16,
    pub total_minted: u32,
    pub created_at: i64,
    pub bump: u8,
}

/// The metadata of one registered asset.
#[derive(Clone, Debug, PartialEq, Eq)]
pub struct RwaMetadata {
    pub mint: Address,
    pub name: String,
    pub category: AssetCategory,
    pub uri: String,
    pub appraised_value: u64,
    pub condition: String,
    pub minted_at: i64,
    pub appraised_at: i64,
    pub bump: u8,
}

/// Notification of a newly registered asset.
#[derive(Clone, Debug, PartialEq, Eq)]
pub struct RwaNftMinted {
    pub mint: Address,
    pub name: String,
    pub category: AssetCategory,
    pub appraised_value: u64,
    pub timestamp: i64,
}

/// Notification of a new appraisal.
#[derive(Clone, Copy, Debug, PartialEq, Eq)]
pub struct AppraisalUpdated {
    pub mint: Address,
    pub new_value: u64,
    pub timestamp: i64,
}

/// Notification of a change of owner.
#[derive(Clone, Copy, Debug, PartialEq, Eq)]
pub struct RwaNftTransferred {
    pub mint: Address,
    pub from: Address,
    pub to: Address,
    pub timestamp: i64,
}

/// What `initialize` reads of its caller and accounts.
#[derive(Clone, Copy, Debug, PartialEq, Eq)]
pub struct Initialize {
    pub authority: Address,
    pub bump: u8,
}

/// What `mint_rwa_nft` reads and updates: the configuration, the asset's
/// identity and the caller.
#[derive(Clone, Copy, Debug, PartialEq, Eq)]
pub struct MintRwaNft {
    pub platform_config: PlatformConfig,
    pub mint: Address,
    pub authority: Address,
    pub bump: u8,
}

/// What `update_appraisal` reads and updates: the configuration, the
/// asset's metadata and the caller.
#[derive(Clone, Debug, PartialEq, Eq)]
pub struct UpdateAppraisal {
    pub platform_config: PlatformConfig,
    pub rwa_metadata: RwaMetadata,
    pub authority: Address,
}

/// What `transfer_rwa` reads: the asset, its owner, who calls, and the owner
/// of the receiving account.
#[derive(Clone, Copy, Debug, PartialEq, Eq)]
pub struct TransferRwa {
    pub mint: Address,
    pub owner: Address,
    pub recipient: Address,
}

/// The length of a text in bytes, as it is stored.
pub open spec fn byte_len(text: Seq<char>) -> nat {
    encode_utf8(text).len()
}

/// The error with which the registration of an asset is rejected, if it is.
pub open spec fn mint_rejection(
    config: PlatformConfig,
    caller: Address,
    name: Seq<char>,
    uri: Seq<char>,
    condition: Seq<char>,
) -> Option<RwaNftError> {
    if byte_len(name) > MAX_NAME_LEN {
        Some(RwaNftError::NameTooLong)
    } else if byte_len(uri) > MAX_URI_LEN {
        Some(RwaNftError::UriTooLong)
    } else if byte_len(condition) > MAX_CONDITION_LEN {
        Some(RwaNftError::ConditionTooLong)
    } else if caller != config.authority {
        Some(RwaNftError::UnauthorizedMinter)
    } else if config.total_minted == u32::MAX {
        Some(RwaNftError::OverflowError)
    } else {
        None
    }
}

/// Makes the platform's configuration, with `ctx.authority` as its
/// authority and nothing registered yet.
pub fn initialize(ctx: &Initialize, treasury: Address, fee_basis_points: u16, now: i64) -> (r:
    PlatformConfig)
    ensures
        r == (PlatformConfig {
            authority: ctx.authority,
            treasury,
            fee_basis_points,
            total_minted: 0,
            created_at: now,
            bump: ctx.bump,
        }),
{
    PlatformConfig {
        authority: ctx.authority,
        treasury,
        fee_basis_points,
        total_minted: 0,
        created_at: now,
        bump: ctx.bump,
    }
}

/// Registers an asset on behalf of `ctx.authority`, who must be the
/// platform's authority, and counts it. The texts must fit their limits. A
/// rejected call changes nothing.
pub fn mint_rwa_nft(
    ctx: &mut MintRwaNft,
    name: String,
    category: AssetCategory,
    uri: String,
    appraised_value: u64,
    condition: String,
    now: i64,
) -> (r: Result<(RwaMetadata, RwaNftMinted), RwaNftError>)
    ensures
        match r {
            Ok((metadata, event)) => {
                &&& mint_rejection(
                    old(ctx).platform_config,
                    old(ctx).authority,
                    name@,
                    uri@,
                    condition@,
                ) is None
                &&& *final(ctx) == (MintRwaNft {
                    platform_config: PlatformConfig {
                        total_minted: (old(ctx).platform_config.total_minted + 1) as u32,
                        ..old(ctx).platform_config
                    },
                    ..*old(ctx)
                })
                &&& metadata == (RwaMetadata {
                    mint: old(ctx).mint,
                    name,
                    category,
                    uri,
                    appraised_value,
                    condition,
                    minted_at: now,
                    appraised_at: now,
                    bump: old(ctx).bump,
                })
                &&& event.mint == old(ctx).mint
                &&& event.name@ == name@
                &&& event.category == category
                &&& event.appraised_value == appraised_value
                &&& event.timestamp == now
            },
            Err(e) => {
                &&& mint_rejection(
                    old(ctx).platform_config,
                    old(ctx).authority,
                    name@,
                    uri@,
                    condition@,
                ) == Some(e)
                &&& *final(ctx) == *old(ctx)
            },
        },
{
    if name.as_str().as_bytes().len() > MAX_NAME_LEN {
        return Err(RwaNftError::NameTooLong);
    }
    if uri.as_str().as_bytes().len() > MAX_URI_LEN {
        return Err(RwaNftError::UriTooLong);
    }
    if condition.as_str().as_bytes().len() > MAX_CONDITION_LEN {
        return Err(RwaNftError::ConditionTooLong);
    }
    if !ctx.authority.same(&ctx.platform_config.authority) {
        return Err(RwaNftError::UnauthorizedMinter);
    }
    let total_minted: u32 = match ctx.platform_config.total_minted.checked_add(1) {
        Some(n) => n,
        None => {
            return Err(RwaNftError::OverflowError);
        },
    };
    let event = RwaNftMinted {
        mint: ctx.mint,
        name: name.clone(),
        category,
        appraised_value,
        timestamp: now,
    };
    let metadata = RwaMetadata {
        mint: ctx.mint,
        name,
        category,
        uri,
        appraised_value,
        condition,
        minted_at: now,
        appraised_at: now,
        bump: ctx.bump,
    };
    ctx.platform_config.total_minted = total_minted;
    Ok((metadata, event))
}

/// Sets the appraised value of an asset on behalf of `ctx.authority`, who
/// must be the platform's authority. A rejected call changes nothing.
pub fn update_appraisal(ctx: &mut UpdateAppraisal, new_appraised_value: u64, now: i64) -> (r:
    Result<AppraisalUpdated, RwaNftError>)
    ensures
        match r {
            Ok(event) => {
                &&& old(ctx).authority == old(ctx).platform_config.authority
                &&& *final(ctx) == (UpdateAppraisal {
                    rwa_metadata: RwaMetadata {
                        appraised_value: new_appraised_value,
                        appraised_at: now,
                        ..old(ctx).rwa_metadata
                    },
                    ..*old(ctx)
                })
                &&& event == (AppraisalUpdated {
                    mint: old(ctx).rwa_metadata.mint,
                    new_value: new_appraised_value,
                    timestamp: now,
                })
            },
            Err(e) => {
                &&& old(ctx).authority != old(ctx).platform_config.authority
                &&& e == RwaNftError::UnauthorizedUpdater
                &&& *final(ctx) == *old(ctx)
            },
        },
{
    if !ctx.authority.same(&ctx.platform_config.authority) {
        return Err(RwaNftError::UnauthorizedUpdater);
    }
    ctx.rwa_metadata.appraised_value = new_appraised_value;
    ctx.rwa_metadata.appraised_at = now;
    Ok(
        AppraisalUpdated {
            mint: ctx.rwa_metadata.mint,
            new_value: new_appraised_value,
            timestamp: now,
        },
    )
}

/// Orders the transfer of `amount` units of an asset from its owner to the
/// recipient, and gives the notification of it.
pub fn transfer_rwa(ctx: &TransferRwa, amount: u64, now: i64) -> (r: (
    TransferOrder,
    RwaNftTransferred,
))
    ensures
        r.0 == (TransferOrder {
            from: Account::AssetHolding(ctx.owner),
            to: Account::AssetHolding(ctx.recipient),
            amount,
        }),
        r.1 == (RwaNftTransferred {
            mint: ctx.mint,
            from: ctx.owner,
            to: ctx.recipient,
            timestamp: now,
        }),
{
    (
        TransferOrder::new(
            Account::AssetHolding(ctx.owner),
            Account::AssetHolding(ctx.recipient),
            amount,
        ),
        RwaNftTransferred { mint: ctx.mint, from: ctx.owner, to: ctx.recipient, timestamp: now },
    )
}

impl RwaNftError {
    /// The text of the message that goes with this error.
    pub open spec fn message_text(self) -> Seq<char> {
        match self {
            RwaNftError::NameTooLong => "Name exceeds maximum length of 64"@,
            RwaNftError::UriTooLong => "URI exceeds maximum length of 200"@,
            RwaNftError::ConditionTooLong => "Condition exceeds maximum length of 32"@,
            RwaNftError::UnauthorizedMinter => "Only the authority can mint RWA NFTs"@,
            RwaNftError::UnauthorizedUpdater => "Only the authority can update appraisals"@,
            RwaNftError::OverflowError => "Overflow error"@,
        }
    }

    /// The message that goes with this error.
    pub fn message(&self) -> (r: String)
        ensures
            r@ == self.message_text(),
    {
        match self {
            RwaNftError::NameTooLong => "Name exceeds maximum length of 64".to_owned(),
            RwaNftError::UriTooLong => "URI exceeds maximum length of 200".to_owned(),
            RwaNftError::ConditionTooLong => "Condition exceeds maximum length of 32".to_owned(),
            RwaNftError::UnauthorizedMinter => "Only the authority can mint RWA NFTs".to_owned(),
            RwaNftError::UnauthorizedUpdater => "Only the authority can update appraisals".to_owned(),
            RwaNftError::OverflowError => "Overflow error".to_owned(),
        }
    }
}

} // verus!
