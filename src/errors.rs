use vstd::prelude::*;

verus! {

/// Every failure the marketplace reports, grouped by hundreds into categories.
#[derive(Clone, Copy, Debug, PartialEq, Eq, Structural)]
pub enum ErrorCode {
    /// Invalid amount provided.
    InvalidAmount,
    /// Insufficient balance.
    InsufficientBalance,
    /// Unauthorized access.
    Unauthorized,
    /// Invalid account provided.
    InvalidAccount,
    /// Account not initialized.
    AccountNotInitialized,
    /// Invalid account owner.
    InvalidAccountOwner,
    /// Insufficient account space.
    InsufficientAccountSpace,
    /// Account already initialized.
    AccountAlreadyInitialized,
    /// Invalid timestamp.
    InvalidTimestamp,
    /// Operation expired.
    Expired,
    /// Math overflow.
    MathOverflow,
    /// Math underflow.
    MathUnderflow,
    /// Division by zero.
    DivisionByZero,
    /// Invalid percentage.
    InvalidPercentage,
    /// Value too low.
    ValueTooLow,
    /// Value too high.
    ValueTooHigh,
    /// Pool is inactive.
    PoolInactive,
    /// Pool already migrated.
    AlreadyMigrated,
    /// Migration threshold not met.
    ThresholdNotMet,
    /// Invalid pool configuration.
    InvalidPoolConfig,
    /// Pool creation failed.
    PoolCreationFailed,
    /// Pool not found.
    PoolNotFound,
    /// Invalid pricing configuration.
    InvalidPricingConfig,
    /// Pool paused.
    PoolPaused,
    /// Invalid NFT mint.
    InvalidNftMint,
    /// Insufficient NFT balance.
    InsufficientNftBalance,
    /// NFT not found.
    NftNotFound,
    /// NFT already exists.
    NftAlreadyExists,
    /// Invalid NFT metadata.
    InvalidNftMetadata,
    /// NFT transfer failed.
    NftTransferFailed,
    /// Cannot operate on own NFT.
    CannotOperateOnOwnNft,
    /// NFT not owned by user.
    NftNotOwned,
    /// Max supply reached.
    MaxSupplyReached,
    /// Invalid bid amount.
    InvalidBidAmount,
    /// Bid too low.
    BidTooLow,
    /// Bid too high.
    BidTooHigh,
    /// Bid not found.
    BidNotFound,
    /// Bid already exists.
    BidAlreadyExists,
    /// Bid expired.
    BidExpired,
    /// Cannot bid on own NFT.
    CannotBidOnOwnNft,
    /// Bid listing not active.
    BidListingNotActive,
    /// Bid listing expired.
    BidListingExpired,
    /// Invalid bid status.
    InvalidBidStatus,
    /// Insufficient bid increment.
    InsufficientBidIncrement,
    /// Bid must exceed bonding curve price.
    BidMustExceedBondingCurve,
    /// Bid below bonding curve price.
    BidBelowBondingCurve,
    /// Insufficient premium above bonding curve.
    InsufficientPremium,
    /// Invalid listing status.
    InvalidListingStatus,
    /// Listing not found.
    ListingNotFound,
    /// Listing already exists.
    ListingAlreadyExists,
    /// Listing expired.
    ListingExpired,
    /// Cannot list own NFT.
    CannotListOwnNft,
    /// Listing creation failed.
    ListingCreationFailed,
    /// Invalid listing duration.
    InvalidListingDuration,
    /// Insufficient escrow balance.
    InsufficientEscrowBalance,
    /// Escrow not found.
    EscrowNotFound,
    /// Escrow creation failed.
    EscrowCreationFailed,
    /// Escrow transfer failed.
    EscrowTransferFailed,
    /// Escrow not empty.
    EscrowNotEmpty,
    /// Invalid escrow amount.
    InvalidEscrowAmount,
    /// Invalid revenue split.
    InvalidRevenueSplit,
    /// Revenue distribution failed.
    RevenueDistributionFailed,
    /// Invalid minter tracker.
    InvalidMinterTracker,
    /// Collection distribution failed.
    CollectionDistributionFailed,
    /// Insufficient collection fees.
    InsufficientCollectionFees,
    /// Fee calculation error.
    FeeCalculationError,
    /// Invalid duration.
    InvalidDuration,
    /// Duration too short.
    DurationTooShort,
    /// Duration too long.
    DurationTooLong,
    /// Timestamp in the past.
    TimestampInPast,
    /// Timestamp too far in future.
    TimestampTooFarInFuture,
    /// Empty string not allowed.
    EmptyString,
    /// String too long.
    StringTooLong,
    /// Invalid string format.
    InvalidStringFormat,
    /// Invalid data format.
    InvalidDataFormat,
    /// Data corruption detected.
    DataCorruption,
    /// Invalid bonding curve parameters.
    InvalidBondingCurveParams,
    /// Bonding curve calculation failed.
    BondingCurveCalculationFailed,
    /// Price calculation overflow.
    PriceCalculationOverflow,
    /// Market cap calculation failed.
    MarketCapCalculationFailed,
    /// Invalid growth factor.
    InvalidGrowthFactor,
    /// Base price too low.
    BasePriceTooLow,
    /// Base price too high.
    BasePriceTooHigh,
    /// Dynamic pricing validation failed.
    DynamicPricingValidationFailed,
    /// Premium calculation failed.
    PremiumCalculationFailed,
    /// Bid increment calculation failed.
    BidIncrementCalculationFailed,
    /// Price update failed.
    PriceUpdateFailed,
    /// Minimum bid calculation failed.
    MinimumBidCalculationFailed,
    /// Invalid collection.
    InvalidCollection,
    /// Collection not found.
    CollectionNotFound,
    /// Collection already exists.
    CollectionAlreadyExists,
    /// Collection creation failed.
    CollectionCreationFailed,
    /// Invalid collection metadata.
    InvalidCollectionMetadata,
    /// Collection fee distribution failed.
    CollectionFeeDistributionFailed,
    /// Migration failed.
    MigrationFailed,
    /// Migration not allowed.
    MigrationNotAllowed,
    /// Migration already in progress.
    MigrationInProgress,
    /// Migration threshold calculation failed.
    MigrationThresholdCalculationFailed,
    /// Tensor integration failed.
    TensorIntegrationFailed,
    /// Admin operation failed.
    AdminOperationFailed,
    /// Not authorized as admin.
    NotAuthorizedAsAdmin,
    /// Invalid admin configuration.
    InvalidAdminConfiguration,
    /// Emergency pause failed.
    EmergencyPauseFailed,
    /// Configuration update failed.
    ConfigurationUpdateFailed,
    /// System error.
    SystemError,
    /// Internal state inconsistency.
    InternalStateInconsistency,
    /// Critical system failure.
    CriticalSystemFailure,
    /// Resource exhausted.
    ResourceExhausted,
    /// Operation not supported.
    OperationNotSupported,
}

/// The family an error code belongs to, fixed by its numeric range.
#[derive(Clone, Copy, Debug, PartialEq, Eq, Structural)]
pub enum ErrorCategory {
    General,
    Math,
    Pool,
    Nft,
    Bidding,
    Listing,
    Escrow,
    Revenue,
    Time,
    Data,
    BondingCurve,
    DynamicPricing,
    Collection,
    Migration,
    Admin,
    System,
    Unknown,
}

/// The numeric code that identifies an error.
pub open spec fn code_of(e: ErrorCode) -> u32 {
    match e {
        ErrorCode::InvalidAmount => 6000,
        ErrorCode::InsufficientBalance => 6001,
        ErrorCode::Unauthorized => 6002,
        ErrorCode::InvalidAccount => 6003,
        ErrorCode::AccountNotInitialized => 6004,
        ErrorCode::InvalidAccountOwner => 6005,
        ErrorCode::InsufficientAccountSpace => 6006,
        ErrorCode::AccountAlreadyInitialized => 6007,
        ErrorCode::InvalidTimestamp => 6008,
        ErrorCode::Expired => 6009,
        ErrorCode::MathOverflow => 6100,
        ErrorCode::MathUnderflow => 6101,
        ErrorCode::DivisionByZero => 6102,
        ErrorCode::InvalidPercentage => 6103,
        ErrorCode::ValueTooLow => 6104,
        ErrorCode::ValueTooHigh => 6105,
        ErrorCode::PoolInactive => 6200,
        ErrorCode::AlreadyMigrated => 6201,
        ErrorCode::ThresholdNotMet => 6202,
        ErrorCode::InvalidPoolConfig => 6203,
        ErrorCode::PoolCreationFailed => 6204,
        ErrorCode::PoolNotFound => 6205,
        ErrorCode::InvalidPricingConfig => 6206,
        ErrorCode::PoolPaused => 6207,
        ErrorCode::InvalidNftMint => 6300,
        ErrorCode::InsufficientNftBalance => 6301,
        ErrorCode::NftNotFound => 6302,
        ErrorCode::NftAlreadyExists => 6303,
        ErrorCode::InvalidNftMetadata => 6304,
        ErrorCode::NftTransferFailed => 6305,
        ErrorCode::CannotOperateOnOwnNft => 6306,
        ErrorCode::NftNotOwned => 6307,
        ErrorCode::MaxSupplyReached => 6308,
        ErrorCode::InvalidBidAmount => 6400,
        ErrorCode::BidTooLow => 6401,
        ErrorCode::BidTooHigh => 6402,
        ErrorCode::BidNotFound => 6403,
        ErrorCode::BidAlreadyExists => 6404,
        ErrorCode::BidExpired => 6405,
        ErrorCode::CannotBidOnOwnNft => 6406,
        ErrorCode::BidListingNotActive => 6407,
        ErrorCode::BidListingExpired => 6408,
        ErrorCode::InvalidBidStatus => 6409,
        ErrorCode::InsufficientBidIncrement => 6410,
        ErrorCode::BidMustExceedBondingCurve => 6411,
        ErrorCode::BidBelowBondingCurve => 6412,
        ErrorCode::InsufficientPremium => 6413,
        ErrorCode::InvalidListingStatus => 6500,
        ErrorCode::ListingNotFound => 6501,
        ErrorCode::ListingAlreadyExists => 6502,
        ErrorCode::ListingExpired => 6503,
        ErrorCode::CannotListOwnNft => 6504,
        ErrorCode::ListingCreationFailed => 6505,
        ErrorCode::InvalidListingDuration => 6506,
        ErrorCode::InsufficientEscrowBalance => 6600,
        ErrorCode::EscrowNotFound => 6601,
        ErrorCode::EscrowCreationFailed => 6602,
        ErrorCode::EscrowTransferFailed => 6603,
        ErrorCode::EscrowNotEmpty => 6604,
        ErrorCode::InvalidEscrowAmount => 6605,
        ErrorCode::InvalidRevenueSplit => 6700,
        ErrorCode::RevenueDistributionFailed => 6701,
        ErrorCode::InvalidMinterTracker => 6702,
        ErrorCode::CollectionDistributionFailed => 6703,
        ErrorCode::InsufficientCollectionFees => 6704,
        ErrorCode::FeeCalculationError => 6705,
        ErrorCode::InvalidDuration => 6800,
        ErrorCode::DurationTooShort => 6801,
        ErrorCode::DurationTooLong => 6802,
        ErrorCode::TimestampInPast => 6803,
        ErrorCode::TimestampTooFarInFuture => 6804,
        ErrorCode::EmptyString => 6900,
        ErrorCode::StringTooLong => 6901,
        ErrorCode::InvalidStringFormat => 6902,
        ErrorCode::InvalidDataFormat => 6903,
        ErrorCode::DataCorruption => 6904,
        ErrorCode::InvalidBondingCurveParams => 7000,
        ErrorCode::BondingCurveCalculationFailed => 7001,
        ErrorCode::PriceCalculationOverflow => 7002,
        ErrorCode::MarketCapCalculationFailed => 7003,
        ErrorCode::InvalidGrowthFactor => 7004,
        ErrorCode::BasePriceTooLow => 7005,
        ErrorCode::BasePriceTooHigh => 7006,
        ErrorCode::DynamicPricingValidationFailed => 7100,
        ErrorCode::PremiumCalculationFailed => 7101,
        ErrorCode::BidIncrementCalculationFailed => 7102,
        ErrorCode::PriceUpdateFailed => 7103,
        ErrorCode::MinimumBidCalculationFailed => 7104,
        ErrorCode::InvalidCollection => 7200,
        ErrorCode::CollectionNotFound => 7201,
        ErrorCode::CollectionAlreadyExists => 7202,
        ErrorCode::CollectionCreationFailed => 7203,
        ErrorCode::InvalidCollectionMetadata => 7204,
        ErrorCode::CollectionFeeDistributionFailed => 7205,
        ErrorCode::MigrationFailed => 7300,
        ErrorCode::MigrationNotAllowed => 7301,
        ErrorCode::MigrationInProgress => 7302,
        ErrorCode::MigrationThresholdCalculationFailed => 7303,
        ErrorCode::TensorIntegrationFailed => 7304,
        ErrorCode::AdminOperationFailed => 7400,
        ErrorCode::NotAuthorizedAsAdmin => 7401,
        ErrorCode::InvalidAdminConfiguration => 7402,
        ErrorCode::EmergencyPauseFailed => 7403,
        ErrorCode::ConfigurationUpdateFailed => 7404,
        ErrorCode::SystemError => 7500,
        ErrorCode::InternalStateInconsistency => 7501,
        ErrorCode::CriticalSystemFailure => 7502,
        ErrorCode::ResourceExhausted => 7503,
        ErrorCode::OperationNotSupported => 7504,
    }
}

/// The category of a numeric code: one per block of a hundred codes.
pub open spec fn category_of_code(c: u32) -> ErrorCategory {
    if 6000 <= c <= 6099 {
        ErrorCategory::General
    } else if 6100 <= c <= 6199 {
        ErrorCategory::Math
    } else if 6200 <= c <= 6299 {
        ErrorCategory::Pool
    } else if 6300 <= c <= 6399 {
        ErrorCategory::Nft
    } else if 6400 <= c <= 6499 {
        ErrorCategory::Bidding
    } else if 6500 <= c <= 6599 {
        ErrorCategory::Listing
    } else if 6600 <= c <= 6699 {
        ErrorCategory::Escrow
    } else if 6700 <= c <= 6799 {
        ErrorCategory::Revenue
    } else if 6800 <= c <= 6899 {
        ErrorCategory::Time
    } else if 6900 <= c <= 6999 {
        ErrorCategory::Data
    } else if 7000 <= c <= 7099 {
        ErrorCategory::BondingCurve
    } else if 7100 <= c <= 7199 {
        ErrorCategory::DynamicPricing
    } else if 7200 <= c <= 7299 {
        ErrorCategory::Collection
    } else if 7300 <= c <= 7399 {
        ErrorCategory::Migration
    } else if 7400 <= c <= 7499 {
        ErrorCategory::Admin
    } else if 7500 <= c <= 7599 {
        ErrorCategory::System
    } else {
        ErrorCategory::Unknown
    }
}

/// Errors of these categories mean a broken configuration or state: retrying cannot help.
pub open spec fn is_fatal_category(c: ErrorCategory) -> bool {
    c == ErrorCategory::Math || c == ErrorCategory::System
}

/// The short description attached to each error.
pub open spec fn message_of(e: ErrorCode) -> &'static str {
    match e {
        ErrorCode::InvalidAmount => "Invalid amount provided",
        ErrorCode::InsufficientBalance => "Insufficient balance",
        ErrorCode::Unauthorized => "Unauthorized access",
        ErrorCode::InvalidAccount => "Invalid account provided",
        ErrorCode::AccountNotInitialized => "Account not initialized",
        ErrorCode::InvalidAccountOwner => "Invalid account owner",
        ErrorCode::InsufficientAccountSpace => "Insufficient account space",
        ErrorCode::AccountAlreadyInitialized => "Account already initialized",
        ErrorCode::InvalidTimestamp => "Invalid timestamp",
        ErrorCode::Expired => "Operation expired",
        ErrorCode::MathOverflow => "Math overflow",
        ErrorCode::MathUnderflow => "Math underflow",
        ErrorCode::DivisionByZero => "Division by zero",
        ErrorCode::InvalidPercentage => "Invalid percentage",
        ErrorCode::ValueTooLow => "Value too low",
        ErrorCode::ValueTooHigh => "Value too high",
        ErrorCode::PoolInactive => "Pool is inactive",
        ErrorCode::AlreadyMigrated => "Pool already migrated",
        ErrorCode::ThresholdNotMet => "Migration threshold not met",
        ErrorCode::InvalidPoolConfig => "Invalid pool configuration",
        ErrorCode::PoolCreationFailed => "Pool creation failed",
        ErrorCode::PoolNotFound => "Pool not found",
        ErrorCode::InvalidPricingConfig => "Invalid pricing configuration",
        ErrorCode::PoolPaused => "Pool paused",
        ErrorCode::InvalidNftMint => "Invalid NFT mint",
        ErrorCode::InsufficientNftBalance => "Insufficient NFT balance",
        ErrorCode::NftNotFound => "NFT not found",
        ErrorCode::NftAlreadyExists => "NFT already exists",
        ErrorCode::InvalidNftMetadata => "Invalid NFT metadata",
        ErrorCode::NftTransferFailed => "NFT transfer failed",
        ErrorCode::CannotOperateOnOwnNft => "Cannot operate on own NFT",
        ErrorCode::NftNotOwned => "NFT not owned by user",
        ErrorCode::MaxSupplyReached => "Max supply reached",
        ErrorCode::InvalidBidAmount => "Invalid bid amount",
        ErrorCode::BidTooLow => "Bid too low",
        ErrorCode::BidTooHigh => "Bid too high",
        ErrorCode::BidNotFound => "Bid not found",
        ErrorCode::BidAlreadyExists => "Bid already exists",
        ErrorCode::BidExpired => "Bid expired",
        ErrorCode::CannotBidOnOwnNft => "Cannot bid on own NFT",
        ErrorCode::BidListingNotActive => "Bid listing not active",
        ErrorCode::BidListingExpired => "Bid listing expired",
        ErrorCode::InvalidBidStatus => "Invalid bid status",
        ErrorCode::InsufficientBidIncrement => "Insufficient bid increment",
        ErrorCode::BidMustExceedBondingCurve => "Bid must exceed bonding curve price",
        ErrorCode::BidBelowBondingCurve => "Bid below bonding curve price",
        ErrorCode::InsufficientPremium => "Insufficient premium above bonding curve",
        ErrorCode::InvalidListingStatus => "Invalid listing status",
        ErrorCode::ListingNotFound => "Listing not found",
        ErrorCode::ListingAlreadyExists => "Listing already exists",
        ErrorCode::ListingExpired => "Listing expired",
        ErrorCode::CannotListOwnNft => "Cannot list own NFT",
        ErrorCode::ListingCreationFailed => "Listing creation failed",
        ErrorCode::InvalidListingDuration => "Invalid listing duration",
        ErrorCode::InsufficientEscrowBalance => "Insufficient escrow balance",
        ErrorCode::EscrowNotFound => "Escrow not found",
        ErrorCode::EscrowCreationFailed => "Escrow creation failed",
        ErrorCode::EscrowTransferFailed => "Escrow transfer failed",
        ErrorCode::EscrowNotEmpty => "Escrow not empty",
        ErrorCode::InvalidEscrowAmount => "Invalid escrow amount",
        ErrorCode::InvalidRevenueSplit => "Invalid revenue split",
        ErrorCode::RevenueDistributionFailed => "Revenue distribution failed",
        ErrorCode::InvalidMinterTracker => "Invalid minter tracker",
        ErrorCode::CollectionDistributionFailed => "Collection distribution failed",
        ErrorCode::InsufficientCollectionFees => "Insufficient collection fees",
        ErrorCode::FeeCalculationError => "Fee calculation error",
        ErrorCode::InvalidDuration => "Invalid duration",
        ErrorCode::DurationTooShort => "Duration too short",
        ErrorCode::DurationTooLong => "Duration too long",
        ErrorCode::TimestampInPast => "Timestamp in the past",
        ErrorCode::TimestampTooFarInFuture => "Timestamp too far in future",
        ErrorCode::EmptyString => "Empty string not allowed",
        ErrorCode::StringTooLong => "String too long",
        ErrorCode::InvalidStringFormat => "Invalid string format",
        ErrorCode::InvalidDataFormat => "Invalid data format",
        ErrorCode::DataCorruption => "Data corruption detected",
        ErrorCode::InvalidBondingCurveParams => "Invalid bonding curve parameters",
        ErrorCode::BondingCurveCalculationFailed => "Bonding curve calculation failed",
        ErrorCode::PriceCalculationOverflow => "Price calculation overflow",
        ErrorCode::MarketCapCalculationFailed => "Market cap calculation failed",
        ErrorCode::InvalidGrowthFactor => "Invalid growth factor",
        ErrorCode::BasePriceTooLow => "Base price too low",
        ErrorCode::BasePriceTooHigh => "Base price too high",
        ErrorCode::DynamicPricingValidationFailed => "Dynamic pricing validation failed",
        ErrorCode::PremiumCalculationFailed => "Premium calculation failed",
        ErrorCode::BidIncrementCalculationFailed => "Bid increment calculation failed",
        ErrorCode::PriceUpdateFailed => "Price update failed",
        ErrorCode::MinimumBidCalculationFailed => "Minimum bid calculation failed",
        ErrorCode::InvalidCollection => "Invalid collection",
        ErrorCode::CollectionNotFound => "Collection not found",
        ErrorCode::CollectionAlreadyExists => "Collection already exists",
        ErrorCode::CollectionCreationFailed => "Collection creation failed",
        ErrorCode::InvalidCollectionMetadata => "Invalid collection metadata",
        ErrorCode::CollectionFeeDistributionFailed => "Collection fee distribution failed",
        ErrorCode::MigrationFailed => "Migration failed",
        ErrorCode::MigrationNotAllowed => "Migration not allowed",
        ErrorCode::MigrationInProgress => "Migration already in progress",
        ErrorCode::MigrationThresholdCalculationFailed => "Migration threshold calculation failed",
        ErrorCode::TensorIntegrationFailed => "Tensor integration failed",
        ErrorCode::AdminOperationFailed => "Admin operation failed",
        ErrorCode::NotAuthorizedAsAdmin => "Not authorized as admin",
        ErrorCode::InvalidAdminConfiguration => "Invalid admin configuration",
        ErrorCode::EmergencyPauseFailed => "Emergency pause failed",
        ErrorCode::ConfigurationUpdateFailed => "Configuration update failed",
        ErrorCode::SystemError => "System error",
        ErrorCode::InternalStateInconsistency => "Internal state inconsistency",
        ErrorCode::CriticalSystemFailure => "Critical system failure",
        ErrorCode::ResourceExhausted => "Resource exhausted",
        ErrorCode::OperationNotSupported => "Operation not supported",
    }
}

/// The wording shown to end users; errors without one of their own share a generic text.
pub open spec fn user_message_of(e: ErrorCode) -> &'static str {
    match e {
        ErrorCode::InsufficientBalance => "You don't have enough SOL for this transaction",
        ErrorCode::BidTooLow => "Your bid is too low. Please increase your bid amount",
        ErrorCode::BidMustExceedBondingCurve => "Your bid must be higher than the current NFT price",
        ErrorCode::CannotBidOnOwnNft => "You cannot bid on your own NFT",
        ErrorCode::BidListingExpired => "This listing has expired",
        ErrorCode::MaxSupplyReached => "Maximum supply has been reached for this collection",
        ErrorCode::PoolInactive => "This collection is currently inactive",
        ErrorCode::AlreadyMigrated => "This collection has already been migrated",
        ErrorCode::Unauthorized => "You are not authorized to perform this action",
        ErrorCode::InvalidAmount => "Invalid amount specified",
        ErrorCode::InsufficientPremium => "Your bid doesn't meet the minimum premium requirement",
        _ => "An error occurred. Please try again or contact support",
    }
}

impl ErrorCode {
    /// The numeric code of this error.
    pub fn code(&self) -> (r: u32)
        ensures
            r == code_of(*self),
    {
        match self {
            ErrorCode::InvalidAmount => 6000,
            ErrorCode::InsufficientBalance => 6001,
            ErrorCode::Unauthorized => 6002,
            ErrorCode::InvalidAccount => 6003,
            ErrorCode::AccountNotInitialized => 6004,
            ErrorCode::InvalidAccountOwner => 6005,
            ErrorCode::InsufficientAccountSpace => 6006,
            ErrorCode::AccountAlreadyInitialized => 6007,
            ErrorCode::InvalidTimestamp => 6008,
            ErrorCode::Expired => 6009,
            ErrorCode::MathOverflow => 6100,
            ErrorCode::MathUnderflow => 6101,
            ErrorCode::DivisionByZero => 6102,
            ErrorCode::InvalidPercentage => 6103,
            ErrorCode::ValueTooLow => 6104,
            ErrorCode::ValueTooHigh => 6105,
            ErrorCode::PoolInactive => 6200,
            ErrorCode::AlreadyMigrated => 6201,
            ErrorCode::ThresholdNotMet => 6202,
            ErrorCode::InvalidPoolConfig => 6203,
            ErrorCode::PoolCreationFailed => 6204,
            ErrorCode::PoolNotFound => 6205,
            ErrorCode::InvalidPricingConfig => 6206,
            ErrorCode::PoolPaused => 6207,
            ErrorCode::InvalidNftMint => 6300,
            ErrorCode::InsufficientNftBalance => 6301,
            ErrorCode::NftNotFound => 6302,
            ErrorCode::NftAlreadyExists => 6303,
            ErrorCode::InvalidNftMetadata => 6304,
            ErrorCode::NftTransferFailed => 6305,
            ErrorCode::CannotOperateOnOwnNft => 6306,
            ErrorCode::NftNotOwned => 6307,
            ErrorCode::MaxSupplyReached => 6308,
            ErrorCode::InvalidBidAmount => 6400,
            ErrorCode::BidTooLow => 6401,
            ErrorCode::BidTooHigh => 6402,
            ErrorCode::BidNotFound => 6403,
            ErrorCode::BidAlreadyExists => 6404,
            ErrorCode::BidExpired => 6405,
            ErrorCode::CannotBidOnOwnNft => 6406,
            ErrorCode::BidListingNotActive => 6407,
            ErrorCode::BidListingExpired => 6408,
            ErrorCode::InvalidBidStatus => 6409,
            ErrorCode::InsufficientBidIncrement => 6410,
            ErrorCode::BidMustExceedBondingCurve => 6411,
            ErrorCode::BidBelowBondingCurve => 6412,
            ErrorCode::InsufficientPremium => 6413,
            ErrorCode::InvalidListingStatus => 6500,
            ErrorCode::ListingNotFound => 6501,
            ErrorCode::ListingAlreadyExists => 6502,
            ErrorCode::ListingExpired => 6503,
            ErrorCode::CannotListOwnNft => 6504,
            ErrorCode::ListingCreationFailed => 6505,
            ErrorCode::InvalidListingDuration => 6506,
            ErrorCode::InsufficientEscrowBalance => 6600,
            ErrorCode::EscrowNotFound => 6601,
            ErrorCode::EscrowCreationFailed => 6602,
            ErrorCode::EscrowTransferFailed => 6603,
            ErrorCode::EscrowNotEmpty => 6604,
            ErrorCode::InvalidEscrowAmount => 6605,
            ErrorCode::InvalidRevenueSplit => 6700,
            ErrorCode::RevenueDistributionFailed => 6701,
            ErrorCode::InvalidMinterTracker => 6702,
            ErrorCode::CollectionDistributionFailed => 6703,
            ErrorCode::InsufficientCollectionFees => 6704,
            ErrorCode::FeeCalculationError => 6705,
            ErrorCode::InvalidDuration => 6800,
            ErrorCode::DurationTooShort => 6801,
            ErrorCode::DurationTooLong => 6802,
            ErrorCode::TimestampInPast => 6803,
            ErrorCode::TimestampTooFarInFuture => 6804,
            ErrorCode::EmptyString => 6900,
            ErrorCode::StringTooLong => 6901,
            ErrorCode::InvalidStringFormat => 6902,
            ErrorCode::InvalidDataFormat => 6903,
            ErrorCode::DataCorruption => 6904,
            ErrorCode::InvalidBondingCurveParams => 7000,
            ErrorCode::BondingCurveCalculationFailed => 7001,
            ErrorCode::PriceCalculationOverflow => 7002,
            ErrorCode::MarketCapCalculationFailed => 7003,
            ErrorCode::InvalidGrowthFactor => 7004,
            ErrorCode::BasePriceTooLow => 7005,
            ErrorCode::BasePriceTooHigh => 7006,
            ErrorCode::DynamicPricingValidationFailed => 7100,
            ErrorCode::PremiumCalculationFailed => 7101,
            ErrorCode::BidIncrementCalculationFailed => 7102,
            ErrorCode::PriceUpdateFailed => 7103,
            ErrorCode::MinimumBidCalculationFailed => 7104,
            ErrorCode::InvalidCollection => 7200,
            ErrorCode::CollectionNotFound => 7201,
            ErrorCode::CollectionAlreadyExists => 7202,
            ErrorCode::CollectionCreationFailed => 7203,
            ErrorCode::InvalidCollectionMetadata => 7204,
            ErrorCode::CollectionFeeDistributionFailed => 7205,
            ErrorCode::MigrationFailed => 7300,
            ErrorCode::MigrationNotAllowed => 7301,
            ErrorCode::MigrationInProgress => 7302,
            ErrorCode::MigrationThresholdCalculationFailed => 7303,
            ErrorCode::TensorIntegrationFailed => 7304,
            ErrorCode::AdminOperationFailed => 7400,
            ErrorCode::NotAuthorizedAsAdmin => 7401,
            ErrorCode::InvalidAdminConfiguration => 7402,
            ErrorCode::EmergencyPauseFailed => 7403,
            ErrorCode::ConfigurationUpdateFailed => 7404,
            ErrorCode::SystemError => 7500,
            ErrorCode::InternalStateInconsistency => 7501,
            ErrorCode::CriticalSystemFailure => 7502,
            ErrorCode::ResourceExhausted => 7503,
            ErrorCode::OperationNotSupported => 7504,
        }
    }

    /// The error whose numeric code is `code`, if there is one.
    pub fn from_u32(code: u32) -> (r: Option<ErrorCode>)
        ensures
            match r {
                Some(e) => code_of(e) == code,
                None => forall|e: ErrorCode| code_of(e) != code,
            },
    {
        match code {
            6000 => Some(ErrorCode::InvalidAmount),
            6001 => Some(ErrorCode::InsufficientBalance),
            6002 => Some(ErrorCode::Unauthorized),
            6003 => Some(ErrorCode::InvalidAccount),
            6004 => Some(ErrorCode::AccountNotInitialized),
            6005 => Some(ErrorCode::InvalidAccountOwner),
            6006 => Some(ErrorCode::InsufficientAccountSpace),
            6007 => Some(ErrorCode::AccountAlreadyInitialized),
            6008 => Some(ErrorCode::InvalidTimestamp),
            6009 => Some(ErrorCode::Expired),
            6100 => Some(ErrorCode::MathOverflow),
            6101 => Some(ErrorCode::MathUnderflow),
            6102 => Some(ErrorCode::DivisionByZero),
            6103 => Some(ErrorCode::InvalidPercentage),
            6104 => Some(ErrorCode::ValueTooLow),
            6105 => Some(ErrorCode::ValueTooHigh),
            6200 => Some(ErrorCode::PoolInactive),
            6201 => Some(ErrorCode::AlreadyMigrated),
            6202 => Some(ErrorCode::ThresholdNotMet),
            6203 => Some(ErrorCode::InvalidPoolConfig),
            6204 => Some(ErrorCode::PoolCreationFailed),
            6205 => Some(ErrorCode::PoolNotFound),
            6206 => Some(ErrorCode::InvalidPricingConfig),
            6207 => Some(ErrorCode::PoolPaused),
            6300 => Some(ErrorCode::InvalidNftMint),
            6301 => Some(ErrorCode::InsufficientNftBalance),
            6302 => Some(ErrorCode::NftNotFound),
            6303 => Some(ErrorCode::NftAlreadyExists),
            6304 => Some(ErrorCode::InvalidNftMetadata),
            6305 => Some(ErrorCode::NftTransferFailed),
            6306 => Some(ErrorCode::CannotOperateOnOwnNft),
            6307 => Some(ErrorCode::NftNotOwned),
            6308 => Some(ErrorCode::MaxSupplyReached),
            6400 => Some(ErrorCode::InvalidBidAmount),
            6401 => Some(ErrorCode::BidTooLow),
            6402 => Some(ErrorCode::BidTooHigh),
            6403 => Some(ErrorCode::BidNotFound),
            6404 => Some(ErrorCode::BidAlreadyExists),
            6405 => Some(ErrorCode::BidExpired),
            6406 => Some(ErrorCode::CannotBidOnOwnNft),
            6407 => Some(ErrorCode::BidListingNotActive),
            6408 => Some(ErrorCode::BidListingExpired),
            6409 => Some(ErrorCode::InvalidBidStatus),
            6410 => Some(ErrorCode::InsufficientBidIncrement),
            6411 => Some(ErrorCode::BidMustExceedBondingCurve),
            6412 => Some(ErrorCode::BidBelowBondingCurve),
            6413 => Some(ErrorCode::InsufficientPremium),
            6500 => Some(ErrorCode::InvalidListingStatus),
            6501 => Some(ErrorCode::ListingNotFound),
            6502 => Some(ErrorCode::ListingAlreadyExists),
            6503 => Some(ErrorCode::ListingExpired),
            6504 => Some(ErrorCode::CannotListOwnNft),
            6505 => Some(ErrorCode::ListingCreationFailed),
            6506 => Some(ErrorCode::InvalidListingDuration),
            6600 => Some(ErrorCode::InsufficientEscrowBalance),
            6601 => Some(ErrorCode::EscrowNotFound),
            6602 => Some(ErrorCode::EscrowCreationFailed),
            6603 => Some(ErrorCode::EscrowTransferFailed),
            6604 => Some(ErrorCode::EscrowNotEmpty),
            6605 => Some(ErrorCode::InvalidEscrowAmount),
            6700 => Some(ErrorCode::InvalidRevenueSplit),
            6701 => Some(ErrorCode::RevenueDistributionFailed),
            6702 => Some(ErrorCode::InvalidMinterTracker),
            6703 => Some(ErrorCode::CollectionDistributionFailed),
            6704 => Some(ErrorCode::InsufficientCollectionFees),
            6705 => Some(ErrorCode::FeeCalculationError),
            6800 => Some(ErrorCode::InvalidDuration),
            6801 => Some(ErrorCode::DurationTooShort),
            6802 => Some(ErrorCode::DurationTooLong),
            6803 => Some(ErrorCode::TimestampInPast),
            6804 => Some(ErrorCode::TimestampTooFarInFuture),
            6900 => Some(ErrorCode::EmptyString),
            6901 => Some(ErrorCode::StringTooLong),
            6902 => Some(ErrorCode::InvalidStringFormat),
            6903 => Some(ErrorCode::InvalidDataFormat),
            6904 => Some(ErrorCode::DataCorruption),
            7000 => Some(ErrorCode::InvalidBondingCurveParams),
            7001 => Some(ErrorCode::BondingCurveCalculationFailed),
            7002 => Some(ErrorCode::PriceCalculationOverflow),
            7003 => Some(ErrorCode::MarketCapCalculationFailed),
            7004 => Some(ErrorCode::InvalidGrowthFactor),
            7005 => Some(ErrorCode::BasePriceTooLow),
            7006 => Some(ErrorCode::BasePriceTooHigh),
            7100 => Some(ErrorCode::DynamicPricingValidationFailed),
            7101 => Some(ErrorCode::PremiumCalculationFailed),
            7102 => Some(ErrorCode::BidIncrementCalculationFailed),
            7103 => Some(ErrorCode::PriceUpdateFailed),
            7104 => Some(ErrorCode::MinimumBidCalculationFailed),
            7200 => Some(ErrorCode::InvalidCollection),
            7201 => Some(ErrorCode::CollectionNotFound),
            7202 => Some(ErrorCode::CollectionAlreadyExists),
            7203 => Some(ErrorCode::CollectionCreationFailed),
            7204 => Some(ErrorCode::InvalidCollectionMetadata),
            7205 => Some(ErrorCode::CollectionFeeDistributionFailed),
            7300 => Some(ErrorCode::MigrationFailed),
            7301 => Some(ErrorCode::MigrationNotAllowed),
            7302 => Some(ErrorCode::MigrationInProgress),
            7303 => Some(ErrorCode::MigrationThresholdCalculationFailed),
            7304 => Some(ErrorCode::TensorIntegrationFailed),
            7400 => Some(ErrorCode::AdminOperationFailed),
            7401 => Some(ErrorCode::NotAuthorizedAsAdmin),
            7402 => Some(ErrorCode::InvalidAdminConfiguration),
            7403 => Some(ErrorCode::EmergencyPauseFailed),
            7404 => Some(ErrorCode::ConfigurationUpdateFailed),
            7500 => Some(ErrorCode::SystemError),
            7501 => Some(ErrorCode::InternalStateInconsistency),
            7502 => Some(ErrorCode::CriticalSystemFailure),
            7503 => Some(ErrorCode::ResourceExhausted),
            7504 => Some(ErrorCode::OperationNotSupported),
            _ => None,
        }
    }

    /// The category this error belongs to.
    pub fn category(&self) -> (r: ErrorCategory)
        ensures
            r == category_of_code(code_of(*self)),
    {
        let c = self.code();
        if 6000 <= c && c <= 6099 {
            ErrorCategory::General
        } else if 6100 <= c && c <= 6199 {
            ErrorCategory::Math
        } else if 6200 <= c && c <= 6299 {
            ErrorCategory::Pool
        } else if 6300 <= c && c <= 6399 {
            ErrorCategory::Nft
        } else if 6400 <= c && c <= 6499 {
            ErrorCategory::Bidding
        } else if 6500 <= c && c <= 6599 {
            ErrorCategory::Listing
        } else if 6600 <= c && c <= 6699 {
            ErrorCategory::Escrow
        } else if 6700 <= c && c <= 6799 {
            ErrorCategory::Revenue
        } else if 6800 <= c && c <= 6899 {
            ErrorCategory::Time
        } else if 6900 <= c && c <= 6999 {
            ErrorCategory::Data
        } else if 7000 <= c && c <= 7099 {
            ErrorCategory::BondingCurve
        } else if 7100 <= c && c <= 7199 {
            ErrorCategory::DynamicPricing
        } else if 7200 <= c && c <= 7299 {
            ErrorCategory::Collection
        } else if 7300 <= c && c <= 7399 {
            ErrorCategory::Migration
        } else if 7400 <= c && c <= 7499 {
            ErrorCategory::Admin
        } else if 7500 <= c && c <= 7599 {
            ErrorCategory::System
        } else {
            ErrorCategory::Unknown
        }
    }

    /// Whether a caller may retry after correcting its input.
    pub fn is_recoverable(&self) -> (r: bool)
        ensures
            r == !is_fatal_category(category_of_code(code_of(*self))),
    {
        match self.category() {
            ErrorCategory::Math => false,
            ErrorCategory::System => false,
            _ => true,
        }
    }

    /// The short description of this error.
    pub fn message(&self) -> (r: &'static str)
        ensures
            r == message_of(*self),
    {
        match self {
            ErrorCode::InvalidAmount => "Invalid amount provided",
            ErrorCode::InsufficientBalance => "Insufficient balance",
            ErrorCode::Unauthorized => "Unauthorized access",
            ErrorCode::InvalidAccount => "Invalid account provided",
            ErrorCode::AccountNotInitialized => "Account not initialized",
            ErrorCode::InvalidAccountOwner => "Invalid account owner",
            ErrorCode::InsufficientAccountSpace => "Insufficient account space",
            ErrorCode::AccountAlreadyInitialized => "Account already initialized",
            ErrorCode::InvalidTimestamp => "Invalid timestamp",
            ErrorCode::Expired => "Operation expired",
            ErrorCode::MathOverflow => "Math overflow",
            ErrorCode::MathUnderflow => "Math underflow",
            ErrorCode::DivisionByZero => "Division by zero",
            ErrorCode::InvalidPercentage => "Invalid percentage",
            ErrorCode::ValueTooLow => "Value too low",
            ErrorCode::ValueTooHigh => "Value too high",
            ErrorCode::PoolInactive => "Pool is inactive",
            ErrorCode::AlreadyMigrated => "Pool already migrated",
            ErrorCode::ThresholdNotMet => "Migration threshold not met",
            ErrorCode::InvalidPoolConfig => "Invalid pool configuration",
            ErrorCode::PoolCreationFailed => "Pool creation failed",
            ErrorCode::PoolNotFound => "Pool not found",
            ErrorCode::InvalidPricingConfig => "Invalid pricing configuration",
            ErrorCode::PoolPaused => "Pool paused",
            ErrorCode::InvalidNftMint => "Invalid NFT mint",
            ErrorCode::InsufficientNftBalance => "Insufficient NFT balance",
            ErrorCode::NftNotFound => "NFT not found",
            ErrorCode::NftAlreadyExists => "NFT already exists",
            ErrorCode::InvalidNftMetadata => "Invalid NFT metadata",
            ErrorCode::NftTransferFailed => "NFT transfer failed",
            ErrorCode::CannotOperateOnOwnNft => "Cannot operate on own NFT",
            ErrorCode::NftNotOwned => "NFT not owned by user",
            ErrorCode::MaxSupplyReached => "Max supply reached",
            ErrorCode::InvalidBidAmount => "Invalid bid amount",
            ErrorCode::BidTooLow => "Bid too low",
            ErrorCode::BidTooHigh => "Bid too high",
            ErrorCode::BidNotFound => "Bid not found",
            ErrorCode::BidAlreadyExists => "Bid already exists",
            ErrorCode::BidExpired => "Bid expired",
            ErrorCode::CannotBidOnOwnNft => "Cannot bid on own NFT",
            ErrorCode::BidListingNotActive => "Bid listing not active",
            ErrorCode::BidListingExpired => "Bid listing expired",
            ErrorCode::InvalidBidStatus => "Invalid bid status",
            ErrorCode::InsufficientBidIncrement => "Insufficient bid increment",
            ErrorCode::BidMustExceedBondingCurve => "Bid must exceed bonding curve price",
            ErrorCode::BidBelowBondingCurve => "Bid below bonding curve price",
            ErrorCode::InsufficientPremium => "Insufficient premium above bonding curve",
            ErrorCode::InvalidListingStatus => "Invalid listing status",
            ErrorCode::ListingNotFound => "Listing not found",
            ErrorCode::ListingAlreadyExists => "Listing already exists",
            ErrorCode::ListingExpired => "Listing expired",
            ErrorCode::CannotListOwnNft => "Cannot list own NFT",
            ErrorCode::ListingCreationFailed => "Listing creation failed",
            ErrorCode::InvalidListingDuration => "Invalid listing duration",
            ErrorCode::InsufficientEscrowBalance => "Insufficient escrow balance",
            ErrorCode::EscrowNotFound => "Escrow not found",
            ErrorCode::EscrowCreationFailed => "Escrow creation failed",
            ErrorCode::EscrowTransferFailed => "Escrow transfer failed",
            ErrorCode::EscrowNotEmpty => "Escrow not empty",
            ErrorCode::InvalidEscrowAmount => "Invalid escrow amount",
            ErrorCode::InvalidRevenueSplit => "Invalid revenue split",
            ErrorCode::RevenueDistributionFailed => "Revenue distribution failed",
            ErrorCode::InvalidMinterTracker => "Invalid minter tracker",
            ErrorCode::CollectionDistributionFailed => "Collection distribution failed",
            ErrorCode::InsufficientCollectionFees => "Insufficient collection fees",
            ErrorCode::FeeCalculationError => "Fee calculation error",
            ErrorCode::InvalidDuration => "Invalid duration",
            ErrorCode::DurationTooShort => "Duration too short",
            ErrorCode::DurationTooLong => "Duration too long",
            ErrorCode::TimestampInPast => "Timestamp in the past",
            ErrorCode::TimestampTooFarInFuture => "Timestamp too far in future",
            ErrorCode::EmptyString => "Empty string not allowed",
            ErrorCode::StringTooLong => "String too long",
            ErrorCode::InvalidStringFormat => "Invalid string format",
            ErrorCode::InvalidDataFormat => "Invalid data format",
            ErrorCode::DataCorruption => "Data corruption detected",
            ErrorCode::InvalidBondingCurveParams => "Invalid bonding curve parameters",
            ErrorCode::BondingCurveCalculationFailed => "Bonding curve calculation failed",
            ErrorCode::PriceCalculationOverflow => "Price calculation overflow",
            ErrorCode::MarketCapCalculationFailed => "Market cap calculation failed",
            ErrorCode::InvalidGrowthFactor => "Invalid growth factor",
            ErrorCode::BasePriceTooLow => "Base price too low",
            ErrorCode::BasePriceTooHigh => "Base price too high",
            ErrorCode::DynamicPricingValidationFailed => "Dynamic pricing validation failed",
            ErrorCode::PremiumCalculationFailed => "Premium calculation failed",
            ErrorCode::BidIncrementCalculationFailed => "Bid increment calculation failed",
            ErrorCode::PriceUpdateFailed => "Price update failed",
            ErrorCode::MinimumBidCalculationFailed => "Minimum bid calculation failed",
            ErrorCode::InvalidCollection => "Invalid collection",
            ErrorCode::CollectionNotFound => "Collection not found",
            ErrorCode::CollectionAlreadyExists => "Collection already exists",
            ErrorCode::CollectionCreationFailed => "Collection creation failed",
            ErrorCode::InvalidCollectionMetadata => "Invalid collection metadata",
            ErrorCode::CollectionFeeDistributionFailed => "Collection fee distribution failed",
            ErrorCode::MigrationFailed => "Migration failed",
            ErrorCode::MigrationNotAllowed => "Migration not allowed",
            ErrorCode::MigrationInProgress => "Migration already in progress",
            ErrorCode::MigrationThresholdCalculationFailed => "Migration threshold calculation failed",
            ErrorCode::TensorIntegrationFailed => "Tensor integration failed",
            ErrorCode::AdminOperationFailed => "Admin operation failed",
            ErrorCode::NotAuthorizedAsAdmin => "Not authorized as admin",
            ErrorCode::InvalidAdminConfiguration => "Invalid admin configuration",
            ErrorCode::EmergencyPauseFailed => "Emergency pause failed",
            ErrorCode::ConfigurationUpdateFailed => "Configuration update failed",
            ErrorCode::SystemError => "System error",
            ErrorCode::InternalStateInconsistency => "Internal state inconsistency",
            ErrorCode::CriticalSystemFailure => "Critical system failure",
            ErrorCode::ResourceExhausted => "Resource exhausted",
            ErrorCode::OperationNotSupported => "Operation not supported",
        }
    }

    /// The wording shown to end users.
    pub fn user_message(&self) -> (r: &'static str)
        ensures
            r == user_message_of(*self),
    {
        match self {
            ErrorCode::InsufficientBalance => "You don't have enough SOL for this transaction",
            ErrorCode::BidTooLow => "Your bid is too low. Please increase your bid amount",
            ErrorCode::BidMustExceedBondingCurve => "Your bid must be higher than the current NFT price",
            ErrorCode::CannotBidOnOwnNft => "You cannot bid on your own NFT",
            ErrorCode::BidListingExpired => "This listing has expired",
            ErrorCode::MaxSupplyReached => "Maximum supply has been reached for this collection",
            ErrorCode::PoolInactive => "This collection is currently inactive",
            ErrorCode::AlreadyMigrated => "This collection has already been migrated",
            ErrorCode::Unauthorized => "You are not authorized to perform this action",
            ErrorCode::InvalidAmount => "Invalid amount specified",
            ErrorCode::InsufficientPremium => "Your bid doesn't meet the minimum premium requirement",
            _ => "An error occurred. Please try again or contact support",
        }
    }
}

} // verus!
