//! The error codes that the contracts report.
use vstd::prelude::*;

verus! {

/// What the pool contract refuses a call for.
#[derive(Clone, Copy, Debug, PartialEq, Eq)]
pub enum PoolError {
    /// The pool has been initialized before.
    AlreadyInitialized,
    /// The pool has not been initialized.
    NotInitialized,
    /// An amount is zero, too small or out of range.
    InvalidAmount,
    /// The pool does not hold enough free USDC.
    InsufficientLiquidity,
    /// The provider holds no shares.
    NoShares,
    /// The provider holds fewer shares than asked for.
    InsufficientShares,
    /// The invoice is not listed for financing.
    InvoiceNotListed,
    /// The pool has not funded the invoice.
    InvoiceNotFound,
    /// The invoice is not denominated in the pool's asset.
    AssetMismatch,
    /// Funding would push utilization above the cap.
    UtilizationCapExceeded,
    /// A product does not fit in 128 bits.
    Overflow,
    /// The deposit would not mint a single share.
    MinimumDeposit,
    /// Two of the configured addresses coincide.
    InvalidConfiguration,
    /// The pool has already funded the invoice.
    AlreadyFunded,
    /// There is no active invoice left to close.
    ActiveCountUnderflow,
    /// The issuer is not verified in the registry.
    IssuerNotVerified,
    /// The buyer is not verified in the registry.
    BuyerNotVerified,
    /// The escrow contract holds another asset than the pool.
    EscrowAssetMismatch,
    /// Escrow did not release the funds of the defaulted invoice.
    EscrowDefaultNotReleased,
}

impl PoolError {
    /// The number under which callers see the error.
    pub open spec fn spec_code(self) -> u32 {
        match self {
            PoolError::AlreadyInitialized => 1,
            PoolError::NotInitialized => 2,
            PoolError::InvalidAmount => 4,
            PoolError::InsufficientLiquidity => 5,
            PoolError::NoShares => 6,
            PoolError::InsufficientShares => 7,
            PoolError::InvoiceNotListed => 8,
            PoolError::InvoiceNotFound => 10,
            PoolError::AssetMismatch => 11,
            PoolError::UtilizationCapExceeded => 12,
            PoolError::Overflow => 13,
            PoolError::MinimumDeposit => 14,
            PoolError::InvalidConfiguration => 15,
            PoolError::AlreadyFunded => 16,
            PoolError::ActiveCountUnderflow => 17,
            PoolError::IssuerNotVerified => 18,
            PoolError::BuyerNotVerified => 19,
            PoolError::EscrowAssetMismatch => 20,
            PoolError::EscrowDefaultNotReleased => 21,
        }
    }

    /// The number under which callers see the error.
    pub fn code(self) -> (r: u32)
        ensures
            r == self.spec_code(),
    {
        match self {
            PoolError::AlreadyInitialized => 1,
            PoolError::NotInitialized => 2,
            PoolError::InvalidAmount => 4,
            PoolError::InsufficientLiquidity => 5,
            PoolError::NoShares => 6,
            PoolError::InsufficientShares => 7,
            PoolError::InvoiceNotListed => 8,
            PoolError::InvoiceNotFound => 10,
            PoolError::AssetMismatch => 11,
            PoolError::UtilizationCapExceeded => 12,
            PoolError::Overflow => 13,
            PoolError::MinimumDeposit => 14,
            PoolError::InvalidConfiguration => 15,
            PoolError::AlreadyFunded => 16,
            PoolError::ActiveCountUnderflow => 17,
            PoolError::IssuerNotVerified => 18,
            PoolError::BuyerNotVerified => 19,
            PoolError::EscrowAssetMismatch => 20,
            PoolError::EscrowDefaultNotReleased => 21,
        }
    }
}

/// What the registry contract refuses a call for.
#[derive(Clone, Copy, Debug, PartialEq, Eq)]
pub enum RegistryError {
    /// The registry has been initialized before.
    AlreadyInitialized,
    /// The address has a profile already.
    AlreadyRegistered,
    /// There is no admin, or no profile for the address.
    NotFound,
    /// The registry has not been initialized.
    NotInitialized,
    /// The batch has too many entries.
    BatchSizeExceeded,
    /// The metadata breaks a size limit or holds an empty text.
    InvalidMetadata,
    /// The address has no profile to update.
    NotRegistered,
}

impl RegistryError {
    /// The number under which callers see the error.
    pub open spec fn spec_code(self) -> u32 {
        match self {
            RegistryError::AlreadyInitialized => 1,
            RegistryError::AlreadyRegistered => 2,
            RegistryError::NotFound => 3,
            RegistryError::NotInitialized => 4,
            RegistryError::BatchSizeExceeded => 5,
            RegistryError::InvalidMetadata => 6,
            RegistryError::NotRegistered => 7,
        }
    }

    /// The number under which callers see the error.
    pub fn code(self) -> (r: u32)
        ensures
            r == self.spec_code(),
    {
        match self {
            RegistryError::AlreadyInitialized => 1,
            RegistryError::AlreadyRegistered => 2,
            RegistryError::NotFound => 3,
            RegistryError::NotInitialized => 4,
            RegistryError::BatchSizeExceeded => 5,
            RegistryError::InvalidMetadata => 6,
            RegistryError::NotRegistered => 7,
        }
    }
}

/// What the invoice contract refuses a call for.
#[derive(Clone, Copy, Debug, PartialEq, Eq)]
pub enum InvoiceError {
    AlreadyInitialized,
    NotFound,
    NotAuthorized,
    IssuerNotVerified,
    BuyerNotVerified,
    InvalidFaceValue,
    InvalidDueDate,
    InvalidStatusTransition,
    DiscountTooHigh,
    AlreadyConfirmed,
    DueDateNotPassed,
    InvalidDiscount,
    UnsupportedAsset,
    ListingNotExpired,
    MathOverflow,
    InvalidAmount,
    CounterOverflow,
    InvalidExpiryWindow,
    InvalidParticipants,
    NotInitialized,
    UntrustedSigner,
    AlreadyAttested,
    VerificationRequired,
    CrossContractCallFailed,
}

impl InvoiceError {
    /// The number under which callers see the error.
    pub open spec fn spec_code(self) -> u32 {
        match self {
            InvoiceError::AlreadyInitialized => 1,
            InvoiceError::NotFound => 2,
            InvoiceError::NotAuthorized => 3,
            InvoiceError::IssuerNotVerified => 4,
            InvoiceError::BuyerNotVerified => 5,
            InvoiceError::InvalidFaceValue => 6,
            InvoiceError::InvalidDueDate => 7,
            InvoiceError::InvalidStatusTransition => 8,
            InvoiceError::DiscountTooHigh => 9,
            InvoiceError::AlreadyConfirmed => 10,
            InvoiceError::DueDateNotPassed => 11,
            InvoiceError::InvalidDiscount => 12,
            InvoiceError::UnsupportedAsset => 13,
            InvoiceError::ListingNotExpired => 14,
            InvoiceError::MathOverflow => 15,
            InvoiceError::InvalidAmount => 16,
            InvoiceError::CounterOverflow => 17,
            InvoiceError::InvalidExpiryWindow => 18,
            InvoiceError::InvalidParticipants => 19,
            InvoiceError::NotInitialized => 20,
            InvoiceError::UntrustedSigner => 21,
            InvoiceError::AlreadyAttested => 22,
            InvoiceError::VerificationRequired => 23,
            InvoiceError::CrossContractCallFailed => 24,
        }
    }

    /// The number under which callers see the error.
    pub fn code(self) -> (r: u32)
        ensures
            r == self.spec_code(),
    {
        match self {
            InvoiceError::AlreadyInitialized => 1,
            InvoiceError::NotFound => 2,
            InvoiceError::NotAuthorized => 3,
            InvoiceError::IssuerNotVerified => 4,
            InvoiceError::BuyerNotVerified => 5,
            InvoiceError::InvalidFaceValue => 6,
            InvoiceError::InvalidDueDate => 7,
            InvoiceError::InvalidStatusTransition => 8,
            InvoiceError::DiscountTooHigh => 9,
            InvoiceError::AlreadyConfirmed => 10,
            InvoiceError::DueDateNotPassed => 11,
            InvoiceError::InvalidDiscount => 12,
            InvoiceError::UnsupportedAsset => 13,
            InvoiceError::ListingNotExpired => 14,
            InvoiceError::MathOverflow => 15,
            InvoiceError::InvalidAmount => 16,
            InvoiceError::CounterOverflow => 17,
            InvoiceError::InvalidExpiryWindow => 18,
            InvoiceError::InvalidParticipants => 19,
            InvoiceError::NotInitialized => 20,
            InvoiceError::UntrustedSigner => 21,
            InvoiceError::AlreadyAttested => 22,
            InvoiceError::VerificationRequired => 23,
            InvoiceError::CrossContractCallFailed => 24,
        }
    }
}

} // verus!
