//! The pool's state, the reports it gives and the actions it asks for.
use crate::address::{Address, InvoiceId};
use crate::errors::PoolError;
use crate::table::Table;
use vstd::prelude::*;

verus! {

/// Smallest first deposit of an empty pool: one USDC, in stroops.
///
/// A pool without shares or without deposits prices its next share at the
/// depositor's choice; the floor keeps that price from being made absurd.
pub const MIN_INITIAL_DEPOSIT: u128 = 10_000_000;

/// Utilization cap of a fresh pool, in basis points.
pub const DEFAULT_MAX_UTILIZATION_BPS: u32 = 8500;

/// One hundred percent, in basis points.
pub const BPS_SCALE: u128 = 10_000;

/// The invoice status that allows funding.
pub const STATUS_LISTED: u32 = 1;

/// The addresses that a pool is wired to, fixed once by `initialize`.
#[derive(Clone, Copy, Debug, PartialEq, Eq)]
pub struct PoolConfig {
    pub admin: Address,
    pub invoice_contract: Address,
    pub escrow_contract: Address,
    pub usdc_asset: Address,
    pub registry_contract: Address,
}

/// The pool's running totals, in stroops and basis points.
#[derive(Clone, Copy, Debug, PartialEq, Eq)]
pub struct PoolTotals {
    /// Shares outstanding.
    pub shares: u128,
    /// What the shares are worth in all: deposits and yield, less losses.
    pub deposits: u128,
    /// The part of `deposits` that is out in funded invoices.
    pub funded: u128,
    /// Yield credited so far.
    pub yield_distributed: u128,
    /// Losses booked so far.
    pub loss_realised: u128,
    /// Funded invoices that are neither repaid nor defaulted.
    pub active_invoices: u32,
    /// Utilization above which funding is refused.
    pub max_utilization_bps: u32,
}

/// What `get_stats` reports.
#[derive(Clone, Copy, Debug, PartialEq, Eq)]
pub struct PoolStats {
    pub total_deposits: u128,
    pub total_funded: u128,
    pub available_liquidity: u128,
    pub utilization_rate_bps: u32,
    pub total_yield_distributed: u128,
    pub total_loss_realised: u128,
    pub active_invoice_count: u32,
    pub total_shares: u128,
    pub max_utilization_bps: u32,
}

/// What `get_lp_position` reports.
#[derive(Clone, Copy, Debug, PartialEq, Eq)]
pub struct LPPosition {
    pub shares: u128,
    pub usdc_value: u128,
    pub yield_earned: u128,
    pub deposit_count: u32,
}

/// What the invoice contract and the registry say of an invoice.
#[derive(Clone, Copy, Debug, PartialEq, Eq)]
pub struct InvoiceTerms {
    pub status: u32,
    pub issuer: Address,
    pub issuer_verified: bool,
    pub buyer: Address,
    pub buyer_verified: bool,
    pub funding_asset: Address,
    pub face_value: u128,
    pub discount_bps: u32,
}

/// A funded invoice that the invoice contract reports on.
#[derive(Clone, Copy, Debug, PartialEq, Eq)]
pub struct FundedCase {
    pub invoice_contract: Address,
    pub escrow_contract: Address,
    /// What the pool paid for the invoice.
    pub amount: u128,
}

/// How far a funding request has got: the question that is open, and what
/// earlier answers have to be kept for.
#[derive(Clone, Copy, Debug, PartialEq, Eq)]
pub enum FundingStage {
    Status,
    Issuer,
    IssuerCheck { issuer: Address },
    Buyer { issuer: Address },
    BuyerCheck { issuer: Address, buyer: Address },
    Asset { issuer: Address },
    FaceValue { issuer: Address },
    Discount { issuer: Address, face_value: u128 },
}

/// A question to another contract about the invoice to be funded.
#[derive(Clone, Copy, Debug, PartialEq, Eq)]
pub enum FundingCall {
    GetStatus,
    GetIssuer,
    GetBuyer,
    GetFundingAsset,
    GetFaceValue,
    GetDiscountBps,
    IsVerified(Address),
}

/// An answer to such a question.
#[derive(Clone, Copy, Debug, PartialEq, Eq)]
pub enum FundingAnswer {
    Status(u32),
    Account(Address),
    Verified(bool),
    FaceValue(u128),
    DiscountBps(u32),
}

/// A configured address, by its role.
#[derive(Clone, Copy, Debug, PartialEq, Eq)]
pub enum ConfigEntry {
    Admin,
    InvoiceContract,
    EscrowContract,
    UsdcAsset,
}

impl ConfigEntry {
    /// What a caller is told when the entry is missing.
    pub open spec fn spec_missing_message(self) -> Seq<char> {
        match self {
            ConfigEntry::Admin => "pool is not initialized: admin missing"@,
            ConfigEntry::InvoiceContract => "pool is not initialized: invoice contract missing"@,
            ConfigEntry::EscrowContract => "pool is not initialized: escrow contract missing"@,
            ConfigEntry::UsdcAsset => "pool is not initialized: USDC asset missing"@,
        }
    }

    /// What a caller is told when the entry is missing.
    pub fn missing_message(&self) -> (r: &'static str)
        ensures
            r@ == self.spec_missing_message(),
    {
        match self {
            ConfigEntry::Admin => "pool is not initialized: admin missing",
            ConfigEntry::InvoiceContract => "pool is not initialized: invoice contract missing",
            ConfigEntry::EscrowContract => "pool is not initialized: escrow contract missing",
            ConfigEntry::UsdcAsset => "pool is not initialized: USDC asset missing",
        }
    }
}

/// Why a call to the pool is undone.
#[derive(Clone, Copy, Debug, PartialEq, Eq)]
pub enum PoolAbort {
    /// The contract refuses the call with an error of its own.
    Error(PoolError),
    /// The address has not authorised the call.
    Unauthorized(Address),
    /// The pool is not initialized, so the entry is missing.
    NotConfigured(ConfigEntry),
    /// A sum, difference or quotient of the accounts does not exist.
    Arithmetic,
    /// Another contract answered with a value of the wrong kind.
    UnexpectedAnswer,
}

/// The ledger entries that hold the pool's state.
#[derive(Clone, Copy, Debug, PartialEq, Eq)]
pub enum DataKey {
    Config,
    Totals,
    LPShares(Address),
    LPDepositCount(Address),
    LPInitialDeposit(Address),
    LPYieldEarned(Address),
    FundedInvoice(InvoiceId),
}

/// The events that the pool publishes.
#[derive(Clone, Copy, Debug, PartialEq, Eq)]
pub enum PoolEvent {
    PoolInitialized {
        admin: Address,
        invoice_contract: Address,
        escrow_contract: Address,
        usdc_asset: Address,
    },
    LpDeposited { lp: Address, amount: u128, shares: u128 },
    LpWithdrawn { lp: Address, amount: u128, shares: u128 },
    InvoiceFunded { invoice_id: InvoiceId, amount: u128 },
    RepaymentReceived { invoice_id: InvoiceId, amount: u128, yield_amount: u128 },
    InvoiceDefaulted { invoice_id: InvoiceId, amount: u128 },
    MaxUtilizationUpdated { old_bps: u32, new_bps: u32 },
}

impl PoolEvent {
    /// The name under which the event is published.
    pub open spec fn spec_topic(self) -> Seq<char> {
        match self {
            PoolEvent::PoolInitialized { .. } => "pool_initialized"@,
            PoolEvent::LpDeposited { .. } => "lp_deposited"@,
            PoolEvent::LpWithdrawn { .. } => "lp_withdrawn"@,
            PoolEvent::InvoiceFunded { .. } => "invoice_funded"@,
            PoolEvent::RepaymentReceived { .. } => "repayment_received"@,
            PoolEvent::InvoiceDefaulted { .. } => "invoice_defaulted"@,
            PoolEvent::MaxUtilizationUpdated { .. } => "max_utilization_updated"@,
        }
    }

    /// The name under which the event is published.
    pub fn topic(&self) -> (r: &'static str)
        ensures
            r@ == self.spec_topic(),
    {
        match self {
            PoolEvent::PoolInitialized { .. } => "pool_initialized",
            PoolEvent::LpDeposited { .. } => "lp_deposited",
            PoolEvent::LpWithdrawn { .. } => "lp_withdrawn",
            PoolEvent::InvoiceFunded { .. } => "invoice_funded",
            PoolEvent::RepaymentReceived { .. } => "repayment_received",
            PoolEvent::InvoiceDefaulted { .. } => "invoice_defaulted",
            PoolEvent::MaxUtilizationUpdated { .. } => "max_utilization_updated",
        }
    }
}

/// What is to be done on the ledger once a call has succeeded, in order.
///
/// If one of these fails, the call is undone as a whole.
#[derive(Clone, Copy, Debug, PartialEq, Eq)]
pub enum PoolAction {
    /// Move USDC from an account to the pool.
    PullUsdc { from: Address, amount: i128 },
    /// Move USDC from the pool to an account.
    PayUsdc { to: Address, amount: i128 },
    /// Write the pool's new value of an entry; remove the entry if it has none.
    Store(DataKey),
    /// Extend the lifetime of an entry.
    ExtendTtl(DataKey),
    /// Extend the lifetime of the contract itself.
    ExtendInstanceTtl,
    /// Have escrow lock the funded amount for the issuer.
    LockEscrow { escrow: Address, invoice_id: InvoiceId, amount: u128, issuer: Address },
    /// Tell the invoice contract that the pool has funded the invoice.
    MarkFunded { invoice_contract: Address, invoice_id: InvoiceId, asset: Address, amount: u128 },
    /// Tell the invoice contract that the invoice has defaulted.
    MarkDefaulted { invoice_contract: Address, invoice_id: InvoiceId },
    /// Publish an event.
    Emit(PoolEvent),
}

/// The outcome of a call that succeeded.
#[derive(Clone, Debug, PartialEq, Eq)]
pub struct PoolReceipt<T> {
    /// What the call returns.
    pub value: T,
    /// What is to be done on the ledger, in order.
    pub actions: Vec<PoolAction>,
}

/// What a funding request needs next.
#[derive(Clone, Debug, PartialEq, Eq)]
pub enum FundingStep {
    /// Ask `contract` and hand the answer back with the stage.
    Ask { contract: Address, call: FundingCall, stage: FundingStage },
    /// The invoice is funded.
    Funded(PoolReceipt<bool>),
}

/// The pool contract's storage.
#[derive(Clone, Debug, PartialEq, Eq)]
pub struct PoolContract {
    pub config: Option<PoolConfig>,
    pub totals: PoolTotals,
    /// Shares by provider; an entry stays when its last share is withdrawn.
    pub shares: Table<Address, u128>,
    /// Deposits made since the provider last held no shares.
    pub deposit_counts: Table<Address, u32>,
    /// What the provider's present shares cost them.
    pub initial_deposits: Table<Address, u128>,
    /// Yield that the provider has withdrawn.
    pub yields: Table<Address, u128>,
    /// The amount paid for each funded invoice.
    pub funded: Table<InvoiceId, u128>,
}

/// The mathematical content of a pool.
#[verifier::ext_equal]
pub struct PoolState {
    pub config: Option<PoolConfig>,
    pub totals: PoolTotals,
    pub shares: Map<Address, u128>,
    pub deposit_counts: Map<Address, u32>,
    pub initial_deposits: Map<Address, u128>,
    pub yields: Map<Address, u128>,
    pub funded: Map<InvoiceId, u128>,
}

impl View for PoolContract {
    type V = PoolState;

    open spec fn view(&self) -> PoolState {
        PoolState {
            config: self.config,
            totals: self.totals,
            shares: self.shares@,
            deposit_counts: self.deposit_counts@,
            initial_deposits: self.initial_deposits@,
            yields: self.yields@,
            funded: self.funded@,
        }
    }
}

} // verus!
