//! What each pool operation means, over the pool's mathematical content.
//!
//! For an operation `op`, `op_refusal` is the reason for which a call is undone
//! (the first that applies), `after_op` the state that an accepted call leaves,
//! and `op_actions` what the ledger is asked to do.
use crate::address::{Address, InvoiceId};
use crate::errors::PoolError;
use crate::pool::model::{
    ConfigEntry, DataKey, InvoiceTerms, LPPosition, PoolAbort, PoolAction, PoolConfig, PoolEvent,
    PoolReceipt, PoolState, PoolStats, PoolTotals, BPS_SCALE, DEFAULT_MAX_UTILIZATION_BPS,
    MIN_INITIAL_DEPOSIT, STATUS_LISTED,
};
use vstd::prelude::*;

verus! {

/// Whether an integer is an amount that the pool can hold.
pub open spec fn fits(x: int) -> bool {
    0 <= x <= u128::MAX
}

/// The amount under a key, zero where there is none.
pub open spec fn amount_at(m: Map<Address, u128>, key: Address) -> u128 {
    if m.contains_key(key) {
        m[key]
    } else {
        0
    }
}

/// The count under a key, zero where there is none.
pub open spec fn count_at(m: Map<Address, u32>, key: Address) -> u32 {
    if m.contains_key(key) {
        m[key]
    } else {
        0
    }
}

/// A call agrees with its meaning: it is undone for `refusal` and changes
/// nothing, or it is accepted and does all that is stated.
pub open spec fn performs<T>(
    r: Result<PoolReceipt<T>, PoolAbort>,
    before: PoolState,
    after: PoolState,
    refusal: Option<PoolAbort>,
    next: PoolState,
    value: T,
    actions: Seq<PoolAction>,
) -> bool {
    match refusal {
        Some(reason) => r == Err::<PoolReceipt<T>, PoolAbort>(reason) && after == before,
        None => {
            &&& r matches Ok(receipt)
            &&& receipt.value == value
            &&& receipt.actions@ == actions
            &&& after == next
        },
    }
}

// ---------------------------------------------------------------- prices
/// Whether the pool has no share price yet.
pub open spec fn unpriced(t: PoolTotals) -> bool {
    t.shares == 0 || t.deposits == 0
}

/// Shares minted for a deposit: one per stroop while there is no price,
/// afterwards the deposit's part of the pool, rounded down.
pub open spec fn minted_shares(t: PoolTotals, amount: u128) -> int {
    if unpriced(t) {
        amount as int
    } else {
        (amount * t.shares) / (t.deposits as int)
    }
}

/// What a number of shares is worth, rounded down.
pub open spec fn share_value(t: PoolTotals, shares: u128) -> int {
    (shares * t.deposits) / (t.shares as int)
}

/// Deposits that are not out in invoices.
pub open spec fn available(t: PoolTotals) -> int {
    t.deposits - t.funded
}

/// Utilization in basis points before it is cut to 32 bits.
pub open spec fn utilization(funded: int, deposits: int) -> int {
    if deposits == 0 {
        0
    } else {
        (funded * BPS_SCALE) / deposits
    }
}

/// Whether utilization cannot be computed in 128 bits.
pub open spec fn utilization_overflows(funded: int, deposits: int) -> bool {
    deposits != 0 && !fits(funded * BPS_SCALE)
}

// ---------------------------------------------------------------- deposit
/// Why a deposit is undone.
pub open spec fn deposit_refusal(
    s: PoolState,
    signers: Set<Address>,
    lp: Address,
    amount: u128,
) -> Option<PoolAbort> {
    let minted = minted_shares(s.totals, amount);
    if s.config is None {
        Some(PoolAbort::Error(PoolError::NotInitialized))
    } else if !signers.contains(lp) {
        Some(PoolAbort::Unauthorized(lp))
    } else if amount == 0 || (unpriced(s.totals) && amount < MIN_INITIAL_DEPOSIT) {
        Some(PoolAbort::Error(PoolError::InvalidAmount))
    } else if !unpriced(s.totals) && !fits(amount * s.totals.shares) {
        Some(PoolAbort::Error(PoolError::Overflow))
    } else if minted == 0 {
        Some(PoolAbort::Error(PoolError::MinimumDeposit))
    } else if !fits(s.totals.shares + minted) || !fits(s.totals.deposits + amount) || !fits(
        amount_at(s.shares, lp) + minted,
    ) || count_at(s.deposit_counts, lp) == u32::MAX || !fits(
        amount_at(s.initial_deposits, lp) + amount,
    ) {
        Some(PoolAbort::Arithmetic)
    } else {
        None
    }
}

/// The state after a deposit: the provider's shares, deposit count and cost
/// basis grow, and so do the pool's shares and deposits.
pub open spec fn after_deposit(s: PoolState, lp: Address, amount: u128) -> PoolState {
    let minted = minted_shares(s.totals, amount);
    PoolState {
        totals: PoolTotals {
            shares: (s.totals.shares + minted) as u128,
            deposits: (s.totals.deposits + amount) as u128,
            ..s.totals
        },
        shares: s.shares.insert(lp, (amount_at(s.shares, lp) + minted) as u128),
        deposit_counts: s.deposit_counts.insert(lp, (count_at(s.deposit_counts, lp) + 1) as u32),
        initial_deposits: s.initial_deposits.insert(
            lp,
            (amount_at(s.initial_deposits, lp) + amount) as u128,
        ),
        ..s
    }
}

/// The USDC is pulled before anything is written.
pub open spec fn deposit_actions(lp: Address, amount: u128, shares: u128) -> Seq<PoolAction> {
    seq![
        PoolAction::PullUsdc { from: lp, amount: amount as i128 },
        PoolAction::Store(DataKey::Totals),
        PoolAction::Store(DataKey::LPShares(lp)),
        PoolAction::ExtendTtl(DataKey::LPShares(lp)),
        PoolAction::Store(DataKey::LPDepositCount(lp)),
        PoolAction::ExtendTtl(DataKey::LPDepositCount(lp)),
        PoolAction::Store(DataKey::LPInitialDeposit(lp)),
        PoolAction::ExtendTtl(DataKey::LPInitialDeposit(lp)),
        PoolAction::Emit(PoolEvent::LpDeposited { lp, amount, shares }),
        PoolAction::ExtendInstanceTtl,
    ]
}

// ---------------------------------------------------------------- withdrawal
/// The part of the provider's cost basis that goes with the shares.
pub open spec fn principal_portion(s: PoolState, lp: Address, shares: u128) -> int {
    (shares * amount_at(s.initial_deposits, lp)) / (s.shares[lp] as int)
}

/// The provider's cost basis once the shares are gone.
pub open spec fn remaining_basis(s: PoolState, lp: Address, shares: u128) -> int {
    amount_at(s.initial_deposits, lp) - principal_portion(s, lp, shares)
}

/// What the payout exceeds its cost basis by; a loss counts as no yield.
pub open spec fn withdrawn_yield(s: PoolState, lp: Address, shares: u128) -> int {
    let gain = share_value(s.totals, shares) - principal_portion(s, lp, shares);
    if gain > 0 {
        gain
    } else {
        0
    }
}

/// Why a withdrawal is undone.
pub open spec fn withdraw_refusal(
    s: PoolState,
    signers: Set<Address>,
    lp: Address,
    shares: u128,
) -> Option<PoolAbort> {
    if s.config is None {
        Some(PoolAbort::Error(PoolError::NotInitialized))
    } else if !signers.contains(lp) {
        Some(PoolAbort::Unauthorized(lp))
    } else if shares == 0 {
        Some(PoolAbort::Error(PoolError::InvalidAmount))
    } else if amount_at(s.shares, lp) == 0 {
        Some(PoolAbort::Error(PoolError::NoShares))
    } else if shares > s.shares[lp] {
        Some(PoolAbort::Error(PoolError::InsufficientShares))
    } else if s.totals.deposits < s.totals.funded {
        Some(PoolAbort::Arithmetic)
    } else if !fits(shares * s.totals.deposits) {
        Some(PoolAbort::Error(PoolError::Overflow))
    } else if s.totals.shares == 0 {
        Some(PoolAbort::Arithmetic)
    } else if share_value(s.totals, shares) > available(s.totals) {
        Some(PoolAbort::Error(PoolError::InsufficientLiquidity))
    } else if shares > s.totals.shares {
        Some(PoolAbort::Arithmetic)
    } else if !fits(shares * amount_at(s.initial_deposits, lp)) {
        Some(PoolAbort::Error(PoolError::Overflow))
    } else if !fits(amount_at(s.yields, lp) + withdrawn_yield(s, lp, shares)) {
        Some(PoolAbort::Arithmetic)
    } else {
        None
    }
}

/// The state after a withdrawal. A provider without shares left has no deposit
/// count and no cost basis, so that a later deposit starts afresh.
pub open spec fn after_withdraw(s: PoolState, lp: Address, shares: u128) -> PoolState {
    let basis = remaining_basis(s, lp, shares);
    PoolState {
        totals: PoolTotals {
            shares: (s.totals.shares - shares) as u128,
            deposits: (s.totals.deposits - share_value(s.totals, shares)) as u128,
            ..s.totals
        },
        shares: s.shares.insert(lp, (s.shares[lp] - shares) as u128),
        deposit_counts: if shares == s.shares[lp] {
            s.deposit_counts.remove(lp)
        } else {
            s.deposit_counts
        },
        initial_deposits: if basis > 0 {
            s.initial_deposits.insert(lp, basis as u128)
        } else {
            s.initial_deposits.remove(lp)
        },
        yields: s.yields.insert(
            lp,
            (amount_at(s.yields, lp) + withdrawn_yield(s, lp, shares)) as u128,
        ),
        ..s
    }
}

/// The USDC is paid before anything is written.
pub open spec fn withdraw_actions(s: PoolState, lp: Address, shares: u128) -> Seq<PoolAction> {
    let amount = share_value(s.totals, shares) as u128;
    seq![
        PoolAction::PayUsdc { to: lp, amount: amount as i128 },
        PoolAction::Store(DataKey::Totals),
        PoolAction::Store(DataKey::LPShares(lp)),
        PoolAction::ExtendTtl(DataKey::LPShares(lp)),
    ] + (if shares == s.shares[lp] {
        seq![PoolAction::Store(DataKey::LPDepositCount(lp))]
    } else {
        seq![]
    }) + (if remaining_basis(s, lp, shares) > 0 {
        seq![
            PoolAction::Store(DataKey::LPInitialDeposit(lp)),
            PoolAction::ExtendTtl(DataKey::LPInitialDeposit(lp)),
        ]
    } else {
        seq![PoolAction::Store(DataKey::LPInitialDeposit(lp))]
    }) + seq![
        PoolAction::Store(DataKey::LPYieldEarned(lp)),
        PoolAction::ExtendTtl(DataKey::LPYieldEarned(lp)),
        PoolAction::Emit(PoolEvent::LpWithdrawn { lp, amount, shares }),
        PoolAction::ExtendInstanceTtl,
    ]
}

// ---------------------------------------------------------------- initialization
/// Whether no two of the configured addresses coincide.
pub open spec fn distinct_addresses(c: PoolConfig) -> bool {
    &&& c.admin != c.invoice_contract
    &&& c.admin != c.escrow_contract
    &&& c.admin != c.usdc_asset
    &&& c.admin != c.registry_contract
    &&& c.invoice_contract != c.escrow_contract
    &&& c.invoice_contract != c.usdc_asset
    &&& c.invoice_contract != c.registry_contract
    &&& c.escrow_contract != c.usdc_asset
    &&& c.escrow_contract != c.registry_contract
    &&& c.usdc_asset != c.registry_contract
}

/// Why a configuration is refused before escrow is asked for its asset.
pub open spec fn configuration_refusal(s: PoolState, c: PoolConfig) -> Option<PoolAbort> {
    if s.config is Some {
        Some(PoolAbort::Error(PoolError::AlreadyInitialized))
    } else if !distinct_addresses(c) {
        Some(PoolAbort::Error(PoolError::InvalidConfiguration))
    } else {
        None
    }
}

/// Why an initialization is undone.
pub open spec fn initialize_refusal(
    s: PoolState,
    signers: Set<Address>,
    c: PoolConfig,
    escrow_usdc_asset: Address,
) -> Option<PoolAbort> {
    if configuration_refusal(s, c) is Some {
        configuration_refusal(s, c)
    } else if escrow_usdc_asset != c.usdc_asset {
        Some(PoolAbort::Error(PoolError::EscrowAssetMismatch))
    } else if !signers.contains(c.admin) {
        Some(PoolAbort::Unauthorized(c.admin))
    } else {
        None
    }
}

/// Totals of a fresh pool.
pub open spec fn fresh_totals() -> PoolTotals {
    PoolTotals {
        shares: 0,
        deposits: 0,
        funded: 0,
        yield_distributed: 0,
        loss_realised: 0,
        active_invoices: 0,
        max_utilization_bps: DEFAULT_MAX_UTILIZATION_BPS,
    }
}

/// The state of a pool that nothing has been done to.
pub open spec fn blank() -> PoolState {
    PoolState {
        config: None,
        totals: fresh_totals(),
        shares: Map::empty(),
        deposit_counts: Map::empty(),
        initial_deposits: Map::empty(),
        yields: Map::empty(),
        funded: Map::empty(),
    }
}

/// The state after an initialization.
pub open spec fn after_initialize(s: PoolState, c: PoolConfig) -> PoolState {
    PoolState { config: Some(c), totals: fresh_totals(), ..s }
}

/// What an initialization asks of the ledger.
pub open spec fn initialize_actions(c: PoolConfig) -> Seq<PoolAction> {
    seq![
        PoolAction::Store(DataKey::Config),
        PoolAction::Store(DataKey::Totals),
        PoolAction::ExtendInstanceTtl,
        PoolAction::Emit(
            PoolEvent::PoolInitialized {
                admin: c.admin,
                invoice_contract: c.invoice_contract,
                escrow_contract: c.escrow_contract,
                usdc_asset: c.usdc_asset,
            },
        ),
    ]
}

// ---------------------------------------------------------------- funding
/// What the pool pays for an invoice: its face value less the discount,
/// rounded down.
pub open spec fn purchase_price(face_value: u128, discount_bps: u32) -> int {
    (face_value * (BPS_SCALE - discount_bps)) / (BPS_SCALE as int)
}

/// Why the pool refuses to pay for an eligible invoice.
pub open spec fn purchase_refusal(
    t: PoolTotals,
    face_value: u128,
    discount_bps: u32,
) -> Option<PoolAbort> {
    let price = purchase_price(face_value, discount_bps);
    if discount_bps > BPS_SCALE {
        Some(PoolAbort::Arithmetic)
    } else if !fits(face_value * (BPS_SCALE - discount_bps)) {
        Some(PoolAbort::Error(PoolError::Overflow))
    } else if price == 0 {
        Some(PoolAbort::Error(PoolError::InvalidAmount))
    } else if t.deposits < t.funded {
        Some(PoolAbort::Arithmetic)
    } else if price > available(t) {
        Some(PoolAbort::Error(PoolError::InsufficientLiquidity))
    } else if utilization_overflows(t.funded + price, t.deposits as int) {
        Some(PoolAbort::Error(PoolError::Overflow))
    } else if utilization(t.funded + price, t.deposits as int) > t.max_utilization_bps {
        Some(PoolAbort::Error(PoolError::UtilizationCapExceeded))
    } else if t.active_invoices == u32::MAX {
        Some(PoolAbort::Arithmetic)
    } else {
        None
    }
}

/// Why a funding request is undone, given all that the invoice contract and
/// the registry say.
pub open spec fn funding_refusal(
    s: PoolState,
    invoice_id: InvoiceId,
    terms: InvoiceTerms,
) -> Option<PoolAbort> {
    match s.config {
        None => Some(PoolAbort::Error(PoolError::NotInitialized)),
        Some(c) => if terms.status != STATUS_LISTED {
            Some(PoolAbort::Error(PoolError::InvoiceNotListed))
        } else if s.funded.contains_key(invoice_id) {
            Some(PoolAbort::Error(PoolError::AlreadyFunded))
        } else if !terms.issuer_verified {
            Some(PoolAbort::Error(PoolError::IssuerNotVerified))
        } else if !terms.buyer_verified {
            Some(PoolAbort::Error(PoolError::BuyerNotVerified))
        } else if terms.funding_asset != c.usdc_asset {
            Some(PoolAbort::Error(PoolError::AssetMismatch))
        } else {
            purchase_refusal(s.totals, terms.face_value, terms.discount_bps)
        },
    }
}

/// The state after an invoice was funded with `amount`.
pub open spec fn after_funding(s: PoolState, invoice_id: InvoiceId, amount: u128) -> PoolState {
    PoolState {
        totals: PoolTotals {
            funded: (s.totals.funded + amount) as u128,
            active_invoices: (s.totals.active_invoices + 1) as u32,
            ..s.totals
        },
        funded: s.funded.insert(invoice_id, amount),
        ..s
    }
}

/// The new state is written before any other contract is called, so that
/// nobody sees the old one while the calls run.
pub open spec fn funding_actions(
    c: PoolConfig,
    invoice_id: InvoiceId,
    amount: u128,
    issuer: Address,
) -> Seq<PoolAction> {
    seq![
        PoolAction::Store(DataKey::Totals),
        PoolAction::Store(DataKey::FundedInvoice(invoice_id)),
        PoolAction::ExtendTtl(DataKey::FundedInvoice(invoice_id)),
        PoolAction::LockEscrow { escrow: c.escrow_contract, invoice_id, amount, issuer },
        PoolAction::MarkFunded {
            invoice_contract: c.invoice_contract,
            invoice_id,
            asset: c.usdc_asset,
            amount,
        },
        PoolAction::Emit(PoolEvent::InvoiceFunded { invoice_id, amount }),
        PoolAction::ExtendInstanceTtl,
    ]
}

// ---------------------------------------------------------------- repayment
/// Why only the invoice contract may report on an invoice that was funded.
pub open spec fn report_refusal(
    s: PoolState,
    signers: Set<Address>,
    invoice_id: InvoiceId,
) -> Option<PoolAbort> {
    match s.config {
        None => Some(PoolAbort::NotConfigured(ConfigEntry::InvoiceContract)),
        Some(c) => if !signers.contains(c.invoice_contract) {
            Some(PoolAbort::Unauthorized(c.invoice_contract))
        } else if !s.funded.contains_key(invoice_id) {
            Some(PoolAbort::Error(PoolError::InvoiceNotFound))
        } else {
            None
        },
    }
}

/// Why the books cannot take in a repayment that yields `gain`.
pub open spec fn settlement_refusal(t: PoolTotals, funded: u128, gain: int) -> Option<PoolAbort> {
    if !fits(t.deposits + gain) || !fits(t.yield_distributed + gain) || t.funded < funded {
        Some(PoolAbort::Arithmetic)
    } else if t.active_invoices == 0 {
        Some(PoolAbort::Error(PoolError::ActiveCountUnderflow))
    } else {
        None
    }
}

/// The state after a funded invoice was repaid with a gain.
pub open spec fn after_settlement(s: PoolState, invoice_id: InvoiceId, gain: int) -> PoolState {
    PoolState {
        totals: PoolTotals {
            deposits: (s.totals.deposits + gain) as u128,
            funded: (s.totals.funded - s.funded[invoice_id]) as u128,
            yield_distributed: (s.totals.yield_distributed + gain) as u128,
            active_invoices: (s.totals.active_invoices - 1) as u32,
            ..s.totals
        },
        funded: s.funded.remove(invoice_id),
        ..s
    }
}

/// Why a repayment is undone.
pub open spec fn repayment_refusal(
    s: PoolState,
    signers: Set<Address>,
    invoice_id: InvoiceId,
    amount: u128,
) -> Option<PoolAbort> {
    if report_refusal(s, signers, invoice_id) is Some {
        report_refusal(s, signers, invoice_id)
    } else if amount < s.funded[invoice_id] {
        Some(PoolAbort::Error(PoolError::InvalidAmount))
    } else {
        settlement_refusal(s.totals, s.funded[invoice_id], amount - s.funded[invoice_id])
    }
}

/// The state after a repayment: what exceeds the price is yield.
pub open spec fn after_repayment(s: PoolState, invoice_id: InvoiceId, amount: u128) -> PoolState {
    after_settlement(s, invoice_id, amount - s.funded[invoice_id])
}

/// What a repayment asks of the ledger.
pub open spec fn repayment_actions(
    s: PoolState,
    invoice_id: InvoiceId,
    amount: u128,
) -> Seq<PoolAction> {
    seq![
        PoolAction::Store(DataKey::Totals),
        PoolAction::Store(DataKey::FundedInvoice(invoice_id)),
        PoolAction::Emit(
            PoolEvent::RepaymentReceived {
                invoice_id,
                amount,
                yield_amount: (amount - s.funded[invoice_id]) as u128,
            },
        ),
        PoolAction::ExtendInstanceTtl,
    ]
}

/// Why a repayment with a refund is undone.
///
/// The refund may be anything up to what the repayment exceeds the price by;
/// how the excess is split is the invoice contract's affair.
pub open spec fn refund_refusal(
    s: PoolState,
    signers: Set<Address>,
    invoice_id: InvoiceId,
    amount: u128,
    refund: u128,
) -> Option<PoolAbort> {
    if report_refusal(s, signers, invoice_id) is Some {
        report_refusal(s, signers, invoice_id)
    } else if amount < s.funded[invoice_id] || refund > amount - s.funded[invoice_id] {
        Some(PoolAbort::Error(PoolError::InvalidAmount))
    } else {
        settlement_refusal(s.totals, s.funded[invoice_id], amount - s.funded[invoice_id] - refund)
    }
}

/// The state after a repayment with a refund: the rest of the excess is yield.
pub open spec fn after_refund(
    s: PoolState,
    invoice_id: InvoiceId,
    amount: u128,
    refund: u128,
) -> PoolState {
    after_settlement(s, invoice_id, amount - s.funded[invoice_id] - refund)
}

/// What a repayment with a refund asks of the ledger; no refund, no payment.
pub open spec fn refund_actions(
    s: PoolState,
    invoice_id: InvoiceId,
    amount: u128,
    refund: u128,
    buyer: Address,
) -> Seq<PoolAction> {
    seq![
        PoolAction::Store(DataKey::Totals),
        PoolAction::Store(DataKey::FundedInvoice(invoice_id)),
    ] + (if refund > 0 {
        seq![PoolAction::PayUsdc { to: buyer, amount: refund as i128 }]
    } else {
        seq![]
    }) + seq![
        PoolAction::Emit(
            PoolEvent::RepaymentReceived {
                invoice_id,
                amount,
                yield_amount: (amount - s.funded[invoice_id] - refund) as u128,
            },
        ),
        PoolAction::ExtendInstanceTtl,
    ]
}

// ---------------------------------------------------------------- default
/// Why a default cannot be booked, given escrow's answer.
pub open spec fn loss_refusal(t: PoolTotals, amount: u128, escrow_released: bool) -> Option<
    PoolAbort,
> {
    if !escrow_released {
        Some(PoolAbort::Error(PoolError::EscrowDefaultNotReleased))
    } else if t.funded < amount || t.deposits < amount || !fits(t.loss_realised + amount) {
        Some(PoolAbort::Arithmetic)
    } else if t.active_invoices == 0 {
        Some(PoolAbort::Error(PoolError::ActiveCountUnderflow))
    } else {
        None
    }
}

/// Why a default is undone.
pub open spec fn default_refusal(
    s: PoolState,
    signers: Set<Address>,
    invoice_id: InvoiceId,
    escrow_released: bool,
) -> Option<PoolAbort> {
    if report_refusal(s, signers, invoice_id) is Some {
        report_refusal(s, signers, invoice_id)
    } else {
        loss_refusal(s.totals, s.funded[invoice_id], escrow_released)
    }
}

/// The state after a default of `amount`: the price is lost to the providers.
pub open spec fn after_default(s: PoolState, invoice_id: InvoiceId, amount: u128) -> PoolState {
    PoolState {
        totals: PoolTotals {
            funded: (s.totals.funded - amount) as u128,
            deposits: (s.totals.deposits - amount) as u128,
            loss_realised: (s.totals.loss_realised + amount) as u128,
            active_invoices: (s.totals.active_invoices - 1) as u32,
            ..s.totals
        },
        funded: s.funded.remove(invoice_id),
        ..s
    }
}

/// What a default asks of the ledger.
pub open spec fn default_actions(
    invoice_contract: Address,
    invoice_id: InvoiceId,
    amount: u128,
) -> Seq<PoolAction> {
    seq![
        PoolAction::Store(DataKey::Totals),
        PoolAction::MarkDefaulted { invoice_contract, invoice_id },
        PoolAction::Store(DataKey::FundedInvoice(invoice_id)),
        PoolAction::Emit(PoolEvent::InvoiceDefaulted { invoice_id, amount }),
        PoolAction::ExtendInstanceTtl,
    ]
}

// ---------------------------------------------------------------- reports
/// Why the pool cannot report its statistics.
pub open spec fn stats_refusal(s: PoolState) -> Option<PoolAbort> {
    if s.config is None {
        Some(PoolAbort::Error(PoolError::NotInitialized))
    } else if s.totals.deposits < s.totals.funded {
        Some(PoolAbort::Arithmetic)
    } else if utilization_overflows(s.totals.funded as int, s.totals.deposits as int) {
        Some(PoolAbort::Error(PoolError::Overflow))
    } else {
        None
    }
}

/// The pool's statistics.
pub open spec fn stats(s: PoolState) -> PoolStats {
    PoolStats {
        total_deposits: s.totals.deposits,
        total_funded: s.totals.funded,
        available_liquidity: available(s.totals) as u128,
        utilization_rate_bps: utilization(s.totals.funded as int, s.totals.deposits as int) as u32,
        total_yield_distributed: s.totals.yield_distributed,
        total_loss_realised: s.totals.loss_realised,
        active_invoice_count: s.totals.active_invoices,
        total_shares: s.totals.shares,
        max_utilization_bps: s.totals.max_utilization_bps,
    }
}

/// What the provider's shares are worth, rounded down.
pub open spec fn position_value(s: PoolState, lp: Address) -> int {
    if s.totals.shares > 0 && amount_at(s.shares, lp) > 0 {
        share_value(s.totals, amount_at(s.shares, lp))
    } else {
        0
    }
}

/// Whether the provider's position cannot be valued in 128 bits.
pub open spec fn position_overflows(s: PoolState, lp: Address) -> bool {
    s.totals.shares > 0 && !fits(amount_at(s.shares, lp) * s.totals.deposits)
}

/// The provider's position, all zeros for one who never deposited.
pub open spec fn position(s: PoolState, lp: Address) -> LPPosition {
    LPPosition {
        shares: amount_at(s.shares, lp),
        usdc_value: position_value(s, lp) as u128,
        yield_earned: amount_at(s.yields, lp),
        deposit_count: count_at(s.deposit_counts, lp),
    }
}

// ---------------------------------------------------------------- cap
/// Why a change of the utilization cap is undone: it takes the authorisation
/// of the address that asks for it and of the pool's admin.
pub open spec fn cap_refusal(
    s: PoolState,
    signers: Set<Address>,
    admin: Address,
    new_cap_bps: u32,
) -> Option<PoolAbort> {
    if !signers.contains(admin) {
        Some(PoolAbort::Unauthorized(admin))
    } else if s.config is Some && !signers.contains(s.config->0.admin) {
        Some(PoolAbort::Unauthorized(s.config->0.admin))
    } else if new_cap_bps > BPS_SCALE {
        Some(PoolAbort::Error(PoolError::InvalidAmount))
    } else {
        None
    }
}

/// The state after a change of the cap.
pub open spec fn after_cap(s: PoolState, new_cap_bps: u32) -> PoolState {
    PoolState { totals: PoolTotals { max_utilization_bps: new_cap_bps, ..s.totals }, ..s }
}

/// What a change of the cap asks of the ledger.
pub open spec fn cap_actions(old_bps: u32, new_bps: u32) -> Seq<PoolAction> {
    seq![
        PoolAction::Store(DataKey::Totals),
        PoolAction::Emit(PoolEvent::MaxUtilizationUpdated { old_bps, new_bps }),
        PoolAction::ExtendInstanceTtl,
    ]
}

} // verus!
