//! The pool's operations.
use crate::address::{Address, InvoiceId};
use crate::auth::Auth;
use crate::errors::PoolError;
use crate::pool::arithmetic;
use crate::pool::meaning;
use crate::pool::model::{
    ConfigEntry, DataKey, FundedCase, LPPosition, PoolAbort, PoolAction, PoolConfig, PoolContract,
    PoolEvent, PoolReceipt, PoolStats, PoolTotals, BPS_SCALE, DEFAULT_MAX_UTILIZATION_BPS,
    MIN_INITIAL_DEPOSIT,
};
use crate::table::{Table, TableKey};
use vstd::prelude::*;

verus! {

/// The amount under `key`, zero where there is none.
fn amount_under(table: &Table<Address, u128>, key: &Address) -> (r: u128)
    ensures
        r == meaning::amount_at(table@, *key),
{
    match table.get(key) {
        Some(v) => *v,
        None => 0,
    }
}

/// The count under `key`, zero where there is none.
fn count_under(table: &Table<Address, u32>, key: &Address) -> (r: u32)
    ensures
        r == meaning::count_at(table@, *key),
{
    match table.get(key) {
        Some(v) => *v,
        None => 0,
    }
}

/// Totals of a fresh pool.
fn fresh_totals() -> (r: PoolTotals)
    ensures
        r == meaning::fresh_totals(),
{
    PoolTotals {
        shares: 0,
        deposits: 0,
        funded: 0,
        yield_distributed: 0,
        loss_realised: 0,
        active_invoices: 0,
        max_utilization_bps: DEFAULT_MAX_UTILIZATION_BPS,
    }
}

/// The utilization rate in basis points, cut to 32 bits; nothing where the
/// scaled amount does not fit in 128 bits.
pub fn utilization_bps(total_funded: u128, total_deposits: u128) -> (r: Option<u32>)
    ensures
        r == (if meaning::utilization_overflows(total_funded as int, total_deposits as int) {
            None::<u32>
        } else {
            Some(meaning::utilization(total_funded as int, total_deposits as int) as u32)
        }),
{
    if total_deposits == 0 {
        return Some(0);
    }
    match total_funded.checked_mul(BPS_SCALE) {
        Some(scaled) => Some(
            #[verifier::truncate]
            ((scaled / total_deposits) as u32),
        ),
        None => None,
    }
}

impl PoolContract {
    /// Takes `usdc_amount` from `lp` and issues shares for it.
    ///
    /// The first deposit of an unpriced pool mints one share per stroop and has
    /// to reach `MIN_INITIAL_DEPOSIT`; a later one mints its part of the pool,
    /// and is refused where that rounds down to nothing.
    pub fn deposit(&mut self, auth: &Auth, lp: Address, usdc_amount: u128) -> (r: Result<
        PoolReceipt<u128>,
        PoolAbort,
    >)
        ensures
            meaning::performs(
                r,
                old(self)@,
                final(self)@,
                meaning::deposit_refusal(old(self)@, auth@, lp, usdc_amount),
                meaning::after_deposit(old(self)@, lp, usdc_amount),
                meaning::minted_shares(old(self)@.totals, usdc_amount) as u128,
                meaning::deposit_actions(
                    lp,
                    usdc_amount,
                    meaning::minted_shares(old(self)@.totals, usdc_amount) as u128,
                ),
            ),
    {
        if self.config.is_none() {
            return Err(PoolAbort::Error(PoolError::NotInitialized));
        }
        if !auth.covers(&lp) {
            return Err(PoolAbort::Unauthorized(lp));
        }
        if usdc_amount == 0 {
            return Err(PoolAbort::Error(PoolError::InvalidAmount));
        }
        let totals = self.totals;
        let no_price = totals.shares == 0 || totals.deposits == 0;
        if no_price && usdc_amount < MIN_INITIAL_DEPOSIT {
            return Err(PoolAbort::Error(PoolError::InvalidAmount));
        }
        let shares_to_issue: u128 = if no_price {
            usdc_amount
        } else {
            match usdc_amount.checked_mul(totals.shares) {
                Some(scaled) => {
                    proof {
                        arithmetic::lemma_quotient_fits(scaled as int, totals.deposits as int);
                    }
                    scaled / totals.deposits
                },
                None => {
                    return Err(PoolAbort::Error(PoolError::Overflow));
                },
            }
        };
        if shares_to_issue == 0 {
            return Err(PoolAbort::Error(PoolError::MinimumDeposit));
        }
        let sums = (
            totals.shares.checked_add(shares_to_issue),
            totals.deposits.checked_add(usdc_amount),
            amount_under(&self.shares, &lp).checked_add(shares_to_issue),
            count_under(&self.deposit_counts, &lp).checked_add(1),
            amount_under(&self.initial_deposits, &lp).checked_add(usdc_amount),
        );
        match sums {
            (Some(shares), Some(deposits), Some(lp_shares), Some(count), Some(init_dep)) => {
                self.totals.shares = shares;
                self.totals.deposits = deposits;
                self.shares.put(lp, lp_shares);
                self.deposit_counts.put(lp, count);
                self.initial_deposits.put(lp, init_dep);
            },
            _ => {
                return Err(PoolAbort::Arithmetic);
            },
        }
        let actions = vec![
            PoolAction::PullUsdc { from: lp, amount: usdc_amount as i128 },
            PoolAction::Store(DataKey::Totals),
            PoolAction::Store(DataKey::LPShares(lp)),
            PoolAction::ExtendTtl(DataKey::LPShares(lp)),
            PoolAction::Store(DataKey::LPDepositCount(lp)),
            PoolAction::ExtendTtl(DataKey::LPDepositCount(lp)),
            PoolAction::Store(DataKey::LPInitialDeposit(lp)),
            PoolAction::ExtendTtl(DataKey::LPInitialDeposit(lp)),
            PoolAction::Emit(
                PoolEvent::LpDeposited { lp, amount: usdc_amount, shares: shares_to_issue },
            ),
            PoolAction::ExtendInstanceTtl,
        ];
        assert(self@ =~= meaning::after_deposit(old(self)@, lp, usdc_amount));
        assert(actions@ =~= meaning::deposit_actions(lp, usdc_amount, shares_to_issue));
        Ok(PoolReceipt { value: shares_to_issue, actions })
    }

    /// Burns `shares` of `lp` and pays what they are worth.
    ///
    /// When the provider's last share goes, so do their deposit count and cost
    /// basis, and a later deposit starts afresh.
    pub fn withdraw(&mut self, auth: &Auth, lp: Address, shares: u128) -> (r: Result<
        PoolReceipt<u128>,
        PoolAbort,
    >)
        ensures
            meaning::performs(
                r,
                old(self)@,
                final(self)@,
                meaning::withdraw_refusal(old(self)@, auth@, lp, shares),
                meaning::after_withdraw(old(self)@, lp, shares),
                meaning::share_value(old(self)@.totals, shares) as u128,
                meaning::withdraw_actions(old(self)@, lp, shares),
            ),
    {
        if self.config.is_none() {
            return Err(PoolAbort::Error(PoolError::NotInitialized));
        }
        if !auth.covers(&lp) {
            return Err(PoolAbort::Unauthorized(lp));
        }
        if shares == 0 {
            return Err(PoolAbort::Error(PoolError::InvalidAmount));
        }
        let lp_shares: u128 = amount_under(&self.shares, &lp);
        if lp_shares == 0 {
            return Err(PoolAbort::Error(PoolError::NoShares));
        }
        if shares > lp_shares {
            return Err(PoolAbort::Error(PoolError::InsufficientShares));
        }
        let totals = self.totals;
        if totals.deposits < totals.funded {
            return Err(PoolAbort::Arithmetic);
        }
        let available: u128 = totals.deposits - totals.funded;
        let scaled: u128 = match shares.checked_mul(totals.deposits) {
            Some(scaled) => scaled,
            None => {
                return Err(PoolAbort::Error(PoolError::Overflow));
            },
        };
        if totals.shares == 0 {
            return Err(PoolAbort::Arithmetic);
        }
        proof {
            arithmetic::lemma_quotient_fits(scaled as int, totals.shares as int);
        }
        let usdc_to_return: u128 = scaled / totals.shares;
        if usdc_to_return > available {
            return Err(PoolAbort::Error(PoolError::InsufficientLiquidity));
        }
        if shares > totals.shares {
            return Err(PoolAbort::Arithmetic);
        }
        let init_dep: u128 = amount_under(&self.initial_deposits, &lp);
        let principal_scaled: u128 = match shares.checked_mul(init_dep) {
            Some(scaled) => scaled,
            None => {
                return Err(PoolAbort::Error(PoolError::Overflow));
            },
        };
        let principal_portion: u128 = principal_scaled / lp_shares;
        proof {
            arithmetic::lemma_portion_bounded(shares as int, init_dep as int, lp_shares as int);
        }
        let yield_earned: u128 = usdc_to_return.saturating_sub(principal_portion);
        let new_init_dep: u128 = init_dep - principal_portion;
        let new_yield: u128 = match amount_under(&self.yields, &lp).checked_add(yield_earned) {
            Some(sum) => sum,
            None => {
                return Err(PoolAbort::Arithmetic);
            },
        };
        self.totals.shares = totals.shares - shares;
        self.totals.deposits = totals.deposits - usdc_to_return;
        let remaining_shares: u128 = lp_shares - shares;
        self.shares.put(lp, remaining_shares);
        let mut actions = vec![
            PoolAction::PayUsdc { to: lp, amount: usdc_to_return as i128 },
            PoolAction::Store(DataKey::Totals),
            PoolAction::Store(DataKey::LPShares(lp)),
            PoolAction::ExtendTtl(DataKey::LPShares(lp)),
        ];
        if remaining_shares == 0 {
            self.deposit_counts.remove(&lp);
            actions.push(PoolAction::Store(DataKey::LPDepositCount(lp)));
        }
        actions.push(PoolAction::Store(DataKey::LPInitialDeposit(lp)));
        if new_init_dep > 0 {
            self.initial_deposits.put(lp, new_init_dep);
            actions.push(PoolAction::ExtendTtl(DataKey::LPInitialDeposit(lp)));
        } else {
            self.initial_deposits.remove(&lp);
        }
        self.yields.put(lp, new_yield);
        actions.push(PoolAction::Store(DataKey::LPYieldEarned(lp)));
        actions.push(PoolAction::ExtendTtl(DataKey::LPYieldEarned(lp)));
        actions.push(
            PoolAction::Emit(PoolEvent::LpWithdrawn { lp, amount: usdc_to_return, shares }),
        );
        actions.push(PoolAction::ExtendInstanceTtl);
        assert(self@ =~= meaning::after_withdraw(old(self)@, lp, shares));
        assert(actions@ =~= meaning::withdraw_actions(old(self)@, lp, shares));
        Ok(PoolReceipt { value: usdc_to_return, actions })
    }

    /// A pool that nothing has been done to.
    pub fn new() -> (r: Self)
        ensures
            r@ == meaning::blank(),
    {
        let r = PoolContract {
            config: None,
            totals: fresh_totals(),
            shares: Table::new(),
            deposit_counts: Table::new(),
            initial_deposits: Table::new(),
            yields: Table::new(),
            funded: Table::new(),
        };
        assert(r@ =~= meaning::blank());
        r
    }

    /// Checks a configuration, before escrow is asked which asset it holds.
    pub fn check_configuration(&self, config: &PoolConfig) -> (r: Result<(), PoolAbort>)
        ensures
            match meaning::configuration_refusal(self@, *config) {
                Some(reason) => r == Err::<(), PoolAbort>(reason),
                None => r is Ok,
            },
    {
        if self.config.is_some() {
            return Err(PoolAbort::Error(PoolError::AlreadyInitialized));
        }
        if config.admin.same(&config.invoice_contract) || config.admin.same(
            &config.escrow_contract,
        ) || config.admin.same(&config.usdc_asset) || config.admin.same(&config.registry_contract)
            || config.invoice_contract.same(&config.escrow_contract)
            || config.invoice_contract.same(&config.usdc_asset) || config.invoice_contract.same(
            &config.registry_contract,
        ) || config.escrow_contract.same(&config.usdc_asset) || config.escrow_contract.same(
            &config.registry_contract,
        ) || config.usdc_asset.same(&config.registry_contract) {
            return Err(PoolAbort::Error(PoolError::InvalidConfiguration));
        }
        Ok(())
    }

    /// Wires the pool to its admin and to the contracts it works with.
    ///
    /// `escrow_usdc_asset` is the asset that the escrow contract itself is set
    /// up for; a pool is not wired to an escrow that holds another asset.
    pub fn initialize(
        &mut self,
        auth: &Auth,
        admin: Address,
        invoice_contract: Address,
        escrow_contract: Address,
        usdc_asset: Address,
        registry_contract: Address,
        escrow_usdc_asset: Address,
    ) -> (r: Result<PoolReceipt<()>, PoolAbort>)
        ensures
            ({
                let config = PoolConfig {
                    admin,
                    invoice_contract,
                    escrow_contract,
                    usdc_asset,
                    registry_contract,
                };
                meaning::performs(
                    r,
                    old(self)@,
                    final(self)@,
                    meaning::initialize_refusal(old(self)@, auth@, config, escrow_usdc_asset),
                    meaning::after_initialize(old(self)@, config),
                    (),
                    meaning::initialize_actions(config),
                )
            }),
    {
        let config = PoolConfig {
            admin,
            invoice_contract,
            escrow_contract,
            usdc_asset,
            registry_contract,
        };
        if let Err(reason) = self.check_configuration(&config) {
            return Err(reason);
        }
        if !escrow_usdc_asset.same(&usdc_asset) {
            return Err(PoolAbort::Error(PoolError::EscrowAssetMismatch));
        }
        if !auth.covers(&admin) {
            return Err(PoolAbort::Unauthorized(admin));
        }
        self.config = Some(config);
        self.totals = fresh_totals();
        let actions = vec![
            PoolAction::Store(DataKey::Config),
            PoolAction::Store(DataKey::Totals),
            PoolAction::ExtendInstanceTtl,
            PoolAction::Emit(
                PoolEvent::PoolInitialized { admin, invoice_contract, escrow_contract, usdc_asset },
            ),
        ];
        assert(self@ =~= meaning::after_initialize(old(self)@, config));
        assert(actions@ =~= meaning::initialize_actions(config));
        Ok(PoolReceipt { value: (), actions })
    }

    /// The invoice contract and the price of a funded invoice, provided that
    /// the invoice contract authorised the call.
    fn reported_invoice(&self, auth: &Auth, invoice_id: &InvoiceId) -> (r: Result<
        FundedCase,
        PoolAbort,
    >)
        ensures
            match meaning::report_refusal(self@, auth@, *invoice_id) {
                Some(reason) => r == Err::<FundedCase, PoolAbort>(reason),
                None => {
                    &&& r matches Ok(case)
                    &&& case.invoice_contract == self@.config->0.invoice_contract
                    &&& case.escrow_contract == self@.config->0.escrow_contract
                    &&& case.amount == self@.funded[*invoice_id]
                },
            },
    {
        let config = match &self.config {
            Some(config) => *config,
            None => {
                return Err(PoolAbort::NotConfigured(ConfigEntry::InvoiceContract));
            },
        };
        if !auth.covers(&config.invoice_contract) {
            return Err(PoolAbort::Unauthorized(config.invoice_contract));
        }
        match self.funded.get(invoice_id) {
            Some(amount) => Ok(
                FundedCase {
                    invoice_contract: config.invoice_contract,
                    escrow_contract: config.escrow_contract,
                    amount: *amount,
                },
            ),
            None => Err(PoolAbort::Error(PoolError::InvoiceNotFound)),
        }
    }

    /// Books a repayment that exceeds the price by `gain`.
    fn settle(&mut self, invoice_id: &InvoiceId, funded_amount: u128, gain: u128) -> (r: Result<
        (),
        PoolAbort,
    >)
        requires
            old(self)@.funded.contains_key(*invoice_id),
            old(self)@.funded[*invoice_id] == funded_amount,
        ensures
            match meaning::settlement_refusal(old(self)@.totals, funded_amount, gain as int) {
                Some(reason) => r == Err::<(), PoolAbort>(reason) && final(self)@ == old(self)@,
                None => r is Ok && final(self)@ == meaning::after_settlement(
                    old(self)@,
                    *invoice_id,
                    gain as int,
                ),
            },
    {
        let totals = self.totals;
        let sums = (
            totals.deposits.checked_add(gain),
            totals.yield_distributed.checked_add(gain),
            totals.funded.checked_sub(funded_amount),
        );
        match sums {
            (Some(deposits), Some(yield_distributed), Some(funded)) => {
                if totals.active_invoices == 0 {
                    return Err(PoolAbort::Error(PoolError::ActiveCountUnderflow));
                }
                self.totals = PoolTotals {
                    deposits,
                    yield_distributed,
                    funded,
                    active_invoices: totals.active_invoices - 1,
                    ..totals
                };
            },
            _ => {
                return Err(PoolAbort::Arithmetic);
            },
        }
        self.funded.remove(invoice_id);
        assert(self@ =~= meaning::after_settlement(old(self)@, *invoice_id, gain as int));
        Ok(())
    }

    /// Takes in the repayment of a funded invoice; what exceeds the price is
    /// yield for the providers. Only the invoice contract may report it.
    pub fn receive_repayment(&mut self, auth: &Auth, invoice_id: InvoiceId, amount: u128) -> (r:
        Result<PoolReceipt<bool>, PoolAbort>)
        ensures
            meaning::performs(
                r,
                old(self)@,
                final(self)@,
                meaning::repayment_refusal(old(self)@, auth@, invoice_id, amount),
                meaning::after_repayment(old(self)@, invoice_id, amount),
                true,
                meaning::repayment_actions(old(self)@, invoice_id, amount),
            ),
    {
        let case = match self.reported_invoice(auth, &invoice_id) {
            Ok(case) => case,
            Err(reason) => {
                return Err(reason);
            },
        };
        if amount < case.amount {
            return Err(PoolAbort::Error(PoolError::InvalidAmount));
        }
        let yield_amount: u128 = amount - case.amount;
        if let Err(reason) = self.settle(&invoice_id, case.amount, yield_amount) {
            return Err(reason);
        }
        let actions = vec![
            PoolAction::Store(DataKey::Totals),
            PoolAction::Store(DataKey::FundedInvoice(invoice_id)),
            PoolAction::Emit(PoolEvent::RepaymentReceived { invoice_id, amount, yield_amount }),
            PoolAction::ExtendInstanceTtl,
        ];
        assert(actions@ =~= meaning::repayment_actions(old(self)@, invoice_id, amount));
        Ok(PoolReceipt { value: true, actions })
    }

    /// Takes in the repayment of a funded invoice and pays `refund` of it back
    /// to the buyer; the rest of what exceeds the price is yield.
    ///
    /// The pool bounds the refund by that excess and otherwise takes the
    /// invoice contract's word for it. Only the invoice contract may report it.
    pub fn receive_repayment_with_refund(
        &mut self,
        auth: &Auth,
        invoice_id: InvoiceId,
        amount: u128,
        refund: u128,
        buyer: Address,
    ) -> (r: Result<PoolReceipt<bool>, PoolAbort>)
        ensures
            meaning::performs(
                r,
                old(self)@,
                final(self)@,
                meaning::refund_refusal(old(self)@, auth@, invoice_id, amount, refund),
                meaning::after_refund(old(self)@, invoice_id, amount, refund),
                true,
                meaning::refund_actions(old(self)@, invoice_id, amount, refund, buyer),
            ),
    {
        let case = match self.reported_invoice(auth, &invoice_id) {
            Ok(case) => case,
            Err(reason) => {
                return Err(reason);
            },
        };
        if amount < case.amount {
            return Err(PoolAbort::Error(PoolError::InvalidAmount));
        }
        let max_refund: u128 = amount - case.amount;
        if refund > max_refund {
            return Err(PoolAbort::Error(PoolError::InvalidAmount));
        }
        let yield_amount: u128 = max_refund - refund;
        if let Err(reason) = self.settle(&invoice_id, case.amount, yield_amount) {
            return Err(reason);
        }
        let mut actions = vec![
            PoolAction::Store(DataKey::Totals),
            PoolAction::Store(DataKey::FundedInvoice(invoice_id)),
        ];
        if refund > 0 {
            actions.push(PoolAction::PayUsdc { to: buyer, amount: refund as i128 });
        }
        actions.push(
            PoolAction::Emit(PoolEvent::RepaymentReceived { invoice_id, amount, yield_amount }),
        );
        actions.push(PoolAction::ExtendInstanceTtl);
        assert(actions@ =~= meaning::refund_actions(old(self)@, invoice_id, amount, refund, buyer));
        Ok(PoolReceipt { value: true, actions })
    }

    /// Opens the handling of a default: names the escrow contract that has to
    /// release the funds, and what they amount to. Only the invoice contract
    /// may report a default.
    pub fn open_default(&self, auth: &Auth, invoice_id: InvoiceId) -> (r: Result<
        FundedCase,
        PoolAbort,
    >)
        ensures
            match meaning::report_refusal(self@, auth@, invoice_id) {
                Some(reason) => r == Err::<FundedCase, PoolAbort>(reason),
                None => {
                    &&& r matches Ok(case)
                    &&& case.invoice_contract == self@.config->0.invoice_contract
                    &&& case.escrow_contract == self@.config->0.escrow_contract
                    &&& case.amount == self@.funded[invoice_id]
                },
            },
    {
        self.reported_invoice(auth, &invoice_id)
    }

    /// Closes the handling of a default, given whether escrow released the
    /// funds: without a release nothing is booked.
    pub fn close_default(
        &mut self,
        invoice_id: InvoiceId,
        case: FundedCase,
        escrow_released: bool,
    ) -> (r: Result<PoolReceipt<bool>, PoolAbort>)
        ensures
            meaning::performs(
                r,
                old(self)@,
                final(self)@,
                meaning::loss_refusal(old(self)@.totals, case.amount, escrow_released),
                meaning::after_default(old(self)@, invoice_id, case.amount),
                true,
                meaning::default_actions(case.invoice_contract, invoice_id, case.amount),
            ),
    {
        if !escrow_released {
            return Err(PoolAbort::Error(PoolError::EscrowDefaultNotReleased));
        }
        let totals = self.totals;
        let sums = (
            totals.funded.checked_sub(case.amount),
            totals.deposits.checked_sub(case.amount),
            totals.loss_realised.checked_add(case.amount),
        );
        match sums {
            (Some(funded), Some(deposits), Some(loss_realised)) => {
                if totals.active_invoices == 0 {
                    return Err(PoolAbort::Error(PoolError::ActiveCountUnderflow));
                }
                self.totals = PoolTotals {
                    funded,
                    deposits,
                    loss_realised,
                    active_invoices: totals.active_invoices - 1,
                    ..totals
                };
            },
            _ => {
                return Err(PoolAbort::Arithmetic);
            },
        }
        self.funded.remove(&invoice_id);
        let actions = vec![
            PoolAction::Store(DataKey::Totals),
            PoolAction::MarkDefaulted { invoice_contract: case.invoice_contract, invoice_id },
            PoolAction::Store(DataKey::FundedInvoice(invoice_id)),
            PoolAction::Emit(PoolEvent::InvoiceDefaulted { invoice_id, amount: case.amount }),
            PoolAction::ExtendInstanceTtl,
        ];
        assert(self@ =~= meaning::after_default(old(self)@, invoice_id, case.amount));
        assert(actions@ =~= meaning::default_actions(
            case.invoice_contract,
            invoice_id,
            case.amount,
        ));
        Ok(PoolReceipt { value: true, actions })
    }

    /// Books the loss of a defaulted invoice, given whether escrow released
    /// the funds that it held for it.
    pub fn handle_default(&mut self, auth: &Auth, invoice_id: InvoiceId, escrow_released: bool) -> (
    r: Result<PoolReceipt<bool>, PoolAbort>)
        ensures
            meaning::performs(
                r,
                old(self)@,
                final(self)@,
                meaning::default_refusal(old(self)@, auth@, invoice_id, escrow_released),
                meaning::after_default(old(self)@, invoice_id, old(self)@.funded[invoice_id]),
                true,
                meaning::default_actions(
                    old(self)@.config->0.invoice_contract,
                    invoice_id,
                    old(self)@.funded[invoice_id],
                ),
            ),
    {
        match self.open_default(auth, invoice_id) {
            Ok(case) => self.close_default(invoice_id, case, escrow_released),
            Err(reason) => Err(reason),
        }
    }

    /// The pool's statistics.
    pub fn get_stats(&self) -> (r: Result<PoolStats, PoolAbort>)
        ensures
            match meaning::stats_refusal(self@) {
                Some(reason) => r == Err::<PoolStats, PoolAbort>(reason),
                None => r == Ok::<PoolStats, PoolAbort>(meaning::stats(self@)),
            },
    {
        if self.config.is_none() {
            return Err(PoolAbort::Error(PoolError::NotInitialized));
        }
        let totals = self.totals;
        if totals.deposits < totals.funded {
            return Err(PoolAbort::Arithmetic);
        }
        match utilization_bps(totals.funded, totals.deposits) {
            Some(utilization_rate_bps) => Ok(
                PoolStats {
                    total_deposits: totals.deposits,
                    total_funded: totals.funded,
                    available_liquidity: totals.deposits - totals.funded,
                    utilization_rate_bps,
                    total_yield_distributed: totals.yield_distributed,
                    total_loss_realised: totals.loss_realised,
                    active_invoice_count: totals.active_invoices,
                    total_shares: totals.shares,
                    max_utilization_bps: totals.max_utilization_bps,
                },
            ),
            None => Err(PoolAbort::Error(PoolError::Overflow)),
        }
    }

    /// The provider's shares, what they are worth, the yield withdrawn and the
    /// number of deposits; zeros for one who never deposited.
    pub fn get_lp_position(&self, lp: Address) -> (r: Result<LPPosition, PoolAbort>)
        ensures
            if meaning::position_overflows(self@, lp) {
                r == Err::<LPPosition, PoolAbort>(PoolAbort::Error(PoolError::Overflow))
            } else {
                r == Ok::<LPPosition, PoolAbort>(meaning::position(self@, lp))
            },
    {
        let shares: u128 = amount_under(&self.shares, &lp);
        let totals = self.totals;
        let usdc_value: u128 = if totals.shares > 0 && shares > 0 {
            match shares.checked_mul(totals.deposits) {
                Some(scaled) => {
                    proof {
                        arithmetic::lemma_quotient_fits(scaled as int, totals.shares as int);
                    }
                    scaled / totals.shares
                },
                None => {
                    return Err(PoolAbort::Error(PoolError::Overflow));
                },
            }
        } else {
            assert(shares == 0 ==> shares * totals.deposits == 0) by (nonlinear_arith);
            0
        };
        Ok(
            LPPosition {
                shares,
                usdc_value,
                yield_earned: amount_under(&self.yields, &lp),
                deposit_count: count_under(&self.deposit_counts, &lp),
            },
        )
    }

    /// The utilization rate in basis points; zero for a pool without deposits.
    pub fn get_utilization_rate(&self) -> (r: Result<u32, PoolAbort>)
        ensures
            ({
                let funded = self@.totals.funded as int;
                let deposits = self@.totals.deposits as int;
                if meaning::utilization_overflows(funded, deposits) {
                    r == Err::<u32, PoolAbort>(PoolAbort::Error(PoolError::Overflow))
                } else {
                    r == Ok::<u32, PoolAbort>(meaning::utilization(funded, deposits) as u32)
                }
            }),
    {
        match utilization_bps(self.totals.funded, self.totals.deposits) {
            Some(rate) => Ok(rate),
            None => Err(PoolAbort::Error(PoolError::Overflow)),
        }
    }

    /// Sets the utilization that funding may not exceed, in basis points.
    ///
    /// `admin` is the address that asks for the change. Once the pool has an
    /// admin, only a call that this admin authorised is accepted.
    pub fn set_max_utilization(&mut self, auth: &Auth, admin: Address, new_cap_bps: u32) -> (r:
        Result<PoolReceipt<bool>, PoolAbort>)
        ensures
            meaning::performs(
                r,
                old(self)@,
                final(self)@,
                meaning::cap_refusal(old(self)@, auth@, admin, new_cap_bps),
                meaning::after_cap(old(self)@, new_cap_bps),
                true,
                meaning::cap_actions(old(self)@.totals.max_utilization_bps, new_cap_bps),
            ),
    {
        if !auth.covers(&admin) {
            return Err(PoolAbort::Unauthorized(admin));
        }
        if let Some(config) = &self.config {
            if !auth.covers(&config.admin) {
                return Err(PoolAbort::Unauthorized(config.admin));
            }
        }
        if new_cap_bps as u128 > BPS_SCALE {
            return Err(PoolAbort::Error(PoolError::InvalidAmount));
        }
        let old_bps: u32 = self.totals.max_utilization_bps;
        self.totals.max_utilization_bps = new_cap_bps;
        let actions = vec![
            PoolAction::Store(DataKey::Totals),
            PoolAction::Emit(PoolEvent::MaxUtilizationUpdated { old_bps, new_bps: new_cap_bps }),
            PoolAction::ExtendInstanceTtl,
        ];
        assert(self@ =~= meaning::after_cap(old(self)@, new_cap_bps));
        assert(actions@ =~= meaning::cap_actions(old_bps, new_cap_bps));
        Ok(PoolReceipt { value: true, actions })
    }

    /// The USDC asset of the pool.
    pub fn get_usdc_asset(&self) -> (r: Result<Address, PoolAbort>)
        ensures
            r == (match self@.config {
                Some(c) => Ok::<Address, PoolAbort>(c.usdc_asset),
                None => Err(PoolAbort::NotConfigured(ConfigEntry::UsdcAsset)),
            }),
    {
        match &self.config {
            Some(config) => Ok(config.usdc_asset),
            None => Err(PoolAbort::NotConfigured(ConfigEntry::UsdcAsset)),
        }
    }

    /// The admin of the pool.
    pub fn get_admin(&self) -> (r: Result<Address, PoolAbort>)
        ensures
            r == (match self@.config {
                Some(c) => Ok::<Address, PoolAbort>(c.admin),
                None => Err(PoolAbort::NotConfigured(ConfigEntry::Admin)),
            }),
    {
        match &self.config {
            Some(config) => Ok(config.admin),
            None => Err(PoolAbort::NotConfigured(ConfigEntry::Admin)),
        }
    }

    /// The invoice contract that the pool is wired to.
    pub fn get_invoice_contract(&self) -> (r: Result<Address, PoolAbort>)
        ensures
            r == (match self@.config {
                Some(c) => Ok::<Address, PoolAbort>(c.invoice_contract),
                None => Err(PoolAbort::NotConfigured(ConfigEntry::InvoiceContract)),
            }),
    {
        match &self.config {
            Some(config) => Ok(config.invoice_contract),
            None => Err(PoolAbort::NotConfigured(ConfigEntry::InvoiceContract)),
        }
    }

    /// The escrow contract that the pool is wired to.
    pub fn get_escrow_contract(&self) -> (r: Result<Address, PoolAbort>)
        ensures
            r == (match self@.config {
                Some(c) => Ok::<Address, PoolAbort>(c.escrow_contract),
                None => Err(PoolAbort::NotConfigured(ConfigEntry::EscrowContract)),
            }),
    {
        match &self.config {
            Some(config) => Ok(config.escrow_contract),
            None => Err(PoolAbort::NotConfigured(ConfigEntry::EscrowContract)),
        }
    }
}

} // verus!
