//! The books of the pool balance, whatever is asked of it.
use crate::address::{Address, InvoiceId};
use crate::pool::arithmetic;
use crate::pool::meaning;
use crate::pool::model::{InvoiceTerms, PoolAbort, PoolConfig, PoolState};
use crate::sums;
use vstd::prelude::*;

verus! {

/// A call to the pool, with the addresses that authorised it and with what
/// other contracts answer in its course.
pub enum PoolCall {
    Initialize { signers: Set<Address>, config: PoolConfig, escrow_usdc_asset: Address },
    Deposit { signers: Set<Address>, lp: Address, amount: u128 },
    Withdraw { signers: Set<Address>, lp: Address, shares: u128 },
    Fund { invoice_id: InvoiceId, terms: InvoiceTerms },
    Repay { signers: Set<Address>, invoice_id: InvoiceId, amount: u128 },
    RepayWithRefund { signers: Set<Address>, invoice_id: InvoiceId, amount: u128, refund: u128 },
    Default { signers: Set<Address>, invoice_id: InvoiceId, escrow_released: bool },
    SetCap { signers: Set<Address>, admin: Address, new_cap_bps: u32 },
}

/// Why a call is undone.
pub open spec fn refusal(s: PoolState, call: PoolCall) -> Option<PoolAbort> {
    match call {
        PoolCall::Initialize { signers, config, escrow_usdc_asset } => meaning::initialize_refusal(
            s,
            signers,
            config,
            escrow_usdc_asset,
        ),
        PoolCall::Deposit { signers, lp, amount } => meaning::deposit_refusal(
            s,
            signers,
            lp,
            amount,
        ),
        PoolCall::Withdraw { signers, lp, shares } => meaning::withdraw_refusal(
            s,
            signers,
            lp,
            shares,
        ),
        PoolCall::Fund { invoice_id, terms } => meaning::funding_refusal(s, invoice_id, terms),
        PoolCall::Repay { signers, invoice_id, amount } => meaning::repayment_refusal(
            s,
            signers,
            invoice_id,
            amount,
        ),
        PoolCall::RepayWithRefund { signers, invoice_id, amount, refund } =>
            meaning::refund_refusal(s, signers, invoice_id, amount, refund),
        PoolCall::Default { signers, invoice_id, escrow_released } => meaning::default_refusal(
            s,
            signers,
            invoice_id,
            escrow_released,
        ),
        PoolCall::SetCap { signers, admin, new_cap_bps } => meaning::cap_refusal(
            s,
            signers,
            admin,
            new_cap_bps,
        ),
    }
}

/// The state after a call that is accepted.
pub open spec fn accepted(s: PoolState, call: PoolCall) -> PoolState {
    match call {
        PoolCall::Initialize { config, .. } => meaning::after_initialize(s, config),
        PoolCall::Deposit { lp, amount, .. } => meaning::after_deposit(s, lp, amount),
        PoolCall::Withdraw { lp, shares, .. } => meaning::after_withdraw(s, lp, shares),
        PoolCall::Fund { invoice_id, terms } => meaning::after_funding(
            s,
            invoice_id,
            meaning::purchase_price(terms.face_value, terms.discount_bps) as u128,
        ),
        PoolCall::Repay { invoice_id, amount, .. } => meaning::after_repayment(
            s,
            invoice_id,
            amount,
        ),
        PoolCall::RepayWithRefund { invoice_id, amount, refund, .. } => meaning::after_refund(
            s,
            invoice_id,
            amount,
            refund,
        ),
        PoolCall::Default { invoice_id, .. } => meaning::after_default(
            s,
            invoice_id,
            s.funded[invoice_id],
        ),
        PoolCall::SetCap { new_cap_bps, .. } => meaning::after_cap(s, new_cap_bps),
    }
}

/// The state after a call, accepted or undone.
pub open spec fn step(s: PoolState, call: PoolCall) -> PoolState {
    if refusal(s, call) is Some {
        s
    } else {
        accepted(s, call)
    }
}

/// The state after a sequence of calls.
pub open spec fn run(s: PoolState, calls: Seq<PoolCall>) -> PoolState
    decreases calls.len(),
{
    if calls.len() == 0 {
        s
    } else {
        step(run(s, calls.drop_last()), calls.last())
    }
}

/// A provider has a deposit count and a cost basis exactly while they hold
/// shares.
pub open spec fn position_consistent(s: PoolState, lp: Address) -> bool {
    let holds = meaning::amount_at(s.shares, lp) > 0;
    &&& s.deposit_counts.contains_key(lp) <==> holds
    &&& s.initial_deposits.contains_key(lp) <==> holds
    &&& holds ==> s.deposit_counts[lp] > 0 && s.initial_deposits[lp] > 0
}

/// The books balance: the totals are the sums of the entries, nothing is lent
/// that was not deposited, and there are no deposits that nobody has a share
/// in.
pub open spec fn balanced(s: PoolState) -> bool {
    &&& s.shares.dom().finite()
    &&& s.funded.dom().finite()
    &&& s.totals.shares == sums::total_of(s.shares)
    &&& s.totals.funded == sums::total_of(s.funded)
    &&& s.totals.active_invoices == s.funded.dom().len()
    &&& s.totals.funded <= s.totals.deposits
    &&& s.totals.shares == 0 ==> s.totals.deposits == 0
    &&& s.totals.max_utilization_bps <= 10_000
    &&& forall|id: InvoiceId| #[trigger] s.funded.contains_key(id) ==> s.funded[id] > 0
    &&& forall|lp: Address| #[trigger] position_consistent(s, lp)
    &&& s.config is None ==> s.shares.dom() =~= Set::empty() && s.funded.dom() =~= Set::empty()
    &&& s.config matches Some(c) ==> meaning::distinct_addresses(c)
}

/// A pool that nothing has been done to has balanced books.
pub proof fn law_blank_pool_is_balanced()
    ensures
        balanced(meaning::blank()),
{
    sums::lemma_total_empty::<Address>();
    sums::lemma_total_empty::<InvoiceId>();
    assert(meaning::blank().funded.dom() =~= Set::empty());
    assert(meaning::blank().shares.dom() =~= Set::empty());
}

/// A pool with funded invoices has shares.
proof fn lemma_funded_pool_has_shares(s: PoolState, id: InvoiceId)
    requires
        balanced(s),
        s.funded.contains_key(id),
    ensures
        s.totals.shares > 0,
        s.funded[id] <= s.totals.funded,
        s.totals.active_invoices > 0,
{
    sums::lemma_value_within_total(s.funded, id);
    assert(s.funded.dom().contains(id));
    if s.funded.dom().len() == 0 {
        assert(s.funded.dom() =~= Set::empty());
    }
}

proof fn lemma_deposit_keeps_balance(s: PoolState, signers: Set<Address>, lp: Address, amount: u128)
    requires
        balanced(s),
        meaning::deposit_refusal(s, signers, lp, amount) is None,
    ensures
        balanced(meaning::after_deposit(s, lp, amount)),
{
    let t = meaning::after_deposit(s, lp, amount);
    let minted = meaning::minted_shares(s.totals, amount);
    if !meaning::unpriced(s.totals) {
        assert(0 <= amount * s.totals.shares) by (nonlinear_arith);
        arithmetic::lemma_quotient_fits(amount * s.totals.shares, s.totals.deposits as int);
    }
    assert(minted > 0);
    sums::lemma_total_insert(s.shares, lp, t.shares[lp]);
    assert forall|p: Address| #[trigger] position_consistent(t, p) by {
        assert(position_consistent(s, p));
    }
}

proof fn lemma_withdraw_keeps_balance(
    s: PoolState,
    signers: Set<Address>,
    lp: Address,
    shares: u128,
)
    requires
        balanced(s),
        meaning::withdraw_refusal(s, signers, lp, shares) is None,
    ensures
        balanced(meaning::after_withdraw(s, lp, shares)),
{
    let t = meaning::after_withdraw(s, lp, shares);
    let held = s.shares[lp];
    sums::lemma_value_within_total(s.shares, lp);
    sums::lemma_total_insert(s.shares, lp, t.shares[lp]);
    arithmetic::lemma_portion_bounded(
        shares as int,
        s.totals.deposits as int,
        s.totals.shares as int,
    );
    arithmetic::lemma_portion_bounded(
        shares as int,
        meaning::amount_at(s.initial_deposits, lp) as int,
        held as int,
    );
    assert forall|p: Address| #[trigger] position_consistent(t, p) by {
        assert(position_consistent(s, p));
    }
}

proof fn lemma_funding_keeps_balance(s: PoolState, invoice_id: InvoiceId, terms: InvoiceTerms)
    requires
        balanced(s),
        meaning::funding_refusal(s, invoice_id, terms) is None,
    ensures
        balanced(
            meaning::after_funding(
                s,
                invoice_id,
                meaning::purchase_price(terms.face_value, terms.discount_bps) as u128,
            ),
        ),
{
    let price = meaning::purchase_price(terms.face_value, terms.discount_bps);
    let t = meaning::after_funding(s, invoice_id, price as u128);
    assert(0 <= terms.face_value * (10_000 - terms.discount_bps)) by (nonlinear_arith)
        requires
            terms.discount_bps <= 10_000,
    ;
    sums::lemma_total_insert(s.funded, invoice_id, price as u128);
    assert forall|p: Address| #[trigger] position_consistent(t, p) by {
        assert(position_consistent(s, p));
    }
    assert forall|id: InvoiceId| #[trigger] t.funded.contains_key(id) implies t.funded[id] > 0 by {
        if id != invoice_id {
            assert(s.funded.contains_key(id));
        }
    }
}

proof fn lemma_settlement_keeps_balance(s: PoolState, invoice_id: InvoiceId, gain: int)
    requires
        balanced(s),
        s.config is Some,
        s.funded.contains_key(invoice_id),
        gain >= 0,
        meaning::settlement_refusal(s.totals, s.funded[invoice_id], gain) is None,
    ensures
        balanced(meaning::after_settlement(s, invoice_id, gain)),
{
    let t = meaning::after_settlement(s, invoice_id, gain);
    lemma_funded_pool_has_shares(s, invoice_id);
    sums::lemma_total_remove(s.funded, invoice_id);
    assert forall|p: Address| #[trigger] position_consistent(t, p) by {
        assert(position_consistent(s, p));
    }
    assert forall|id: InvoiceId| #[trigger] t.funded.contains_key(id) implies t.funded[id] > 0 by {
        assert(s.funded.contains_key(id));
    }
}

proof fn lemma_default_keeps_balance(s: PoolState, invoice_id: InvoiceId)
    requires
        balanced(s),
        s.config is Some,
        s.funded.contains_key(invoice_id),
        meaning::loss_refusal(s.totals, s.funded[invoice_id], true) is None,
    ensures
        balanced(meaning::after_default(s, invoice_id, s.funded[invoice_id])),
{
    let t = meaning::after_default(s, invoice_id, s.funded[invoice_id]);
    lemma_funded_pool_has_shares(s, invoice_id);
    sums::lemma_total_remove(s.funded, invoice_id);
    assert forall|p: Address| #[trigger] position_consistent(t, p) by {
        assert(position_consistent(s, p));
    }
    assert forall|id: InvoiceId| #[trigger] t.funded.contains_key(id) implies t.funded[id] > 0 by {
        assert(s.funded.contains_key(id));
    }
}

/// Every call, accepted or undone, keeps the books balanced.
pub proof fn law_call_keeps_books_balanced(s: PoolState, call: PoolCall)
    requires
        balanced(s),
    ensures
        balanced(step(s, call)),
{
    if refusal(s, call) is None {
        let t = step(s, call);
        match call {
            PoolCall::Initialize { config, .. } => {
                assert(s.shares =~= Map::empty());
                assert(s.funded =~= Map::empty());
                sums::lemma_total_empty::<Address>();
                sums::lemma_total_empty::<InvoiceId>();
                assert forall|p: Address| #[trigger] position_consistent(t, p) by {
                    assert(position_consistent(s, p));
                }
            },
            PoolCall::Deposit { signers, lp, amount } => {
                lemma_deposit_keeps_balance(s, signers, lp, amount);
            },
            PoolCall::Withdraw { signers, lp, shares } => {
                lemma_withdraw_keeps_balance(s, signers, lp, shares);
            },
            PoolCall::Fund { invoice_id, terms } => {
                lemma_funding_keeps_balance(s, invoice_id, terms);
            },
            PoolCall::Repay { signers, invoice_id, amount } => {
                lemma_settlement_keeps_balance(s, invoice_id, amount - s.funded[invoice_id]);
            },
            PoolCall::RepayWithRefund { signers, invoice_id, amount, refund } => {
                lemma_settlement_keeps_balance(
                    s,
                    invoice_id,
                    amount - s.funded[invoice_id] - refund,
                );
            },
            PoolCall::Default { signers, invoice_id, escrow_released } => {
                lemma_default_keeps_balance(s, invoice_id);
            },
            PoolCall::SetCap { .. } => {
                assert forall|p: Address| #[trigger] position_consistent(t, p) by {
                    assert(position_consistent(s, p));
                }
            },
        }
    }
}

/// The books of a pool balance after any sequence of calls.
pub proof fn law_books_balance_after_any_calls(calls: Seq<PoolCall>)
    ensures
        balanced(run(meaning::blank(), calls)),
    decreases calls.len(),
{
    if calls.len() == 0 {
        law_blank_pool_is_balanced();
    } else {
        law_books_balance_after_any_calls(calls.drop_last());
        law_call_keeps_books_balanced(run(meaning::blank(), calls.drop_last()), calls.last());
    }
}

} // verus!
