//! What the pool promises to its providers and to the other contracts.
use crate::address::{Address, InvoiceId};
use crate::errors::PoolError;
use crate::pool::arithmetic;
use crate::pool::books;
use crate::pool::books::PoolCall;
use crate::pool::funding;
use crate::pool::meaning;
use crate::pool::model::{
    DataKey, InvoiceTerms, PoolAbort, PoolAction, PoolConfig, PoolState, PoolTotals, BPS_SCALE,
    STATUS_LISTED,
};
use crate::sums;
use vstd::prelude::*;

verus! {

// ---------------------------------------------------------------- deposits and withdrawals
/// No accepted deposit goes without a share.
pub proof fn law_deposit_mints_a_share(
    s: PoolState,
    signers: Set<Address>,
    lp: Address,
    amount: u128,
)
    requires
        meaning::deposit_refusal(s, signers, lp, amount) is None,
    ensures
        meaning::minted_shares(s.totals, amount) >= 1,
        meaning::after_deposit(s, lp, amount).shares[lp] > meaning::amount_at(s.shares, lp),
{
    if !meaning::unpriced(s.totals) {
        assert(0 <= amount * s.totals.shares) by (nonlinear_arith);
        arithmetic::lemma_quotient_fits(amount * s.totals.shares, s.totals.deposits as int);
    }
}

/// A deposit never lowers what a share is worth to those who hold one already.
pub proof fn law_deposit_never_lowers_share_price(
    s: PoolState,
    signers: Set<Address>,
    lp: Address,
    amount: u128,
)
    requires
        meaning::deposit_refusal(s, signers, lp, amount) is None,
        !meaning::unpriced(s.totals),
    ensures
        ({
            let t = meaning::after_deposit(s, lp, amount).totals;
            s.totals.deposits * t.shares <= t.deposits * s.totals.shares
        }),
{
    let d = s.totals.deposits as int;
    let n = s.totals.shares as int;
    let a = amount as int;
    let m = meaning::minted_shares(s.totals, amount);
    assert(0 <= a * n) by (nonlinear_arith)
        requires
            0 <= a,
            0 <= n,
    ;
    arithmetic::lemma_quotient_fits(a * n, d);
    arithmetic::lemma_quotient_product(a * n, d);
    assert(d * (n + m) <= (d + a) * n) by (nonlinear_arith)
        requires
            m * d <= a * n,
    ;
}

/// A withdrawal never lowers what a share is worth to those who stay.
pub proof fn law_withdrawal_never_lowers_share_price(
    s: PoolState,
    signers: Set<Address>,
    lp: Address,
    shares: u128,
)
    requires
        meaning::withdraw_refusal(s, signers, lp, shares) is None,
    ensures
        ({
            let t = meaning::after_withdraw(s, lp, shares).totals;
            s.totals.deposits * t.shares <= t.deposits * s.totals.shares
        }),
{
    let d = s.totals.deposits as int;
    let n = s.totals.shares as int;
    let k = shares as int;
    let u = meaning::share_value(s.totals, shares);
    assert(0 <= k * d) by (nonlinear_arith)
        requires
            0 <= k,
            0 <= d,
    ;
    arithmetic::lemma_quotient_fits(k * d, n);
    arithmetic::lemma_quotient_product(k * d, n);
    assert(d * (n - k) <= (d - u) * n) by (nonlinear_arith)
        requires
            u * n <= k * d,
    ;
}

/// Who deposits and withdraws the new shares at once gets back no more than
/// they paid in. The withdrawal is accepted as long as its products and the
/// provider's yield fit; from a pool without shares it returns the whole
/// deposit and leaves neither shares nor deposits.
pub proof fn law_round_trip_gains_nothing(
    s: PoolState,
    signers: Set<Address>,
    lp: Address,
    amount: u128,
)
    requires
        books::balanced(s),
        meaning::deposit_refusal(s, signers, lp, amount) is None,
    ensures
        ({
            let minted = meaning::minted_shares(s.totals, amount) as u128;
            let t = meaning::after_deposit(s, lp, amount);
            let u = meaning::after_withdraw(t, lp, minted);
            let returned = meaning::share_value(t.totals, minted);
            &&& 0 <= returned <= amount
            &&& {
                &&& meaning::fits(minted * t.totals.deposits)
                &&& meaning::fits(minted * t.initial_deposits[lp])
                &&& meaning::fits(
                    meaning::amount_at(t.yields, lp) + meaning::withdrawn_yield(t, lp, minted),
                )
            } ==> meaning::withdraw_refusal(t, signers, lp, minted) is None
            &&& s.totals.shares == 0 ==> {
                &&& returned == amount
                &&& meaning::fits(amount * amount) ==> meaning::withdraw_refusal(
                    t,
                    signers,
                    lp,
                    minted,
                ) is None
                &&& u.totals.shares == 0
                &&& u.totals.deposits == 0
            }
        }),
{
    let d = s.totals.deposits as int;
    let n = s.totals.shares as int;
    let a = amount as int;
    let m = meaning::minted_shares(s.totals, amount);
    law_deposit_mints_a_share(s, signers, lp, amount);
    if meaning::unpriced(s.totals) {
        assert(a * (d + a) <= a * (n + a)) by (nonlinear_arith)
            requires
                d == 0,
                0 <= n,
                0 <= a,
        ;
    } else {
        assert(0 <= a * n) by (nonlinear_arith)
            requires
                0 <= a,
                0 <= n,
        ;
        arithmetic::lemma_quotient_product(a * n, d);
        assert(m * (d + a) <= a * (n + m)) by (nonlinear_arith)
            requires
                m * d <= a * n,
        ;
    }
    arithmetic::lemma_quotient_at_most(m * (d + a), n + m, a);
    assert(0 <= m * (d + a)) by (nonlinear_arith)
        requires
            0 <= m,
            0 <= d,
            0 <= a,
    ;
    arithmetic::lemma_quotient_fits(m * (d + a), n + m);
    if s.totals.shares == 0 {
        arithmetic::lemma_portion_bounded(a, a, a);
        assert(books::position_consistent(s, lp));
        if s.shares.contains_key(lp) {
            sums::lemma_value_within_total(s.shares, lp);
        }
    }
}

/// A provider is owed their part of the deposits, rounded down by less than
/// one stroop.
pub proof fn law_value_is_the_part_of_the_deposits(t: PoolTotals, shares: u128)
    requires
        t.shares > 0,
    ensures
        ({
            let value = meaning::share_value(t, shares);
            value * t.shares <= shares * t.deposits < (value + 1) * t.shares
        }),
{
    let value = meaning::share_value(t, shares);
    arithmetic::lemma_quotient_product(shares * t.deposits, t.shares as int);
    assert((value + 1) * t.shares == value * t.shares + t.shares) by (nonlinear_arith);
}

/// A withdrawal is paid out of free liquidity alone, and lowers it by exactly
/// what is paid.
pub proof fn law_withdrawal_uses_free_liquidity(
    s: PoolState,
    signers: Set<Address>,
    lp: Address,
    shares: u128,
)
    requires
        meaning::withdraw_refusal(s, signers, lp, shares) is None,
    ensures
        ({
            let t = meaning::after_withdraw(s, lp, shares).totals;
            let paid = meaning::share_value(s.totals, shares);
            &&& 0 <= paid <= meaning::available(s.totals)
            &&& meaning::available(t) == meaning::available(s.totals) - paid
        }),
{
    assert(0 <= shares * s.totals.deposits) by (nonlinear_arith);
    arithmetic::lemma_quotient_fits(shares * s.totals.deposits, s.totals.shares as int);
}

/// A provider who withdraws everything leaves no count and no cost basis
/// behind, has no shares to withdraw any more, and their next deposit is
/// counted as the first.
pub proof fn law_full_withdrawal_starts_afresh(
    s: PoolState,
    signers: Set<Address>,
    lp: Address,
    amount: u128,
)
    requires
        meaning::withdraw_refusal(s, signers, lp, s.shares[lp]) is None,
    ensures
        ({
            let t = meaning::after_withdraw(s, lp, s.shares[lp]);
            let u = meaning::after_deposit(t, lp, amount);
            &&& t.shares[lp] == 0
            &&& !t.deposit_counts.contains_key(lp)
            &&& !t.initial_deposits.contains_key(lp)
            &&& forall|more: u128|
                more > 0 ==> #[trigger] meaning::withdraw_refusal(t, signers, lp, more) == Some(
                    PoolAbort::Error(PoolError::NoShares),
                )
            &&& meaning::deposit_refusal(t, signers, lp, amount) is None ==> {
                &&& u.shares[lp] == meaning::minted_shares(t.totals, amount)
                &&& u.deposit_counts[lp] == 1
                &&& u.initial_deposits[lp] == amount
            }
        }),
{
    arithmetic::lemma_portion_bounded(
        s.shares[lp] as int,
        meaning::amount_at(s.initial_deposits, lp) as int,
        s.shares[lp] as int,
    );
    let t = meaning::after_withdraw(s, lp, s.shares[lp]);
    if meaning::deposit_refusal(t, signers, lp, amount) is None {
        law_deposit_mints_a_share(t, signers, lp, amount);
    }
}

/// A provider's cost basis is split exactly: what goes with the shares and
/// what stays add up to what was there.
pub proof fn law_withdrawal_splits_basis(
    s: PoolState,
    signers: Set<Address>,
    lp: Address,
    shares: u128,
)
    requires
        meaning::withdraw_refusal(s, signers, lp, shares) is None,
    ensures
        ({
            let t = meaning::after_withdraw(s, lp, shares);
            meaning::principal_portion(s, lp, shares) + meaning::amount_at(t.initial_deposits, lp)
                == meaning::amount_at(s.initial_deposits, lp)
        }),
{
    arithmetic::lemma_portion_bounded(
        shares as int,
        meaning::amount_at(s.initial_deposits, lp) as int,
        s.shares[lp] as int,
    );
}

// ---------------------------------------------------------------- invoices
/// A funded invoice never takes the pool above its utilization cap, nor beyond
/// its free liquidity.
pub proof fn law_funding_respects_cap(s: PoolState, invoice_id: InvoiceId, terms: InvoiceTerms)
    requires
        meaning::funding_refusal(s, invoice_id, terms) is None,
    ensures
        ({
            let price = meaning::purchase_price(terms.face_value, terms.discount_bps);
            let t = meaning::after_funding(s, invoice_id, price as u128).totals;
            &&& 0 < price <= meaning::available(s.totals)
            &&& meaning::available(t) == meaning::available(s.totals) - price
            &&& meaning::utilization(t.funded as int, t.deposits as int) <= t.max_utilization_bps
        }),
{
    assert(0 <= terms.face_value * (BPS_SCALE - terms.discount_bps)) by (nonlinear_arith)
        requires
            terms.discount_bps <= BPS_SCALE,
    ;
}

/// The pool never pays more than the face value.
pub proof fn law_price_within_face_value(face_value: u128, discount_bps: u32)
    requires
        discount_bps <= BPS_SCALE,
    ensures
        0 <= meaning::purchase_price(face_value, discount_bps) <= face_value,
{
    let part = BPS_SCALE - discount_bps;
    assert(0 <= face_value * part <= face_value * BPS_SCALE) by (nonlinear_arith)
        requires
            0 <= part <= BPS_SCALE,
    ;
}

/// An invoice that is funded is not funded again, whatever is said of it.
pub proof fn law_no_double_funding(
    s: PoolState,
    invoice_id: InvoiceId,
    amount: u128,
    terms: InvoiceTerms,
)
    requires
        s.config is Some,
        terms.status == STATUS_LISTED,
    ensures
        meaning::funding_refusal(
            meaning::after_funding(s, invoice_id, amount),
            invoice_id,
            terms,
        ) == Some(PoolAbort::Error(PoolError::AlreadyFunded)),
{
}

/// Funding is refused unless both parties are verified at that moment.
pub proof fn law_funding_needs_verified_parties(
    s: PoolState,
    invoice_id: InvoiceId,
    terms: InvoiceTerms,
)
    requires
        !terms.issuer_verified || !terms.buyer_verified,
    ensures
        meaning::funding_refusal(s, invoice_id, terms) is Some,
{
}

/// Whether an action hands control to another contract.
pub open spec fn calls_out(action: PoolAction) -> bool {
    match action {
        PoolAction::PullUsdc { .. }
        | PoolAction::PayUsdc { .. }
        | PoolAction::LockEscrow { .. }
        | PoolAction::MarkFunded { .. }
        | PoolAction::MarkDefaulted { .. } => true,
        _ => false,
    }
}

/// The books are written before any other contract is called: the new totals
/// and the funded invoice come first, and nothing is stored after a call.
pub proof fn law_funding_stores_before_it_calls(
    c: PoolConfig,
    invoice_id: InvoiceId,
    amount: u128,
    issuer: Address,
)
    ensures
        ({
            let actions = meaning::funding_actions(c, invoice_id, amount, issuer);
            &&& actions[0] == PoolAction::Store(DataKey::Totals)
            &&& actions[1] == PoolAction::Store(DataKey::FundedInvoice(invoice_id))
            &&& forall|i: int, j: int|
                #![trigger actions[i], actions[j]]
                0 <= i < j < actions.len() && calls_out(actions[i]) ==> !(actions[j] is Store)
        }),
{
}

/// An invoice that is funded and repaid leaves nothing lent, and leaves the
/// deposits larger by what was repaid above the price.
pub proof fn law_fund_then_repay(
    s: PoolState,
    signers: Set<Address>,
    invoice_id: InvoiceId,
    terms: InvoiceTerms,
    amount: u128,
)
    requires
        meaning::funding_refusal(s, invoice_id, terms) is None,
        ({
            let price = meaning::purchase_price(terms.face_value, terms.discount_bps) as u128;
            let t = meaning::after_funding(s, invoice_id, price);
            meaning::repayment_refusal(t, signers, invoice_id, amount) is None
        }),
    ensures
        ({
            let price = meaning::purchase_price(terms.face_value, terms.discount_bps) as u128;
            let t = meaning::after_funding(s, invoice_id, price);
            let u = meaning::after_repayment(t, invoice_id, amount);
            &&& amount >= price
            &&& u == (PoolState {
                totals: PoolTotals {
                    deposits: (s.totals.deposits + (amount - price)) as u128,
                    yield_distributed: (s.totals.yield_distributed + (amount - price)) as u128,
                    ..s.totals
                },
                ..s
            })
        }),
{
    law_funding_respects_cap(s, invoice_id, terms);
    let price = meaning::purchase_price(terms.face_value, terms.discount_bps) as u128;
    let t = meaning::after_funding(s, invoice_id, price);
    let u = meaning::after_repayment(t, invoice_id, amount);
    assert(u.funded =~= s.funded);
}

/// An invoice that is funded and defaults leaves nothing lent, and leaves the
/// deposits smaller by the price; nobody's shares change.
pub proof fn law_fund_then_default(
    s: PoolState,
    signers: Set<Address>,
    invoice_id: InvoiceId,
    terms: InvoiceTerms,
)
    requires
        meaning::funding_refusal(s, invoice_id, terms) is None,
        ({
            let price = meaning::purchase_price(terms.face_value, terms.discount_bps) as u128;
            let t = meaning::after_funding(s, invoice_id, price);
            meaning::default_refusal(t, signers, invoice_id, true) is None
        }),
    ensures
        ({
            let price = meaning::purchase_price(terms.face_value, terms.discount_bps) as u128;
            let t = meaning::after_funding(s, invoice_id, price);
            let u = meaning::after_default(t, invoice_id, t.funded[invoice_id]);
            u == (PoolState {
                totals: PoolTotals {
                    deposits: (s.totals.deposits - price) as u128,
                    loss_realised: (s.totals.loss_realised + price) as u128,
                    ..s.totals
                },
                ..s
            })
        }),
{
    law_funding_respects_cap(s, invoice_id, terms);
    let price = meaning::purchase_price(terms.face_value, terms.discount_bps) as u128;
    let t = meaning::after_funding(s, invoice_id, price);
    let u = meaning::after_default(t, invoice_id, price);
    assert(u.funded =~= s.funded);
}

/// A repaid invoice cannot be repaid again, nor default.
pub proof fn law_repaid_invoice_is_closed(
    s: PoolState,
    signers: Set<Address>,
    invoice_id: InvoiceId,
    gain: int,
    amount: u128,
    refund: u128,
    escrow_released: bool,
)
    requires
        s.config is Some,
        signers.contains(s.config->0.invoice_contract),
    ensures
        ({
            let t = meaning::after_settlement(s, invoice_id, gain);
            let unknown = Some(PoolAbort::Error(PoolError::InvoiceNotFound));
            &&& meaning::repayment_refusal(t, signers, invoice_id, amount) == unknown
            &&& meaning::refund_refusal(t, signers, invoice_id, amount, refund) == unknown
            &&& meaning::default_refusal(t, signers, invoice_id, escrow_released) == unknown
        }),
{
}

/// A defaulted invoice cannot default again, nor be repaid.
pub proof fn law_defaulted_invoice_is_closed(
    s: PoolState,
    signers: Set<Address>,
    invoice_id: InvoiceId,
    lost: u128,
    amount: u128,
    refund: u128,
    escrow_released: bool,
)
    requires
        s.config is Some,
        signers.contains(s.config->0.invoice_contract),
    ensures
        ({
            let t = meaning::after_default(s, invoice_id, lost);
            let unknown = Some(PoolAbort::Error(PoolError::InvoiceNotFound));
            &&& meaning::repayment_refusal(t, signers, invoice_id, amount) == unknown
            &&& meaning::refund_refusal(t, signers, invoice_id, amount, refund) == unknown
            &&& meaning::default_refusal(t, signers, invoice_id, escrow_released) == unknown
        }),
{
}

/// A default without a release by escrow is undone.
pub proof fn law_no_loss_without_release(
    s: PoolState,
    signers: Set<Address>,
    invoice_id: InvoiceId,
)
    ensures
        meaning::default_refusal(s, signers, invoice_id, false) is Some,
        meaning::report_refusal(s, signers, invoice_id) is None ==> meaning::default_refusal(
            s,
            signers,
            invoice_id,
            false,
        ) == Some(PoolAbort::Error(PoolError::EscrowDefaultNotReleased)),
{
}

/// A repayment with a refund of nothing is a repayment.
pub proof fn law_zero_refund_is_repayment(
    s: PoolState,
    signers: Set<Address>,
    invoice_id: InvoiceId,
    amount: u128,
    buyer: Address,
)
    ensures
        meaning::refund_refusal(s, signers, invoice_id, amount, 0) == meaning::repayment_refusal(
            s,
            signers,
            invoice_id,
            amount,
        ),
        meaning::after_refund(s, invoice_id, amount, 0) == meaning::after_repayment(
            s,
            invoice_id,
            amount,
        ),
        meaning::refund_actions(s, invoice_id, amount, 0, buyer) == meaning::repayment_actions(
            s,
            invoice_id,
            amount,
        ),
{
    assert(meaning::refund_actions(s, invoice_id, amount, 0, buyer) =~= meaning::repayment_actions(
        s,
        invoice_id,
        amount,
    ));
}

/// A repayment is split without remainder into price, refund and yield, and
/// free liquidity rises by what the pool keeps of it. Any split within the
/// excess is accepted.
pub proof fn law_repayment_is_split_exactly(
    s: PoolState,
    signers: Set<Address>,
    invoice_id: InvoiceId,
    amount: u128,
    refund: u128,
)
    requires
        meaning::refund_refusal(s, signers, invoice_id, amount, refund) is None,
    ensures
        ({
            let t = meaning::after_refund(s, invoice_id, amount, refund).totals;
            let gain = t.yield_distributed - s.totals.yield_distributed;
            &&& s.funded[invoice_id] + refund + gain == amount
            &&& t.deposits - s.totals.deposits == gain
            &&& meaning::available(t) == meaning::available(s.totals) + amount - refund
        }),
{
}

/// A default takes the price from what is lent and from the deposits alike, so
/// that free liquidity stays as it is.
pub proof fn law_default_keeps_free_liquidity(
    s: PoolState,
    signers: Set<Address>,
    invoice_id: InvoiceId,
)
    requires
        meaning::default_refusal(s, signers, invoice_id, true) is None,
    ensures
        ({
            let t = meaning::after_default(s, invoice_id, s.funded[invoice_id]);
            &&& meaning::available(t.totals) == meaning::available(s.totals)
            &&& t.totals.loss_realised - s.totals.loss_realised == s.funded[invoice_id]
            &&& t.totals.shares == s.totals.shares
            &&& t.shares == s.shares
        }),
{
}

/// A repayment never lowers what a provider's shares are worth, a default
/// never raises it.
pub proof fn law_invoices_move_value_one_way(
    s: PoolState,
    signers: Set<Address>,
    invoice_id: InvoiceId,
    amount: u128,
    refund: u128,
    lp: Address,
)
    ensures
        meaning::refund_refusal(s, signers, invoice_id, amount, refund) is None
            ==> meaning::position_value(s, lp) <= meaning::position_value(
            meaning::after_refund(s, invoice_id, amount, refund),
            lp,
        ),
        meaning::default_refusal(s, signers, invoice_id, true) is None ==> meaning::position_value(
            meaning::after_default(s, invoice_id, s.funded[invoice_id]),
            lp,
        ) <= meaning::position_value(s, lp),
{
    let k = meaning::amount_at(s.shares, lp) as int;
    let n = s.totals.shares as int;
    let d = s.totals.deposits as int;
    if n > 0 {
        if meaning::refund_refusal(s, signers, invoice_id, amount, refund) is None {
            let t = meaning::after_refund(s, invoice_id, amount, refund).totals;
            let e = t.deposits as int;
            assert(k * d <= k * e) by (nonlinear_arith)
                requires
                    0 <= k,
                    d <= e,
            ;
            vstd::arithmetic::div_mod::lemma_div_is_ordered(k * d, k * e, n);
        }
        if meaning::default_refusal(s, signers, invoice_id, true) is None {
            let t = meaning::after_default(s, invoice_id, s.funded[invoice_id]).totals;
            let e = t.deposits as int;
            assert(k * e <= k * d) by (nonlinear_arith)
                requires
                    0 <= k,
                    e <= d,
            ;
            vstd::arithmetic::div_mod::lemma_div_is_ordered(k * e, k * d, n);
        }
    }
}

// ---------------------------------------------------------------- who may do what
/// A provider's shares, deposit count, cost basis and yield change only in a
/// deposit or withdrawal of theirs that they authorised.
pub proof fn law_position_changes_only_by_its_owner(s: PoolState, call: PoolCall, lp: Address)
    ensures
        ({
            let t = books::step(s, call);
            ||| {
                &&& meaning::amount_at(t.shares, lp) == meaning::amount_at(s.shares, lp)
                &&& meaning::count_at(t.deposit_counts, lp) == meaning::count_at(
                    s.deposit_counts,
                    lp,
                )
                &&& meaning::amount_at(t.initial_deposits, lp) == meaning::amount_at(
                    s.initial_deposits,
                    lp,
                )
                &&& meaning::amount_at(t.yields, lp) == meaning::amount_at(s.yields, lp)
            }
            ||| (call matches PoolCall::Deposit { signers, lp: who, .. } && who == lp
                && signers.contains(lp))
            ||| (call matches PoolCall::Withdraw { signers, lp: who, .. } && who == lp
                && signers.contains(lp))
        }),
{
}

/// A funded invoice is closed only on a report that the invoice contract
/// authorised, and its price never changes before.
pub proof fn law_invoice_closes_only_by_invoice_contract(
    s: PoolState,
    call: PoolCall,
    invoice_id: InvoiceId,
)
    requires
        s.config is Some,
        s.funded.contains_key(invoice_id),
    ensures
        ({
            let t = books::step(s, call);
            let contract = s.config->0.invoice_contract;
            ||| (t.funded.contains_key(invoice_id) && t.funded[invoice_id] == s.funded[invoice_id])
            ||| (call matches PoolCall::Repay { signers, invoice_id: id, .. } && id == invoice_id
                && signers.contains(contract))
            ||| (call matches PoolCall::RepayWithRefund { signers, invoice_id: id, .. } && id
                == invoice_id && signers.contains(contract))
            ||| (call matches PoolCall::Default { signers, invoice_id: id, escrow_released } && id
                == invoice_id && signers.contains(contract) && escrow_released)
        }),
{
}

/// The utilization cap of an initialized pool changes only on a call that its
/// admin authorised.
pub proof fn law_cap_changes_only_by_admin(s: PoolState, call: PoolCall)
    requires
        s.config is Some,
    ensures
        books::step(s, call).totals.max_utilization_bps == s.totals.max_utilization_bps || (
        call matches PoolCall::SetCap { signers, .. } && signers.contains(s.config->0.admin)),
{
}

/// Once a pool is wired, it stays wired the same way.
pub proof fn law_configuration_is_fixed(s: PoolState, calls: Seq<PoolCall>)
    requires
        s.config is Some,
    ensures
        books::run(s, calls).config == s.config,
    decreases calls.len(),
{
    if calls.len() > 0 {
        law_configuration_is_fixed(s, calls.drop_last());
    }
}

// ---------------------------------------------------------------- the books as a whole
/// While the books balance, no subtraction in them fails: a report on a funded
/// invoice is undone for its own amount or because a total would not fit, and
/// the free liquidity can always be stated.
pub proof fn law_balanced_books_never_underflow(s: PoolState, invoice_id: InvoiceId, gain: int)
    requires
        books::balanced(s),
        s.funded.contains_key(invoice_id),
        gain >= 0,
    ensures
        meaning::settlement_refusal(s.totals, s.funded[invoice_id], gain) is Some ==> (
        !meaning::fits(s.totals.deposits + gain) || !meaning::fits(
            s.totals.yield_distributed + gain,
        )),
        meaning::loss_refusal(s.totals, s.funded[invoice_id], true) is Some ==> !meaning::fits(
            s.totals.loss_realised + s.funded[invoice_id],
        ),
        meaning::stats_refusal(s) != Some(PoolAbort::Arithmetic),
{
    sums::lemma_value_within_total(s.funded, invoice_id);
    assert(s.funded.dom().contains(invoice_id));
    if s.funded.dom().len() == 0 {
        assert(s.funded.dom() =~= Set::empty());
    }
}

/// While the books balance, a withdrawal within the provider's shares fails on
/// arithmetic only if the yield they have withdrawn would not fit.
pub proof fn law_balanced_books_allow_withdrawal(
    s: PoolState,
    signers: Set<Address>,
    lp: Address,
    shares: u128,
)
    requires
        books::balanced(s),
        meaning::withdraw_refusal(s, signers, lp, shares) == Some(PoolAbort::Arithmetic),
    ensures
        !meaning::fits(
            meaning::amount_at(s.yields, lp) + meaning::withdrawn_yield(s, lp, shares),
        ),
{
    sums::lemma_value_within_total(s.shares, lp);
}

/// While the books balance, the reported utilization is between nothing and
/// one hundred percent, and is reported uncut.
pub proof fn law_utilization_is_a_percentage(s: PoolState)
    requires
        books::balanced(s),
    ensures
        ({
            let rate = meaning::utilization(s.totals.funded as int, s.totals.deposits as int);
            &&& 0 <= rate <= BPS_SCALE
            &&& meaning::stats(s).utilization_rate_bps == rate
        }),
{
    funding::lemma_utilization_in_range(s.totals.funded as int, s.totals.deposits as int);
}

/// What a set of holdings is worth, each rounded down.
pub open spec fn worth_of(holdings: Map<Address, u128>, t: PoolTotals) -> int
    decreases holdings.dom().len(),
    when holdings.dom().finite()
{
    if holdings.dom().len() == 0 {
        0
    } else {
        let lp = holdings.dom().choose();
        meaning::share_value(t, holdings[lp]) + worth_of(holdings.remove(lp), t)
    }
}

proof fn lemma_worth_bounded(holdings: Map<Address, u128>, t: PoolTotals)
    requires
        holdings.dom().finite(),
        t.shares > 0,
    ensures
        worth_of(holdings, t) * t.shares <= sums::total_of(holdings) * t.deposits,
    decreases holdings.dom().len(),
{
    if holdings.dom().len() == 0 {
        assert(0 * t.shares == 0 && 0 * t.deposits == 0) by (nonlinear_arith);
    } else {
        let lp = holdings.dom().choose();
        assert(holdings.dom().contains(lp));
        lemma_worth_bounded(holdings.remove(lp), t);
        let k = holdings[lp] as int;
        let v = meaning::share_value(t, holdings[lp]);
        let w = worth_of(holdings.remove(lp), t);
        let r = sums::total_of(holdings.remove(lp));
        let n = t.shares as int;
        let d = t.deposits as int;
        arithmetic::lemma_quotient_product(k * d, n);
        assert((v + w) * n <= (k + r) * d) by (nonlinear_arith)
            requires
                v * n <= k * d,
                w * n <= r * d,
        ;
    }
}

/// All positions together are worth no more than the deposits: the pool can
/// never owe its providers more than it has.
pub proof fn law_positions_worth_at_most_deposits(s: PoolState)
    requires
        books::balanced(s),
        s.totals.shares > 0,
    ensures
        worth_of(s.shares, s.totals) <= s.totals.deposits,
{
    lemma_worth_bounded(s.shares, s.totals);
    let w = worth_of(s.shares, s.totals);
    let n = s.totals.shares as int;
    let d = s.totals.deposits as int;
    assert(w <= d) by (nonlinear_arith)
        requires
            w * n <= n * d,
            n > 0,
    ;
}

} // verus!
