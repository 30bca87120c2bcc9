//! What the pool's calls come to, figure by figure, and when they are refused.
//!
//! The laws speak of the amounts that go in and of the entries before and
//! after, so that they say what a call is for, however it is computed. A figure
//! `q` that is a part `x / d`, rounded down, appears as `q * d <= x < q * d + d`.
use crate::address::{Address, InvoiceId};
use crate::errors::PoolError;
use crate::pool::arithmetic;
use crate::pool::meaning;
use crate::pool::model::{
    ConfigEntry, InvoiceTerms, PoolAbort, PoolAction, PoolConfig, PoolContract, PoolReceipt,
    PoolState, PoolTotals,
};
use vstd::prelude::*;

verus! {

/// A refusal with an error of the pool's own.
pub open spec fn error(e: PoolError) -> Option<PoolAbort> {
    Some(PoolAbort::Error(e))
}

/// Whether two maps agree on all keys but one.
pub open spec fn same_but<K, V>(a: Map<K, V>, b: Map<K, V>, key: K) -> bool {
    forall|k: K|
        k != key ==> {
            &&& #[trigger] a.contains_key(k) == b.contains_key(k)
            &&& a.contains_key(k) ==> a[k] == b[k]
        }
}

/// A refused call hands back the reason and leaves the state alone; an
/// accepted one hands back its value and its actions and leaves the new state.
pub proof fn law_outcome_is_fixed<T>(
    r: Result<PoolReceipt<T>, PoolAbort>,
    before: PoolState,
    after: PoolState,
    refusal: Option<PoolAbort>,
    next: PoolState,
    value: T,
    actions: Seq<PoolAction>,
)
    requires
        meaning::performs(r, before, after, refusal, next, value, actions),
    ensures
        r is Ok <==> refusal is None,
        r matches Err(reason) ==> refusal == Some(reason) && after == before,
        r matches Ok(receipt) ==> {
            &&& receipt.value == value
            &&& receipt.actions@ == actions
            &&& after == next
        },
{
}

/// The mathematical content of a pool is that of each of its parts.
pub proof fn law_pool_is_seen_as_it_is(pool: PoolContract)
    ensures
        pool@.config == pool.config && pool@.totals == pool.totals,
        pool@.shares == pool.shares@ && pool@.deposit_counts == pool.deposit_counts@,
        pool@.initial_deposits == pool.initial_deposits@ && pool@.yields == pool.yields@,
        pool@.funded == pool.funded@,
{
}

/// An entry counts as what it holds, and as nothing where it is absent.
pub proof fn law_absent_entries_count_as_nothing(
    amounts: Map<Address, u128>,
    counts: Map<Address, u32>,
    key: Address,
)
    ensures
        amounts.contains_key(key) ==> meaning::amount_at(amounts, key) == amounts[key],
        !amounts.contains_key(key) ==> meaning::amount_at(amounts, key) == 0,
        counts.contains_key(key) ==> meaning::count_at(counts, key) == counts[key],
        !counts.contains_key(key) ==> meaning::count_at(counts, key) == 0,
{
}

// ---------------------------------------------------------------- prices
/// A deposit is to its shares as the deposits are to all shares, rounded down;
/// where there is no share or no deposit to go by, it gets a share per stroop.
pub proof fn law_shares_are_the_part_of_the_deposit(t: PoolTotals, amount: u128)
    ensures
        ({
            let minted = meaning::minted_shares(t, amount);
            if t.shares == 0 || t.deposits == 0 {
                minted == amount
            } else {
                minted * t.deposits <= amount * t.shares < minted * t.deposits + t.deposits
            }
        }),
{
    if t.deposits != 0 {
        arithmetic::lemma_quotient_product(amount * t.shares, t.deposits as int);
    }
}

/// The price of an invoice is its face value less the discount, rounded down
/// to a stroop.
pub proof fn law_price_is_the_discounted_face_value(face_value: u128, discount_bps: u32)
    ensures
        ({
            let price = meaning::purchase_price(face_value, discount_bps);
            price * 10_000 <= face_value * (10_000 - discount_bps) < (price + 1) * 10_000
        }),
{
}

/// No invoice is cheaper for a larger face value or for a smaller discount.
pub proof fn law_price_grows_with_face_value(
    face_value: u128,
    discount_bps: u32,
    larger: u128,
    smaller_bps: u32,
)
    requires
        face_value <= larger,
        smaller_bps <= discount_bps <= 10_000,
    ensures
        meaning::purchase_price(face_value, discount_bps) <= meaning::purchase_price(
            larger,
            smaller_bps,
        ),
{
    assert(face_value * (10_000 - discount_bps) <= larger * (10_000 - smaller_bps))
        by (nonlinear_arith)
        requires
            face_value <= larger,
            smaller_bps <= discount_bps <= 10_000,
    ;
}

/// Utilization is what is lent in ten-thousandths of the deposits, rounded
/// down; it cannot be told where ten thousand times the loans do not fit.
pub proof fn law_utilization_is_the_lent_part(funded: u128, deposits: u128)
    ensures
        ({
            let rate = meaning::utilization(funded as int, deposits as int);
            if deposits == 0 {
                rate == 0
            } else {
                rate * deposits <= funded * 10_000 < rate * deposits + deposits
            }
        }),
        meaning::utilization_overflows(funded as int, deposits as int) <==> deposits != 0 && funded
            * 10_000 > u128::MAX,
{
    if deposits != 0 {
        arithmetic::lemma_quotient_product(funded * 10_000, deposits as int);
    }
}

/// The cost that goes with some of a provider's shares is that part of the
/// provider's own cost, rounded down, whatever others hold.
pub proof fn law_cost_is_the_part_of_the_providers_own(s: PoolState, lp: Address, shares: u128)
    requires
        meaning::amount_at(s.shares, lp) > 0,
    ensures
        ({
            let cost = meaning::principal_portion(s, lp, shares);
            let basis = meaning::amount_at(s.initial_deposits, lp);
            let held = s.shares[lp];
            cost * held <= shares * basis < cost * held + held
        }),
{
    arithmetic::lemma_quotient_product(
        shares * meaning::amount_at(s.initial_deposits, lp),
        s.shares[lp] as int,
    );
}

/// What is withdrawn beyond its cost is yield; what falls short of it is none.
pub proof fn law_yield_is_what_exceeds_the_cost(s: PoolState, lp: Address, shares: u128)
    ensures
        ({
            let payout = meaning::share_value(s.totals, shares);
            let cost = meaning::principal_portion(s, lp, shares);
            let gain = meaning::withdrawn_yield(s, lp, shares);
            &&& payout >= cost ==> gain == payout - cost
            &&& payout < cost ==> gain == 0
        }),
{
}

// ---------------------------------------------------------------- initialization
/// A pool that nothing has been done to is empty and belongs to nobody.
pub proof fn law_blank_pool_is_empty()
    ensures
        ({
            let s = meaning::blank();
            &&& s.config is None
            &&& s.shares == Map::<Address, u128>::empty()
            &&& s.deposit_counts == Map::<Address, u32>::empty()
            &&& s.initial_deposits == Map::<Address, u128>::empty()
            &&& s.yields == Map::<Address, u128>::empty()
            &&& s.funded == Map::<InvoiceId, u128>::empty()
            &&& s.totals.shares == 0 && s.totals.deposits == 0 && s.totals.funded == 0
            &&& s.totals.yield_distributed == 0 && s.totals.loss_realised == 0
            &&& s.totals.active_invoices == 0
            &&& s.totals.max_utilization_bps == 8500
        }),
{
}

/// An initialization wires the pool as asked and starts its totals at nothing,
/// with a cap of 85 percent; no other entry changes.
pub proof fn law_initialization_wires_the_pool(s: PoolState, c: PoolConfig)
    ensures
        ({
            let t = meaning::after_initialize(s, c);
            &&& t.config == Some(c)
            &&& t.totals.shares == 0 && t.totals.deposits == 0 && t.totals.funded == 0
            &&& t.totals.yield_distributed == 0 && t.totals.loss_realised == 0
            &&& t.totals.active_invoices == 0
            &&& t.totals.max_utilization_bps == 8500
            &&& t == (PoolState { config: t.config, totals: t.totals, ..s })
        }),
{
}

/// When an initialization is refused: the pool is wired already, two of the
/// five addresses coincide, escrow holds another asset, or the admin did not
/// sign.
pub proof fn law_initialization_refusals(
    s: PoolState,
    signers: Set<Address>,
    c: PoolConfig,
    escrow_usdc_asset: Address,
)
    ensures
        ({
            let refusal = meaning::initialize_refusal(s, signers, c, escrow_usdc_asset);
            let early = meaning::configuration_refusal(s, c);
            let parts = seq![
                c.admin,
                c.invoice_contract,
                c.escrow_contract,
                c.usdc_asset,
                c.registry_contract,
            ];
            let distinct = parts.no_duplicates();
            &&& early == error(PoolError::AlreadyInitialized) <==> s.config is Some
            &&& early == error(PoolError::InvalidConfiguration) <==> s.config is None && !distinct
            &&& early is None <==> s.config is None && distinct
            &&& early is Some ==> refusal == early
            &&& refusal == error(PoolError::EscrowAssetMismatch) <==> early is None
                && escrow_usdc_asset != c.usdc_asset
            &&& refusal == Some(PoolAbort::Unauthorized(c.admin)) <==> early is None
                && escrow_usdc_asset == c.usdc_asset && !signers.contains(c.admin)
            &&& refusal is None <==> early is None && escrow_usdc_asset == c.usdc_asset
                && signers.contains(c.admin)
        }),
{
    let parts = seq![
        c.admin,
        c.invoice_contract,
        c.escrow_contract,
        c.usdc_asset,
        c.registry_contract,
    ];
    if meaning::distinct_addresses(c) {
        assert(parts.no_duplicates());
    } else {
        assert(!parts.no_duplicates()) by {
            assert(parts[0] == c.admin && parts[1] == c.invoice_contract);
            assert(parts[2] == c.escrow_contract && parts[3] == c.usdc_asset);
            assert(parts[4] == c.registry_contract);
        }
    }
}

// ---------------------------------------------------------------- deposits
/// A deposit adds what was paid to the deposits and to the provider's cost,
/// the shares it mints to all shares and to the provider's, and one to the
/// provider's count. Nothing else changes, and the call returns what it minted.
pub proof fn law_deposit_books_what_was_paid(
    s: PoolState,
    signers: Set<Address>,
    lp: Address,
    amount: u128,
)
    requires
        meaning::deposit_refusal(s, signers, lp, amount) is None,
    ensures
        ({
            let t = meaning::after_deposit(s, lp, amount);
            let minted = t.totals.shares - s.totals.shares;
            &&& meaning::minted_shares(s.totals, amount) == minted
            &&& if s.totals.shares == 0 || s.totals.deposits == 0 {
                minted == amount
            } else {
                minted * s.totals.deposits <= amount * s.totals.shares < minted * s.totals.deposits
                    + s.totals.deposits
            }
            &&& t.totals.deposits == s.totals.deposits + amount
            &&& t.totals == (PoolTotals {
                shares: t.totals.shares,
                deposits: t.totals.deposits,
                ..s.totals
            })
            &&& t.shares.contains_key(lp)
            &&& t.shares[lp] == meaning::amount_at(s.shares, lp) + minted
            &&& t.deposit_counts.contains_key(lp)
            &&& t.deposit_counts[lp] == meaning::count_at(s.deposit_counts, lp) + 1
            &&& t.initial_deposits.contains_key(lp)
            &&& t.initial_deposits[lp] == meaning::amount_at(s.initial_deposits, lp) + amount
            &&& same_but(t.shares, s.shares, lp)
            &&& same_but(t.deposit_counts, s.deposit_counts, lp)
            &&& same_but(t.initial_deposits, s.initial_deposits, lp)
            &&& t.config == s.config && t.yields == s.yields && t.funded == s.funded
        }),
{
    law_shares_are_the_part_of_the_deposit(s.totals, amount);
    if s.totals.shares != 0 && s.totals.deposits != 0 {
        assert(0 <= amount * s.totals.shares) by (nonlinear_arith);
        arithmetic::lemma_quotient_fits(amount * s.totals.shares, s.totals.deposits as int);
    }
}

/// When a deposit is refused.
pub proof fn law_deposit_refusals(s: PoolState, signers: Set<Address>, lp: Address, amount: u128)
    ensures
        ({
            let refusal = meaning::deposit_refusal(s, signers, lp, amount);
            let first = s.totals.shares == 0 || s.totals.deposits == 0;
            let product = amount * s.totals.shares;
            let minted = meaning::minted_shares(s.totals, amount);
            let asked = s.config is Some && signers.contains(lp);
            let sound = asked && amount > 0 && (first ==> amount >= 10_000_000);
            let priced = sound && (first || s.totals.deposits <= product <= u128::MAX);
            let booked = s.totals.shares + minted <= u128::MAX && s.totals.deposits + amount
                <= u128::MAX && meaning::amount_at(s.shares, lp) + minted <= u128::MAX
                && meaning::count_at(s.deposit_counts, lp) < u32::MAX && meaning::amount_at(
                s.initial_deposits,
                lp,
            ) + amount <= u128::MAX;
            &&& refusal == error(PoolError::NotInitialized) <==> s.config is None
            &&& refusal == Some(PoolAbort::Unauthorized(lp)) <==> s.config is Some
                && !signers.contains(lp)
            &&& refusal == error(PoolError::InvalidAmount) <==> asked && !sound
            &&& refusal == error(PoolError::Overflow) <==> sound && !first && product > u128::MAX
            &&& refusal == error(PoolError::MinimumDeposit) <==> sound && !first && product
                < s.totals.deposits
            &&& refusal == Some(PoolAbort::Arithmetic) <==> priced && !booked
            &&& refusal is None <==> priced && booked
        }),
{
    let d = s.totals.deposits as int;
    let x = amount * s.totals.shares;
    assert(0 <= x) by (nonlinear_arith)
        requires
            x == amount * s.totals.shares,
    ;
    if s.totals.shares != 0 && s.totals.deposits != 0 {
        let m = meaning::minted_shares(s.totals, amount);
        arithmetic::lemma_quotient_fits(x, d);
        arithmetic::lemma_quotient_product(x, d);
        assert(m == 0 <==> x < d) by (nonlinear_arith)
            requires
                0 <= m,
                m * d <= x < m * d + d,
                d > 0,
        ;
    }
}

// ---------------------------------------------------------------- withdrawals
/// A withdrawal takes the shares from all shares and from the provider's, and
/// pays their part of the deposits. The provider's cost falls by the part that
/// the shares are of the provider's own, all of it with the last share, and the
/// yield on record rises by what the payout exceeds that fall by, if anything.
/// Nothing else changes, and the call returns what it paid.
pub proof fn law_withdrawal_books_what_was_paid(
    s: PoolState,
    signers: Set<Address>,
    lp: Address,
    shares: u128,
)
    requires
        meaning::withdraw_refusal(s, signers, lp, shares) is None,
    ensures
        ({
            let t = meaning::after_withdraw(s, lp, shares);
            let held = s.shares[lp];
            let paid = s.totals.deposits - t.totals.deposits;
            let basis = meaning::amount_at(s.initial_deposits, lp);
            let fall = basis - meaning::amount_at(t.initial_deposits, lp);
            let gain = t.yields[lp] - meaning::amount_at(s.yields, lp);
            &&& s.shares.contains_key(lp) && 0 < shares <= held
            &&& meaning::share_value(s.totals, shares) == paid
            &&& 0 <= paid
            &&& paid * s.totals.shares <= shares * s.totals.deposits < paid * s.totals.shares
                + s.totals.shares
            &&& t.totals.shares == s.totals.shares - shares
            &&& t.totals == (PoolTotals {
                shares: t.totals.shares,
                deposits: t.totals.deposits,
                ..s.totals
            })
            &&& t.shares.contains_key(lp) && t.shares[lp] == held - shares
            &&& 0 <= fall <= basis
            &&& fall * held <= shares * basis < fall * held + held
            &&& shares == held ==> fall == basis
            &&& t.initial_deposits.contains_key(lp) <==> fall < basis
            &&& t.yields.contains_key(lp)
            &&& paid >= fall ==> gain == paid - fall
            &&& paid < fall ==> gain == 0
            &&& t.deposit_counts.contains_key(lp) <==> s.deposit_counts.contains_key(lp) && shares
                < held
            &&& t.deposit_counts.contains_key(lp) ==> t.deposit_counts[lp] == s.deposit_counts[lp]
            &&& same_but(t.shares, s.shares, lp)
            &&& same_but(t.deposit_counts, s.deposit_counts, lp)
            &&& same_but(t.initial_deposits, s.initial_deposits, lp)
            &&& same_but(t.yields, s.yields, lp)
            &&& t.config == s.config && t.funded == s.funded
        }),
{
    let basis = meaning::amount_at(s.initial_deposits, lp) as int;
    assert(0 <= shares * s.totals.deposits) by (nonlinear_arith);
    arithmetic::lemma_quotient_fits(shares * s.totals.deposits, s.totals.shares as int);
    arithmetic::lemma_quotient_product(shares * s.totals.deposits, s.totals.shares as int);
    arithmetic::lemma_portion_bounded(shares as int, basis, s.shares[lp] as int);
    arithmetic::lemma_quotient_product(shares * basis, s.shares[lp] as int);
}

/// When a withdrawal is refused.
pub proof fn law_withdrawal_refusals(s: PoolState, signers: Set<Address>, lp: Address, shares: u128)
    ensures
        ({
            let refusal = meaning::withdraw_refusal(s, signers, lp, shares);
            let held = meaning::amount_at(s.shares, lp);
            let value = meaning::share_value(s.totals, shares);
            let asked = s.config is Some && signers.contains(lp);
            let owned = asked && 0 < shares <= held;
            let lent = owned && s.totals.funded <= s.totals.deposits;
            let valued = lent && shares * s.totals.deposits <= u128::MAX;
            let priced = valued && s.totals.shares > 0;
            let liquid = priced && value <= s.totals.deposits - s.totals.funded;
            let issued = liquid && shares <= s.totals.shares;
            let costed = issued && shares * meaning::amount_at(s.initial_deposits, lp)
                <= u128::MAX;
            let booked = meaning::amount_at(s.yields, lp) + meaning::withdrawn_yield(s, lp, shares)
                <= u128::MAX;
            &&& refusal == error(PoolError::NotInitialized) <==> s.config is None
            &&& refusal == Some(PoolAbort::Unauthorized(lp)) <==> s.config is Some
                && !signers.contains(lp)
            &&& refusal == error(PoolError::InvalidAmount) <==> asked && shares == 0
            &&& refusal == error(PoolError::NoShares) <==> asked && shares > 0 && held == 0
            &&& refusal == error(PoolError::InsufficientShares) <==> asked && held > 0 && shares
                > held
            &&& refusal == error(PoolError::InsufficientLiquidity) <==> priced && !liquid
            &&& refusal == error(PoolError::Overflow) <==> (lent && !valued) || (issued && !costed)
            &&& refusal == Some(PoolAbort::Arithmetic) <==> (owned && !lent) || (valued && !priced)
                || (liquid && !issued) || (costed && !booked)
            &&& refusal is None <==> costed && booked
        }),
{
    assert(0 <= shares * s.totals.deposits) by (nonlinear_arith);
    assert(0 <= shares * meaning::amount_at(s.initial_deposits, lp)) by (nonlinear_arith);
}

// ---------------------------------------------------------------- funding
/// A funded invoice is on record at its price, which is added to what is lent;
/// one more invoice is active, and nothing else changes.
pub proof fn law_funding_books_the_price(s: PoolState, invoice_id: InvoiceId, terms: InvoiceTerms)
    requires
        meaning::funding_refusal(s, invoice_id, terms) is None,
    ensures
        ({
            let price = meaning::purchase_price(terms.face_value, terms.discount_bps) as u128;
            let t = meaning::after_funding(s, invoice_id, price);
            let lent = t.totals.funded - s.totals.funded;
            &&& lent == price
            &&& 0 < lent
            &&& lent * 10_000 <= terms.face_value * (10_000 - terms.discount_bps) < (lent + 1)
                * 10_000
            &&& t.totals.active_invoices == s.totals.active_invoices + 1
            &&& t.totals == (PoolTotals {
                funded: t.totals.funded,
                active_invoices: t.totals.active_invoices,
                ..s.totals
            })
            &&& !s.funded.contains_key(invoice_id)
            &&& t.funded.contains_key(invoice_id) && t.funded[invoice_id] == lent
            &&& same_but(t.funded, s.funded, invoice_id)
            &&& t == (PoolState { totals: t.totals, funded: t.funded, ..s })
        }),
{
    assert(0 <= terms.face_value * (10_000 - terms.discount_bps)) by (nonlinear_arith)
        requires
            terms.discount_bps <= 10_000,
    ;
}

/// When an invoice is not funded.
pub proof fn law_funding_refusals(s: PoolState, invoice_id: InvoiceId, terms: InvoiceTerms)
    ensures
        ({
            let refusal = meaning::funding_refusal(s, invoice_id, terms);
            let product = terms.face_value * (10_000 - terms.discount_bps);
            let price = meaning::purchase_price(terms.face_value, terms.discount_bps);
            let t = s.totals;
            let listed = s.config is Some && terms.status == 1;
            let open = listed && !s.funded.contains_key(invoice_id);
            let issued = open && terms.issuer_verified;
            let bought = issued && terms.buyer_verified;
            let eligible = bought && terms.funding_asset == s.config->0.usdc_asset;
            let discounted = eligible && terms.discount_bps <= 10_000;
            let priced = discounted && product <= u128::MAX;
            let wanted = priced && product >= 10_000;
            let lent = wanted && t.funded <= t.deposits;
            let liquid = lent && price <= t.deposits - t.funded;
            let scaled = liquid && (t.funded + price) * 10_000 <= u128::MAX;
            let capped = scaled && (t.funded + price) * 10_000 < (t.max_utilization_bps + 1)
                * t.deposits;
            &&& refusal == error(PoolError::NotInitialized) <==> s.config is None
            &&& refusal == error(PoolError::InvoiceNotListed) <==> s.config is Some && terms.status
                != 1
            &&& refusal == error(PoolError::AlreadyFunded) <==> listed && !open
            &&& refusal == error(PoolError::IssuerNotVerified) <==> open && !issued
            &&& refusal == error(PoolError::BuyerNotVerified) <==> issued && !bought
            &&& refusal == error(PoolError::AssetMismatch) <==> bought && !eligible
            &&& refusal == error(PoolError::InvalidAmount) <==> priced && !wanted
            &&& refusal == error(PoolError::InsufficientLiquidity) <==> lent && !liquid
            &&& refusal == error(PoolError::UtilizationCapExceeded) <==> scaled && !capped
            &&& refusal == error(PoolError::Overflow) <==> (discounted && !priced) || (liquid
                && !scaled)
            &&& refusal == Some(PoolAbort::Arithmetic) <==> (eligible && !discounted) || (wanted
                && !lent) || (capped && t.active_invoices == u32::MAX)
            &&& refusal is None <==> capped && t.active_invoices < u32::MAX
        }),
{
    let t = s.totals;
    let price = meaning::purchase_price(terms.face_value, terms.discount_bps);
    if terms.discount_bps <= 10_000 {
        assert(0 <= terms.face_value * (10_000 - terms.discount_bps)) by (nonlinear_arith)
            requires
                terms.discount_bps <= 10_000,
        ;
        if t.deposits > 0 {
            let x = (t.funded + price) * 10_000;
            let d = t.deposits as int;
            let u = meaning::utilization(t.funded + price, d);
            let cap = t.max_utilization_bps as int;
            arithmetic::lemma_quotient_product(x, d);
            assert(u <= cap <==> x < (cap + 1) * d) by (nonlinear_arith)
                requires
                    u * d <= x < u * d + d,
                    d > 0,
            ;
        }
    }
}

// ---------------------------------------------------------------- repayments and defaults
/// When only the invoice contract's report on a funded invoice is taken.
pub proof fn law_report_refusals(s: PoolState, signers: Set<Address>, invoice_id: InvoiceId)
    ensures
        ({
            let refusal = meaning::report_refusal(s, signers, invoice_id);
            let signed = s.config is Some && signers.contains(s.config->0.invoice_contract);
            &&& refusal == Some(PoolAbort::NotConfigured(ConfigEntry::InvoiceContract)) <==> s.config
                is None
            &&& s.config is Some ==> (refusal == Some(
                PoolAbort::Unauthorized(s.config->0.invoice_contract),
            ) <==> !signed)
            &&& refusal == error(PoolError::InvoiceNotFound) <==> signed && !s.funded.contains_key(
                invoice_id,
            )
            &&& refusal is None <==> signed && s.funded.contains_key(invoice_id)
        }),
{
}

/// A repayment closes the invoice: its price is no longer lent, one invoice
/// less is active, and deposits and distributed yield rise alike by what was
/// repaid above the price and not refunded. Nothing else changes.
pub proof fn law_repayment_books_price_and_yield(
    s: PoolState,
    signers: Set<Address>,
    invoice_id: InvoiceId,
    amount: u128,
    refund: u128,
)
    requires
        meaning::refund_refusal(s, signers, invoice_id, amount, refund) is None,
    ensures
        ({
            let t = meaning::after_refund(s, invoice_id, amount, refund);
            let price = s.funded[invoice_id];
            &&& price + refund <= amount
            &&& t.totals.deposits == s.totals.deposits + amount - price - refund
            &&& t.totals.yield_distributed == s.totals.yield_distributed + amount - price - refund
            &&& t.totals.funded == s.totals.funded - price
            &&& t.totals.active_invoices == s.totals.active_invoices - 1
            &&& t.totals == (PoolTotals {
                deposits: t.totals.deposits,
                yield_distributed: t.totals.yield_distributed,
                funded: t.totals.funded,
                active_invoices: t.totals.active_invoices,
                ..s.totals
            })
            &&& !t.funded.contains_key(invoice_id)
            &&& same_but(t.funded, s.funded, invoice_id)
            &&& t == (PoolState { totals: t.totals, funded: t.funded, ..s })
        }),
{
}

/// The same of a repayment without a refund.
pub proof fn law_plain_repayment_books_price_and_yield(
    s: PoolState,
    signers: Set<Address>,
    invoice_id: InvoiceId,
    amount: u128,
)
    requires
        meaning::repayment_refusal(s, signers, invoice_id, amount) is None,
    ensures
        ({
            let t = meaning::after_repayment(s, invoice_id, amount);
            let price = s.funded[invoice_id];
            &&& price <= amount
            &&& t.totals.deposits == s.totals.deposits + amount - price
            &&& t.totals.yield_distributed == s.totals.yield_distributed + amount - price
            &&& t.totals.funded == s.totals.funded - price
            &&& t.totals.active_invoices == s.totals.active_invoices - 1
            &&& t.totals == (PoolTotals {
                deposits: t.totals.deposits,
                yield_distributed: t.totals.yield_distributed,
                funded: t.totals.funded,
                active_invoices: t.totals.active_invoices,
                ..s.totals
            })
            &&& !t.funded.contains_key(invoice_id)
            &&& same_but(t.funded, s.funded, invoice_id)
            &&& t == (PoolState { totals: t.totals, funded: t.funded, ..s })
        }),
{
}

/// When a repayment is refused, with a refund or without.
pub proof fn law_repayment_refusals(
    s: PoolState,
    signers: Set<Address>,
    invoice_id: InvoiceId,
    amount: u128,
    refund: u128,
)
    ensures
        ({
            let report = meaning::report_refusal(s, signers, invoice_id);
            let refusal = meaning::refund_refusal(s, signers, invoice_id, amount, refund);
            let plain = meaning::repayment_refusal(s, signers, invoice_id, amount);
            let price = s.funded[invoice_id];
            let gain = amount - price - refund;
            let t = s.totals;
            let covered = report is None && price + refund <= amount;
            let booked = covered && t.deposits + gain <= u128::MAX && t.yield_distributed + gain
                <= u128::MAX && price <= t.funded;
            &&& report is Some ==> refusal == report && plain == report
            &&& refusal == error(PoolError::InvalidAmount) <==> report is None && !covered
            &&& refusal == Some(PoolAbort::Arithmetic) <==> covered && !booked
            &&& refusal == error(PoolError::ActiveCountUnderflow) <==> booked && t.active_invoices
                == 0
            &&& refusal is None <==> booked && t.active_invoices > 0
            &&& refund == 0 ==> plain == refusal
        }),
{
}

/// A default closes the invoice and books its price as a loss: what is lent
/// and the deposits fall by it alike, the losses rise by it, and one invoice
/// less is active. Nothing else changes.
pub proof fn law_default_books_the_price(
    s: PoolState,
    signers: Set<Address>,
    invoice_id: InvoiceId,
    escrow_released: bool,
)
    requires
        meaning::default_refusal(s, signers, invoice_id, escrow_released) is None,
    ensures
        ({
            let price = s.funded[invoice_id];
            let t = meaning::after_default(s, invoice_id, price);
            &&& escrow_released
            &&& t.totals.funded == s.totals.funded - price
            &&& t.totals.deposits == s.totals.deposits - price
            &&& t.totals.loss_realised == s.totals.loss_realised + price
            &&& t.totals.active_invoices == s.totals.active_invoices - 1
            &&& t.totals == (PoolTotals {
                funded: t.totals.funded,
                deposits: t.totals.deposits,
                loss_realised: t.totals.loss_realised,
                active_invoices: t.totals.active_invoices,
                ..s.totals
            })
            &&& !t.funded.contains_key(invoice_id)
            &&& same_but(t.funded, s.funded, invoice_id)
            &&& t == (PoolState { totals: t.totals, funded: t.funded, ..s })
        }),
{
}

/// What a default closed in two steps books: the amount of the case, whatever
/// the state has become in between.
pub proof fn law_closed_default_books_the_case(
    s: PoolState,
    invoice_id: InvoiceId,
    amount: u128,
    escrow_released: bool,
)
    requires
        meaning::loss_refusal(s.totals, amount, escrow_released) is None,
    ensures
        ({
            let t = meaning::after_default(s, invoice_id, amount);
            &&& escrow_released
            &&& t.totals.funded == s.totals.funded - amount
            &&& t.totals.deposits == s.totals.deposits - amount
            &&& t.totals.loss_realised == s.totals.loss_realised + amount
            &&& t.totals.active_invoices == s.totals.active_invoices - 1
            &&& t.totals == (PoolTotals {
                funded: t.totals.funded,
                deposits: t.totals.deposits,
                loss_realised: t.totals.loss_realised,
                active_invoices: t.totals.active_invoices,
                ..s.totals
            })
            &&& !t.funded.contains_key(invoice_id)
            &&& same_but(t.funded, s.funded, invoice_id)
            &&& t == (PoolState { totals: t.totals, funded: t.funded, ..s })
        }),
{
}

/// When a default is refused.
pub proof fn law_default_refusals(
    s: PoolState,
    signers: Set<Address>,
    invoice_id: InvoiceId,
    amount: u128,
    escrow_released: bool,
)
    ensures
        ({
            let report = meaning::report_refusal(s, signers, invoice_id);
            let loss = meaning::loss_refusal(s.totals, amount, escrow_released);
            let t = s.totals;
            let booked = escrow_released && amount <= t.funded && amount <= t.deposits
                && t.loss_realised + amount <= u128::MAX;
            &&& loss == error(PoolError::EscrowDefaultNotReleased) <==> !escrow_released
            &&& loss == Some(PoolAbort::Arithmetic) <==> escrow_released && !booked
            &&& loss == error(PoolError::ActiveCountUnderflow) <==> booked && t.active_invoices == 0
            &&& loss is None <==> booked && t.active_invoices > 0
            &&& meaning::default_refusal(s, signers, invoice_id, escrow_released) == if report
                is Some {
                report
            } else {
                meaning::loss_refusal(t, s.funded[invoice_id], escrow_released)
            }
        }),
{
}

// ---------------------------------------------------------------- cap
/// A change of the cap sets it as asked and changes nothing else. It takes the
/// signatures of whoever asks and of the pool's admin, and a cap of at most one
/// hundred percent.
pub proof fn law_cap_is_set_as_asked(
    s: PoolState,
    signers: Set<Address>,
    admin: Address,
    new_cap_bps: u32,
)
    ensures
        ({
            let t = meaning::after_cap(s, new_cap_bps);
            let refusal = meaning::cap_refusal(s, signers, admin, new_cap_bps);
            let signed = signers.contains(admin) && (s.config is Some ==> signers.contains(
                s.config->0.admin,
            ));
            &&& t.totals.max_utilization_bps == new_cap_bps
            &&& t.totals == (PoolTotals { max_utilization_bps: new_cap_bps, ..s.totals })
            &&& t == (PoolState { totals: t.totals, ..s })
            &&& !signers.contains(admin) ==> refusal == Some(PoolAbort::Unauthorized(admin))
            &&& signers.contains(admin) && !signed ==> refusal == Some(
                PoolAbort::Unauthorized(s.config->0.admin),
            )
            &&& refusal == error(PoolError::InvalidAmount) <==> signed && new_cap_bps > 10_000
            &&& refusal is None <==> signed && new_cap_bps <= 10_000
        }),
{
}

// ---------------------------------------------------------------- reports
/// The statistics are the totals, what is free of the deposits, and the lent
/// part of them.
pub proof fn law_statistics_report_the_totals(s: PoolState)
    ensures
        ({
            let refusal = meaning::stats_refusal(s);
            let r = meaning::stats(s);
            let t = s.totals;
            let wired = s.config is Some;
            let fits = t.deposits == 0 || t.funded * 10_000 <= u128::MAX;
            &&& refusal == error(PoolError::NotInitialized) <==> !wired
            &&& refusal == Some(PoolAbort::Arithmetic) <==> wired && t.deposits < t.funded
            &&& refusal == error(PoolError::Overflow) <==> wired && t.funded <= t.deposits && !fits
            &&& refusal is None <==> wired && t.funded <= t.deposits && fits
            &&& r.total_deposits == t.deposits && r.total_funded == t.funded
            &&& t.funded <= t.deposits ==> r.available_liquidity + t.funded == t.deposits
            &&& 0 < t.deposits && t.funded <= t.deposits ==> r.utilization_rate_bps * t.deposits
                <= t.funded * 10_000 < r.utilization_rate_bps * t.deposits + t.deposits
            &&& t.deposits == 0 ==> r.utilization_rate_bps == 0
            &&& r.total_yield_distributed == t.yield_distributed
            &&& r.total_loss_realised == t.loss_realised
            &&& r.active_invoice_count == t.active_invoices
            &&& r.total_shares == t.shares && r.max_utilization_bps == t.max_utilization_bps
        }),
{
    let t = s.totals;
    if 0 < t.deposits && t.funded <= t.deposits {
        law_utilization_is_the_lent_part(t.funded, t.deposits);
        crate::pool::funding::lemma_utilization_in_range(t.funded as int, t.deposits as int);
    }
}

/// A position is what the provider's entries hold, and the part of the
/// deposits that the shares are of all shares, rounded down.
pub proof fn law_position_reports_the_entries(s: PoolState, lp: Address)
    ensures
        ({
            let p = meaning::position(s, lp);
            let held = meaning::amount_at(s.shares, lp);
            let t = s.totals;
            &&& meaning::position_overflows(s, lp) <==> t.shares > 0 && held * t.deposits
                > u128::MAX
            &&& p.shares == held
            &&& p.yield_earned == meaning::amount_at(s.yields, lp)
            &&& p.deposit_count == meaning::count_at(s.deposit_counts, lp)
            &&& t.shares == 0 || held == 0 ==> p.usdc_value == 0
            &&& t.shares > 0 && !meaning::position_overflows(s, lp) ==> p.usdc_value * t.shares
                <= held * t.deposits < p.usdc_value * t.shares + t.shares
        }),
{
    let held = meaning::amount_at(s.shares, lp);
    let t = s.totals;
    assert(0 <= held * t.deposits) by (nonlinear_arith);
    assert(held == 0 ==> held * t.deposits == 0) by (nonlinear_arith);
    if t.shares > 0 {
        arithmetic::lemma_quotient_fits(held * t.deposits, t.shares as int);
        arithmetic::lemma_quotient_product(held * t.deposits, t.shares as int);
    }
}

} // verus!
