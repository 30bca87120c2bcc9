//! What accepted calls ask of the ledger: that nothing the pool decided gets
//! lost on the way.
use crate::address::{Address, InvoiceId};
use crate::pool::arithmetic;
use crate::pool::books;
use crate::pool::books::PoolCall;
use crate::pool::laws;
use crate::pool::meaning;
use crate::pool::model::{DataKey, PoolAction, PoolEvent, PoolState};
use vstd::prelude::*;

verus! {

/// What an accepted call asks of the ledger. `buyer` is the one who is paid
/// where the call refunds something.
pub open spec fn actions_of(s: PoolState, call: PoolCall, buyer: Address) -> Seq<PoolAction> {
    match call {
        PoolCall::Initialize { config, .. } => meaning::initialize_actions(config),
        PoolCall::Deposit { lp, amount, .. } => meaning::deposit_actions(
            lp,
            amount,
            meaning::minted_shares(s.totals, amount) as u128,
        ),
        PoolCall::Withdraw { lp, shares, .. } => meaning::withdraw_actions(s, lp, shares),
        PoolCall::Fund { invoice_id, terms } => meaning::funding_actions(
            s.config->0,
            invoice_id,
            meaning::purchase_price(terms.face_value, terms.discount_bps) as u128,
            terms.issuer,
        ),
        PoolCall::Repay { invoice_id, amount, .. } => meaning::repayment_actions(
            s,
            invoice_id,
            amount,
        ),
        PoolCall::RepayWithRefund { invoice_id, amount, refund, .. } => meaning::refund_actions(
            s,
            invoice_id,
            amount,
            refund,
            buyer,
        ),
        PoolCall::Default { invoice_id, .. } => meaning::default_actions(
            s.config->0.invoice_contract,
            invoice_id,
            s.funded[invoice_id],
        ),
        PoolCall::SetCap { new_cap_bps, .. } => meaning::cap_actions(
            s.totals.max_utilization_bps,
            new_cap_bps,
        ),
    }
}

/// Whether two states hold the same under a key.
pub open spec fn same_entry(s: PoolState, t: PoolState, key: DataKey) -> bool {
    match key {
        DataKey::Config => s.config == t.config,
        DataKey::Totals => s.totals == t.totals,
        DataKey::LPShares(lp) => same_value(s.shares, t.shares, lp),
        DataKey::LPDepositCount(lp) => same_value(s.deposit_counts, t.deposit_counts, lp),
        DataKey::LPInitialDeposit(lp) => same_value(s.initial_deposits, t.initial_deposits, lp),
        DataKey::LPYieldEarned(lp) => same_value(s.yields, t.yields, lp),
        DataKey::FundedInvoice(id) => same_value(s.funded, t.funded, id),
    }
}

/// Whether two maps hold the same value, or none, under a key.
pub open spec fn same_value<K, V>(a: Map<K, V>, b: Map<K, V>, key: K) -> bool {
    &&& a.contains_key(key) == b.contains_key(key)
    &&& a.contains_key(key) ==> a[key] == b[key]
}

/// Whether a state has an entry with a lifetime of its own under a key.
pub open spec fn holds_entry(s: PoolState, key: DataKey) -> bool {
    match key {
        DataKey::Config | DataKey::Totals => false,
        DataKey::LPShares(lp) => s.shares.contains_key(lp),
        DataKey::LPDepositCount(lp) => s.deposit_counts.contains_key(lp),
        DataKey::LPInitialDeposit(lp) => s.initial_deposits.contains_key(lp),
        DataKey::LPYieldEarned(lp) => s.yields.contains_key(lp),
        DataKey::FundedInvoice(id) => s.funded.contains_key(id),
    }
}

/// Whether an action moves USDC.
pub open spec fn moves_usdc(action: PoolAction) -> bool {
    action is PullUsdc || action is PayUsdc
}

/// Every entry that an accepted call changes is among those it has stored, so
/// that the ledger holds the new state once the actions are done.
pub proof fn law_changes_are_stored(s: PoolState, call: PoolCall, buyer: Address, key: DataKey)
    requires
        books::refusal(s, call) is None,
        !same_entry(s, books::accepted(s, call), key),
    ensures
        actions_of(s, call, buyer).contains(PoolAction::Store(key)),
{
    let actions = actions_of(s, call, buyer);
    match call {
        PoolCall::Initialize { .. } => {
            assert(actions[0] == PoolAction::Store(DataKey::Config));
            assert(actions[1] == PoolAction::Store(DataKey::Totals));
        },
        PoolCall::Deposit { lp, .. } => {
            assert(actions[1] == PoolAction::Store(DataKey::Totals));
            assert(actions[2] == PoolAction::Store(DataKey::LPShares(lp)));
            assert(actions[4] == PoolAction::Store(DataKey::LPDepositCount(lp)));
            assert(actions[6] == PoolAction::Store(DataKey::LPInitialDeposit(lp)));
        },
        PoolCall::Withdraw { lp, shares, .. } => {
            assert(actions[1] == PoolAction::Store(DataKey::Totals));
            assert(actions[2] == PoolAction::Store(DataKey::LPShares(lp)));
            assert(actions[actions.len() - 4] == PoolAction::Store(DataKey::LPYieldEarned(lp)));
            if shares == s.shares[lp] {
                assert(actions[4] == PoolAction::Store(DataKey::LPDepositCount(lp)));
                assert(actions[5] == PoolAction::Store(DataKey::LPInitialDeposit(lp)));
            } else {
                assert(actions[4] == PoolAction::Store(DataKey::LPInitialDeposit(lp)));
            }
        },
        PoolCall::Fund { invoice_id, .. } => {
            assert(actions[0] == PoolAction::Store(DataKey::Totals));
            assert(actions[1] == PoolAction::Store(DataKey::FundedInvoice(invoice_id)));
        },
        PoolCall::Repay { invoice_id, .. } => {
            assert(actions[0] == PoolAction::Store(DataKey::Totals));
            assert(actions[1] == PoolAction::Store(DataKey::FundedInvoice(invoice_id)));
        },
        PoolCall::RepayWithRefund { invoice_id, .. } => {
            assert(actions[0] == PoolAction::Store(DataKey::Totals));
            assert(actions[1] == PoolAction::Store(DataKey::FundedInvoice(invoice_id)));
        },
        PoolCall::Default { invoice_id, .. } => {
            assert(actions[0] == PoolAction::Store(DataKey::Totals));
            assert(actions[2] == PoolAction::Store(DataKey::FundedInvoice(invoice_id)));
        },
        PoolCall::SetCap { .. } => {
            assert(actions[0] == PoolAction::Store(DataKey::Totals));
        },
    }
}

/// An entry that is stored and stays has its lifetime extended right after.
pub proof fn law_stored_entries_are_extended(
    s: PoolState,
    call: PoolCall,
    buyer: Address,
    i: int,
    key: DataKey,
)
    requires
        books::refusal(s, call) is None,
        0 <= i < actions_of(s, call, buyer).len(),
        actions_of(s, call, buyer)[i] == PoolAction::Store(key),
        holds_entry(books::accepted(s, call), key),
    ensures
        i + 1 < actions_of(s, call, buyer).len(),
        actions_of(s, call, buyer)[i + 1] == PoolAction::ExtendTtl(key),
{
}

/// Every accepted call extends the lifetime of the contract.
pub proof fn law_calls_extend_the_contract(s: PoolState, call: PoolCall, buyer: Address)
    ensures
        actions_of(s, call, buyer).contains(PoolAction::ExtendInstanceTtl),
{
    let actions = actions_of(s, call, buyer);
    match call {
        PoolCall::Initialize { .. } => {
            assert(actions[2] == PoolAction::ExtendInstanceTtl);
        },
        _ => {
            assert(actions[actions.len() - 1] == PoolAction::ExtendInstanceTtl);
        },
    }
}

/// Every accepted call is announced by exactly one event.
pub proof fn law_calls_are_announced_once(s: PoolState, call: PoolCall, buyer: Address)
    ensures
        exists|i: int|
            #![trigger actions_of(s, call, buyer)[i]]
            {
                &&& 0 <= i < actions_of(s, call, buyer).len()
                &&& actions_of(s, call, buyer)[i] is Emit
                &&& forall|j: int|
                    #![trigger actions_of(s, call, buyer)[j]]
                    0 <= j < actions_of(s, call, buyer).len() && j != i ==> !(actions_of(
                        s,
                        call,
                        buyer,
                    )[j] is Emit)
            },
{
    let actions = actions_of(s, call, buyer);
    let at = match call {
        PoolCall::Initialize { .. } => 3,
        _ => actions.len() - 2,
    };
    assert(actions[at] is Emit);
    assert forall|j: int|
        #![trigger actions[j]]
        0 <= j < actions.len() && j != at implies !(actions[j] is Emit) by {}
}

/// A deposit pulls from the provider exactly what free liquidity rises by, in
/// one transfer before anything is written.
pub proof fn law_deposit_moves_what_it_books(
    s: PoolState,
    signers: Set<Address>,
    lp: Address,
    amount: u128,
)
    requires
        meaning::deposit_refusal(s, signers, lp, amount) is None,
        amount <= i128::MAX,
    ensures
        ({
            let shares = meaning::minted_shares(s.totals, amount) as u128;
            let actions = meaning::deposit_actions(lp, amount, shares);
            let t = meaning::after_deposit(s, lp, amount).totals;
            &&& actions[0] == (PoolAction::PullUsdc { from: lp, amount: amount as i128 })
            &&& actions[0]->PullUsdc_amount == meaning::available(t) - meaning::available(s.totals)
            &&& forall|i: int|
                #![trigger actions[i]]
                0 < i < actions.len() ==> !moves_usdc(actions[i])
        }),
{
}

/// A withdrawal pays the provider exactly what free liquidity falls by, in one
/// transfer before anything is written.
pub proof fn law_withdrawal_moves_what_it_books(
    s: PoolState,
    signers: Set<Address>,
    lp: Address,
    shares: u128,
)
    requires
        meaning::withdraw_refusal(s, signers, lp, shares) is None,
        meaning::share_value(s.totals, shares) <= i128::MAX,
    ensures
        ({
            let actions = meaning::withdraw_actions(s, lp, shares);
            let paid = meaning::share_value(s.totals, shares);
            let t = meaning::after_withdraw(s, lp, shares).totals;
            &&& actions[0] == (PoolAction::PayUsdc { to: lp, amount: paid as i128 })
            &&& actions[0]->PayUsdc_amount == meaning::available(s.totals) - meaning::available(t)
            &&& forall|i: int|
                #![trigger actions[i]]
                0 < i < actions.len() ==> !moves_usdc(actions[i])
        }),
{
    assert(0 <= shares * s.totals.deposits) by (nonlinear_arith);
    arithmetic::lemma_quotient_fits(shares * s.totals.deposits, s.totals.shares as int);
}

/// A repayment with a refund moves nothing but the refund, and that only to
/// the buyer.
pub proof fn law_repayment_moves_only_the_refund(
    s: PoolState,
    invoice_id: InvoiceId,
    amount: u128,
    refund: u128,
    buyer: Address,
    i: int,
)
    requires
        0 <= i < meaning::refund_actions(s, invoice_id, amount, refund, buyer).len(),
        moves_usdc(meaning::refund_actions(s, invoice_id, amount, refund, buyer)[i]),
    ensures
        refund > 0,
        i == 2,
        meaning::refund_actions(s, invoice_id, amount, refund, buyer)[i] == (PoolAction::PayUsdc {
            to: buyer,
            amount: refund as i128,
        }),
{
}

/// Which entries an accepted call stores: the totals, and those of its own
/// provider or invoice. A withdrawal stores the deposit count only with the
/// last share.
pub proof fn law_calls_store_their_own_entries(
    s: PoolState,
    call: PoolCall,
    buyer: Address,
    key: DataKey,
)
    requires
        books::refusal(s, call) is None,
    ensures
        actions_of(s, call, buyer).contains(PoolAction::Store(key)) <==> match call {
            PoolCall::Initialize { .. } => key == DataKey::Config || key == DataKey::Totals,
            PoolCall::Deposit { lp, .. } => {
                ||| key == DataKey::Totals
                ||| key == DataKey::LPShares(lp)
                ||| key == DataKey::LPDepositCount(lp)
                ||| key == DataKey::LPInitialDeposit(lp)
            },
            PoolCall::Withdraw { lp, shares, .. } => {
                ||| key == DataKey::Totals
                ||| key == DataKey::LPShares(lp)
                ||| key == DataKey::LPDepositCount(lp) && shares == s.shares[lp]
                ||| key == DataKey::LPInitialDeposit(lp)
                ||| key == DataKey::LPYieldEarned(lp)
            },
            PoolCall::Fund { invoice_id, .. } => key == DataKey::Totals || key
                == DataKey::FundedInvoice(invoice_id),
            PoolCall::Repay { invoice_id, .. } => key == DataKey::Totals || key
                == DataKey::FundedInvoice(invoice_id),
            PoolCall::RepayWithRefund { invoice_id, .. } => key == DataKey::Totals || key
                == DataKey::FundedInvoice(invoice_id),
            PoolCall::Default { invoice_id, .. } => key == DataKey::Totals || key
                == DataKey::FundedInvoice(invoice_id),
            PoolCall::SetCap { .. } => key == DataKey::Totals,
        },
{
    let actions = actions_of(s, call, buyer);
    match call {
        PoolCall::Initialize { .. } => {
            assert(actions[0] == PoolAction::Store(DataKey::Config));
            assert(actions[1] == PoolAction::Store(DataKey::Totals));
        },
        PoolCall::Deposit { lp, .. } => {
            assert(actions[1] == PoolAction::Store(DataKey::Totals));
            assert(actions[2] == PoolAction::Store(DataKey::LPShares(lp)));
            assert(actions[4] == PoolAction::Store(DataKey::LPDepositCount(lp)));
            assert(actions[6] == PoolAction::Store(DataKey::LPInitialDeposit(lp)));
        },
        PoolCall::Withdraw { lp, shares, .. } => {
            assert(actions[1] == PoolAction::Store(DataKey::Totals));
            assert(actions[2] == PoolAction::Store(DataKey::LPShares(lp)));
            assert(actions[actions.len() - 4] == PoolAction::Store(DataKey::LPYieldEarned(lp)));
            if shares == s.shares[lp] {
                assert(actions[4] == PoolAction::Store(DataKey::LPDepositCount(lp)));
                assert(actions[5] == PoolAction::Store(DataKey::LPInitialDeposit(lp)));
            } else {
                assert(actions[4] == PoolAction::Store(DataKey::LPInitialDeposit(lp)));
            }
        },
        PoolCall::Default { invoice_id, .. } => {
            assert(actions[0] == PoolAction::Store(DataKey::Totals));
            assert(actions[2] == PoolAction::Store(DataKey::FundedInvoice(invoice_id)));
        },
        PoolCall::Fund { invoice_id, .. }
        | PoolCall::Repay { invoice_id, .. }
        | PoolCall::RepayWithRefund { invoice_id, .. } => {
            assert(actions[0] == PoolAction::Store(DataKey::Totals));
            assert(actions[1] == PoolAction::Store(DataKey::FundedInvoice(invoice_id)));
        },
        PoolCall::SetCap { .. } => {
            assert(actions[0] == PoolAction::Store(DataKey::Totals));
        },
    }
}

/// No entry is stored twice, no lifetime is extended but that of an entry that
/// was stored just before and stays, and that of the contract only once.
#[verifier::rlimit(60)]
#[verifier::spinoff_prover]
pub proof fn law_nothing_is_stored_or_extended_twice(
    s: PoolState,
    call: PoolCall,
    buyer: Address,
    i: int,
    j: int,
)
    requires
        books::refusal(s, call) is None,
        0 <= i < actions_of(s, call, buyer).len(),
        0 <= j < actions_of(s, call, buyer).len(),
        i != j,
    ensures
        ({
            let actions = actions_of(s, call, buyer);
            &&& actions[i] is Store ==> actions[j] != actions[i]
            &&& actions[i] is ExtendInstanceTtl ==> !(actions[j] is ExtendInstanceTtl)
            &&& actions[i] matches PoolAction::ExtendTtl(key) ==> {
                &&& 0 < i
                &&& actions[i - 1] == PoolAction::Store(key)
                &&& holds_entry(books::accepted(s, call), key)
            }
        }),
{
}

/// What an accepted call asks of others, and at which point. A deposit pulls
/// what is paid in and a withdrawal pays what the deposits fall by, before
/// anything is stored. Funding has escrow lock what is lent for the issuer and
/// then tells the invoice contract, after everything is stored. A refund is
/// paid to the buyer once the books are stored. A default is told to the
/// invoice contract between the totals and the end of the invoice's entry.
/// Nothing else is asked of anybody.
pub proof fn law_calls_ask_of_others(s: PoolState, call: PoolCall, buyer: Address)
    requires
        books::refusal(s, call) is None,
    ensures
        ({
            let actions = actions_of(s, call, buyer);
            let t = books::accepted(s, call);
            &&& call matches PoolCall::Deposit { lp, amount, .. } ==> actions[0] == (
            PoolAction::PullUsdc { from: lp, amount: amount as i128 })
            &&& call matches PoolCall::Withdraw { lp, .. } ==> actions[0] == (PoolAction::PayUsdc {
                to: lp,
                amount: ((s.totals.deposits - t.totals.deposits) as u128) as i128,
            })
            &&& call matches PoolCall::Fund { invoice_id, terms } ==> {
                &&& actions[0] is Store && actions[1] is Store
                &&& actions[3] == (PoolAction::LockEscrow {
                    escrow: s.config->0.escrow_contract,
                    invoice_id,
                    amount: t.funded[invoice_id],
                    issuer: terms.issuer,
                })
                &&& actions[4] == (PoolAction::MarkFunded {
                    invoice_contract: s.config->0.invoice_contract,
                    invoice_id,
                    asset: s.config->0.usdc_asset,
                    amount: t.funded[invoice_id],
                })
            }
            &&& call matches PoolCall::RepayWithRefund { refund, .. } ==> {
                &&& actions[0] is Store && actions[1] is Store
                &&& refund > 0 ==> actions[2] == (PoolAction::PayUsdc {
                    to: buyer,
                    amount: refund as i128,
                })
            }
            &&& call matches PoolCall::Default { invoice_id, .. } ==> {
                &&& actions[0] == PoolAction::Store(DataKey::Totals)
                &&& actions[1] == (PoolAction::MarkDefaulted {
                    invoice_contract: s.config->0.invoice_contract,
                    invoice_id,
                })
                &&& actions[2] == PoolAction::Store(DataKey::FundedInvoice(invoice_id))
            }
            &&& forall|i: int|
                #![trigger actions[i]]
                0 <= i < actions.len() && laws::calls_out(actions[i]) ==> match call {
                    PoolCall::Deposit { .. } | PoolCall::Withdraw { .. } => i == 0,
                    PoolCall::Fund { .. } => i == 3 || i == 4,
                    PoolCall::RepayWithRefund { refund, .. } => i == 2 && refund > 0,
                    PoolCall::Default { .. } => i == 1,
                    _ => false,
                }
        }),
{
    match call {
        PoolCall::Withdraw { shares, .. } => {
            assert(0 <= shares * s.totals.deposits) by (nonlinear_arith);
            arithmetic::lemma_quotient_fits(shares * s.totals.deposits, s.totals.shares as int);
        },
        PoolCall::Fund { terms, .. } => {
            laws::law_price_within_face_value(terms.face_value, terms.discount_bps);
        },
        _ => {},
    }
}

/// A refund reaches the buyer: an accepted repayment with a refund has exactly
/// one transfer, to the buyer and of exactly the refund, and what came in less
/// what is paid out is what free liquidity rises by.
pub proof fn law_refund_reaches_the_buyer(
    s: PoolState,
    signers: Set<Address>,
    invoice_id: InvoiceId,
    amount: u128,
    refund: u128,
    buyer: Address,
)
    requires
        meaning::refund_refusal(s, signers, invoice_id, amount, refund) is None,
        0 < refund <= i128::MAX,
    ensures
        ({
            let actions = meaning::refund_actions(s, invoice_id, amount, refund, buyer);
            let t = meaning::after_refund(s, invoice_id, amount, refund).totals;
            exists|i: int|
                #![trigger actions[i]]
                {
                    &&& 0 <= i < actions.len()
                    &&& actions[i] matches PoolAction::PayUsdc { to, amount: paid }
                    &&& to == buyer && paid == refund
                    &&& (t.deposits - t.funded) - (s.totals.deposits - s.totals.funded) == amount
                        - paid
                    &&& forall|j: int|
                        #![trigger actions[j]]
                        0 <= j < actions.len() && j != i ==> !laws::calls_out(actions[j])
                }
        }),
{
    let actions = meaning::refund_actions(s, invoice_id, amount, refund, buyer);
    assert(actions[2] == (PoolAction::PayUsdc { to: buyer, amount: refund as i128 }));
}

/// What the event of an accepted call says: who or what it was about, and the
/// amounts by which the books changed.
pub proof fn law_events_tell_what_changed(s: PoolState, call: PoolCall, buyer: Address, i: int)
    requires
        books::refusal(s, call) is None,
        0 <= i < actions_of(s, call, buyer).len(),
        actions_of(s, call, buyer)[i] is Emit,
    ensures
        ({
            let t = books::accepted(s, call);
            actions_of(s, call, buyer)[i]->Emit_0 == match call {
                PoolCall::Initialize { config, .. } => PoolEvent::PoolInitialized {
                    admin: config.admin,
                    invoice_contract: config.invoice_contract,
                    escrow_contract: config.escrow_contract,
                    usdc_asset: config.usdc_asset,
                },
                PoolCall::Deposit { lp, .. } => PoolEvent::LpDeposited {
                    lp,
                    amount: (t.totals.deposits - s.totals.deposits) as u128,
                    shares: (t.totals.shares - s.totals.shares) as u128,
                },
                PoolCall::Withdraw { lp, .. } => PoolEvent::LpWithdrawn {
                    lp,
                    amount: (s.totals.deposits - t.totals.deposits) as u128,
                    shares: (s.totals.shares - t.totals.shares) as u128,
                },
                PoolCall::Fund { invoice_id, .. } => PoolEvent::InvoiceFunded {
                    invoice_id,
                    amount: (t.totals.funded - s.totals.funded) as u128,
                },
                PoolCall::Repay { invoice_id, amount, .. } => PoolEvent::RepaymentReceived {
                    invoice_id,
                    amount,
                    yield_amount: (t.totals.yield_distributed - s.totals.yield_distributed) as u128,
                },
                PoolCall::RepayWithRefund { invoice_id, amount, .. } =>
                    PoolEvent::RepaymentReceived {
                    invoice_id,
                    amount,
                    yield_amount: (t.totals.yield_distributed - s.totals.yield_distributed) as u128,
                },
                PoolCall::Default { invoice_id, .. } => PoolEvent::InvoiceDefaulted {
                    invoice_id,
                    amount: (t.totals.loss_realised - s.totals.loss_realised) as u128,
                },
                PoolCall::SetCap { new_cap_bps, .. } => PoolEvent::MaxUtilizationUpdated {
                    old_bps: s.totals.max_utilization_bps,
                    new_bps: new_cap_bps,
                },
            }
        }),
{
    match call {
        PoolCall::Deposit { amount, .. } => {
            if s.totals.shares != 0 && s.totals.deposits != 0 {
                assert(0 <= amount * s.totals.shares) by (nonlinear_arith);
                arithmetic::lemma_quotient_fits(amount * s.totals.shares, s.totals.deposits as int);
            }
        },
        PoolCall::Withdraw { shares, .. } => {
            assert(0 <= shares * s.totals.deposits) by (nonlinear_arith);
            arithmetic::lemma_quotient_fits(shares * s.totals.deposits, s.totals.shares as int);
        },
        PoolCall::Fund { terms, .. } => {
            laws::law_price_within_face_value(terms.face_value, terms.discount_bps);
        },
        _ => {},
    }
}

} // verus!
