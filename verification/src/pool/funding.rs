//! Funding an invoice, question by question.
//!
//! The pool asks the invoice contract and the registry about the invoice, one
//! question after the other, and stops at the first answer that rules funding
//! out. `begin_funding` opens a request, `answer_funding` takes an answer and
//! says what is needed next. `fund_invoice` is the whole request on answers
//! that are known beforehand.
use crate::address::{Address, InvoiceId};
use crate::errors::PoolError;
use crate::pool::contract::utilization_bps;
use crate::pool::meaning;
use crate::pool::model::{
    DataKey, FundingAnswer, FundingCall, FundingStage, FundingStep, InvoiceTerms, PoolAbort,
    PoolAction, PoolConfig, PoolContract, PoolEvent, PoolReceipt, PoolState, PoolTotals,
    BPS_SCALE, STATUS_LISTED,
};
use crate::table::TableKey;
use vstd::prelude::*;

verus! {

/// The question that a stage has open.
pub open spec fn stage_call(stage: FundingStage) -> FundingCall {
    match stage {
        FundingStage::Status => FundingCall::GetStatus,
        FundingStage::Issuer => FundingCall::GetIssuer,
        FundingStage::IssuerCheck { issuer } => FundingCall::IsVerified(issuer),
        FundingStage::Buyer { .. } => FundingCall::GetBuyer,
        FundingStage::BuyerCheck { buyer, .. } => FundingCall::IsVerified(buyer),
        FundingStage::Asset { .. } => FundingCall::GetFundingAsset,
        FundingStage::FaceValue { .. } => FundingCall::GetFaceValue,
        FundingStage::Discount { .. } => FundingCall::GetDiscountBps,
    }
}

/// The contract that can answer: the registry on whether an address is
/// verified, the invoice contract on everything else.
pub open spec fn call_target(c: PoolConfig, call: FundingCall) -> Address {
    match call {
        FundingCall::IsVerified(_) => c.registry_contract,
        _ => c.invoice_contract,
    }
}

/// The step that asks a stage's question.
pub open spec fn ask(c: PoolConfig, stage: FundingStage) -> FundingStep {
    FundingStep::Ask {
        contract: call_target(c, stage_call(stage)),
        call: stage_call(stage),
        stage,
    }
}

/// Why an answer ends the request.
pub open spec fn answer_refusal(
    s: PoolState,
    invoice_id: InvoiceId,
    stage: FundingStage,
    answer: FundingAnswer,
) -> Option<PoolAbort> {
    match s.config {
        None => Some(PoolAbort::Error(PoolError::NotInitialized)),
        Some(c) => match (stage, answer) {
            (FundingStage::Status, FundingAnswer::Status(status)) => if status != STATUS_LISTED {
                Some(PoolAbort::Error(PoolError::InvoiceNotListed))
            } else if s.funded.contains_key(invoice_id) {
                Some(PoolAbort::Error(PoolError::AlreadyFunded))
            } else {
                None
            },
            (FundingStage::Issuer, FundingAnswer::Account(_)) => None,
            (FundingStage::IssuerCheck { .. }, FundingAnswer::Verified(verified)) => if verified {
                None
            } else {
                Some(PoolAbort::Error(PoolError::IssuerNotVerified))
            },
            (FundingStage::Buyer { .. }, FundingAnswer::Account(_)) => None,
            (FundingStage::BuyerCheck { .. }, FundingAnswer::Verified(verified)) => if verified {
                None
            } else {
                Some(PoolAbort::Error(PoolError::BuyerNotVerified))
            },
            (FundingStage::Asset { .. }, FundingAnswer::Account(asset)) => if asset
                == c.usdc_asset {
                None
            } else {
                Some(PoolAbort::Error(PoolError::AssetMismatch))
            },
            (FundingStage::FaceValue { .. }, FundingAnswer::FaceValue(_)) => None,
            (
                FundingStage::Discount { face_value, .. },
                FundingAnswer::DiscountBps(discount_bps),
            ) => meaning::purchase_refusal(s.totals, face_value, discount_bps),
            _ => Some(PoolAbort::UnexpectedAnswer),
        },
    }
}

/// The stage after an answer that did not end the request; none after the
/// last one.
pub open spec fn next_stage(stage: FundingStage, answer: FundingAnswer) -> Option<FundingStage> {
    match stage {
        FundingStage::Status => Some(FundingStage::Issuer),
        FundingStage::Issuer => Some(FundingStage::IssuerCheck { issuer: answer->Account_0 }),
        FundingStage::IssuerCheck { issuer } => Some(FundingStage::Buyer { issuer }),
        FundingStage::Buyer { issuer } => Some(
            FundingStage::BuyerCheck { issuer, buyer: answer->Account_0 },
        ),
        FundingStage::BuyerCheck { issuer, .. } => Some(FundingStage::Asset { issuer }),
        FundingStage::Asset { issuer } => Some(FundingStage::FaceValue { issuer }),
        FundingStage::FaceValue { issuer } => Some(
            FundingStage::Discount { issuer, face_value: answer->FaceValue_0 },
        ),
        FundingStage::Discount { .. } => None,
    }
}

/// Questions that are open at a stage, this one included.
pub open spec fn questions_left(stage: FundingStage) -> nat {
    match stage {
        FundingStage::Status => 8,
        FundingStage::Issuer => 7,
        FundingStage::IssuerCheck { .. } => 6,
        FundingStage::Buyer { .. } => 5,
        FundingStage::BuyerCheck { .. } => 4,
        FundingStage::Asset { .. } => 3,
        FundingStage::FaceValue { .. } => 2,
        FundingStage::Discount { .. } => 1,
    }
}

/// What the terms answer at a stage.
pub open spec fn terms_answer(terms: InvoiceTerms, stage: FundingStage) -> FundingAnswer {
    match stage {
        FundingStage::Status => FundingAnswer::Status(terms.status),
        FundingStage::Issuer => FundingAnswer::Account(terms.issuer),
        FundingStage::IssuerCheck { .. } => FundingAnswer::Verified(terms.issuer_verified),
        FundingStage::Buyer { .. } => FundingAnswer::Account(terms.buyer),
        FundingStage::BuyerCheck { .. } => FundingAnswer::Verified(terms.buyer_verified),
        FundingStage::Asset { .. } => FundingAnswer::Account(terms.funding_asset),
        FundingStage::FaceValue { .. } => FundingAnswer::FaceValue(terms.face_value),
        FundingStage::Discount { .. } => FundingAnswer::DiscountBps(terms.discount_bps),
    }
}

/// Whether a stage holds what the terms answered before it.
pub open spec fn reached_with(terms: InvoiceTerms, stage: FundingStage) -> bool {
    match stage {
        FundingStage::Status | FundingStage::Issuer => true,
        FundingStage::IssuerCheck { issuer } => issuer == terms.issuer,
        FundingStage::Buyer { issuer } => issuer == terms.issuer,
        FundingStage::BuyerCheck { issuer, buyer } => issuer == terms.issuer && buyer
            == terms.buyer,
        FundingStage::Asset { issuer } => issuer == terms.issuer,
        FundingStage::FaceValue { issuer } => issuer == terms.issuer,
        FundingStage::Discount { issuer, face_value } => issuer == terms.issuer && face_value
            == terms.face_value,
    }
}

/// Why a request that has reached `stage` is undone when the terms answer all
/// the questions that are left.
pub open spec fn refusal_from(
    s: PoolState,
    invoice_id: InvoiceId,
    terms: InvoiceTerms,
    stage: FundingStage,
) -> Option<PoolAbort>
    decreases questions_left(stage),
{
    let answer = terms_answer(terms, stage);
    if answer_refusal(s, invoice_id, stage, answer) is Some {
        answer_refusal(s, invoice_id, stage, answer)
    } else {
        match next_stage(stage, answer) {
            Some(next) => refusal_from(s, invoice_id, terms, next),
            None => None,
        }
    }
}

/// Asking question by question comes to the same verdict as looking at all the
/// terms at once.
pub proof fn law_questions_decide_as_terms(
    s: PoolState,
    invoice_id: InvoiceId,
    terms: InvoiceTerms,
)
    requires
        s.config is Some,
    ensures
        refusal_from(s, invoice_id, terms, FundingStage::Status) == meaning::funding_refusal(
            s,
            invoice_id,
            terms,
        ),
{
    reveal_with_fuel(refusal_from, 9);
}

/// What the pool asks, in order: the invoice's status and issuer, whether that
/// issuer is verified, its buyer, whether that buyer is verified, its asset,
/// its face value and its discount. Who is verified is asked of the registry,
/// everything else of the invoice contract; the issuer and the face value that
/// were named are the ones that the last stage knows.
pub proof fn law_questions_come_in_order(
    c: PoolConfig,
    issuer: Address,
    buyer: Address,
    asset: Address,
    status: u32,
    face_value: u128,
    verified: (bool, bool),
    discount_bps: u32,
)
    ensures
        ({
            let answers = seq![
                FundingAnswer::Status(status),
                FundingAnswer::Account(issuer),
                FundingAnswer::Verified(verified.0),
                FundingAnswer::Account(buyer),
                FundingAnswer::Verified(verified.1),
                FundingAnswer::Account(asset),
                FundingAnswer::FaceValue(face_value),
            ];
            let s1 = next_stage(FundingStage::Status, answers[0])->0;
            let s2 = next_stage(s1, answers[1])->0;
            let s3 = next_stage(s2, answers[2])->0;
            let s4 = next_stage(s3, answers[3])->0;
            let s5 = next_stage(s4, answers[4])->0;
            let s6 = next_stage(s5, answers[5])->0;
            let s7 = next_stage(s6, answers[6])->0;
            let first = ask(c, FundingStage::Status);
            let invoices = c.invoice_contract;
            let registry = c.registry_contract;
            &&& next_stage(FundingStage::Status, answers[0]) is Some
            &&& next_stage(s1, answers[1]) is Some && next_stage(s2, answers[2]) is Some
            &&& next_stage(s3, answers[3]) is Some && next_stage(s4, answers[4]) is Some
            &&& next_stage(s5, answers[5]) is Some && next_stage(s6, answers[6]) is Some
            &&& s7 == (FundingStage::Discount { issuer, face_value })
            &&& next_stage(s7, FundingAnswer::DiscountBps(discount_bps)) is None
            &&& first == (FundingStep::Ask {
                contract: invoices,
                call: FundingCall::GetStatus,
                stage: FundingStage::Status,
            })
            &&& ask(c, s1) == (FundingStep::Ask {
                contract: invoices,
                call: FundingCall::GetIssuer,
                stage: s1,
            })
            &&& ask(c, s2) == (FundingStep::Ask {
                contract: registry,
                call: FundingCall::IsVerified(issuer),
                stage: s2,
            })
            &&& ask(c, s3) == (FundingStep::Ask {
                contract: invoices,
                call: FundingCall::GetBuyer,
                stage: s3,
            })
            &&& ask(c, s4) == (FundingStep::Ask {
                contract: registry,
                call: FundingCall::IsVerified(buyer),
                stage: s4,
            })
            &&& ask(c, s5) == (FundingStep::Ask {
                contract: invoices,
                call: FundingCall::GetFundingAsset,
                stage: s5,
            })
            &&& ask(c, s6) == (FundingStep::Ask {
                contract: invoices,
                call: FundingCall::GetFaceValue,
                stage: s6,
            })
            &&& ask(c, s7) == (FundingStep::Ask {
                contract: invoices,
                call: FundingCall::GetDiscountBps,
                stage: s7,
            })
        }),
{
}

/// Which answers end a request at once: a status other than listed, an invoice
/// that is funded already, a party that is not verified, another asset, a
/// discount at which the pool may not pay, and any answer of the wrong kind.
pub proof fn law_answers_that_end_a_request(
    s: PoolState,
    invoice_id: InvoiceId,
    stage: FundingStage,
    answer: FundingAnswer,
)
    ensures
        ({
            let refusal = answer_refusal(s, invoice_id, stage, answer);
            let kind = match stage {
                FundingStage::Status => answer is Status,
                FundingStage::Issuer | FundingStage::Buyer { .. } | FundingStage::Asset { .. } =>
                    answer is Account,
                FundingStage::IssuerCheck { .. } | FundingStage::BuyerCheck { .. } => answer
                    is Verified,
                FundingStage::FaceValue { .. } => answer is FaceValue,
                FundingStage::Discount { .. } => answer is DiscountBps,
            };
            let heard = s.config is Some && kind;
            &&& s.config is None <==> refusal == Some(PoolAbort::Error(PoolError::NotInitialized))
            &&& s.config is Some && !kind <==> refusal == Some(PoolAbort::UnexpectedAnswer)
            &&& heard && stage is Status ==> {
                let listed = answer->Status_0 == 1;
                let funded = s.funded.contains_key(invoice_id);
                &&& !listed ==> refusal == Some(PoolAbort::Error(PoolError::InvoiceNotListed))
                &&& listed && funded ==> refusal == Some(PoolAbort::Error(PoolError::AlreadyFunded))
                &&& listed && !funded ==> refusal is None
            }
            &&& heard && stage is IssuerCheck ==> refusal == if answer->Verified_0 {
                None
            } else {
                Some(PoolAbort::Error(PoolError::IssuerNotVerified))
            }
            &&& heard && stage is BuyerCheck ==> refusal == if answer->Verified_0 {
                None
            } else {
                Some(PoolAbort::Error(PoolError::BuyerNotVerified))
            }
            &&& heard && stage is Asset ==> refusal == if answer->Account_0
                == s.config->0.usdc_asset {
                None
            } else {
                Some(PoolAbort::Error(PoolError::AssetMismatch))
            }
            &&& heard && (stage is Issuer || stage is Buyer || stage is FaceValue) ==> refusal
                is None
            &&& heard && stage is Discount ==> refusal == meaning::purchase_refusal(
                s.totals,
                stage->face_value,
                answer->DiscountBps_0,
            )
        }),
{
}

impl FundingStage {
    /// The question that the stage has open.
    pub fn call(&self) -> (r: FundingCall)
        ensures
            r == stage_call(*self),
    {
        match self {
            FundingStage::Status => FundingCall::GetStatus,
            FundingStage::Issuer => FundingCall::GetIssuer,
            FundingStage::IssuerCheck { issuer } => FundingCall::IsVerified(*issuer),
            FundingStage::Buyer { .. } => FundingCall::GetBuyer,
            FundingStage::BuyerCheck { buyer, .. } => FundingCall::IsVerified(*buyer),
            FundingStage::Asset { .. } => FundingCall::GetFundingAsset,
            FundingStage::FaceValue { .. } => FundingCall::GetFaceValue,
            FundingStage::Discount { .. } => FundingCall::GetDiscountBps,
        }
    }
}

impl InvoiceTerms {
    /// What the terms answer at a stage.
    fn answer(&self, stage: &FundingStage) -> (r: FundingAnswer)
        ensures
            r == terms_answer(*self, *stage),
    {
        match stage {
            FundingStage::Status => FundingAnswer::Status(self.status),
            FundingStage::Issuer => FundingAnswer::Account(self.issuer),
            FundingStage::IssuerCheck { .. } => FundingAnswer::Verified(self.issuer_verified),
            FundingStage::Buyer { .. } => FundingAnswer::Account(self.buyer),
            FundingStage::BuyerCheck { .. } => FundingAnswer::Verified(self.buyer_verified),
            FundingStage::Asset { .. } => FundingAnswer::Account(self.funding_asset),
            FundingStage::FaceValue { .. } => FundingAnswer::FaceValue(self.face_value),
            FundingStage::Discount { .. } => FundingAnswer::DiscountBps(self.discount_bps),
        }
    }
}

/// The step that asks a stage's question.
fn ask_step(config: &PoolConfig, stage: FundingStage) -> (r: FundingStep)
    ensures
        r == ask(*config, stage),
{
    let call = stage.call();
    let contract = match call {
        FundingCall::IsVerified(_) => config.registry_contract,
        _ => config.invoice_contract,
    };
    FundingStep::Ask { contract, call, stage }
}

/// The price of an invoice, provided that the pool may pay it.
fn price_invoice(totals: &PoolTotals, face_value: u128, discount_bps: u32) -> (r: Result<
    u128,
    PoolAbort,
>)
    ensures
        match meaning::purchase_refusal(*totals, face_value, discount_bps) {
            Some(reason) => r == Err::<u128, PoolAbort>(reason),
            None => r == Ok::<u128, PoolAbort>(
                meaning::purchase_price(face_value, discount_bps) as u128,
            ),
        },
{
    if discount_bps as u128 > BPS_SCALE {
        return Err(PoolAbort::Arithmetic);
    }
    let funded_amount: u128 = match face_value.checked_mul(BPS_SCALE - discount_bps as u128) {
        Some(scaled) => scaled / BPS_SCALE,
        None => {
            return Err(PoolAbort::Error(PoolError::Overflow));
        },
    };
    if funded_amount == 0 {
        return Err(PoolAbort::Error(PoolError::InvalidAmount));
    }
    if totals.deposits < totals.funded {
        return Err(PoolAbort::Arithmetic);
    }
    if funded_amount > totals.deposits - totals.funded {
        return Err(PoolAbort::Error(PoolError::InsufficientLiquidity));
    }
    let new_total_funded: u128 = totals.funded + funded_amount;
    proof {
        lemma_utilization_in_range(new_total_funded as int, totals.deposits as int);
    }
    match utilization_bps(new_total_funded, totals.deposits) {
        Some(utilization_after) => if utilization_after > totals.max_utilization_bps {
            return Err(PoolAbort::Error(PoolError::UtilizationCapExceeded));
        },
        None => {
            return Err(PoolAbort::Error(PoolError::Overflow));
        },
    }
    if totals.active_invoices == u32::MAX {
        return Err(PoolAbort::Arithmetic);
    }
    Ok(funded_amount)
}

/// What is funded out of the deposits is at most one hundred percent of them.
pub proof fn lemma_utilization_in_range(funded: int, deposits: int)
    requires
        0 <= funded <= deposits,
    ensures
        0 <= meaning::utilization(funded, deposits) <= BPS_SCALE,
{
    if deposits != 0 {
        assert(0 <= funded * BPS_SCALE <= BPS_SCALE * deposits) by (nonlinear_arith)
            requires
                0 <= funded <= deposits,
        ;
        vstd::arithmetic::div_mod::lemma_div_pos_is_pos(funded * BPS_SCALE, deposits);
        vstd::arithmetic::div_mod::lemma_div_is_ordered(
            funded * BPS_SCALE,
            BPS_SCALE * deposits,
            deposits,
        );
        vstd::arithmetic::div_mod::lemma_div_by_multiple(BPS_SCALE as int, deposits);
    }
}

impl PoolContract {
    /// Opens a funding request. Anyone may; what decides is the invoice.
    pub fn begin_funding(&self) -> (r: Result<FundingStep, PoolAbort>)
        ensures
            r == (match self@.config {
                Some(c) => Ok::<FundingStep, PoolAbort>(ask(c, FundingStage::Status)),
                None => Err(PoolAbort::Error(PoolError::NotInitialized)),
            }),
    {
        match &self.config {
            Some(config) => Ok(ask_step(config, FundingStage::Status)),
            None => Err(PoolAbort::Error(PoolError::NotInitialized)),
        }
    }

    /// Takes the answer to the question that `stage` has open.
    ///
    /// The answer ends the request, leads to the next question, or, if it was
    /// the last one, has the invoice funded.
    pub fn answer_funding(
        &mut self,
        invoice_id: InvoiceId,
        stage: FundingStage,
        answer: FundingAnswer,
    ) -> (r: Result<FundingStep, PoolAbort>)
        ensures
            match answer_refusal(old(self)@, invoice_id, stage, answer) {
                Some(reason) => r == Err::<FundingStep, PoolAbort>(reason) && final(self)@ == old(
                    self,
                )@,
                None => match next_stage(stage, answer) {
                    Some(next) => r == Ok::<FundingStep, PoolAbort>(
                        ask(old(self)@.config->0, next),
                    ) && final(self)@ == old(self)@,
                    None => {
                        let price = meaning::purchase_price(
                            stage->face_value,
                            answer->DiscountBps_0,
                        ) as u128;
                        &&& r matches Ok(FundingStep::Funded(receipt))
                        &&& receipt.value
                        &&& receipt.actions@ == meaning::funding_actions(
                            old(self)@.config->0,
                            invoice_id,
                            price,
                            stage->Discount_issuer,
                        )
                        &&& final(self)@ == meaning::after_funding(old(self)@, invoice_id, price)
                    },
                },
            },
    {
        let config = match &self.config {
            Some(config) => *config,
            None => {
                return Err(PoolAbort::Error(PoolError::NotInitialized));
            },
        };
        match (stage, answer) {
            (FundingStage::Status, FundingAnswer::Status(status)) => {
                if status != STATUS_LISTED {
                    return Err(PoolAbort::Error(PoolError::InvoiceNotListed));
                }
                if self.funded.has(&invoice_id) {
                    return Err(PoolAbort::Error(PoolError::AlreadyFunded));
                }
                Ok(ask_step(&config, FundingStage::Issuer))
            },
            (FundingStage::Issuer, FundingAnswer::Account(issuer)) => Ok(
                ask_step(&config, FundingStage::IssuerCheck { issuer }),
            ),
            (FundingStage::IssuerCheck { issuer }, FundingAnswer::Verified(verified)) => {
                if !verified {
                    return Err(PoolAbort::Error(PoolError::IssuerNotVerified));
                }
                Ok(ask_step(&config, FundingStage::Buyer { issuer }))
            },
            (FundingStage::Buyer { issuer }, FundingAnswer::Account(buyer)) => Ok(
                ask_step(&config, FundingStage::BuyerCheck { issuer, buyer }),
            ),
            (FundingStage::BuyerCheck { issuer, .. }, FundingAnswer::Verified(verified)) => {
                if !verified {
                    return Err(PoolAbort::Error(PoolError::BuyerNotVerified));
                }
                Ok(ask_step(&config, FundingStage::Asset { issuer }))
            },
            (FundingStage::Asset { issuer }, FundingAnswer::Account(asset)) => {
                if !asset.same(&config.usdc_asset) {
                    return Err(PoolAbort::Error(PoolError::AssetMismatch));
                }
                Ok(ask_step(&config, FundingStage::FaceValue { issuer }))
            },
            (FundingStage::FaceValue { issuer }, FundingAnswer::FaceValue(face_value)) => Ok(
                ask_step(&config, FundingStage::Discount { issuer, face_value }),
            ),
            (
                FundingStage::Discount { issuer, face_value },
                FundingAnswer::DiscountBps(discount_bps),
            ) => match price_invoice(&self.totals, face_value, discount_bps) {
                Ok(amount) => Ok(
                    FundingStep::Funded(self.commit_funding(&config, invoice_id, amount, issuer)),
                ),
                Err(reason) => Err(reason),
            },
            _ => Err(PoolAbort::UnexpectedAnswer),
        }
    }

    /// Books the purchase of an invoice.
    fn commit_funding(
        &mut self,
        config: &PoolConfig,
        invoice_id: InvoiceId,
        amount: u128,
        issuer: Address,
    ) -> (r: PoolReceipt<bool>)
        requires
            meaning::fits(old(self)@.totals.funded + amount),
            old(self)@.totals.active_invoices < u32::MAX,
        ensures
            r.value,
            r.actions@ == meaning::funding_actions(*config, invoice_id, amount, issuer),
            final(self)@ == meaning::after_funding(old(self)@, invoice_id, amount),
    {
        self.totals.funded = self.totals.funded + amount;
        self.totals.active_invoices = self.totals.active_invoices + 1;
        self.funded.put(invoice_id, amount);
        let actions = vec![
            PoolAction::Store(DataKey::Totals),
            PoolAction::Store(DataKey::FundedInvoice(invoice_id)),
            PoolAction::ExtendTtl(DataKey::FundedInvoice(invoice_id)),
            PoolAction::LockEscrow { escrow: config.escrow_contract, invoice_id, amount, issuer },
            PoolAction::MarkFunded {
                invoice_contract: config.invoice_contract,
                invoice_id,
                asset: config.usdc_asset,
                amount,
            },
            PoolAction::Emit(PoolEvent::InvoiceFunded { invoice_id, amount }),
            PoolAction::ExtendInstanceTtl,
        ];
        assert(self@ =~= meaning::after_funding(old(self)@, invoice_id, amount));
        assert(actions@ =~= meaning::funding_actions(*config, invoice_id, amount, issuer));
        PoolReceipt { value: true, actions }
    }

    /// Funds a listed invoice, given what the invoice contract and the
    /// registry answer.
    pub fn fund_invoice(&mut self, invoice_id: InvoiceId, terms: InvoiceTerms) -> (r: Result<
        PoolReceipt<bool>,
        PoolAbort,
    >)
        ensures
            ({
                let price = meaning::purchase_price(terms.face_value, terms.discount_bps) as u128;
                meaning::performs(
                    r,
                    old(self)@,
                    final(self)@,
                    meaning::funding_refusal(old(self)@, invoice_id, terms),
                    meaning::after_funding(old(self)@, invoice_id, price),
                    true,
                    meaning::funding_actions(
                        old(self)@.config->0,
                        invoice_id,
                        price,
                        terms.issuer,
                    ),
                )
            }),
    {
        let mut stage = match self.begin_funding() {
            Ok(FundingStep::Ask { stage, .. }) => stage,
            Ok(FundingStep::Funded(receipt)) => {
                return Ok(receipt);
            },
            Err(reason) => {
                return Err(reason);
            },
        };
        proof {
            law_questions_decide_as_terms(self@, invoice_id, terms);
        }
        loop
            invariant
                self@ == old(self)@,
                old(self)@.config is Some,
                reached_with(terms, stage),
                refusal_from(old(self)@, invoice_id, terms, stage) == meaning::funding_refusal(
                    old(self)@,
                    invoice_id,
                    terms,
                ),
            decreases questions_left(stage),
        {
            let answer = terms.answer(&stage);
            match self.answer_funding(invoice_id, stage, answer) {
                Ok(FundingStep::Ask { stage: next, .. }) => {
                    stage = next;
                },
                Ok(FundingStep::Funded(receipt)) => {
                    return Ok(receipt);
                },
                Err(reason) => {
                    return Err(reason);
                },
            }
        }
    }
}

} // verus!
