//! Evidence for a settlement between escrowed notes, checked by every validator.
//!
//! The proofs themselves are verified by their own crates. The findings hold
//! what these report, as plain values, and the rules here tie each finding to
//! the settlement and to the state.

use vstd::prelude::*;

use crate::bytes::{copied, same_bytes};
use crate::crypto::{is_ristretto_point, ristretto_point, sha256};
use crate::decode::product::ProductSettlementEvidence;
use crate::endorsement::{endorse, endorsement_refusal, statement_of, statement_refusal, Submission};
use crate::execution::admission::{are_keys_valid, keys_valid};
use crate::execution::note_product::{apply_note_product_settlement, note_product_outcome};
use crate::execution::product::operated;
use crate::id::{copied_ids, same_ids, Id};
use crate::order::{ProductNoteSettlementOrder, ProductSettlementBatch, ReservationConsumption};
use crate::outcome::{
    accepted, done, meets, refusal_of, refuse, refused, repeat, stopped, unless, verdict, Outcome,
    Progress,
};
use crate::state::{
    Ledger, ReservationBindingRecord, ReservationRole, SettlementVerifierRecord, State,
};
use crate::table::Numbered;
use crate::text::join;

verus! {

/// Whether the taker of a trade buys or sells.
#[derive(Clone, Copy, Debug, PartialEq, Eq, Structural)]
pub enum TradeDirection {
    TakerBuys,
    TakerSells,
}

/// What the typed payment instruction says, and what its verification found.
/// `package_valid` is about the pinned signing package, `payment` the verdict on
/// the payment, `typed_digest` that on the digest to be signed, and `authorized`
/// that on the signature.
#[derive(Debug)]
pub struct TypedInstruction {
    pub package_valid: bool,
    pub payment: Result<(), String>,
    pub typed_digest: Result<(), String>,
    pub authorized: bool,
    pub venue_id: Id,
    pub defmi_id: Id,
    pub rfq_nullifier: Id,
    pub taker_mandate_digest: Id,
    pub maker_policy_digest: Id,
    pub maker_mandate_digest: Id,
    pub quote_proof_digest: Id,
    pub market_statement_digest: Id,
    pub before_state_root: Id,
    pub maker_reservation_id: Id,
    pub taker_reservation_id: Id,
    pub maker_reservation_sequence: u64,
    pub taker_reservation_sequence: u64,
    pub maker_reserve_receipt_digest: Id,
    pub taker_reserve_receipt_digest: Id,
    pub direction: TradeDirection,
    pub amount_commitment: Id,
    pub payment_nullifier: Id,
    pub payment_deadline: u64,
    pub threshold_ranges: bool,
    pub payment_quote_digest: Option<Id>,
}

/// What the quote proof says. `verified` is its digest, once verified, and
/// `winning_policy_digest` the digest of the winning policy, if there is one.
#[derive(Debug)]
pub struct QuoteFindings {
    pub verified: Result<Id, String>,
    pub eligibility_bits: usize,
    pub span_bits: usize,
    pub registry_digest: Id,
    pub winning_policy_digest: Option<Id>,
    pub market_digest: Id,
    pub slot: u64,
    pub now: i64,
    pub direction: u8,
    pub qty_commitment: Id,
    pub context: Id,
}

/// What the execution receipts of the resident committee certify.
#[derive(Clone, Copy, Debug)]
pub struct ExecutionFindings {
    pub slot: u64,
    pub lane: u64,
    pub cluster_digest: Id,
}

/// The package of proofs of delivery against payment.
#[derive(Clone, Copy, Debug)]
pub struct DvpFindings {
    pub digest: Id,
    pub quantity_commitment: Id,
    pub cash_commitment: Id,
    pub securities_remainder: Id,
    pub cash_remainder: Id,
}

/// On which side of the reserved limit the price of a trade must stay.
#[derive(Clone, Copy, Debug, PartialEq, Eq, Structural)]
pub enum PriceLimitDirection {
    MaximumBuyPrice,
    MinimumSellPrice,
}

/// What the proofs of a settlement are verified against: the evidence and the
/// time; the pinned parameters of the venue and epoch; the resident committee's
/// keys and the digest of the admitted order; the reserved limit on the price and
/// the mandate it was signed in; the two reserves and the cash amount; and the
/// traded asset.
#[derive(Debug)]
pub struct SettlementChecks {
    pub evidence: ProductSettlementEvidence,
    pub timestamp: u64,
    pub venue_id: Id,
    pub epoch: u64,
    pub frost_public_package: Vec<u8>,
    pub amount_bits: u16,
    pub price_bits: u16,
    pub max_horizon: u64,
    pub node_keys: Vec<Id>,
    pub order_digest: Id,
    pub price_direction: PriceLimitDirection,
    pub limit_price_commitment: Id,
    pub taker_mandate_digest: Id,
    pub securities_reserve: Id,
    pub cash_reserve: Id,
    pub cash_commitment: Id,
    pub traded_asset_id: Id,
}

/// The submitted evidence of one settlement, and what its verification found.
/// `checks` is what the proofs were verified against, `encoding` the verdict on
/// the encoding, `verifier_key` the key of the venue and epoch, `quote_context`
/// the context that the quote must carry for the execution, and `price_limit` the
/// digest of the price-limit proof.
#[derive(Debug)]
pub struct SettlementFindings {
    pub evidence: ProductSettlementEvidence,
    pub checks: SettlementChecks,
    pub encoding: Result<(), String>,
    pub verifier_key: Id,
    pub typed: Result<TypedInstruction, String>,
    pub quote: Result<QuoteFindings, String>,
    pub execution: Result<ExecutionFindings, String>,
    pub quote_context: Result<Id, String>,
    pub price_limit: Result<Id, String>,
    pub dvp: Result<DvpFindings, String>,
    pub asset_linked: bool,
    pub asset_link_digest: Id,
}

/// Why there are no pinned proof parameters for a settlement.
pub open spec fn verifier_refusal(
    ledger: Ledger,
    order: ProductNoteSettlementOrder,
    verifier_key: Id,
    timestamp: u64,
) -> Option<Seq<char>> {
    let verifier = ledger.settlement_verifiers[verifier_key];
    if !ledger.settlement_verifiers.contains_key(verifier_key) || verifier.venue_id
        != order.terms.venue_id || verifier.epoch != order.terms.admission_epoch {
        Some("settlement has no governance-pinned verifier epoch"@)
    } else if verifier.defmi_id != order.terms.defmi_id || timestamp < verifier.valid_from
        || timestamp > verifier.valid_until {
        Some("settlement verifier is not valid for this DeFMI and time"@)
    } else {
        None
    }
}

/// The pinned proof parameters for a settlement.
pub fn settlement_verifier_for<'a>(
    state: &'a State,
    order: &ProductNoteSettlementOrder,
    verifier_key: &Id,
    timestamp: u64,
) -> (r: Result<&'a SettlementVerifierRecord, String>)
    ensures
        match r {
            Ok(verifier) => verifier_refusal(state@, *order, *verifier_key, timestamp) is None
                && *verifier == state@.settlement_verifiers[*verifier_key],
            Err(message) => verifier_refusal(state@, *order, *verifier_key, timestamp) == Some(
                message@,
            ),
        },
{
    let verifier = match state.settlement_verifiers.get(verifier_key) {
        Some(verifier) => verifier,
        None => return refuse("settlement has no governance-pinned verifier epoch"),
    };
    if verifier.venue_id != order.terms.venue_id || verifier.epoch
        != order.terms.admission_epoch {
        return refuse("settlement has no governance-pinned verifier epoch");
    }
    if verifier.defmi_id != order.terms.defmi_id || timestamp < verifier.valid_from || timestamp
        > verifier.valid_until {
        return refuse("settlement verifier is not valid for this DeFMI and time");
    }
    Ok(verifier)
}

/// The first reservation of a role from `from` on.
pub open spec fn reservation_of(
    reservations: Seq<ReservationConsumption>,
    role: ReservationRole,
    from: nat,
) -> Option<ReservationConsumption>
    decreases reservations.len() - from,
{
    if from >= reservations.len() {
        None
    } else if reservations[from as int].role == role {
        Some(reservations[from as int])
    } else {
        reservation_of(reservations, role, from + 1)
    }
}

fn find_reservation(
    reservations: &Vec<ReservationConsumption>,
    role: ReservationRole,
) -> (r: Option<&ReservationConsumption>)
    ensures
        match r {
            Some(reservation) => reservation_of(reservations@, role, 0) == Some(*reservation),
            None => reservation_of(reservations@, role, 0) is None,
        },
{
    let mut index: usize = 0;
    while index < reservations.len()
        invariant
            index <= reservations@.len(),
            reservation_of(reservations@, role, 0) == reservation_of(
                reservations@,
                role,
                index as nat,
            ),
        decreases reservations@.len() - index,
    {
        if reservations[index].role == role {
            return Some(&reservations[index]);
        }
        index = index + 1;
    }
    None
}

/// Whether a typed instruction is for exactly this settlement on this state.
pub open spec fn typed_fits(
    typed: TypedInstruction,
    order: ProductNoteSettlementOrder,
    maker: ReservationConsumption,
    taker: ReservationConsumption,
    root: Id,
) -> bool {
    let terms = order.terms;
    &&& typed.venue_id == terms.venue_id
    &&& typed.defmi_id == terms.defmi_id
    &&& typed.rfq_nullifier == terms.rfq_nullifier
    &&& typed.taker_mandate_digest == terms.taker_mandate_digest
    &&& typed.taker_mandate_digest == terms.taker_authorization_digest
    &&& typed.maker_policy_digest == terms.maker_policy_digest
    &&& typed.maker_mandate_digest == terms.maker_mandate_digest
    &&& typed.quote_proof_digest == terms.quote_proof_digest
    &&& typed.market_statement_digest == order.settlement.market_statement_digest
    &&& typed.before_state_root == root
    &&& typed.maker_reservation_id == maker.transition.hold_id
    &&& typed.taker_reservation_id == taker.transition.hold_id
    &&& typed.maker_reservation_sequence == maker.transition.before_sequence
    &&& typed.taker_reservation_sequence == taker.transition.before_sequence
    &&& typed.maker_reserve_receipt_digest == maker.reserve_receipt_digest
    &&& typed.taker_reserve_receipt_digest == taker.reserve_receipt_digest
    &&& typed.amount_commitment == terms.quantity_commitment
    &&& typed.payment_nullifier == order.settlement.nullifier
    &&& typed.payment_deadline == order.settlement.deadline
    &&& typed.threshold_ranges
    &&& typed.payment_quote_digest == Some(terms.quote_proof_digest)
}

fn does_typed_fit(
    typed: &TypedInstruction,
    order: &ProductNoteSettlementOrder,
    maker: &ReservationConsumption,
    taker: &ReservationConsumption,
    root: Id,
) -> (r: bool)
    ensures
        r == typed_fits(*typed, *order, *maker, *taker, root),
{
    let terms = &order.terms;
    let quoted = match typed.payment_quote_digest {
        Some(digest) => digest == terms.quote_proof_digest,
        None => false,
    };
    typed.venue_id == terms.venue_id && typed.defmi_id == terms.defmi_id && typed.rfq_nullifier
        == terms.rfq_nullifier && typed.taker_mandate_digest == terms.taker_mandate_digest
        && typed.taker_mandate_digest == terms.taker_authorization_digest
        && typed.maker_policy_digest == terms.maker_policy_digest && typed.maker_mandate_digest
        == terms.maker_mandate_digest && typed.quote_proof_digest == terms.quote_proof_digest
        && typed.market_statement_digest == order.settlement.market_statement_digest
        && typed.before_state_root == root && typed.maker_reservation_id
        == maker.transition.hold_id && typed.taker_reservation_id == taker.transition.hold_id
        && typed.maker_reservation_sequence == maker.transition.before_sequence
        && typed.taker_reservation_sequence == taker.transition.before_sequence
        && typed.maker_reserve_receipt_digest == maker.reserve_receipt_digest
        && typed.taker_reserve_receipt_digest == taker.reserve_receipt_digest
        && typed.amount_commitment == terms.quantity_commitment && typed.payment_nullifier
        == order.settlement.nullifier && typed.payment_deadline == order.settlement.deadline
        && typed.threshold_ranges && quoted
}

/// Why the typed instruction does not support a settlement.
pub open spec fn typed_refusal(
    ledger: Ledger,
    findings: SettlementFindings,
    order: ProductNoteSettlementOrder,
    root: Id,
    timestamp: u64,
) -> Option<Seq<char>> {
    let wire_digest = Id(sha256(findings.evidence.typed_instruction@));
    let maker = reservation_of(order.reservations@, ReservationRole::Maker, 0);
    let taker = reservation_of(order.reservations@, ReservationRole::Taker, 0);
    if verifier_refusal(ledger, order, findings.verifier_key, timestamp) is Some {
        verifier_refusal(ledger, order, findings.verifier_key, timestamp)
    } else {
        match findings.typed {
            Err(message) => Some(message@),
            Ok(typed) => if wire_digest != order.terms.typed_instruction_digest || wire_digest
                != order.settlement.payment_instruction_digest {
                Some("typed zkPI bytes do not match the settlement digest"@)
            } else if !typed.package_valid {
                Some("governance-pinned FROST package is invalid"@)
            } else if refusal_of(typed.payment) is Some {
                refusal_of(typed.payment)
            } else if refusal_of(typed.typed_digest) is Some {
                refusal_of(typed.typed_digest)
            } else if !typed.authorized {
                Some("MPC typed zkPI authorization is invalid"@)
            } else if maker is None {
                Some("settlement has no Maker reservation"@)
            } else if taker is None {
                Some("settlement has no Taker reservation"@)
            } else if !typed_fits(typed, order, maker->0, taker->0, root) {
                Some("typed zkPI context differs from the canonical settlement"@)
            } else {
                None
            },
        }
    }
}

/// Checks that the typed instruction is verified and for exactly this
/// settlement.
pub fn verify_typed_evidence<'a>(
    state: &State,
    findings: &'a SettlementFindings,
    order: &ProductNoteSettlementOrder,
    root: Id,
    timestamp: u64,
) -> (r: Result<&'a TypedInstruction, String>)
    ensures
        match r {
            Ok(typed) => typed_refusal(state@, *findings, *order, root, timestamp) is None
                && findings.typed == Ok::<TypedInstruction, String>(*typed),
            Err(message) => typed_refusal(state@, *findings, *order, root, timestamp) == Some(
                message@,
            ),
        },
{
    settlement_verifier_for(state, order, &findings.verifier_key, timestamp)?;
    let typed = match &findings.typed {
        Ok(typed) => typed,
        Err(message) => return Err(message.clone()),
    };
    let wire_digest = Id::digest(findings.evidence.typed_instruction.as_slice());
    if wire_digest != order.terms.typed_instruction_digest || wire_digest
        != order.settlement.payment_instruction_digest {
        return refuse("typed zkPI bytes do not match the settlement digest");
    }
    if !typed.package_valid {
        return refuse("governance-pinned FROST package is invalid");
    }
    repeat(&typed.payment)?;
    repeat(&typed.typed_digest)?;
    if !typed.authorized {
        return refuse("MPC typed zkPI authorization is invalid");
    }
    let maker = match find_reservation(&order.reservations, ReservationRole::Maker) {
        Some(maker) => maker,
        None => return refuse("settlement has no Maker reservation"),
    };
    let taker = match find_reservation(&order.reservations, ReservationRole::Taker) {
        Some(taker) => taker,
        None => return refuse("settlement has no Taker reservation"),
    };
    if !does_typed_fit(typed, order, maker, taker, root) {
        return refuse("typed zkPI context differs from the canonical settlement");
    }
    Ok(typed)
}

/// Why the quote proof does not support a settlement. The quote is of the
/// pinned circuit and the signed policy, and at most the pinned horizon old.
pub open spec fn quote_refusal(
    ledger: Ledger,
    findings: SettlementFindings,
    order: ProductNoteSettlementOrder,
    timestamp: u64,
) -> Option<Seq<char>> {
    let verifier = ledger.settlement_verifiers[findings.verifier_key];
    if verifier_refusal(ledger, order, findings.verifier_key, timestamp) is Some {
        verifier_refusal(ledger, order, findings.verifier_key, timestamp)
    } else {
        match findings.quote {
            Err(message) => Some(message@),
            Ok(quote) => if statement_refusal(quote.verified) is Some {
                statement_refusal(quote.verified)
            } else if quote.eligibility_bits != verifier.quote_eligibility_bits || quote.span_bits
                != verifier.quote_span_bits || quote.registry_digest
                != verifier.quote_registry_digest {
                Some("complete quote proof differs from the governance-pinned circuit"@)
            } else if quote.verified->Ok_0 != order.terms.quote_proof_digest {
                Some("complete quote proof does not match the settlement digest"@)
            } else if quote.winning_policy_digest is None {
                Some("complete quote proof has no winning policy"@)
            } else if quote.winning_policy_digest->0 != order.terms.maker_policy_digest {
                Some("complete quote proof winner differs from the signed Maker policy"@)
            } else if quote.market_digest != order.settlement.market_statement_digest {
                Some("complete quote proof names another market statement"@)
            } else if quote.slot != order.terms.admission_sequence {
                Some("complete quote proof names another admission sequence"@)
            } else if quote.now < 0 {
                Some("complete quote proof has a negative market time"@)
            } else if quote.now > timestamp || timestamp - quote.now > verifier.max_horizon {
                Some("complete quote proof is future-dated or stale"@)
            } else {
                None
            },
        }
    }
}

/// Checks that the quote is verified, for this settlement, and fresh.
pub fn verify_quote_evidence<'a>(
    state: &State,
    findings: &'a SettlementFindings,
    order: &ProductNoteSettlementOrder,
    timestamp: u64,
) -> (r: Result<&'a QuoteFindings, String>)
    ensures
        match r {
            Ok(quote) => quote_refusal(state@, *findings, *order, timestamp) is None
                && findings.quote == Ok::<QuoteFindings, String>(*quote),
            Err(message) => quote_refusal(state@, *findings, *order, timestamp) == Some(message@),
        },
{
    let verifier = settlement_verifier_for(state, order, &findings.verifier_key, timestamp)?;
    let quote = match &findings.quote {
        Ok(quote) => quote,
        Err(message) => return Err(message.clone()),
    };
    let digest = statement_of(&quote.verified)?;
    if quote.eligibility_bits != verifier.quote_eligibility_bits as usize || quote.span_bits
        != verifier.quote_span_bits as usize || quote.registry_digest
        != verifier.quote_registry_digest {
        return refuse("complete quote proof differs from the governance-pinned circuit");
    }
    if digest != order.terms.quote_proof_digest {
        return refuse("complete quote proof does not match the settlement digest");
    }
    let winner = match quote.winning_policy_digest {
        Some(winner) => winner,
        None => return refuse("complete quote proof has no winning policy"),
    };
    if winner != order.terms.maker_policy_digest {
        return refuse("complete quote proof winner differs from the signed Maker policy");
    }
    if quote.market_digest != order.settlement.market_statement_digest {
        return refuse("complete quote proof names another market statement");
    }
    if quote.slot != order.terms.admission_sequence {
        return refuse("complete quote proof names another admission sequence");
    }
    if quote.now < 0 {
        return refuse("complete quote proof has a negative market time");
    }
    let quote_time: u64 = quote.now as u64;
    if quote_time > timestamp || timestamp - quote_time > verifier.max_horizon {
        return refuse("complete quote proof is future-dated or stale");
    }
    Ok(quote)
}

/// Why bytes are not a commitment; `name` is what they should commit to.
pub open spec fn point_refusal(encoded: Id, name: Seq<char>) -> Option<Seq<char>> {
    if ristretto_point(encoded.0) {
        None
    } else {
        Some(name + " is not a canonical Ristretto commitment"@)
    }
}

/// Checks that bytes are a commitment.
pub fn settlement_point(encoded: &Id, name: &str) -> (r: Result<(), String>)
    ensures
        verdict(r, point_refusal(*encoded, name@)),
{
    if is_ristretto_point(encoded) {
        Ok(())
    } else {
        Err(join(name, " is not a canonical Ristretto commitment"))
    }
}

/// The number of a direction in reservations.
pub open spec fn reserved_direction(direction: TradeDirection) -> u8 {
    match direction {
        TradeDirection::TakerBuys => 1,
        TradeDirection::TakerSells => 2,
    }
}

/// The number of a direction in quotes.
pub open spec fn quoted_direction(direction: TradeDirection) -> u8 {
    match direction {
        TradeDirection::TakerBuys => 0,
        TradeDirection::TakerSells => 1,
    }
}

/// Why the reservations, the quote and the instruction do not agree on the
/// trade.
pub open spec fn trade_refusal(
    ledger: Ledger,
    order: ProductNoteSettlementOrder,
    typed: TypedInstruction,
    quote: QuoteFindings,
) -> Option<Seq<char>> {
    let maker = reservation_of(order.reservations@, ReservationRole::Maker, 0);
    let taker = reservation_of(order.reservations@, ReservationRole::Taker, 0);
    let maker_hold = maker->0.transition.hold_id;
    let taker_hold = taker->0.transition.hold_id;
    let maker_binding = ledger.reservation_bindings[maker_hold];
    let taker_binding = ledger.reservation_bindings[taker_hold];
    if maker is None {
        Some("settlement has no Maker reservation"@)
    } else if taker is None {
        Some("settlement has no Taker reservation"@)
    } else if !ledger.reservation_bindings.contains_key(maker_hold) {
        Some("Maker reservation has no canonical product binding"@)
    } else if !ledger.reservation_bindings.contains_key(taker_hold) {
        Some("Taker reservation has no canonical product binding"@)
    } else if maker_binding.role != ReservationRole::Maker || taker_binding.role
        != ReservationRole::Taker || maker_binding.direction != taker_binding.direction {
        Some("Maker and Taker reservation directions are inconsistent"@)
    } else if maker_binding.direction != reserved_direction(typed.direction) || quote.direction
        != quoted_direction(typed.direction) || quote.qty_commitment != typed.amount_commitment {
        Some("reserved request, Quote proof and typed zkPI are inconsistent"@)
    } else {
        None
    }
}

fn check_trade<'a>(
    state: &'a State,
    order: &'a ProductNoteSettlementOrder,
    typed: &TypedInstruction,
    quote: &QuoteFindings,
) -> (r: Result<
    (&'a ReservationConsumption, &'a ReservationConsumption, &'a ReservationBindingRecord),
    String,
>)
    ensures
        match r {
            Ok((maker, taker, taker_binding)) => {
                &&& trade_refusal(state@, *order, *typed, *quote) is None
                &&& reservation_of(order.reservations@, ReservationRole::Maker, 0) == Some(*maker)
                &&& reservation_of(order.reservations@, ReservationRole::Taker, 0) == Some(*taker)
                &&& *taker_binding == state@.reservation_bindings[taker.transition.hold_id]
            },
            Err(message) => trade_refusal(state@, *order, *typed, *quote) == Some(message@),
        },
{
    let maker = match find_reservation(&order.reservations, ReservationRole::Maker) {
        Some(maker) => maker,
        None => return refuse("settlement has no Maker reservation"),
    };
    let taker = match find_reservation(&order.reservations, ReservationRole::Taker) {
        Some(taker) => taker,
        None => return refuse("settlement has no Taker reservation"),
    };
    let maker_binding = match state.reservation_bindings.get(&maker.transition.hold_id) {
        Some(binding) => binding,
        None => return refuse("Maker reservation has no canonical product binding"),
    };
    let taker_binding = match state.reservation_bindings.get(&taker.transition.hold_id) {
        Some(binding) => binding,
        None => return refuse("Taker reservation has no canonical product binding"),
    };
    if maker_binding.role != ReservationRole::Maker || taker_binding.role
        != ReservationRole::Taker || maker_binding.direction != taker_binding.direction {
        return refuse("Maker and Taker reservation directions are inconsistent");
    }
    let (reserved, quoted): (u8, u8) = match typed.direction {
        TradeDirection::TakerBuys => (1, 0),
        TradeDirection::TakerSells => (2, 1),
    };
    if maker_binding.direction != reserved || quote.direction != quoted || quote.qty_commitment
        != typed.amount_commitment {
        return refuse("reserved request, Quote proof and typed zkPI are inconsistent");
    }
    Ok((maker, taker, taker_binding))
}

/// Why the execution receipts are not those of the admitted lane. The quote
/// must carry the context of the certified execution.
pub open spec fn execution_refusal(
    ledger: Ledger,
    findings: SettlementFindings,
    order: ProductNoteSettlementOrder,
    batch_id: Id,
    quote_context: Id,
) -> Option<Seq<char>> {
    let batch = ledger.admission_batches[batch_id];
    let key = Numbered { scope: batch.venue_id, number: batch.epoch };
    let committee = ledger.admission_committees[key];
    if !ledger.admission_batches.contains_key(batch_id) {
        Some("settlement execution has no registered admission batch"@)
    } else if !ledger.admission_committees.contains_key(key) {
        Some("settlement execution has no governance-pinned resident committee"@)
    } else if !keys_valid(committee.node_keys@) {
        Some("stored resident execution key is invalid"@)
    } else {
        match findings.execution {
            Err(message) => Some(message@),
            Ok(execution) => if order.terms.admission_sequence == 0 {
                Some("settlement admission sequence cannot identify an MPC lane"@)
            } else if execution.slot != batch.slot || execution.lane
                != order.terms.admission_sequence - 1 || execution.cluster_digest
                != batch.batch_digest || batch.venue_id != order.terms.venue_id || batch.epoch
                != order.terms.admission_epoch {
                Some("signed MPC execution receipts differ from the admitted lane"@)
            } else if execution.slot > u32::MAX {
                Some("settlement MPC slot is outside u32"@)
            } else if execution.lane > usize::MAX {
                Some("settlement MPC lane is outside usize"@)
            } else if statement_refusal(findings.quote_context) is Some {
                statement_refusal(findings.quote_context)
            } else if quote_context != findings.quote_context->Ok_0 {
                Some("complete quote proof is not bound to the signed MPC execution receipts"@)
            } else {
                None
            },
        }
    }
}

fn check_execution(
    state: &State,
    findings: &SettlementFindings,
    order: &ProductNoteSettlementOrder,
    batch_id: &Id,
    quote_context: Id,
) -> (r: Result<(), String>)
    ensures
        verdict(r, execution_refusal(state@, *findings, *order, *batch_id, quote_context)),
{
    let batch = match state.admission_batches.get(batch_id) {
        Some(batch) => batch,
        None => return refuse("settlement execution has no registered admission batch"),
    };
    let key = Numbered { scope: batch.venue_id, number: batch.epoch };
    let committee = match state.admission_committees.get(&key) {
        Some(committee) => committee,
        None => return refuse("settlement execution has no governance-pinned resident committee"),
    };
    if !are_keys_valid(&committee.node_keys) {
        return refuse("stored resident execution key is invalid");
    }
    let execution = match &findings.execution {
        Ok(execution) => execution,
        Err(message) => return Err(message.clone()),
    };
    if order.terms.admission_sequence == 0 {
        return refuse("settlement admission sequence cannot identify an MPC lane");
    }
    if execution.slot != batch.slot || execution.lane != order.terms.admission_sequence - 1
        || execution.cluster_digest != batch.batch_digest || batch.venue_id
        != order.terms.venue_id || batch.epoch != order.terms.admission_epoch {
        return refuse("signed MPC execution receipts differ from the admitted lane");
    }
    if execution.slot > u32::MAX as u64 {
        return refuse("settlement MPC slot is outside u32");
    }
    if execution.lane > usize::MAX as u64 {
        return refuse("settlement MPC lane is outside usize");
    }
    let expected = statement_of(&findings.quote_context)?;
    if quote_context != expected {
        return refuse("complete quote proof is not bound to the signed MPC execution receipts");
    }
    Ok(())
}

/// Why the price limit is not proved.
pub open spec fn price_limit_refusal(
    findings: SettlementFindings,
    order: ProductNoteSettlementOrder,
    binding: ReservationBindingRecord,
) -> Option<Seq<char>> {
    let point = point_refusal(binding.limit_price_commitment, "reserved Taker price limit"@);
    if point is Some {
        point
    } else if binding.direction != 1 && binding.direction != 2 {
        Some("settlement reservation direction is unsupported"@)
    } else if statement_refusal(findings.price_limit) is Some {
        statement_refusal(findings.price_limit)
    } else if findings.price_limit->Ok_0 != order.terms.price_limit_proof_digest {
        Some("price-limit proof differs from the settled digest"@)
    } else {
        None
    }
}

fn check_price_limit(
    findings: &SettlementFindings,
    order: &ProductNoteSettlementOrder,
    binding: &ReservationBindingRecord,
) -> (r: Result<(), String>)
    ensures
        verdict(r, price_limit_refusal(*findings, *order, *binding)),
{
    settlement_point(&binding.limit_price_commitment, "reserved Taker price limit")?;
    if binding.direction != 1 && binding.direction != 2 {
        return refuse("settlement reservation direction is unsupported");
    }
    let digest = statement_of(&findings.price_limit)?;
    if digest != order.terms.price_limit_proof_digest {
        return refuse("price-limit proof differs from the settled digest");
    }
    Ok(())
}

/// The reservation that delivers the securities. In direction 1 it is the
/// maker's, else the taker's; the other one pays.
pub open spec fn securities_side(
    maker: ReservationConsumption,
    taker: ReservationConsumption,
    direction: u8,
) -> ReservationConsumption {
    if direction == 1 {
        maker
    } else {
        taker
    }
}

/// Why delivery against payment is not proved for the two reservations.
pub open spec fn dvp_refusal(
    findings: SettlementFindings,
    order: ProductNoteSettlementOrder,
    securities: ReservationConsumption,
    cash: ReservationConsumption,
) -> Option<Seq<char>> {
    let securities_point = point_refusal(
        securities.transition.amount_commitment,
        "securities reservation"@,
    );
    let cash_point = point_refusal(cash.transition.amount_commitment, "cash reservation"@);
    let amount_point = point_refusal(order.terms.cash_commitment, "settlement cash amount"@);
    if securities_point is Some {
        securities_point
    } else if cash_point is Some {
        cash_point
    } else if amount_point is Some {
        amount_point
    } else {
        match findings.dvp {
            Err(message) => Some(message@),
            Ok(dvp) => if dvp.digest != order.terms.dvp_proof_digest || dvp.quantity_commitment
                != order.terms.quantity_commitment || dvp.cash_commitment
                != order.terms.cash_commitment || dvp.securities_remainder
                != securities.transition.refund_commitment || dvp.cash_remainder
                != cash.transition.refund_commitment {
                Some("DvP proof differs from the canonical reservation consumption"@)
            } else {
                None
            },
        }
    }
}

fn check_dvp(
    findings: &SettlementFindings,
    order: &ProductNoteSettlementOrder,
    securities: &ReservationConsumption,
    cash: &ReservationConsumption,
) -> (r: Result<(), String>)
    ensures
        verdict(r, dvp_refusal(*findings, *order, *securities, *cash)),
{
    settlement_point(&securities.transition.amount_commitment, "securities reservation")?;
    settlement_point(&cash.transition.amount_commitment, "cash reservation")?;
    settlement_point(&order.terms.cash_commitment, "settlement cash amount")?;
    let dvp = match &findings.dvp {
        Ok(dvp) => dvp,
        Err(message) => return Err(message.clone()),
    };
    if dvp.digest != order.terms.dvp_proof_digest || dvp.quantity_commitment
        != order.terms.quantity_commitment || dvp.cash_commitment != order.terms.cash_commitment
        || dvp.securities_remainder != securities.transition.refund_commitment
        || dvp.cash_remainder != cash.transition.refund_commitment {
        return refuse("DvP proof differs from the canonical reservation consumption");
    }
    Ok(())
}

/// Why there is nothing to verify the proofs of a settlement against.
pub open spec fn checks_refusal(
    ledger: Ledger,
    order: ProductNoteSettlementOrder,
    verifier_key: Id,
    timestamp: u64,
) -> Option<Seq<char>> {
    let maker = reservation_of(order.reservations@, ReservationRole::Maker, 0);
    let taker = reservation_of(order.reservations@, ReservationRole::Taker, 0);
    let hold_id = taker->0.transition.hold_id;
    let binding = ledger.reservation_bindings[hold_id];
    let batch = ledger.admission_batches[binding.admission_batch_id];
    let key = Numbered { scope: batch.venue_id, number: batch.epoch };
    if verifier_refusal(ledger, order, verifier_key, timestamp) is Some {
        verifier_refusal(ledger, order, verifier_key, timestamp)
    } else if maker is None {
        Some("settlement has no Maker reservation"@)
    } else if taker is None {
        Some("settlement has no Taker reservation"@)
    } else if !ledger.reservation_bindings.contains_key(hold_id) {
        Some("Taker reservation has no canonical product binding"@)
    } else if !ledger.admission_batches.contains_key(binding.admission_batch_id) {
        Some("settlement execution has no registered admission batch"@)
    } else if !ledger.admission_committees.contains_key(key) {
        Some("settlement execution has no governance-pinned resident committee"@)
    } else if binding.direction != 1 && binding.direction != 2 {
        Some("settlement reservation direction is unsupported"@)
    } else {
        None
    }
}

/// In direction 1 the taker buys and the limit is a maximum, else a minimum.
pub open spec fn limit_direction(direction: u8) -> PriceLimitDirection {
    if direction == 1 {
        PriceLimitDirection::MaximumBuyPrice
    } else {
        PriceLimitDirection::MinimumSellPrice
    }
}

/// Whether the proofs of a settlement are to be verified against exactly this.
pub open spec fn checks_are(
    ledger: Ledger,
    order: ProductNoteSettlementOrder,
    evidence: ProductSettlementEvidence,
    verifier_key: Id,
    timestamp: u64,
    checks: SettlementChecks,
) -> bool {
    let verifier = ledger.settlement_verifiers[verifier_key];
    let maker = reservation_of(order.reservations@, ReservationRole::Maker, 0)->0;
    let taker = reservation_of(order.reservations@, ReservationRole::Taker, 0)->0;
    let binding = ledger.reservation_bindings[taker.transition.hold_id];
    let batch = ledger.admission_batches[binding.admission_batch_id];
    let committee = ledger.admission_committees[Numbered {
        scope: batch.venue_id,
        number: batch.epoch,
    }];
    let securities = securities_side(maker, taker, binding.direction);
    let cash = securities_side(taker, maker, binding.direction);
    &&& same_evidence(evidence, checks.evidence)
    &&& checks.timestamp == timestamp
    &&& checks.venue_id == order.terms.venue_id
    &&& checks.epoch == order.terms.admission_epoch
    &&& checks.frost_public_package@ == verifier.frost_public_package@
    &&& checks.amount_bits == verifier.amount_bits
    &&& checks.price_bits == verifier.price_bits
    &&& checks.max_horizon == verifier.max_horizon
    &&& checks.node_keys@ == committee.node_keys@
    &&& checks.order_digest == batch.order_digest
    &&& checks.price_direction == limit_direction(binding.direction)
    &&& checks.limit_price_commitment == binding.limit_price_commitment
    &&& checks.taker_mandate_digest == order.terms.taker_mandate_digest
    &&& checks.securities_reserve == securities.transition.amount_commitment
    &&& checks.cash_reserve == cash.transition.amount_commitment
    &&& checks.cash_commitment == order.terms.cash_commitment
    &&& checks.traded_asset_id == order.terms.traded_asset_id
}

/// Whether two bundles of evidence hold the same bytes.
pub open spec fn same_evidence(
    left: ProductSettlementEvidence,
    right: ProductSettlementEvidence,
) -> bool {
    &&& left.typed_instruction@ == right.typed_instruction@
    &&& left.quote_verification@ == right.quote_verification@
    &&& left.price_limit_proof@ == right.price_limit_proof@
    &&& left.dvp_proofs@ == right.dvp_proofs@
    &&& left.mpc_execution_attestations@ == right.mpc_execution_attestations@
    &&& left.announcement == right.announcement
    &&& left.response == right.response
}

fn is_same_evidence(
    left: &ProductSettlementEvidence,
    right: &ProductSettlementEvidence,
) -> (r: bool)
    ensures
        r == same_evidence(*left, *right),
{
    same_bytes(left.typed_instruction.as_slice(), right.typed_instruction.as_slice())
        && same_bytes(left.quote_verification.as_slice(), right.quote_verification.as_slice())
        && same_bytes(left.price_limit_proof.as_slice(), right.price_limit_proof.as_slice())
        && same_bytes(left.dvp_proofs.as_slice(), right.dvp_proofs.as_slice()) && same_bytes(
        left.mpc_execution_attestations.as_slice(),
        right.mpc_execution_attestations.as_slice(),
    ) && left.announcement == right.announcement && left.response == right.response
}

fn copy_evidence(evidence: &ProductSettlementEvidence) -> (r: ProductSettlementEvidence)
    ensures
        same_evidence(*evidence, r),
{
    ProductSettlementEvidence {
        typed_instruction: copied(&evidence.typed_instruction),
        quote_verification: copied(&evidence.quote_verification),
        price_limit_proof: copied(&evidence.price_limit_proof),
        dvp_proofs: copied(&evidence.dvp_proofs),
        mpc_execution_attestations: copied(&evidence.mpc_execution_attestations),
        announcement: evidence.announcement,
        response: evidence.response,
    }
}

/// What the proofs of a settlement are to be verified against.
pub fn settlement_checks(
    state: &State,
    order: &ProductNoteSettlementOrder,
    evidence: &ProductSettlementEvidence,
    verifier_key: &Id,
    timestamp: u64,
) -> (r: Result<SettlementChecks, String>)
    ensures
        match r {
            Ok(checks) => {
                &&& checks_refusal(state@, *order, *verifier_key, timestamp) is None
                &&& checks_are(state@, *order, *evidence, *verifier_key, timestamp, checks)
            },
            Err(message) => checks_refusal(state@, *order, *verifier_key, timestamp) == Some(
                message@,
            ),
        },
{
    let verifier = settlement_verifier_for(state, order, verifier_key, timestamp)?;
    let maker = match find_reservation(&order.reservations, ReservationRole::Maker) {
        Some(maker) => maker,
        None => return refuse("settlement has no Maker reservation"),
    };
    let taker = match find_reservation(&order.reservations, ReservationRole::Taker) {
        Some(taker) => taker,
        None => return refuse("settlement has no Taker reservation"),
    };
    let binding = match state.reservation_bindings.get(&taker.transition.hold_id) {
        Some(binding) => binding,
        None => return refuse("Taker reservation has no canonical product binding"),
    };
    let batch = match state.admission_batches.get(&binding.admission_batch_id) {
        Some(batch) => batch,
        None => return refuse("settlement execution has no registered admission batch"),
    };
    let key = Numbered { scope: batch.venue_id, number: batch.epoch };
    let committee = match state.admission_committees.get(&key) {
        Some(committee) => committee,
        None => return refuse("settlement execution has no governance-pinned resident committee"),
    };
    if binding.direction != 1 && binding.direction != 2 {
        return refuse("settlement reservation direction is unsupported");
    }
    let buys = binding.direction == 1;
    Ok(
        SettlementChecks {
            evidence: copy_evidence(evidence),
            timestamp,
            venue_id: order.terms.venue_id,
            epoch: order.terms.admission_epoch,
            frost_public_package: copied(&verifier.frost_public_package),
            amount_bits: verifier.amount_bits,
            price_bits: verifier.price_bits,
            max_horizon: verifier.max_horizon,
            node_keys: copied_ids(&committee.node_keys),
            order_digest: batch.order_digest,
            price_direction: if buys {
                PriceLimitDirection::MaximumBuyPrice
            } else {
                PriceLimitDirection::MinimumSellPrice
            },
            limit_price_commitment: binding.limit_price_commitment,
            taker_mandate_digest: order.terms.taker_mandate_digest,
            securities_reserve: if buys {
                maker.transition.amount_commitment
            } else {
                taker.transition.amount_commitment
            },
            cash_reserve: if buys {
                taker.transition.amount_commitment
            } else {
                maker.transition.amount_commitment
            },
            cash_commitment: order.terms.cash_commitment,
            traded_asset_id: order.terms.traded_asset_id,
        },
    )
}

/// Whether what is to be verified against is what was.
spec fn same_checks(left: SettlementChecks, right: SettlementChecks) -> bool {
    &&& same_evidence(left.evidence, right.evidence)
    &&& left.timestamp == right.timestamp
    &&& left.venue_id == right.venue_id
    &&& left.epoch == right.epoch
    &&& left.frost_public_package@ == right.frost_public_package@
    &&& left.amount_bits == right.amount_bits
    &&& left.price_bits == right.price_bits
    &&& left.max_horizon == right.max_horizon
    &&& left.node_keys@ == right.node_keys@
    &&& left.order_digest == right.order_digest
    &&& left.price_direction == right.price_direction
    &&& left.limit_price_commitment == right.limit_price_commitment
    &&& left.taker_mandate_digest == right.taker_mandate_digest
    &&& left.securities_reserve == right.securities_reserve
    &&& left.cash_reserve == right.cash_reserve
    &&& left.cash_commitment == right.cash_commitment
    &&& left.traded_asset_id == right.traded_asset_id
}

fn is_same_checks(left: &SettlementChecks, right: &SettlementChecks) -> (r: bool)
    ensures
        r == same_checks(*left, *right),
{
    is_same_evidence(&left.evidence, &right.evidence) && left.timestamp == right.timestamp
        && left.venue_id == right.venue_id && left.epoch == right.epoch && same_bytes(
        left.frost_public_package.as_slice(),
        right.frost_public_package.as_slice(),
    ) && left.amount_bits == right.amount_bits && left.price_bits == right.price_bits
        && left.max_horizon == right.max_horizon && same_ids(&left.node_keys, &right.node_keys)
        && left.order_digest == right.order_digest && left.price_direction
        == right.price_direction && left.limit_price_commitment == right.limit_price_commitment
        && left.taker_mandate_digest == right.taker_mandate_digest && left.securities_reserve
        == right.securities_reserve && left.cash_reserve == right.cash_reserve
        && left.cash_commitment == right.cash_commitment && left.traded_asset_id
        == right.traded_asset_id
}

/// Why the evidence does not support a settlement. Every proof counts: the
/// typed instruction, the quote, the execution receipts, the price limit,
/// delivery against payment, and the link to the traded asset; and all must have
/// been verified against what the settlement and the state say.
pub open spec fn evidence_refusal(
    ledger: Ledger,
    findings: SettlementFindings,
    order: ProductNoteSettlementOrder,
    root: Id,
    timestamp: u64,
) -> Option<Seq<char>> {
    let typed = findings.typed->Ok_0;
    let quote = findings.quote->Ok_0;
    let maker = reservation_of(order.reservations@, ReservationRole::Maker, 0)->0;
    let taker = reservation_of(order.reservations@, ReservationRole::Taker, 0)->0;
    let binding = ledger.reservation_bindings[taker.transition.hold_id];
    let securities = securities_side(maker, taker, binding.direction);
    let cash = securities_side(taker, maker, binding.direction);
    let execution = execution_refusal(
        ledger,
        findings,
        order,
        binding.admission_batch_id,
        quote.context,
    );
    if refusal_of(findings.encoding) is Some {
        refusal_of(findings.encoding)
    } else if typed_refusal(ledger, findings, order, root, timestamp) is Some {
        typed_refusal(ledger, findings, order, root, timestamp)
    } else if quote_refusal(ledger, findings, order, timestamp) is Some {
        quote_refusal(ledger, findings, order, timestamp)
    } else if trade_refusal(ledger, order, typed, quote) is Some {
        trade_refusal(ledger, order, typed, quote)
    } else if execution is Some {
        execution
    } else if price_limit_refusal(findings, order, binding) is Some {
        price_limit_refusal(findings, order, binding)
    } else if dvp_refusal(findings, order, securities, cash) is Some {
        dvp_refusal(findings, order, securities, cash)
    } else if !findings.asset_linked || findings.asset_link_digest
        != order.terms.asset_link_proof_digest {
        Some("zkPI asset is not the traded DeFMI asset"@)
    } else if checks_refusal(ledger, order, findings.verifier_key, timestamp) is Some {
        checks_refusal(ledger, order, findings.verifier_key, timestamp)
    } else if !checks_are(
        ledger,
        order,
        findings.evidence,
        findings.verifier_key,
        timestamp,
        findings.checks,
    ) {
        Some("settlement proofs were verified against something else"@)
    } else {
        None
    }
}

/// Checks the evidence of a settlement.
pub fn verify_product_settlement_evidence(
    state: &State,
    findings: &SettlementFindings,
    order: &ProductNoteSettlementOrder,
    root: Id,
    timestamp: u64,
) -> (r: Result<(), String>)
    ensures
        verdict(r, evidence_refusal(state@, *findings, *order, root, timestamp)),
{
    repeat(&findings.encoding)?;
    let typed = verify_typed_evidence(state, findings, order, root, timestamp)?;
    let quote = verify_quote_evidence(state, findings, order, timestamp)?;
    let (maker, taker, binding) = check_trade(state, order, typed, quote)?;
    check_execution(state, findings, order, &binding.admission_batch_id, quote.context)?;
    check_price_limit(findings, order, binding)?;
    if binding.direction == 1 {
        check_dvp(findings, order, maker, taker)?;
    } else {
        check_dvp(findings, order, taker, maker)?;
    }
    if !findings.asset_linked || findings.asset_link_digest
        != order.terms.asset_link_proof_digest {
        return refuse("zkPI asset is not the traded DeFMI asset");
    }
    let expected = settlement_checks(
        state,
        order,
        &findings.evidence,
        &findings.verifier_key,
        timestamp,
    )?;
    if !is_same_checks(&expected, &findings.checks) {
        return refuse("settlement proofs were verified against something else");
    }
    Ok(())
}

/// What an approved settlement with its evidence does.
pub open spec fn settle_note_product_outcome(
    ledger: Ledger,
    order: ProductNoteSettlementOrder,
    findings: SettlementFindings,
    submission: Submission,
    timestamp: u64,
) -> Outcome {
    unless(
        endorsement_refusal(order.seal, submission),
        ledger,
        unless(
            evidence_refusal(ledger, findings, order, submission.before_root, timestamp),
            ledger,
            note_product_outcome(ledger, order, timestamp),
        ),
    )
}

/// Settles one approved order between escrowed notes.
pub fn settle_note_product(
    state: &mut State,
    order: &ProductNoteSettlementOrder,
    findings: &SettlementFindings,
    submission: &Submission,
    timestamp: u64,
) -> (r: Result<Id, String>)
    ensures
        meets(
            r,
            final(state)@,
            settle_note_product_outcome(
                old(state)@,
                *order,
                *findings,
                *submission,
                timestamp,
            ),
        ),
{
    endorse(&order.seal, submission)?;
    verify_product_settlement_evidence(state, findings, order, submission.before_root, timestamp)?;
    apply_note_product_settlement(state, order, timestamp)
}

/// Why the evidence of one of the settlements from `from` on does not support
/// it. Findings and orders go in pairs.
pub open spec fn bundle_refusal(
    ledger: Ledger,
    findings: Seq<SettlementFindings>,
    orders: Seq<ProductNoteSettlementOrder>,
    root: Id,
    timestamp: u64,
    from: nat,
) -> Option<Seq<char>>
    decreases findings.len() - from,
{
    if from >= findings.len() || from >= orders.len() {
        None
    } else {
        let refusal = evidence_refusal(
            ledger,
            findings[from as int],
            orders[from as int],
            root,
            timestamp,
        );
        if refusal is Some {
            refusal
        } else {
            bundle_refusal(ledger, findings, orders, root, timestamp, from + 1)
        }
    }
}

fn check_bundle(
    state: &State,
    findings: &Vec<SettlementFindings>,
    orders: &Vec<ProductNoteSettlementOrder>,
    root: Id,
    timestamp: u64,
) -> (r: Result<(), String>)
    ensures
        verdict(r, bundle_refusal(state@, findings@, orders@, root, timestamp, 0)),
{
    let mut index: usize = 0;
    while index < findings.len() && index < orders.len()
        invariant
            index <= findings@.len(),
            index <= orders@.len(),
            bundle_refusal(state@, findings@, orders@, root, timestamp, 0) == bundle_refusal(
                state@,
                findings@,
                orders@,
                root,
                timestamp,
                index as nat,
            ),
        decreases findings@.len() - index,
    {
        verify_product_settlement_evidence(
            state,
            &findings[index],
            &orders[index],
            root,
            timestamp,
        )?;
        index = index + 1;
    }
    Ok(())
}

/// Settles the orders from `from` on, one after the other.
pub open spec fn note_orders_progress(
    ledger: Ledger,
    orders: Seq<ProductNoteSettlementOrder>,
    timestamp: u64,
    from: nat,
) -> Progress
    decreases orders.len() - from,
{
    if from >= orders.len() {
        done(ledger)
    } else {
        let outcome = note_product_outcome(ledger, orders[from as int], timestamp);
        match outcome.result {
            Err(message) => stopped(outcome.ledger, message),
            Ok(_) => note_orders_progress(outcome.ledger, orders, timestamp, from + 1),
        }
    }
}

/// What an approved batch of settlements does. Each order has its evidence, and
/// all of it is checked against the state that the batch meets.
pub open spec fn settle_note_product_batch_outcome(
    ledger: Ledger,
    batch: ProductSettlementBatch,
    orders: Seq<ProductNoteSettlementOrder>,
    findings: Seq<SettlementFindings>,
    submission: Submission,
    timestamp: u64,
) -> Outcome {
    let progress = note_orders_progress(ledger, orders, timestamp, 0);
    let statement = batch.seal.statement->Ok_0;
    let bundle = bundle_refusal(ledger, findings, orders, submission.before_root, timestamp, 0);
    if findings.len() != orders.len() {
        refused(ledger, "anonymous batch must carry one complete proof bundle per order"@)
    } else if endorsement_refusal(batch.seal, submission) is Some {
        refused(ledger, endorsement_refusal(batch.seal, submission)->0)
    } else if bundle is Some {
        refused(ledger, bundle->0)
    } else if ledger.operations.contains_key(batch.batch_id) {
        refused(ledger, "anonymous settlement batch identifier was already used"@)
    } else if progress.refusal is Some {
        refused(progress.ledger, progress.refusal->0)
    } else {
        accepted(operated(progress.ledger, batch.batch_id, statement), statement)
    }
}

/// Settles the orders of an approved batch, one after the other.
pub fn settle_note_product_batch(
    state: &mut State,
    batch: &ProductSettlementBatch,
    orders: &Vec<ProductNoteSettlementOrder>,
    findings: &Vec<SettlementFindings>,
    submission: &Submission,
    timestamp: u64,
) -> (r: Result<Id, String>)
    ensures
        meets(
            r,
            final(state)@,
            settle_note_product_batch_outcome(
                old(state)@,
                *batch,
                orders@,
                findings@,
                *submission,
                timestamp,
            ),
        ),
{
    if findings.len() != orders.len() {
        return refuse("anonymous batch must carry one complete proof bundle per order");
    }
    let statement = endorse(&batch.seal, submission)?;
    check_bundle(state, findings, orders, submission.before_root, timestamp)?;
    if state.operations.contains_key(&batch.batch_id) {
        return refuse("anonymous settlement batch identifier was already used");
    }
    let mut index: usize = 0;
    while index < orders.len()
        invariant
            index <= orders@.len() == findings@.len(),
            endorsement_refusal(batch.seal, *submission) is None,
            bundle_refusal(
                old(state)@,
                findings@,
                orders@,
                submission.before_root,
                timestamp,
                0,
            ) is None,
            !old(state)@.operations.contains_key(batch.batch_id),
            note_orders_progress(old(state)@, orders@, timestamp, 0) == note_orders_progress(
                state@,
                orders@,
                timestamp,
                index as nat,
            ),
        decreases orders@.len() - index,
    {
        apply_note_product_settlement(state, &orders[index], timestamp)?;
        index = index + 1;
    }
    state.operations.insert(batch.batch_id, statement);
    Ok(statement)
}

} // verus!
