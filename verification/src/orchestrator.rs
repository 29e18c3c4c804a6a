use vstd::prelude::*;

use crate::builder::{build_metadata, spec_build};
use crate::errors::{spec_error_message, MintError};
use crate::is_tx_hash;
use crate::literals::{bytes_msg_minted, lit_msg_minted};
use crate::metadata::{clone_bytes, serialize_document, spec_doc_text};
use crate::number::{price_wf, Decimal, DecimalModel};
use crate::oracle::{price_step, spec_price_step, OracleOutcome, OracleOutcomeModel};
use crate::property::{record_wf, serialize_record, spec_record_text, PropertyRecord, RecordModel};
use crate::submit::{phase_ok, phase_terminal, SubmitPhase, SubmitPhaseModel};

verus! {

/// Mathematical model of the orchestrator's per-request state.
pub ghost enum MintStateModel {
    Received(RecordModel),
    PriceRequested(RecordModel),
    PriceObtained(RecordModel, DecimalModel),
    MetadataBuilt(Seq<u8>),
    TxSubmitted(Seq<u8>),
    TxConfirmed(Seq<u8>),
    Failed(MintError),
}

/// The orchestrator's state for one mint request. The request moves
/// strictly forward — received, price requested, price obtained, metadata
/// built, transaction submitted, transaction confirmed — and any step may
/// instead end the request in a terminal failure.
pub enum MintState {
    Received(PropertyRecord),
    PriceRequested(PropertyRecord),
    PriceObtained(PropertyRecord, Decimal),
    MetadataBuilt(Vec<u8>),
    TxSubmitted(Vec<u8>),
    TxConfirmed(Vec<u8>),
    Failed(MintError),
}

impl View for MintState {
    type V = MintStateModel;

    open spec fn view(&self) -> MintStateModel {
        match self {
            MintState::Received(r) => MintStateModel::Received(r@),
            MintState::PriceRequested(r) => MintStateModel::PriceRequested(r@),
            MintState::PriceObtained(r, p) => MintStateModel::PriceObtained(r@, p@),
            MintState::MetadataBuilt(m) => MintStateModel::MetadataBuilt(m@),
            MintState::TxSubmitted(m) => MintStateModel::TxSubmitted(m@),
            MintState::TxConfirmed(h) => MintStateModel::TxConfirmed(h@),
            MintState::Failed(e) => MintStateModel::Failed(*e),
        }
    }
}

/// The orchestrator's state invariant: records it still holds are valid,
/// an obtained price is a valid estimate, and a confirmed request carries a
/// well-formed transaction identifier.
pub open spec fn mint_state_wf(s: MintStateModel) -> bool {
    match s {
        MintStateModel::Received(r) => record_wf(r),
        MintStateModel::PriceRequested(r) => record_wf(r),
        MintStateModel::PriceObtained(r, p) => record_wf(r) && price_wf(p),
        MintStateModel::TxConfirmed(h) => is_tx_hash(h),
        _ => true,
    }
}

/// Opens one mint request: the request enters `PriceRequested` and the
/// serialized record is handed out as the body of the price request.
pub fn start_mint(record: PropertyRecord) -> (r: (MintState, Vec<u8>))
    requires
        record_wf(record@),
    ensures
        r.0@ == MintStateModel::PriceRequested(record@),
        mint_state_wf(r.0@),
        r.1@ == spec_record_text(record@),
{
    let body = serialize_record(&record);
    (MintState::PriceRequested(record), body)
}

/// The state owed after the price step: the obtained estimate on success,
/// a terminal failure carrying the price step's error class otherwise.
pub open spec fn spec_on_oracle_reply(
    s: MintStateModel,
    o: OracleOutcomeModel,
) -> MintStateModel {
    match s {
        MintStateModel::PriceRequested(r) => match spec_price_step(o) {
            Ok(p) => MintStateModel::PriceObtained(r, p),
            Err(e) => MintStateModel::Failed(e),
        },
        _ => s,
    }
}

/// Applies the outcome of the price request to a request awaiting it.
pub fn on_oracle_reply(s: MintState, o: OracleOutcome) -> (r: MintState)
    requires
        s@ is PriceRequested,
        mint_state_wf(s@),
    ensures
        r@ == spec_on_oracle_reply(s@, o@),
        mint_state_wf(r@),
{
    match s {
        MintState::PriceRequested(record) => match price_step(o) {
            Ok(p) => MintState::PriceObtained(record, p),
            Err(e) => MintState::Failed(e),
        },
        other => other,
    }
}

/// Builds and serializes the metadata document of a request whose price
/// was obtained; the request enters `MetadataBuilt` with the canonical
/// payload.
pub fn prepare_metadata(s: MintState) -> (r: MintState)
    requires
        s@ is PriceObtained,
        mint_state_wf(s@),
    ensures
        (match s@ {
            MintStateModel::PriceObtained(rec, p) => r@ == MintStateModel::MetadataBuilt(
                spec_doc_text(spec_build(rec, p)),
            ),
            _ => false,
        }),
        mint_state_wf(r@),
{
    match s {
        MintState::PriceObtained(record, price) => {
            let doc = build_metadata(&record, &price);
            let payload = serialize_document(&doc);
            MintState::MetadataBuilt(payload)
        },
        other => other,
    }
}

/// Hands out the serialized metadata for submission; the request enters
/// `TxSubmitted` and the submitter starts in its first phase.
pub fn begin_submission(s: MintState) -> (r: (MintState, SubmitPhase, Vec<u8>))
    requires
        s@ is MetadataBuilt,
        mint_state_wf(s@),
    ensures
        (match s@ {
            MintStateModel::MetadataBuilt(m) => r.0@ == MintStateModel::TxSubmitted(m) && r.2@
                == m,
            _ => false,
        }),
        r.1@ == SubmitPhaseModel::Submitted,
        mint_state_wf(r.0@),
{
    match s {
        MintState::MetadataBuilt(payload) => {
            let copy = clone_bytes(&payload);
            (MintState::TxSubmitted(payload), SubmitPhase::Submitted, copy)
        },
        other => (other, SubmitPhase::Submitted, Vec::new()),
    }
}

/// The state owed after the transaction step: confirmed with the finalized
/// identifier, or failed with the submitter's failure class.
pub open spec fn spec_on_submit_reply(s: MintStateModel, p: SubmitPhaseModel) -> MintStateModel {
    match s {
        MintStateModel::TxSubmitted(_) => match p {
            SubmitPhaseModel::Confirmed(h) => MintStateModel::TxConfirmed(h),
            SubmitPhaseModel::Failed(e) => MintStateModel::Failed(e),
            _ => s,
        },
        _ => s,
    }
}

/// Applies the submitter's terminal phase to a request with a transaction
/// in flight.
pub fn on_submit_reply(s: MintState, p: SubmitPhase) -> (r: MintState)
    requires
        s@ is TxSubmitted,
        mint_state_wf(s@),
        phase_ok(p@),
        phase_terminal(p@),
    ensures
        r@ == spec_on_submit_reply(s@, p@),
        mint_state_wf(r@),
{
    match s {
        MintState::TxSubmitted(payload) => match p {
            SubmitPhase::Confirmed(h) => MintState::TxConfirmed(h),
            SubmitPhase::Failed(e) => MintState::Failed(e),
            _ => MintState::TxSubmitted(payload),
        },
        other => other,
    }
}

/// Mathematical model of the wire reply of one mint request.
pub ghost enum MintReplyModel {
    Success(Seq<u8>, Seq<u8>),
    Failure(Seq<u8>),
}

/// The wire reply of one mint request: the finalized transaction identifier
/// with a success message, or a descriptive failure message.
pub enum MintReply {
    Success(Vec<u8>, Vec<u8>),
    Failure(Vec<u8>),
}

impl View for MintReply {
    type V = MintReplyModel;

    open spec fn view(&self) -> MintReplyModel {
        match self {
            MintReply::Success(h, m) => MintReplyModel::Success(h@, m@),
            MintReply::Failure(m) => MintReplyModel::Failure(m@),
        }
    }
}

/// The reply owed for a terminal state: success only for a confirmed
/// request, with its identifier and the success message; the error class's
/// own message for a failed one; no reply for a request still in flight.
pub open spec fn spec_mint_reply(s: MintStateModel) -> Option<MintReplyModel> {
    match s {
        MintStateModel::TxConfirmed(h) => Some(MintReplyModel::Success(h, lit_msg_minted())),
        MintStateModel::Failed(e) => Some(MintReplyModel::Failure(spec_error_message(e))),
        _ => None,
    }
}

/// Renders the wire reply of a terminal request.
pub fn mint_reply(s: &MintState) -> (r: Option<MintReply>)
    ensures
        (match r {
            Some(rep) => spec_mint_reply(s@) == Some(rep@),
            None => spec_mint_reply(s@) is None,
        }),
{
    match s {
        MintState::TxConfirmed(h) => Some(MintReply::Success(clone_bytes(h), bytes_msg_minted())),
        MintState::Failed(e) => Some(MintReply::Failure(crate::errors::error_message(*e))),
        _ => None,
    }
}

/// LAW: the orchestrator never moves a request toward submission when the
/// price step fails. Every failing outcome of the Price Oracle Client ends
/// the request in the matching terminal failure, and only a successful
/// price estimate lets it advance.
pub proof fn lemma_oracle_failure_aborts(s: MintStateModel, o: OracleOutcomeModel)
    requires
        s is PriceRequested,
    ensures
        (spec_price_step(o) matches Err(e)) ==> spec_on_oracle_reply(s, o)
            == MintStateModel::Failed(spec_price_step(o)->Err_0),
        !(spec_on_oracle_reply(s, o) is MetadataBuilt),
        !(spec_on_oracle_reply(s, o) is TxSubmitted),
        !(spec_on_oracle_reply(s, o) is TxConfirmed),
{
}

/// The terminal state of one whole request, composed from the price step's
/// outcome and the submitter's terminal phase: the price step decides
/// whether a transaction is prepared at all, and only the submitter's
/// confirmation can end the request in success.
pub open spec fn spec_mint_pipeline(
    r: RecordModel,
    o: OracleOutcomeModel,
    ph: SubmitPhaseModel,
) -> MintStateModel {
    match spec_on_oracle_reply(MintStateModel::PriceRequested(r), o) {
        MintStateModel::PriceObtained(rec, p) => spec_on_submit_reply(
            MintStateModel::TxSubmitted(spec_doc_text(spec_build(rec, p))),
            ph,
        ),
        other => other,
    }
}

/// LAW: over one whole request, success is reported exactly when the price
/// step succeeded and the submitter confirmed — and then the reply carries
/// the submitter's well-formed identifier and the success message. Every
/// failing price outcome ends the request before any transaction state is
/// reached, whatever the submitter's phase.
pub proof fn lemma_pipeline_success_iff(
    r: RecordModel,
    o: OracleOutcomeModel,
    ph: SubmitPhaseModel,
)
    requires
        phase_ok(ph),
        phase_terminal(ph),
    ensures
        ((spec_mint_reply(spec_mint_pipeline(r, o, ph)) matches Some(rep) && rep is Success))
            <==> (spec_price_step(o) is Ok && ph is Confirmed),
        (spec_price_step(o) is Ok && ph is Confirmed) ==> spec_mint_reply(
            spec_mint_pipeline(r, o, ph),
        ) == Some(MintReplyModel::Success(ph->Confirmed_0, lit_msg_minted()))
            && is_tx_hash(ph->Confirmed_0),
        (spec_price_step(o) matches Err(e)) ==> spec_mint_pipeline(r, o, ph)
            == MintStateModel::Failed(spec_price_step(o)->Err_0),
{
}

/// LAW: the orchestrator never reports success without a non-empty,
/// fixed-length transaction identifier. A success reply can only come from
/// a confirmed request, and a confirmed request always carries a 66-byte
/// identifier of the form `0x` followed by 64 hexadecimal digits.
pub proof fn lemma_success_needs_valid_hash(s: MintStateModel)
    requires
        mint_state_wf(s),
    ensures
        (spec_mint_reply(s) matches Some(rep) && rep is Success) ==> {
            let h = spec_mint_reply(s)->Some_0->Success_0;
            &&& s == MintStateModel::TxConfirmed(h)
            &&& is_tx_hash(h)
            &&& h.len() == 66
        },
{
}

} // verus!
