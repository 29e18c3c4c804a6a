use vstd::prelude::*;

use crate::errors::MintError;
use crate::is_tx_hash;
use crate::metadata::clone_bytes;

verus! {

/// Mathematical model of a network event observed by the submitter.
pub ghost enum SubmitEventModel {
    Accepted(Seq<u8>),
    PoolRejected,
    Included(Seq<u8>),
    Reverted,
    TimedOut,
}

/// One event observed while a mint transaction is in flight: acceptance
/// into the pending pool with a provisional identifier, rejection by the
/// pool, inclusion in a finalized block with the final identifier, a revert,
/// or the bounded confirmation wait running out.
pub enum SubmitEvent {
    Accepted(Vec<u8>),
    PoolRejected,
    Included(Vec<u8>),
    Reverted,
    TimedOut,
}

impl View for SubmitEvent {
    type V = SubmitEventModel;

    open spec fn view(&self) -> SubmitEventModel {
        match self {
            SubmitEvent::Accepted(id) => SubmitEventModel::Accepted(id@),
            SubmitEvent::PoolRejected => SubmitEventModel::PoolRejected,
            SubmitEvent::Included(h) => SubmitEventModel::Included(h@),
            SubmitEvent::Reverted => SubmitEventModel::Reverted,
            SubmitEvent::TimedOut => SubmitEventModel::TimedOut,
        }
    }
}

/// Mathematical model of the submitter's phase.
pub ghost enum SubmitPhaseModel {
    Submitted,
    Pending(Seq<u8>),
    Confirmed(Seq<u8>),
    Failed(MintError),
}

/// The two-phase life of one mint transaction: submitted and waiting for
/// network acceptance, pending with a provisional identifier and waiting
/// for confirmation, confirmed with the finalized transaction identifier,
/// or failed.
pub enum SubmitPhase {
    Submitted,
    Pending(Vec<u8>),
    Confirmed(Vec<u8>),
    Failed(MintError),
}

impl View for SubmitPhase {
    type V = SubmitPhaseModel;

    open spec fn view(&self) -> SubmitPhaseModel {
        match self {
            SubmitPhase::Submitted => SubmitPhaseModel::Submitted,
            SubmitPhase::Pending(id) => SubmitPhaseModel::Pending(id@),
            SubmitPhase::Confirmed(h) => SubmitPhaseModel::Confirmed(h@),
            SubmitPhase::Failed(e) => SubmitPhaseModel::Failed(*e),
        }
    }
}

/// The submitter's phase invariant: a confirmed phase always carries a
/// well-formed, fixed-length transaction identifier.
pub open spec fn phase_ok(p: SubmitPhaseModel) -> bool {
    match p {
        SubmitPhaseModel::Confirmed(h) => is_tx_hash(h),
        _ => true,
    }
}

/// A terminal phase: confirmed or failed. Only a terminal phase may be
/// reported back to the orchestrator.
pub open spec fn phase_terminal(p: SubmitPhaseModel) -> bool {
    match p {
        SubmitPhaseModel::Confirmed(_) => true,
        SubmitPhaseModel::Failed(_) => true,
        _ => false,
    }
}

/// The submitter's transition function. Rejection in the first phase is
/// fatal; in the second phase a revert fails definitively, the bounded wait
/// running out fails with the distinct timeout class, and inclusion
/// confirms only when the reported identifier is well formed. Any other
/// pairing of phase and event leaves the phase unchanged.
pub open spec fn spec_submit_transition(
    p: SubmitPhaseModel,
    e: SubmitEventModel,
) -> SubmitPhaseModel {
    match (p, e) {
        (SubmitPhaseModel::Submitted, SubmitEventModel::Accepted(id)) => SubmitPhaseModel::Pending(
            id,
        ),
        (SubmitPhaseModel::Submitted, SubmitEventModel::PoolRejected) => SubmitPhaseModel::Failed(
            MintError::SubmissionRejected,
        ),
        (SubmitPhaseModel::Pending(_), SubmitEventModel::Included(h)) => if is_tx_hash(h) {
            SubmitPhaseModel::Confirmed(h)
        } else {
            SubmitPhaseModel::Failed(MintError::ConfirmationFailed)
        },
        (SubmitPhaseModel::Pending(_), SubmitEventModel::Reverted) => SubmitPhaseModel::Failed(
            MintError::ConfirmationFailed,
        ),
        (SubmitPhaseModel::Pending(_), SubmitEventModel::TimedOut) => SubmitPhaseModel::Failed(
            MintError::ConfirmationTimeout,
        ),
        (other, _) => other,
    }
}

/// Advances the submitter by one observed event.
pub fn submit_transition(p: SubmitPhase, e: SubmitEvent) -> (r: SubmitPhase)
    ensures
        r@ == spec_submit_transition(p@, e@),
{
    match (p, e) {
        (SubmitPhase::Submitted, SubmitEvent::Accepted(id)) => SubmitPhase::Pending(id),
        (SubmitPhase::Submitted, SubmitEvent::PoolRejected) => SubmitPhase::Failed(
            MintError::SubmissionRejected,
        ),
        (SubmitPhase::Pending(_), SubmitEvent::Included(h)) => {
            if crate::check_tx_hash(&h) {
                SubmitPhase::Confirmed(h)
            } else {
                SubmitPhase::Failed(MintError::ConfirmationFailed)
            }
        },
        (SubmitPhase::Pending(_), SubmitEvent::Reverted) => SubmitPhase::Failed(
            MintError::ConfirmationFailed,
        ),
        (SubmitPhase::Pending(_), SubmitEvent::TimedOut) => SubmitPhase::Failed(
            MintError::ConfirmationTimeout,
        ),
        (other, _) => other,
    }
}

/// LAW: every phase the transition function can reach keeps the invariant,
/// so a confirmed transaction always carries a well-formed identifier,
/// whatever sequence of events the network produces.
pub proof fn lemma_phase_ok_preserved(p: SubmitPhaseModel, e: SubmitEventModel)
    requires
        phase_ok(p),
    ensures
        phase_ok(spec_submit_transition(p, e)),
{
}

/// LAW: the bounded confirmation wait running out and a pool rejection
/// reach two different failure classes, so the indeterminate outcome is
/// never reported as a definite one.
pub proof fn lemma_timeout_distinct_from_rejection(id: Seq<u8>)
    ensures
        spec_submit_transition(SubmitPhaseModel::Pending(id), SubmitEventModel::TimedOut)
            == SubmitPhaseModel::Failed(MintError::ConfirmationTimeout),
        spec_submit_transition(SubmitPhaseModel::Submitted, SubmitEventModel::PoolRejected)
            == SubmitPhaseModel::Failed(MintError::SubmissionRejected),
        crate::errors::spec_error_message(MintError::ConfirmationTimeout)
            != crate::errors::spec_error_message(MintError::SubmissionRejected),
{
    crate::errors::lemma_error_messages_distinct(
        MintError::ConfirmationTimeout,
        MintError::SubmissionRejected,
    );
}

/// The phase reached from `p` after a whole sequence of observed events,
/// applied in order.
pub open spec fn spec_run_submitter(
    p: SubmitPhaseModel,
    events: Seq<SubmitEventModel>,
) -> SubmitPhaseModel
    decreases events.len(),
{
    if events.len() == 0 {
        p
    } else {
        spec_run_submitter(spec_submit_transition(p, events[0]), events.skip(1))
    }
}

/// LAW: the phase invariant holds after any sequence of network events, so
/// however a submission's life unfolds, a confirmed transaction carries a
/// well-formed identifier.
pub proof fn lemma_run_submitter_ok(p: SubmitPhaseModel, events: Seq<SubmitEventModel>)
    requires
        phase_ok(p),
    ensures
        phase_ok(spec_run_submitter(p, events)),
    decreases events.len(),
{
    if events.len() > 0 {
        lemma_phase_ok_preserved(p, events[0]);
        lemma_run_submitter_ok(spec_submit_transition(p, events[0]), events.skip(1));
    }
}

/// One in-flight or completed submission, owned by the submitter for the
/// lifetime of one mint request: the recipient address, the serialized
/// metadata handed to the contract, and the submission's phase. Nothing of
/// it outlives the request; the caller keeps only the returned identifier.
pub struct MintTransaction {
    pub recipient: Vec<u8>,
    pub metadata_payload: Vec<u8>,
    pub phase: SubmitPhase,
}

/// The transaction invariant: its phase keeps the phase invariant.
pub open spec fn mint_transaction_wf(t: MintTransaction) -> bool {
    phase_ok(t.phase@)
}

/// Opens a submission for a recipient and a serialized metadata payload.
pub fn new_mint_transaction(recipient: Vec<u8>, metadata_payload: Vec<u8>) -> (t: MintTransaction)
    ensures
        t.recipient@ == recipient@,
        t.metadata_payload@ == metadata_payload@,
        t.phase@ == SubmitPhaseModel::Submitted,
        mint_transaction_wf(t),
{
    MintTransaction { recipient, metadata_payload, phase: SubmitPhase::Submitted }
}

/// Advances a transaction by one observed network event. The recipient and
/// the payload never change; only the phase moves, and the invariant is
/// kept whatever the event.
pub fn advance_transaction(t: MintTransaction, e: SubmitEvent) -> (r: MintTransaction)
    requires
        mint_transaction_wf(t),
    ensures
        r.recipient@ == t.recipient@,
        r.metadata_payload@ == t.metadata_payload@,
        r.phase@ == spec_submit_transition(t.phase@, e@),
        mint_transaction_wf(r),
{
    proof {
        lemma_phase_ok_preserved(t.phase@, e@);
    }
    MintTransaction {
        recipient: t.recipient,
        metadata_payload: t.metadata_payload,
        phase: submit_transition(t.phase, e),
    }
}

/// Reads the outcome of a terminal phase: the finalized identifier on
/// confirmation, the failure class otherwise.
pub fn submit_outcome(p: &SubmitPhase) -> (r: Option<Result<Vec<u8>, MintError>>)
    ensures
        match p@ {
            SubmitPhaseModel::Confirmed(h) => (match r {
                Some(Ok(v)) => v@ == h,
                _ => false,
            }),
            SubmitPhaseModel::Failed(e) => r == Some(Err::<Vec<u8>, MintError>(e)),
            _ => r is None,
        },
{
    match p {
        SubmitPhase::Confirmed(h) => Some(Ok(clone_bytes(h))),
        SubmitPhase::Failed(e) => Some(Err(*e)),
        _ => None,
    }
}

} // verus!
