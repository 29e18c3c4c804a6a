use vstd::prelude::*;

use crate::literals::{
    bytes_msg_missing, bytes_msg_protocol, bytes_msg_rejected, bytes_msg_reverted,
    bytes_msg_timeout, bytes_msg_unavailable, lit_msg_missing, lit_msg_protocol,
    lit_msg_rejected, lit_msg_reverted, lit_msg_timeout, lit_msg_unavailable,
};

verus! {

/// The error taxonomy of one mint request. The first three classes belong to
/// the price step, the last three to the transaction step. A confirmation
/// timeout is an indeterminate outcome — the transaction may still land —
/// and is therefore kept distinct from a definite rejection.
#[derive(Clone, Copy, Debug, PartialEq, Eq, Structural)]
pub enum MintError {
    UpstreamUnavailable,
    UpstreamProtocolError,
    UpstreamDataMissing,
    SubmissionRejected,
    ConfirmationTimeout,
    ConfirmationFailed,
}

/// The fatal startup failure: missing or malformed configuration. The
/// process must not begin serving traffic when it is raised.
#[derive(Clone, Copy, Debug, PartialEq, Eq, Structural)]
pub enum StartupError {
    ConfigurationInvalid,
}

/// The descriptive message surfaced at the HTTP boundary for each error
/// class. Every class has its own message; in particular a confirmation
/// timeout reads differently from a rejection, so an operator can tell
/// "definitely did not mint" apart from "unknown, check manually".
pub open spec fn spec_error_message(e: MintError) -> Seq<u8> {
    match e {
        MintError::UpstreamUnavailable => lit_msg_unavailable(),
        MintError::UpstreamProtocolError => lit_msg_protocol(),
        MintError::UpstreamDataMissing => lit_msg_missing(),
        MintError::SubmissionRejected => lit_msg_rejected(),
        MintError::ConfirmationTimeout => lit_msg_timeout(),
        MintError::ConfirmationFailed => lit_msg_reverted(),
    }
}

/// Renders the descriptive message of an error class.
pub fn error_message(e: MintError) -> (r: Vec<u8>)
    ensures
        r@ == spec_error_message(e),
{
    match e {
        MintError::UpstreamUnavailable => bytes_msg_unavailable(),
        MintError::UpstreamProtocolError => bytes_msg_protocol(),
        MintError::UpstreamDataMissing => bytes_msg_missing(),
        MintError::SubmissionRejected => bytes_msg_rejected(),
        MintError::ConfirmationTimeout => bytes_msg_timeout(),
        MintError::ConfirmationFailed => bytes_msg_reverted(),
    }
}

/// LAW: distinct error classes carry distinct messages. In particular the
/// message for a confirmation timeout differs from the one for a rejected
/// submission.
pub proof fn lemma_error_messages_distinct(e1: MintError, e2: MintError)
    requires
        e1 != e2,
    ensures
        spec_error_message(e1) != spec_error_message(e2),
{
    assert(lit_msg_unavailable().len() == 25);
    assert(lit_msg_protocol().len() == 43);
    assert(lit_msg_missing().len() == 51);
    assert(lit_msg_rejected().len() == 35);
    assert(lit_msg_timeout().len() == 90);
    assert(lit_msg_reverted().len() == 46);
}

} // verus!
