use vstd::prelude::*;
use crate::ServeError;

verus! {

/// Which storage tiers a deployment runs with: the primary object store with
/// the local filesystem cache behind it, or the local tier alone.
#[derive(Clone, Copy, PartialEq, Eq, Structural, Debug)]
pub enum StorageMode {
    Tiered,
    LocalOnly,
}

/// One storage backend in the fallback chain.
#[derive(Clone, Copy, PartialEq, Eq, Structural, Debug)]
pub enum Tier {
    Primary,
    Local,
}

/// The tier consulted first: the primary store when configured, otherwise
/// the local tier directly, with no primary attempt at all.
pub fn first_tier(mode: StorageMode) -> (t: Tier)
    ensures
        t == (match mode {
            StorageMode::Tiered => Tier::Primary,
            StorageMode::LocalOnly => Tier::Local,
        }),
{
    match mode {
        StorageMode::Tiered => Tier::Primary,
        StorageMode::LocalOnly => Tier::Local,
    }
}

/// What one attempt against the primary store produced: a response with a
/// status code and a body, or a transport-level failure before any response.
pub enum PrimaryOutcome {
    Response { status: u16, bytes: Vec<u8> },
    TransportFailure,
}

/// What the retriever does after the primary attempt.
pub enum RetrievalStep {
    Done { bytes: Vec<u8> },
    ConsultLocal,
}

/// The HTTP status the primary store answers with on success.
pub const SUCCESS_STATUS: u16 = 200;

/// The fallback decision: a successful primary response is final; a
/// non-success status or a transport failure sends the retriever to the
/// local tier instead of failing the request.
pub fn after_primary(outcome: PrimaryOutcome) -> (step: RetrievalStep)
    ensures
        match outcome {
            PrimaryOutcome::Response { status, bytes } => {
                if status == SUCCESS_STATUS {
                    step matches RetrievalStep::Done { bytes: b } && b@ == bytes@
                } else {
                    step is ConsultLocal
                }
            },
            PrimaryOutcome::TransportFailure => step is ConsultLocal,
        },
{
    match outcome {
        PrimaryOutcome::Response { status, bytes } => {
            if status == SUCCESS_STATUS {
                RetrievalStep::Done { bytes }
            } else {
                RetrievalStep::ConsultLocal
            }
        },
        PrimaryOutcome::TransportFailure => RetrievalStep::ConsultLocal,
    }
}

/// What the local filesystem tier produced: the stored bytes, or a failure
/// to open or read them.
pub enum LocalOutcome {
    Bytes { bytes: Vec<u8> },
    Failure,
}

/// The end of the chain: the local tier is the last resort, so its failure
/// is the only way retrieval fails, and it fails as the storage being
/// unavailable — both tiers, or every configured tier, have failed by then.
pub fn after_local(outcome: LocalOutcome) -> (r: Result<Vec<u8>, ServeError>)
    ensures
        match outcome {
            LocalOutcome::Bytes { bytes } => r matches Ok(b) && b@ == bytes@,
            LocalOutcome::Failure => r == Err::<Vec<u8>, ServeError>(
                ServeError::StorageUnavailable,
            ),
        },
{
    match outcome {
        LocalOutcome::Bytes { bytes } => Ok(bytes),
        LocalOutcome::Failure => Err(ServeError::StorageUnavailable),
    }
}

} // verus!
