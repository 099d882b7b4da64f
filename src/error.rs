//! Error types of submission and of the security harness.

use vstd::prelude::*;

verus! {

/// Why a submission failed.
#[derive(Clone, Debug, PartialEq, Eq)]
pub enum SubmitError {
    /// The ledger connection failed at the transport level.
    Connection(String),
    /// Resolution failed: simulation returned no, garbled or unsupported data,
    /// or the round budget ran out.
    ResolverSimulation(String),
    /// A resolved transaction failed to submit or confirm.
    Execution(String),
}

/// Why a harness run failed. The four bypass variants are the faults the
/// harness exists to find.
#[derive(Clone, Debug, PartialEq, Eq)]
pub enum WormholeTestError {
    /// A program binary was not found where it was looked for.
    ProgramNotFound { program: String, searched: Vec<String>, help: String },
    /// A program binary could not be read.
    IoError(String),
    /// A setup step, a posting, a closing or the committed run failed.
    LoadError(String),
    /// The program accepted a body whose signatures are for another body.
    VerificationBypass(String),
    /// The program accepted a VAA from another emitter chain.
    EmitterChainBypass(String),
    /// The program accepted a VAA from another emitter address.
    EmitterAddressBypass(String),
    /// The program accepted the same VAA twice.
    ReplayProtectionMissing(String),
    /// A submission step failed.
    SubmitError(SubmitError),
}

impl From<SubmitError> for WormholeTestError {
    fn from(e: SubmitError) -> (r: Self)
        ensures
            r == WormholeTestError::SubmitError(e),
    {
        WormholeTestError::SubmitError(e)
    }
}

impl vstd::std_specs::convert::FromSpecImpl<SubmitError> for WormholeTestError {
    open spec fn obeys_from_spec() -> bool {
        true
    }

    open spec fn from_spec(e: SubmitError) -> Self {
        WormholeTestError::SubmitError(e)
    }
}

} // verus!
