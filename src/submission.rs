//! The high-level submission flow: resolve, check the plan routes its
//! verification through the signatures account, post the signatures,
//! execute, and close the signatures account whatever execution gave.
//!
//! The caller performs each action and reports its outcome.

use vstd::prelude::*;

use crate::error::SubmitError;
use crate::instruction::{groups_mention, groups_reference, InstructionGroup};
use crate::placeholder::{Placeholders, Role};
use crate::resolve::ResolverResult;

verus! {

/// Where a submission stands.
#[derive(Clone, Copy, Debug, PartialEq, Eq, Structural)]
pub enum SubmissionPhase {
    Resolving,
    Posting,
    Executing,
    Closing,
    Done,
}

/// What the caller does next.
#[derive(Debug)]
pub enum SubmissionAction {
    /// Post the guardian signatures to a new signatures account.
    PostSignatures,
    /// Execute these groups with the posted signatures account.
    Execute(Vec<InstructionGroup>),
    /// Close the signatures account at this address.
    CloseSignatures([u8; 32]),
    /// The flow is over: its result, and the close failure, if any, which is
    /// only a warning.
    Finished(Result<Vec<[u8; 64]>, SubmitError>, Option<SubmitError>),
}

/// The state of one submission.
#[derive(Debug)]
pub struct Submission {
    /// The phase.
    pub phase: SubmissionPhase,
    /// The placeholder the plan must use for the signatures account.
    pub signatures_placeholder: [u8; 32],
    /// The resolved groups, once resolved.
    pub groups: Vec<InstructionGroup>,
    /// The posted signatures account, once posted.
    pub signatures: [u8; 32],
    /// The execution result, once executed.
    pub executed: Option<Result<Vec<[u8; 64]>, SubmitError>>,
}

/// The close failure that a close result leaves as a warning.
pub open spec fn close_warning(closed: Result<(), SubmitError>) -> Option<SubmitError> {
    match closed {
        Ok(()) => None,
        Err(e) => Some(e),
    }
}

/// The transition on an execution result: keep it and close the account.
pub open spec fn executed_step(b: Submission, executed: Result<Vec<[u8; 64]>, SubmitError>) -> (
    Submission,
    SubmissionAction,
) {
    (
        Submission { phase: SubmissionPhase::Closing, executed: Some(executed), ..b },
        SubmissionAction::CloseSignatures(b.signatures),
    )
}

/// The transition on a close result: end with the kept execution result.
pub open spec fn closed_step(b: Submission, closed: Result<(), SubmitError>) -> (
    Submission,
    SubmissionAction,
) {
    (
        Submission { phase: SubmissionPhase::Done, executed: None, ..b },
        SubmissionAction::Finished(b.executed->0, close_warning(closed)),
    )
}

/// The error of a plan that does not use the signatures account.
pub open spec fn is_unsupported_program(e: SubmitError) -> bool {
    e is Execution
}

impl Submission {
    /// A submission about to resolve.
    pub fn new(placeholders: &Placeholders) -> (r: Self)
        ensures
            r.phase == SubmissionPhase::Resolving,
            r.signatures_placeholder == placeholders.address_of(Role::SignaturesAccount),
            r.executed is None,
    {
        Submission {
            phase: SubmissionPhase::Resolving,
            signatures_placeholder: placeholders.signatures(),
            groups: Vec::new(),
            signatures: [0u8; 32],
            executed: None,
        }
    }

    /// Takes the resolution result. A failed resolution ends the flow with its
    /// error; a plan that never mentions the signatures placeholder ends it
    /// with an execution error; otherwise the signatures are posted next.
    /// Nothing is posted in the first two cases, so nothing needs closing.
    pub fn on_resolved(&mut self, resolved: Result<ResolverResult, SubmitError>) -> (r: SubmissionAction)
        requires
            old(self).phase == SubmissionPhase::Resolving,
        ensures
            final(self).signatures_placeholder == old(self).signatures_placeholder,
            final(self).executed == old(self).executed,
            match resolved {
                Err(e) => final(self).phase == SubmissionPhase::Done && r == SubmissionAction::Finished(
                    Err(e),
                    None,
                ),
                Ok(res) => if groups_mention(res.instruction_groups@, old(self).signatures_placeholder) {
                    &&& final(self).phase == SubmissionPhase::Posting
                    &&& final(self).groups == res.instruction_groups
                    &&& r == SubmissionAction::PostSignatures
                } else {
                    &&& final(self).phase == SubmissionPhase::Done
                    &&& r matches SubmissionAction::Finished(Err(e), None) && is_unsupported_program(e)
                },
            },
    {
        match resolved {
            Err(e) => {
                self.phase = SubmissionPhase::Done;
                SubmissionAction::Finished(Err(e), None)
            },
            Ok(res) => {
                if groups_reference(res.instruction_groups.as_slice(), &self.signatures_placeholder) {
                    self.phase = SubmissionPhase::Posting;
                    self.groups = res.instruction_groups;
                    SubmissionAction::PostSignatures
                } else {
                    self.phase = SubmissionPhase::Done;
                    SubmissionAction::Finished(
                        Err(
                            SubmitError::Execution(
                                "Program does not use the Verify VAA Shim; legacy VAA verification is not supported".to_owned(),
                            ),
                        ),
                        None,
                    )
                }
            },
        }
    }

    /// Takes the result of posting. A failed post ends the flow with its
    /// error; otherwise the groups are handed over for execution with the
    /// posted account.
    pub fn on_posted(&mut self, posted: Result<[u8; 32], SubmitError>) -> (r: SubmissionAction)
        requires
            old(self).phase == SubmissionPhase::Posting,
        ensures
            final(self).signatures_placeholder == old(self).signatures_placeholder,
            final(self).executed == old(self).executed,
            match posted {
                Err(e) => final(self).phase == SubmissionPhase::Done && r == SubmissionAction::Finished(
                    Err(e),
                    None,
                ),
                Ok(address) => {
                    &&& final(self).phase == SubmissionPhase::Executing
                    &&& final(self).signatures == address
                    &&& r == SubmissionAction::Execute(old(self).groups)
                },
            },
    {
        match posted {
            Err(e) => {
                self.phase = SubmissionPhase::Done;
                SubmissionAction::Finished(Err(e), None)
            },
            Ok(address) => {
                self.phase = SubmissionPhase::Executing;
                self.signatures = address;
                let mut groups: Vec<InstructionGroup> = Vec::new();
                core::mem::swap(&mut groups, &mut self.groups);
                SubmissionAction::Execute(groups)
            },
        }
    }

    /// Takes the execution result, success or failure alike, keeps it, and
    /// asks for the signatures account to be closed.
    pub fn on_executed(&mut self, executed: Result<Vec<[u8; 64]>, SubmitError>) -> (r: SubmissionAction)
        requires
            old(self).phase == SubmissionPhase::Executing,
        ensures
            (*final(self), r) == executed_step(*old(self), executed),
    {
        self.phase = SubmissionPhase::Closing;
        self.executed = Some(executed);
        SubmissionAction::CloseSignatures(self.signatures)
    }

    /// Takes the result of closing and ends the flow with the kept execution
    /// result, unchanged; a failed close is reported beside it as a warning.
    pub fn on_closed(&mut self, closed: Result<(), SubmitError>) -> (r: SubmissionAction)
        requires
            old(self).phase == SubmissionPhase::Closing,
            old(self).executed is Some,
        ensures
            (*final(self), r) == closed_step(*old(self), closed),
    {
        self.phase = SubmissionPhase::Done;
        let executed = match self.executed.take() {
            Some(x) => x,
            None => Err(SubmitError::Execution("no execution result".to_owned())),
        };
        let warning = match closed {
            Ok(()) => None,
            Err(e) => Some(e),
        };
        SubmissionAction::Finished(executed, warning)
    }
}

/// Signatures are always closed: once posted, whatever execution gives, the
/// next action closes the posted account, and the flow then ends with the
/// execution result unchanged, a close failure being only a warning.
pub proof fn lemma_signatures_always_closed(
    b: Submission,
    executed: Result<Vec<[u8; 64]>, SubmitError>,
    closed: Result<(), SubmitError>,
)
    requires
        b.phase == SubmissionPhase::Executing,
    ensures
        ({
            let (b1, a1) = executed_step(b, executed);
            let (b2, a2) = closed_step(b1, closed);
            &&& b1.phase == SubmissionPhase::Closing
            &&& a1 == SubmissionAction::CloseSignatures(b.signatures)
            &&& b2.phase == SubmissionPhase::Done
            &&& a2 == SubmissionAction::Finished(executed, close_warning(closed))
        }),
{
}

} // verus!
