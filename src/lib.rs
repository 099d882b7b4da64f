//! Submission of guardian-signed cross-chain messages (VAAs) to programs that
//! negotiate their accounts by simulation, and an adversarial harness that
//! checks a receiving program really verifies what it is handed.

pub mod bytes;
pub mod cli;
pub mod crypto;
pub mod emitter_program;
pub mod error;
pub mod execute;
pub mod guardian;
pub mod harness;
pub mod instruction;
pub mod message;
pub mod placeholder;
pub mod resolve;
pub mod submission;
pub mod vaa;
pub mod verifier_program;
