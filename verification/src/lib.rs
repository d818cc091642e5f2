//! Decision logic of a command-line helper that signs in to AWS IAM Identity
//! Center with the OAuth2 device-authorization grant and opens Systems Manager
//! sessions. Network calls, prompts, sleeps and file writes are performed by
//! the caller, which feeds their outcomes back in; the library decides what
//! to do next, and looks up nothing itself but the user's home directory.

use vstd::prelude::*;

pub mod accounts;
pub mod credentials;
pub mod device;
pub mod ec2;
pub mod errors;
pub mod gcp;
pub mod interactive;
pub mod json;
pub mod poll;
pub mod selection;
pub mod ssm;
pub mod text;
pub mod workflow;

verus! {

/// The workflow that a run uses: the sign-in to AWS, not yet begun.
pub fn create_workflow() -> (out: workflow::AwsSsoWorkflow)
    ensures
        out.spec_state() == workflow::FlowState::Idle,
        out.spec_start_url() == Seq::<char>::empty(),
        out.spec_region() == Seq::<char>::empty(),
{
    workflow::AwsSsoWorkflow::new()
}

} // verus!
