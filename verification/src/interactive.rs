//! What the choice of an instance came to.

use vstd::prelude::*;
use vstd::string::*;

verus! {

/// How the prompt for an instance ended.
#[derive(Clone, Debug)]
pub enum PromptOutcome {
    /// The user chose this instance.
    Chosen(String),
    /// The user left the prompt.
    Cancelled,
    /// The prompt failed; holds the error text.
    Failed(String),
}

/// Why no instance was chosen.
#[derive(Clone, Debug)]
pub enum SelectError {
    /// The user left the prompt.
    Cancelled,
    /// The prompt failed; holds the error text.
    Prompt(String),
}

impl SelectError {
    pub open spec fn message_spec(self) -> Seq<char> {
        match self {
            SelectError::Cancelled => "Selection cancelled by user"@,
            SelectError::Prompt(m) => m@,
        }
    }

    /// The text shown to the user.
    pub fn message(&self) -> (out: String)
        ensures
            out@ == self.message_spec(),
    {
        match self {
            SelectError::Cancelled => String::from_str("Selection cancelled by user"),
            SelectError::Prompt(m) => m.clone(),
        }
    }
}

/// The instance that the user chose, or the reason why there is none.
pub fn select_instance(outcome: PromptOutcome) -> (out: Result<String, SelectError>)
    ensures
        match outcome {
            PromptOutcome::Chosen(id) => out is Ok && out->Ok_0 == id,
            PromptOutcome::Cancelled => out is Err && out->Err_0 is Cancelled,
            PromptOutcome::Failed(m) => out is Err && out->Err_0 == SelectError::Prompt(m),
        },
{
    match outcome {
        PromptOutcome::Chosen(id) => Ok(id),
        PromptOutcome::Cancelled => Err(SelectError::Cancelled),
        PromptOutcome::Failed(m) => Err(SelectError::Prompt(m)),
    }
}

} // verus!
