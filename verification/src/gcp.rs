//! The workflow for Google Cloud, which only announces itself so far.

use vstd::prelude::*;
use vstd::string::*;

verus! {

/// The workflow for one project.
#[derive(Clone, Debug)]
pub struct GcpWorkflow {
    project_id: String,
}

impl GcpWorkflow {
    pub closed spec fn spec_project_id(&self) -> Seq<char> {
        self.project_id@
    }

    pub fn new(project_id: String) -> (out: Self)
        ensures
            out.spec_project_id() == project_id@,
    {
        GcpWorkflow { project_id }
    }

    /// The project that the workflow is for.
    pub fn project_id(&self) -> (out: &str)
        ensures
            out@ == self.spec_project_id(),
    {
        self.project_id.as_str()
    }

    /// Runs the workflow: there is nothing to do yet but to tell the user so.
    pub fn run_workflow(&self) -> (notice: String)
        ensures
            notice@ == "To still be implemented: "@ + self.spec_project_id(),
    {
        String::from_str("To still be implemented: ").concat(self.project_id.as_str())
    }
}

} // verus!
