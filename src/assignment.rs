//! Assignments, the concrete units of work bound to a project, and the
//! results their execution produces.
use vstd::prelude::*;

use crate::project::{Project, ProjectView};
use crate::worker::ProjectWorker;

verus! {

/// One unit of work: its identifier, the project it belongs to (a full
/// copy), and its input payload.
#[derive(Clone, Debug)]
pub struct Assignment {
    pub id: i64,
    pub project: Project,
    pub input_data: String,
}

pub struct AssignmentView {
    pub id: i64,
    pub project: ProjectView,
    pub input_data: Seq<char>,
}

impl View for Assignment {
    type V = AssignmentView;

    open spec fn view(&self) -> AssignmentView {
        AssignmentView { id: self.id, project: self.project@, input_data: self.input_data@ }
    }
}

/// What the execution of an assignment produced: captured output and
/// error streams, exit status and duration in nanoseconds.
#[derive(Clone, Debug)]
pub struct AssignmentResult {
    pub id: i64,
    pub output: String,
    pub error: String,
    pub status: i32,
    pub execution_time: u128,
}

impl Assignment {
    pub fn new(id: i64, project: Project, input_data: String) -> (r: Assignment)
        ensures
            r@ == (AssignmentView { id, project: project@, input_data: input_data@ }),
    {
        Assignment { id, project, input_data }
    }

    /// A copy of this assignment.
    pub fn duplicate(&self) -> (r: Assignment)
        ensures
            r@ == self@,
    {
        Assignment {
            id: self.id,
            project: self.project.duplicate(),
            input_data: self.input_data.clone(),
        }
    }

    /// An executor for this assignment, holding its own copy of it.
    pub fn create_worker(&self) -> (r: ProjectWorker)
        ensures
            r.assignment@ == self@,
    {
        ProjectWorker { assignment: self.duplicate() }
    }
}

impl AssignmentResult {
    pub fn new(id: i64, output: String, error: String, status: i32, execution_time: u128) -> (r:
        AssignmentResult)
        ensures
            r.id == id,
            r.output == output,
            r.error == error,
            r.status == status,
            r.execution_time == execution_time,
    {
        AssignmentResult { id, output, error, status, execution_time }
    }

    /// A copy of this result.
    pub fn duplicate(&self) -> (r: AssignmentResult)
        ensures
            r == *self,
    {
        AssignmentResult {
            id: self.id,
            output: self.output.clone(),
            error: self.error.clone(),
            status: self.status,
            execution_time: self.execution_time,
        }
    }
}

} // verus!
