//! Executing one assignment, and the polling loop of a worker.
use vstd::prelude::*;

use crate::assignment::{Assignment, AssignmentResult, AssignmentView};
use crate::download::{command_for, CommandSpec, CommandView};
use crate::project::{Project, ProjectPlatform, ProjectView};
use crate::text::{decimal, decimal_text};

verus! {

broadcast use vstd::std_specs::hash::group_hash_axioms;

/// Why one assignment could not be executed.
#[derive(Clone, Copy, Debug, PartialEq, Eq, Structural)]
pub enum WorkerError {
    /// The project offers no binary for any of the validated platforms.
    PlatformNotFound,
    /// The binary exited with a non-zero status, or with none at all.
    ExecutionFailed,
}

/// The first identifier of `ids` that `m` holds, if any.
pub open spec fn selected_platform<V>(m: Map<i64, V>, ids: Seq<i64>) -> Option<i64>
    decreases ids.len(),
{
    if ids.len() == 0 {
        None
    } else if m.contains_key(ids[0]) {
        Some(ids[0])
    } else {
        selected_platform(m, ids.drop_first())
    }
}

/// The directory of a project's files: `projects/<name>`.
pub open spec fn project_dir(project: ProjectView) -> Seq<char> {
    "projects/"@ + project.name
}

/// The directory of a project's binaries.
pub open spec fn binary_dir(project: ProjectView) -> Seq<char> {
    project_dir(project) + "/bin"@
}

/// The directory of a project's inputs.
pub open spec fn input_dir(project: ProjectView) -> Seq<char> {
    project_dir(project) + "/inputs"@
}

/// Where a binary is stored, with the directory that holds it, and how it
/// is invoked from there.
pub struct BinaryPlan {
    pub dir: String,
    pub path: String,
    pub command: CommandSpec,
}

/// Where an assignment's input is written, with the directory that holds
/// it, and the payload to write verbatim.
pub struct InputPlan {
    pub dir: String,
    pub path: String,
    pub data: String,
}

fn join(dir: &str, name: &str) -> (r: String)
    ensures
        r@ == dir@ + "/"@ + name@,
{
    let mut r = dir.to_string();
    r.append("/");
    r.append(name);
    r
}

impl ProjectWorker {
    /// The project's binary for the first of the caller's platform
    /// identifiers that the project offers; the caller's order is the order
    /// of preference.
    pub fn get_platform(&self, platforms: &Vec<i64>) -> (r: Result<&ProjectPlatform, WorkerError>)
        ensures
            match r {
                Ok(p) => exists|k: i64|
                    selected_platform(self.assignment@.project.platforms, platforms@) == Some(k)
                        && p@ == self.assignment@.project.platforms[k],
                Err(e) => e == WorkerError::PlatformNotFound && selected_platform(
                    self.assignment@.project.platforms,
                    platforms@,
                ) is None,
            },
    {
        let ghost m = self.assignment@.project.platforms;
        let n = platforms.len();
        let mut i: usize = 0;
        assert(platforms@.subrange(0, n as int) =~= platforms@);
        while i < n
            invariant
                n == platforms@.len(),
                i <= n,
                m == self.assignment@.project.platforms,
                selected_platform(m, platforms@) == selected_platform(
                    m,
                    platforms@.subrange(i as int, n as int),
                ),
            decreases n - i,
        {
            let ghost rest = platforms@.subrange(i as int, n as int);
            assert(rest[0] == platforms@[i as int]);
            match self.assignment.project.platforms.get(&platforms[i]) {
                Some(p) => {
                    let ghost k = platforms@[i as int];
                    assert(self.assignment.project.platforms@.contains_key(k));
                    assert(self.assignment.project.platforms@[k] == *p);
                    assert(m.contains_key(k));
                    assert(m[k] == p@);
                    assert(selected_platform(m, rest) == Some(k));
                    return Ok(p);
                },
                None => {
                    assert(rest.drop_first() =~= platforms@.subrange(i as int + 1, n as int));
                },
            }
            i = i + 1;
        }
        assert(platforms@.subrange(n as int, n as int).len() == 0);
        Err(WorkerError::PlatformNotFound)
    }

    /// Where the selected binary goes, `projects/<name>/bin/<file name>`,
    /// and the command that runs it from there.
    pub fn prepare_binary(&self, platform: &ProjectPlatform) -> (r: BinaryPlan)
        ensures
            r.dir@ == binary_dir(self.assignment@.project),
            r.path@ == binary_dir(self.assignment@.project) + "/"@ + platform.binary@.filename(),
            r.command@ == command_for(platform.binary@, r.path@),
    {
        let project_dir = join("projects", self.assignment.project.name.as_str());
        let dir = join(project_dir.as_str(), "bin");
        let path = join(dir.as_str(), platform.binary.get_filename().as_str());
        let command = platform.binary.get_command(path.as_str());
        proof {
            reveal_strlit("projects");
            reveal_strlit("projects/");
            reveal_strlit("/");
            reveal_strlit("bin");
            reveal_strlit("/bin");
            assert(dir@ =~= binary_dir(self.assignment@.project));
        }
        BinaryPlan { dir, path, command }
    }

    /// Where the input goes, `projects/<name>/inputs/<assignment id>.bin`,
    /// and the payload to write there.
    pub fn prepare_input(&self) -> (r: InputPlan)
        ensures
            r.dir@ == input_dir(self.assignment@.project),
            r.path@ == input_dir(self.assignment@.project) + "/"@ + decimal_text(
                self.assignment.id as int,
            ) + ".bin"@,
            r.data@ == self.assignment.input_data@,
    {
        let project_dir = join("projects", self.assignment.project.name.as_str());
        let dir = join(project_dir.as_str(), "inputs");
        let mut name = decimal(self.assignment.id);
        name.append(".bin");
        let path = join(dir.as_str(), name.as_str());
        proof {
            reveal_strlit("projects");
            reveal_strlit("projects/");
            reveal_strlit("/");
            reveal_strlit("inputs");
            reveal_strlit("/inputs");
            assert(dir@ =~= input_dir(self.assignment@.project));
            assert(path@ =~= input_dir(self.assignment@.project) + "/"@ + decimal_text(
                self.assignment.id as int,
            ) + ".bin"@);
        }
        InputPlan { dir, path, data: self.assignment.input_data.clone() }
    }

    /// The command of the binary with the input file handed to it:
    /// `--input <path>` after its own arguments.
    pub fn execution_command(command: CommandSpec, input_path: &str) -> (r: CommandSpec)
        ensures
            r@ == (CommandView {
                program: command@.program,
                args: command@.args + seq!["--input"@, input_path@],
            }),
    {
        let ghost original = command@;
        let mut command = command;
        command.arg("--input");
        command.arg(input_path);
        assert(command@.args =~= original.args + seq!["--input"@, input_path@]);
        command
    }

    /// Classifies a finished run: status 0 gives the result, with the
    /// captured streams, the status and the duration; any other status, or
    /// none, fails the assignment.
    pub fn finish(
        &self,
        exit_code: Option<i32>,
        output: String,
        error: String,
        execution_time: u128,
    ) -> (r: Result<AssignmentResult, WorkerError>)
        ensures
            exit_code == Some(0i32) ==> r == Ok::<AssignmentResult, WorkerError>(
                AssignmentResult {
                    id: self.assignment.id,
                    output,
                    error,
                    status: 0,
                    execution_time,
                },
            ),
            exit_code != Some(0i32) ==> r == Err::<AssignmentResult, WorkerError>(
                WorkerError::ExecutionFailed,
            ),
    {
        match exit_code {
            Some(code) => if code == 0 {
                Ok(AssignmentResult::new(self.assignment.id, output, error, 0, execution_time))
            } else {
                Err(WorkerError::ExecutionFailed)
            },
            None => Err(WorkerError::ExecutionFailed),
        }
    }
}

/// Runs one assignment: selects the platform, prepares binary and input,
/// and classifies the outcome of the run.
pub struct ProjectWorker {
    pub assignment: Assignment,
}

/// Platform selection follows the caller's order: with the validated order
/// `[p2, p1]` and a project that offers both, `p2` is selected.
pub proof fn selection_follows_caller_order<V>(offered: Map<i64, V>, p1: i64, p2: i64)
    requires
        offered.contains_key(p1),
        offered.contains_key(p2),
    ensures
        selected_platform(offered, seq![p2, p1]) == Some(p2),
{
}

/// How long an idle worker waits before it polls again, in seconds.
pub const IDLE_BACKOFF_SECS: u64 = 60;

/// Where a worker's loop stands.
#[derive(Clone, Copy, Debug, PartialEq, Eq, Structural)]
pub enum LoopPhase {
    /// Waiting for the coordinator's answer to a poll.
    Polling,
    /// Waiting out the idle backoff.
    Resting,
    /// Waiting for the current assignment to run.
    Executing,
    /// Waiting for the coordinator to take the current result.
    Submitting,
    /// Stopped by a fault; it does nothing more.
    Stopped,
}

/// What happened since the loop's last action.
pub enum WorkerEvent {
    /// The coordinator answered the poll with these assignments.
    Assigned(Vec<Assignment>),
    /// The idle wait is over.
    Rested,
    /// The current assignment ran and gave this result.
    Executed(AssignmentResult),
    /// The coordinator took the submitted result.
    Submitted,
    /// Polling, execution or submission failed.
    Failed,
}

/// What the loop asks its runner to do next.
pub enum WorkerAction {
    /// Ask the coordinator for one batch of assignments.
    Poll,
    /// Wait this many seconds.
    Sleep(u64),
    /// Run this assignment.
    Execute(Assignment),
    /// Hand this result to the coordinator.
    Submit(AssignmentResult),
    /// Stop the worker.
    Stop,
}

pub enum WorkerEventView {
    Assigned(Seq<AssignmentView>),
    Rested,
    Executed(AssignmentResult),
    Submitted,
    Failed,
}

pub enum WorkerActionView {
    Poll,
    Sleep(u64),
    Execute(AssignmentView),
    Submit(AssignmentResult),
    Stop,
}

/// The views of a list of assignments.
pub open spec fn assignments_view(s: Seq<Assignment>) -> Seq<AssignmentView> {
    s.map_values(|a: Assignment| a@)
}

impl View for WorkerEvent {
    type V = WorkerEventView;

    open spec fn view(&self) -> WorkerEventView {
        match self {
            WorkerEvent::Assigned(v) => WorkerEventView::Assigned(assignments_view(v@)),
            WorkerEvent::Rested => WorkerEventView::Rested,
            WorkerEvent::Executed(r) => WorkerEventView::Executed(*r),
            WorkerEvent::Submitted => WorkerEventView::Submitted,
            WorkerEvent::Failed => WorkerEventView::Failed,
        }
    }
}

impl View for WorkerAction {
    type V = WorkerActionView;

    open spec fn view(&self) -> WorkerActionView {
        match self {
            WorkerAction::Poll => WorkerActionView::Poll,
            WorkerAction::Sleep(s) => WorkerActionView::Sleep(*s),
            WorkerAction::Execute(a) => WorkerActionView::Execute(a@),
            WorkerAction::Submit(r) => WorkerActionView::Submit(*r),
            WorkerAction::Stop => WorkerActionView::Stop,
        }
    }
}

pub struct LoopView {
    pub phase: LoopPhase,
    pub pending: Seq<AssignmentView>,
    pub next: int,
}

/// A loop that waits for the answer to its poll, with nothing pending.
pub open spec fn polling_loop() -> LoopView {
    LoopView { phase: LoopPhase::Polling, pending: Seq::empty(), next: 0 }
}

/// A stopped loop and its last action.
pub open spec fn stopped_loop() -> (LoopView, WorkerActionView) {
    (LoopView { phase: LoopPhase::Stopped, pending: Seq::empty(), next: 0 }, WorkerActionView::Stop)
}

/// One step of the loop: from where it stands and what happened, where it
/// goes and what it asks for. A poll that brings nothing leads to the idle
/// backoff; otherwise the assignments are executed one after another, each
/// result submitted before the next assignment runs, and a poll follows
/// the last submission. A failure, or an event that does not fit the phase,
/// stops the loop.
pub open spec fn loop_step(s: LoopView, e: WorkerEventView) -> (LoopView, WorkerActionView) {
    match s.phase {
        LoopPhase::Polling => match e {
            WorkerEventView::Assigned(batch) => if batch.len() == 0 {
                (
                    LoopView { phase: LoopPhase::Resting, pending: Seq::empty(), next: 0 },
                    WorkerActionView::Sleep(IDLE_BACKOFF_SECS),
                )
            } else {
                (
                    LoopView { phase: LoopPhase::Executing, pending: batch, next: 0 },
                    WorkerActionView::Execute(batch[0]),
                )
            },
            _ => stopped_loop(),
        },
        LoopPhase::Resting => match e {
            WorkerEventView::Rested => (polling_loop(), WorkerActionView::Poll),
            _ => stopped_loop(),
        },
        LoopPhase::Executing => match e {
            WorkerEventView::Executed(result) => (
                LoopView { phase: LoopPhase::Submitting, ..s },
                WorkerActionView::Submit(result),
            ),
            _ => stopped_loop(),
        },
        LoopPhase::Submitting => match e {
            WorkerEventView::Submitted => if s.next + 1 < s.pending.len() {
                (
                    LoopView { phase: LoopPhase::Executing, next: s.next + 1, ..s },
                    WorkerActionView::Execute(s.pending[s.next + 1]),
                )
            } else {
                (polling_loop(), WorkerActionView::Poll)
            },
            _ => stopped_loop(),
        },
        LoopPhase::Stopped => stopped_loop(),
    }
}

/// The decisions of a worker's polling loop. Its runner performs each
/// action and reports what happened; a new loop has just polled, so the
/// runner's first act is a poll.
pub struct WorkerLoop {
    phase: LoopPhase,
    pending: Vec<Assignment>,
    next: usize,
}

impl View for WorkerLoop {
    type V = LoopView;

    closed spec fn view(&self) -> LoopView {
        LoopView {
            phase: self.phase,
            pending: assignments_view(self.pending@),
            next: self.next as int,
        }
    }
}

impl WorkerLoop {
    pub fn new() -> (r: WorkerLoop)
        ensures
            r@ == polling_loop(),
    {
        let r = WorkerLoop { phase: LoopPhase::Polling, pending: Vec::new(), next: 0 };
        assert(r@.pending =~= Seq::<AssignmentView>::empty());
        r
    }

    /// Where the loop stands.
    pub fn phase(&self) -> (r: LoopPhase)
        ensures
            r == self@.phase,
    {
        self.phase
    }

    fn stop(&mut self) -> (r: WorkerAction)
        ensures
            (final(self)@, r@) == stopped_loop(),
    {
        self.phase = LoopPhase::Stopped;
        self.pending = Vec::new();
        self.next = 0;
        assert(self@.pending =~= Seq::<AssignmentView>::empty());
        WorkerAction::Stop
    }

    /// Takes what happened and gives the next action.
    pub fn step(&mut self, event: WorkerEvent) -> (r: WorkerAction)
        ensures
            (final(self)@, r@) == loop_step(old(self)@, event@),
    {
        match self.phase {
            LoopPhase::Polling => match event {
                WorkerEvent::Assigned(batch) => {
                    if batch.len() == 0 {
                        self.phase = LoopPhase::Resting;
                        self.pending = batch;
                        self.next = 0;
                        assert(self@.pending =~= Seq::<AssignmentView>::empty());
                        WorkerAction::Sleep(IDLE_BACKOFF_SECS)
                    } else {
                        let first = batch[0].duplicate();
                        self.phase = LoopPhase::Executing;
                        self.pending = batch;
                        self.next = 0;
                        WorkerAction::Execute(first)
                    }
                },
                _ => self.stop(),
            },
            LoopPhase::Resting => match event {
                WorkerEvent::Rested => {
                    self.phase = LoopPhase::Polling;
                    self.pending = Vec::new();
                    self.next = 0;
                    assert(self@.pending =~= Seq::<AssignmentView>::empty());
                    WorkerAction::Poll
                },
                _ => self.stop(),
            },
            LoopPhase::Executing => match event {
                WorkerEvent::Executed(result) => {
                    self.phase = LoopPhase::Submitting;
                    WorkerAction::Submit(result)
                },
                _ => self.stop(),
            },
            LoopPhase::Submitting => match event {
                WorkerEvent::Submitted => {
                    if self.next < self.pending.len() && self.pending.len() - self.next > 1 {
                        self.next = self.next + 1;
                        self.phase = LoopPhase::Executing;
                        WorkerAction::Execute(self.pending[self.next].duplicate())
                    } else {
                        self.phase = LoopPhase::Polling;
                        self.pending = Vec::new();
                        self.next = 0;
                        assert(self@.pending =~= Seq::<AssignmentView>::empty());
                        WorkerAction::Poll
                    }
                },
                _ => self.stop(),
            },
            LoopPhase::Stopped => self.stop(),
        }
    }
}

/// Idle backoff: when a poll brings no assignment, the loop sleeps at least
/// a minute; whatever happens next, it submits nothing, and it polls again
/// only once that sleep is over.
pub proof fn idle_backoff(s: LoopView, e: WorkerEventView)
    requires
        s.phase == LoopPhase::Polling,
    ensures
        ({
            let (resting, wait) = loop_step(s, WorkerEventView::Assigned(Seq::empty()));
            let after = loop_step(resting, e).1;
            &&& wait matches WorkerActionView::Sleep(secs) && secs >= 60
            &&& after !is Submit
            &&& after is Poll ==> e is Rested
        }),
{
}

/// Each result is submitted exactly once, before anything else runs: a
/// finished assignment leads to the submission of its result, and whatever
/// happens next, the loop does not submit again; it runs another assignment
/// only once the coordinator has taken that result.
pub proof fn submit_once_per_execution(s: LoopView, result: AssignmentResult, e: WorkerEventView)
    requires
        s.phase == LoopPhase::Executing,
    ensures
        ({
            let (submitting, act) = loop_step(s, WorkerEventView::Executed(result));
            let after = loop_step(submitting, e).1;
            &&& act == WorkerActionView::Submit(result)
            &&& after !is Submit
            &&& after is Execute ==> e is Submitted
        }),
{
}

/// A worker: its number, its own copy of the compatible projects and of the
/// validated platform identifiers, in the caller's order of preference.
pub struct WorkerThread {
    pub id: i32,
    pub projects: Vec<Project>,
    pub platform_ids: Vec<i64>,
}

/// The views of a list of projects.
pub open spec fn projects_view(s: Seq<Project>) -> Seq<ProjectView> {
    s.map_values(|p: Project| p@)
}

impl WorkerThread {
    /// A worker with its own copies of the project list and of the
    /// platform identifiers.
    pub fn new(id: i32, projects: &Vec<Project>, platform_ids: &Vec<i64>) -> (r: WorkerThread)
        ensures
            r.id == id,
            projects_view(r.projects@) == projects_view(projects@),
            r.platform_ids@ == platform_ids@,
    {
        let mut own_projects: Vec<Project> = Vec::new();
        let mut i: usize = 0;
        while i < projects.len()
            invariant
                i <= projects@.len(),
                own_projects@.len() == i,
                forall|k: int| 0 <= k < i ==> own_projects@[k]@ == #[trigger] projects@[k]@,
            decreases projects.len() - i,
        {
            own_projects.push(projects[i].duplicate());
            i = i + 1;
        }
        assert(projects_view(own_projects@) =~= projects_view(projects@));
        let mut own_ids: Vec<i64> = Vec::new();
        let mut j: usize = 0;
        while j < platform_ids.len()
            invariant
                j <= platform_ids@.len(),
                own_ids@ == platform_ids@.subrange(0, j as int),
            decreases platform_ids.len() - j,
        {
            own_ids.push(platform_ids[j]);
            j = j + 1;
            assert(own_ids@ =~= platform_ids@.subrange(0, j as int));
        }
        assert(own_ids@ =~= platform_ids@);
        WorkerThread { id, projects: own_projects, platform_ids: own_ids }
    }
}

} // verus!
