//! One function's build, from container to deployment record, as a state
//! machine.
//!
//! The task never performs an effect itself. Its current [`Step`] names the
//! effect the caller performs next (create a container, upload an artifact,
//! ...); the caller reports how it went as an [`Event`], and [`FunctionTask::step`]
//! decides what comes next. Every step is taken at most once, in a fixed
//! order, so a task always ends, and a created container is always removed
//! before the task goes on past the build.
use vstd::prelude::*;
use crate::artifact::{
    compress_artifact, compressed_name, compressed_path, output_path, output_path_of, remote_key,
    remote_key_of, staged_name, staged_path, zstd_encode_result, COMPRESSION_LEVEL,
};
use crate::container::{
    classify_exit, exit_verdict, plan_container, planned, ContainerPlan, Identity, Limits,
};
use crate::ledger::{
    deployment_row, lookup_function_id, opt_view, record_deployment, registration_row, row_view, DeployStatus,
    ReadRequest, Table, WriteRequest,
};
use crate::manifest::NurFunction;
use crate::outcome::{ContainerError, FailureReason, FunctionBuildResult, LedgerError, Outcome};
use crate::template::{lower_of, template_named, Template};
use crate::text::join_path;

verus! {

/// The effect a task waits for, in the order in which they can occur.
#[derive(Clone, Copy, Debug, PartialEq, Eq, Structural)]
pub enum Step {
    /// Create the build container ([`FunctionTask::container_plan`]).
    CreateContainer,
    /// Start the created container.
    StartContainer,
    /// Run the build command in the container and report its exit code.
    RunCommand,
    /// Remove the container; how it went does not matter.
    RemoveContainer,
    /// Report whether the build output exists.
    CheckOutput,
    /// Copy the build output to the staged path.
    CopyArtifact,
    /// Read the staged copy and report its bytes.
    ReadArtifact,
    /// Write the compressed bytes to the compressed path.
    WriteArtifact,
    /// Remove the staged copy; how it went does not matter.
    RemoveStaged,
    /// Look up the function's identifier in the metadata store.
    LookupFunction,
    /// Upload the compressed artifact under the artifact key.
    Upload,
    /// Write the deployment row; how it went does not matter.
    RecordDeployment,
    /// Nothing is left to do; the result is ready.
    Finished,
}

/// How the effect of the current step went.
pub enum Event {
    /// The effect completed.
    Done,
    /// The effect failed (an output that is absent, for [`Step::CheckOutput`]).
    Failed,
    /// The wall-clock bound of the container run expired.
    TimedOut,
    ContainerCreated(String),
    /// The build command finished, with the exit code if the runtime gave one.
    CommandExited(Option<i64>),
    ArtifactRead(Vec<u8>),
    FunctionFound(String),
}

/// An event as the model sees it.
pub enum Signal {
    Done,
    Failed,
    TimedOut,
    ContainerCreated(Seq<char>),
    CommandExited(Option<i64>),
    ArtifactRead(Seq<u8>),
    FunctionFound(Seq<char>),
}

impl View for Event {
    type V = Signal;

    open spec fn view(&self) -> Signal {
        match self {
            Event::Done => Signal::Done,
            Event::Failed => Signal::Failed,
            Event::TimedOut => Signal::TimedOut,
            Event::ContainerCreated(id) => Signal::ContainerCreated(id@),
            Event::CommandExited(c) => Signal::CommandExited(*c),
            Event::ArtifactRead(b) => Signal::ArtifactRead(b@),
            Event::FunctionFound(id) => Signal::FunctionFound(id@),
        }
    }
}

/// The model of a task.
pub struct TaskState {
    pub step: Step,
    /// The container, while it exists.
    pub container: Option<Seq<char>>,
    /// The outcome, once it is decided; it never changes afterwards.
    pub outcome: Option<Outcome>,
    pub function_id: Option<Seq<char>>,
    /// The compressed artifact, until it is written.
    pub compressed: Option<Seq<u8>>,
    pub tolerate_first_run_exit: bool,
}

/// Position of a step in the order of steps.
pub open spec fn rank(s: Step) -> int {
    match s {
        Step::CreateContainer => 0,
        Step::StartContainer => 1,
        Step::RunCommand => 2,
        Step::RemoveContainer => 3,
        Step::CheckOutput => 4,
        Step::CopyArtifact => 5,
        Step::ReadArtifact => 6,
        Step::WriteArtifact => 7,
        Step::RemoveStaged => 8,
        Step::LookupFunction => 9,
        Step::Upload => 10,
        Step::RecordDeployment => 11,
        Step::Finished => 12,
    }
}

pub open spec fn holds_container(s: Step) -> bool {
    s == Step::StartContainer || s == Step::RunCommand || s == Step::RemoveContainer
}

/// Consistency of a task's model.
pub open spec fn consistent(s: TaskState) -> bool {
    &&& s.container is Some <==> holds_container(s.step)
    &&& s.outcome is Some ==> s.step == Step::RemoveContainer || s.step == Step::RemoveStaged
        || s.step == Step::LookupFunction || rank(s.step) >= rank(Step::RecordDeployment)
    &&& s.function_id is Some ==> rank(s.step) >= rank(Step::Upload)
    &&& s.step == Step::WriteArtifact ==> s.compressed is Some
    &&& s.step == Step::Upload ==> s.function_id is Some
    &&& s.step == Step::RecordDeployment ==> s.function_id is Some && s.outcome is Some
    &&& s.step == Step::Finished ==> s.outcome is Some
    &&& s.outcome == Some(Outcome::Succeeded) ==> s.function_id is Some
}

/// Status of the deployment row of an outcome.
pub open spec fn deploy_status_of(o: Outcome) -> DeployStatus {
    if o == Outcome::Succeeded {
        DeployStatus::Success
    } else {
        DeployStatus::Failure
    }
}

/// Where a task goes once its outcome is decided: to the deployment row,
/// looking up the function first if needed.
pub open spec fn route(s: TaskState) -> Step {
    if s.function_id is Some {
        Step::RecordDeployment
    } else {
        Step::LookupFunction
    }
}

/// Fails the artifact pipeline for `reason`, removing the staged copy next.
pub open spec fn unstage(s: TaskState, reason: FailureReason) -> TaskState {
    TaskState { step: Step::RemoveStaged, outcome: Some(Outcome::Failed(reason)), ..s }
}

/// Decides the outcome `o` and routes on.
pub open spec fn settle(s: TaskState, o: Outcome) -> TaskState {
    let t = TaskState { outcome: Some(o), ..s };
    TaskState { step: route(t), ..t }
}

/// The model of a new task; `template` is the template the function names.
pub open spec fn initial(template: Option<Template>, tolerate: bool) -> TaskState {
    let s = TaskState {
        step: Step::CreateContainer,
        container: None,
        outcome: None,
        function_id: None,
        compressed: None,
        tolerate_first_run_exit: tolerate,
    };
    if template is Some {
        s
    } else {
        settle(s, Outcome::Failed(FailureReason::UnsupportedTemplate))
    }
}

/// What a task becomes when the effect of its current step went as `e`.
/// An artifact read is compressed on the way. Once the build output has been
/// copied, every path goes through [`Step::RemoveStaged`].
pub open spec fn next(s: TaskState, e: Signal) -> TaskState {
    match s.step {
        Step::CreateContainer => match e {
            Signal::ContainerCreated(id) => TaskState {
                step: Step::StartContainer,
                container: Some(id),
                ..s
            },
            Signal::TimedOut => settle(s, Outcome::TimedOut),
            _ => settle(s, Outcome::Failed(FailureReason::Container(ContainerError::CreateFailed))),
        },
        Step::StartContainer => match e {
            Signal::Done => TaskState { step: Step::RunCommand, ..s },
            Signal::TimedOut => TaskState {
                step: Step::RemoveContainer,
                outcome: Some(Outcome::TimedOut),
                ..s
            },
            _ => TaskState {
                step: Step::RemoveContainer,
                outcome: Some(Outcome::Failed(FailureReason::Container(ContainerError::StartFailed))),
                ..s
            },
        },
        Step::RunCommand => match e {
            Signal::CommandExited(code) => TaskState {
                step: Step::RemoveContainer,
                outcome: match exit_verdict(code, s.tolerate_first_run_exit) {
                    None => None,
                    Some(reason) => Some(Outcome::Failed(reason)),
                },
                ..s
            },
            Signal::TimedOut => TaskState {
                step: Step::RemoveContainer,
                outcome: Some(Outcome::TimedOut),
                ..s
            },
            _ => TaskState {
                step: Step::RemoveContainer,
                outcome: Some(Outcome::Failed(FailureReason::Container(ContainerError::ExecFailed))),
                ..s
            },
        },
        Step::RemoveContainer => {
            let t = TaskState { container: None, ..s };
            if s.outcome is Some {
                TaskState { step: route(t), ..t }
            } else {
                TaskState { step: Step::CheckOutput, ..t }
            }
        },
        Step::CheckOutput => match e {
            Signal::Done => TaskState { step: Step::CopyArtifact, ..s },
            _ => settle(s, Outcome::Failed(FailureReason::OutputMissing)),
        },
        Step::CopyArtifact => match e {
            Signal::Done => TaskState { step: Step::ReadArtifact, ..s },
            _ => unstage(s, FailureReason::CopyFailed),
        },
        Step::ReadArtifact => match e {
            Signal::ArtifactRead(bytes) => match zstd_encode_result(bytes, COMPRESSION_LEVEL as int) {
                Some(z) => TaskState { step: Step::WriteArtifact, compressed: Some(z), ..s },
                None => unstage(s, FailureReason::CompressionError),
            },
            _ => unstage(s, FailureReason::CompressionError),
        },
        Step::WriteArtifact => match e {
            Signal::Done => TaskState { step: Step::RemoveStaged, compressed: None, ..s },
            _ => unstage(TaskState { compressed: None, ..s }, FailureReason::CompressionError),
        },
        Step::RemoveStaged => if s.outcome is Some {
            TaskState { step: route(s), ..s }
        } else {
            TaskState { step: Step::LookupFunction, ..s }
        },
        Step::LookupFunction => match e {
            Signal::FunctionFound(id) => if s.outcome is None {
                TaskState { step: Step::Upload, function_id: Some(id), ..s }
            } else {
                TaskState { step: Step::RecordDeployment, function_id: Some(id), ..s }
            },
            _ => if s.outcome is None {
                TaskState {
                    step: Step::Finished,
                    outcome: Some(Outcome::Failed(FailureReason::Ledger(LedgerError::LookupFailed))),
                    ..s
                }
            } else {
                TaskState { step: Step::Finished, ..s }
            },
        },
        Step::Upload => {
            let o = match e {
                Signal::Done => Outcome::Succeeded,
                _ => Outcome::Failed(FailureReason::UploadError),
            };
            settle(s, o)
        },
        Step::RecordDeployment => TaskState { step: Step::Finished, ..s },
        Step::Finished => s,
    }
}

/// A move of an unfinished task on `e`.
pub open spec fn transition(s: TaskState, e: Signal, t: TaskState) -> bool {
    s.step != Step::Finished && t == next(s, e)
}

/// Where a running task stands, what it runs with, and what it has found out.
pub struct TaskContext {
    /// Host path of the cloned working tree.
    pub work_root: String,
    /// Host directory the artifacts are staged and compressed in.
    pub builds_dir: String,
    pub bucket: String,
    pub project_id: String,
    /// The build row of this trigger, if it could be created.
    pub build_id: Option<String>,
    pub identity: Identity,
    pub limits: Limits,
}

/// One function's build and deployment.
pub struct FunctionTask {
    func: NurFunction,
    template: Option<Template>,
    ctx: TaskContext,
    step: Step,
    container: Option<String>,
    outcome: Option<Outcome>,
    function_id: Option<String>,
    compressed: Option<Vec<u8>>,
}

impl View for FunctionTask {
    type V = TaskState;

    closed spec fn view(&self) -> TaskState {
        TaskState {
            step: self.step,
            container: opt_view(self.container),
            outcome: self.outcome,
            function_id: opt_view(self.function_id),
            compressed: match self.compressed {
                Some(b) => Some(b@),
                None => None,
            },
            tolerate_first_run_exit: self.ctx.limits.tolerate_first_run_exit,
        }
    }
}

impl FunctionTask {
    /// The function under build.
    pub closed spec fn function(&self) -> NurFunction {
        self.func
    }

    pub closed spec fn context(&self) -> TaskContext {
        self.ctx
    }

    pub closed spec fn wf(&self) -> bool {
        &&& consistent(self@)
        &&& self.template == template_named(lower_of(self.func.template@))
        &&& self.step == Step::CreateContainer ==> self.template is Some
        &&& self.ctx.identity.wf()
    }

    /// A task for `func`. A template that names no builder image fails the
    /// task at once, before any container exists.
    pub fn new(func: NurFunction, ctx: TaskContext) -> (r: FunctionTask)
        requires
            ctx.identity.wf(),
        ensures
            r.wf(),
            r.function() == func,
            r.context() == ctx,
            r@ == initial(template_named(lower_of(func.template@)), ctx.limits.tolerate_first_run_exit),
    {
        let template = Template::parse(func.template.as_str());
        let mut task = FunctionTask {
            func,
            template,
            ctx,
            step: Step::CreateContainer,
            container: None,
            outcome: None,
            function_id: None,
            compressed: None,
        };
        if template.is_none() {
            task.outcome = Some(Outcome::Failed(FailureReason::UnsupportedTemplate));
            task.step = task.route();
        }
        task
    }

    fn route(&self) -> (r: Step)
        ensures
            r == route(self@),
    {
        if self.function_id.is_some() {
            Step::RecordDeployment
        } else {
            Step::LookupFunction
        }
    }

    /// The effect awaited next.
    pub fn current(&self) -> (r: Step)
        ensures
            r == self@.step,
    {
        self.step
    }

    /// The container to create, for [`Step::CreateContainer`].
    pub fn container_plan(&self) -> (r: ContainerPlan)
        requires
            self.wf(),
            self@.step == Step::CreateContainer,
        ensures
            template_named(lower_of(self.function().template@)) matches Some(t) && planned(
                r,
                self.function(),
                t,
                self.context().work_root@,
                self.context().identity,
                self.context().limits,
            ),
    {
        let template = self.template.unwrap();
        plan_container(&self.func, template, self.ctx.work_root.as_str(), self.ctx.identity, self.ctx.limits)
    }

    /// The container of the task, while it exists.
    pub fn container_id(&self) -> (r: &String)
        requires
            self.wf(),
            holds_container(self@.step),
        ensures
            self@.container == Some(r@),
    {
        self.container.as_ref().unwrap()
    }

    /// Where the build output is expected.
    pub fn output_path(&self) -> (r: String)
        ensures
            r@ == output_path_of(
                self.context().work_root@,
                self.function().directory@,
                self.function().build.output@,
            ),
    {
        output_path(self.ctx.work_root.as_str(), self.func.directory.as_str(), self.func.build.output.as_str())
    }

    /// Where the build output is copied to.
    pub fn staged_path(&self) -> (r: String)
        ensures
            r@ == join_path(self.context().builds_dir@, staged_name(self.function().name@)),
    {
        staged_path(self.ctx.builds_dir.as_str(), self.func.name.as_str())
    }

    /// Where the compressed artifact is written.
    pub fn compressed_path(&self) -> (r: String)
        ensures
            r@ == join_path(self.context().builds_dir@, compressed_name(self.function().name@)),
    {
        compressed_path(self.ctx.builds_dir.as_str(), self.func.name.as_str())
    }

    /// The compressed artifact, for [`Step::WriteArtifact`].
    pub fn compressed_bytes(&self) -> (r: &Vec<u8>)
        requires
            self.wf(),
            self@.step == Step::WriteArtifact,
        ensures
            self@.compressed == Some(r@),
    {
        self.compressed.as_ref().unwrap()
    }

    /// The read of the function's identifier, for [`Step::LookupFunction`].
    pub fn lookup_request(&self) -> (r: ReadRequest)
        ensures
            r.table == Table::Functions,
            row_view(r.filters@) == registration_row(self.context().project_id@, self.function().name@),
            !r.newest_first,
            r.limit == 1,
    {
        lookup_function_id(self.ctx.project_id.as_str(), self.func.name.as_str())
    }

    /// The storage key of the artifact, for [`Step::Upload`].
    pub fn upload_key(&self) -> (r: String)
        requires
            self.wf(),
            self@.step == Step::Upload,
        ensures
            self@.function_id matches Some(id) && r@ == remote_key_of(id),
    {
        remote_key(self.function_id.as_ref().unwrap().as_str())
    }

    /// The deployment row, for [`Step::RecordDeployment`]; it refers to the
    /// build row when there is one.
    pub fn deployment_record(&self) -> (r: WriteRequest)
        requires
            self.wf(),
            self@.step == Step::RecordDeployment,
        ensures
            self@.function_id matches Some(fid) && self@.outcome matches Some(o) && row_view(r.row@)
                == deployment_row(fid, opt_view(self.context().build_id), deploy_status_of(o)),
            r.table == Table::FunctionDeployments,
            r.conflict@.len() == 0,
            !r.returns_id,
    {
        let status = match self.outcome {
            Some(Outcome::Succeeded) => DeployStatus::Success,
            _ => DeployStatus::Failure,
        };
        let fid = self.function_id.as_ref().unwrap();
        record_deployment(fid.as_str(), &self.ctx.build_id, status)
    }

    /// The result of a finished task. It carries the artifact key exactly
    /// when the function succeeded.
    pub fn result(&self) -> (r: FunctionBuildResult)
        requires
            self.wf(),
            self@.step == Step::Finished,
        ensures
            r.function_name@ == self.function().name@,
            self@.outcome == Some(r.outcome),
            r.artifact_key is Some <==> r.outcome == Outcome::Succeeded,
            r.artifact_key matches Some(k) ==> self@.function_id matches Some(id) && k@ == remote_key_of(id),
    {
        let outcome = self.outcome.unwrap();
        let artifact_key = match (outcome, &self.function_id) {
            (Outcome::Succeeded, Some(id)) => Some(remote_key(id.as_str())),
            _ => None,
        };
        FunctionBuildResult { function_name: self.func.name.clone(), outcome, artifact_key }
    }

    /// Moves the task on, given how the effect of its current step went.
    pub fn step(&mut self, event: Event) -> (r: Step)
        requires
            old(self).wf(),
            old(self)@.step != Step::Finished,
        ensures
            final(self).wf(),
            final(self)@ == next(old(self)@, event@),
            r == final(self)@.step,
            final(self).function() == old(self).function(),
            final(self).context() == old(self).context(),
    {
        let next = match self.step {
            Step::CreateContainer => match event {
                Event::ContainerCreated(id) => {
                    self.container = Some(id);
                    Step::StartContainer
                },
                Event::TimedOut => {
                    self.outcome = Some(Outcome::TimedOut);
                    self.route()
                },
                _ => {
                    self.outcome = Some(
                        Outcome::Failed(FailureReason::Container(ContainerError::CreateFailed)),
                    );
                    self.route()
                },
            },
            Step::StartContainer => match event {
                Event::Done => Step::RunCommand,
                Event::TimedOut => {
                    self.outcome = Some(Outcome::TimedOut);
                    Step::RemoveContainer
                },
                _ => {
                    self.outcome = Some(
                        Outcome::Failed(FailureReason::Container(ContainerError::StartFailed)),
                    );
                    Step::RemoveContainer
                },
            },
            Step::RunCommand => match event {
                Event::CommandExited(code) => {
                    self.outcome = match classify_exit(code, self.ctx.limits.tolerate_first_run_exit) {
                        None => None,
                        Some(reason) => Some(Outcome::Failed(reason)),
                    };
                    Step::RemoveContainer
                },
                Event::TimedOut => {
                    self.outcome = Some(Outcome::TimedOut);
                    Step::RemoveContainer
                },
                _ => {
                    self.outcome = Some(
                        Outcome::Failed(FailureReason::Container(ContainerError::ExecFailed)),
                    );
                    Step::RemoveContainer
                },
            },
            Step::RemoveContainer => {
                self.container = None;
                if self.outcome.is_some() {
                    self.route()
                } else {
                    Step::CheckOutput
                }
            },
            Step::CheckOutput => match event {
                Event::Done => Step::CopyArtifact,
                _ => {
                    self.outcome = Some(Outcome::Failed(FailureReason::OutputMissing));
                    self.route()
                },
            },
            Step::CopyArtifact => match event {
                Event::Done => Step::ReadArtifact,
                _ => {
                    self.outcome = Some(Outcome::Failed(FailureReason::CopyFailed));
                    Step::RemoveStaged
                },
            },
            Step::ReadArtifact => match event {
                Event::ArtifactRead(bytes) => match compress_artifact(&bytes) {
                    Some(z) => {
                        self.compressed = Some(z);
                        Step::WriteArtifact
                    },
                    None => {
                        self.outcome = Some(Outcome::Failed(FailureReason::CompressionError));
                        Step::RemoveStaged
                    },
                },
                _ => {
                    self.outcome = Some(Outcome::Failed(FailureReason::CompressionError));
                    Step::RemoveStaged
                },
            },
            Step::WriteArtifact => {
                self.compressed = None;
                match event {
                    Event::Done => {},
                    _ => {
                        self.outcome = Some(Outcome::Failed(FailureReason::CompressionError));
                    },
                }
                Step::RemoveStaged
            },
            Step::RemoveStaged => if self.outcome.is_some() {
                self.route()
            } else {
                Step::LookupFunction
            },
            Step::LookupFunction => match event {
                Event::FunctionFound(id) => {
                    self.function_id = Some(id);
                    if self.outcome.is_none() {
                        Step::Upload
                    } else {
                        Step::RecordDeployment
                    }
                },
                _ => {
                    if self.outcome.is_none() {
                        self.outcome = Some(
                            Outcome::Failed(FailureReason::Ledger(LedgerError::LookupFailed)),
                        );
                    }
                    Step::Finished
                },
            },
            Step::Upload => {
                self.outcome = match event {
                    Event::Done => Some(Outcome::Succeeded),
                    _ => Some(Outcome::Failed(FailureReason::UploadError)),
                };
                self.route()
            },
            Step::RecordDeployment => Step::Finished,
            Step::Finished => Step::Finished,
        };
        self.step = next;
        next
    }
}

} // verus!
