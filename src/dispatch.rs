//! The build of one trigger: the build row, the registration of each
//! function, one task per function, and the aggregate result.
use vstd::prelude::*;
use crate::container::{Identity, Limits};
use crate::ledger::{
    build_row, create_build_record, ensure_function_registered, names_view, registration_key,
    registration_row, row_view, Table, WriteRequest,
};
use crate::manifest::{BuildManifest, NurBuild, NurFunction};
use crate::outcome::{status_of, BuildOutcome, FunctionBuildResult};
use crate::task::{initial, next, Event, FunctionTask, Step, TaskContext};
use crate::template::{lower_of, template_named};

verus! {

/// Commit metadata of the trigger.
pub struct BuildJob {
    pub repo_id: u64,
    pub commit_sha: String,
    pub branch: String,
    pub commit_message: String,
}

/// What every task of a build shares.
pub struct Settings {
    pub work_root: String,
    pub builds_dir: String,
    pub bucket: String,
    pub project_id: String,
    pub identity: Identity,
    pub limits: Limits,
}

/// The one build row of a trigger, written before any task starts.
pub fn build_record(job: &BuildJob, project_id: &str) -> (r: WriteRequest)
    ensures
        r.table == Table::ProjectBuilds,
        row_view(r.row@) == build_row(project_id@, job.commit_sha@, job.branch@, job.commit_message@),
        r.conflict@.len() == 0,
        r.returns_id,
{
    create_build_record(project_id, job.commit_sha.as_str(), job.branch.as_str(), job.commit_message.as_str())
}

/// The registration of each function of the manifest, in manifest order.
pub fn registrations(manifest: &BuildManifest, project_id: &str) -> (r: Vec<WriteRequest>)
    ensures
        r@.len() == manifest.functions@.len(),
        forall|i: int|
            0 <= i < r@.len() ==> (#[trigger] r@[i]).table == Table::Functions && row_view(r@[i].row@)
                == registration_row(project_id@, manifest.functions@[i].name@) && names_view(
                r@[i].conflict@,
            ) == registration_key(),
{
    let mut out: Vec<WriteRequest> = Vec::new();
    let mut i: usize = 0;
    while i < manifest.functions.len()
        invariant
            0 <= i <= manifest.functions@.len(),
            out@.len() == i,
            forall|k: int|
                0 <= k < i ==> (#[trigger] out@[k]).table == Table::Functions && row_view(out@[k].row@)
                    == registration_row(project_id@, manifest.functions@[k].name@) && names_view(
                    out@[k].conflict@,
                ) == registration_key(),
        decreases manifest.functions@.len() - i,
    {
        out.push(ensure_function_registered(project_id, manifest.functions[i].name.as_str()));
        i = i + 1;
    }
    out
}

fn copy_function(f: &NurFunction) -> (r: NurFunction)
    ensures
        r == *f,
{
    NurFunction {
        name: f.name.clone(),
        directory: f.directory.clone(),
        template: f.template.clone(),
        build: NurBuild { command: f.build.command.clone(), output: f.build.output.clone() },
    }
}

fn copy_opt(o: &Option<String>) -> (r: Option<String>)
    ensures
        r == *o,
{
    match o {
        Some(s) => Some(s.clone()),
        None => None,
    }
}

fn context_for(settings: &Settings, build_id: &Option<String>) -> (r: TaskContext)
    ensures
        r.work_root == settings.work_root,
        r.builds_dir == settings.builds_dir,
        r.bucket == settings.bucket,
        r.project_id == settings.project_id,
        r.build_id == *build_id,
        r.identity == settings.identity,
        r.limits == settings.limits,
{
    TaskContext {
        work_root: settings.work_root.clone(),
        builds_dir: settings.builds_dir.clone(),
        bucket: settings.bucket.clone(),
        project_id: settings.project_id.clone(),
        build_id: copy_opt(build_id),
        identity: settings.identity,
        limits: settings.limits,
    }
}

/// The tasks of one build, one per function, in manifest order.
pub struct Dispatch {
    tasks: Vec<FunctionTask>,
}

impl Dispatch {
    pub closed spec fn tasks(&self) -> Seq<FunctionTask> {
        self.tasks@
    }

    pub open spec fn wf(&self) -> bool {
        forall|i: int| 0 <= i < self.tasks().len() ==> (#[trigger] self.tasks()[i]).wf()
    }

    /// Every task has finished.
    pub open spec fn finished(&self) -> bool {
        forall|i: int| 0 <= i < self.tasks().len() ==> (#[trigger] self.tasks()[i])@.step == Step::Finished
    }

    /// One new task per function of a validated manifest, all referring to
    /// the same build row, if there is one.
    pub fn new(manifest: &BuildManifest, settings: &Settings, build_id: Option<String>) -> (r: Dispatch)
        requires
            manifest.wf(),
            settings.identity.wf(),
        ensures
            r.wf(),
            r.tasks().len() == manifest.functions@.len(),
            forall|i: int|
                0 <= i < r.tasks().len() ==> {
                    let t = #[trigger] r.tasks()[i];
                    &&& t.function() == manifest.functions@[i]
                    &&& t.context().build_id == build_id
                    &&& t.context().project_id == settings.project_id
                    &&& t.context().work_root == settings.work_root
                    &&& t.context().builds_dir == settings.builds_dir
                    &&& t.context().bucket == settings.bucket
                    &&& t.context().identity == settings.identity
                    &&& t.context().limits == settings.limits
                    &&& t@ == initial(
                        template_named(lower_of(manifest.functions@[i].template@)),
                        settings.limits.tolerate_first_run_exit,
                    )
                },
    {
        let mut tasks: Vec<FunctionTask> = Vec::new();
        let mut i: usize = 0;
        while i < manifest.functions.len()
            invariant
                0 <= i <= manifest.functions@.len(),
                settings.identity.wf(),
                tasks@.len() == i,
                forall|k: int|
                    0 <= k < i ==> {
                        let t = #[trigger] tasks@[k];
                        &&& t.wf()
                        &&& t.function() == manifest.functions@[k]
                        &&& t.context().build_id == build_id
                        &&& t.context().project_id == settings.project_id
                        &&& t.context().work_root == settings.work_root
                        &&& t.context().builds_dir == settings.builds_dir
                        &&& t.context().bucket == settings.bucket
                        &&& t.context().identity == settings.identity
                        &&& t.context().limits == settings.limits
                        &&& t@ == initial(
                            template_named(lower_of(manifest.functions@[k].template@)),
                            settings.limits.tolerate_first_run_exit,
                        )
                    },
            decreases manifest.functions@.len() - i,
        {
            let func = copy_function(&manifest.functions[i]);
            let ctx = context_for(settings, &build_id);
            tasks.push(FunctionTask::new(func, ctx));
            i = i + 1;
        }
        Dispatch { tasks }
    }

    pub fn len(&self) -> (r: usize)
        ensures
            r == self.tasks().len(),
    {
        self.tasks.len()
    }

    /// The `i`-th task.
    pub fn task(&self, i: usize) -> (r: &FunctionTask)
        requires
            i < self.tasks().len(),
        ensures
            *r == self.tasks()[i as int],
    {
        &self.tasks[i]
    }

    /// Moves the `i`-th task on. The other tasks are left exactly as they
    /// were: a task's failure or timeout never reaches its siblings.
    pub fn step(&mut self, i: usize, event: Event) -> (r: Step)
        requires
            old(self).wf(),
            i < old(self).tasks().len(),
            old(self).tasks()[i as int]@.step != Step::Finished,
        ensures
            final(self).wf(),
            final(self).tasks().len() == old(self).tasks().len(),
            forall|j: int|
                0 <= j < old(self).tasks().len() && j != i ==> #[trigger] final(self).tasks()[j]
                    == old(self).tasks()[j],
            final(self).tasks()[i as int]@ == next(old(self).tasks()[i as int]@, event@),
            final(self).tasks()[i as int].function() == old(self).tasks()[i as int].function(),
            final(self).tasks()[i as int].context() == old(self).tasks()[i as int].context(),
            r == final(self).tasks()[i as int]@.step,
    {
        let mut t = self.tasks.remove(i);
        let r = t.step(event);
        self.tasks.insert(i, t);
        proof {
            assert forall|j: int| 0 <= j < self.tasks().len() implies (#[trigger] self.tasks()[j]).wf() by {
                if j != i {
                    assert(self.tasks()[j] == old(self).tasks()[j]);
                }
            }
        }
        r
    }

    /// Hands the tasks out, in manifest order, to be driven independently.
    pub fn into_tasks(self) -> (r: Vec<FunctionTask>)
        ensures
            r@ == self.tasks(),
    {
        self.tasks
    }

    /// Whether every task has finished.
    pub fn is_finished(&self) -> (r: bool)
        ensures
            r == self.finished(),
    {
        let mut i: usize = 0;
        while i < self.tasks.len()
            invariant
                0 <= i <= self.tasks().len(),
                forall|k: int| 0 <= k < i ==> (#[trigger] self.tasks()[k])@.step == Step::Finished,
            decreases self.tasks().len() - i,
        {
            if self.tasks[i].current() != Step::Finished {
                return false;
            }
            i = i + 1;
        }
        true
    }

    /// The aggregate result of a finished build: one result per function, in
    /// manifest order, and the overall status they give.
    pub fn outcome(&self) -> (r: BuildOutcome)
        requires
            self.wf(),
            self.finished(),
        ensures
            r.results@.len() == self.tasks().len(),
            forall|i: int|
                0 <= i < r.results@.len() ==> {
                    let res = #[trigger] r.results@[i];
                    &&& res.function_name@ == self.tasks()[i].function().name@
                    &&& self.tasks()[i]@.outcome == Some(res.outcome)
                },
            r.overall_status == status_of(r.results@),
    {
        let mut results: Vec<FunctionBuildResult> = Vec::new();
        let mut i: usize = 0;
        while i < self.tasks.len()
            invariant
                self.wf(),
                self.finished(),
                0 <= i <= self.tasks().len(),
                results@.len() == i,
                forall|k: int|
                    0 <= k < i ==> {
                        let res = #[trigger] results@[k];
                        &&& res.function_name@ == self.tasks()[k].function().name@
                        &&& self.tasks()[k]@.outcome == Some(res.outcome)
                    },
            decreases self.tasks().len() - i,
        {
            results.push(self.tasks[i].result());
            i = i + 1;
        }
        BuildOutcome::from_results(results)
    }
}

} // verus!
