use nur::container::{Identity, Limits};
use nur::dispatch::{build_record, registrations, Dispatch, Settings, BuildJob};
use nur::ledger::Table;
use nur::manifest::{BuildManifest, ManifestError, NurBuild, NurFile, NurFunction};
use nur::outcome::{ContainerError, FailureReason, LedgerError, Outcome, OverallStatus};
use nur::task::{Event, FunctionTask, Step, TaskContext};

fn function(name: &str, template: &str, output: &str) -> NurFunction {
    NurFunction {
        name: name.to_string(),
        directory: format!("functions/{}", name),
        template: template.to_string(),
        build: NurBuild { command: "make".to_string(), output: output.to_string() },
    }
}

fn manifest(functions: Vec<NurFunction>) -> BuildManifest {
    match BuildManifest::load(NurFile { functions }) {
        Ok(m) => m,
        Err(e) => panic!("manifest rejected: {:?}", e),
    }
}

fn settings() -> Settings {
    Settings {
        work_root: "/tmp/nur-work".to_string(),
        builds_dir: "/tmp/nur-work/builds".to_string(),
        bucket: "artifacts".to_string(),
        project_id: "project-1".to_string(),
        identity: Identity::non_root(1000, 1000).unwrap(),
        limits: Limits::standard(600),
    }
}

fn context(build_id: Option<&str>) -> TaskContext {
    let s = settings();
    TaskContext {
        work_root: s.work_root,
        builds_dir: s.builds_dir,
        bucket: s.bucket,
        project_id: s.project_id,
        build_id: build_id.map(|b| b.to_string()),
        identity: s.identity,
        limits: s.limits,
    }
}

/// Drives task `i` through a build that exits with `code` and, if the exit
/// counts as success, through the whole artifact pipeline.
fn drive_success_path(d: &mut Dispatch, i: usize, code: i64, function_id: &str) -> Vec<Step> {
    let mut steps = vec![d.task(i).current()];
    steps.push(d.step(i, Event::ContainerCreated(format!("container-{}", i))));
    steps.push(d.step(i, Event::Done));
    steps.push(d.step(i, Event::CommandExited(Some(code))));
    loop {
        let event = match d.task(i).current() {
            Step::ReadArtifact => Event::ArtifactRead(vec![7u8; 64]),
            Step::LookupFunction => Event::FunctionFound(function_id.to_string()),
            Step::Finished => break,
            _ => Event::Done,
        };
        steps.push(d.step(i, event));
    }
    steps
}

fn removals(steps: &[Step]) -> usize {
    steps.iter().filter(|s| **s == Step::RemoveContainer).count()
}

#[test]
fn scenario_partial_failure() {
    let m = manifest(vec![function("a", "rust", "out/a.bin"), function("b", "node", "out/b.bin")]);
    let mut d = Dispatch::new(&m, &settings(), Some("build-1".to_string()));
    let a = drive_success_path(&mut d, 0, 0, "id_a");
    let b = drive_success_path(&mut d, 1, 1, "id_b");
    assert_eq!(removals(&a), 1);
    assert_eq!(removals(&b), 1);
    assert!(d.is_finished());
    let outcome = d.outcome();
    assert_eq!(outcome.overall_status, OverallStatus::PartialFailure);
    assert_eq!(outcome.results.len(), 2);
    assert_eq!(outcome.results[0].function_name, "a");
    assert_eq!(outcome.results[0].outcome, Outcome::Succeeded);
    assert_eq!(outcome.results[0].artifact_key.as_deref(), Some("builds/id_a.zst"));
    assert_eq!(outcome.results[1].function_name, "b");
    assert_eq!(outcome.results[1].outcome, Outcome::Failed(FailureReason::BuildFailure(1)));
    assert_eq!(outcome.results[1].artifact_key, None);
}

#[test]
fn scenario_unsupported_template() {
    let m = manifest(vec![function("py", "python", "out/p.bin"), function("go", "Go", "out/g.bin")]);
    let mut d = Dispatch::new(&m, &settings(), Some("build-1".to_string()));
    assert_eq!(d.task(0).current(), Step::LookupFunction);
    let mut steps = vec![d.task(0).current()];
    steps.push(d.step(0, Event::FunctionFound("id_py".to_string())));
    steps.push(d.step(0, Event::Done));
    assert!(!steps.contains(&Step::CreateContainer));
    assert_eq!(removals(&steps), 0);
    assert_eq!(d.task(1).current(), Step::CreateContainer);
    drive_success_path(&mut d, 1, 0, "id_go");
    let outcome = d.outcome();
    assert_eq!(outcome.results[0].outcome, Outcome::Failed(FailureReason::UnsupportedTemplate));
    assert_eq!(outcome.results[1].outcome, Outcome::Succeeded);
    assert_eq!(outcome.overall_status, OverallStatus::PartialFailure);
}

#[test]
fn scenario_first_run_exit_code_succeeds() {
    let m = manifest(vec![function("a", "rust", "out/a.bin")]);
    let mut d = Dispatch::new(&m, &settings(), None);
    let steps = drive_success_path(&mut d, 0, 137, "id_a");
    assert!(steps.contains(&Step::CheckOutput));
    let outcome = d.outcome();
    assert_eq!(outcome.results[0].outcome, Outcome::Succeeded);
    assert_eq!(outcome.overall_status, OverallStatus::Success);
}

#[test]
fn first_run_exit_code_fails_when_not_tolerated() {
    let mut limits = Limits::standard(600);
    limits.tolerate_first_run_exit = false;
    let mut ctx = context(None);
    ctx.limits = limits;
    let mut t = FunctionTask::new(function("a", "rust", "out/a.bin"), ctx);
    t.step(Event::ContainerCreated("c".to_string()));
    t.step(Event::Done);
    assert_eq!(t.step(Event::CommandExited(Some(137))), Step::RemoveContainer);
    assert_eq!(t.step(Event::Done), Step::LookupFunction);
    assert_eq!(t.step(Event::FunctionFound("f".to_string())), Step::RecordDeployment);
    assert_eq!(t.step(Event::Done), Step::Finished);
    assert_eq!(t.result().outcome, Outcome::Failed(FailureReason::BuildFailure(137)));
}

#[test]
fn timeout_affects_only_its_function() {
    let m = manifest(vec![function("slow", "rust", "out/s.bin"), function("fast", "go", "out/f.bin")]);
    let mut d = Dispatch::new(&m, &settings(), Some("build-2".to_string()));
    d.step(0, Event::ContainerCreated("c0".to_string()));
    d.step(0, Event::Done);
    assert_eq!(d.step(0, Event::TimedOut), Step::RemoveContainer);
    drive_success_path(&mut d, 1, 0, "id_fast");
    assert_eq!(d.step(0, Event::Done), Step::LookupFunction);
    assert_eq!(d.step(0, Event::FunctionFound("id_slow".to_string())), Step::RecordDeployment);
    let record = d.task(0).deployment_record();
    assert_eq!(record.row[2].value, "failure");
    assert_eq!(d.step(0, Event::Failed), Step::Finished);
    let outcome = d.outcome();
    assert_eq!(outcome.results[0].outcome, Outcome::TimedOut);
    assert_eq!(outcome.results[1].outcome, Outcome::Succeeded);
    assert_eq!(outcome.overall_status, OverallStatus::PartialFailure);
}

#[test]
fn timeout_while_creating_removes_nothing() {
    let mut t = FunctionTask::new(function("a", "rust", "out/a.bin"), context(None));
    assert_eq!(t.step(Event::TimedOut), Step::LookupFunction);
    assert_eq!(t.step(Event::Failed), Step::Finished);
    assert_eq!(t.result().outcome, Outcome::TimedOut);
}

#[test]
fn missing_output_is_a_failure() {
    let mut t = FunctionTask::new(function("a", "rust", "out/a.bin"), context(Some("b")));
    t.step(Event::ContainerCreated("c".to_string()));
    t.step(Event::Done);
    t.step(Event::CommandExited(Some(0)));
    assert_eq!(t.step(Event::Done), Step::CheckOutput);
    assert_eq!(t.output_path(), "/tmp/nur-work/functions/a/out/a.bin");
    assert_eq!(t.step(Event::Failed), Step::LookupFunction);
    t.step(Event::FunctionFound("id".to_string()));
    t.step(Event::Done);
    let r = t.result();
    assert_eq!(r.outcome, Outcome::Failed(FailureReason::OutputMissing));
    assert_eq!(r.artifact_key, None);
}

#[test]
fn teardown_once_for_every_outcome() {
    let failures = [Event::Failed, Event::TimedOut];
    for (k, failure) in failures.into_iter().enumerate() {
        let mut t = FunctionTask::new(function("a", "node", "o"), context(None));
        let mut steps = vec![t.step(Event::ContainerCreated(format!("c{}", k)))];
        steps.push(t.step(failure));
        while t.current() != Step::Finished {
            steps.push(t.step(Event::Failed));
        }
        assert_eq!(removals(&steps), 1);
    }
    let mut t = FunctionTask::new(function("a", "node", "o"), context(None));
    let mut steps = vec![t.step(Event::ContainerCreated("c".to_string()))];
    steps.push(t.step(Event::Done));
    steps.push(t.step(Event::Failed));
    while t.current() != Step::Finished {
        steps.push(t.step(Event::Done));
    }
    assert_eq!(removals(&steps), 1);
    assert_eq!(t.result().outcome, Outcome::Failed(FailureReason::Container(ContainerError::ExecFailed)));
}

#[test]
fn container_creation_failure() {
    let mut t = FunctionTask::new(function("a", "go", "o"), context(None));
    assert_eq!(t.step(Event::Failed), Step::LookupFunction);
    assert_eq!(t.step(Event::Failed), Step::Finished);
    assert_eq!(t.result().outcome, Outcome::Failed(FailureReason::Container(ContainerError::CreateFailed)));
}

#[test]
fn lookup_failure_fails_the_function() {
    let mut t = FunctionTask::new(function("a", "go", "o"), context(Some("b")));
    t.step(Event::ContainerCreated("c".to_string()));
    t.step(Event::Done);
    t.step(Event::CommandExited(Some(0)));
    t.step(Event::Done);
    t.step(Event::Done);
    t.step(Event::Done);
    assert_eq!(t.step(Event::ArtifactRead(b"wasm".to_vec())), Step::WriteArtifact);
    assert!(!t.compressed_bytes().is_empty());
    t.step(Event::Done);
    assert_eq!(t.step(Event::Failed), Step::LookupFunction);
    assert_eq!(t.step(Event::Failed), Step::Finished);
    assert_eq!(t.result().outcome, Outcome::Failed(FailureReason::Ledger(LedgerError::LookupFailed)));
}

#[test]
fn upload_failure_is_recorded_as_failure() {
    let mut t = FunctionTask::new(function("a", "go", "o"), context(Some("b")));
    t.step(Event::ContainerCreated("c".to_string()));
    t.step(Event::Done);
    t.step(Event::CommandExited(None));
    for _ in 0..3 {
        t.step(Event::Done);
    }
    t.step(Event::ArtifactRead(vec![1, 2, 3]));
    t.step(Event::Done);
    t.step(Event::Done);
    assert_eq!(t.step(Event::FunctionFound("42".to_string())), Step::Upload);
    assert_eq!(t.upload_key(), "builds/42.zst");
    assert_eq!(t.step(Event::Failed), Step::RecordDeployment);
    let record = t.deployment_record();
    assert_eq!(record.table, Table::FunctionDeployments);
    assert_eq!(record.row[0].value, "42");
    assert_eq!(record.row[1].value, "b");
    assert_eq!(record.row[2].value, "failure");
    t.step(Event::Done);
    assert_eq!(t.result().outcome, Outcome::Failed(FailureReason::UploadError));
}

#[test]
fn deployment_record_failure_keeps_success() {
    let mut t = FunctionTask::new(function("a", "rust", "out/a.bin"), context(Some("build-9")));
    t.step(Event::ContainerCreated("c".to_string()));
    t.step(Event::Done);
    t.step(Event::CommandExited(Some(0)));
    for _ in 0..3 {
        t.step(Event::Done);
    }
    t.step(Event::ArtifactRead(vec![0; 10]));
    t.step(Event::Done);
    t.step(Event::Failed);
    t.step(Event::FunctionFound("7".to_string()));
    assert_eq!(t.step(Event::Done), Step::RecordDeployment);
    let record = t.deployment_record();
    assert_eq!(record.row[2].value, "success");
    assert_eq!(t.step(Event::Failed), Step::Finished);
    let r = t.result();
    assert_eq!(r.outcome, Outcome::Succeeded);
    assert_eq!(r.artifact_key.as_deref(), Some("builds/7.zst"));
}

#[test]
fn task_paths_and_plan() {
    let mut f = function("hello", "RUST", "/target/hello.wasm");
    f.directory = "/fns/hello".to_string();
    let t = FunctionTask::new(f, context(None));
    assert_eq!(t.output_path(), "/tmp/nur-work/fns/hello/target/hello.wasm");
    assert_eq!(t.staged_path(), "/tmp/nur-work/builds/hello.wasm");
    assert_eq!(t.compressed_path(), "/tmp/nur-work/builds/hello.wasm.zst");
    let plan = t.container_plan();
    assert_eq!(plan.image, "ghcr.io/fisirc/rust-builder:latest");
    assert_eq!(plan.bind, "/tmp/nur-work:/app");
    assert_eq!(plan.working_dir, "/app/fns/hello");
    assert_eq!(plan.user, "1000:1000");
    assert_eq!(plan.memory_bytes, 2147483648);
    assert_eq!(plan.memory_swap_bytes, plan.memory_bytes);
    assert_eq!(plan.command, vec!["sh".to_string(), "-c".to_string(), "make".to_string()]);
}

#[test]
fn duplicate_names_are_rejected() {
    let file = NurFile {
        functions: vec![function("a", "rust", "o"), function("b", "go", "o"), function("a", "node", "o")],
    };
    match BuildManifest::load(file) {
        Err(ManifestError::DuplicateName(n)) => assert_eq!(n, "a"),
        _ => panic!("duplicate name accepted"),
    }
}

#[test]
fn names_differing_in_case_are_distinct() {
    let file = NurFile { functions: vec![function("a", "rust", "o"), function("A", "rust", "o")] };
    assert!(BuildManifest::load(file).is_ok());
}

#[test]
fn empty_manifest_fails() {
    let m = manifest(vec![]);
    let d = Dispatch::new(&m, &settings(), None);
    assert_eq!(d.len(), 0);
    assert!(d.is_finished());
    let outcome = d.outcome();
    assert!(outcome.results.is_empty());
    assert_eq!(outcome.overall_status, OverallStatus::Failure);
}

#[test]
fn build_row_and_registrations() {
    let job = BuildJob {
        repo_id: 5,
        commit_sha: "abc".to_string(),
        branch: "main".to_string(),
        commit_message: "fix".to_string(),
    };
    let w = build_record(&job, "p");
    assert_eq!(w.table, Table::ProjectBuilds);
    let cols: Vec<(&str, &str)> = w.row.iter().map(|c| (c.name.as_str(), c.value.as_str())).collect();
    assert_eq!(
        cols,
        vec![("project_id", "p"), ("commit_sha", "abc"), ("branch_name", "main"), ("commit_short_description", "fix")]
    );
    assert!(w.conflict.is_empty());
    let m = manifest(vec![function("a", "rust", "o"), function("b", "go", "o")]);
    let regs = registrations(&m, "p");
    assert_eq!(regs.len(), 2);
    assert_eq!(regs[1].row[1].value, "b");
    assert_eq!(regs[1].conflict, vec!["project_id".to_string(), "name".to_string()]);
}

#[test]
fn deployment_row_without_build_row() {
    let mut t = FunctionTask::new(function("a", "node", "o"), context(None));
    t.step(Event::ContainerCreated("c".to_string()));
    t.step(Event::Done);
    t.step(Event::CommandExited(Some(2)));
    assert_eq!(t.step(Event::Done), Step::LookupFunction);
    assert_eq!(t.step(Event::FunctionFound("9".to_string())), Step::RecordDeployment);
    let record = t.deployment_record();
    let cols: Vec<(&str, &str)> = record.row.iter().map(|c| (c.name.as_str(), c.value.as_str())).collect();
    assert_eq!(cols, vec![("function_id", "9"), ("status", "failure")]);
    assert_eq!(t.step(Event::Failed), Step::Finished);
    assert_eq!(t.result().outcome, Outcome::Failed(FailureReason::BuildFailure(2)));
}

#[test]
fn staged_copy_removed_after_a_failed_write() {
    let mut t = FunctionTask::new(function("a", "go", "o"), context(Some("b")));
    let mut steps = vec![t.step(Event::ContainerCreated("c".to_string()))];
    steps.push(t.step(Event::Done));
    steps.push(t.step(Event::CommandExited(Some(0))));
    steps.push(t.step(Event::Done));
    steps.push(t.step(Event::Done));
    assert_eq!(t.step(Event::Done), Step::ReadArtifact);
    assert_eq!(t.step(Event::ArtifactRead(vec![5; 32])), Step::WriteArtifact);
    assert_eq!(t.step(Event::Failed), Step::RemoveStaged);
    assert_eq!(t.step(Event::Done), Step::LookupFunction);
    t.step(Event::FunctionFound("1".to_string()));
    t.step(Event::Done);
    assert_eq!(t.result().outcome, Outcome::Failed(FailureReason::CompressionError));
}

#[test]
fn staged_copy_removed_after_a_failed_copy() {
    let mut t = FunctionTask::new(function("a", "go", "o"), context(None));
    t.step(Event::ContainerCreated("c".to_string()));
    t.step(Event::Done);
    t.step(Event::CommandExited(Some(0)));
    t.step(Event::Done);
    assert_eq!(t.step(Event::Done), Step::CopyArtifact);
    assert_eq!(t.step(Event::Failed), Step::RemoveStaged);
    assert_eq!(t.step(Event::Failed), Step::LookupFunction);
    assert_eq!(t.step(Event::Failed), Step::Finished);
    assert_eq!(t.result().outcome, Outcome::Failed(FailureReason::CopyFailed));
}

#[test]
fn aborted_task_result() {
    let r = nur::outcome::FunctionBuildResult::aborted("x");
    assert_eq!(r.function_name, "x");
    assert_eq!(r.outcome, Outcome::Failed(FailureReason::Aborted));
    assert_eq!(r.artifact_key, None);
}
