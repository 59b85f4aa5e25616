//! What a function's container run looks like, and how its exit code is read.
use vstd::prelude::*;
use crate::manifest::NurFunction;
use crate::outcome::FailureReason;
use crate::template::{Template, image_ref};
use crate::text::{decimal, strip_leading, push_decimal, push_char, trim_leading_slashes};

verus! {

/// Exit code some container engines report for the first run of a build
/// even though it succeeded.
pub const FIRST_RUN_EXIT_CODE: i64 = 137;

/// Memory cap of a build container: 2 GiB.
pub const BUILD_MEMORY_BYTES: i64 = 2147483648;

/// Non-root process identity the build runs as.
#[derive(Clone, Copy, Debug)]
pub struct Identity {
    pub uid: u32,
    pub gid: u32,
}

impl Identity {
    pub open spec fn wf(&self) -> bool {
        self.uid != 0
    }

    /// The identity `uid:gid`, refused for the root user.
    pub fn non_root(uid: u32, gid: u32) -> (r: Option<Identity>)
        ensures
            r is None <==> uid == 0,
            r matches Some(id) ==> id.uid == uid && id.gid == gid && id.wf(),
    {
        if uid == 0 {
            None
        } else {
            Some(Identity { uid, gid })
        }
    }
}

/// Bounds of one container run.
#[derive(Clone, Copy, Debug)]
pub struct Limits {
    /// Wall-clock bound on creation, start and execution together.
    pub timeout_secs: u64,
    pub memory_bytes: i64,
    /// Whether exit code 137 counts as success (see [`FIRST_RUN_EXIT_CODE`]).
    /// It can mask a genuine out-of-memory kill, so it can be switched off.
    pub tolerate_first_run_exit: bool,
}

impl Limits {
    /// The limits builds run under by default.
    pub fn standard(timeout_secs: u64) -> (r: Limits)
        ensures
            r.timeout_secs == timeout_secs,
            r.memory_bytes == BUILD_MEMORY_BYTES,
            r.tolerate_first_run_exit,
    {
        Limits { timeout_secs, memory_bytes: BUILD_MEMORY_BYTES, tolerate_first_run_exit: true }
    }
}

/// Everything needed to create and run one build container.
pub struct ContainerPlan {
    pub image: String,
    /// Bind mount of the working tree, `host:container`.
    pub bind: String,
    pub working_dir: String,
    /// Process identity, `uid:gid`.
    pub user: String,
    pub memory_bytes: i64,
    /// Memory plus swap; equal to `memory_bytes`, so that no swap is used.
    pub memory_swap_bytes: i64,
    pub command: Vec<String>,
}

/// Mount point of the working tree inside the container.
pub open spec fn mount_point() -> Seq<char> {
    seq!['/', 'a', 'p', 'p']
}

pub open spec fn user_of(id: Identity) -> Seq<char> {
    decimal(id.uid as nat) + seq![':'] + decimal(id.gid as nat)
}

pub open spec fn working_dir_of(directory: Seq<char>) -> Seq<char> {
    mount_point() + seq!['/'] + strip_leading(directory, '/')
}

pub open spec fn bind_of(work_root: Seq<char>) -> Seq<char> {
    work_root + seq![':'] + mount_point()
}

/// `sh -c <command>`.
pub open spec fn shell_command(cmd: Vec<String>, line: Seq<char>) -> bool {
    &&& cmd@.len() == 3
    &&& cmd@[0]@ == seq!['s', 'h']
    &&& cmd@[1]@ == seq!['-', 'c']
    &&& cmd@[2]@ == line
}

/// `plan` is the container of `func` under `template`, `work_root`,
/// `identity` and `limits`.
pub open spec fn planned(
    plan: ContainerPlan,
    func: NurFunction,
    template: Template,
    work_root: Seq<char>,
    identity: Identity,
    limits: Limits,
) -> bool {
    &&& plan.image@ == image_ref(template)
    &&& plan.bind@ == bind_of(work_root)
    &&& plan.working_dir@ == working_dir_of(func.directory@)
    &&& plan.user@ == user_of(identity)
    &&& plan.memory_bytes == limits.memory_bytes
    &&& plan.memory_swap_bytes == limits.memory_bytes
    &&& shell_command(plan.command, func.build.command@)
}

/// Plans the container of one function: the template's image, the working
/// tree mounted read-write at `/app`, the function's directory as working
/// directory, a non-root identity, capped memory without swap, and the build
/// command run by `sh -c`.
pub fn plan_container(
    func: &NurFunction,
    template: Template,
    work_root: &str,
    identity: Identity,
    limits: Limits,
) -> (r: ContainerPlan)
    ensures
        planned(r, *func, template, work_root@, identity, limits),
{
    let image = template.image().to_owned();

    let mut bind = work_root.to_owned();
    push_char(&mut bind, ':');
    bind.append("/app");
    proof {
        reveal_strlit("/app");
    }
    assert(bind@ =~= bind_of(work_root@));

    let mut working_dir = "/app/".to_owned();
    proof {
        reveal_strlit("/app/");
    }
    let rel = trim_leading_slashes(func.directory.as_str());
    working_dir.append(rel.as_str());
    assert(working_dir@ =~= working_dir_of(func.directory@));

    let mut user = String::new();
    push_decimal(&mut user, identity.uid as u64);
    push_char(&mut user, ':');
    push_decimal(&mut user, identity.gid as u64);
    assert(user@ =~= user_of(identity));

    let mut command: Vec<String> = Vec::new();
    command.push("sh".to_owned());
    command.push("-c".to_owned());
    command.push(func.build.command.clone());
    proof {
        reveal_strlit("sh");
        reveal_strlit("-c");
        assert("sh"@ =~= seq!['s', 'h']);
        assert("-c"@ =~= seq!['-', 'c']);
    }

    ContainerPlan {
        image,
        bind,
        working_dir,
        user,
        memory_bytes: limits.memory_bytes,
        memory_swap_bytes: limits.memory_bytes,
        command,
    }
}

/// What an exit code means for the build: `None` when the build succeeded.
/// Code `0` succeeds; code 137 succeeds when tolerated; any other code is a
/// build failure. A run for which the runtime reports no code is read as
/// successful, and the artifact check that follows decides.
pub open spec fn exit_verdict(code: Option<i64>, tolerate_first_run_exit: bool) -> Option<FailureReason> {
    match code {
        None => None,
        Some(c) => if c == 0 || (c == FIRST_RUN_EXIT_CODE && tolerate_first_run_exit) {
            None
        } else {
            Some(FailureReason::BuildFailure(c))
        },
    }
}

/// Reads the exit code of a build command; see [`exit_verdict`].
pub fn classify_exit(code: Option<i64>, tolerate_first_run_exit: bool) -> (r: Option<FailureReason>)
    ensures
        r == exit_verdict(code, tolerate_first_run_exit),
        code == Some(0i64) ==> r is None,
        code == Some(FIRST_RUN_EXIT_CODE) && tolerate_first_run_exit ==> r is None,
        code == Some(FIRST_RUN_EXIT_CODE) && !tolerate_first_run_exit ==> r == Some(
            FailureReason::BuildFailure(FIRST_RUN_EXIT_CODE),
        ),
{
    match code {
        None => None,
        Some(c) => {
            if c == 0 || (c == FIRST_RUN_EXIT_CODE && tolerate_first_run_exit) {
                None
            } else {
                Some(FailureReason::BuildFailure(c))
            }
        },
    }
}

} // verus!
