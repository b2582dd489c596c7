//! The merge orchestrator. A run is a deterministic walk through the
//! steps below; each step names one version-control command, and the
//! command's captured output decides the next step. The caller performs
//! the commands and feeds each output back; everything decided here —
//! which commands run, in which order, and on which outputs a step is
//! skipped — is verified against a model of the repository.
use vstd::prelude::*;
use vstd::string::*;

use crate::request::MergeRequest;
use crate::text::contains_line;
use crate::text::has_line;
use crate::text::lemma_lines_empty;
use crate::text::lines_of;

verus! {

/// The inputs of one orchestration run; all fields non-empty.
pub struct MergeJob {
    /// URL the source remote points at.
    pub remote_url: String,
    /// Name under which the source remote is registered.
    pub remote_name: String,
    /// Branch to take from the source remote.
    pub source_branch: String,
    /// Branch of the local repository the result lands on.
    pub target_branch: String,
}

/// The temporary local branch a run works on, named by joining the
/// remote's name and the source branch.
pub open spec fn merge_branch_of(job: MergeJob) -> Seq<char> {
    job.remote_name@ + "-"@ + job.source_branch@
}

/// The line `remote --verbose` prints for a registered remote.
pub open spec fn remote_line_of(name: Seq<char>, url: Seq<char>) -> Seq<char> {
    name + "\t"@ + url
}

/// Whether the captured `remote --verbose` output lists a remote of this
/// name pointing at this URL.
pub open spec fn spec_remote_exists(out: Seq<char>, url: Seq<char>, name: Seq<char>) -> bool {
    contains_line(out, remote_line_of(name, url))
}

impl MergeJob {
    pub open spec fn wf(&self) -> bool {
        &&& self.remote_url@.len() > 0
        &&& self.remote_name@.len() > 0
        &&& self.source_branch@.len() > 0
        &&& self.target_branch@.len() > 0
    }

    /// Builds a job; `None` exactly when some field is empty.
    pub fn new(
        remote_url: String,
        remote_name: String,
        source_branch: String,
        target_branch: String,
    ) -> (r: Option<MergeJob>)
        ensures
            (r is Some) == (remote_url@.len() > 0 && remote_name@.len() > 0
                && source_branch@.len() > 0 && target_branch@.len() > 0),
            r is Some ==> {
                &&& r.unwrap().wf()
                &&& r.unwrap().remote_url@ == remote_url@
                &&& r.unwrap().remote_name@ == remote_name@
                &&& r.unwrap().source_branch@ == source_branch@
                &&& r.unwrap().target_branch@ == target_branch@
            },
    {
        if remote_url.as_str().unicode_len() == 0 || remote_name.as_str().unicode_len() == 0
            || source_branch.as_str().unicode_len() == 0 || target_branch.as_str().unicode_len()
            == 0 {
            return None;
        }
        Some(MergeJob { remote_url, remote_name, source_branch, target_branch })
    }

    /// The job a normalized descriptor asks for.
    pub fn of_request(req: MergeRequest) -> (r: MergeJob)
        requires
            req.wf(),
        ensures
            r.wf(),
            r.remote_url@ == req.source_clone_url@,
            r.remote_name@ == req.source_remote_name@,
            r.source_branch@ == req.source_branch@,
            r.target_branch@ == req.target_branch@,
    {
        MergeJob {
            remote_url: req.source_clone_url,
            remote_name: req.source_remote_name,
            source_branch: req.source_branch,
            target_branch: req.target_branch,
        }
    }
}

/// The temporary branch's name, `{remote_name}-{source_branch}`.
pub fn merge_branch(job: &MergeJob) -> (r: String)
    ensures
        r@ == merge_branch_of(*job),
{
    let mut s = job.remote_name.as_str().to_owned();
    s.append("-");
    s.append(job.source_branch.as_str());
    s
}

/// True when the captured `remote --verbose` output holds the exact line
/// `{name}\t{url}`.
pub fn remote_exists(output: &str, url: &str, name: &str) -> (r: bool)
    ensures
        r == spec_remote_exists(output@, url@, name@),
{
    let mut line = name.to_owned();
    line.append("\t");
    line.append(url);
    has_line(output, line.as_str())
}

/// True when the captured `log {branch}..{target}` output lists no
/// commit, i.e. the branch already contains every commit of the target.
pub fn is_branch_uptodate(output: &str) -> (r: bool)
    ensures
        r == (lines_of(output@).len() == 0),
{
    proof {
        lemma_lines_empty(output@);
    }
    output.unicode_len() == 0
}

/// The steps of a run, in the order they execute; the two decisions are
/// taken at `QueryRemotes` (register or skip) and `Probe` (rebase or
/// skip).
#[derive(PartialEq, Eq, Structural, Clone, Copy, Debug)]
pub enum MergeStep {
    /// List the registered remotes.
    QueryRemotes,
    /// Register the source remote; skipped when already registered.
    AddRemote,
    /// Fetch all refs from the source remote.
    Fetch,
    /// Create the temporary branch from `{remote_name}/{source_branch}`.
    CreateBranch,
    /// List the target's commits missing from the temporary branch.
    Probe,
    /// Rebase the temporary branch onto the target; skipped when the
    /// probe listed nothing.
    Rebase,
    /// Check the target branch out.
    CheckoutTarget,
    /// Merge the temporary branch into the target.
    MergeBranch,
    /// Force-delete the temporary branch.
    DeleteBranch,
    /// Nothing left to run.
    Done,
}

/// The arguments of the version-control command a step runs; `None` for
/// `Done`.
pub open spec fn step_args(job: MergeJob, step: MergeStep) -> Option<Seq<Seq<char>>> {
    let name = job.remote_name@;
    let url = job.remote_url@;
    let target = job.target_branch@;
    let mb = merge_branch_of(job);
    match step {
        MergeStep::QueryRemotes => Some(seq!["remote"@, "--verbose"@]),
        MergeStep::AddRemote => Some(seq!["remote"@, "add"@, name, url]),
        MergeStep::Fetch => Some(seq!["fetch"@, name]),
        MergeStep::CreateBranch => Some(
            seq!["checkout"@, "-b"@, mb, name + "/"@ + job.source_branch@],
        ),
        MergeStep::Probe => Some(seq!["log"@, mb + ".."@ + target]),
        MergeStep::Rebase => Some(seq!["rebase"@, target]),
        MergeStep::CheckoutTarget => Some(seq!["checkout"@, target]),
        MergeStep::MergeBranch => Some(seq!["merge"@, "--no-edit"@, mb]),
        MergeStep::DeleteBranch => Some(seq!["branch"@, "--delete"@, "--force"@, mb]),
        MergeStep::Done => None,
    }
}

/// The step that follows `step` once its command's output is `out`; the
/// output matters only at the two decision steps.
pub open spec fn spec_next(job: MergeJob, step: MergeStep, out: Seq<char>) -> MergeStep {
    match step {
        MergeStep::QueryRemotes => if spec_remote_exists(out, job.remote_url@, job.remote_name@) {
            MergeStep::Fetch
        } else {
            MergeStep::AddRemote
        },
        MergeStep::AddRemote => MergeStep::Fetch,
        MergeStep::Fetch => MergeStep::CreateBranch,
        MergeStep::CreateBranch => MergeStep::Probe,
        MergeStep::Probe => if lines_of(out).len() == 0 {
            MergeStep::CheckoutTarget
        } else {
            MergeStep::Rebase
        },
        MergeStep::Rebase => MergeStep::CheckoutTarget,
        MergeStep::CheckoutTarget => MergeStep::MergeBranch,
        MergeStep::MergeBranch => MergeStep::DeleteBranch,
        MergeStep::DeleteBranch => MergeStep::Done,
        MergeStep::Done => MergeStep::Done,
    }
}

fn push_str(v: &mut Vec<String>, s: &str)
    ensures
        final(v)@.map_values(|x: String| x@) == old(v)@.map_values(|x: String| x@).push(s@),
{
    v.push(s.to_owned());
    proof {
        assert(v@.map_values(|x: String| x@) =~= old(v)@.map_values(|x: String| x@).push(s@));
    }
}

fn push_string(v: &mut Vec<String>, s: String)
    ensures
        final(v)@.map_values(|x: String| x@) == old(v)@.map_values(|x: String| x@).push(s@),
{
    v.push(s);
    proof {
        assert(v@.map_values(|x: String| x@) =~= old(v)@.map_values(|x: String| x@).push(s@));
    }
}

/// The version-control command a step runs, ready to hand to the
/// gateway; `None` exactly when the run is over.
pub fn command(job: &MergeJob, step: &MergeStep) -> (r: Option<Vec<String>>)
    ensures
        match step_args(*job, *step) {
            Some(args) => r is Some && r.unwrap()@.map_values(|x: String| x@) == args,
            None => r is None,
        },
{
    let mut v: Vec<String> = Vec::new();
    proof {
        assert(v@.map_values(|x: String| x@) =~= Seq::<Seq<char>>::empty());
    }
    match step {
        MergeStep::QueryRemotes => {
            push_str(&mut v, "remote");
            push_str(&mut v, "--verbose");
        },
        MergeStep::AddRemote => {
            push_str(&mut v, "remote");
            push_str(&mut v, "add");
            push_str(&mut v, job.remote_name.as_str());
            push_str(&mut v, job.remote_url.as_str());
        },
        MergeStep::Fetch => {
            push_str(&mut v, "fetch");
            push_str(&mut v, job.remote_name.as_str());
        },
        MergeStep::CreateBranch => {
            push_str(&mut v, "checkout");
            push_str(&mut v, "-b");
            push_string(&mut v, merge_branch(job));
            let mut src = job.remote_name.as_str().to_owned();
            src.append("/");
            src.append(job.source_branch.as_str());
            push_string(&mut v, src);
        },
        MergeStep::Probe => {
            push_str(&mut v, "log");
            let mut range = merge_branch(job);
            range.append("..");
            range.append(job.target_branch.as_str());
            push_string(&mut v, range);
        },
        MergeStep::Rebase => {
            push_str(&mut v, "rebase");
            push_str(&mut v, job.target_branch.as_str());
        },
        MergeStep::CheckoutTarget => {
            push_str(&mut v, "checkout");
            push_str(&mut v, job.target_branch.as_str());
        },
        MergeStep::MergeBranch => {
            push_str(&mut v, "merge");
            push_str(&mut v, "--no-edit");
            push_string(&mut v, merge_branch(job));
        },
        MergeStep::DeleteBranch => {
            push_str(&mut v, "branch");
            push_str(&mut v, "--delete");
            push_str(&mut v, "--force");
            push_string(&mut v, merge_branch(job));
        },
        MergeStep::Done => {
            return None;
        },
    }
    proof {
        assert(v@.map_values(|x: String| x@) =~= step_args(*job, *step).unwrap());
    }
    Some(v)
}

/// Advances the run: from `step`, whose command's captured output is
/// `output`, to the step that runs next.
pub fn merge(job: &MergeJob, step: &MergeStep, output: &str) -> (r: MergeStep)
    ensures
        r == spec_next(*job, *step, output@),
{
    match step {
        MergeStep::QueryRemotes => {
            if remote_exists(output, job.remote_url.as_str(), job.remote_name.as_str()) {
                MergeStep::Fetch
            } else {
                MergeStep::AddRemote
            }
        },
        MergeStep::AddRemote => MergeStep::Fetch,
        MergeStep::Fetch => MergeStep::CreateBranch,
        MergeStep::CreateBranch => MergeStep::Probe,
        MergeStep::Probe => {
            if is_branch_uptodate(output) {
                MergeStep::CheckoutTarget
            } else {
                MergeStep::Rebase
            }
        },
        MergeStep::Rebase => MergeStep::CheckoutTarget,
        MergeStep::CheckoutTarget => MergeStep::MergeBranch,
        MergeStep::MergeBranch => MergeStep::DeleteBranch,
        MergeStep::DeleteBranch => MergeStep::Done,
        MergeStep::Done => MergeStep::Done,
    }
}

/// What the orchestrator assumes of the repository: the set of
/// registered remotes (name to URL) and the set of local branch names.
pub struct RepoModel {
    pub remotes: Map<Seq<char>, Seq<char>>,
    pub branches: Set<Seq<char>>,
}

/// How a step's command changes the repository: registering a remote
/// records it, creating and deleting the temporary branch add and remove
/// its name; every other command leaves both sets unchanged (the merge
/// itself only moves the target branch's tip).
pub open spec fn step_effect(m: RepoModel, job: MergeJob, step: MergeStep) -> RepoModel {
    match step {
        MergeStep::AddRemote => RepoModel {
            remotes: m.remotes.insert(job.remote_name@, job.remote_url@),
            ..m
        },
        MergeStep::CreateBranch => RepoModel {
            branches: m.branches.insert(merge_branch_of(job)),
            ..m
        },
        MergeStep::DeleteBranch => RepoModel {
            branches: m.branches.remove(merge_branch_of(job)),
            ..m
        },
        _ => m,
    }
}

/// How many steps can still execute; strictly falls along `spec_next`.
pub open spec fn rank(step: MergeStep) -> nat {
    match step {
        MergeStep::QueryRemotes => 9,
        MergeStep::AddRemote => 8,
        MergeStep::Fetch => 7,
        MergeStep::CreateBranch => 6,
        MergeStep::Probe => 5,
        MergeStep::Rebase => 4,
        MergeStep::CheckoutTarget => 3,
        MergeStep::MergeBranch => 2,
        MergeStep::DeleteBranch => 1,
        MergeStep::Done => 0,
    }
}

/// The repository after running from `step` with the given captured
/// outputs, one per executed command; the run stops at `Done`, or early
/// when a command returned no output (it failed, and the run aborts).
pub open spec fn run(m: RepoModel, job: MergeJob, step: MergeStep, outs: Seq<Seq<char>>) -> RepoModel
    decreases rank(step),
{
    if step == MergeStep::Done || outs.len() == 0 {
        m
    } else {
        run(step_effect(m, job, step), job, spec_next(job, step, outs[0]), outs.drop_first())
    }
}

/// Whether a run from `step` with the given outputs executes the rebase.
pub open spec fn run_uses_rebase(job: MergeJob, step: MergeStep, outs: Seq<Seq<char>>) -> bool
    decreases rank(step),
{
    if step == MergeStep::Done || outs.len() == 0 {
        false
    } else {
        step == MergeStep::Rebase || run_uses_rebase(
            job,
            spec_next(job, step, outs[0]),
            outs.drop_first(),
        )
    }
}

/// A complete run, from its first step.
pub open spec fn full_run(m: RepoModel, job: MergeJob, outs: Seq<Seq<char>>) -> RepoModel {
    run(m, job, MergeStep::QueryRemotes, outs)
}

/// What one full successful run does to the repository: the source
/// remote is registered exactly when the first listing did not show it,
/// the temporary branch is created and then deleted, and the rebase runs
/// exactly when the probe listed missing commits. The probe's output is
/// the fourth or fifth, depending on whether the remote was registered.
pub proof fn lemma_run_outcome(m: RepoModel, job: MergeJob, outs: Seq<Seq<char>>)
    requires
        outs.len() >= 9,
    ensures
        ({
            let n = job.remote_name@;
            let u = job.remote_url@;
            let mb = merge_branch_of(job);
            let has = spec_remote_exists(outs[0], u, n);
            let probe = if has { outs[3] } else { outs[4] };
            &&& full_run(m, job, outs).remotes == (if has {
                m.remotes
            } else {
                m.remotes.insert(n, u)
            })
            &&& full_run(m, job, outs).branches == m.branches.insert(mb).remove(mb)
            &&& run_uses_rebase(job, MergeStep::QueryRemotes, outs) == (lines_of(probe).len() > 0)
        }),
{
    reveal_with_fuel(run, 10);
    reveal_with_fuel(run_uses_rebase, 10);
}

/// Remote registration is idempotent: one full run leaves the source
/// remote registered, registers nothing beyond it, and a second full run
/// with the same name and URL — whose listing reflects the repository
/// the first run left — changes the registered remotes not at all.
pub proof fn lemma_remote_registration_idempotent(
    m: RepoModel,
    job: MergeJob,
    outs1: Seq<Seq<char>>,
    outs2: Seq<Seq<char>>,
)
    requires
        outs1.len() >= 9,
        outs2.len() >= 9,
        spec_remote_exists(outs1[0], job.remote_url@, job.remote_name@) == m.remotes.contains_pair(
            job.remote_name@,
            job.remote_url@,
        ),
        spec_remote_exists(outs2[0], job.remote_url@, job.remote_name@) == full_run(
            m,
            job,
            outs1,
        ).remotes.contains_pair(job.remote_name@, job.remote_url@),
    ensures
        full_run(m, job, outs1).remotes.contains_pair(job.remote_name@, job.remote_url@),
        full_run(full_run(m, job, outs1), job, outs2).remotes == full_run(m, job, outs1).remotes,
        full_run(m, job, outs1).remotes.dom() <= m.remotes.dom().insert(job.remote_name@),
{
    lemma_run_outcome(m, job, outs1);
    lemma_run_outcome(full_run(m, job, outs1), job, outs2);
    assert(full_run(m, job, outs1).remotes.dom() <= m.remotes.dom().insert(job.remote_name@));
}

/// Rebase-skip correctness: the rebase executes exactly when the probe
/// listed commits of the target missing from the temporary branch; and
/// when it executes, it stands between the probe and the merge.
pub proof fn lemma_rebase_skip(job: MergeJob, outs: Seq<Seq<char>>)
    requires
        outs.len() >= 9,
    ensures
        ({
            let has = spec_remote_exists(outs[0], job.remote_url@, job.remote_name@);
            let probe = if has { outs[3] } else { outs[4] };
            &&& run_uses_rebase(job, MergeStep::QueryRemotes, outs) == (lines_of(probe).len() > 0)
            &&& spec_next(job, MergeStep::Probe, probe) == (if lines_of(probe).len() == 0 {
                MergeStep::CheckoutTarget
            } else {
                MergeStep::Rebase
            })
            &&& forall|o: Seq<char>| spec_next(job, MergeStep::Rebase, o) == MergeStep::CheckoutTarget
        }),
{
    let m = RepoModel { remotes: Map::empty(), branches: Set::empty() };
    lemma_run_outcome(m, job, outs);
}

/// Cleanup invariant: after a full run the temporary branch no longer
/// exists, whatever the merge did, and no other branch name changed.
pub proof fn lemma_cleanup(m: RepoModel, job: MergeJob, outs: Seq<Seq<char>>)
    requires
        outs.len() >= 9,
    ensures
        !full_run(m, job, outs).branches.contains(merge_branch_of(job)),
        forall|b: Seq<char>|
            b != merge_branch_of(job) ==> #[trigger] full_run(m, job, outs).branches.contains(b)
                == m.branches.contains(b),
{
    lemma_run_outcome(m, job, outs);
}

} // verus!
