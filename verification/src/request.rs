//! The normalized merge-request descriptor that bridges the provider
//! adapters and the orchestrator, and the decision that starts a run.
use vstd::prelude::*;
use vstd::string::*;

use crate::text::has_prefix;
use crate::text::starts_with;
use crate::text::str_eq;

verus! {

/// Provider selection: URLs under `github.com` go to the GitHub-style
/// adapter, every other URL to the GitLab-style one.
pub fn selects_github_adapter(url: &str) -> (r: bool)
    ensures
        r == has_prefix(url@, "https://github.com/"@),
{
    starts_with(url, "https://github.com/")
}

/// Provider-agnostic description of one merge request.
pub struct MergeRequest {
    /// URL usable as a version-control remote.
    pub source_clone_url: String,
    /// The proposer's identity; names the local remote.
    pub source_remote_name: String,
    /// Branch name on the source remote.
    pub source_branch: String,
    /// Branch in the local repository the result should land on.
    pub target_branch: String,
    /// Provider-reported merge feasibility; absent for providers that
    /// always proceed.
    pub mergeable: Option<bool>,
}

impl MergeRequest {
    /// All string fields are non-empty.
    pub open spec fn wf(&self) -> bool {
        &&& self.source_clone_url@.len() > 0
        &&& self.source_remote_name@.len() > 0
        &&& self.source_branch@.len() > 0
        &&& self.target_branch@.len() > 0
    }

    /// Builds the descriptor for a provider that reports no feasibility
    /// flag. Returns `None` exactly when some field is empty.
    pub fn from_github(
        clone_url: String,
        login: String,
        head_ref: String,
        base_ref: String,
    ) -> (r: Option<MergeRequest>)
        ensures
            (r is Some) == (clone_url@.len() > 0 && login@.len() > 0 && head_ref@.len() > 0
                && base_ref@.len() > 0),
            r is Some ==> {
                &&& r.unwrap().wf()
                &&& r.unwrap().source_clone_url@ == clone_url@
                &&& r.unwrap().source_remote_name@ == login@
                &&& r.unwrap().source_branch@ == head_ref@
                &&& r.unwrap().target_branch@ == base_ref@
                &&& r.unwrap().mergeable is None
            },
    {
        if clone_url.as_str().unicode_len() == 0 || login.as_str().unicode_len() == 0
            || head_ref.as_str().unicode_len() == 0 || base_ref.as_str().unicode_len() == 0 {
            return None;
        }
        Some(
            MergeRequest {
                source_clone_url: clone_url,
                source_remote_name: login,
                source_branch: head_ref,
                target_branch: base_ref,
                mergeable: None,
            },
        )
    }

    /// Builds the descriptor for a provider that reported the request as
    /// mergeable. Returns `None` exactly when some field is empty.
    pub fn from_gitlab(
        clone_url: String,
        username: String,
        source_branch: String,
        target_branch: String,
    ) -> (r: Option<MergeRequest>)
        ensures
            (r is Some) == (clone_url@.len() > 0 && username@.len() > 0 && source_branch@.len() > 0
                && target_branch@.len() > 0),
            r is Some ==> {
                &&& r.unwrap().wf()
                &&& r.unwrap().source_clone_url@ == clone_url@
                &&& r.unwrap().source_remote_name@ == username@
                &&& r.unwrap().source_branch@ == source_branch@
                &&& r.unwrap().target_branch@ == target_branch@
                &&& r.unwrap().mergeable == Some(true)
            },
    {
        if clone_url.as_str().unicode_len() == 0 || username.as_str().unicode_len() == 0
            || source_branch.as_str().unicode_len() == 0 || target_branch.as_str().unicode_len()
            == 0 {
            return None;
        }
        Some(
            MergeRequest {
                source_clone_url: clone_url,
                source_remote_name: username,
                source_branch,
                target_branch,
                mergeable: Some(true),
            },
        )
    }
}

/// What a run does after the provider answered.
#[derive(PartialEq, Eq, Structural, Clone, Copy, Debug)]
pub enum Outcome {
    /// The provider reports the request cannot be merged yet; the run
    /// ends successfully, mutates nothing, and a diagnostic is printed.
    Declined,
    /// The caller asked only to fetch and normalize; mutate nothing.
    FetchOnly,
    /// Hand the descriptor to the orchestrator.
    Merge,
}

/// True when the provider's status string allows merging.
pub fn can_be_merged(merge_status: &str) -> (r: bool)
    ensures
        r == (merge_status@ == "can_be_merged"@),
{
    str_eq(merge_status, "can_be_merged")
}

/// What a GitLab-style run does next: a status other than
/// `can_be_merged` declines, the no-merge flag stops the run after
/// normalization, and only the remainder proceeds to a merge.
pub fn gitlab_decision(merge_status: &str, no_merge: bool) -> (r: Outcome)
    ensures
        (r == Outcome::Declined) == (merge_status@ != "can_be_merged"@),
        (r == Outcome::FetchOnly) == (merge_status@ == "can_be_merged"@ && no_merge),
        (r == Outcome::Merge) == (merge_status@ == "can_be_merged"@ && !no_merge),
{
    if !can_be_merged(merge_status) {
        Outcome::Declined
    } else if no_merge {
        Outcome::FetchOnly
    } else {
        Outcome::Merge
    }
}

/// What a GitHub-style run does next: the provider reports no
/// feasibility flag, so only the no-merge flag decides.
pub fn github_decision(no_merge: bool) -> (r: Outcome)
    ensures
        (r == Outcome::FetchOnly) == no_merge,
        (r == Outcome::Merge) == !no_merge,
{
    if no_merge {
        Outcome::FetchOnly
    } else {
        Outcome::Merge
    }
}

} // verus!
