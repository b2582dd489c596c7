use mrmerge::plan::command;
use mrmerge::plan::is_branch_uptodate;
use mrmerge::plan::merge;
use mrmerge::plan::merge_branch;
use mrmerge::plan::remote_exists;
use mrmerge::plan::MergeJob;
use mrmerge::plan::MergeStep;
use mrmerge::request::github_decision;
use mrmerge::request::MergeRequest;
use mrmerge::request::Outcome;

fn alice_job() -> MergeJob {
    MergeJob::new(
        String::from("https://github.com/alice/repo.git"),
        String::from("alice"),
        String::from("feature"),
        String::from("main"),
    )
    .unwrap()
}

/// Runs the whole plan, handing back the canned output queued for each
/// command; returns every command issued, in order.
fn drive(job: &MergeJob, outputs: &[(&str, &str)]) -> Vec<Vec<String>> {
    let mut commands: Vec<Vec<String>> = Vec::new();
    let mut step = MergeStep::QueryRemotes;
    while let Some(args) = command(job, &step) {
        let mut out = "";
        for (cmd, o) in outputs {
            if args[0] == *cmd {
                out = o;
            }
        }
        commands.push(args);
        step = merge(job, &step, out);
    }
    commands
}

fn args(list: &[&str]) -> Vec<String> {
    list.iter().map(|s| s.to_string()).collect()
}

#[test]
fn merge_branch_joins_name_and_branch() {
    assert_eq!(merge_branch(&alice_job()), "alice-feature");
}

#[test]
fn remote_exists_matches_whole_lines() {
    let listing = "origin\thttps://example.com/o.git\nalice\thttps://github.com/alice/repo.git\n";
    assert!(remote_exists(
        listing,
        "https://github.com/alice/repo.git",
        "alice"
    ));
    assert!(remote_exists(listing, "https://example.com/o.git", "origin"));
    // The name must pair with its own URL, on one line.
    assert!(!remote_exists(
        listing,
        "https://example.com/o.git",
        "alice"
    ));
    // A prefix of a line is not a line.
    assert!(!remote_exists(listing, "https://github.com/alice/repo", "alice"));
    assert!(!remote_exists("", "https://x", "alice"));
    // The last line counts even without a trailing newline.
    assert!(remote_exists("alice\thttps://y", "https://y", "alice"));
}

#[test]
fn uptodate_means_no_listed_commits() {
    assert!(is_branch_uptodate(""));
    assert!(!is_branch_uptodate("commit 0123abc\n"));
    assert!(!is_branch_uptodate("commit 0123abc\ncommit 4567def\n"));
}

#[test]
fn full_run_registers_fetches_merges_and_cleans_up() {
    // End to end: head (owner alice, ref feature), base main, remote not
    // yet registered, temporary branch already up to date.
    let job = alice_job();
    let commands = drive(&job, &[("remote", ""), ("log", "")]);
    assert_eq!(
        commands,
        vec![
            args(&["remote", "--verbose"]),
            args(&["remote", "add", "alice", "https://github.com/alice/repo.git"]),
            args(&["fetch", "alice"]),
            args(&["checkout", "-b", "alice-feature", "alice/feature"]),
            args(&["log", "alice-feature..main"]),
            args(&["checkout", "main"]),
            args(&["merge", "--no-edit", "alice-feature"]),
            args(&["branch", "--delete", "--force", "alice-feature"]),
        ]
    );
}

#[test]
fn second_run_skips_registration() {
    // The listing now shows the remote the first run added: no second
    // `remote add` is issued.
    let job = alice_job();
    let listing = "alice\thttps://github.com/alice/repo.git\n";
    let commands = drive(&job, &[("remote", listing), ("log", "")]);
    assert_eq!(commands[0], args(&["remote", "--verbose"]));
    assert_eq!(commands[1], args(&["fetch", "alice"]));
    assert!(commands.iter().all(|c| c[0] != "remote" || c[1] != "add"));
}

#[test]
fn rebase_runs_only_when_target_is_ahead() {
    let job = alice_job();
    // The probe lists a commit of main missing from the temporary
    // branch: the rebase runs, after the probe and before the merge.
    let commands = drive(&job, &[("remote", ""), ("log", "commit 0123abc\n")]);
    let probe = commands.iter().position(|c| c[0] == "log").unwrap();
    let rebase = commands.iter().position(|c| c[0] == "rebase").unwrap();
    let merge_at = commands.iter().position(|c| c[0] == "merge").unwrap();
    assert_eq!(commands[rebase], args(&["rebase", "main"]));
    assert!(probe < rebase && rebase < merge_at);
    // An empty probe skips it.
    let commands = drive(&job, &[("remote", ""), ("log", "")]);
    assert!(commands.iter().all(|c| c[0] != "rebase"));
}

#[test]
fn cleanup_deletes_the_temporary_branch_either_way() {
    let job = alice_job();
    for probe_out in ["", "commit 0123abc\n"] {
        let commands = drive(&job, &[("remote", ""), ("log", probe_out)]);
        assert_eq!(
            commands.last().unwrap(),
            &args(&["branch", "--delete", "--force", "alice-feature"])
        );
    }
}

#[test]
fn no_merge_runs_no_commands() {
    // End to end with --no-merge: the decision stops the run before the
    // orchestrator, so no remote is added and no branch is created.
    let req = MergeRequest::from_github(
        String::from("https://github.com/alice/repo.git"),
        String::from("alice"),
        String::from("feature"),
        String::from("main"),
    )
    .unwrap();
    assert_eq!(github_decision(true), Outcome::FetchOnly);
    let mut commands: Vec<Vec<String>> = Vec::new();
    if github_decision(true) == Outcome::Merge {
        let job = MergeJob::of_request(req);
        commands = drive(&job, &[]);
    }
    assert!(commands.is_empty());
}

#[test]
fn done_step_has_no_command() {
    assert!(command(&alice_job(), &MergeStep::Done).is_none());
}
