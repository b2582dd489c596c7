use mrmerge::github::github_api_url;
use mrmerge::gitlab::gitlab_api_url;
use mrmerge::gitlab::gitlab_base_url;
use mrmerge::gitlab::gitlab_project_api_url;
use mrmerge::request::can_be_merged;
use mrmerge::request::selects_github_adapter;
use mrmerge::request::github_decision;
use mrmerge::request::gitlab_decision;
use mrmerge::request::MergeRequest;
use mrmerge::request::Outcome;

#[test]
fn github_endpoint_substitutes_host_and_path() {
    let api = github_api_url("https://github.com/alice/repo/pull/42").unwrap();
    assert_eq!(api, "https://api.github.com/repos/alice/repo/pulls/42");
}

#[test]
fn github_endpoint_single_digit() {
    let api = github_api_url("https://github.com/o/r/pull/1").unwrap();
    assert_eq!(api, "https://api.github.com/repos/o/r/pulls/1");
}

#[test]
fn github_endpoint_idempotent() {
    let api = github_api_url("https://github.com/alice/repo/pull/42").unwrap();
    // The derived endpoint is not itself a pull-request web URL, so a
    // second derivation rewrites nothing.
    assert!(github_api_url(&api).is_none());
}

#[test]
fn github_rejects_other_shapes() {
    assert!(github_api_url("https://github.com/alice/repo").is_none());
    assert!(github_api_url("https://github.com/alice/repo/pull/").is_none());
    assert!(github_api_url("https://github.com/alice/repo/pull/abc").is_none());
    assert!(github_api_url("https://github.com/alice/repo/issues/42").is_none());
    assert!(github_api_url("http://github.com/alice/repo/pull/42").is_none());
    assert!(github_api_url("https://example.com/alice/repo/pull/42").is_none());
    assert!(github_api_url("").is_none());
}

#[test]
fn gitlab_endpoint_encodes_namespace_slash() {
    let api = gitlab_api_url("https://gitlab.example.com/group/project/-/merge_requests/7")
        .unwrap();
    assert_eq!(
        api,
        "https://gitlab.example.com/api/v4/projects/group%2Fproject/merge_requests/7"
    );
}

#[test]
fn gitlab_endpoint_keeps_rest_of_path() {
    let api = gitlab_api_url("https://git.host.org/ns/proj/-/merge_requests/12").unwrap();
    assert_eq!(
        api,
        "https://git.host.org/api/v4/projects/ns%2Fproj/merge_requests/12"
    );
}

#[test]
fn gitlab_rejects_other_shapes() {
    assert!(gitlab_api_url("https://gitlab.example.com/group/project/merge_requests/7").is_none());
    assert!(gitlab_api_url("https://gitlab.example.com/project/-/merge_requests/7").is_none());
    assert!(gitlab_api_url("http://gitlab.example.com/group/project/-/merge_requests/7").is_none());
    assert!(gitlab_api_url("").is_none());
}

#[test]
fn gitlab_base_extracts_scheme_and_host() {
    assert_eq!(
        gitlab_base_url("https://gitlab.example.com/a/b/-/c").unwrap(),
        "https://gitlab.example.com"
    );
    assert_eq!(
        gitlab_base_url("https://gitlab.example.com").unwrap(),
        "https://gitlab.example.com"
    );
    assert!(gitlab_base_url("https:///a/b").is_none());
    assert!(gitlab_base_url("ftp://host/a").is_none());
}

#[test]
fn gitlab_project_lookup_endpoint() {
    assert_eq!(
        gitlab_project_api_url("https://gitlab.example.com", 1234),
        "https://gitlab.example.com/api/v4/projects/1234"
    );
    assert_eq!(
        gitlab_project_api_url("https://h.example", 0),
        "https://h.example/api/v4/projects/0"
    );
    assert_eq!(
        gitlab_project_api_url("https://h.example", u32::MAX),
        "https://h.example/api/v4/projects/4294967295"
    );
}

#[test]
fn provider_selection_by_host() {
    assert!(selects_github_adapter("https://github.com/alice/repo/pull/42"));
    assert!(!selects_github_adapter("https://gitlab.example.com/g/p/-/merge_requests/7"));
    assert!(!selects_github_adapter("https://github.org/x"));
}

#[test]
fn merge_status_gate() {
    assert!(can_be_merged("can_be_merged"));
    assert!(!can_be_merged("cannot_be_merged"));
    assert!(!can_be_merged(""));
}

#[test]
fn gitlab_declined_is_terminal_not_error() {
    // A status other than can_be_merged declines, whatever the flag says.
    assert_eq!(gitlab_decision("cannot_be_merged", false), Outcome::Declined);
    assert_eq!(gitlab_decision("checking", true), Outcome::Declined);
    assert_eq!(gitlab_decision("can_be_merged", true), Outcome::FetchOnly);
    assert_eq!(gitlab_decision("can_be_merged", false), Outcome::Merge);
}

#[test]
fn github_gate_follows_flag() {
    assert_eq!(github_decision(true), Outcome::FetchOnly);
    assert_eq!(github_decision(false), Outcome::Merge);
}

#[test]
fn descriptor_from_github_fields() {
    let req = MergeRequest::from_github(
        String::from("https://github.com/alice/repo.git"),
        String::from("alice"),
        String::from("feature"),
        String::from("main"),
    )
    .unwrap();
    assert_eq!(req.source_clone_url, "https://github.com/alice/repo.git");
    assert_eq!(req.source_remote_name, "alice");
    assert_eq!(req.source_branch, "feature");
    assert_eq!(req.target_branch, "main");
    assert_eq!(req.mergeable, None);
}

#[test]
fn descriptor_from_gitlab_fields() {
    let req = MergeRequest::from_gitlab(
        String::from("https://gitlab.example.com/bob/repo.git"),
        String::from("bob"),
        String::from("fix"),
        String::from("trunk"),
    )
    .unwrap();
    assert_eq!(req.source_remote_name, "bob");
    assert_eq!(req.mergeable, Some(true));
}

#[test]
fn descriptor_rejects_empty_fields() {
    assert!(MergeRequest::from_github(
        String::new(),
        String::from("alice"),
        String::from("feature"),
        String::from("main"),
    )
    .is_none());
    assert!(MergeRequest::from_gitlab(
        String::from("u"),
        String::from("b"),
        String::from("f"),
        String::new(),
    )
    .is_none());
}
