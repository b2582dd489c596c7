//! Merges a hosting service's merge request locally. Provider adapters
//! turn a merge-request web URL into the service's API endpoint and the
//! fetched metadata into one normalized descriptor; the orchestrator
//! then names, step by step, the version-control commands that register
//! the source remote, fetch it, materialize a temporary branch, rebase
//! it when the target moved ahead, merge it into the target, and delete
//! it. Which commands run, in which order, and when a step is skipped is
//! proved against a model of the repository's remotes and branches.
pub mod github;
pub mod gitlab;
pub mod plan;
pub mod request;
pub mod text;
