use cardo::config::{MarkdownConfig, Package};
use cardo::decl::DeclValue;
use cardo::dependency::DependencySource;
use cardo::fetcher::{
    batch_failed, count_results, fetch_outcome, record, should_download, FetchEnv, FetchOutcome,
    FetchResult, Fetcher,
};
use cardo::github::{GitHubError, RetryDecision, RetryState};
use std::collections::HashMap;

/// Drive one dependency's fetch against a simulated filesystem and a stub
/// transport, taking every decision from the library exactly as the
/// orchestrator does: resolve the destination, skip when it exists and no
/// re-download is forced, otherwise retry the transport on the resolved URL
/// under the fixed budget of 3 and record the outcome.
fn fetch_one_simulated(
    fetcher: &Fetcher,
    name: &str,
    source: &DependencySource,
    force: bool,
    files: &mut HashMap<String, String>,
    transport: &dyn Fn(&str) -> Result<String, GitHubError>,
    network_calls: &mut u32,
) -> FetchResult {
    let path = fetcher.destination(source, name);
    if !should_download(force, files.contains_key(&path)) {
        return record(name, path, FetchOutcome::Skipped);
    }
    let url = source.to_raw_url();
    let mut state = RetryState::new(3);
    let outcome = loop {
        *network_calls += 1;
        match transport(&url) {
            Ok(content) => {
                files.insert(path.clone(), content);
                break FetchOutcome::Written;
            }
            Err(e) => match state.on_failure() {
                RetryDecision::RetryAfter(_secs) => continue, // the real loop sleeps here
                RetryDecision::GiveUp => break FetchOutcome::TransportFailed(e),
            },
        }
    };
    record(name, path, outcome)
}

fn fetch_all_simulated(
    fetcher: &Fetcher,
    deps: &[(String, DependencySource)],
    force: bool,
    files: &mut HashMap<String, String>,
    transport: &dyn Fn(&str) -> Result<String, GitHubError>,
    network_calls: &mut u32,
) -> Vec<FetchResult> {
    deps.iter()
        .map(|(name, source)| {
            fetch_one_simulated(fetcher, name, source, force, files, transport, network_calls)
        })
        .collect()
}

fn gh(owner: &str, repo: &str, path: &str) -> DependencySource {
    DependencySource::GitHub {
        owner: owner.to_string(),
        repo: repo.to_string(),
        path: path.to_string(),
        version: None,
    }
}

#[test]
fn test_destination_is_rooted_under_output_dir() {
    let fetcher = Fetcher::new("markdowns".to_string(), None);
    assert_eq!(
        fetcher.destination(&gh("owner", "repo", "a/b.md"), "doc"),
        "markdowns/owner-repo/a/b.md"
    );
}

#[test]
fn test_should_download_truth_table() {
    assert!(!should_download(false, true)); // exists, not forced: skip
    assert!(should_download(false, false));
    assert!(should_download(true, true));
    assert!(should_download(true, false));
}

#[test]
fn test_fetch_twice_without_force_skips_network() {
    let fetcher = Fetcher::new("markdowns".to_string(), None);
    let deps = vec![
        ("one".to_string(), gh("o", "r", "a.md")),
        ("two".to_string(), gh("o", "r", "d/b.md")),
    ];
    let transport = |_url: &str| Ok("content".to_string());
    let mut files = HashMap::new();
    let mut calls: u32 = 0;

    let first = fetch_all_simulated(&fetcher, &deps, false, &mut files, &transport, &mut calls);
    assert_eq!(first.len(), 2);
    assert!(first.iter().all(|r| r.success));
    assert_eq!(calls, 2);

    // Second run: every destination exists, so zero network requests occur.
    let second = fetch_all_simulated(&fetcher, &deps, false, &mut files, &transport, &mut calls);
    assert!(second.iter().all(|r| r.success));
    assert_eq!(calls, 2);
}

#[test]
fn test_force_refetches_existing_files() {
    let fetcher = Fetcher::new("markdowns".to_string(), None);
    let deps = vec![("one".to_string(), gh("o", "r", "a.md"))];
    let transport = |_url: &str| Ok("content".to_string());
    let mut files = HashMap::new();
    let mut calls: u32 = 0;

    fetch_all_simulated(&fetcher, &deps, false, &mut files, &transport, &mut calls);
    fetch_all_simulated(&fetcher, &deps, true, &mut files, &transport, &mut calls);
    assert_eq!(calls, 2);
}

#[test]
fn test_partial_failure_is_isolated() {
    let fetcher = Fetcher::new("markdowns".to_string(), None);
    let deps = vec![
        ("good1".to_string(), gh("o", "r", "a.md")),
        ("bad".to_string(), gh("o", "r", "broken.md")),
        ("good2".to_string(), gh("o", "r", "c.md")),
    ];
    let transport = |url: &str| {
        if url.contains("broken") {
            Err(GitHubError::NetworkError(format!("HTTP 500: {}", url)))
        } else {
            Ok("fine".to_string())
        }
    };
    let mut files = HashMap::new();
    let mut calls: u32 = 0;

    let results = fetch_all_simulated(&fetcher, &deps, false, &mut files, &transport, &mut calls);
    assert_eq!(results.len(), 3);
    let failed: Vec<&FetchResult> = results.iter().filter(|r| !r.success).collect();
    assert_eq!(failed.len(), 1);
    assert_eq!(failed[0].name, "bad");
    assert_eq!(
        failed[0].error.as_deref(),
        Some("Network error: HTTP 500: https://raw.githubusercontent.com/o/r/main/broken.md")
    );
    // The failing dependency used its whole budget: 4 attempts; the other
    // two dependencies each succeeded on their first attempt.
    assert_eq!(calls, 6);
    assert!(files.contains_key("markdowns/o-r/a.md"));
    assert!(files.contains_key("markdowns/o-r/c.md"));
    assert!(!files.contains_key("markdowns/o-r/broken.md"));

    let (succ, fail) = count_results(&results);
    assert_eq!((succ, fail), (2, 1));
    assert!(batch_failed(&results));
}

#[test]
fn test_fetch_end_to_end() {
    let config = MarkdownConfig {
        package: Package {
            name: "docs".to_string(),
            version: "0.1.0".to_string(),
            description: None,
        },
        dependencies: vec![(
            "doc".to_string(),
            DeclValue::Str("github:owner/repo/a/b.md".to_string()),
        )],
    };
    let deps = config.parse_dependencies().unwrap();

    let transport = |url: &str| {
        if url == "https://raw.githubusercontent.com/owner/repo/main/a/b.md" {
            Ok("hello".to_string())
        } else {
            Err(GitHubError::NotFound(url.to_string()))
        }
    };
    let fetcher = Fetcher::new("markdowns".to_string(), None);
    let mut files = HashMap::new();
    let mut calls: u32 = 0;

    let results = fetch_all_simulated(&fetcher, &deps, false, &mut files, &transport, &mut calls);
    assert_eq!(files.get("markdowns/owner-repo/a/b.md").map(String::as_str), Some("hello"));
    assert_eq!(results.len(), 1);
    assert_eq!(results[0].name, "doc");
    assert!(results[0].success);
    assert!(results[0].error.is_none());
    assert!(!batch_failed(&results));
}

#[test]
fn test_record_failure_messages() {
    let r = record(
        "doc",
        "markdowns/a-b/x.md".to_string(),
        FetchOutcome::DirCreateFailed("permission denied".to_string()),
    );
    assert!(!r.success);
    assert_eq!(
        r.error.as_deref(),
        Some("Failed to create directory: permission denied")
    );

    let r = record(
        "doc",
        "p".to_string(),
        FetchOutcome::FileCreateFailed("read-only".to_string()),
    );
    assert_eq!(r.error.as_deref(), Some("Failed to create file: read-only"));

    let r = record(
        "doc",
        "p".to_string(),
        FetchOutcome::WriteFailed("disk full".to_string()),
    );
    assert_eq!(r.error.as_deref(), Some("Failed to write file: disk full"));

    let r = record(
        "doc",
        "p".to_string(),
        FetchOutcome::TransportFailed(GitHubError::NotFound("u".to_string())),
    );
    assert_eq!(r.error.as_deref(), Some("File not found: u"));

    let r = record("doc", "p".to_string(), FetchOutcome::Skipped);
    assert!(r.success);
    assert!(r.error.is_none());
    assert_eq!(r.name, "doc");
    assert_eq!(r.path, "p");
}

fn fresh_env(transport: Result<String, GitHubError>) -> FetchEnv {
    FetchEnv {
        exists: false,
        dir_error: None,
        transport,
        file_error: None,
        write_error: None,
    }
}

#[test]
fn test_batch_results_skip_all_when_present() {
    // Batch form of the idempotent skip: nothing is forced, every
    // destination exists, so every outcome is the skip and none would have
    // consulted the network — whatever the transport would answer.
    let fetcher = Fetcher::new("markdowns".to_string(), None);
    let deps = vec![
        ("one".to_string(), gh("o", "r", "a.md")),
        ("two".to_string(), gh("o", "r", "d/b.md")),
    ];
    let envs = vec![
        FetchEnv {
            exists: true,
            dir_error: None,
            transport: Err(GitHubError::NetworkError("unreachable".to_string())),
            file_error: None,
            write_error: None,
        },
        FetchEnv {
            exists: true,
            dir_error: None,
            transport: Err(GitHubError::NetworkError("unreachable".to_string())),
            file_error: None,
            write_error: None,
        },
    ];
    let results = fetcher.fetch_all_results(&deps, false, &envs);
    assert_eq!(results.len(), 2);
    assert!(results.iter().all(|r| r.success && r.error.is_none()));
    assert_eq!(results[0].path, "markdowns/o-r/a.md");
    assert_eq!(results[1].path, "markdowns/o-r/d/b.md");
}

#[test]
fn test_batch_results_one_failure_isolated() {
    let fetcher = Fetcher::new("markdowns".to_string(), None);
    let deps = vec![
        ("good1".to_string(), gh("o", "r", "a.md")),
        ("bad".to_string(), gh("o", "r", "broken.md")),
        ("good2".to_string(), gh("o", "r", "c.md")),
    ];
    let envs = vec![
        fresh_env(Ok("fine".to_string())),
        fresh_env(Err(GitHubError::NotFound(
            "https://raw.githubusercontent.com/o/r/main/broken.md".to_string(),
        ))),
        fresh_env(Ok("fine".to_string())),
    ];
    let results = fetcher.fetch_all_results(&deps, false, &envs);
    assert_eq!(results.len(), 3);
    let (succ, fail) = count_results(&results);
    assert_eq!((succ, fail), (2, 1));
    assert!(!results[1].success);
    assert_eq!(
        results[1].error.as_deref(),
        Some("File not found: https://raw.githubusercontent.com/o/r/main/broken.md")
    );
    assert!(results[0].success && results[2].success);
}

#[test]
fn test_fetch_outcome_order_of_failures() {
    // Directory failure wins over a transport answer; a write failure is
    // only reached once the file was created.
    let env = FetchEnv {
        exists: false,
        dir_error: Some("denied".to_string()),
        transport: Ok("x".to_string()),
        file_error: None,
        write_error: None,
    };
    assert_eq!(
        fetch_outcome(false, &env),
        FetchOutcome::DirCreateFailed("denied".to_string())
    );
    let env = FetchEnv {
        exists: true,
        dir_error: None,
        transport: Ok("x".to_string()),
        file_error: None,
        write_error: Some("disk full".to_string()),
    };
    // Forced: the skip is bypassed and the write failure surfaces.
    assert_eq!(
        fetch_outcome(true, &env),
        FetchOutcome::WriteFailed("disk full".to_string())
    );
    // Not forced: the existing destination wins.
    assert_eq!(fetch_outcome(false, &env), FetchOutcome::Skipped);
}

#[test]
fn test_count_results_empty_batch() {
    let results: Vec<FetchResult> = Vec::new();
    assert_eq!(count_results(&results), (0, 0));
    assert!(!batch_failed(&results));
}
