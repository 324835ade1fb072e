//! Orchestration decisions for a batch of fetches: where each file lands,
//! when the network is touched at all, how one dependency's outcome is
//! recorded without disturbing its siblings, and how a batch is judged.
//! Directory creation, the GET itself and the file write are I/O and stay
//! with the caller; every decision between them is here.

use vstd::prelude::*;
use vstd::string::StringExecFns;
use crate::dependency::DependencySource;
use crate::dependency::spec_output_path;
use crate::github::GitHubError;
use crate::github::gh_error_message;

verus! {

/// Outcome of one dependency's fetch, immutable once produced.
#[derive(Debug, Clone, PartialEq, Eq)]
pub struct FetchResult {
    pub name: String,
    pub path: String,
    pub success: bool,
    pub error: Option<String>,
}

/// The orchestrator's configuration: the directory files land under, and
/// the token the transport client authenticates with.
#[derive(Debug, Clone)]
pub struct Fetcher {
    pub output_dir: String,
    pub token: Option<String>,
}

/// How far one dependency's fetch got by the time its result is recorded.
#[derive(Debug, Clone, PartialEq, Eq)]
pub enum FetchOutcome {
    /// The destination already existed and no re-download was forced.
    Skipped,
    /// The content was retrieved and written to the destination.
    Written,
    DirCreateFailed(String),
    FileCreateFailed(String),
    WriteFailed(String),
    TransportFailed(GitHubError),
}

/// Whether an outcome counts as success.
pub open spec fn outcome_success(o: FetchOutcome) -> bool {
    o matches FetchOutcome::Skipped || o matches FetchOutcome::Written
}

/// The message attached to a failed outcome.
pub open spec fn outcome_error(o: FetchOutcome) -> Option<Seq<char>> {
    match o {
        FetchOutcome::Skipped => None,
        FetchOutcome::Written => None,
        FetchOutcome::DirCreateFailed(e) => Some("Failed to create directory: "@ + e@),
        FetchOutcome::FileCreateFailed(e) => Some("Failed to create file: "@ + e@),
        FetchOutcome::WriteFailed(e) => Some("Failed to write file: "@ + e@),
        FetchOutcome::TransportFailed(e) => Some(gh_error_message(e)),
    }
}

/// Whether a fetch may touch the network at all: never when the destination
/// already exists and no re-download is forced — the idempotent skip, with
/// no content-freshness check.
pub fn should_download(force: bool, exists: bool) -> (r: bool)
    ensures
        r == (force || !exists),
{
    force || !exists
}

impl Fetcher {
    pub fn new(output_dir: String, github_token: Option<String>) -> (f: Self)
        ensures
            f.output_dir == output_dir,
            f.token == github_token,
    {
        Fetcher { output_dir, token: github_token }
    }

    /// The destination a descriptor resolves to, rooted under the configured
    /// output directory.
    pub fn destination(&self, source: &DependencySource, name: &str) -> (r: String)
        ensures
            r@ == self.output_dir@ + "/"@ + spec_output_path(*source),
    {
        let mut p = self.output_dir.clone();
        p.append("/");
        let rel = source.output_path(name);
        p.append(rel.as_str());
        proof {
            assert(p@ =~= self.output_dir@ + "/"@ + spec_output_path(*source));
        }
        p
    }
}

/// Record one dependency's outcome. Every outcome, success or failure,
/// yields a result: a failure is isolated here and never aborts the batch.
pub fn record(name: &str, path: String, outcome: FetchOutcome) -> (r: FetchResult)
    ensures
        r.name@ == name@,
        r.path == path,
        r.success == outcome_success(outcome),
        match outcome_error(outcome) {
            Some(m) => r.error matches Some(s) && s@ == m,
            None => r.error is None,
        },
{
    match outcome {
        FetchOutcome::Skipped => FetchResult { name: name.to_owned(), path, success: true, error: None },
        FetchOutcome::Written => FetchResult { name: name.to_owned(), path, success: true, error: None },
        FetchOutcome::DirCreateFailed(e) => {
            let mut m = String::from_str("Failed to create directory: ");
            m.append(e.as_str());
            FetchResult { name: name.to_owned(), path, success: false, error: Some(m) }
        },
        FetchOutcome::FileCreateFailed(e) => {
            let mut m = String::from_str("Failed to create file: ");
            m.append(e.as_str());
            FetchResult { name: name.to_owned(), path, success: false, error: Some(m) }
        },
        FetchOutcome::WriteFailed(e) => {
            let mut m = String::from_str("Failed to write file: ");
            m.append(e.as_str());
            FetchResult { name: name.to_owned(), path, success: false, error: Some(m) }
        },
        FetchOutcome::TransportFailed(e) => FetchResult {
            name: name.to_owned(),
            path,
            success: false,
            error: Some(e.message()),
        },
    }
}

/// The answers one dependency's fetch would get from its surroundings,
/// handed in as plain values by whatever performs the I/O: whether the
/// destination already exists, and what directory creation, the retried
/// transport, file creation and the write answer when they are reached.
#[derive(Debug, PartialEq, Eq)]
pub struct FetchEnv {
    pub exists: bool,
    pub dir_error: Option<String>,
    pub transport: Result<String, GitHubError>,
    pub file_error: Option<String>,
    pub write_error: Option<String>,
}

/// Whether a fetch in environment `env` consults the network at all: only
/// when it is not skipped and its directory was created.
pub open spec fn consults_network(force: bool, env: FetchEnv) -> bool {
    (force || !env.exists) && env.dir_error is None
}

/// The outcome of one dependency's fetch in environment `env`: the skip
/// consults nothing beyond existence; otherwise directory creation, the
/// retried transport, file creation and the write are consulted in that
/// order, and the first failure ends the fetch.
pub open spec fn spec_outcome(force: bool, env: FetchEnv) -> FetchOutcome {
    if !(force || !env.exists) {
        FetchOutcome::Skipped
    } else {
        match env.dir_error {
            Some(e) => FetchOutcome::DirCreateFailed(e),
            None => match env.transport {
                Err(e) => FetchOutcome::TransportFailed(e),
                Ok(_) => match env.file_error {
                    Some(e) => FetchOutcome::FileCreateFailed(e),
                    None => match env.write_error {
                        Some(e) => FetchOutcome::WriteFailed(e),
                        None => FetchOutcome::Written,
                    },
                },
            },
        }
    }
}

/// Decide one dependency's outcome from the answers in `env`, exactly as
/// `spec_outcome` orders them.
pub fn fetch_outcome(force: bool, env: &FetchEnv) -> (o: FetchOutcome)
    ensures
        o == spec_outcome(force, *env),
{
    if !should_download(force, env.exists) {
        return FetchOutcome::Skipped;
    }
    match &env.dir_error {
        Some(e) => FetchOutcome::DirCreateFailed(e.clone()),
        None => match &env.transport {
            Err(e) => FetchOutcome::TransportFailed(e.duplicate()),
            Ok(_) => match &env.file_error {
                Some(e) => FetchOutcome::FileCreateFailed(e.clone()),
                None => match &env.write_error {
                    Some(e) => FetchOutcome::WriteFailed(e.clone()),
                    None => FetchOutcome::Written,
                },
            },
        },
    }
}

impl Fetcher {
    /// The results of a whole batch, one per dependency in order, each
    /// recorded from its own environment alone: no dependency's failure
    /// reaches another's result, and a skipped dependency never consults
    /// the network (`consults_network`).
    pub fn fetch_all_results(
        &self,
        deps: &Vec<(String, DependencySource)>,
        force: bool,
        envs: &Vec<FetchEnv>,
    ) -> (results: Vec<FetchResult>)
        requires
            envs@.len() == deps@.len(),
        ensures
            results@.len() == deps@.len(),
            forall|i: int|
                0 <= i < deps@.len() ==> {
                    &&& (#[trigger] results@[i]).name@ == deps@[i].0@
                    &&& results@[i].path@ == self.output_dir@ + "/"@ + spec_output_path(deps@[i].1)
                    &&& results@[i].success == outcome_success(spec_outcome(force, envs@[i]))
                    &&& match outcome_error(spec_outcome(force, envs@[i])) {
                        Some(m) => results@[i].error matches Some(s) && s@ == m,
                        None => results@[i].error is None,
                    }
                },
    {
        let n = deps.len();
        let mut results: Vec<FetchResult> = Vec::new();
        let mut i: usize = 0;
        while i < n
            invariant
                i <= n,
                n == deps@.len(),
                envs@.len() == deps@.len(),
                results@.len() == i as nat,
                forall|k: int|
                    0 <= k < i ==> {
                        &&& (#[trigger] results@[k]).name@ == deps@[k].0@
                        &&& results@[k].path@ == self.output_dir@ + "/"@ + spec_output_path(
                            deps@[k].1,
                        )
                        &&& results@[k].success == outcome_success(spec_outcome(force, envs@[k]))
                        &&& match outcome_error(spec_outcome(force, envs@[k])) {
                            Some(m) => results@[k].error matches Some(s) && s@ == m,
                            None => results@[k].error is None,
                        }
                    },
            decreases n - i,
        {
            let path = self.destination(&deps[i].1, deps[i].0.as_str());
            let outcome = fetch_outcome(force, &envs[i]);
            results.push(record(deps[i].0.as_str(), path, outcome));
            i = i + 1;
        }
        results
    }
}

/// Idempotence law for a batch: with no force and every destination already
/// present, no dependency consults the network and every outcome is the
/// successful skip. A second run after a fully successful fetch therefore
/// performs zero network requests, whatever the transport would have
/// answered; `fetch_all_results` turns these outcomes into all-success
/// results by its contract.
pub proof fn lemma_second_run_offline(force: bool, envs: Seq<FetchEnv>)
    requires
        !force,
        forall|i: int| 0 <= i < envs.len() ==> (#[trigger] envs[i]).exists,
    ensures
        forall|i: int| 0 <= i < envs.len() ==> !consults_network(force, #[trigger] envs[i]),
        forall|i: int|
            0 <= i < envs.len() ==> spec_outcome(force, #[trigger] envs[i])
                == FetchOutcome::Skipped,
        forall|i: int| 0 <= i < envs.len() ==> outcome_success(spec_outcome(force, #[trigger] envs[i])),
{
}

/// Partial-failure law for a batch: when one dependency's transport fails
/// and every other dependency's steps answer success, only that
/// dependency's outcome is the recorded transport failure, and every other
/// outcome is a success — one failure never prevents the rest of the batch
/// from completing.
pub proof fn lemma_failure_isolated(force: bool, envs: Seq<FetchEnv>, j: int, e: GitHubError)
    requires
        0 <= j < envs.len(),
        envs[j] == (FetchEnv {
            exists: false,
            dir_error: None,
            transport: Err(e),
            file_error: None,
            write_error: None,
        }),
        forall|i: int|
            0 <= i < envs.len() && i != j ==> {
                &&& (#[trigger] envs[i]).dir_error is None
                &&& envs[i].transport is Ok
                &&& envs[i].file_error is None
                &&& envs[i].write_error is None
            },
    ensures
        spec_outcome(force, envs[j]) == FetchOutcome::TransportFailed(e),
        !outcome_success(spec_outcome(force, envs[j])),
        forall|i: int|
            0 <= i < envs.len() && i != j ==> outcome_success(
                spec_outcome(force, #[trigger] envs[i]),
            ),
{
}

/// Every result of an all-success batch counts: a batch with exactly one
/// failed result has `len - 1` successes.
pub proof fn lemma_success_count_all(rs: Seq<FetchResult>)
    requires
        forall|i: int| 0 <= i < rs.len() ==> (#[trigger] rs[i]).success,
    ensures
        success_count(rs) == rs.len(),
    decreases rs.len(),
{
    if rs.len() > 0 {
        lemma_success_count_all(rs.drop_last());
    }
}

/// Counting form of the partial-failure law: a batch whose results fail at
/// exactly one position has exactly `len - 1` successes.
pub proof fn lemma_success_count_one_failure(rs: Seq<FetchResult>, j: int)
    requires
        0 <= j < rs.len(),
        !rs[j].success,
        forall|i: int| 0 <= i < rs.len() && i != j ==> (#[trigger] rs[i]).success,
    ensures
        success_count(rs) + 1 == rs.len(),
    decreases rs.len(),
{
    if j == rs.len() - 1 {
        lemma_success_count_all(rs.drop_last());
    } else {
        assert(!rs.drop_last()[j].success);
        lemma_success_count_one_failure(rs.drop_last(), j);
    }
}

/// Number of results marked successful.
pub open spec fn success_count(rs: Seq<FetchResult>) -> nat
    decreases rs.len(),
{
    if rs.len() == 0 {
        0
    } else {
        success_count(rs.drop_last()) + if rs.last().success {
            1nat
        } else {
            0nat
        }
    }
}

/// Count the succeeded and the failed results of a batch.
pub fn count_results(results: &Vec<FetchResult>) -> (c: (usize, usize))
    ensures
        c.0 as nat == success_count(results@),
        c.0 + c.1 == results@.len(),
{
    let n = results.len();
    let mut i: usize = 0;
    let mut succ: usize = 0;
    while i < n
        invariant
            i <= n,
            n == results@.len(),
            succ <= i,
            succ as nat == success_count(results@.subrange(0, i as int)),
        decreases n - i,
    {
        proof {
            assert(results@.subrange(0, i + 1).drop_last() =~= results@.subrange(0, i as int));
            assert(results@.subrange(0, i + 1).last() == results@[i as int]);
        }
        if results[i].success {
            succ = succ + 1;
        }
        i = i + 1;
    }
    proof {
        assert(results@.subrange(0, n as int) =~= results@);
    }
    (succ, n - succ)
}

/// The batch outcome: the operation as a whole has failed exactly when at
/// least one dependency's result did, however many others succeeded.
pub fn batch_failed(results: &Vec<FetchResult>) -> (r: bool)
    ensures
        r == exists|i: int| 0 <= i < results@.len() && !results@[i].success,
{
    let n = results.len();
    let mut i: usize = 0;
    while i < n
        invariant
            i <= n,
            n == results@.len(),
            forall|k: int| 0 <= k < i ==> results@[k].success,
        decreases n - i,
    {
        if !results[i].success {
            return true;
        }
        i = i + 1;
    }
    false
}

} // verus!
