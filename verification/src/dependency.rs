//! Parsing a declaration into a normalized source descriptor, and resolving
//! a descriptor into its fetch URL and its output path, laid out so that
//! distinct repositories stay apart as far as the `{owner}-{repo}` join
//! allows (see `lemma_output_path_collision`).

use vstd::prelude::*;
use vstd::string::StrSliceExecFns;
use vstd::string::StringExecFns;
use crate::decl::{DeclEntry, DeclValue, find_key, get_str, has_key, lookup_str};
use crate::strutil::{find_from, rfind, has_prefix, find_char, str_starts_with, suffix_after_last};
use crate::strutil::lemma_find_from_at;
use crate::strutil::count_char;
use crate::strutil::lemma_count_at_least_two;
use crate::strutil::lemma_find_from_bounds;

verus! {

/// A normalized dependency source: a file in a hosted repository, or a
/// direct URL.
#[derive(Debug, Clone, PartialEq, Eq)]
pub enum DependencySource {
    GitHub { owner: String, repo: String, path: String, version: Option<Version> },
    Url(String),
}

/// A version-control reference pinning the content; absence means the
/// default branch.
#[derive(Debug, Clone, PartialEq, Eq)]
pub enum Version {
    Tag(String),
    Branch(String),
    Commit(String),
}

/// A declaration the parser rejects, with its message.
#[derive(Debug, Clone, PartialEq, Eq)]
pub enum DependencyError {
    InvalidFormat(String),
    InvalidGitHubUrl(String),
    MissingField(String),
}

pub open spec fn gh_prefix() -> Seq<char> {
    "github:"@
}

pub open spec fn http_prefix() -> Seq<char> {
    "http://"@
}

pub open spec fn https_prefix() -> Seq<char> {
    "https://"@
}

/// What follows the `github:` prefix.
pub open spec fn gh_rest(s: Seq<char>) -> Seq<char> {
    s.skip(gh_prefix().len() as int)
}

/// `s` with an optional `github:` prefix removed.
pub open spec fn strip_gh_opt(s: Seq<char>) -> Seq<char> {
    if has_prefix(s, gh_prefix()) {
        gh_rest(s)
    } else {
        s
    }
}

/// A well-formed short path: at least three `/`-separated segments — two
/// separators must occur — and what follows the second separator, the file
/// path, is neither empty nor beginning with `/`. The last two conditions
/// establish the descriptor invariant on `path`.
pub open spec fn gh_segments_ok(s: Seq<char>) -> bool {
    let i1 = find_from(s, '/', 0);
    let i2 = find_from(s, '/', i1 + 1);
    i1 < s.len() && i2 < s.len() && i2 + 1 < s.len() && s[i2 + 1] != '/'
}

/// Segment before the first `/`.
pub open spec fn gh_owner(s: Seq<char>) -> Seq<char> {
    s.subrange(0, find_from(s, '/', 0))
}

/// Segment between the first and the second `/`.
pub open spec fn gh_repo(s: Seq<char>) -> Seq<char> {
    let i1 = find_from(s, '/', 0);
    s.subrange(i1 + 1, find_from(s, '/', i1 + 1))
}

/// Everything after the second `/`: the remaining segments joined back with
/// their separators.
pub open spec fn gh_path(s: Seq<char>) -> Seq<char> {
    let i1 = find_from(s, '/', 0);
    s.subrange(find_from(s, '/', i1 + 1) + 1, s.len() as int)
}

/// The data-model invariant of a descriptor: a repository file's path is
/// never empty and never begins with `/`.
pub open spec fn source_wf(d: DependencySource) -> bool {
    match d {
        DependencySource::GitHub { path, .. } => path@.len() > 0 && path@[0] != '/',
        DependencySource::Url(_) => true,
    }
}

/// Message carried by the error for a malformed short path.
pub open spec fn bad_path_message(s: Seq<char>) -> Seq<char> {
    "Expected format: owner/repo/path/to/file.md, got: "@ + s
}

/// The version a declaration table selects: `tag` wins over `branch`, and
/// `branch` over `rev`; a key whose value is not a string is passed over.
pub open spec fn table_version_matches(entries: Seq<(String, DeclEntry)>, v: Option<Version>) -> bool {
    match lookup_str(entries, "tag"@) {
        Some(t) => v matches Some(Version::Tag(x)) && x@ == t,
        None => match lookup_str(entries, "branch"@) {
            Some(b) => v matches Some(Version::Branch(x)) && x@ == b,
            None => match lookup_str(entries, "rev"@) {
                Some(c) => v matches Some(Version::Commit(x)) && x@ == c,
                None => v is None,
            },
        },
    }
}

/// The declarations the parser accepts.
pub open spec fn parse_ok(v: DeclValue) -> bool {
    match v {
        DeclValue::Str(s) => if has_prefix(s@, gh_prefix()) {
            gh_segments_ok(gh_rest(s@))
        } else {
            has_prefix(s@, http_prefix()) || has_prefix(s@, https_prefix())
        },
        DeclValue::Table(entries) => match lookup_str(entries@, "git"@) {
            Some(g) => gh_segments_ok(strip_gh_opt(g)),
            None => false,
        },
        DeclValue::Other => false,
    }
}

/// The descriptor a successful parse returns for declaration `v`.
pub open spec fn source_matches(d: DependencySource, v: DeclValue) -> bool {
    match v {
        DeclValue::Str(s) => if has_prefix(s@, gh_prefix()) {
            &&& d matches DependencySource::GitHub { owner, repo, path, version }
            &&& owner@ == gh_owner(gh_rest(s@))
            &&& repo@ == gh_repo(gh_rest(s@))
            &&& path@ == gh_path(gh_rest(s@))
            &&& version is None
        } else {
            d matches DependencySource::Url(u) && u@ == s@
        },
        DeclValue::Table(entries) => match lookup_str(entries@, "git"@) {
            Some(g) => {
                &&& d matches DependencySource::GitHub { owner, repo, path, version }
                &&& owner@ == gh_owner(strip_gh_opt(g))
                &&& repo@ == gh_repo(strip_gh_opt(g))
                &&& path@ == gh_path(strip_gh_opt(g))
                &&& table_version_matches(entries@, version)
            },
            None => false,
        },
        DeclValue::Other => false,
    }
}

/// The error a failed parse returns for declaration `v`.
pub open spec fn parse_error_matches(e: DependencyError, v: DeclValue) -> bool {
    match v {
        DeclValue::Str(s) => if has_prefix(s@, gh_prefix()) {
            e matches DependencyError::InvalidGitHubUrl(m) && m@ == bad_path_message(gh_rest(s@))
        } else {
            e matches DependencyError::InvalidFormat(m) && m@ == "Unknown dependency format: "@ + s@
        },
        DeclValue::Table(entries) => if has_key(entries@, "git"@) {
            match lookup_str(entries@, "git"@) {
                Some(g) => e matches DependencyError::InvalidGitHubUrl(m) && m@ == bad_path_message(
                    strip_gh_opt(g),
                ),
                None => e matches DependencyError::InvalidFormat(m) && m@
                    == "git field must be a string"@,
            }
        } else {
            e matches DependencyError::MissingField(m) && m@ == "git"@
        },
        DeclValue::Other => e matches DependencyError::InvalidFormat(m) && m@
            == "Dependency must be a string or table"@,
    }
}

/// Message text of a parse error, as reporting shows it.
pub open spec fn dependency_error_message(e: DependencyError) -> Seq<char> {
    match e {
        DependencyError::InvalidFormat(m) => "Invalid dependency format: "@ + m@,
        DependencyError::InvalidGitHubUrl(m) => "Invalid GitHub URL: "@ + m@,
        DependencyError::MissingField(m) => "Missing required field: "@ + m@,
    }
}

impl DependencyError {
    /// Human-readable message of this error.
    pub fn message(&self) -> (r: String)
        ensures
            r@ == dependency_error_message(*self),
    {
        match self {
            DependencyError::InvalidFormat(m) => {
                let mut t = String::from_str("Invalid dependency format: ");
                t.append(m.as_str());
                t
            },
            DependencyError::InvalidGitHubUrl(m) => {
                let mut t = String::from_str("Invalid GitHub URL: ");
                t.append(m.as_str());
                t
            },
            DependencyError::MissingField(m) => {
                let mut t = String::from_str("Missing required field: ");
                t.append(m.as_str());
                t
            },
        }
    }
}

fn invalid_github(s: &str) -> (e: DependencyError)
    ensures
        e matches DependencyError::InvalidGitHubUrl(m) && m@ == bad_path_message(s@),
{
    let mut m = String::from_str("Expected format: owner/repo/path/to/file.md, got: ");
    m.append(s);
    DependencyError::InvalidGitHubUrl(m)
}

/// The ref that resolution substitutes into the raw-content URL: the
/// version's string value, or `main` when no version is pinned.
pub open spec fn ref_part(version: Option<Version>) -> Seq<char> {
    match version {
        Some(Version::Tag(t)) => t@,
        Some(Version::Branch(b)) => b@,
        Some(Version::Commit(c)) => c@,
        None => "main"@,
    }
}

/// The fetchable URL of a descriptor: the raw-content template for a
/// repository file, the string itself for a direct URL.
pub open spec fn raw_url(d: DependencySource) -> Seq<char> {
    match d {
        DependencySource::GitHub { owner, repo, path, version } =>
            "https://raw.githubusercontent.com/"@ + owner@ + "/"@ + repo@ + "/"@ + ref_part(version)
                + "/"@ + path@,
        DependencySource::Url(u) => u@,
    }
}

/// The last `/`-delimited segment of `s`.
pub open spec fn last_segment(s: Seq<char>) -> Seq<char> {
    s.subrange(rfind(s, '/') + 1, s.len() as int)
}

/// The file name a descriptor resolves to.
pub open spec fn spec_file_name(d: DependencySource) -> Seq<char> {
    match d {
        DependencySource::GitHub { path, .. } => last_segment(path@),
        DependencySource::Url(u) => last_segment(u@),
    }
}

/// The relative output path of a descriptor: `{owner}-{repo}/{path}` for a
/// repository file, the last URL segment for a direct URL. The join keeps
/// repositories apart as far as it can: `lemma_output_path_collision` proves
/// that with `-`-free owner names equal outputs force equal descriptors, and
/// also why the qualification is needed — an owner with `-` in it can
/// produce the same join as another owner/repo pair.
pub open spec fn spec_output_path(d: DependencySource) -> Seq<char> {
    match d {
        DependencySource::GitHub { owner, repo, path, .. } => owner@ + "-"@ + repo@ + "/"@ + path@,
        DependencySource::Url(u) => last_segment(u@),
    }
}

/// Label of a version for listings: `tag:`/`branch:`/`commit:` plus the
/// value, or `main` when no version is pinned.
pub open spec fn version_label(v: Option<Version>) -> Seq<char> {
    match v {
        Some(Version::Tag(t)) => "tag:"@ + t@,
        Some(Version::Branch(b)) => "branch:"@ + b@,
        Some(Version::Commit(c)) => "commit:"@ + c@,
        None => "main"@,
    }
}

/// One-line rendering of a descriptor for listings.
pub open spec fn spec_describe(d: DependencySource) -> Seq<char> {
    match d {
        DependencySource::GitHub { owner, repo, path, version } => "github:"@ + owner@ + "/"@
            + repo@ + "/"@ + path@ + " ("@ + version_label(version) + ")"@,
        DependencySource::Url(u) => u@,
    }
}

impl DependencySource {
    /// Parse a raw declaration into a descriptor. A plain string is either a
    /// `github:` short path or a direct URL; a table needs a string under
    /// `git` and may pin a version under `tag`, `branch` or `rev`.
    pub fn parse(value: &DeclValue) -> (r: Result<DependencySource, DependencyError>)
        ensures
            r is Ok <==> parse_ok(*value),
            r matches Ok(d) ==> source_matches(d, *value),
            r matches Ok(d) ==> source_wf(d),
            r matches Err(e) ==> parse_error_matches(e, *value),
    {
        match value {
            DeclValue::Str(s) => {
                if str_starts_with(s.as_str(), "github:") {
                    proof {
                        reveal_strlit("github:");
                    }
                    let rest = s.as_str().substring_char(7, s.as_str().unicode_len());
                    proof {
                        assert(rest@ =~= gh_rest(s@));
                    }
                    Self::parse_github_simple(rest)
                } else if str_starts_with(s.as_str(), "http://") || str_starts_with(
                    s.as_str(),
                    "https://",
                ) {
                    Ok(DependencySource::Url(s.clone()))
                } else {
                    let mut m = String::from_str("Unknown dependency format: ");
                    m.append(s.as_str());
                    Err(DependencyError::InvalidFormat(m))
                }
            },
            DeclValue::Table(entries) => {
                let gi = find_key(entries, "git");
                if gi < entries.len() {
                    match &entries[gi].1 {
                        DeclEntry::Str(g) => {
                            let gs = if str_starts_with(g.as_str(), "github:") {
                                proof {
                                    reveal_strlit("github:");
                                }
                                let stripped = g.as_str().substring_char(
                                    7,
                                    g.as_str().unicode_len(),
                                );
                                proof {
                                    assert(stripped@ =~= gh_rest(g@));
                                }
                                stripped
                            } else {
                                g.as_str()
                            };
                            match Self::parse_github_path(gs) {
                                Ok((owner, repo, path)) => {
                                    let version = parse_version(entries);
                                    Ok(DependencySource::GitHub { owner, repo, path, version })
                                },
                                Err(e) => Err(e),
                            }
                        },
                        DeclEntry::Other => Err(
                            DependencyError::InvalidFormat(
                                String::from_str("git field must be a string"),
                            ),
                        ),
                    }
                } else {
                    Err(DependencyError::MissingField(String::from_str("git")))
                }
            },
            DeclValue::Other => Err(
                DependencyError::InvalidFormat(
                    String::from_str("Dependency must be a string or table"),
                ),
            ),
        }
    }

    /// Parse a bare short path; no version is pinned.
    pub fn parse_github_simple(s: &str) -> (r: Result<DependencySource, DependencyError>)
        ensures
            r is Ok <==> gh_segments_ok(s@),
            r matches Ok(d) ==> {
                &&& d matches DependencySource::GitHub { owner, repo, path, version }
                &&& owner@ == gh_owner(s@)
                &&& repo@ == gh_repo(s@)
                &&& path@ == gh_path(s@)
                &&& version is None
            },
            r matches Ok(d) ==> source_wf(d),
            r matches Err(e) ==> e matches DependencyError::InvalidGitHubUrl(m) && m@
                == bad_path_message(s@),
    {
        match Self::parse_github_path(s) {
            Ok((owner, repo, path)) => Ok(
                DependencySource::GitHub { owner, repo, path, version: None },
            ),
            Err(e) => Err(e),
        }
    }

    /// Split a short path `owner/repo/rest...` into its three parts. Fewer
    /// than three segments is malformed, and so is a file path that would be
    /// empty or begin with `/`: the parts of an accepted short path satisfy
    /// the descriptor invariant.
    pub fn parse_github_path(s: &str) -> (r: Result<(String, String, String), DependencyError>)
        ensures
            r is Ok <==> gh_segments_ok(s@),
            r matches Ok(t) ==> t.0@ == gh_owner(s@) && t.1@ == gh_repo(s@) && t.2@ == gh_path(s@)
                && t.2@.len() > 0 && t.2@[0] != '/',
            r matches Err(e) ==> e matches DependencyError::InvalidGitHubUrl(m) && m@
                == bad_path_message(s@),
    {
        let n = s.unicode_len();
        let i1 = find_char(s, '/', 0);
        if i1 == n {
            return Err(invalid_github(s));
        }
        let i2 = find_char(s, '/', i1 + 1);
        if i2 == n {
            return Err(invalid_github(s));
        }
        if i2 + 1 == n {
            return Err(invalid_github(s));
        }
        if s.get_char(i2 + 1) == '/' {
            return Err(invalid_github(s));
        }
        let owner = s.substring_char(0, i1).to_owned();
        let repo = s.substring_char(i1 + 1, i2).to_owned();
        let path = s.substring_char(i2 + 1, n).to_owned();
        Ok((owner, repo, path))
    }

    /// The fetchable URL of this descriptor.
    pub fn to_raw_url(&self) -> (r: String)
        ensures
            r@ == raw_url(*self),
    {
        match self {
            DependencySource::GitHub { owner, repo, path, version } => {
                let mut u = String::from_str("https://raw.githubusercontent.com/");
                u.append(owner.as_str());
                u.append("/");
                u.append(repo.as_str());
                u.append("/");
                match version {
                    Some(Version::Tag(t)) => u.append(t.as_str()),
                    Some(Version::Branch(b)) => u.append(b.as_str()),
                    Some(Version::Commit(c)) => u.append(c.as_str()),
                    None => u.append("main"),
                }
                u.append("/");
                u.append(path.as_str());
                proof {
                    assert(u@ =~= raw_url(*self));
                }
                u
            },
            DependencySource::Url(url) => url.clone(),
        }
    }

    /// The file name this descriptor resolves to: the last segment of the
    /// repository path, or of the URL.
    pub fn file_name(&self) -> (r: String)
        ensures
            r@ == spec_file_name(*self),
    {
        match self {
            DependencySource::GitHub { path, .. } => suffix_after_last(path.as_str(), '/'),
            DependencySource::Url(u) => suffix_after_last(u.as_str(), '/'),
        }
    }

    /// The relative output path of this descriptor, under a `{owner}-{repo}/`
    /// root. For owners without `-` in their name, distinct repositories
    /// never collide and equal paths within one repository are the intended
    /// idempotent overwrite (`lemma_output_path_collision`); owners with `-`
    /// can defeat the join, as that law's comment spells out.
    pub fn output_path(&self, _name: &str) -> (r: String)
        ensures
            r@ == spec_output_path(*self),
    {
        match self {
            DependencySource::GitHub { owner, repo, path, .. } => {
                let mut p = owner.clone();
                p.append("-");
                p.append(repo.as_str());
                p.append("/");
                p.append(path.as_str());
                proof {
                    assert(p@ =~= spec_output_path(*self));
                }
                p
            },
            DependencySource::Url(_) => self.file_name(),
        }
    }

    /// One-line rendering for listings: the short form with its version
    /// label for a repository file, the URL itself otherwise.
    pub fn describe(&self) -> (r: String)
        ensures
            r@ == spec_describe(*self),
    {
        match self {
            DependencySource::GitHub { owner, repo, path, version } => {
                let mut d = String::from_str("github:");
                d.append(owner.as_str());
                d.append("/");
                d.append(repo.as_str());
                d.append("/");
                d.append(path.as_str());
                d.append(" (");
                match version {
                    Some(Version::Tag(t)) => {
                        d.append("tag:");
                        d.append(t.as_str());
                    },
                    Some(Version::Branch(b)) => {
                        d.append("branch:");
                        d.append(b.as_str());
                    },
                    Some(Version::Commit(c)) => {
                        d.append("commit:");
                        d.append(c.as_str());
                    },
                    None => d.append("main"),
                }
                d.append(")");
                proof {
                    assert(d@ =~= spec_describe(*self));
                }
                d
            },
            DependencySource::Url(u) => u.clone(),
        }
    }
}

/// Parsing law for short paths: a short path assembled as
/// `owner/repo/<tail>`, with `/`-free owner and repo segments and a tail
/// that neither is empty nor begins with `/`, is accepted, and its parts
/// come back exactly — the remaining segments keep their separators. The
/// four-segment form `owner/repo/p1/p2` with nonempty `p1` is the instance
/// where `tail` is `p1/p2`.
pub proof fn lemma_short_path_parts(
    s: Seq<char>,
    owner: Seq<char>,
    repo: Seq<char>,
    tail: Seq<char>,
)
    requires
        s == owner + seq!['/'] + repo + seq!['/'] + tail,
        forall|k: int| 0 <= k < owner.len() ==> owner[k] != '/',
        forall|k: int| 0 <= k < repo.len() ==> repo[k] != '/',
        tail.len() > 0,
        tail[0] != '/',
    ensures
        gh_segments_ok(s),
        gh_owner(s) == owner,
        gh_repo(s) == repo,
        gh_path(s) == tail,
{
    let i1 = owner.len() as int;
    let i2: int = owner.len() as int + repo.len() as int + 1;
    assert(s.len() == owner.len() + repo.len() + tail.len() + 2);
    assert(s[i1] == '/');
    assert(forall|k: int| 0 <= k < i1 ==> s[k] == owner[k]);
    lemma_find_from_at(s, '/', 0, i1);
    assert(s[i2] == '/');
    assert(forall|k: int| i1 < k < i2 ==> s[k] == repo[k - i1 - 1]);
    lemma_find_from_at(s, '/', i1 + 1, i2);
    assert(s[i2 + 1] == tail[0]);
    assert(gh_owner(s) =~= owner);
    assert(gh_repo(s) =~= repo);
    assert(gh_path(s) =~= tail);
}

/// Collision law for the output layout, as strong as the `{owner}-{repo}`
/// join allows. For repository sources whose owners hold no `-` — and, as
/// parsing guarantees, whose owners and repos hold no `/` — equal output
/// paths force equal owner, repo and path: distinct repositories never
/// collide, and within one repository only equal full paths collide, the
/// intended idempotent overwrite. An owner with `-` in it can defeat the
/// join (`a-b`/`c` and `a`/`b-c` both map to `a-b-c/…`), so the guarantee
/// is conditional on `-`-free owner names; the layout itself is fixed by
/// the produced-filesystem contract.
pub proof fn lemma_output_path_collision(
    o1: Seq<char>,
    r1: Seq<char>,
    p1: Seq<char>,
    o2: Seq<char>,
    r2: Seq<char>,
    p2: Seq<char>,
)
    requires
        forall|k: int| 0 <= k < o1.len() ==> o1[k] != '-' && o1[k] != '/',
        forall|k: int| 0 <= k < o2.len() ==> o2[k] != '-' && o2[k] != '/',
        forall|k: int| 0 <= k < r1.len() ==> r1[k] != '/',
        forall|k: int| 0 <= k < r2.len() ==> r2[k] != '/',
        o1 + "-"@ + r1 + "/"@ + p1 == o2 + "-"@ + r2 + "/"@ + p2,
    ensures
        o1 == o2,
        r1 == r2,
        p1 == p2,
{
    reveal_strlit("-");
    reveal_strlit("/");
    let s = o1 + "-"@ + r1 + "/"@ + p1;
    let t = o2 + "-"@ + r2 + "/"@ + p2;
    assert(s == t);
    let a1 = o1.len() as int;
    let a2 = o2.len() as int;
    assert(s[a1] == '-');
    assert(forall|k: int| 0 <= k < a1 ==> s[k] == o1[k]);
    lemma_find_from_at(s, '-', 0, a1);
    assert(t[a2] == '-');
    assert(forall|k: int| 0 <= k < a2 ==> t[k] == o2[k]);
    lemma_find_from_at(t, '-', 0, a2);
    assert(a1 == a2);
    assert(o1 =~= o2);
    let b1: int = o1.len() as int + 1 + r1.len() as int;
    let b2: int = o2.len() as int + 1 + r2.len() as int;
    assert(s[b1] == '/');
    assert(forall|k: int| a1 < k < b1 ==> s[k] == r1[k - a1 - 1]);
    assert(forall|k: int| 0 <= k < b1 ==> s[k] != '/');
    lemma_find_from_at(s, '/', 0, b1);
    assert(t[b2] == '/');
    assert(forall|k: int| a2 < k < b2 ==> t[k] == r2[k - a2 - 1]);
    assert(forall|k: int| 0 <= k < b2 ==> t[k] != '/');
    lemma_find_from_at(t, '/', 0, b2);
    assert(b1 == b2);
    assert forall|k: int| 0 <= k < r1.len() implies r1[k] == r2[k] by {
        assert(r1[k] == s[a1 + 1 + k]);
        assert(r2[k] == t[a2 + 1 + k]);
    }
    assert(r1 =~= r2);
    assert(s.len() == b1 + 1 + p1.len());
    assert(t.len() == b2 + 1 + p2.len());
    assert forall|k: int| 0 <= k < p1.len() implies p1[k] == p2[k] by {
        assert(p1[k] == s[b1 + 1 + k]);
        assert(p2[k] == t[b2 + 1 + k]);
    }
    assert(p1 =~= p2);
}

/// Segment-count law: where `/` occurs fewer than twice — that is, where
/// splitting on `/` gives fewer than three segments — no short path is
/// accepted, and `parse_github_path` answers `InvalidGitHubUrl`, by its
/// contract.
pub proof fn lemma_few_segments_rejected(s: Seq<char>)
    ensures
        count_char(s, '/') < 2 ==> !gh_segments_ok(s),
{
    if gh_segments_ok(s) {
        let i1 = find_from(s, '/', 0);
        lemma_find_from_bounds(s, '/', 0);
        let i2 = find_from(s, '/', i1 + 1);
        lemma_find_from_bounds(s, '/', i1 + 1);
        lemma_count_at_least_two(s, '/', i1, i2);
    }
}

/// Parsing law for the `github:` short form: `github:owner/repo/<tail>`
/// carries the prefix, its remainder is a well-formed short path, and the
/// parts the parser returns are exactly `owner`, `repo` and `tail` — with
/// no version pinned, by `parse`'s contract for prefixed strings.
pub proof fn lemma_parse_github_short(
    s: Seq<char>,
    owner: Seq<char>,
    repo: Seq<char>,
    tail: Seq<char>,
)
    requires
        s == gh_prefix() + owner + seq!['/'] + repo + seq!['/'] + tail,
        forall|k: int| 0 <= k < owner.len() ==> owner[k] != '/',
        forall|k: int| 0 <= k < repo.len() ==> repo[k] != '/',
        tail.len() > 0,
        tail[0] != '/',
    ensures
        has_prefix(s, gh_prefix()),
        gh_segments_ok(gh_rest(s)),
        gh_owner(gh_rest(s)) == owner,
        gh_repo(gh_rest(s)) == repo,
        gh_path(gh_rest(s)) == tail,
{
    assert(s.subrange(0, gh_prefix().len() as int) =~= gh_prefix());
    assert(gh_rest(s) =~= owner + seq!['/'] + repo + seq!['/'] + tail);
    lemma_short_path_parts(gh_rest(s), owner, repo, tail);
}

/// The pinned version of a declaration table, by the `tag` > `branch` >
/// `rev` precedence.
fn parse_version(entries: &Vec<(String, DeclEntry)>) -> (v: Option<Version>)
    ensures
        table_version_matches(entries@, v),
{
    if let Some(t) = get_str(entries, "tag") {
        return Some(Version::Tag(t));
    }
    if let Some(b) = get_str(entries, "branch") {
        return Some(Version::Branch(b));
    }
    if let Some(c) = get_str(entries, "rev") {
        return Some(Version::Commit(c));
    }
    None
}

} // verus!
