//! Transport-side decisions: classifying an HTTP response, the bearer
//! header value, and the bounded exponential-backoff retry policy. The
//! network call itself is I/O and stays with the caller; everything that
//! decides is here.

use vstd::prelude::*;
use vstd::string::StringExecFns;
use vstd::arithmetic::power2::pow2;

verus! {

/// A failed retrieval: a transport-level failure, a missing file, or a
/// non-success status.
#[derive(Debug, Clone, PartialEq, Eq)]
pub enum GitHubError {
    HttpError(String),
    NotFound(String),
    NetworkError(String),
}

/// Message text of a retrieval error, as reporting shows it.
pub open spec fn gh_error_message(e: GitHubError) -> Seq<char> {
    match e {
        GitHubError::HttpError(m) => "HTTP error: "@ + m@,
        GitHubError::NotFound(u) => "File not found: "@ + u@,
        GitHubError::NetworkError(m) => "Network error: "@ + m@,
    }
}

impl GitHubError {
    /// A copy equal to this error, field for field.
    pub fn duplicate(&self) -> (r: GitHubError)
        ensures
            r == *self,
    {
        match self {
            GitHubError::HttpError(m) => GitHubError::HttpError(m.clone()),
            GitHubError::NotFound(u) => GitHubError::NotFound(u.clone()),
            GitHubError::NetworkError(m) => GitHubError::NetworkError(m.clone()),
        }
    }

    /// Human-readable message of this error.
    pub fn message(&self) -> (r: String)
        ensures
            r@ == gh_error_message(*self),
    {
        match self {
            GitHubError::HttpError(m) => {
                let mut t = String::from_str("HTTP error: ");
                t.append(m.as_str());
                t
            },
            GitHubError::NotFound(u) => {
                let mut t = String::from_str("File not found: ");
                t.append(u.as_str());
                t
            },
            GitHubError::NetworkError(m) => {
                let mut t = String::from_str("Network error: ");
                t.append(m.as_str());
                t
            },
        }
    }
}

/// The decimal digit `d` as a character.
pub open spec fn dec_digit(d: int) -> char {
    if d == 0 {
        '0'
    } else if d == 1 {
        '1'
    } else if d == 2 {
        '2'
    } else if d == 3 {
        '3'
    } else if d == 4 {
        '4'
    } else if d == 5 {
        '5'
    } else if d == 6 {
        '6'
    } else if d == 7 {
        '7'
    } else if d == 8 {
        '8'
    } else {
        '9'
    }
}

/// The decimal rendering of `n`, most significant digit first.
pub open spec fn dec_str(n: int) -> Seq<char>
    decreases n,
{
    if n < 10 {
        seq![dec_digit(n)]
    } else {
        dec_str(n / 10) + seq![dec_digit(n % 10)]
    }
}

fn push_digit(d: u16, out: &mut String)
    requires
        d < 10,
    ensures
        final(out)@ == old(out)@ + seq![dec_digit(d as int)],
{
    proof {
        reveal_strlit("0");
        reveal_strlit("1");
        reveal_strlit("2");
        reveal_strlit("3");
        reveal_strlit("4");
        reveal_strlit("5");
        reveal_strlit("6");
        reveal_strlit("7");
        reveal_strlit("8");
        reveal_strlit("9");
    }
    match d {
        0 => out.append("0"),
        1 => out.append("1"),
        2 => out.append("2"),
        3 => out.append("3"),
        4 => out.append("4"),
        5 => out.append("5"),
        6 => out.append("6"),
        7 => out.append("7"),
        8 => out.append("8"),
        _ => out.append("9"),
    }
    proof {
        assert(final(out)@ =~= old(out)@ + seq![dec_digit(d as int)]);
    }
}

fn push_dec(n: u16, out: &mut String)
    ensures
        final(out)@ == old(out)@ + dec_str(n as int),
    decreases n,
{
    if n >= 10 {
        push_dec(n / 10, out);
        push_digit(n % 10, out);
        proof {
            assert(final(out)@ =~= old(out)@ + dec_str(n as int));
        }
    } else {
        push_digit(n, out);
    }
}

/// The message of a non-success, non-404 response.
pub open spec fn network_message(status: int, url: Seq<char>) -> Seq<char> {
    "HTTP "@ + dec_str(status) + ": "@ + url
}

/// Classify an HTTP response: a 2xx status succeeds with the body, 404 is a
/// missing file, anything else is a network-level failure.
pub fn classify_response(status: u16, body: String, url: String) -> (r: Result<String, GitHubError>)
    ensures
        200 <= status < 300 ==> (r matches Ok(b) && b == body),
        status == 404 ==> (r matches Err(e) && e matches GitHubError::NotFound(u) && u == url),
        !(200 <= status < 300) && status != 404 ==> (r matches Err(e) && e matches
            GitHubError::NetworkError(m) && m@ == network_message(status as int, url@)),
        r is Ok <==> 200 <= status < 300,
{
    if 200 <= status && status < 300 {
        Ok(body)
    } else if status == 404 {
        Err(GitHubError::NotFound(url))
    } else {
        let mut m = String::from_str("HTTP ");
        push_dec(status, &mut m);
        m.append(": ");
        m.append(url.as_str());
        proof {
            assert(m@ =~= network_message(status as int, url@));
        }
        Err(GitHubError::NetworkError(m))
    }
}

/// The authorization header value carrying a token.
pub fn auth_header_value(token: &str) -> (r: String)
    ensures
        r@ == "token "@ + token@,
{
    let mut t = String::from_str("token ");
    t.append(token);
    t
}

/// What the retry loop does after a failed attempt: sleep and try again, or
/// give up and surface the last error.
#[derive(Debug, Clone, Copy, PartialEq, Eq, Structural)]
pub enum RetryDecision {
    RetryAfter(u64),
    GiveUp,
}

/// Progress of one retrying fetch: attempts `0..=max_retries` are allowed,
/// `max_retries + 1` in all.
#[derive(Debug, Clone, Copy, PartialEq, Eq, Structural)]
pub struct RetryState {
    pub attempt: u32,
    pub max_retries: u32,
}

impl RetryState {
    pub open spec fn wf(self) -> bool {
        self.attempt <= self.max_retries && self.max_retries <= 62
    }

    pub fn new(max_retries: u32) -> (s: Self)
        requires
            max_retries <= 62,
        ensures
            s.wf(),
            s.attempt == 0,
            s.max_retries == max_retries,
    {
        RetryState { attempt: 0, max_retries }
    }

    /// Decide after the attempt numbered `attempt` failed: every failure but
    /// the last is followed by a sleep of `2^attempt` seconds and another
    /// attempt; the failure of the final attempt is surfaced with no sleep.
    /// Any error counts, a missing file too: transient propagation delays are
    /// deliberately retried.
    pub fn on_failure(&mut self) -> (d: RetryDecision)
        requires
            old(self).wf(),
        ensures
            final(self).wf(),
            final(self).max_retries == old(self).max_retries,
            old(self).attempt < old(self).max_retries ==> {
                &&& d matches RetryDecision::RetryAfter(secs) && secs as nat == pow2(
                    old(self).attempt as nat,
                )
                &&& final(self).attempt == old(self).attempt + 1
            },
            old(self).attempt >= old(self).max_retries ==> d == RetryDecision::GiveUp
                && *final(self) == *old(self),
    {
        if self.attempt < self.max_retries {
            let delay = backoff_delay(self.attempt);
            self.attempt = self.attempt + 1;
            RetryDecision::RetryAfter(delay)
        } else {
            RetryDecision::GiveUp
        }
    }
}

/// Seconds slept after the failed attempt numbered `attempt`: exponential
/// backoff, one second after the first attempt.
pub fn backoff_delay(attempt: u32) -> (r: u64)
    requires
        attempt <= 62,
    ensures
        r as nat == pow2(attempt as nat),
{
    proof {
        vstd::bits::lemma_u64_pow2_no_overflow(attempt as nat);
        vstd::bits::lemma_u64_shl_is_mul(1u64, attempt as u64);
    }
    1u64 << (attempt as u64)
}

/// Seconds slept across a whole run in which every attempt fails: the
/// backoff of every attempt except the final one.
pub open spec fn total_backoff(max_retries: nat) -> nat
    decreases max_retries,
{
    if max_retries == 0 {
        0
    } else {
        total_backoff((max_retries - 1) as nat) + pow2((max_retries - 1) as nat)
    }
}

/// Retry timing law. With a budget of `max_retries` and every attempt
/// failing, `on_failure` is asked `max_retries + 1` times: it answers
/// `RetryAfter(2^i)` after the attempt numbered `i` for each `i` below
/// `max_retries`, then `GiveUp` with no sleep after the final attempt. The
/// seconds slept in all therefore sum to `2^max_retries - 1`.
pub proof fn lemma_failing_run_backoff(max_retries: nat)
    ensures
        total_backoff(max_retries) + 1 == pow2(max_retries),
    decreases max_retries,
{
    if max_retries == 0 {
        vstd::arithmetic::power2::lemma2_to64();
    } else {
        lemma_failing_run_backoff((max_retries - 1) as nat);
        vstd::arithmetic::power2::lemma_pow2_unfold(max_retries);
    }
}

} // verus!
