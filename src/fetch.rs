use vstd::prelude::*;
use vstd::string::StringExecFns;

verus! {

/// The HTTP method of a request.
#[derive(Debug, Clone, Copy, PartialEq, Eq, Structural)]
pub enum HttpMethod {
    Get,
    Post,
    Put,
    Patch,
    Delete,
}

/// The number of retries a client makes by default.
pub const DEFAULT_MAX_RETRIES: u32 = 5;

pub open spec fn spec_is_success(status: u16) -> bool {
    200 <= status <= 299
}

/// A GET is retried on 429 and on any 5xx; any other method on 429 only.
pub open spec fn spec_should_retry(method: HttpMethod, status: u16) -> bool {
    if method is Get {
        status == 429 || (500 <= status < 600)
    } else {
        status == 429
    }
}

pub fn is_success(status: u16) -> (r: bool)
    ensures
        r == spec_is_success(status),
{
    200 <= status && status <= 299
}

pub fn should_retry(method: HttpMethod, status: u16) -> (r: bool)
    ensures
        r == spec_should_retry(method, status),
{
    match method {
        HttpMethod::Get => status == 429 || (500 <= status && status < 600),
        _ => status == 429,
    }
}

/// What to do with the answer to one attempt of a request.
#[derive(Debug, Clone, Copy, PartialEq, Eq, Structural)]
pub enum FetchDecision {
    /// The answer succeeded: decode its body.
    Succeed,
    /// Wait for the policy's delay after `retries` failed attempts, then
    /// send the request again.
    Retry { retries: u32 },
    /// Give up: read the body and report the error it holds.
    Fail,
}

pub open spec fn spec_decide(method: HttpMethod, status: u16, attempts: u32, max_retries: u32) -> FetchDecision {
    if spec_is_success(status) {
        FetchDecision::Succeed
    } else if spec_should_retry(method, status) && attempts < max_retries {
        FetchDecision::Retry { retries: attempts }
    } else {
        FetchDecision::Fail
    }
}

/// The retry state of one logical request.
pub struct FetchAttempts {
    method: HttpMethod,
    attempts: u32,
    max_retries: u32,
}

impl FetchAttempts {
    pub closed spec fn method(&self) -> HttpMethod {
        self.method
    }

    /// How many attempts have failed and been retried so far.
    pub closed spec fn attempts(&self) -> u32 {
        self.attempts
    }

    pub closed spec fn max_retries(&self) -> u32 {
        self.max_retries
    }

    pub closed spec fn wf(&self) -> bool {
        self.attempts <= self.max_retries
    }

    pub fn new(method: HttpMethod, max_retries: u32) -> (r: FetchAttempts)
        ensures
            r.wf(),
            r.method() == method,
            r.attempts() == 0,
            r.max_retries() == max_retries,
    {
        FetchAttempts { method, attempts: 0, max_retries }
    }

    /// Decides on the answer `status` to the latest attempt.
    pub fn on_response(&mut self, status: u16) -> (r: FetchDecision)
        requires
            old(self).wf(),
        ensures
            final(self).wf(),
            r == spec_decide(old(self).method(), status, old(self).attempts(), old(self).max_retries()),
            final(self).method() == old(self).method(),
            final(self).max_retries() == old(self).max_retries(),
            final(self).attempts() == if r is Retry {
                old(self).attempts() + 1
            } else {
                old(self).attempts() as int
            },
    {
        if is_success(status) {
            FetchDecision::Succeed
        } else if should_retry(self.method, status) && self.attempts < self.max_retries {
            let r = FetchDecision::Retry { retries: self.attempts };
            self.attempts = self.attempts + 1;
            r
        } else {
            FetchDecision::Fail
        }
    }
}

/// How many attempts are sent when the service answers with `statuses`,
/// in order, after `attempts` retries have already been made.
pub open spec fn sends(method: HttpMethod, max_retries: u32, attempts: u32, statuses: Seq<u16>) -> nat
    decreases statuses.len(),
{
    if statuses.len() == 0 {
        0
    } else if spec_decide(method, statuses[0], attempts, max_retries) is Retry {
        if attempts < u32::MAX {
            1 + sends(method, max_retries, (attempts + 1) as u32, statuses.drop_first())
        } else {
            1
        }
    } else {
        1
    }
}

/// Whatever the service answers, one logical request is sent at most
/// `max_retries + 1` times.
pub proof fn lemma_attempts_bounded(method: HttpMethod, max_retries: u32, statuses: Seq<u16>)
    ensures
        sends(method, max_retries, 0, statuses) <= max_retries + 1,
{
    lemma_sends_bound(method, max_retries, 0, statuses);
}

proof fn lemma_sends_bound(method: HttpMethod, max_retries: u32, attempts: u32, statuses: Seq<u16>)
    requires
        attempts <= max_retries,
    ensures
        sends(method, max_retries, attempts, statuses) <= max_retries + 1 - attempts,
    decreases statuses.len(),
{
    if statuses.len() > 0 && spec_decide(method, statuses[0], attempts, max_retries) is Retry {
        lemma_sends_bound(method, max_retries, (attempts + 1) as u32, statuses.drop_first());
    }
}

/// The URL of `path` on the service at `base_url`.
pub fn endpoint(base_url: &str, path: &str) -> (r: String)
    ensures
        r@ == base_url@ + path@,
{
    let mut s = String::from_str(base_url);
    s.append(path);
    s
}

/// The value of the `Authorization` header for `token`.
pub fn bearer(token: &str) -> (r: String)
    ensures
        r@ == "Bearer "@ + token@,
{
    let mut s = String::from_str("Bearer ");
    s.append(token);
    s
}

} // verus!
