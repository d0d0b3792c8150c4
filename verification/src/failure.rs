use vstd::prelude::*;

use crate::polisher::spec_api_error;
use crate::text::{contains, decimal, digit_char, has_substring, occurs_at};

verus! {

/// How a failed request is reported to the user.
#[derive(PartialEq, Eq, Structural, Clone, Copy, Debug)]
pub enum Failure {
    /// The service refused the key (the error mentions 401 or 403).
    InvalidKey,
    /// The service asked to slow down (the error mentions 429).
    RateLimited,
    /// Anything else, most often a network problem.
    Other,
}

/// Which job failed: the polish hotkey or a custom instruction.
#[derive(PartialEq, Eq, Structural, Clone, Copy, Debug)]
pub enum Job {
    Polish,
    Transform,
}

/// How the error text `e` is classified.
pub open spec fn spec_classify(e: Seq<char>) -> Failure {
    if has_substring(e, "401"@) || has_substring(e, "403"@) {
        Failure::InvalidKey
    } else if has_substring(e, "429"@) {
        Failure::RateLimited
    } else {
        Failure::Other
    }
}

/// Classifies the error text of a failed request.
pub fn classify(e: &str) -> (f: Failure)
    ensures
        f == spec_classify(e@),
{
    if contains(e, "401") || contains(e, "403") {
        Failure::InvalidKey
    } else if contains(e, "429") {
        Failure::RateLimited
    } else {
        Failure::Other
    }
}

/// The notification shown for a failure of the given job.
pub open spec fn spec_notice(f: Failure, job: Job) -> Seq<char> {
    match f {
        Failure::InvalidKey => "Invalid API key. Check your OpenRouter key in Settings."@,
        Failure::RateLimited => "Rate limited — try again in a moment."@,
        Failure::Other => match job {
            Job::Polish => "Polish failed. Check your internet connection."@,
            Job::Transform => "Transform failed. Check your internet connection."@,
        },
    }
}

/// The notification shown for a failure of the given job.
pub fn notice_for(f: Failure, job: Job) -> (r: String)
    ensures
        r@ == spec_notice(f, job),
{
    let s = match f {
        Failure::InvalidKey => "Invalid API key. Check your OpenRouter key in Settings.",
        Failure::RateLimited => "Rate limited — try again in a moment.",
        Failure::Other => match job {
            Job::Polish => "Polish failed. Check your internet connection.",
            Job::Transform => "Transform failed. Check your internet connection.",
        },
    };
    String::from_str(s)
}

/// The notification shown when `job` failed with the error text `e`.
pub fn failure_notice(e: &str, job: Job) -> (r: String)
    ensures
        r@ == spec_notice(spec_classify(e@), job),
{
    notice_for(classify(e), job)
}

proof fn lemma_decimal_three(n: nat)
    requires
        100 <= n <= 999,
    ensures
        decimal(n) == seq![digit_char((n / 100) as int), digit_char(((n / 10) % 10) as int), digit_char((n % 10) as int)],
{
    reveal_with_fuel(decimal, 3);
    assert(decimal(n / 10 / 10) == seq![digit_char((n / 100) as int)]);
    assert(decimal(n) =~= seq![digit_char((n / 100) as int), digit_char(((n / 10) % 10) as int), digit_char((n % 10) as int)]);
}

/// A request refused with status 401 or 403 is always reported as an invalid key,
/// whatever the body of the response says.
pub proof fn lemma_refused_key_is_invalid_key(status: u16, body: Seq<char>)
    requires
        status == 401 || status == 403,
    ensures
        spec_classify(spec_api_error(status, body)) == Failure::InvalidKey,
{
    reveal_strlit("API ");
    reveal_strlit(": ");
    reveal_strlit("401");
    reveal_strlit("403");
    lemma_decimal_three(status as nat);
    let e = spec_api_error(status, body);
    if status == 401 {
        assert(e.subrange(4, 7) =~= "401"@);
        assert(occurs_at(e, "401"@, 4));
    } else {
        assert(e.subrange(4, 7) =~= "403"@);
        assert(occurs_at(e, "403"@, 4));
    }
}

/// A request refused with status 429 is reported as rate limiting, unless the body of
/// the response itself mentions 401 or 403.
pub proof fn lemma_too_many_requests_is_rate_limited(body: Seq<char>)
    requires
        !has_substring(body, "401"@),
        !has_substring(body, "403"@),
    ensures
        spec_classify(spec_api_error(429, body)) == Failure::RateLimited,
{
    reveal_strlit("API ");
    reveal_strlit(": ");
    reveal_strlit("401");
    reveal_strlit("403");
    reveal_strlit("429");
    lemma_decimal_three(429);
    let e = spec_api_error(429, body);
    let prefix = "API "@ + decimal(429) + ": "@;
    assert(prefix =~= seq!['A', 'P', 'I', ' ', '4', '2', '9', ':', ' ']);
    assert(e =~= prefix + body);
    assert(e.subrange(4, 7) =~= "429"@);
    assert(occurs_at(e, "429"@, 4));
    assert forall|i: int| !occurs_at(e, "401"@, i) && !occurs_at(e, "403"@, i) by {
        if 0 <= i < 9 && i + 3 <= e.len() {
            let w = e.subrange(i, i + 3);
            assert(w[0] == e[i]);
            assert(w[1] == e[i + 1]);
            if i == 4 {
                assert(e[5] == '2');
            } else {
                assert(e[i] != '4');
            }
        } else if i >= 9 && i + 3 <= e.len() {
            assert(e.subrange(i, i + 3) =~= body.subrange(i - 9, i - 6));
            assert(!occurs_at(body, "401"@, i - 9));
            assert(!occurs_at(body, "403"@, i - 9));
        }
    }
}

} // verus!
