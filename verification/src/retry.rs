//! Exponential-backoff retry engine.
//!
//! A `RetryPolicy` decides, from the attempt number and the error kind
//! alone, whether a failed operation is tried again and after how long a
//! delay. `execute` runs the whole retry loop over a pre-recorded script
//! of operation outcomes, so that every decision the engine can make is
//! verified; an asynchronous driver performs the real operation and the
//! real sleeps, consulting `decide` after each failure.

use vstd::arithmetic::power2::lemma_pow2_strictly_increases;
use vstd::arithmetic::power2::pow2;
use vstd::math::min;
use vstd::prelude::*;

use crate::error::VeyaError;

verus! {

/// Immutable retry configuration.
pub struct RetryPolicy {
    pub max_retries: u32,
    pub base_delay_ms: u64,
    pub max_delay_ms: u64,
}

/// The number of invocations the engine performs when the operation
/// returns `outcomes[i]` on its `i`-th invocation: it stops on the first
/// success or terminal error, and never retries more than `max_retries`
/// times.
pub open spec fn spec_invocations<T>(
    outcomes: Seq<Result<T, VeyaError>>,
    max_retries: nat,
) -> nat
    decreases max_retries,
{
    if outcomes.len() == 0 {
        0
    } else {
        match outcomes[0] {
            Result::Ok(_) => 1,
            Result::Err(e) => {
                if e.spec_is_retryable() && max_retries > 0 {
                    1 + spec_invocations(outcomes.drop_first(), (max_retries - 1) as nat)
                } else {
                    1
                }
            },
        }
    }
}

proof fn lemma_backoff_monotone(base: u64, k: nat, attempt: nat)
    requires
        k <= attempt,
    ensures
        base * pow2(k) <= base * pow2(attempt),
{
    if k < attempt {
        lemma_pow2_strictly_increases(k, attempt);
    }
    assert(base * pow2(k) <= base * pow2(attempt)) by (nonlinear_arith)
        requires
            pow2(k) <= pow2(attempt),
    ;
}

proof fn lemma_backoff_step(base: u64, k: nat)
    ensures
        base * pow2(k + 1) == 2 * (base * pow2(k)),
{
    vstd::arithmetic::power2::lemma_pow2_unfold(k + 1);
    assert(pow2(k + 1) == 2 * pow2(k));
    assert(base * (2 * pow2(k)) == 2 * (base * pow2(k))) by (nonlinear_arith);
}

impl RetryPolicy {
    pub fn new(max_retries: u32, base_delay_ms: u64, max_delay_ms: u64) -> (r: Self)
        ensures
            r.max_retries == max_retries,
            r.base_delay_ms == base_delay_ms,
            r.max_delay_ms == max_delay_ms,
    {
        Self { max_retries, base_delay_ms, max_delay_ms }
    }

    /// The backoff before retry number `attempt + 1`:
    /// `min(base_delay_ms * 2^attempt, max_delay_ms)`.
    pub open spec fn spec_delay(&self, attempt: nat) -> int {
        min((self.base_delay_ms * pow2(attempt)) as int, self.max_delay_ms as int)
    }

    /// Computes the backoff delay for a zero-indexed attempt.
    pub fn delay_for_attempt(&self, attempt: u32) -> (r: u64)
        ensures
            r == self.spec_delay(attempt as nat),
    {
        proof {
            vstd::arithmetic::power2::lemma2_to64();
        }
        let mut d: u64 = self.base_delay_ms;
        let mut k: u32 = 0;
        while k < attempt
            invariant
                0 <= k <= attempt,
                d == self.base_delay_ms * pow2(k as nat),
            decreases attempt - k,
        {
            if d >= self.max_delay_ms {
                proof {
                    lemma_backoff_monotone(self.base_delay_ms, k as nat, attempt as nat);
                }
                return self.max_delay_ms;
            }
            if d > u64::MAX / 2 {
                proof {
                    lemma_backoff_step(self.base_delay_ms, k as nat);
                    lemma_backoff_monotone(self.base_delay_ms, (k + 1) as nat, attempt as nat);
                }
                return self.max_delay_ms;
            }
            proof {
                lemma_backoff_step(self.base_delay_ms, k as nat);
            }
            d = d * 2;
            k = k + 1;
        }
        if d < self.max_delay_ms {
            d
        } else {
            self.max_delay_ms
        }
    }

    /// After a failure on zero-indexed attempt `attempt`, returns the
    /// backoff delay to sleep before retrying, or `None` when the engine
    /// gives up: a terminal error, or `max_retries` retries already spent.
    pub fn decide(&self, attempt: u32, err: &VeyaError) -> (r: Option<u64>)
        ensures
            err.spec_is_retryable() && attempt < self.max_retries ==> r == Some(
                self.spec_delay(attempt as nat) as u64,
            ),
            !(err.spec_is_retryable() && attempt < self.max_retries) ==> r is None,
    {
        if err.is_retryable() && attempt < self.max_retries {
            Some(self.delay_for_attempt(attempt))
        } else {
            None
        }
    }

    /// Runs the retry loop against a pre-recorded script of outcomes:
    /// `outcomes[i]` is what the operation would return on its `i`-th
    /// invocation. Returns the final result, the number of invocations
    /// made, and the backoff delays that were requested between them.
    ///
    /// The final result is the last observed outcome, unchanged: the
    /// error kind is never widened, wrapped or replaced.
    #[verifier::loop_isolation(false)]
    pub fn execute<T>(&self, outcomes: Vec<Result<T, VeyaError>>) -> (r: (
        Result<T, VeyaError>,
        usize,
        Vec<u64>,
    ))
        requires
            outcomes@.len() > self.max_retries,
        ensures
            r.1 == spec_invocations(outcomes@, self.max_retries as nat),
            1 <= r.1 <= self.max_retries + 1,
            r.0 == outcomes@[r.1 - 1],
            r.2@.len() == r.1 - 1,
            forall|k: int| 0 <= k < r.1 - 1 ==> r.2@[k] == self.spec_delay(k as nat),
    {
        let ghost orig = outcomes@;
        let total = outcomes.len();
        let mut rest = outcomes;
        let mut attempt: u32 = 0;
        let mut delays: Vec<u64> = Vec::new();
        loop
            invariant
                attempt <= self.max_retries,
                rest@ =~= orig.skip(attempt as int),
                orig.len() > self.max_retries,
                orig.len() == total,
                forall|k: int|
                    0 <= k < attempt ==> orig[k] is Err && (#[trigger] orig[k])->Err_0.spec_is_retryable(),
                spec_invocations(orig, self.max_retries as nat) == attempt + spec_invocations(
                    rest@,
                    (self.max_retries - attempt) as nat,
                ),
                delays@.len() == attempt,
                forall|k: int| 0 <= k < attempt ==> delays@[k] == self.spec_delay(k as nat),
            decreases self.max_retries - attempt,
        {
            let ghost pre = rest@;
            let ghost m = (self.max_retries - attempt) as nat;
            let outcome = rest_take_first(&mut rest);
            proof {
                assert(pre.len() > 0);
                assert(outcome == pre[0] && pre[0] == orig[attempt as int]);
                assert(rest@ =~= orig.skip(attempt + 1));
                assert(attempt < total);
            }
            match outcome {
                Result::Ok(v) => {
                    proof {
                        assert(spec_invocations(pre, m) == 1);
                    }
                    return (Result::Ok(v), attempt as usize + 1, delays);
                },
                Result::Err(e) => {
                    if e.is_retryable() && attempt < self.max_retries {
                        proof {
                            assert(spec_invocations(pre, m) == 1 + spec_invocations(
                                pre.drop_first(),
                                (m - 1) as nat,
                            ));
                            assert(pre.drop_first() =~= rest@);
                        }
                        delays.push(self.delay_for_attempt(attempt));
                        attempt = attempt + 1;
                    } else {
                        proof {
                            assert(spec_invocations(pre, m) == 1);
                        }
                        return (Result::Err(e), attempt as usize + 1, delays);
                    }
                },
            }
        }
    }
}

/// Removes and returns the first element of a non-empty vector.
fn rest_take_first<T>(v: &mut Vec<Result<T, VeyaError>>) -> (r: Result<T, VeyaError>)
    requires
        old(v)@.len() > 0,
    ensures
        r == old(v)@[0],
        final(v)@ =~= old(v)@.drop_first(),
{
    v.remove(0)
}

/// Law: against a persistently failing retryable script, the operation
/// is invoked exactly `max_retries + 1` times.
pub proof fn lemma_retry_exhausts_on_persistent_failure<T>(
    outcomes: Seq<Result<T, VeyaError>>,
    max_retries: nat,
)
    requires
        outcomes.len() > max_retries,
        forall|i: int|
            0 <= i < outcomes.len() ==> outcomes[i] is Err && (#[trigger] outcomes[i])->Err_0.spec_is_retryable(),
    ensures
        spec_invocations(outcomes, max_retries) == max_retries + 1,
    decreases max_retries,
{
    if max_retries > 0 {
        lemma_retry_exhausts_on_persistent_failure(
            outcomes.drop_first(),
            (max_retries - 1) as nat,
        );
    }
}

/// Law: a terminal (non-retryable) first failure is never retried:
/// exactly one invocation occurs and its error is returned.
pub proof fn lemma_no_retry_on_terminal_failure<T>(
    outcomes: Seq<Result<T, VeyaError>>,
    max_retries: nat,
)
    requires
        outcomes.len() > 0,
        outcomes[0] is Err,
        !outcomes[0]->Err_0.spec_is_retryable(),
    ensures
        spec_invocations(outcomes, max_retries) == 1,
{
}

/// Law: when every scripted outcome fails with the same error kind, the
/// error returned after the retry loop carries that kind: classification
/// is round-trip stable through retrying, for retryable and terminal
/// kinds alike.
pub proof fn lemma_error_kind_preserved<T>(
    outcomes: Seq<Result<T, VeyaError>>,
    max_retries: nat,
    kind: VeyaError,
)
    requires
        outcomes.len() > max_retries,
        forall|i: int|
            0 <= i < outcomes.len() ==> outcomes[i] is Err && (#[trigger] outcomes[i])->Err_0.same_tag(
                &kind,
            ),
    ensures
        ({
            let n = spec_invocations(outcomes, max_retries);
            &&& 1 <= n <= max_retries + 1
            &&& outcomes[n - 1] is Err
            &&& outcomes[n - 1]->Err_0.same_tag(&kind)
        }),
    decreases max_retries,
{
    if max_retries > 0 && outcomes[0]->Err_0.spec_is_retryable() {
        lemma_error_kind_preserved(outcomes.drop_first(), (max_retries - 1) as nat, kind);
    }
}

} // verus!
