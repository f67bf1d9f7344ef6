use vstd::prelude::*;

verus! {

/// What to do after one delivery attempt of a sealed batch.
#[derive(PartialEq, Eq, Structural, Debug, Clone, Copy)]
pub enum DeliveryStep {
    /// The sink took the batch; go on with the next one.
    Delivered,
    /// The attempt failed; wait this many milliseconds and send the same
    /// batch again.
    RetryAfter(u64),
    /// The attempt failed and no retries are left; the batch is dropped and
    /// the loss reported, and tailing goes on.
    Dropped,
}

/// The delivery of one sealed batch: how many attempts failed so far, under
/// a fixed retry policy.
pub struct Delivery {
    failures: u32,
    retry_attempts: u32,
    retry_delay_ms: u64,
}

/// The step that follows an attempt, given the failures before it.
pub open spec fn next_step(failures: nat, retry_attempts: nat, retry_delay_ms: u64, succeeded: bool) -> DeliveryStep {
    if succeeded {
        DeliveryStep::Delivered
    } else if failures < retry_attempts {
        DeliveryStep::RetryAfter(retry_delay_ms)
    } else {
        DeliveryStep::Dropped
    }
}

impl Delivery {
    pub closed spec fn failed(&self) -> nat {
        self.failures as nat
    }

    pub closed spec fn retry_bound(&self) -> nat {
        self.retry_attempts as nat
    }

    pub closed spec fn delay(&self) -> u64 {
        self.retry_delay_ms
    }

    pub closed spec fn wf(&self) -> bool {
        self.failures <= self.retry_attempts
    }

    /// A delivery that has made no attempt yet.
    pub fn new(retry_attempts: u32, retry_delay_ms: u64) -> (r: Delivery)
        ensures
            r.wf(),
            r.failed() == 0,
            r.retry_bound() == retry_attempts,
            r.delay() == retry_delay_ms,
    {
        Delivery { failures: 0, retry_attempts, retry_delay_ms }
    }

    /// Failed attempts so far.
    pub fn failures(&self) -> (r: u32)
        ensures
            r == self.failed(),
    {
        self.failures
    }

    /// Records the outcome of an attempt and says what comes next: a success
    /// ends the delivery; a failure is retried after the configured delay while
    /// retries are left, and drops the batch after the last one.
    pub fn record(&mut self, succeeded: bool) -> (r: DeliveryStep)
        requires
            old(self).wf(),
        ensures
            final(self).wf(),
            final(self).retry_bound() == old(self).retry_bound(),
            final(self).delay() == old(self).delay(),
            r == next_step(old(self).failed(), old(self).retry_bound(), old(self).delay(), succeeded),
            r is RetryAfter ==> final(self).failed() == old(self).failed() + 1,
            !(r is RetryAfter) ==> final(self).failed() == old(self).failed(),
    {
        if succeeded {
            DeliveryStep::Delivered
        } else if self.failures < self.retry_attempts {
            self.failures = self.failures + 1;
            DeliveryStep::RetryAfter(self.retry_delay_ms)
        } else {
            DeliveryStep::Dropped
        }
    }
}

/// The attempts made for one batch when the sink answers with `outcomes`
/// in turn, and whether the batch was delivered.
pub open spec fn attempts_for(outcomes: Seq<bool>, retry_attempts: nat) -> (nat, bool)
    decreases outcomes.len(),
{
    if outcomes.len() == 0 {
        (0, false)
    } else if outcomes[0] {
        (1, true)
    } else if retry_attempts == 0 {
        (1, false)
    } else {
        let (n, ok) = attempts_for(outcomes.drop_first(), (retry_attempts - 1) as nat);
        (n + 1, ok)
    }
}

/// Runs the delivery of one batch against a sink that answers with
/// `outcomes` in turn, and returns the attempts made and whether the batch
/// was delivered. The pauses between attempts are left to the caller.
pub fn run_attempts(outcomes: &Vec<bool>, retry_attempts: u32, retry_delay_ms: u64) -> (r: (
    usize,
    bool,
))
    ensures
        r.0 as nat == attempts_for(outcomes@, retry_attempts as nat).0,
        r.1 == attempts_for(outcomes@, retry_attempts as nat).1,
{
    let mut d = Delivery::new(retry_attempts, retry_delay_ms);
    let mut i: usize = 0;
    assert(outcomes@.subrange(0, outcomes@.len() as int) =~= outcomes@);
    while i < outcomes.len()
        invariant
            i <= outcomes.len(),
            d.wf(),
            d.failed() == i,
            d.retry_bound() == retry_attempts,
            d.delay() == retry_delay_ms,
            attempts_for(outcomes@, retry_attempts as nat) == ({
                let (n, ok) = attempts_for(outcomes@.subrange(i as int, outcomes@.len() as int), (retry_attempts - i) as nat);
                ((n + i) as nat, ok)
            }),
        decreases outcomes.len() - i,
    {
        let ghost rest = outcomes@.subrange(i as int, outcomes@.len() as int);
        assert(rest.drop_first() =~= outcomes@.subrange(i + 1, outcomes@.len() as int));
        match d.record(outcomes[i]) {
            DeliveryStep::Delivered => {
                return (i + 1, true);
            },
            DeliveryStep::Dropped => {
                return (i + 1, false);
            },
            DeliveryStep::RetryAfter(_) => {},
        }
        i = i + 1;
    }
    assert(outcomes@.subrange(i as int, outcomes@.len() as int).len() == 0);
    (i, false)
}

/// However the sink answers, one batch gets at most `retry_attempts + 1`
/// attempts; it is delivered exactly when one of those attempts succeeds, and
/// the attempts stop at the first success.
pub proof fn lemma_attempts_bounded(outcomes: Seq<bool>, retry_attempts: nat)
    ensures
        attempts_for(outcomes, retry_attempts).0 <= retry_attempts + 1,
        attempts_for(outcomes, retry_attempts).0 <= outcomes.len(),
        attempts_for(outcomes, retry_attempts).1 <==> exists|k: int|
            0 <= k < outcomes.len() && k <= retry_attempts && #[trigger] outcomes[k],
        forall|k: int|
            0 <= k < attempts_for(outcomes, retry_attempts).0 - 1 ==> !#[trigger] outcomes[k],
        attempts_for(outcomes, retry_attempts).1 ==> outcomes[attempts_for(outcomes, retry_attempts).0 - 1],
    decreases outcomes.len(),
{
    if outcomes.len() > 0 && !outcomes[0] && retry_attempts > 0 {
        let rest = outcomes.drop_first();
        lemma_attempts_bounded(rest, (retry_attempts - 1) as nat);
        if attempts_for(outcomes, retry_attempts).1 {
            let k = choose|k: int| 0 <= k < rest.len() && k <= retry_attempts - 1 && #[trigger] rest[k];
            assert(outcomes[k + 1]);
        }
        if exists|k: int| 0 <= k < outcomes.len() && k <= retry_attempts && #[trigger] outcomes[k] {
            let k = choose|k: int| 0 <= k < outcomes.len() && k <= retry_attempts && #[trigger] outcomes[k];
            assert(k != 0);
            assert(rest[k - 1]);
        }
        assert forall|k: int| 0 <= k < attempts_for(outcomes, retry_attempts).0 - 1 implies !#[trigger] outcomes[k] by {
            if k > 0 {
                assert(outcomes[k] == rest[k - 1]);
            }
        }
    } else if outcomes.len() > 0 && !outcomes[0] {
        if exists|k: int| 0 <= k < outcomes.len() && k <= retry_attempts && #[trigger] outcomes[k] {
            let k = choose|k: int| 0 <= k < outcomes.len() && k <= retry_attempts && #[trigger] outcomes[k];
            assert(k == 0);
        }
    }
}

} // verus!
