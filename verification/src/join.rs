//! Indefinite retry of wireless association with fixed credentials.

use vstd::prelude::*;

verus! {

/// Outcome of one attempt of the radio's join primitive. A failure carries
/// the radio's status code as its reason.
#[derive(Clone, Copy, Debug, PartialEq, Eq, Structural)]
pub enum JoinResult {
    Joined,
    Failed(u32),
}

/// Credentials of the wireless network, fixed for the life of the process.
#[derive(Clone, Debug)]
pub struct JoinCredentials {
    pub network_id: String,
    pub passphrase: String,
}

/// Index of the first successful outcome in `outcomes`, or `outcomes.len()`
/// when every outcome is a failure.
pub open spec fn first_join(outcomes: Seq<JoinResult>) -> int
    decreases outcomes.len(),
{
    if outcomes.len() == 0 {
        0
    } else if outcomes[0] is Joined {
        0
    } else {
        1 + first_join(outcomes.drop_first())
    }
}

/// Drives the unbounded retry of wireless association: one blocking call of
/// the radio's join primitive per attempt, a failed attempt silently
/// discarded and retried at once, until an attempt succeeds. Once joined it
/// has no further responsibility.
#[derive(Clone, Debug)]
pub struct NetworkJoinManager {
    pub credentials: JoinCredentials,
    /// How many attempts have completed so far.
    pub attempts: u64,
    /// Whether an attempt has succeeded; terminal once true.
    pub joined: bool,
}

impl NetworkJoinManager {
    /// A manager that has not attempted anything yet.
    pub fn new(credentials: JoinCredentials) -> (r: NetworkJoinManager)
        ensures
            r.credentials == credentials,
            r.attempts == 0,
            !r.joined,
    {
        NetworkJoinManager { credentials, attempts: 0, joined: false }
    }

    /// Whether another attempt is due: attempts stop, permanently, exactly
    /// when an attempt has succeeded.
    pub fn should_retry(&self) -> (r: bool)
        ensures
            r == !self.joined,
    {
        !self.joined
    }

    /// Records the outcome of one completed attempt of the join primitive.
    /// The manager becomes joined exactly when the outcome is `Joined`; a
    /// failure is discarded and leaves the manager ready to retry at once.
    pub fn on_attempt(&mut self, outcome: JoinResult)
        requires
            !old(self).joined,
            old(self).attempts < u64::MAX,
        ensures
            final(self).attempts == old(self).attempts + 1,
            final(self).joined == (outcome is Joined),
            final(self).credentials == old(self).credentials,
    {
        self.attempts = self.attempts + 1;
        if let JoinResult::Joined = outcome {
            self.joined = true;
        }
    }

    /// Runs the retry loop against a fixed schedule of attempt outcomes,
    /// stopping at the first success: exactly the attempts up to and
    /// including the first successful one are consumed, and none after it.
    pub fn join_until(&mut self, outcomes: &Vec<JoinResult>) -> (joined: bool)
        requires
            !old(self).joined,
            old(self).attempts + outcomes@.len() <= u64::MAX,
        ensures
            joined == final(self).joined,
            joined == (first_join(outcomes@) < outcomes@.len()),
            joined ==> final(self).attempts == old(self).attempts + first_join(outcomes@) + 1,
            !joined ==> final(self).attempts == old(self).attempts + outcomes@.len(),
            final(self).credentials == old(self).credentials,
    {
        proof {
            lemma_first_join_bounds(outcomes@);
        }
        let ghost start_attempts = self.attempts;
        let mut i: usize = 0;
        while i < outcomes.len() && !self.joined
            invariant
                i <= outcomes@.len(),
                start_attempts + outcomes@.len() <= u64::MAX,
                self.attempts == start_attempts + i,
                self.credentials == old(self).credentials,
                self.joined == (first_join(outcomes@) < i),
                self.joined ==> i == first_join(outcomes@) + 1,
                !self.joined ==> i <= first_join(outcomes@),
            decreases outcomes@.len() - i,
        {
            proof {
                lemma_first_join_step(outcomes@, i as int);
            }
            self.on_attempt(outcomes[i]);
            i = i + 1;
        }
        self.joined
    }
}

/// The first success lies between 0 and the schedule's length.
proof fn lemma_first_join_bounds(outcomes: Seq<JoinResult>)
    ensures
        0 <= first_join(outcomes) <= outcomes.len(),
    decreases outcomes.len(),
{
    if outcomes.len() > 0 && outcomes[0] !is Joined {
        lemma_first_join_bounds(outcomes.drop_first());
    }
}

/// If no outcome before `i` succeeds, the first success is at `i` exactly
/// when `outcomes[i]` succeeds.
proof fn lemma_first_join_step(outcomes: Seq<JoinResult>, i: int)
    requires
        0 <= i < outcomes.len(),
        i <= first_join(outcomes),
    ensures
        (outcomes[i] is Joined) ==> first_join(outcomes) == i,
        (outcomes[i] !is Joined) ==> first_join(outcomes) >= i + 1,
    decreases i,
{
    lemma_first_join_bounds(outcomes.drop_first());
    if i > 0 {
        assert(outcomes[0] !is Joined);
        lemma_first_join_step(outcomes.drop_first(), i - 1);
        assert(outcomes.drop_first()[i - 1] == outcomes[i]);
    }
}

/// Join retry law: against a schedule of `k` failures followed by a success,
/// the retry loop calls the join primitive exactly `k + 1` times, ends
/// joined, and — as `join_until` stops at the first success — issues no
/// attempt after it.
pub proof fn lemma_join_retry(outcomes: Seq<JoinResult>, k: int)
    requires
        0 <= k < outcomes.len(),
        forall|j: int| 0 <= j < k ==> outcomes[j] !is Joined,
        outcomes[k] is Joined,
    ensures
        first_join(outcomes) == k,
    decreases k,
{
    if k > 0 {
        lemma_join_retry(outcomes.drop_first(), k - 1);
    }
}

} // verus!
