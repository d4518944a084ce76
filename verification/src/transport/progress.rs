//! Progress through the stages of a negotiation.

use vstd::prelude::*;

verus! {

/// Whether stages are passed one by one, with none gone back to.
pub open spec fn gradual(stages: Seq<nat>) -> bool {
    forall|i: int|
        0 <= i < stages.len() - 1 ==> #[trigger] stages[i] <= stages[i + 1] <= stages[i] + 1
}

/// Whether a stage is entered right after a position.
pub open spec fn enters(stages: Seq<nat>, at: int, stage: nat) -> bool {
    0 <= at < stages.len() - 1 && stages[at] < stage && stages[at + 1] == stage
}

/// Where stages are passed one by one, every stage up to the last is entered
/// somewhere.
pub(crate) proof fn lemma_entered(stages: Seq<nat>, stage: nat) -> (at: int)
    requires
        gradual(stages),
        stages.len() > 0,
        stages.first() < stage <= stages.last(),
    ensures
        enters(stages, at, stage),
    decreases stages.len(),
{
    let n = stages.len() - 1;
    assert(stages[n - 1] <= stages[n] <= stages[n - 1] + 1);
    if stages[n - 1] < stage {
        n - 1
    } else {
        let front = stages.drop_last();
        assert forall|i: int| 0 <= i < front.len() - 1 implies #[trigger] front[i] <= front[i + 1] <= front[i] + 1 by {
            assert(stages[i] <= stages[i + 1] <= stages[i] + 1);
        }
        let at = lemma_entered(front, stage);
        assert(front[at] == stages[at] && front[at + 1] == stages[at + 1]);
        at
    }
}

/// Stages are never gone back to.
proof fn lemma_monotone(stages: Seq<nat>, i: int, j: int)
    requires
        gradual(stages),
        0 <= i <= j < stages.len(),
    ensures
        stages[i] <= stages[j],
    decreases j - i,
{
    if i < j {
        lemma_monotone(stages, i, j - 1);
        assert(stages[j - 1] <= stages[j - 1 + 1]);
    }
}

/// A stage is entered before any later one.
pub(crate) proof fn lemma_order(stages: Seq<nat>, a: int, s: nat, b: int, t: nat)
    requires
        gradual(stages),
        enters(stages, a, s),
        enters(stages, b, t),
        s < t,
    ensures
        a < b,
{
    assert(stages[b] <= stages[b + 1] <= stages[b] + 1);
    if b <= a {
        lemma_monotone(stages, b + 1, a + 1);
    }
}

} // verus!
