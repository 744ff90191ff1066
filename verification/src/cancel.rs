//! Who cancels a prepared deployment: whoever comes first, and only while it is open.
use vstd::prelude::*;

verus! {

/// What is known of a deployment to all who may have to cancel it.
#[derive(Debug, PartialEq, Eq)]
pub struct CancelGuard<T = String> {
    /// The deployment that was prepared.
    pub deployment_id: Option<T>,
    /// Whether the deployment was activated.
    pub activated: bool,
    /// Whether someone has set out to cancel it.
    pub attempted: bool,
}

impl DeepView for CancelGuard {
    type V = CancelGuard<Seq<char>>;

    open spec fn deep_view(&self) -> CancelGuard<Seq<char>> {
        CancelGuard {
            deployment_id: self.deployment_id.deep_view(),
            activated: self.activated,
            attempted: self.attempted,
        }
    }
}

/// What happens to a guard.
#[derive(Debug, PartialEq, Eq)]
pub enum GuardStep<T = String> {
    Prepared(T),
    Activated,
    Claim,
}

/// Nothing has been prepared.
pub open spec fn new_guard() -> CancelGuard<Seq<char>> {
    CancelGuard { deployment_id: None, activated: false, attempted: false }
}

/// The deployment that may be cancelled now.
pub open spec fn claimable(guard: CancelGuard<Seq<char>>) -> Option<Seq<char>> {
    if guard.activated || guard.attempted {
        None
    } else {
        guard.deployment_id
    }
}

/// What a step makes of a guard.
pub open spec fn guard_next(
    guard: CancelGuard<Seq<char>>,
    step: GuardStep<Seq<char>>,
) -> CancelGuard<Seq<char>> {
    match step {
        GuardStep::Prepared(id) => CancelGuard { deployment_id: Some(id), ..guard },
        GuardStep::Activated => CancelGuard { activated: true, ..guard },
        GuardStep::Claim => CancelGuard {
            attempted: guard.attempted || claimable(guard) is Some,
            ..guard
        },
    }
}

/// What a series of steps makes of a guard.
pub open spec fn guard_run(steps: Seq<GuardStep<Seq<char>>>) -> CancelGuard<Seq<char>>
    decreases steps.len(),
{
    if steps.len() == 0 {
        new_guard()
    } else {
        guard_next(guard_run(steps.drop_last()), steps.last())
    }
}

/// Whether the step with the number `i` is a claim that gets a deployment to cancel.
pub open spec fn is_granted_claim(steps: Seq<GuardStep<Seq<char>>>, i: int) -> bool {
    steps[i] is Claim && claimable(guard_run(steps.take(i))) is Some
}

impl CancelGuard {
    /// Nothing has been prepared.
    pub fn new() -> (guard: CancelGuard)
        ensures
            guard.deep_view() == new_guard(),
    {
        CancelGuard { deployment_id: None, activated: false, attempted: false }
    }

    /// A deployment was prepared.
    pub fn prepared(&mut self, deployment_id: String)
        ensures
            final(self).deep_view() == guard_next(
                old(self).deep_view(),
                GuardStep::Prepared(deployment_id@),
            ),
    {
        self.deployment_id = Some(deployment_id);
    }

    /// The deployment was activated.
    pub fn activated(&mut self)
        ensures
            final(self).deep_view() == guard_next(old(self).deep_view(), GuardStep::Activated),
    {
        self.activated = true;
    }

    /// Sets out to cancel the deployment, and gives it if it is to be cancelled.
    pub fn claim(&mut self) -> (deployment_id: Option<String>)
        ensures
            deployment_id.deep_view() == claimable(old(self).deep_view()),
            final(self).deep_view() == guard_next(old(self).deep_view(), GuardStep::Claim),
    {
        if self.activated || self.attempted {
            return None;
        }
        match &self.deployment_id {
            None => None,
            Some(id) => {
                let id = id.clone();
                self.attempted = true;
                Some(id)
            },
        }
    }
}

proof fn lemma_run_extends(steps: Seq<GuardStep<Seq<char>>>, i: int)
    requires
        0 <= i <= steps.len(),
    ensures
        guard_run(steps.take(i)).attempted ==> guard_run(steps).attempted,
        guard_run(steps.take(i)).activated ==> guard_run(steps).activated,
        guard_run(steps).deployment_id is Some ==> exists|k: int|
            0 <= k < steps.len() && (#[trigger] steps[k]) is Prepared,
    decreases steps.len(),
{
    if i == steps.len() {
        assert(steps.take(i) =~= steps);
    }
    if steps.len() > 0 {
        let front = steps.drop_last();
        if i < steps.len() {
            assert(front.take(i) =~= steps.take(i));
            lemma_run_extends(front, i);
        } else {
            lemma_run_extends(front, front.len() as int);
        }
        if guard_run(steps).deployment_id is Some {
            if guard_run(front).deployment_id is Some {
                let k = choose|k: int| 0 <= k < front.len() && (#[trigger] front[k]) is Prepared;
                assert(steps[k] == front[k]);
            } else {
                assert(steps[steps.len() - 1] is Prepared);
            }
        }
    }
}

/// However many set out to cancel a deployment, and in whatever order, one at most gets to do
/// it.
pub proof fn law_one_claim_at_most(steps: Seq<GuardStep<Seq<char>>>, i: int, j: int)
    requires
        0 <= i < j < steps.len(),
        is_granted_claim(steps, i),
    ensures
        !is_granted_claim(steps, j),
{
    let later = steps.take(j);
    assert(later.take(i + 1) =~= steps.take(i + 1));
    assert(steps.take(i + 1).drop_last() =~= steps.take(i));
    assert(steps.take(i + 1).last() == steps[i]);
    lemma_run_extends(later, i + 1);
}

/// Nothing is cancelled before it was prepared, nor after it was activated.
pub proof fn law_claim_needs_an_open_deployment(steps: Seq<GuardStep<Seq<char>>>, i: int)
    requires
        0 <= i < steps.len(),
        is_granted_claim(steps, i),
    ensures
        exists|k: int| 0 <= k < i && (#[trigger] steps[k]) is Prepared,
        forall|k: int| 0 <= k < i ==> !((#[trigger] steps[k]) is Activated),
{
    let before = steps.take(i);
    lemma_run_extends(before, 0);
    let k = choose|k: int| 0 <= k < before.len() && (#[trigger] before[k]) is Prepared;
    assert(steps[k] == before[k]);
    assert forall|k: int| 0 <= k < i implies !((#[trigger] steps[k]) is Activated) by {
        assert(before.take(k + 1).drop_last() =~= steps.take(k));
        assert(before.take(k + 1).last() == steps[k]);
        lemma_run_extends(before, k + 1);
    }
}

/// Whoever sets out first to cancel an open deployment gets that very deployment; who comes
/// later gets nothing, and after activation nobody does.
pub proof fn law_first_claim_gets_the_deployment(guard: CancelGuard<Seq<char>>, id: Seq<char>)
    ensures
        claimable(guard_next(new_guard(), GuardStep::Prepared(id))) == Some(id),
        claimable(new_guard()) is None,
        !guard.activated && !guard.attempted ==> claimable(
            guard_next(guard, GuardStep::Prepared(id)),
        ) == Some(id),
        claimable(guard_next(guard, GuardStep::Activated)) is None,
        claimable(guard_next(guard, GuardStep::Claim)) is None,
        guard_next(guard, GuardStep::Claim).deployment_id == guard.deployment_id,
{
}

} // verus!
