use vstd::prelude::*;

verus! {

/// Process-wide record of whether the GL entry points have been loaded.
///
/// The application keeps one of these behind a mutex, held for the whole of a context
/// creation or adoption, so that the load happens once and no thread uses GL entry points
/// before it is done.
#[derive(Debug, PartialEq, Eq, Structural)]
pub struct GLLoadGuard {
    pub loaded: bool,
}

impl GLLoadGuard {
    /// A guard for a process that has loaded nothing yet.
    pub fn new() -> (r: GLLoadGuard)
        ensures
            !r.loaded,
    {
        GLLoadGuard { loaded: false }
    }

    /// Claims the one-time load: true exactly when nobody has claimed it before. After the
    /// call the load counts as done.
    pub fn claim_load(&mut self) -> (r: bool)
        ensures
            r == !old(self).loaded,
            final(self).loaded,
    {
        let first = !self.loaded;
        self.loaded = true;
        first
    }

    /// Forgets the load, so that a test can start from a fresh process state.
    pub fn reset(&mut self)
        ensures
            !final(self).loaded,
    {
        self.loaded = false;
    }
}

/// What `claim_load` returns to each of `n` callers that take their turns one after the
/// other, starting from a guard whose flag is `loaded`.
pub open spec fn claim_outcomes(loaded: bool, n: nat) -> Seq<bool>
    decreases n,
{
    if n == 0 {
        Seq::empty()
    } else {
        seq![!loaded] + claim_outcomes(true, (n - 1) as nat)
    }
}

/// The number of granted claims in `outcomes`.
pub open spec fn granted(outcomes: Seq<bool>) -> nat
    decreases outcomes.len(),
{
    if outcomes.len() == 0 {
        0
    } else {
        (if outcomes[0] { 1nat } else { 0nat }) + granted(outcomes.drop_first())
    }
}

/// However many callers contend for the guard, at most one is granted the load, and one is
/// granted it exactly when the load had not happened before and there is a caller.
pub proof fn lemma_load_granted_at_most_once(loaded: bool, n: nat)
    ensures
        granted(claim_outcomes(loaded, n)) <= 1,
        granted(claim_outcomes(loaded, n)) == (if !loaded && n > 0 { 1nat } else { 0nat }),
    decreases n,
{
    if n > 0 {
        let rest = claim_outcomes(true, (n - 1) as nat);
        lemma_load_granted_at_most_once(true, (n - 1) as nat);
        let all = claim_outcomes(loaded, n);
        assert(all == seq![!loaded] + rest);
        assert(all.drop_first() =~= rest);
    }
}

} // verus!
