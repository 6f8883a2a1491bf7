use vstd::prelude::*;

verus! {

/// What a guard is, as far as its contracts go: whether its action is still
/// held, and how many times the action has been run.
pub struct GuardState {
    pub armed: bool,
    pub runs: nat,
}

impl GuardState {
    /// The state of a guard just made: armed, the action not yet run.
    pub open spec fn fresh() -> GuardState {
        GuardState { armed: true, runs: 0 }
    }

    /// The state after a release: an armed guard runs its action once and
    /// disarms; a disarmed guard stays as it is.
    pub open spec fn released(self) -> GuardState {
        if self.armed {
            GuardState { armed: false, runs: self.runs + 1 }
        } else {
            self
        }
    }
}

/// A guard released once, by an explicit call or at the end of its scope,
/// has run its action exactly once and is disarmed.
pub proof fn lemma_release_runs_once(s: GuardState)
    requires
        s == GuardState::fresh(),
    ensures
        s.released().runs == 1,
        !s.released().armed,
{
}

/// An explicit release followed by the release at the end of scope runs the
/// action once in all: the second finds the guard disarmed and changes nothing.
pub proof fn lemma_release_then_scope_exit(s: GuardState)
    requires
        s == GuardState::fresh(),
    ensures
        s.released().runs == 1,
        s.released().released() == s.released(),
{
}

/// Releasing twice in a row is releasing once: the action runs once if the
/// guard was armed, and not at all if it was not.
pub proof fn lemma_release_idempotent(s: GuardState)
    ensures
        s.released().released() == s.released(),
        s.released().released().runs == s.runs + if s.armed { 1nat } else { 0nat },
        !s.released().released().armed,
{
}

/// Holds a deferred action and runs it exactly once: when `release` is called,
/// or else when the guard goes out of scope.
pub struct ScopeGuard<F: FnOnce()> {
    action: Option<F>,
    runs: Ghost<nat>,
}

impl<F: FnOnce()> ScopeGuard<F> {
    #[verifier::type_invariant]
    spec fn inv(self) -> bool {
        &&& self.runs@ <= 1
        &&& self.action matches Some(f) ==> self.runs@ == 0 && f.requires(())
    }

    pub closed spec fn view(&self) -> GuardState {
        GuardState { armed: self.action is Some, runs: self.runs@ }
    }

    /// The action that the guard was made with, while it still holds it.
    pub closed spec fn action(&self) -> F {
        self.action->0
    }

    /// Whether the guard still holds its action.
    pub fn is_armed(&self) -> (r: bool)
        ensures
            r == self@.armed,
    {
        self.action.is_some()
    }

    /// Runs the action now if the guard still holds it, and disarms the guard.
    /// A second call does nothing.
    pub fn release(&mut self)
        ensures
            final(self)@ == old(self)@.released(),
            old(self)@.armed ==> old(self).action().ensures((), ()),
    {
        proof { use_type_invariant(&*self); }
        let mut taken: Option<F> = None;
        core::mem::swap(&mut taken, &mut self.action);
        match taken {
            Some(f) => {
                f();
                self.runs = Ghost(1);
            },
            None => {},
        }
    }
}

/// Makes a guard that holds `action`, armed.
pub fn make_scope_guard<F: FnOnce()>(action: F) -> (g: ScopeGuard<F>)
    requires
        action.requires(()),
    ensures
        g@ == GuardState::fresh(),
        g.action() == action,
{
    ScopeGuard { action: Some(action), runs: Ghost(0) }
}

impl<F: FnOnce()> Drop for ScopeGuard<F> {
    /// Runs the action if the guard still holds it. Taken on trust: Verus asks
    /// a destructor not to unwind, and it cannot show that of a closure that a
    /// caller supplied, so the one step here, a call of the verified `release`,
    /// is not checked by it.
    #[verifier::external_body]
    fn drop(&mut self)
        opens_invariants none
        no_unwind
    {
        self.release();
    }
}

} // verus!
