//! Scoped release actions.
//!
//! A `Defer` arms an action — typically the wake-up that releases a
//! parked capture thread — to be run once when the owning scope ends.
//! The host shell, which owns the scopes and their exit paths, fires the
//! guard through [`Defer::run`] on every way out, error paths included (a
//! verified destructor may not call an arbitrary host action, so the
//! trigger is the shell's, while arming and firing are verified here).

use vstd::prelude::*;

verus! {

/// Holds an action to be run once at scope exit.  Consuming the guard
/// runs the action, so it can never run twice.
pub struct Defer<F: FnOnce() -> ()> {
    on_drop: Option<F>,
}

impl<F: FnOnce() -> ()> Defer<F> {
    /// Every armed action is callable unconditionally: nothing more is
    /// known when the scope ends.
    #[verifier::type_invariant]
    spec fn callable(self) -> bool {
        self.on_drop matches Some(f) ==> f.requires(())
    }

    /// Whether this guard holds exactly the given action.
    pub closed spec fn action_is(&self, f: F) -> bool {
        self.on_drop == Some(f)
    }

    /// Arms a guard with the action to run on scope exit.
    pub fn new(on_drop: F) -> (r: Self)
        requires
            on_drop.requires(()),
        ensures
            r.action_is(on_drop),
    {
        Defer { on_drop: Some(on_drop) }
    }

    /// Runs the armed action, consuming the guard: the action runs
    /// exactly once, and whatever it promises of its completion holds
    /// afterwards.
    pub fn run(self)
        ensures
            forall|f: F| self.action_is(f) ==> f.ensures((), ()),
    {
        proof {
            use_type_invariant(&self);
        }
        let Defer { on_drop } = self;
        match on_drop {
            Some(action) => (action)(),
            None => (),
        }
    }
}

} // verus!
