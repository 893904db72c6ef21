use vstd::prelude::*;

verus! {

/// The whole-set operation that one control-trigger firing demands of the
/// Binding Set; the host mirrors it against the external trigger source.
#[derive(Clone, Copy, Debug, PartialEq, Eq, Structural)]
pub enum ToggleAction {
    /// The toggle flipped to `Active`: register every binding's trigger.
    ActivateAll,
    /// The toggle flipped to `Inactive`: unregister every binding's trigger.
    DeactivateAll,
}

/// The Activation Toggle: a two-state machine driven by the single designated
/// control trigger. It starts `Inactive` and flips on each firing, so the
/// Binding Set is always either fully active or fully inactive. The ghost
/// counters record its whole history: how often it fired and how the firings
/// split between activations and deactivations.
pub struct ActivationToggle {
    active: bool,
    fired: Ghost<nat>,
    activations: Ghost<nat>,
    deactivations: Ghost<nat>,
}

impl ActivationToggle {
    /// Whether the toggle is in the `Active` state.
    pub closed spec fn is_active(self) -> bool {
        self.active
    }

    /// How often the control trigger has fired since construction.
    pub closed spec fn fire_count(self) -> nat {
        self.fired@
    }

    /// How many firings demanded `ActivateAll`.
    pub closed spec fn activation_count(self) -> nat {
        self.activations@
    }

    /// How many firings demanded `DeactivateAll`.
    pub closed spec fn deactivation_count(self) -> nat {
        self.deactivations@
    }

    /// The toggle's history invariant: the state is the parity of the firing
    /// count, and the firings split between ceil(N/2) activations and
    /// floor(N/2) deactivations.
    pub open spec fn wf(self) -> bool {
        &&& self.is_active() == (self.fire_count() % 2 == 1)
        &&& self.activation_count() == (self.fire_count() + 1) / 2
        &&& self.deactivation_count() == self.fire_count() / 2
    }

    /// A fresh toggle: `Inactive`, never fired.
    pub fn new() -> (r: ActivationToggle)
        ensures
            r.wf(),
            !r.is_active(),
            r.fire_count() == 0,
            r.activation_count() == 0,
            r.deactivation_count() == 0,
    {
        ActivationToggle {
            active: false,
            fired: Ghost(0nat),
            activations: Ghost(0nat),
            deactivations: Ghost(0nat),
        }
    }

    /// Whether the toggle is currently `Active`.
    pub fn active_now(&self) -> (b: bool)
        ensures
            b == self.is_active(),
    {
        self.active
    }

    /// One firing of the designated control trigger: flip the state and
    /// demand the whole-set operation the new state calls for.
    pub fn fire(&mut self) -> (a: ToggleAction)
        requires
            old(self).wf(),
        ensures
            final(self).wf(),
            final(self).fire_count() == old(self).fire_count() + 1,
            final(self).is_active() == !old(self).is_active(),
            a is ActivateAll <==> final(self).is_active(),
            a is ActivateAll ==> final(self).activation_count() == old(self).activation_count()
                + 1 && final(self).deactivation_count() == old(self).deactivation_count(),
            a is DeactivateAll ==> final(self).deactivation_count() == old(
                self,
            ).deactivation_count() + 1 && final(self).activation_count() == old(
                self,
            ).activation_count(),
    {
        self.active = !self.active;
        self.fired = Ghost(self.fired@ + 1);
        if self.active {
            self.activations = Ghost(self.activations@ + 1);
            ToggleAction::ActivateAll
        } else {
            self.deactivations = Ghost(self.deactivations@ + 1);
            ToggleAction::DeactivateAll
        }
    }
}

/// Toggle idempotence-of-pairs: starting from `Inactive`, an even number of
/// control-trigger firings returns the toggle to `Inactive` and an odd number
/// leaves it `Active`; N firings demand exactly ceil(N/2) activations of the
/// Binding Set and exactly floor(N/2) deactivations.
pub proof fn lemma_toggle_parity(t: ActivationToggle)
    requires
        t.wf(),
    ensures
        t.fire_count() % 2 == 0 ==> !t.is_active(),
        t.fire_count() % 2 == 1 ==> t.is_active(),
        t.activation_count() == (t.fire_count() + 1) / 2,
        t.deactivation_count() == t.fire_count() / 2,
        t.activation_count() + t.deactivation_count() == t.fire_count(),
{
}

} // verus!
