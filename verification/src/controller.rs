use vstd::prelude::*;
use crate::bindings::{Binding, BindingSet, Trigger, TriggerRegistry};
use crate::dispatch::{dispatch, DispatchOutcome};
use crate::relay::RelayChannel;
use crate::toggle::{ActivationToggle, ToggleAction};

verus! {

/// What handling one fired trigger did.
#[derive(Clone, Copy, Debug, PartialEq, Eq)]
pub enum TriggerOutcome {
    /// The control trigger fired: the whole Binding Set was toggled.
    Toggled(ToggleAction),
    /// A bound command trigger fired while the set was active: its command
    /// went through the dispatcher.
    Dispatched(DispatchOutcome),
    /// The trigger drives nothing right now; nothing happened.
    Ignored,
}

/// The relay's control state: the Activation Toggle, the fixed Binding Set,
/// and the model of which triggers the external source currently has
/// registered. The control trigger is registered once at construction, for
/// the process lifetime, and is never part of the toggled set.
pub struct BindingController {
    toggle: ActivationToggle,
    bindings: BindingSet,
    registry: TriggerRegistry,
    control: Trigger,
}

impl BindingController {
    /// Whether the Binding Set is currently active.
    pub closed spec fn is_active(self) -> bool {
        self.toggle.is_active()
    }

    /// How often the control trigger has fired since construction.
    pub closed spec fn fire_count(self) -> nat {
        self.toggle.fire_count()
    }

    /// How many firings activated the whole set.
    pub closed spec fn activation_count(self) -> nat {
        self.toggle.activation_count()
    }

    /// How many firings deactivated the whole set.
    pub closed spec fn deactivation_count(self) -> nat {
        self.toggle.deactivation_count()
    }

    /// The fixed Binding Set.
    pub closed spec fn binding_set(self) -> BindingSet {
        self.bindings
    }

    /// The designated control trigger.
    pub closed spec fn control_trigger(self) -> Trigger {
        self.control
    }

    /// Whether the external trigger source currently has this trigger
    /// registered.
    pub closed spec fn is_trigger_registered(self, t: Trigger) -> bool {
        self.registry.is_bound(t)
    }

    /// The controller's invariant: the toggle and the set are valid, the
    /// control trigger is not in the set but always registered, and the
    /// registrations are exactly what the toggle state demands — the whole
    /// set while `Active`, nothing but the control trigger while `Inactive`.
    pub closed spec fn wf(self) -> bool {
        &&& self.toggle.wf()
        &&& self.bindings.wf()
        &&& !self.bindings.has_trigger(self.control)
        &&& self.is_active() ==> forall|t: Trigger|
            self.registry.is_bound(t) <==> (t == self.control || self.bindings.has_trigger(t))
        &&& !self.is_active() ==> forall|t: Trigger| self.registry.is_bound(t) <==> t
            == self.control
    }

    /// Builds the controller: the set starts `Inactive`; only the control
    /// trigger is registered, once, for the process lifetime.
    pub fn new(bindings: BindingSet, control: Trigger) -> (r: BindingController)
        requires
            bindings.wf(),
            !bindings.has_trigger(control),
        ensures
            r.wf(),
            !r.is_active(),
            r.fire_count() == 0,
            r.activation_count() == 0,
            r.deactivation_count() == 0,
            r.binding_set() == bindings,
            r.control_trigger() == control,
            forall|t: Trigger| r.is_trigger_registered(t) <==> t == control,
    {
        let mut registry = TriggerRegistry::new();
        registry.register(control);
        BindingController { toggle: ActivationToggle::new(), bindings, registry, control }
    }

    /// One firing of the designated control trigger: flips the toggle and
    /// applies the demanded operation to the whole Binding Set at once.
    pub fn on_control_fire(&mut self) -> (a: ToggleAction)
        requires
            old(self).wf(),
        ensures
            final(self).wf(),
            final(self).binding_set() == old(self).binding_set(),
            final(self).control_trigger() == old(self).control_trigger(),
            final(self).fire_count() == old(self).fire_count() + 1,
            final(self).is_active() == !old(self).is_active(),
            a is ActivateAll <==> final(self).is_active(),
            a is ActivateAll ==> final(self).activation_count() == old(self).activation_count()
                + 1 && final(self).deactivation_count() == old(self).deactivation_count(),
            a is DeactivateAll ==> final(self).deactivation_count() == old(
                self,
            ).deactivation_count() + 1 && final(self).activation_count() == old(
                self,
            ).activation_count(),
            a is ActivateAll ==> forall|t: Trigger|
                final(self).is_trigger_registered(t) <==> (t == old(self).control_trigger() || old(
                    self,
                ).binding_set().has_trigger(t)),
            a is DeactivateAll ==> forall|t: Trigger|
                final(self).is_trigger_registered(t) <==> t == old(self).control_trigger(),
    {
        let a = self.toggle.fire();
        match a {
            ToggleAction::ActivateAll => self.bindings.activate_all(&mut self.registry),
            ToggleAction::DeactivateAll => self.bindings.deactivate_all(&mut self.registry),
        }
        proof {
            if self.toggle.is_active() {
                assert forall|t: Trigger|
                    self.registry.is_bound(t) <==> (t == self.control || self.bindings.has_trigger(
                        t,
                    )) by {}
            } else {
                assert forall|t: Trigger| self.registry.is_bound(t) <==> t == self.control by {
                    assert(old(self).registry.is_bound(t) <==> (t == old(self).control || old(
                        self,
                    ).bindings.has_trigger(t)));
                    assert(!old(self).bindings.has_trigger(old(self).control));
                }
            }
        }
        a
    }

    /// The event-loop step: what one fired trigger does to the relay system.
    /// The control trigger drives the Activation Toggle; a trigger of the set,
    /// while active, dispatches its bound command; anything else is ignored.
    pub fn handle_trigger(&mut self, relay: &mut RelayChannel, t: Trigger) -> (r: TriggerOutcome)
        requires
            old(self).wf(),
            old(relay).wf(),
        ensures
            final(self).wf(),
            final(relay).wf(),
            final(self).binding_set() == old(self).binding_set(),
            final(self).control_trigger() == old(self).control_trigger(),
            final(relay).is_open() == old(relay).is_open(),
            final(relay).transmitted_log() == old(relay).transmitted_log(),
            t == old(self).control_trigger() ==> (*final(relay) == *old(relay) && (
            r matches TriggerOutcome::Toggled(a) && (a is ActivateAll <==> final(self).is_active()))
                && final(self).fire_count() == old(self).fire_count() + 1 && final(self).is_active()
                == !old(self).is_active()),
            t != old(self).control_trigger() ==> *final(self) == *old(self),
            (t != old(self).control_trigger() && old(self).is_active()
                && old(self).binding_set().has_trigger(t)) ==> (if old(relay).is_open() {
                r == TriggerOutcome::Dispatched(DispatchOutcome::Submitted)
                    && final(relay).submitted_log() == old(relay).submitted_log().push(
                    old(self).binding_set().frame_of_trigger(t),
                )
            } else {
                r == TriggerOutcome::Dispatched(DispatchOutcome::ChannelClosed) && *final(relay)
                    == *old(relay)
            }),
            (t != old(self).control_trigger() && !(old(self).is_active()
                && old(self).binding_set().has_trigger(t))) ==> (r == TriggerOutcome::Ignored
                && *final(relay) == *old(relay)),
    {
        if t == self.control {
            let a = self.on_control_fire();
            TriggerOutcome::Toggled(a)
        } else if self.toggle.active_now() {
            match self.bindings.find_trigger(t) {
                Some(i) => {
                    let b = self.bindings.get(i);
                    proof {
                        assert(self.bindings.bindings_seq()[i as int].wf());
                        assert(self.bindings.has_trigger(t));
                        let j = choose|j: int|
                            0 <= j < self.bindings.bindings_seq().len() && (
                            #[trigger] self.bindings.bindings_seq()[j]).trigger == t;
                        assert(j == i as int);
                        assert(self.bindings.frame_of_trigger(t) == b.frame@);
                    }
                    let outcome = dispatch(relay, b.name.as_str());
                    TriggerOutcome::Dispatched(outcome)
                },
                None => TriggerOutcome::Ignored,
            }
        } else {
            TriggerOutcome::Ignored
        }
    }

    /// Whether the Binding Set is currently active.
    pub fn active_now(&self) -> (b: bool)
        ensures
            b == self.is_active(),
    {
        self.toggle.active_now()
    }

    /// Whether the external trigger source currently has this trigger
    /// registered.
    pub fn trigger_registered(&self, t: Trigger) -> (r: bool)
        ensures
            r == self.is_trigger_registered(t),
    {
        self.registry.registered(t)
    }

    /// How many bindings the controller's set holds.
    pub fn binding_count(&self) -> (n: usize)
        ensures
            n == self.binding_set().bindings_seq().len(),
    {
        self.bindings.len()
    }

    /// The binding at one position of the set's table.
    pub fn binding_at(&self, i: usize) -> (r: &Binding)
        requires
            i < self.binding_set().bindings_seq().len(),
        ensures
            *r == self.binding_set().bindings_seq()[i as int],
    {
        self.bindings.get(i)
    }
}

/// The controller's toggle obeys the parity law: starting from `Inactive`,
/// an even number of control-trigger firings leaves the set `Inactive` and an
/// odd number leaves it `Active`, with exactly ceil(N/2) whole-set activations
/// and floor(N/2) whole-set deactivations demanded along the way.
pub proof fn lemma_controller_parity(c: BindingController)
    requires
        c.wf(),
    ensures
        c.fire_count() % 2 == 0 ==> !c.is_active(),
        c.fire_count() % 2 == 1 ==> c.is_active(),
        c.activation_count() == (c.fire_count() + 1) / 2,
        c.deactivation_count() == c.fire_count() / 2,
{
}

/// Activation atomicity: no partially active set is ever observable. While
/// the toggle is `Active` every binding's trigger is registered with the
/// trigger source; while it is `Inactive` none are; the control trigger is
/// registered for the whole process lifetime either way.
pub proof fn lemma_activation_atomicity(c: BindingController)
    requires
        c.wf(),
    ensures
        c.is_trigger_registered(c.control_trigger()),
        c.is_active() ==> forall|i: int|
            0 <= i < c.binding_set().bindings_seq().len() ==> c.is_trigger_registered(
                (#[trigger] c.binding_set().bindings_seq()[i]).trigger,
            ),
        !c.is_active() ==> forall|i: int|
            0 <= i < c.binding_set().bindings_seq().len() ==> !c.is_trigger_registered(
                (#[trigger] c.binding_set().bindings_seq()[i]).trigger,
            ),
{
    if c.is_active() {
        assert forall|i: int|
            0 <= i < c.binding_set().bindings_seq().len() implies c.is_trigger_registered(
            (#[trigger] c.binding_set().bindings_seq()[i]).trigger,
        ) by {
            assert(c.binding_set().has_trigger(c.binding_set().bindings_seq()[i].trigger));
        }
    } else {
        assert forall|i: int|
            0 <= i < c.binding_set().bindings_seq().len() implies !c.is_trigger_registered(
            (#[trigger] c.binding_set().bindings_seq()[i]).trigger,
        ) by {
            assert(c.binding_set().has_trigger(c.binding_set().bindings_seq()[i].trigger));
        }
    }
}

} // verus!
