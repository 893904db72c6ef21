use sony_bravia_control::bindings::{default_bindings, Trigger};
use sony_bravia_control::controller::{BindingController, TriggerOutcome};
use sony_bravia_control::dispatch::DispatchOutcome;
use sony_bravia_control::relay::RelayChannel;
use sony_bravia_control::table::resolve;
use sony_bravia_control::toggle::ToggleAction;

fn controller() -> BindingController {
    BindingController::new(default_bindings(), Trigger::ScrollLock)
}

#[test]
fn default_table_has_expected_bindings() {
    let expected: [(Trigger, &str); 18] = [
        (Trigger::F1, "powerOff"),
        (Trigger::F2, "powerOn"),
        (Trigger::H, "home"),
        (Trigger::N, "netflix"),
        (Trigger::UpArrow, "up"),
        (Trigger::W, "up"),
        (Trigger::DownArrow, "down"),
        (Trigger::S, "down"),
        (Trigger::D, "right"),
        (Trigger::RightArrow, "right"),
        (Trigger::A, "left"),
        (Trigger::LeftArrow, "left"),
        (Trigger::Enter, "enter"),
        (Trigger::Backspace, "return"),
        (Trigger::Num1, "hdmi1"),
        (Trigger::Num2, "hdmi2"),
        (Trigger::Num3, "hdmi3"),
        (Trigger::Num4, "hdmi4"),
    ];
    let set = default_bindings();
    assert_eq!(set.len(), expected.len());
    for (i, (trigger, name)) in expected.iter().enumerate() {
        let binding = set.get(i);
        assert_eq!(binding.trigger, *trigger);
        assert_eq!(binding.name.as_str(), *name);
        assert_eq!(binding.frame.as_bytes(), resolve(name).unwrap().as_bytes());
    }
}

#[test]
fn duplicate_names_carry_identical_frames() {
    let set = default_bindings();
    for i in 0..set.len() {
        for j in 0..set.len() {
            if set.get(i).name == set.get(j).name {
                assert_eq!(set.get(i).frame.as_bytes(), set.get(j).frame.as_bytes());
            }
        }
    }
}

#[test]
fn activation_is_atomic_over_the_whole_set() {
    let mut c = controller();
    assert!(!c.active_now());
    assert!(c.trigger_registered(Trigger::ScrollLock));
    for i in 0..c.binding_count() {
        let t = c.binding_at(i).trigger;
        assert!(!c.trigger_registered(t));
    }

    assert_eq!(c.on_control_fire(), ToggleAction::ActivateAll);
    assert!(c.active_now());
    assert!(c.trigger_registered(Trigger::ScrollLock));
    for i in 0..c.binding_count() {
        let t = c.binding_at(i).trigger;
        assert!(c.trigger_registered(t));
    }

    assert_eq!(c.on_control_fire(), ToggleAction::DeactivateAll);
    assert!(!c.active_now());
    assert!(c.trigger_registered(Trigger::ScrollLock));
    for i in 0..c.binding_count() {
        let t = c.binding_at(i).trigger;
        assert!(!c.trigger_registered(t));
    }
}

#[test]
fn control_trigger_toggles_and_up_dispatches() {
    let mut c = controller();
    let mut relay = RelayChannel::new();

    let outcome = c.handle_trigger(&mut relay, Trigger::ScrollLock);
    assert_eq!(outcome, TriggerOutcome::Toggled(ToggleAction::ActivateAll));

    let outcome = c.handle_trigger(&mut relay, Trigger::UpArrow);
    assert_eq!(outcome, TriggerOutcome::Dispatched(DispatchOutcome::Submitted));
    let frame = relay.take_next().unwrap();
    assert_eq!(frame.as_bytes(), b"*SCIRCC0000000000000009\n");

    let outcome = c.handle_trigger(&mut relay, Trigger::ScrollLock);
    assert_eq!(outcome, TriggerOutcome::Toggled(ToggleAction::DeactivateAll));

    let outcome = c.handle_trigger(&mut relay, Trigger::UpArrow);
    assert_eq!(outcome, TriggerOutcome::Ignored);
    assert!(relay.take_next().is_none());
    assert_eq!(relay.pending_len(), 0);
}

#[test]
fn inactive_set_dispatches_nothing() {
    let mut c = controller();
    let mut relay = RelayChannel::new();
    for i in 0..c.binding_count() {
        let t = c.binding_at(i).trigger;
        assert_eq!(c.handle_trigger(&mut relay, t), TriggerOutcome::Ignored);
    }
    assert_eq!(relay.pending_len(), 0);
}

#[test]
fn synonym_triggers_dispatch_the_same_frame() {
    let mut c = controller();
    let mut relay = RelayChannel::new();
    c.handle_trigger(&mut relay, Trigger::ScrollLock);
    c.handle_trigger(&mut relay, Trigger::UpArrow);
    c.handle_trigger(&mut relay, Trigger::W);
    let first = relay.take_next().unwrap();
    let second = relay.take_next().unwrap();
    assert_eq!(first.as_bytes(), second.as_bytes());
    assert_eq!(first.as_bytes(), b"*SCIRCC0000000000000009\n");
}

#[test]
fn dispatch_through_torn_down_channel_is_reported() {
    let mut c = controller();
    let mut relay = RelayChannel::new();
    c.handle_trigger(&mut relay, Trigger::ScrollLock);
    relay.close();
    let outcome = c.handle_trigger(&mut relay, Trigger::Num3);
    assert_eq!(outcome, TriggerOutcome::Dispatched(DispatchOutcome::ChannelClosed));
    assert_eq!(relay.pending_len(), 0);
}
