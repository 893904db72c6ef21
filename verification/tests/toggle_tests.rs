use sony_bravia_control::toggle::{ActivationToggle, ToggleAction};

#[test]
fn first_fire_activates() {
    let mut toggle = ActivationToggle::new();
    assert!(!toggle.active_now());
    assert_eq!(toggle.fire(), ToggleAction::ActivateAll);
    assert!(toggle.active_now());
}

#[test]
fn even_firings_return_to_inactive() {
    let mut toggle = ActivationToggle::new();
    for _ in 0..6 {
        toggle.fire();
    }
    assert!(!toggle.active_now());
}

#[test]
fn odd_firings_leave_active() {
    let mut toggle = ActivationToggle::new();
    for _ in 0..7 {
        toggle.fire();
    }
    assert!(toggle.active_now());
}

#[test]
fn firings_split_between_activations_and_deactivations() {
    let mut toggle = ActivationToggle::new();
    let mut activations: u32 = 0;
    let mut deactivations: u32 = 0;
    let n: u32 = 7;
    for _ in 0..n {
        match toggle.fire() {
            ToggleAction::ActivateAll => activations += 1,
            ToggleAction::DeactivateAll => deactivations += 1,
        }
    }
    assert_eq!(activations, (n + 1) / 2);
    assert_eq!(deactivations, n / 2);
}

#[test]
fn actions_strictly_alternate() {
    let mut toggle = ActivationToggle::new();
    for i in 0..10 {
        let action = toggle.fire();
        if i % 2 == 0 {
            assert_eq!(action, ToggleAction::ActivateAll);
        } else {
            assert_eq!(action, ToggleAction::DeactivateAll);
        }
    }
}
