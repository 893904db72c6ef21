use sony_bravia_control::dispatch::{dispatch, DispatchOutcome};
use sony_bravia_control::relay::{RelayChannel, SubmitError};
use sony_bravia_control::table::resolve;

#[test]
fn frames_are_transmitted_in_submission_order() {
    let mut relay = RelayChannel::new();
    let a = resolve("powerOn").unwrap();
    let b = resolve("hdmi3").unwrap();
    assert!(relay.submit(a).is_ok());
    assert!(relay.submit(b).is_ok());
    assert_eq!(relay.pending_len(), 2);
    let first = relay.take_next().unwrap();
    let second = relay.take_next().unwrap();
    assert_eq!(first.as_bytes(), b"*SCPOWR0000000000000001\n");
    assert_eq!(second.as_bytes(), b"*SCINPT0000000100000003\n");
    assert!(relay.take_next().is_none());
}

#[test]
fn frames_reach_the_writer_unmodified() {
    let mut relay = RelayChannel::new();
    let frame = resolve("netflix").unwrap();
    let expected = frame.as_bytes().to_vec();
    relay.submit(frame).unwrap();
    let out = relay.take_next().unwrap();
    assert_eq!(out.as_bytes(), expected.as_slice());
    assert_eq!(out.len(), 24);
}

#[test]
fn take_next_on_empty_queue_is_none() {
    let mut relay = RelayChannel::new();
    assert!(relay.take_next().is_none());
    assert_eq!(relay.pending_len(), 0);
}

#[test]
fn closed_channel_rejects_submissions() {
    let mut relay = RelayChannel::new();
    relay.close();
    assert!(!relay.accepting());
    let frame = resolve("up").unwrap();
    assert_eq!(relay.submit(frame), Err(SubmitError::ChannelClosed));
    assert_eq!(relay.pending_len(), 0);
    assert!(relay.take_next().is_none());
}

#[test]
fn dispatch_power_on_produces_exact_bytes() {
    let mut relay = RelayChannel::new();
    assert_eq!(dispatch(&mut relay, "powerOn"), DispatchOutcome::Submitted);
    let frame = relay.take_next().unwrap();
    assert_eq!(frame.len(), 24);
    assert_eq!(frame.as_bytes(), b"*SCPOWR0000000000000001\n");
    assert!(relay.take_next().is_none());
}

#[test]
fn dispatch_hdmi3_produces_exact_bytes() {
    let mut relay = RelayChannel::new();
    assert_eq!(dispatch(&mut relay, "hdmi3"), DispatchOutcome::Submitted);
    let frame = relay.take_next().unwrap();
    assert_eq!(frame.as_bytes(), b"*SCINPT0000000100000003\n");
}

#[test]
fn dispatch_unknown_name_is_a_reported_no_op() {
    let mut relay = RelayChannel::new();
    assert_eq!(dispatch(&mut relay, "bogus"), DispatchOutcome::UnknownCommand);
    assert_eq!(relay.pending_len(), 0);
    assert!(relay.take_next().is_none());
    assert!(relay.accepting());
}

#[test]
fn dispatch_to_torn_down_channel_is_reported() {
    let mut relay = RelayChannel::new();
    relay.close();
    assert_eq!(dispatch(&mut relay, "powerOn"), DispatchOutcome::ChannelClosed);
    assert_eq!(relay.pending_len(), 0);
}

#[test]
fn dispatch_keeps_order_across_commands() {
    let mut relay = RelayChannel::new();
    assert_eq!(dispatch(&mut relay, "powerOn"), DispatchOutcome::Submitted);
    assert_eq!(dispatch(&mut relay, "bogus"), DispatchOutcome::UnknownCommand);
    assert_eq!(dispatch(&mut relay, "up"), DispatchOutcome::Submitted);
    assert_eq!(dispatch(&mut relay, "hdmi1"), DispatchOutcome::Submitted);
    assert_eq!(relay.take_next().unwrap().as_bytes(), b"*SCPOWR0000000000000001\n");
    assert_eq!(relay.take_next().unwrap().as_bytes(), b"*SCIRCC0000000000000009\n");
    assert_eq!(relay.take_next().unwrap().as_bytes(), b"*SCINPT0000000100000001\n");
    assert!(relay.take_next().is_none());
}
