use vstd::prelude::*;
use crate::relay::{RelayChannel, SubmitError};
use crate::table::{resolve, spec_frame_for};

verus! {

/// What one dispatch did. Outcomes are reported to the caller (the host logs
/// them); no failure ever crosses the dispatcher boundary as a crash, so a
/// broken relay cannot take the trigger source's event loop down with it.
#[derive(Clone, Copy, Debug, PartialEq, Eq)]
pub enum DispatchOutcome {
    /// The name resolved and its frame was accepted by the relay channel.
    Submitted,
    /// The name is not in the Command Table; nothing was submitted.
    UnknownCommand,
    /// The relay channel is torn down; nothing was submitted.
    ChannelClosed,
}

/// The Command Dispatcher: resolves a logical command name via the Command
/// Table and submits the resolved frame to the Relay Channel. An unknown name
/// or a torn-down channel is reported and leaves the channel untouched.
pub fn dispatch(relay: &mut RelayChannel, name: &str) -> (r: DispatchOutcome)
    requires
        old(relay).wf(),
    ensures
        final(relay).wf(),
        final(relay).is_open() == old(relay).is_open(),
        final(relay).transmitted_log() == old(relay).transmitted_log(),
        match spec_frame_for(name@) {
            Some(f) => {
                if old(relay).is_open() {
                    r is Submitted && final(relay).submitted_log() == old(
                        relay,
                    ).submitted_log().push(f)
                } else {
                    r is ChannelClosed && *final(relay) == *old(relay)
                }
            },
            None => r is UnknownCommand && *final(relay) == *old(relay),
        },
{
    match resolve(name) {
        Some(frame) => match relay.submit(frame) {
            Ok(()) => DispatchOutcome::Submitted,
            Err(SubmitError::ChannelClosed) => DispatchOutcome::ChannelClosed,
        },
        None => DispatchOutcome::UnknownCommand,
    }
}

} // verus!
