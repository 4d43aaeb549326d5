//! The sizes and limits that a port is created with.

use vstd::prelude::*;

verus! {

/// Configuration of a context.
pub struct Config {
    /// A name for the context, used to label its threads.
    pub name: String,
    /// The number of outbound calls that may be in flight at once.
    pub call_slots: usize,
    /// How long a call waits for a free slot, in milliseconds, before it
    /// fails. `None` waits without bound.
    pub call_timeout: Option<u64>,
    /// The number of threads that serve inbound calls.
    pub server_threads: usize,
    /// The number of service objects that may be exported at once, and of
    /// remote objects that may be imported at once.
    pub maximum_services_num: u32,
}

/// What a caller does that has found every call slot taken.
#[derive(PartialEq, Eq, Structural, Debug, Clone, Copy)]
pub enum SlotWait {
    /// Wait for a slot to be freed, for at most this many milliseconds,
    /// without bound where it is `None`, and try again.
    Wait(Option<u64>),
    /// The call timeout has passed: the call fails with too many calls.
    GiveUp,
}

impl Config {
    /// Decides whether a caller that has waited `waited` milliseconds for a
    /// free call slot goes on waiting. The call timeout bounds this wait
    /// alone: once the request is sent, the response is awaited without
    /// bound.
    pub fn slot_wait(&self, waited: u64) -> (wait: SlotWait)
        ensures
            wait == (match self.call_timeout {
                None => SlotWait::Wait(None),
                Some(timeout) => if waited < timeout {
                    SlotWait::Wait(Some((timeout - waited) as u64))
                } else {
                    SlotWait::GiveUp
                },
            }),
    {
        match self.call_timeout {
            None => SlotWait::Wait(None),
            Some(timeout) => if waited < timeout {
                SlotWait::Wait(Some(timeout - waited))
            } else {
                SlotWait::GiveUp
            },
        }
    }

    /// The configuration that suits most uses.
    pub fn default_setup() -> (config: Config)
        ensures
            config.name@ == "rto"@,
            config.call_slots == 512,
            config.call_timeout == Some(1000u64),
            config.server_threads == 8,
            config.maximum_services_num == 65536,
    {
        Config {
            name: "rto".to_owned(),
            call_slots: 512,
            call_timeout: Some(1000),
            server_threads: 8,
            maximum_services_num: 65536,
        }
    }
}

} // verus!
