pub mod config;

use vstd::prelude::*;

verus! {

/// The shortest time, in milliseconds, between two presence updates.
pub const MIN_WAIT_TIME: u128 = 2500;

/// What becomes of a requested presence update.
#[derive(Debug, Clone, Copy, PartialEq, Eq, Structural)]
pub enum PresenceUpdate {
    /// Send the activity to Discord.
    Send,
    /// Discard it: the last change was too recent.
    Throttled,
    /// Refuse it: the client is not connected.
    NotConnected,
}

/// Decides a presence update: without a connection it is refused; an
/// update less than `MIN_WAIT_TIME` milliseconds after a presence was set is
/// discarded; any other is sent (and from then on a presence is set).
pub fn presence_update(connected: bool, elapsed_ms: u128, has_presence: bool) -> (r: PresenceUpdate)
    ensures
        r == if !connected {
            PresenceUpdate::NotConnected
        } else if elapsed_ms < MIN_WAIT_TIME && has_presence {
            PresenceUpdate::Throttled
        } else {
            PresenceUpdate::Send
        },
{
    if connected {
        if elapsed_ms < MIN_WAIT_TIME && has_presence {
            PresenceUpdate::Throttled
        } else {
            PresenceUpdate::Send
        }
    } else {
        PresenceUpdate::NotConnected
    }
}

} // verus!
