//! Which host the terminals run on: a daemon, or this process.

use super::client::{has_text, DaemonClient};
use super::protocol::CAPABILITY_PTY_RESIZE_2X1;
use vstd::prelude::*;

verus! {

/// The slot for the connection to a daemon. It is `ready` once it is settled whether
/// there is one; without one the terminals run in this process.
pub struct DaemonBridge {
    pub client: Option<DaemonClient>,
    pub ready: bool,
}

/// The slot after a lost connection was taken out of it.
pub open spec fn swept(client: Option<DaemonClient>) -> Option<DaemonClient> {
    match client {
        Some(c) => if c.connected {
            client
        } else {
            None
        },
        None => None,
    }
}

impl DaemonBridge {
    /// An empty slot; whether there is a daemon is not settled.
    pub fn new() -> (bridge: Self)
        ensures
            bridge.client is None,
            !bridge.ready,
    {
        DaemonBridge { client: None, ready: false }
    }

    /// Settles on a daemon.
    pub fn set(&mut self, client: DaemonClient)
        ensures
            final(self).client == Some(client),
            final(self).ready,
    {
        self.client = Some(client);
        self.ready = true;
    }

    /// Settles on this process.
    pub fn mark_unavailable(&mut self)
        ensures
            final(self).client is None,
            final(self).ready,
    {
        self.client = None;
        self.ready = true;
    }

    /// Whether terminals can be as small as 2 columns by 1 row; `None` as long as the
    /// host is not settled. This process can make them so small; a daemon can where it
    /// says so. A lost connection is taken out of the slot.
    pub fn compact_resize_state(&mut self) -> (state: Option<bool>)
        ensures
            final(self).ready == old(self).ready,
            final(self).client == if old(self).ready {
                swept(old(self).client)
            } else {
                old(self).client
            },
            state == if !old(self).ready {
                None::<bool>
            } else {
                match swept(old(self).client) {
                    Some(client) => Some(
                        has_text(client.capabilities@, CAPABILITY_PTY_RESIZE_2X1@),
                    ),
                    None => Some(true),
                }
            },
    {
        if !self.ready {
            return None;
        }
        let state = match self.client.as_ref() {
            Some(client) => if client.is_connected() {
                Some(client.supports_compact_resize())
            } else {
                None
            },
            None => None,
        };
        match state {
            Some(compact) => Some(compact),
            None => {
                self.client = None;
                Some(true)
            },
        }
    }

    /// The connection to the daemon, where there is one that is not lost. A lost
    /// connection is taken out of the slot.
    pub fn get(&mut self) -> (client: Option<&mut DaemonClient>)
        ensures
            final(self).ready == old(self).ready,
            match client {
                Some(c) => swept(old(self).client) == Some(*c) && final(self).client == Some(
                    *final(c),
                ),
                None => swept(old(self).client) is None && final(self).client is None,
            },
    {
        let lost = match self.client.as_ref() {
            Some(client) => !client.is_connected(),
            None => true,
        };
        if lost {
            self.client = None;
            return None;
        }
        self.client.as_mut()
    }
}

/// The slot never hands out a lost connection, and to look at it twice is the same as
/// to look at it once.
pub proof fn law_slot_hands_out_live_connections(client: Option<DaemonClient>)
    ensures
        swept(client) matches Some(c) ==> c.connected && client == Some(c),
        swept(swept(client)) == swept(client),
{
}

/// The slot settles on a daemon, or on this process; before that nothing is settled.
pub proof fn law_slot_settles(
    fresh: DaemonBridge,
    bridge: &mut DaemonBridge,
    other: &mut DaemonBridge,
    client: DaemonClient,
    nothing: (),
)
    requires
        call_ensures(DaemonBridge::new, (), fresh),
        call_ensures(DaemonBridge::set, (bridge, client), nothing),
        call_ensures(DaemonBridge::mark_unavailable, (other,), nothing),
    ensures
        !fresh.ready && fresh.client is None,
        final(bridge).ready && final(bridge).client == Some(client),
        final(other).ready && final(other).client is None,
{
}

/// Small terminals are possible where they run in this process, and in a daemon that is
/// connected where it says so; as long as the host is not settled it is not known. A lost
/// connection leaves the slot to this process.
pub proof fn law_small_terminals_depend_on_the_host(
    bridge: &mut DaemonBridge,
    state: Option<bool>,
)
    requires
        call_ensures(DaemonBridge::compact_resize_state, (bridge,), state),
    ensures
        final(bridge).ready == old(bridge).ready,
        !old(bridge).ready ==> state is None && final(bridge).client == old(bridge).client,
        old(bridge).ready ==> match old(bridge).client {
            Some(client) => if client.connected {
                &&& final(bridge).client == Some(client)
                &&& state == Some(
                    exists|i: int|
                        0 <= i < client.capabilities@.len() && (
                        #[trigger] client.capabilities@[i])@ == "pty_resize_2x1"@,
                )
            } else {
                final(bridge).client is None && state == Some(true)
            },
            None => final(bridge).client is None && state == Some(true),
        },
{
    assert(final(bridge).ready == old(bridge).ready);
}

/// The slot hands out its connection exactly where there is one that is not lost; a lost one
/// leaves the slot.
pub proof fn law_only_a_live_connection_is_handed_out(
    bridge: &mut DaemonBridge,
    client: Option<&mut DaemonClient>,
)
    requires
        call_ensures(DaemonBridge::get, (bridge,), client),
    ensures
        client is Some <==> old(bridge).client is Some && old(bridge).client->0.connected,
        client matches Some(c) ==> old(bridge).client == Some(*c),
        client is None ==> final(bridge).client is None,
        final(bridge).ready == old(bridge).ready,
{
    assert(final(bridge).ready == old(bridge).ready);
}

} // verus!
