//! In-process bridge between a widget-overlay UI and the operating system's
//! media sessions, together with the pure logic of the surrounding
//! application: widget-manifest migrations, window-placement bounds, and the
//! localhost asset-server request path.
//!
//! All shared mutable state (the session registry, the manager store, the
//! notification channel, the server configuration) is held in explicit
//! values passed to the functions that read or change them; the thin I/O
//! shell around this crate owns those values and performs the platform
//! calls that the bridge decides on.

use vstd::prelude::*;

pub mod actions;
pub mod bridge;
pub mod localhost;
pub mod media;
pub mod migration;
pub mod migrations;
pub mod registry;
pub mod system;
pub mod text;
pub mod widget;

verus! {

/// The process-wide notification channel: platform event handlers push one
/// no-payload "changed" message per event, and the surrounding application
/// re-polls when it drains one.
pub struct EventChannel {
    /// Event names pushed and not yet drained, oldest first.
    pub pending: Vec<String>,
}

impl EventChannel {
    pub fn new() -> (r: EventChannel)
        ensures
            r.pending@.len() == 0,
    {
        EventChannel { pending: Vec::new() }
    }
}

/// Push one notification onto the channel. Every subscription callback of
/// the bridge funnels through this single emit point.
pub fn emit_global_event(channel: &mut EventChannel, event: &str)
    ensures
        final(channel).pending.deep_view() == old(channel).pending.deep_view().push(event@),
{
    channel.pending.push(event.to_owned());
    proof {
        assert(channel.pending.deep_view() =~= old(channel).pending.deep_view().push(event@));
    }
}

/// Configuration established once at startup by the shell.
pub struct ServerConfig {
    pub port: Option<u16>,
}

/// The port the localhost asset server was bound to. The caller must have
/// set it; asking before startup is a programming error.
pub fn get_custom_server_port(config: &ServerConfig) -> (r: u16)
    requires
        config.port is Some,
    ensures
        r == config.port->0,
{
    config.port.unwrap()
}

} // verus!
