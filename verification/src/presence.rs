//! Presence client adapter: connect, publish and clear on the external
//! chat-presence connection, with optimistic connection-state tracking.
//!
//! The IPC transport is reached through trusted wrappers; the adapter's
//! bookkeeping — idempotent connect, no-op when disconnected, the single
//! reconnect-and-retry after a failed publish — is verified.

use vstd::prelude::*;
use crate::config::{
    activity_details, activity_state, asset_large_image, asset_large_text, asset_small_image,
    asset_small_text, client_id,
};
use discord_rich_presence::activity::{Activity, Assets, Timestamps};
use discord_rich_presence::{DiscordIpc, DiscordIpcClient};

verus! {

#[verifier::external_type_specification]
#[verifier::external_body]
pub struct ExDiscordIpcClient(DiscordIpcClient);

/// Relies on `DiscordIpcClient::new`: builds a handle for the given
/// application id without touching the socket.
#[verifier::external_body]
fn ipc_new(id: &str) -> DiscordIpcClient {
    DiscordIpcClient::new(id)
}

/// Relies on `DiscordIpc::connect`: opens the socket and sends the
/// handshake, `Ok` exactly when both succeeded. The error is rendered as
/// text.
#[verifier::external_body]
fn ipc_connect(c: &mut DiscordIpcClient) -> Result<(), String> {
    DiscordIpc::connect(c).map_err(|e| format!("Failed to connect to Discord: {}", e))
}

/// Relies on `DiscordIpc::set_activity`: sends a presence payload built
/// verbatim from the given details and state texts, the two labelled image
/// assets, and the start timestamp for elapsed-time display. The error is
/// rendered as text.
#[verifier::external_body]
fn ipc_set_activity(
    c: &mut DiscordIpcClient,
    details: &str,
    state: &str,
    large_image: &str,
    large_text: &str,
    small_image: &str,
    small_text: &str,
    start: i64,
) -> Result<(), String> {
    let assets = Assets::new()
        .large_image(large_image)
        .large_text(large_text)
        .small_image(small_image)
        .small_text(small_text);
    let payload = Activity::new()
        .details(details)
        .state(state)
        .assets(assets)
        .timestamps(Timestamps::new().start(start));
    DiscordIpc::set_activity(c, payload).map_err(|e| format!("Failed to set activity: {}", e))
}

/// Relies on `DiscordIpc::clear_activity`: asks the service to drop the
/// published presence. The error is rendered as text.
#[verifier::external_body]
fn ipc_clear(c: &mut DiscordIpcClient) -> Result<(), String> {
    DiscordIpc::clear_activity(c).map_err(|e| format!("Failed to clear activity: {}", e))
}

/// The presence client adapter. `is_connected` reflects the last known
/// connection state, updated only on explicit connect outcomes.
pub struct DiscordClient {
    pub client: DiscordIpcClient,
    pub is_connected: bool,
}

/// What one publish-with-recovery did: how many publish and connect calls
/// went out, and the error text of each failed publish.
pub struct PublishReport {
    pub publish_attempts: u8,
    pub connect_attempts: u8,
    pub first_error: Option<String>,
    pub retry_error: Option<String>,
}

impl DiscordClient {
    /// A fresh, disconnected adapter for the configured application id.
    pub fn new() -> (r: DiscordClient)
        ensures
            !r.is_connected,
    {
        DiscordClient { client: ipc_new(client_id()), is_connected: false }
    }

    /// Idempotent connect: a no-op success when already connected,
    /// otherwise one connection attempt. The connected flag flips to true
    /// exactly on a successful attempt and never flips back here.
    pub fn connect(&mut self) -> (r: Result<(), String>)
        ensures
            final(self).is_connected == (old(self).is_connected || r is Ok),
            old(self).is_connected ==> r is Ok && *final(self) == *old(self),
    {
        if self.is_connected {
            return Ok(());
        }
        match ipc_connect(&mut self.client) {
            Ok(()) => {
                self.is_connected = true;
                Ok(())
            },
            Err(e) => Err(e),
        }
    }

    /// Publishes the presence payload — the configuration's fixed details
    /// and state texts and image assets — with the given start timestamp: a
    /// no-op success when not connected; a send failure is returned and
    /// never changes the connected flag.
    pub fn update_presence(&mut self, start_time: i64) -> (r: Result<(), String>)
        ensures
            final(self).is_connected == old(self).is_connected,
            !old(self).is_connected ==> r is Ok && *final(self) == *old(self),
    {
        if !self.is_connected {
            return Ok(());
        }
        ipc_set_activity(
            &mut self.client,
            activity_details(),
            activity_state(),
            asset_large_image(),
            asset_large_text(),
            asset_small_image(),
            asset_small_text(),
            start_time,
        )
    }

    /// Best-effort clear: a no-op success when not connected; a failure is
    /// returned for the caller to log and never changes the connected flag.
    pub fn clear_presence(&mut self) -> (r: Result<(), String>)
        ensures
            final(self).is_connected == old(self).is_connected,
            !old(self).is_connected ==> r is Ok && *final(self) == *old(self),
    {
        if !self.is_connected {
            return Ok(());
        }
        ipc_clear(&mut self.client)
    }

    /// Last known connection state.
    pub fn is_connected(&self) -> (r: bool)
        ensures
            r == self.is_connected,
    {
        self.is_connected
    }

    /// Publishes once; only if that publish fails, makes exactly one
    /// reconnect attempt followed by exactly one retried publish — never
    /// more within a single call.
    pub fn publish_with_retry(&mut self, start_time: i64) -> (r: PublishReport)
        ensures
            final(self).is_connected == old(self).is_connected,
            r.publish_attempts <= 2,
            r.connect_attempts <= 1,
            r.first_error is None ==> r.publish_attempts == 1 && r.connect_attempts == 0
                && r.retry_error is None,
            r.first_error is Some ==> r.publish_attempts == 2 && r.connect_attempts == 1,
            !old(self).is_connected ==> r.first_error is None,
    {
        match self.update_presence(start_time) {
            Ok(()) => PublishReport {
                publish_attempts: 1,
                connect_attempts: 0,
                first_error: None,
                retry_error: None,
            },
            Err(e) => {
                let _ = self.connect();
                let retry = self.update_presence(start_time);
                PublishReport {
                    publish_attempts: 2,
                    connect_attempts: 1,
                    first_error: Some(e),
                    retry_error: match retry {
                        Ok(()) => None,
                        Err(e2) => Some(e2),
                    },
                }
            },
        }
    }
}

} // verus!
