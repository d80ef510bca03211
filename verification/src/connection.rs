//! The per-connection protocol state machine.
//!
//! Each viewer connection moves `Connecting → Syncing → Streaming → Closed`.
//! The full-state sync is sent before anything else; only after it succeeds
//! does the connection subscribe to the hub, so a dead connection never
//! holds a subscription.  While streaming, every published message is
//! forwarded in order; the client may only close — its other messages are
//! ignored, the protocol is server-authoritative.  A lag report keeps the
//! connection streaming.

use vstd::prelude::*;

verus! {

/// Where a connection stands.
#[derive(Clone, Copy, PartialEq, Eq, Structural, Debug)]
pub enum ConnPhase {
    /// The transport upgrade is still in progress.
    Connecting,
    /// Upgraded; the initial full-state sync is being sent.
    Syncing,
    /// Synced and subscribed; broadcast messages are being forwarded.
    Streaming,
    /// Finished.  Nothing runs for this connection any more.
    Closed,
}

/// What a connection's tasks observe.
#[derive(Clone, Copy, PartialEq, Eq, Structural, Debug)]
pub enum ConnEvent {
    /// The protocol upgrade completed.
    Upgraded,
    /// The initial full-sync send succeeded.
    SyncSendOk,
    /// The initial full-sync send failed.
    SyncSendFailed,
    /// A forwarded broadcast message was sent successfully.
    ForwardSendOk,
    /// Sending a forwarded message failed.
    ForwardSendFailed,
    /// The client sent a close frame.
    ClientClosed,
    /// The client sent anything other than a close frame.
    ClientOther,
    /// The hub reported this subscriber lagged.
    HubLagged,
    /// The hub's publish side shut down.
    HubClosed,
}

/// What the surrounding tasks must do after a step.
#[derive(Clone, Copy, PartialEq, Eq, Structural, Debug)]
pub enum ConnAction {
    /// Send the full-state snapshot, before anything else.
    SendFullSync,
    /// Subscribe to the hub and start forwarding.
    SubscribeAndStream,
    /// Keep going; nothing to do for this event.
    Continue,
    /// Tear the connection down: stop both tasks and drop the subscription.
    CloseConnection,
}

/// The transition table.  An event that cannot occur in a phase changes
/// nothing.
pub open spec fn spec_conn_step(phase: ConnPhase, event: ConnEvent) -> (ConnPhase, ConnAction) {
    match (phase, event) {
        (ConnPhase::Connecting, ConnEvent::Upgraded) => (ConnPhase::Syncing, ConnAction::SendFullSync),
        (ConnPhase::Syncing, ConnEvent::SyncSendOk) => (
            ConnPhase::Streaming,
            ConnAction::SubscribeAndStream,
        ),
        (ConnPhase::Syncing, ConnEvent::SyncSendFailed) => (
            ConnPhase::Closed,
            ConnAction::CloseConnection,
        ),
        (ConnPhase::Streaming, ConnEvent::ForwardSendOk) => (
            ConnPhase::Streaming,
            ConnAction::Continue,
        ),
        (ConnPhase::Streaming, ConnEvent::ForwardSendFailed) => (
            ConnPhase::Closed,
            ConnAction::CloseConnection,
        ),
        (ConnPhase::Streaming, ConnEvent::ClientClosed) => (
            ConnPhase::Closed,
            ConnAction::CloseConnection,
        ),
        (ConnPhase::Streaming, ConnEvent::ClientOther) => (ConnPhase::Streaming, ConnAction::Continue),
        (ConnPhase::Streaming, ConnEvent::HubLagged) => (ConnPhase::Streaming, ConnAction::Continue),
        (ConnPhase::Streaming, ConnEvent::HubClosed) => (ConnPhase::Closed, ConnAction::CloseConnection),
        (ConnPhase::Closed, _) => (ConnPhase::Closed, ConnAction::Continue),
        (p, _) => (p, ConnAction::Continue),
    }
}

/// Step a connection: the next phase and what to do.
pub fn conn_step(phase: ConnPhase, event: ConnEvent) -> (r: (ConnPhase, ConnAction))
    ensures
        r == spec_conn_step(phase, event),
{
    match (phase, event) {
        (ConnPhase::Connecting, ConnEvent::Upgraded) => (ConnPhase::Syncing, ConnAction::SendFullSync),
        (ConnPhase::Syncing, ConnEvent::SyncSendOk) => (
            ConnPhase::Streaming,
            ConnAction::SubscribeAndStream,
        ),
        (ConnPhase::Syncing, ConnEvent::SyncSendFailed) => (
            ConnPhase::Closed,
            ConnAction::CloseConnection,
        ),
        (ConnPhase::Streaming, ConnEvent::ForwardSendOk) => (
            ConnPhase::Streaming,
            ConnAction::Continue,
        ),
        (ConnPhase::Streaming, ConnEvent::ForwardSendFailed) => (
            ConnPhase::Closed,
            ConnAction::CloseConnection,
        ),
        (ConnPhase::Streaming, ConnEvent::ClientOther) => (ConnPhase::Streaming, ConnAction::Continue),
        (ConnPhase::Streaming, ConnEvent::ClientClosed) => (
            ConnPhase::Closed,
            ConnAction::CloseConnection,
        ),
        (ConnPhase::Streaming, ConnEvent::HubLagged) => (ConnPhase::Streaming, ConnAction::Continue),
        (ConnPhase::Streaming, ConnEvent::HubClosed) => (ConnPhase::Closed, ConnAction::CloseConnection),
        (ConnPhase::Closed, _) => (ConnPhase::Closed, ConnAction::Continue),
        (p, _) => (p, ConnAction::Continue),
    }
}

/// A closed connection stays closed: no event revives it and none makes it
/// act again.
pub proof fn lemma_closed_is_final(event: ConnEvent)
    ensures
        spec_conn_step(ConnPhase::Closed, event).0 == ConnPhase::Closed,
        spec_conn_step(ConnPhase::Closed, event).1 == ConnAction::Continue,
{
}

/// A hub subscription is taken only after the initial full sync was sent
/// successfully — a connection whose sync failed never subscribes, so
/// nothing is leaked for a dead connection.
pub proof fn lemma_subscribe_only_after_sync(phase: ConnPhase, event: ConnEvent)
    ensures
        spec_conn_step(phase, event).1 == ConnAction::SubscribeAndStream <==> phase
            == ConnPhase::Syncing && event == ConnEvent::SyncSendOk,
{
}

/// Lagging never closes a connection: the hub's lag report leaves it
/// streaming, so it receives the messages that follow.
pub proof fn lemma_lag_keeps_streaming()
    ensures
        spec_conn_step(ConnPhase::Streaming, ConnEvent::HubLagged) == (
            ConnPhase::Streaming,
            ConnAction::Continue,
        ),
{
}

} // verus!
