//! The event socket: who may connect, and how a connection reacts to what happens.

use vstd::prelude::*;

use crate::text::{push_str, str_eq};

verus! {

/// The query of a socket connection.
#[derive(Debug)]
pub struct WsParams {
    pub token: Option<String>,
}

/// A connection is accepted only with the configured API key as its token.
pub fn ws_authorized(params: &WsParams, api_key: &str) -> (ok: bool)
    ensures
        ok == (params.token matches Some(t) && t@ == api_key@),
{
    match &params.token {
        Some(t) => str_eq(t.as_str(), api_key),
        None => false,
    }
}

/// Seconds between heartbeats.
pub const PING_INTERVAL_SECS: u64 = 15;

/// A client that answered no heartbeat for longer than this many seconds is dropped.
pub const PONG_TIMEOUT_SECS: u64 = 30;

/// What happens on an open connection.
#[derive(Debug)]
pub enum SocketEvent {
    /// A message was broadcast to every client.
    Broadcast(String),
    /// The heartbeat interval elapsed; this long has passed since the last pong.
    Tick { since_last_pong_nanos: u128 },
    /// The client sent text.
    Text(String),
    /// The client sent binary data.
    Binary,
    /// The client answered a heartbeat.
    Pong,
    /// The client pinged.
    Ping,
    /// The client closed the connection.
    Close,
    /// Reading from the client failed.
    ReadError,
    /// The client's stream ended.
    StreamEnded,
}

/// What the connection does in response. A failed send also ends the connection.
#[derive(Debug)]
pub enum SocketAction {
    SendText(String),
    SendPing,
    /// Remember now as the time of the last pong.
    RecordPong,
    Nothing,
    Disconnect,
}

/// How a connection reacts: broadcasts are forwarded; on each heartbeat a client
/// silent for more than 30 seconds is dropped, any other is pinged; `PING` text is
/// answered with `PONG`; closing, a read error or the end of the stream end it.
pub fn socket_step(event: SocketEvent) -> (a: SocketAction)
    ensures
        match event {
            SocketEvent::Broadcast(m) => a matches SocketAction::SendText(t) && t == m,
            SocketEvent::Tick { since_last_pong_nanos } => if since_last_pong_nanos
                > PONG_TIMEOUT_SECS * 1_000_000_000 {
                a is Disconnect
            } else {
                a is SendPing
            },
            SocketEvent::Text(t) => if t@ == "PING"@ {
                a matches SocketAction::SendText(r) && r@ == "PONG"@
            } else {
                a is Nothing
            },
            SocketEvent::Binary => a is Nothing,
            SocketEvent::Pong => a is RecordPong,
            SocketEvent::Ping => a is Nothing,
            SocketEvent::Close => a is Disconnect,
            SocketEvent::ReadError => a is Disconnect,
            SocketEvent::StreamEnded => a is Disconnect,
        },
{
    match event {
        SocketEvent::Broadcast(m) => SocketAction::SendText(m),
        SocketEvent::Tick { since_last_pong_nanos } => {
            if since_last_pong_nanos > (PONG_TIMEOUT_SECS as u128) * 1_000_000_000u128 {
                SocketAction::Disconnect
            } else {
                SocketAction::SendPing
            }
        },
        SocketEvent::Text(t) => {
            if str_eq(t.as_str(), "PING") {
                let mut r = String::new();
                push_str(&mut r, "PONG");
                SocketAction::SendText(r)
            } else {
                SocketAction::Nothing
            }
        },
        SocketEvent::Binary => SocketAction::Nothing,
        SocketEvent::Pong => SocketAction::RecordPong,
        SocketEvent::Ping => SocketAction::Nothing,
        SocketEvent::Close => SocketAction::Disconnect,
        SocketEvent::ReadError => SocketAction::Disconnect,
        SocketEvent::StreamEnded => SocketAction::Disconnect,
    }
}

} // verus!
