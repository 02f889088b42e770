//! WebSocket client state: connection counting, authentication, the queue of
//! messages sent before authentication, the connection address, the token
//! normalisation and the reconnection back-off.
//!
//! Connection flow (the network side belongs to the application):
//! 1. Connect to `ws://host/api/user/sync?...&count=N` ([`WsClient::start_connect`])
//! 2. Send `Authorization|token` ([`WsClient::auth_message`])
//! 3. Receive the auth response; a code of 1 or 200 is success
//!    ([`WsClient::handle_auth_response`])
//! 4. Send `ClientInfo|{...}` ([`client_info_message`])
//! 5. Flush the queue ([`WsClient::next_queued`])

use std::collections::VecDeque;
use vstd::prelude::*;
use vstd::arithmetic::power2::pow2;
use crate::config::{to_ws_scheme, AppConfig, ClientConfig, ServerConfig};
use crate::error::FnsError;
use crate::paths::{has_prefix, push_chars};
use crate::protocol::actions::{Action, ClientAction};
use crate::protocol::codec::{encode_simple_message, spec_simple_message};
use crate::text::{
    chars_slice, chars_to_string, chars_trim, chars_trim_end_char, nat_decimal, push_decimal, str_chars,
    trim_end_char, trim_ws,
};

verus! {

/// Longest reconnection delay, in seconds.
pub const MAX_RECONNECT_DELAY_SECS: u64 = 300;

/// Pause after the reconnection attempts are used up, in seconds.
pub const MAX_RETRIES_RESET_DELAY_SECS: u64 = 60;

/// The query that follows the address of the sync endpoint, up to the count.
pub open spec fn sync_query() -> Seq<char> {
    "/api/user/sync?lang=zh-cn&client=ObsidianPlugin&clientName=fns-cli&clientVersion=0.1.0&count="@
}

/// The address of the sync endpoint for an API address and a connection count:
/// the scheme converted to `ws`/`wss`, trailing `/` removed, then the query.
pub open spec fn spec_sync_url(api: Seq<char>, count: nat) -> Seq<char> {
    trim_end_char(crate::config::ws_scheme(api), '/') + sync_query() + nat_decimal(count)
}

/// A token as sent to the server: trimmed, without a `Bearer `/`bearer `
/// prefix, trimmed again, and without one pair of surrounding double quotes.
pub open spec fn spec_normalize_token(token: Seq<char>) -> Seq<char> {
    let t = trim_ws(token);
    let u = if has_prefix(t, "Bearer "@) || has_prefix(t, "bearer "@) {
        trim_ws(t.skip(7))
    } else {
        trim_ws(t)
    };
    if u.len() >= 2 && u[0] == '"' && u.last() == '"' {
        u.subrange(1, u.len() - 1)
    } else {
        u
    }
}

/// The reconnection delay in seconds before attempt `attempt`:
/// `min(base * 2^(attempt - 1), 300)`, and `base` itself for attempt 0.
pub open spec fn spec_delay(base: u64, attempt: u32) -> int {
    if attempt == 0 {
        base as int
    } else {
        let shift: nat = if attempt - 1 < 63 { (attempt - 1) as nat } else { 63 };
        let exponential = base * pow2(shift);
        if exponential < 300 { exponential } else { 300 }
    }
}

/// Whether `retries` failed attempts exceed the limit `max` (0 means no limit).
pub open spec fn retries_exhausted(max: u32, retries: u32) -> bool {
    max != 0 && retries > max
}

/// Whether an authorization response code means success: 1 or 200.
pub open spec fn auth_code_ok(code: i32) -> bool {
    code == 1 || code == 200
}

/// What to do after a connection was lost or failed.
#[derive(Debug, Clone, Copy, PartialEq, Eq)]
pub enum ReconnectStep {
    /// Wait this many seconds, then try again.
    Retry { delay_secs: u64 },
    /// The attempts are used up: wait this many seconds, then start counting again.
    Pause { delay_secs: u64 },
}

/// WebSocket client state.
pub struct WsClient {
    config: ServerConfig,
    client_config: ClientConfig,
    connect_count: u32,
    is_authenticated: bool,
    msg_queue: VecDeque<String>,
}

/// Copies a server configuration.
fn copy_server_config(c: &ServerConfig) -> (r: ServerConfig)
    ensures
        r == *c,
{
    ServerConfig { api: c.api.clone(), token: c.token.clone(), vault: c.vault.clone() }
}

/// Copies a client configuration.
fn copy_client_config(c: &ClientConfig) -> (r: ClientConfig)
    ensures
        r == *c,
{
    ClientConfig {
        reconnect_max_retries: c.reconnect_max_retries,
        reconnect_base_delay: c.reconnect_base_delay,
        heartbeat_interval: c.heartbeat_interval,
    }
}

impl WsClient {
    /// The server settings.
    pub closed spec fn spec_config(&self) -> ServerConfig {
        self.config
    }

    /// The connection settings.
    pub closed spec fn spec_client_config(&self) -> ClientConfig {
        self.client_config
    }

    /// Number of connections started.
    pub closed spec fn spec_connect_count(&self) -> u32 {
        self.connect_count
    }

    /// Whether the current connection is authenticated.
    pub closed spec fn spec_authenticated(&self) -> bool {
        self.is_authenticated
    }

    /// Messages waiting for authentication, oldest first.
    pub closed spec fn spec_queue(&self) -> Seq<Seq<char>> {
        self.msg_queue@.map_values(|s: String| s@)
    }

    /// A client for the server and connection settings of `app_config`.
    pub fn new(app_config: &AppConfig) -> (c: Self)
        ensures
            c.spec_config() == app_config.server,
            c.spec_client_config() == app_config.client,
            c.spec_connect_count() == 0,
            !c.spec_authenticated(),
            c.spec_queue() == Seq::<Seq<char>>::empty(),
    {
        Self::with_config(copy_server_config(&app_config.server), copy_client_config(&app_config.client))
    }

    /// A client for the given server and connection settings.
    pub fn with_config(config: ServerConfig, client_config: ClientConfig) -> (c: Self)
        ensures
            c.spec_config() == config,
            c.spec_client_config() == client_config,
            c.spec_connect_count() == 0,
            !c.spec_authenticated(),
            c.spec_queue() == Seq::<Seq<char>>::empty(),
    {
        let c = WsClient {
            config,
            client_config,
            connect_count: 0,
            is_authenticated: false,
            msg_queue: VecDeque::new(),
        };
        proof {
            assert(c.spec_queue() =~= Seq::<Seq<char>>::empty());
        }
        c
    }

    /// Number of connections started.
    pub fn connect_count(&self) -> (r: u32)
        ensures
            r == self.spec_connect_count(),
    {
        self.connect_count
    }

    /// Whether the current connection is authenticated.
    pub fn is_authenticated(&self) -> (r: bool)
        ensures
            r == self.spec_authenticated(),
    {
        self.is_authenticated
    }

    /// Number of messages waiting for authentication.
    pub fn queued_count(&self) -> (r: usize)
        ensures
            r == self.spec_queue().len(),
    {
        self.msg_queue.len()
    }

    /// The address of the sync endpoint for the current connection count.
    pub fn build_url(&self) -> (r: String)
        ensures
            r@ == spec_sync_url(self.spec_config().api@, self.spec_connect_count() as nat),
    {
        proof {
            reveal_strlit("/api/user/sync?lang=zh-cn&client=ObsidianPlugin&clientName=fns-cli&clientVersion=0.1.0&count=");
        }
        let api = str_chars(self.config.api.as_str());
        let ws = to_ws_scheme(&api);
        let mut out = chars_trim_end_char(&ws, '/');
        let query = str_chars(
            "/api/user/sync?lang=zh-cn&client=ObsidianPlugin&clientName=fns-cli&clientVersion=0.1.0&count=",
        );
        push_chars(&mut out, &query);
        push_decimal(&mut out, self.connect_count as u64);
        chars_to_string(&out)
    }

    /// Starts a connection: the previous authentication is dropped, the
    /// connection count goes up by one, and the address to connect to is
    /// returned.
    pub fn start_connect(&mut self) -> (r: String)
        requires
            old(self).spec_connect_count() < u32::MAX,
        ensures
            final(self).spec_connect_count() == old(self).spec_connect_count() + 1,
            !final(self).spec_authenticated(),
            final(self).spec_config() == old(self).spec_config(),
            final(self).spec_client_config() == old(self).spec_client_config(),
            final(self).spec_queue() == old(self).spec_queue(),
            r@ == spec_sync_url(final(self).spec_config().api@, final(self).spec_connect_count() as nat),
    {
        self.is_authenticated = false;
        self.connect_count = self.connect_count + 1;
        self.build_url()
    }

    /// The authorization message: `Authorization|` and the normalised token.
    pub fn auth_message(&self) -> (r: String)
        ensures
            r@ == spec_simple_message(
                Action::Client(ClientAction::Authorization),
                spec_normalize_token(self.spec_config().token@),
            ),
    {
        let token = normalize_auth_token(self.config.token.as_str());
        encode_simple_message(&Action::Client(ClientAction::Authorization), token.as_str())
    }

    /// Takes the server's answer to the authorization message: its action and
    /// the `code` and `message` of its payload.  A code of 1 or 200 on an
    /// `Authorization` answer authenticates the client.
    pub fn handle_auth_response(&mut self, action: Action, code: i32, message: &str) -> (r: Result<(), FnsError>)
        ensures
            final(self).spec_config() == old(self).spec_config(),
            final(self).spec_client_config() == old(self).spec_client_config(),
            final(self).spec_connect_count() == old(self).spec_connect_count(),
            final(self).spec_queue() == old(self).spec_queue(),
            r is Ok <==> (action == Action::Client(ClientAction::Authorization) && auth_code_ok(code)),
            final(self).spec_authenticated() == (old(self).spec_authenticated() || r is Ok),
            action != Action::Client(ClientAction::Authorization) ==> r matches Err(FnsError::Protocol { .. }),
            action == Action::Client(ClientAction::Authorization) && !auth_code_ok(code) ==> r matches Err(
                FnsError::WebSocket { .. },
            ),
    {
        let expected = match action {
            Action::Client(ClientAction::Authorization) => true,
            _ => false,
        };
        if !expected {
            let mut text = String::from_str("Expected Authorization response, got ");
            text.append(action.to_string().as_str());
            return Err(FnsError::Protocol { message: text });
        }
        if code == 1 || code == 200 {
            self.is_authenticated = true;
            Ok(())
        } else {
            let mut out = str_chars("Authentication failed (code=");
            let digits = crate::text::i64_to_decimal(code as i64);
            let dv = str_chars(digits.as_str());
            push_chars(&mut out, &dv);
            let tail = str_chars("): ");
            push_chars(&mut out, &tail);
            let mv = str_chars(message);
            push_chars(&mut out, &mv);
            Err(FnsError::WebSocket { message: chars_to_string(&out) })
        }
    }

    /// Sends or queues a message: before authentication it is queued and
    /// `None` is returned; afterwards it is handed back to be sent.
    pub fn send(&mut self, msg: String) -> (r: Option<String>)
        ensures
            final(self).spec_config() == old(self).spec_config(),
            final(self).spec_client_config() == old(self).spec_client_config(),
            final(self).spec_connect_count() == old(self).spec_connect_count(),
            final(self).spec_authenticated() == old(self).spec_authenticated(),
            old(self).spec_authenticated() ==> r == Some(msg) && final(self).spec_queue() == old(self).spec_queue(),
            !old(self).spec_authenticated() ==> r is None && final(self).spec_queue() == old(self).spec_queue().push(msg@),
    {
        if !self.is_authenticated {
            let ghost before = self.msg_queue@;
            let ghost m = msg@;
            self.msg_queue.push_back(msg);
            proof {
                assert(self.msg_queue@.map_values(|s: String| s@) =~= before.map_values(|s: String| s@).push(m));
            }
            None
        } else {
            Some(msg)
        }
    }

    /// Takes the oldest queued message, if any.
    pub fn next_queued(&mut self) -> (r: Option<String>)
        ensures
            final(self).spec_config() == old(self).spec_config(),
            final(self).spec_client_config() == old(self).spec_client_config(),
            final(self).spec_connect_count() == old(self).spec_connect_count(),
            final(self).spec_authenticated() == old(self).spec_authenticated(),
            old(self).spec_queue().len() == 0 ==> r is None && final(self).spec_queue() == old(self).spec_queue(),
            old(self).spec_queue().len() > 0 ==> r is Some && r->0@ == old(self).spec_queue()[0]
                && final(self).spec_queue() == old(self).spec_queue().skip(1),
    {
        let ghost before = self.msg_queue@;
        let r = self.msg_queue.pop_front();
        proof {
            if before.len() > 0 {
                assert(self.msg_queue@.map_values(|s: String| s@) =~= before.map_values(|s: String| s@).skip(1));
            }
        }
        r
    }

    /// Whether a reconnection handler is due: only after a successful
    /// reconnection, never after the first connection.
    pub fn is_reconnection(&self) -> (r: bool)
        ensures
            r == (self.spec_connect_count() > 1),
    {
        self.connect_count > 1
    }

    /// The delay before reconnection attempt `attempt`, in seconds:
    /// `min(base * 2^(attempt - 1), 300)` (the base itself for attempt 0).
    pub fn calculate_delay(&self, attempt: u32) -> (r: u64)
        ensures
            r == spec_delay(self.spec_client_config().reconnect_base_delay, attempt),
    {
        let base = self.client_config.reconnect_base_delay;
        if attempt == 0 {
            return base;
        }
        let shift: u64 = if attempt - 1 < 63 { (attempt - 1) as u64 } else { 63 };
        proof {
            vstd::bits::lemma_u64_pow2_no_overflow(shift as nat);
            vstd::bits::lemma_u64_shl_is_mul(1, shift);
        }
        let multiplier: u64 = 1u64 << shift;
        let exponential: u64 = match base.checked_mul(multiplier) {
            Some(v) => v,
            None => u64::MAX,
        };
        if exponential < MAX_RECONNECT_DELAY_SECS {
            exponential
        } else {
            MAX_RECONNECT_DELAY_SECS
        }
    }

    /// What to do after connection attempt `retries` (counted from one since
    /// the last success) failed: retry after the back-off delay, or pause
    /// once the configured number of attempts (0: no limit) is exceeded.
    pub fn reconnect_step(&self, retries: u32) -> (r: ReconnectStep)
        ensures
            retries_exhausted(self.spec_client_config().reconnect_max_retries, retries) ==> r == (ReconnectStep::Pause {
                delay_secs: MAX_RETRIES_RESET_DELAY_SECS,
            }),
            !retries_exhausted(self.spec_client_config().reconnect_max_retries, retries) ==> (r matches ReconnectStep::Retry {
                delay_secs,
            } && delay_secs == spec_delay(self.spec_client_config().reconnect_base_delay, retries)),
    {
        let max = self.client_config.reconnect_max_retries;
        if max != 0 && retries > max {
            ReconnectStep::Pause { delay_secs: MAX_RETRIES_RESET_DELAY_SECS }
        } else {
            ReconnectStep::Retry { delay_secs: self.calculate_delay(retries) }
        }
    }
}

/// The client-information message sent after authentication.
pub open spec fn spec_client_info_message() -> Seq<char> {
    "ClientInfo|{\"name\":\"fns-cli\",\"type\":\"ObsidianPlugin\",\"version\":\"0.1.0\"}"@
}

/// The client-information message: `ClientInfo|` and the client's name,
/// type and version as a JSON object.
pub fn client_info_message() -> (r: String)
    ensures
        r@ == spec_client_info_message(),
{
    String::from_str("ClientInfo|{\"name\":\"fns-cli\",\"type\":\"ObsidianPlugin\",\"version\":\"0.1.0\"}")
}

/// Normalises an authorization token (see [`spec_normalize_token`]).
pub fn normalize_auth_token(token: &str) -> (r: String)
    ensures
        r@ == spec_normalize_token(token@),
{
    proof {
        reveal_strlit("Bearer ");
        reveal_strlit("bearer ");
    }
    let t = chars_trim(&str_chars(token));
    let upper = str_chars("Bearer ");
    let lower = str_chars("bearer ");
    let u = if crate::paths::chars_start_with(&t, &upper) || crate::paths::chars_start_with(&t, &lower) {
        let rest = chars_slice(&t, 7, t.len());
        proof {
            assert(t@.subrange(7, t@.len() as int) =~= t@.skip(7));
        }
        chars_trim(&rest)
    } else {
        chars_trim(&t)
    };
    if u.len() >= 2 && u[0] == '"' && u[u.len() - 1] == '"' {
        chars_to_string(&chars_slice(&u, 1, u.len() - 1))
    } else {
        chars_to_string(&u)
    }
}

/// Connection status of the WebSocket client.
#[derive(Debug, Clone, Copy, PartialEq, Eq, Structural)]
pub enum ConnectionState {
    /// Not connected.
    Disconnected,
    /// WebSocket connected, awaiting authentication.
    Connected,
    /// Authenticated and ready.
    Authenticated,
    /// Reconnecting after connection loss.
    Reconnecting,
}

impl ConnectionState {
    /// The state's name.
    pub open spec fn spec_name(&self) -> Seq<char> {
        match self {
            ConnectionState::Disconnected => "Disconnected"@,
            ConnectionState::Connected => "Connected"@,
            ConnectionState::Authenticated => "Authenticated"@,
            ConnectionState::Reconnecting => "Reconnecting"@,
        }
    }

    /// The state's name, as displayed.
    pub fn to_string(&self) -> (r: String)
        ensures
            r@ == self.spec_name(),
    {
        match self {
            ConnectionState::Disconnected => String::from_str("Disconnected"),
            ConnectionState::Connected => String::from_str("Connected"),
            ConnectionState::Authenticated => String::from_str("Authenticated"),
            ConnectionState::Reconnecting => String::from_str("Reconnecting"),
        }
    }
}

/// Exponential back-off: from the first attempt on, the reconnection delay
/// never exceeds 300 seconds, and it never shrinks from one attempt to a
/// later one.
pub proof fn lemma_backoff_capped_and_monotone(base: u64, a: u32, b: u32)
    requires
        1 <= a <= b,
    ensures
        spec_delay(base, a) <= spec_delay(base, b),
        spec_delay(base, b) <= 300,
{
    let sa: nat = if a - 1 < 63 { (a - 1) as nat } else { 63 };
    let sb: nat = if b - 1 < 63 { (b - 1) as nat } else { 63 };
    assert(sa <= sb);
    if sa < sb {
        vstd::arithmetic::power2::lemma_pow2_strictly_increases(sa, sb);
    }
    let pa = pow2(sa);
    let pb = pow2(sb);
    assert(pa <= pb);
    assert(base * pa <= base * pb) by (nonlinear_arith)
        requires
            pa <= pb,
            base >= 0,
    ;
}

/// Message queuing: a message sent before authentication waits in the
/// queue behind those sent before it, and the queue hands them out oldest
/// first: after sending `m` to a client with queue `q`, taking from the
/// queue yields the first of `q`, or `m` when `q` was empty, and what
/// remains ends with `m`.
pub proof fn lemma_queue_keeps_order(q: Seq<Seq<char>>, m: Seq<char>)
    ensures
        q.push(m)[0] == (if q.len() == 0 { m } else { q[0] }),
        q.push(m).skip(1) == (if q.len() == 0 { Seq::<Seq<char>>::empty() } else { q.skip(1).push(m) }),
{
    if q.len() == 0 {
        assert(q.push(m).skip(1) =~= Seq::<Seq<char>>::empty());
    } else {
        assert(q.push(m).skip(1) =~= q.skip(1).push(m));
    }
}

} // verus!
