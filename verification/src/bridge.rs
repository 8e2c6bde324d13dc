//! The supervisor state machine for the JSON-RPC subprocess.
//!
//! All protocol decisions live here, verified: id allocation, the
//! initialize/initialized handshake gate, framing of outbound traffic,
//! classification and routing of inbound lines, resolution of pending calls
//! on disconnect, and idempotent shutdown. The surrounding process plumbing
//! (spawning, stream reads and writes, timers) performs the actions this
//! machine hands out and feeds the events back in.

use vstd::prelude::*;

use crate::codec::{
    classify, encode_call_line, encode_call_spec, encode_notification_line,
    encode_notification_spec, encode_response_line, encode_response_spec, map_event_spec,
    wire_error_of, wire_id_of, wire_method_of, wire_params_of, wire_result_of, IpcBridge, Message,
    WireError,
};
use crate::registry::Registry;

verus! {

/// Lifecycle of the supervised subprocess.
#[derive(Debug, Clone, Copy, PartialEq, Eq, Structural)]
pub enum ProcessState {
    Uninitialized,
    Initializing,
    Ready,
    ShuttingDown,
    Terminated,
}

/// The errors surfaced to callers of the bridge.
#[derive(Debug, Clone)]
pub enum BridgeError {
    /// The executable could not be located anywhere.
    BinaryNotFound,
    /// The operating system failed to start the subprocess.
    LaunchFailed(String),
    /// A call was attempted before the handshake reached `Ready`.
    NotReady,
    /// Writing to or reading from the subprocess failed.
    TransportError(String),
    /// No response arrived within the deadline.
    Timeout,
    /// The subprocess answered the call with an explicit error object.
    MethodError { code: i64, message: String },
    /// The subprocess exited or its stream closed while the call was pending.
    Disconnected,
}

/// What the reader loop must do with one inbound line.
pub enum LineAction<T> {
    /// A response matched a pending call: hand `outcome` to `handle`.
    Fulfil { id: u64, handle: T, outcome: Result<String, WireError> },
    /// A notification or server request: emit `event` with `params`;
    /// `request_id` carries the subprocess's own id when it expects an
    /// answer via `respond`.
    Emit { event: String, request_id: Option<u64>, params: String },
    /// A malformed line or a stale response id: drop it.
    Ignore,
}

/// What end-of-stream requires: failing every still-pending caller, and the
/// one `Disconnected` event if it has not fired yet.
pub struct EofOutcome<T> {
    pub emit_disconnected: bool,
    pub failed: Vec<(u64, T)>,
}

/// How a shutdown concluded.
#[derive(Debug, Clone, PartialEq, Eq, Structural)]
pub enum ShutdownOutcome {
    /// The process exited on its own within the grace period, with this
    /// status code.
    Exited(i32),
    /// The grace period expired and the process was forcibly killed.
    ForcedKill,
}

/// The decision state of the supervisor: everything except the process
/// handle and the streams themselves.
///
/// `T` is the completion handle registered per pending call; the bridge
/// never looks inside it.
pub struct Bridge<T> {
    state: ProcessState,
    next_id: u64,
    registry: Registry<T>,
    disconnect_emitted: bool,
}

impl<T> Bridge<T> {
    /// Lifecycle state.
    pub closed spec fn state(&self) -> ProcessState {
        self.state
    }

    /// The id the next call will take.
    pub closed spec fn next_id(&self) -> u64 {
        self.next_id
    }

    /// The pending calls, keyed by id.
    pub closed spec fn pending(&self) -> Map<u64, T> {
        self.registry@
    }

    /// Whether the one `Disconnected` event was already emitted.
    pub closed spec fn disconnect_emitted(&self) -> bool {
        self.disconnect_emitted
    }

    /// The bridge invariant: ids start at 1, every pending id is below the
    /// counter (so ids are never reused while pending), and the registry
    /// holds at most one entry per id.
    pub closed spec fn inv(&self) -> bool {
        &&& self.registry.wf()
        &&& 1 <= self.next_id
        &&& forall|k: u64| self.registry@.contains_key(k) ==> k < self.next_id
        &&& self.state is Uninitialized ==> self.next_id == 1 && self.registry@ =~= Map::empty()
    }

    /// A bridge for a freshly spawned subprocess: no traffic yet.
    pub fn new() -> (r: Bridge<T>)
        ensures
            r.inv(),
            r.state() is Uninitialized,
            r.next_id() == 1,
            r.pending() == Map::<u64, T>::empty(),
            !r.disconnect_emitted(),
    {
        Bridge {
            state: ProcessState::Uninitialized,
            next_id: 1,
            registry: Registry::new(),
            disconnect_emitted: false,
        }
    }

    /// The current lifecycle state.
    pub fn current_state(&self) -> (r: ProcessState)
        ensures
            r == self.state(),
    {
        self.state
    }

    /// Whether the subprocess may still be spoken to.
    pub fn is_ready(&self) -> (r: bool)
        ensures
            r == (self.state() is Ready),
    {
        matches!(self.state, ProcessState::Ready)
    }

    /// Begin the mandatory handshake: allocate the first call id, register
    /// the caller's handle and hand back the framed `initialize` call.
    ///
    /// Only a freshly spawned bridge may start the handshake; afterwards it
    /// is in `Initializing` until the response arrives.
    pub fn begin_handshake(&mut self, params: &str, handle: T) -> (r: Result<(u64, String), BridgeError>)
        requires
            old(self).inv(),
        ensures
            final(self).inv(),
            old(self).state() is Uninitialized ==> match r {
                Ok((id, line)) => {
                    &&& id == old(self).next_id()
                    &&& line@ == encode_call_spec(id, "initialize"@, params@)
                    &&& final(self).state() is Initializing
                    &&& final(self).next_id() == id + 1
                    &&& final(self).pending() == old(self).pending().insert(id, handle)
                    &&& final(self).disconnect_emitted() == old(self).disconnect_emitted()
                },
                Err(_) => false,
            },
            !(old(self).state() is Uninitialized) ==> (r matches Err(e) && e is NotReady
                && *final(self) == *old(self)),
    {
        match self.state {
            ProcessState::Uninitialized => {
                let id = self.next_id;
                self.next_id = self.next_id + 1;
                self.registry.register(id, handle);
                self.state = ProcessState::Initializing;
                let line = encode_call_line(id, "initialize", params);
                Ok((id, line))
            },
            _ => Err(BridgeError::NotReady),
        }
    }

    /// Finish the handshake after the `initialize` call was answered
    /// successfully: the bridge becomes `Ready` and hands back the framed
    /// `initialized` notification, which carries no id.
    pub fn complete_handshake(&mut self) -> (r: Result<String, BridgeError>)
        requires
            old(self).inv(),
        ensures
            final(self).inv(),
            old(self).state() is Initializing ==> match r {
                Ok(line) => {
                    &&& line@ == encode_notification_spec("initialized"@, "{}"@)
                    &&& final(self).state() is Ready
                    &&& final(self).next_id() == old(self).next_id()
                    &&& final(self).pending() == old(self).pending()
                    &&& final(self).disconnect_emitted() == old(self).disconnect_emitted()
                },
                Err(_) => false,
            },
            !(old(self).state() is Initializing) ==> (r matches Err(e) && e is NotReady
                && *final(self) == *old(self)),
    {
        match self.state {
            ProcessState::Initializing => {
                self.state = ProcessState::Ready;
                Ok(encode_notification_line("initialized", "{}"))
            },
            _ => Err(BridgeError::NotReady),
        }
    }

    /// Record that the handshake failed: the subprocess is to be torn down
    /// and the bridge never becomes `Ready`.
    pub fn fail_handshake(&mut self)
        requires
            old(self).inv(),
        ensures
            final(self).inv(),
            final(self).state() is Terminated,
            final(self).next_id() == old(self).next_id(),
            final(self).pending() == old(self).pending(),
            final(self).disconnect_emitted() == old(self).disconnect_emitted(),
    {
        self.state = ProcessState::Terminated;
    }

    /// Whether another call id can still be allocated.
    pub fn can_allocate(&self) -> (r: bool)
        ensures
            r == (self.next_id() < u64::MAX),
    {
        self.next_id < u64::MAX
    }

    /// Begin an ordinary call: allocate a fresh id, register the caller's
    /// handle and hand back the framed line to write.
    ///
    /// Before the handshake reaches `Ready` this fails with `NotReady` and
    /// changes nothing, so no such call is ever written to the subprocess.
    /// The allocated id equals the counter, which exceeds every pending id,
    /// so ids are strictly increasing and never reused while pending.
    pub fn begin_call(&mut self, method: &str, params: &str, handle: T) -> (r: Result<
        (u64, String),
        BridgeError,
    >)
        requires
            old(self).inv(),
            old(self).next_id() < u64::MAX,
        ensures
            final(self).inv(),
            old(self).state() is Ready ==> match r {
                Ok((id, line)) => {
                    &&& id == old(self).next_id()
                    &&& !old(self).pending().contains_key(id)
                    &&& line@ == encode_call_spec(id, method@, params@)
                    &&& final(self).state() is Ready
                    &&& final(self).next_id() == id + 1
                    &&& final(self).pending() == old(self).pending().insert(id, handle)
                    &&& final(self).disconnect_emitted() == old(self).disconnect_emitted()
                },
                Err(_) => false,
            },
            !(old(self).state() is Ready) ==> (r matches Err(e) && e is NotReady && *final(self)
                == *old(self)),
    {
        match self.state {
            ProcessState::Ready => {
                let id = self.next_id;
                self.next_id = self.next_id + 1;
                self.registry.register(id, handle);
                let line = encode_call_line(id, method, params);
                Ok((id, line))
            },
            _ => Err(BridgeError::NotReady),
        }
    }

    /// Frame a one-way notification. Permitted only once `Ready`; no id is
    /// allocated and no completion is expected.
    pub fn notify(&self, method: &str, params: &str) -> (r: Result<String, BridgeError>)
        ensures
            self.state() is Ready ==> match r {
                Ok(line) => line@ == encode_notification_spec(method@, params@),
                Err(_) => false,
            },
            !(self.state() is Ready) ==> (r matches Err(e) && e is NotReady),
    {
        match self.state {
            ProcessState::Ready => Ok(encode_notification_line(method, params)),
            _ => Err(BridgeError::NotReady),
        }
    }

    /// Frame the response answering a server request. `request_id` is the
    /// subprocess's own id from that request: it belongs to the subprocess's
    /// numbering space and never touches the pending-call map.
    pub fn respond(&self, request_id: u64, result: &str) -> (r: Result<String, BridgeError>)
        ensures
            self.state() is Ready ==> match r {
                Ok(line) => line@ == encode_response_spec(request_id, result@),
                Err(_) => false,
            },
            !(self.state() is Ready) ==> (r matches Err(e) && e is NotReady),
    {
        match self.state {
            ProcessState::Ready => Ok(encode_response_line(request_id, result)),
            _ => Err(BridgeError::NotReady),
        }
    }

    /// Route one inbound line.
    ///
    /// A response is matched to its pending call by id alone and removes
    /// exactly that entry; a server request or notification becomes an event
    /// under the mapped name; a malformed line, or a response whose id
    /// nobody awaits, is dropped and resolves nothing — the reader loop
    /// never fails on it.
    pub fn on_line(&mut self, line: &str) -> (r: LineAction<T>)
        requires
            old(self).inv(),
        ensures
            final(self).inv(),
            final(self).state() == old(self).state(),
            final(self).next_id() == old(self).next_id(),
            final(self).disconnect_emitted() == old(self).disconnect_emitted(),
            match r {
                LineAction::Fulfil { id, handle, outcome } => {
                    &&& wire_id_of(line@) == Some(id)
                    &&& wire_method_of(line@) is None
                    &&& old(self).pending().contains_key(id)
                    &&& handle == old(self).pending()[id]
                    &&& final(self).pending() == old(self).pending().remove(id)
                    &&& match outcome {
                        Ok(res) => {
                            &&& wire_error_of(line@) is None
                            &&& match wire_result_of(line@) {
                                Some(t) => res@ == t,
                                None => res@ == seq!['n', 'u', 'l', 'l'],
                            }
                        },
                        Err(we) => wire_error_of(line@) == Some((we.code, we.message@)),
                    }
                },
                LineAction::Emit { event, request_id, params } => {
                    &&& final(self).pending() == old(self).pending()
                    &&& match wire_method_of(line@) {
                        Some(m) => event@ == map_event_spec(m),
                        None => false,
                    }
                    &&& match request_id {
                        Some(rid) => {
                            &&& wire_id_of(line@) == Some(rid)
                            &&& match wire_params_of(line@) {
                                Some(t) => params@ == t,
                                None => params@ == seq!['{', '}'],
                            }
                        },
                        None => {
                            &&& wire_id_of(line@) is None
                            &&& match wire_params_of(line@) {
                                Some(t) => params@ == t,
                                None => params@ == seq!['n', 'u', 'l', 'l'],
                            }
                        },
                    }
                },
                LineAction::Ignore => {
                    &&& final(self).pending() == old(self).pending()
                    &&& (wire_id_of(line@) is None && wire_method_of(line@) is None) || (
                    wire_method_of(line@) is None && match wire_id_of(line@) {
                        Some(id) => !old(self).pending().contains_key(id),
                        None => false,
                    })
                },
            },
            // A malformed line never resolves any pending call.
            wire_id_of(line@) is None && wire_method_of(line@) is None ==> (r is Ignore
                && final(self).pending() == old(self).pending()),
    {
        let msg = classify(line);
        match msg {
            Message::Response { id, outcome } => {
                match self.registry.complete(id) {
                    Some(handle) => {
                        let out = match outcome {
                            Ok(res) => Ok(res),
                            Err(we) => Err(we),
                        };
                        LineAction::Fulfil { id, handle, outcome: out }
                    },
                    None => LineAction::Ignore,
                }
            },
            Message::ServerRequest { id, method, params } => {
                let event = IpcBridge::map_event(method.as_str());
                LineAction::Emit { event, request_id: Some(id), params }
            },
            Message::Notification { method, params } => {
                let event = IpcBridge::map_event(method.as_str());
                LineAction::Emit { event, request_id: None, params }
            },
            Message::Malformed => LineAction::Ignore,
        }
    }

    /// The output stream reached its end (or failed): every still-pending
    /// caller is handed out once, to be failed with `Disconnected`, and the
    /// `Disconnected` event fires if and only if it has not fired before —
    /// so it fires exactly once over the life of the bridge.
    pub fn on_eof(&mut self) -> (r: EofOutcome<T>)
        requires
            old(self).inv(),
        ensures
            final(self).inv(),
            final(self).state() == old(self).state(),
            final(self).next_id() == old(self).next_id(),
            r.emit_disconnected == !old(self).disconnect_emitted(),
            final(self).disconnect_emitted(),
            final(self).pending() == Map::<u64, T>::empty(),
            crate::registry::distinct_ids(r.failed@),
            forall|i: int|
                0 <= i < r.failed@.len() ==> old(self).pending().contains_key(
                    (#[trigger] r.failed@[i]).0,
                ) && old(self).pending()[r.failed@[i].0] == r.failed@[i].1,
            forall|k: u64|
                old(self).pending().contains_key(k) ==> exists|i: int|
                    0 <= i < r.failed@.len() && (#[trigger] r.failed@[i]).0 == k,
    {
        let emit = !self.disconnect_emitted;
        self.disconnect_emitted = true;
        let failed = self.registry.take_all();
        let out = EofOutcome { emit_disconnected: emit, failed };
        proof {
            assert forall|k: u64| old(self).pending().contains_key(k) implies exists|i: int|
                0 <= i < out.failed@.len() && (#[trigger] out.failed@[i]).0 == k by {
                assert(old(self).registry@.contains_key(k));
                let i = choose|i: int|
                    0 <= i < out.failed@.len() && (#[trigger] out.failed@[i]).0 == k;
            }
        }
        out
    }

    /// A call timed out: remove its pending entry, so a response arriving
    /// later finds nobody to resolve and is discarded.
    pub fn on_timeout(&mut self, id: u64) -> (r: Option<T>)
        requires
            old(self).inv(),
        ensures
            final(self).inv(),
            final(self).state() == old(self).state(),
            final(self).next_id() == old(self).next_id(),
            final(self).disconnect_emitted() == old(self).disconnect_emitted(),
            match r {
                Some(h) => old(self).pending().contains_key(id) && h == old(self).pending()[id]
                    && final(self).pending() == old(self).pending().remove(id),
                None => !old(self).pending().contains_key(id) && *final(self) == *old(self),
            },
    {
        self.registry.complete(id)
    }

    /// Begin shutdown. Returns whether the teardown actions (stop the
    /// reader, close the input stream, race the grace period) must run:
    /// calling shutdown a second time is a no-op.
    pub fn begin_shutdown(&mut self) -> (r: bool)
        requires
            old(self).inv(),
        ensures
            final(self).inv(),
            r == !(old(self).state() is ShuttingDown || old(self).state() is Terminated),
            r ==> final(self).state() is ShuttingDown,
            !r ==> *final(self) == *old(self),
            final(self).next_id() == old(self).next_id(),
            final(self).pending() == old(self).pending(),
            final(self).disconnect_emitted() == old(self).disconnect_emitted(),
    {
        match self.state {
            ProcessState::ShuttingDown | ProcessState::Terminated => false,
            _ => {
                self.state = ProcessState::ShuttingDown;
                true
            },
        }
    }

    /// Record that the subprocess is gone.
    pub fn finish_shutdown(&mut self)
        requires
            old(self).inv(),
        ensures
            final(self).inv(),
            final(self).state() is Terminated,
            final(self).next_id() == old(self).next_id(),
            final(self).pending() == old(self).pending(),
            final(self).disconnect_emitted() == old(self).disconnect_emitted(),
    {
        self.state = ProcessState::Terminated;
    }
}

/// How a shutdown concludes once the grace period has been raced against
/// the process's own exit: an exit observed in time is reported as such,
/// and an expired grace period means the process was forcibly killed.
pub fn shutdown_resolution(exit_status: Option<i32>) -> (r: ShutdownOutcome)
    ensures
        match exit_status {
            Some(st) => r == ShutdownOutcome::Exited(st),
            None => r == ShutdownOutcome::ForcedKill,
        },
{
    match exit_status {
        Some(st) => ShutdownOutcome::Exited(st),
        None => ShutdownOutcome::ForcedKill,
    }
}

/// Each caller receives exactly the handle registered under its own id,
/// whatever order completions happen in: removing one pending entry leaves
/// every other id bound to its own handle, so responses arriving out of
/// order are still attributed by id alone.
pub proof fn lemma_correlation_order_independent<T>(pending: Map<u64, T>, id1: u64, id2: u64)
    requires
        pending.contains_key(id1),
        pending.contains_key(id2),
        id1 != id2,
    ensures
        pending.remove(id2).contains_key(id1) && pending.remove(id2)[id1] == pending[id1],
        pending.remove(id1).contains_key(id2) && pending.remove(id1)[id2] == pending[id2],
{
}

/// Call ids are strictly increasing and never reused while a pending call
/// exists: the invariant keeps every pending id strictly below the counter,
/// and `begin_call` allocates the counter itself, so each new id exceeds
/// every id still pending.
pub proof fn lemma_call_ids_fresh<T>(b: &Bridge<T>)
    requires
        b.inv(),
    ensures
        forall|k: u64| b.pending().contains_key(k) ==> k < b.next_id(),
        !b.pending().contains_key(b.next_id()),
{
}

} // verus!
