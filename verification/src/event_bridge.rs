//! The decision logic of the foreign-event bridge.
//!
//! A foreign caller hands the bridge named events with opaque binary
//! payloads. The bridge owns one optional dispatcher handle: absent until an
//! explicit initialization, replaced (not merged) on re-initialization, and
//! consulted on every submission. Submission is fire-and-forget: this module
//! decides whether an event may be dispatched and what request it becomes;
//! actually running the request on the host's dispatch runtime, and locking
//! around the shared bridge, is the embedding's business.

use vstd::prelude::*;

use vstd::slice::slice_to_vec;

verus! {

/// An event arriving at the foreign boundary: an arbitrary name and an
/// arbitrary payload with no imposed framing.
pub struct WasmEvent {
    pub name: String,
    pub payload: Vec<u8>,
}

impl WasmEvent {
    /// The event's name.
    pub fn name(&self) -> (r: String)
        ensures
            r@ == self.name@,
    {
        self.name.clone()
    }

    /// Replaces the event's name.
    pub fn set_name(&mut self, name: String)
        ensures
            final(self).name == name,
            final(self).payload == old(self).payload,
    {
        self.name = name;
    }

    /// The payload's length in bytes.
    pub fn get_payload_len(&self) -> (r: usize)
        ensures
            r == self.payload@.len(),
    {
        self.payload.len()
    }

    /// The payload bytes.
    pub fn get_payload(&self) -> (r: &Vec<u8>)
        ensures
            r@ == self.payload@,
    {
        &self.payload
    }

    /// Replaces the event's payload with a copy of the given bytes.
    pub fn set_payload(&mut self, payload: &[u8])
        ensures
            final(self).payload@ == payload@,
            final(self).name == old(self).name,
    {
        self.payload = slice_to_vec(payload);
    }
}

impl Default for WasmEvent {
    /// An event with an empty name and an empty payload.
    fn default() -> (r: Self)
        ensures
            r.name@ == Seq::<char>::empty(),
            r.payload@ == Seq::<u8>::empty(),
    {
        WasmEvent { name: String::new(), payload: Vec::new() }
    }
}

/// A named request of the internal plugin-dispatch runtime: the same name and
/// the same payload bytes as the event it was converted from.
pub struct PluginRequest {
    pub name: String,
    pub payload: Vec<u8>,
}

impl PluginRequest {
    /// A request with the given name and an empty payload.
    pub fn new(name: String) -> (r: PluginRequest)
        ensures
            r.name == name,
            r.payload@ == Seq::<u8>::empty(),
    {
        PluginRequest { name, payload: Vec::new() }
    }

    /// The same request, carrying the given payload.
    pub fn payload(self, payload: Vec<u8>) -> (r: PluginRequest)
        ensures
            r.name == self.name,
            r.payload == payload,
    {
        PluginRequest { name: self.name, payload }
    }
}

impl From<WasmEvent> for PluginRequest {
    /// Consumes an event into the request that dispatching it means: same
    /// name, same payload bytes.
    fn from(request: WasmEvent) -> (r: Self) {
        PluginRequest::new(request.name).payload(request.payload)
    }
}

impl vstd::std_specs::convert::FromSpecImpl<WasmEvent> for PluginRequest {
    open spec fn obeys_from_spec() -> bool {
        true
    }

    open spec fn from_spec(v: WasmEvent) -> Self {
        PluginRequest { name: v.name, payload: v.payload }
    }
}

/// A handle standing for one dispatcher instance bound to one runtime. The
/// embedding mints a fresh handle whenever it constructs a dispatcher.
#[derive(Clone, Copy, PartialEq, Eq, Structural, Debug)]
pub struct DispatcherHandle {
    pub id: u64,
}

/// The error a submission reports instead of dispatching.
#[derive(Clone, Copy, PartialEq, Eq, Structural, Debug)]
pub enum DispatcherError {
    /// The bridge was never initialized, so there is no dispatcher to hand
    /// the event to.
    NotInitialized,
}

/// The bridge's whole state: the dispatcher handle currently visible to
/// submissions, if any.
pub struct EventBridge {
    pub dispatcher: Option<DispatcherHandle>,
}

impl EventBridge {
    /// A bridge that no initialization has reached yet.
    pub fn new() -> (r: EventBridge)
        ensures
            r.dispatcher is None,
    {
        EventBridge { dispatcher: None }
    }

    /// Whether an initialization has succeeded.
    pub open spec fn is_initialized(&self) -> bool {
        self.dispatcher is Some
    }
}

/// One-time setup of the bridge. The embedding constructs a runtime and a
/// dispatcher bound to it and passes the resulting handle, or `None` when
/// that construction failed. On success the handle is stored — replacing,
/// not merging with, any previous one — and the status is 0; on failure
/// nothing changes and the status is 1.
///
/// The configuration blob is accepted unread: its interpretation belongs to
/// the runtime the embedding constructs.
pub fn init_sdk(bridge: &mut EventBridge, _data: String, dispatcher: Option<DispatcherHandle>) -> (r:
    i64)
    ensures
        match dispatcher {
            Some(h) => final(bridge).dispatcher == Some(h) && r == 0,
            None => *final(bridge) == *old(bridge) && r == 1,
        },
{
    match dispatcher {
        Some(handle) => {
            bridge.dispatcher = Some(handle);
            0
        },
        None => 1,
    }
}

/// Decides a submission. With the bridge initialized, the event is accepted:
/// the result names the one dispatcher handle currently stored — the only
/// instance any submission may see — and the request to fire at it, carrying
/// the event's name and payload bytes unchanged. Before initialization the
/// submission deterministically fails instead.
///
/// Acceptance means "accepted for processing", nothing more: the embedding
/// fires the request and discards the outcome, and no ordering between two
/// accepted events is promised.
pub fn async_event(bridge: &EventBridge, wasm_event: WasmEvent) -> (r: Result<
    (DispatcherHandle, PluginRequest),
    DispatcherError,
>)
    ensures
        match bridge.dispatcher {
            Some(h) => {
                &&& r is Ok
                &&& r->Ok_0.0 == h
                &&& r->Ok_0.1.name@ == wasm_event.name@
                &&& r->Ok_0.1.payload@ == wasm_event.payload@
            },
            None => r == Err::<(DispatcherHandle, PluginRequest), DispatcherError>(
                DispatcherError::NotInitialized,
            ),
        },
{
    match bridge.dispatcher {
        Some(handle) => Ok((handle, PluginRequest::from(wasm_event))),
        None => Err(DispatcherError::NotInitialized),
    }
}

} // verus!
