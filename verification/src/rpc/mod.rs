//! The RPC gateway: its life cycle, its request pipeline and its methods.

pub mod aes;
pub mod middleware;
pub mod rpc;

use vstd::prelude::*;

verus! {

/// The address that the gateway listens on: every interface in a debug
/// build, the loopback interface otherwise.
pub fn listen_address(debug_build: bool) -> (r: [u8; 4])
    ensures
        r@ == if debug_build {
            seq![0u8, 0u8, 0u8, 0u8]
        } else {
            seq![127u8, 0u8, 0u8, 1u8]
        },
{
    if debug_build {
        [0u8, 0u8, 0u8, 0u8]
    } else {
        [127u8, 0u8, 0u8, 1u8]
    }
}

/// The slot that holds the handle of the running listener. It is empty
/// while the gateway is stopped. `H` is whatever stops the listener.
pub struct RpcCloser<H> {
    pub handle: Option<H>,
}

impl<H> RpcCloser<H> {
    /// The slot of a gateway that was never started.
    pub fn new() -> (r: Self)
        ensures
            r.handle is None,
    {
        RpcCloser { handle: None }
    }

    /// Whether the gateway is running.
    pub fn is_running(&self) -> (r: bool)
        ensures
            r == (self.handle is Some),
    {
        self.handle.is_some()
    }
}

/// Records the handle of a listener that was just started. A gateway that
/// is already running keeps its handle, and the new one is handed back:
/// starting twice starts nothing.
pub fn run_rpc_server<H>(closer: &mut RpcCloser<H>, handle: H) -> (r: Option<H>)
    ensures
        match old(closer).handle {
            Some(running) => final(closer).handle == Some(running) && r == Some(handle),
            None => final(closer).handle == Some(handle) && r is None,
        },
{
    if closer.handle.is_some() {
        return Some(handle);
    }
    closer.handle = Some(handle);
    None
}

/// Takes the handle out, for the caller to stop the listener with. The
/// gateway counts as stopped afterwards.
pub fn stop_rpc_server<H>(closer: &mut RpcCloser<H>) -> (r: Option<H>)
    ensures
        r == old(closer).handle,
        final(closer).handle is None,
{
    closer.handle.take()
}

} // verus!
