//! Frame-driven Ethereum JSON-RPC provider with interchangeable signer
//! backends, written so that no operation ever blocks the host's per-tick
//! callback: the library decides what to send and what each reply means, and
//! the embedding application performs the network I/O.

use vstd::prelude::*;

pub mod backend;
pub mod bridge;
pub mod error;
pub mod ethers_provider;
pub mod frame_provider;
pub mod json;
pub mod keystore;
pub mod laws;
pub mod local_signer;
pub mod primitives;
pub mod remote_signer;
pub mod signing;
pub mod transport;

verus! {

/// Sets up what the host polls on every tick: the scheduler, with an empty
/// run-queue. The host keeps it for as long as its main loop runs and hands
/// it to whatever submits work.
pub fn init() -> (bridge: bridge::AsyncBridge)
    ensures
        bridge.wf(),
        bridge@ == (bridge::BridgeView { queue: Seq::empty(), next_handle: 0 }),
{
    bridge::AsyncBridge::new()
}

} // verus!
