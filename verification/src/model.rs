//! Data structures describing what the kernel reports about a mesh.

use crate::mac::MacAddress;
use vstd::prelude::*;

verus! {

/// Gateway mode of a mesh interface.
#[derive(Debug, Clone, Copy, PartialEq, Eq, Structural)]
pub enum GwMode {
    Off,
    Client,
    Server,
    Unknown,
}

/// Gateway settings of a mesh interface.
#[derive(Debug, Clone, PartialEq, Eq)]
pub struct GatewayInfo {
    pub mode: GwMode,
    pub sel_class: u32,
    pub bandwidth_down: u32,
    pub bandwidth_up: u32,
    /// Name of the routing algorithm.
    pub algo: String,
}

/// A hard interface attached to a mesh interface.
#[derive(Debug, Clone, PartialEq, Eq)]
pub struct Interface {
    pub ifname: String,
    pub active: bool,
}

/// An originator entry of the mesh (`batctl o`).
#[derive(Debug, Clone, PartialEq, Eq)]
pub struct Originator {
    pub originator: MacAddress,
    pub next_hop: MacAddress,
    pub outgoing_if: String,
    pub last_seen_ms: u32,
    pub tq: Option<u8>,
    pub throughput: Option<u32>,
    pub is_best: bool,
}

/// A gateway announced in the mesh (`batctl gwl`).
#[derive(Debug, Clone, PartialEq, Eq)]
pub struct Gateway {
    pub mac_addr: MacAddress,
    pub router: MacAddress,
    pub outgoing_if: String,
    pub tq: Option<u8>,
    pub throughput: Option<u32>,
    pub bandwidth_down: Option<u32>,
    pub bandwidth_up: Option<u32>,
    pub is_best: bool,
}

} // verus!
