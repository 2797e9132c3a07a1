//! Gateway change events emitted by batman-adv in gateway client mode.

use crate::mac::MacAddress;
use crate::text::string_from_chars;
use std::time::SystemTime;
use vstd::prelude::*;

verus! {

/// `std::time::SystemTime`, carried through the library unread.
#[verifier::external_type_specification]
#[verifier::external_body]
pub struct ExSystemTime(std::time::SystemTime);

/// `SystemTime::clone`: the type is `Copy`, so a clone is the same value.
pub assume_specification[ <std::time::SystemTime as Clone>::clone ](t: &std::time::SystemTime) -> (r: std::time::SystemTime)
    ensures
        r == *t,
;

/// The current system time (`SystemTime::now`). Nothing is stated of it: it
/// is read from the clock.
#[verifier::external_body]
fn current_time() -> SystemTime {
    SystemTime::now()
}

/// Gateway event action types; they correspond to batman-adv's `BATACTION`
/// uevent field.
#[derive(Debug, Clone, Copy, PartialEq, Eq, Hash, Structural)]
pub enum GatewayEventAction {
    /// A first gateway was selected (`ADD`).
    Add,
    /// A better gateway was found (`CHANGE`).
    Change,
    /// The selected gateway is no longer available (`DEL`).
    Delete,
}

/// The text of an action as the command line shows it.
pub open spec fn action_text(a: GatewayEventAction) -> Seq<char> {
    match a {
        GatewayEventAction::Add => seq!['A', 'D', 'D'],
        GatewayEventAction::Change => seq!['C', 'H', 'A', 'N', 'G', 'E'],
        GatewayEventAction::Delete => seq!['D', 'E', 'L', 'E', 'T', 'E'],
    }
}

impl GatewayEventAction {
    /// The text of the action: `ADD`, `CHANGE` or `DELETE`.
    pub fn to_string(&self) -> (r: String)
        ensures
            r@ == action_text(*self),
    {
        let cs: Vec<char> = match self {
            GatewayEventAction::Add => vec!['A', 'D', 'D'],
            GatewayEventAction::Change => vec!['C', 'H', 'A', 'N', 'G', 'E'],
            GatewayEventAction::Delete => vec!['D', 'E', 'L', 'E', 'T', 'E'],
        };
        assert(cs@ =~= action_text(*self));
        string_from_chars(cs.as_slice())
    }
}

/// A gateway change event.
#[derive(Debug, Clone, PartialEq, Eq)]
pub struct GatewayEvent {
    /// When the event was received.
    pub timestamp: SystemTime,
    /// Index of the mesh interface.
    pub meshif: u32,
    /// Kind of gateway change.
    pub action: GatewayEventAction,
    /// Address of the selected gateway (present for `ADD`/`CHANGE`).
    pub gateway_mac: Option<MacAddress>,
}

impl GatewayEvent {
    /// A new gateway event stamped with the current time.
    pub fn new(meshif: u32, action: GatewayEventAction, gateway_mac: Option<MacAddress>) -> (r:
        Self)
        ensures
            r.meshif == meshif,
            r.action == action,
            r.gateway_mac == gateway_mac,
    {
        GatewayEvent { timestamp: current_time(), meshif, action, gateway_mac }
    }

    /// Whether the event carries the address of a gateway.
    pub fn has_gateway(&self) -> (r: bool)
        ensures
            r == self.gateway_mac.is_some(),
    {
        self.gateway_mac.is_some()
    }
}

} // verus!
