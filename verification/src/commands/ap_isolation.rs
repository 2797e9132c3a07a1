//! AP isolation of a mesh interface.

use crate::commands::dump::{mesh_ifindex_attrs, mesh_request};
use crate::error::{Error, ErrorView};
use crate::netlink::{
    attribute_id, AttrValueForSend, Attribute, Command, GenlMessage, GenlPayload, GenlRequest,
    NlAttr,
};
use vstd::prelude::*;

verus! {

/// The AP isolation state carried by a list of attributes: the first
/// `AP_ISOLATION_ENABLED` attribute with a non-empty payload decides, its
/// first byte telling whether isolation is on.
pub open spec fn ap_isolation_in(attrs: Seq<NlAttr>) -> Option<bool>
    decreases attrs.len(),
{
    if attrs.len() == 0 {
        None
    } else if attrs[0].kind == attribute_id(Attribute::BatadvAttrApIsolationEnabled)
        && attrs[0].payload@.len() > 0 {
        Some(attrs[0].payload@[0] != 0)
    } else {
        ap_isolation_in(attrs.drop_first())
    }
}

/// The AP isolation state carried by a reply message, if any.
pub open spec fn ap_isolation_of_message_spec(msg: GenlMessage) -> Option<bool> {
    match msg.payload {
        GenlPayload::Attrs(a) => ap_isolation_in(a@),
        _ => None,
    }
}

/// The byte that encodes a flag.
pub open spec fn flag_byte(b: bool) -> u8 {
    if b {
        1
    } else {
        0
    }
}

/// The request that asks for the settings of mesh interface `ifindex`.
pub fn get_ap_isolation_request(ifindex: u32) -> (r: GenlRequest)
    ensures
        r.command == Command::BatadvCmdGetMeshInfo,
        !r.dump,
        !r.ack,
        r.attrs@ == mesh_ifindex_attrs(ifindex),
{
    mesh_request(Command::BatadvCmdGetMeshInfo, ifindex, false, false)
}

/// The AP isolation state found in one message of the reply; the reply is
/// read until a message carries it.
pub fn ap_isolation_of_message(msg: &GenlMessage) -> (r: Option<bool>)
    ensures
        r == ap_isolation_of_message_spec(*msg),
{
    let attrs = match &msg.payload {
        GenlPayload::Attrs(a) => a,
        _ => {
            return None;
        },
    };
    let kind = Attribute::BatadvAttrApIsolationEnabled.id();
    let mut i: usize = 0;
    assert(attrs@.skip(0) == attrs@);
    while i < attrs.len()
        invariant
            i <= attrs.len(),
            kind == attribute_id(Attribute::BatadvAttrApIsolationEnabled),
            ap_isolation_in(attrs@) == ap_isolation_in(attrs@.skip(i as int)),
            ap_isolation_of_message_spec(*msg) == ap_isolation_in(attrs@),
        decreases attrs.len() - i,
    {
        let ghost rest = attrs@.skip(i as int);
        assert(rest[0] == attrs@[i as int]);
        if attrs[i].kind == kind && attrs[i].payload.len() > 0 {
            return Some(attrs[i].payload[0] != 0);
        }
        assert(rest.drop_first() == attrs@.skip(i + 1));
        i = i + 1;
    }
    None
}

/// The error of a reply that never carried the AP isolation state.
pub fn ap_isolation_missing() -> (r: Error)
    ensures
        r@ == ErrorView::NotFound("Error - AP isolation attribute not found"@),
{
    Error::NotFound("Error - AP isolation attribute not found".to_string())
}

/// The request that turns AP isolation of mesh interface `ifindex` on or
/// off, with acknowledgement.
pub fn set_ap_isolation_request(ifindex: u32, enabled: bool) -> (r: GenlRequest)
    ensures
        r.command == Command::BatadvCmdSetMesh,
        !r.dump,
        r.ack,
        r.attrs@ == seq![
            (Attribute::BatadvAttrMeshIfindex, AttrValueForSend::U32(ifindex)),
            (Attribute::BatadvAttrApIsolationEnabled, AttrValueForSend::U8(flag_byte(enabled))),
        ],
{
    let v: u8 = if enabled {
        1
    } else {
        0
    };
    let attrs = vec![
        (Attribute::BatadvAttrMeshIfindex, AttrValueForSend::U32(ifindex)),
        (Attribute::BatadvAttrApIsolationEnabled, AttrValueForSend::U8(v)),
    ];
    GenlRequest { command: Command::BatadvCmdSetMesh, dump: false, ack: true, attrs }
}

/// What the reply to an AP isolation query answers: the messages are read
/// in order until one carries the state, a failure to read a message is
/// returned as it is, and a reply that never carries the state is refused
/// as not found.
pub open spec fn ap_isolation_reply(replies: Seq<Result<GenlMessage, Error>>) -> Result<bool, ErrorView>
    decreases replies.len(),
{
    if replies.len() == 0 {
        Err(ErrorView::NotFound("Error - AP isolation attribute not found"@))
    } else {
        match replies[0] {
            Err(e) => Err(e@),
            Ok(m) => match ap_isolation_of_message_spec(m) {
                Some(b) => Ok(b),
                None => ap_isolation_reply(replies.drop_first()),
            },
        }
    }
}

/// The AP isolation state that a whole reply answers, each item being a
/// received message or the failure to read one.
pub fn ap_isolation_of_reply(replies: &[Result<GenlMessage, Error>]) -> (r: Result<bool, Error>)
    ensures
        match ap_isolation_reply(replies@) {
            Ok(b) => r matches Ok(x) && x == b,
            Err(e) => r matches Err(x) && x@ == e,
        },
{
    let mut i: usize = 0;
    assert(replies@.skip(0) == replies@);
    while i < replies.len()
        invariant
            i <= replies.len(),
            ap_isolation_reply(replies@) == ap_isolation_reply(replies@.skip(i as int)),
        decreases replies.len() - i,
    {
        let ghost rest = replies@.skip(i as int);
        assert(rest[0] == replies@[i as int]);
        match &replies[i] {
            Err(e) => {
                return Err(e.duplicate());
            },
            Ok(m) => {
                if let Some(b) = ap_isolation_of_message(m) {
                    return Ok(b);
                }
            },
        }
        assert(rest.drop_first() == replies@.skip(i + 1));
        i = i + 1;
    }
    assert(replies@.skip(i as int).len() == 0);
    Err(ap_isolation_missing())
}

} // verus!
