//! Gateway mode and gateway settings of a mesh interface.

use crate::commands::dump::{mesh_ifindex_attrs, mesh_request};
use crate::error::{Error, ErrorView};
use crate::model::{GatewayInfo, GwMode};
use crate::netlink::{
    attr_u32, attr_u32_spec, attr_u8, attr_u8_spec, attribute_id, find_attr_payload, find_payload,
    AttrValueForSend, Attribute, ByteOrder, Command, GenlMessage, GenlPayload, GenlRequest, NlAttr,
};
use crate::text::{before_nul, lossy_c_string, utf8_lossy};
use vstd::prelude::*;

verus! {

/// The gateway settings of a mesh interface, in mathematical form.
pub struct GatewayInfoView {
    pub mode: GwMode,
    pub sel_class: u32,
    pub bandwidth_down: u32,
    pub bandwidth_up: u32,
    pub algo: Seq<char>,
}

/// The view of a [`GatewayInfo`].
pub open spec fn gateway_info_view(g: GatewayInfo) -> GatewayInfoView {
    GatewayInfoView {
        mode: g.mode,
        sel_class: g.sel_class,
        bandwidth_down: g.bandwidth_down,
        bandwidth_up: g.bandwidth_up,
        algo: g.algo@,
    }
}

/// The gateway mode that the kernel's mode byte stands for; a missing or
/// unknown value gives `Unknown`.
pub open spec fn gw_mode_of(b: Option<u8>) -> GwMode {
    match b {
        Some(v) => if v == 0 {
            GwMode::Off
        } else if v == 1 {
            GwMode::Client
        } else if v == 2 {
            GwMode::Server
        } else {
            GwMode::Unknown
        },
        None => GwMode::Unknown,
    }
}

/// The gateway settings read from the attributes of the mesh information
/// reply: the selection class and both bandwidths are required, and so is
/// the routing algorithm name, read up to its first zero byte.
pub open spec fn gateway_info_from_attrs(attrs: Seq<NlAttr>, order: ByteOrder) -> Result<
    GatewayInfoView,
    ErrorView,
> {
    let mode = gw_mode_of(attr_u8_spec(attrs, attribute_id(Attribute::BatadvAttrGwMode)));
    match attr_u32_spec(attrs, attribute_id(Attribute::BatadvAttrGwSelClass), order) {
        None => Err(ErrorView::Argument("Error - gateway selection class missing"@)),
        Some(sel_class) => match attr_u32_spec(
            attrs,
            attribute_id(Attribute::BatadvAttrGwBandwidthDown),
            order,
        ) {
            None => Err(ErrorView::Argument("Error - gateway downstream bandwidth missing"@)),
            Some(down) => match attr_u32_spec(
                attrs,
                attribute_id(Attribute::BatadvAttrGwBandwidthUp),
                order,
            ) {
                None => Err(ErrorView::Argument("Error - gateway upstream bandwidth missing"@)),
                Some(up) => match find_payload(attrs, attribute_id(Attribute::BatadvAttrAlgoName)) {
                    None => Err(ErrorView::Argument("Error - routing algorithm name missing"@)),
                    Some(p) => Ok(
                        GatewayInfoView {
                            mode,
                            sel_class,
                            bandwidth_down: down,
                            bandwidth_up: up,
                            algo: utf8_lossy(before_nul(p)),
                        },
                    ),
                },
            },
        },
    }
}

/// The gateway settings read from the first message of the reply.
pub open spec fn gateway_info_spec(msg: Option<GenlMessage>, order: ByteOrder) -> Result<
    GatewayInfoView,
    ErrorView,
> {
    match msg {
        None => Err(ErrorView::Argument("Error - no response from kernel"@)),
        Some(m) => match m.payload {
            GenlPayload::Attrs(a) => gateway_info_from_attrs(a@, order),
            _ => Err(ErrorView::Argument("Error - message has no payload"@)),
        },
    }
}

/// The request that asks for the settings of mesh interface `ifindex`.
pub fn get_gateway_request(ifindex: u32) -> (r: GenlRequest)
    ensures
        r.command == Command::BatadvCmdGetMeshInfo,
        !r.dump,
        !r.ack,
        r.attrs@ == mesh_ifindex_attrs(ifindex),
{
    mesh_request(Command::BatadvCmdGetMeshInfo, ifindex, false, false)
}

/// The gateway settings read from the first message of the reply (`None`
/// when the kernel sent none), integers in the host's byte order.
pub fn gateway_info_from_reply(msg: Option<&GenlMessage>, order: ByteOrder) -> (r: Result<
    GatewayInfo,
    Error,
>)
    ensures
        match gateway_info_spec(
            match msg {
                Some(m) => Some(*m),
                None => None,
            },
            order,
        ) {
            Ok(g) => r matches Ok(x) && gateway_info_view(x) == g,
            Err(e) => r matches Err(x) && x@ == e,
        },
{
    let m = match msg {
        Some(m) => m,
        None => {
            return Err(Error::Argument("Error - no response from kernel".to_string()));
        },
    };
    let attrs = match &m.payload {
        GenlPayload::Attrs(a) => a.as_slice(),
        _ => {
            return Err(Error::Argument("Error - message has no payload".to_string()));
        },
    };
    let mode = match attr_u8(attrs, Attribute::BatadvAttrGwMode.id()) {
        Some(v) => if v == 0 {
            GwMode::Off
        } else if v == 1 {
            GwMode::Client
        } else if v == 2 {
            GwMode::Server
        } else {
            GwMode::Unknown
        },
        None => GwMode::Unknown,
    };
    let sel_class = match attr_u32(attrs, Attribute::BatadvAttrGwSelClass.id(), order) {
        Some(v) => v,
        None => {
            return Err(Error::Argument("Error - gateway selection class missing".to_string()));
        },
    };
    let bandwidth_down = match attr_u32(attrs, Attribute::BatadvAttrGwBandwidthDown.id(), order) {
        Some(v) => v,
        None => {
            return Err(
                Error::Argument("Error - gateway downstream bandwidth missing".to_string()),
            );
        },
    };
    let bandwidth_up = match attr_u32(attrs, Attribute::BatadvAttrGwBandwidthUp.id(), order) {
        Some(v) => v,
        None => {
            return Err(Error::Argument("Error - gateway upstream bandwidth missing".to_string()));
        },
    };
    let algo = match find_attr_payload(attrs, Attribute::BatadvAttrAlgoName.id()) {
        Some(p) => lossy_c_string(p),
        None => {
            return Err(Error::Argument("Error - routing algorithm name missing".to_string()));
        },
    };
    Ok(GatewayInfo { mode, sel_class, bandwidth_down, bandwidth_up, algo })
}

/// The attributes that set gateway mode `mode` on mesh interface `ifindex`:
/// the mode byte (0 off, 1 client, 2 server) and, for a server, the
/// bandwidths in units of 100 kbit/s (10000 down and 2000 up by default)
/// and the selection class (0 by default). An unknown mode cannot be set.
pub open spec fn set_gateway_attrs(
    mode: GwMode,
    down: Option<u32>,
    up: Option<u32>,
    sel_class: Option<u32>,
    ifindex: u32,
) -> Option<Seq<(Attribute, AttrValueForSend)>> {
    let m = (Attribute::BatadvAttrMeshIfindex, AttrValueForSend::U32(ifindex));
    match mode {
        GwMode::Off => Some(seq![m, (Attribute::BatadvAttrGwMode, AttrValueForSend::U8(0))]),
        GwMode::Client => Some(seq![m, (Attribute::BatadvAttrGwMode, AttrValueForSend::U8(1))]),
        GwMode::Server => Some(
            seq![
                m,
                (Attribute::BatadvAttrGwMode, AttrValueForSend::U8(2)),
                (
                    Attribute::BatadvAttrGwBandwidthDown,
                    AttrValueForSend::U32(down.unwrap_or(10000) / 100),
                ),
                (
                    Attribute::BatadvAttrGwBandwidthUp,
                    AttrValueForSend::U32(up.unwrap_or(2000) / 100),
                ),
                (Attribute::BatadvAttrGwSelClass, AttrValueForSend::U32(sel_class.unwrap_or(0))),
            ],
        ),
        GwMode::Unknown => None,
    }
}

/// The request that sets the gateway mode of mesh interface `ifindex`,
/// with acknowledgement.
pub fn set_gateway_request(
    mode: GwMode,
    down: Option<u32>,
    up: Option<u32>,
    sel_class: Option<u32>,
    ifindex: u32,
) -> (r: Result<GenlRequest, Error>)
    ensures
        match set_gateway_attrs(mode, down, up, sel_class, ifindex) {
            Some(a) => r matches Ok(req) && req.command == Command::BatadvCmdSetMesh && !req.dump
                && req.ack && req.attrs@ == a,
            None => r matches Err(e) && e@ == ErrorView::Argument(
                "Cannot set unknown gateway mode"@,
            ),
        },
{
    let m = (Attribute::BatadvAttrMeshIfindex, AttrValueForSend::U32(ifindex));
    let attrs = match mode {
        GwMode::Off => vec![m, (Attribute::BatadvAttrGwMode, AttrValueForSend::U8(0))],
        GwMode::Client => vec![m, (Attribute::BatadvAttrGwMode, AttrValueForSend::U8(1))],
        GwMode::Server => {
            let d = match down {
                Some(v) => v,
                None => 10000,
            };
            let u = match up {
                Some(v) => v,
                None => 2000,
            };
            let s = match sel_class {
                Some(v) => v,
                None => 0,
            };
            vec![
                m,
                (Attribute::BatadvAttrGwMode, AttrValueForSend::U8(2)),
                (Attribute::BatadvAttrGwBandwidthDown, AttrValueForSend::U32(d / 100)),
                (Attribute::BatadvAttrGwBandwidthUp, AttrValueForSend::U32(u / 100)),
                (Attribute::BatadvAttrGwSelClass, AttrValueForSend::U32(s)),
            ]
        },
        GwMode::Unknown => {
            return Err(Error::Argument("Cannot set unknown gateway mode".to_string()));
        },
    };
    let r = GenlRequest { command: Command::BatadvCmdSetMesh, dump: false, ack: true, attrs };
    assert(r.attrs@ =~= set_gateway_attrs(mode, down, up, sel_class, ifindex).unwrap());
    Ok(r)
}

} // verus!
