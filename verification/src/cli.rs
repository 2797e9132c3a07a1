//! The decisions and the text of the `robctl` command line tool: argument
//! interpretation, the gateway event listing and the gateway table.

use crate::gateway_event::{action_text, GatewayEvent, GatewayEventAction};
use crate::mac::MacAddress;
use crate::model::{Gateway, GwMode};
use crate::text::{
    decimal, hex_colon, pad_left, pad_right, push_decimal, push_hex_colon,
    push_padded_left, push_padded_right, push_str, str_equals, string_from_chars, chars_of,
};

use vstd::prelude::*;

verus! {

/// The first header line of the gateway event listing.
pub open spec fn listen_banner(mesh_if: Seq<char>) -> Seq<char> {
    "Listening for gateway events on "@ + mesh_if + ". Press Ctrl+C to stop."@
}

/// The column header line of the gateway event listing.
pub open spec fn listen_columns() -> Seq<char> {
    pad_left("UNIX_TS"@, 12) + "  "@ + pad_right("ACTION"@, 7) + "  GATEWAY"@
}

/// The two header lines printed before gateway events of `mesh_if`.
pub fn gateway_event_header(mesh_if: &str) -> (r: (String, String))
    ensures
        r.0@ == listen_banner(mesh_if@),
        r.1@ == listen_columns(),
{
    let mut a: Vec<char> = Vec::new();
    push_str(&mut a, "Listening for gateway events on ");
    push_str(&mut a, mesh_if);
    push_str(&mut a, ". Press Ctrl+C to stop.");
    let mut b: Vec<char> = Vec::new();
    let ts = chars_of("UNIX_TS");
    let act = chars_of("ACTION");
    push_padded_left(&mut b, ts.as_slice(), 12);
    push_str(&mut b, "  ");
    push_padded_right(&mut b, act.as_slice(), 7);
    push_str(&mut b, "  GATEWAY");
    assert(b@ =~= listen_columns());
    assert(a@ =~= listen_banner(mesh_if@));
    (string_from_chars(a.as_slice()), string_from_chars(b.as_slice()))
}

/// The text of an optional gateway address: its hexadecimal form, or
/// `none`.
pub open spec fn gateway_text(m: Option<MacAddress>) -> Seq<char> {
    match m {
        Some(a) => hex_colon(a@),
        None => "none"@,
    }
}

/// The line listing a gateway event received `unix_secs` seconds after the
/// epoch: the time right-aligned in twelve columns, then the action's name
/// as it stands (the action's text ignores any width), then the gateway.
pub open spec fn event_line(unix_secs: u64, action: GatewayEventAction, gateway: Option<MacAddress>) -> Seq<char> {
    pad_left(decimal(unix_secs as nat), 12) + "  "@ + action_text(action) + "  "@
        + gateway_text(gateway)
}

/// The line listing a gateway event received at `unix_secs`.
pub fn gateway_event_row(unix_secs: u64, event: &GatewayEvent) -> (r: String)
    ensures
        r@ == event_line(unix_secs, event.action, event.gateway_mac),
{
    let mut out: Vec<char> = Vec::new();
    let mut secs: Vec<char> = Vec::new();
    push_decimal(&mut secs, unix_secs);
    assert(secs@ =~= decimal(unix_secs as nat));
    push_padded_left(&mut out, secs.as_slice(), 12);
    push_str(&mut out, "  ");
    let action = event.action.to_string();
    push_str(&mut out, action.as_str());
    push_str(&mut out, "  ");
    match &event.gateway_mac {
        Some(m) => push_hex_colon(&mut out, m.octets()),
        None => push_str(&mut out, "none"),
    }
    assert(out@ =~= event_line(unix_secs, event.action, event.gateway_mac));
    string_from_chars(out.as_slice())
}

/// The gateway mode named on the command line.
pub fn parse_gw_mode_arg(s: &str) -> (r: Option<GwMode>)
    ensures
        r == (if s@ == "off"@ {
            Some(GwMode::Off)
        } else if s@ == "client"@ {
            Some(GwMode::Client)
        } else if s@ == "server"@ {
            Some(GwMode::Server)
        } else {
            None
        }),
{
    if str_equals(s, "off") {
        Some(GwMode::Off)
    } else if str_equals(s, "client") {
        Some(GwMode::Client)
    } else if str_equals(s, "server") {
        Some(GwMode::Server)
    } else {
        None
    }
}

/// The actions of the `interface` subcommand.
#[derive(Debug, Clone, Copy, PartialEq, Eq, Structural)]
pub enum InterfaceAction {
    Destroy,
    Create,
    Add,
    Del,
}

/// The `interface` action named on the command line, by its long or short
/// name.
pub fn parse_interface_action(s: &str) -> (r: Option<InterfaceAction>)
    ensures
        r == (if s@ == "destroy"@ || s@ == "D"@ {
            Some(InterfaceAction::Destroy)
        } else if s@ == "create"@ || s@ == "c"@ {
            Some(InterfaceAction::Create)
        } else if s@ == "add"@ || s@ == "a"@ {
            Some(InterfaceAction::Add)
        } else if s@ == "del"@ || s@ == "d"@ {
            Some(InterfaceAction::Del)
        } else {
            None
        }),
{
    if str_equals(s, "destroy") || str_equals(s, "D") {
        Some(InterfaceAction::Destroy)
    } else if str_equals(s, "create") || str_equals(s, "c") {
        Some(InterfaceAction::Create)
    } else if str_equals(s, "add") || str_equals(s, "a") {
        Some(InterfaceAction::Add)
    } else if str_equals(s, "del") || str_equals(s, "d") {
        Some(InterfaceAction::Del)
    } else {
        None
    }
}

/// The routing algorithm given to `interface create`: no parameter, or
/// `ra` or `routing_algo` followed by the algorithm. Any other parameters
/// are refused (`Err`).
pub fn create_routing_algo(params: &[String]) -> (r: Result<Option<String>, ()>)
    ensures
        params.len() == 0 ==> r == Ok::<Option<String>, ()>(None),
        params.len() == 2 && (params[0]@ == "ra"@ || params[0]@ == "routing_algo"@) ==> r
            == Ok::<Option<String>, ()>(Some(params[1])),
        !(params.len() == 0 || (params.len() == 2 && (params[0]@ == "ra"@ || params[0]@
            == "routing_algo"@))) ==> r is Err,
{
    if params.len() == 0 {
        return Ok(None);
    }
    if params.len() == 2 && (str_equals(params[0].as_str(), "ra") || str_equals(
        params[0].as_str(),
        "routing_algo",
    )) {
        return Ok(Some(params[1].clone()));
    }
    Err(())
}

/// The warning printed after interfaces were removed from `mesh_if`
/// without `manual`, when that left the mesh without interfaces.
pub open spec fn empty_mesh_warning_text(mesh_if: Seq<char>) -> Seq<char> {
    "Warning: "@ + mesh_if + " has no interfaces and can be destroyed with: robctl meshif "@
        + mesh_if + " interface destroy"@
}

/// The warning to print after an `interface` action, if any: only a `del`
/// action outside manual mode that took the interface count of `mesh_if`
/// from above zero to zero warns.
pub fn empty_mesh_warning(
    mesh_if: &str,
    manual: bool,
    action: InterfaceAction,
    count_before: u32,
    count_after: u32,
) -> (r: Option<String>)
    ensures
        (!manual && action == InterfaceAction::Del && count_after == 0 && count_before > 0) ==> (r
            matches Some(w) && w@ == empty_mesh_warning_text(mesh_if@)),
        !(!manual && action == InterfaceAction::Del && count_after == 0 && count_before > 0)
            ==> r is None,
{
    if !manual && action == InterfaceAction::Del && count_after == 0 && count_before > 0 {
        let mut m: Vec<char> = Vec::new();
        push_str(&mut m, "Warning: ");
        push_str(&mut m, mesh_if);
        push_str(&mut m, " has no interfaces and can be destroyed with: robctl meshif ");
        push_str(&mut m, mesh_if);
        push_str(&mut m, " interface destroy");
        assert(m@ =~= empty_mesh_warning_text(mesh_if@));
        Some(string_from_chars(m.as_slice()))
    } else {
        None
    }
}

/// The word that shows a boolean setting.
pub fn enabled_label(enabled: bool) -> (r: &'static str)
    ensures
        r@ == (if enabled {
            "enabled"@
        } else {
            "disabled"@
        }),
{
    if enabled {
        "enabled"
    } else {
        "disabled"
    }
}

/// The routing algorithms whose gateway table can be shown.
#[derive(Debug, Clone, Copy, PartialEq, Eq, Structural)]
pub enum GatewayTableKind {
    /// `BATMAN_IV`: gateways ranked by transmit quality.
    Tq,
    /// `BATMAN_V`: gateways ranked by throughput.
    Throughput,
}

/// The gateway table: its header cells (shown centred) and one row of cells
/// per gateway (the first cell shown right-aligned).
pub struct GatewayTable {
    pub header: Vec<String>,
    pub rows: Vec<Vec<String>>,
}

/// The table kind for a routing algorithm name, if it has one.
pub open spec fn table_kind_of(algo_name: Seq<char>) -> Option<GatewayTableKind> {
    if algo_name == "BATMAN_IV"@ {
        Some(GatewayTableKind::Tq)
    } else if algo_name == "BATMAN_V"@ {
        Some(GatewayTableKind::Throughput)
    } else {
        None
    }
}

/// The header cells of a gateway table.
pub open spec fn table_header(kind: GatewayTableKind) -> Seq<Seq<char>> {
    seq![
        "Router"@,
        match kind {
            GatewayTableKind::Tq => "TQ"@,
            GatewayTableKind::Throughput => "Throughput"@,
        },
        "Next Hop"@,
        "OutgoingIF"@,
        "Bandwidth Down (Mbit/s)"@,
        "Bandwidth Up (Mbit/s)"@,
    ]
}

/// The cells of a gateway's row: its address (marked `* ` when it is the
/// best gateway), its TQ or throughput, the next hop, the outgoing
/// interface and both bandwidths, missing numbers shown as 0.
pub open spec fn gateway_row(g: Gateway, kind: GatewayTableKind) -> Seq<Seq<char>> {
    seq![
        if g.is_best {
            "* "@ + hex_colon(g.mac_addr@)
        } else {
            hex_colon(g.mac_addr@)
        },
        match kind {
            GatewayTableKind::Tq => decimal(g.tq.unwrap_or(0) as nat),
            GatewayTableKind::Throughput => decimal(g.throughput.unwrap_or(0) as nat),
        },
        hex_colon(g.router@),
        g.outgoing_if@,
        decimal(g.bandwidth_down.unwrap_or(0) as nat),
        decimal(g.bandwidth_up.unwrap_or(0) as nat),
    ]
}

/// The characters of a list of strings.
pub open spec fn cells_view(v: Seq<String>) -> Seq<Seq<char>> {
    v.map_values(|s: String| s@)
}

/// The characters of a decimal number, as a string.
fn decimal_string(n: u64) -> (r: String)
    ensures
        r@ == decimal(n as nat),
{
    let mut v: Vec<char> = Vec::new();
    push_decimal(&mut v, n);
    assert(v@ =~= decimal(n as nat));
    string_from_chars(v.as_slice())
}

/// The row of one gateway.
fn gateway_table_row(g: &Gateway, kind: GatewayTableKind) -> (r: Vec<String>)
    ensures
        cells_view(r@) == gateway_row(*g, kind),
{
    let mut router: Vec<char> = Vec::new();
    if g.is_best {
        push_str(&mut router, "* ");
    }
    push_hex_colon(&mut router, g.mac_addr.octets());
    let metric = match kind {
        GatewayTableKind::Tq => decimal_string(
            match g.tq {
                Some(v) => v,
                None => 0,
            } as u64,
        ),
        GatewayTableKind::Throughput => decimal_string(
            match g.throughput {
                Some(v) => v,
                None => 0,
            } as u64,
        ),
    };
    let down = decimal_string(
        match g.bandwidth_down {
            Some(v) => v,
            None => 0,
        } as u64,
    );
    let up = decimal_string(
        match g.bandwidth_up {
            Some(v) => v,
            None => 0,
        } as u64,
    );
    let r = vec![
        string_from_chars(router.as_slice()),
        metric,
        g.router.to_text(),
        g.outgoing_if.clone(),
        down,
        up,
    ];
    assert(router@ =~= gateway_row(*g, kind)[0]);
    assert(cells_view(r@) =~= gateway_row(*g, kind));
    r
}

/// The gateway table of `entries` for routing algorithm `algo_name`; an
/// algorithm other than `BATMAN_IV` and `BATMAN_V` shows no table.
pub fn gateway_table(entries: &[Gateway], algo_name: &str) -> (r: Option<GatewayTable>)
    ensures
        match table_kind_of(algo_name@) {
            None => r is None,
            Some(kind) => r matches Some(t) && cells_view(t.header@) == table_header(kind)
                && t.rows@.len() == entries@.len() && forall|i: int|
                0 <= i < entries@.len() ==> cells_view(#[trigger] t.rows@[i]@) == gateway_row(
                    entries@[i],
                    kind,
                ),
        },
{
    let kind = if str_equals(algo_name, "BATMAN_IV") {
        GatewayTableKind::Tq
    } else if str_equals(algo_name, "BATMAN_V") {
        GatewayTableKind::Throughput
    } else {
        return None;
    };
    let header = vec![
        "Router".to_string(),
        match kind {
            GatewayTableKind::Tq => "TQ".to_string(),
            GatewayTableKind::Throughput => "Throughput".to_string(),
        },
        "Next Hop".to_string(),
        "OutgoingIF".to_string(),
        "Bandwidth Down (Mbit/s)".to_string(),
        "Bandwidth Up (Mbit/s)".to_string(),
    ];
    assert(cells_view(header@) =~= table_header(kind));
    let mut rows: Vec<Vec<String>> = Vec::new();
    let mut i: usize = 0;
    while i < entries.len()
        invariant
            i <= entries.len(),
            rows@.len() == i,
            forall|j: int| 0 <= j < i ==> cells_view(#[trigger] rows@[j]@) == gateway_row(
                entries@[j],
                kind,
            ),
        decreases entries.len() - i,
    {
        let row = gateway_table_row(&entries[i], kind);
        rows.push(row);
        i = i + 1;
    }
    Some(GatewayTable { header, rows })
}

} // verus!
