//! The originator table of a mesh interface (`batctl o`).

use crate::commands::dump::{
    after_entries, dump_step, dump_step_spec, looked_up_name, lookup_name, mesh_ifindex_attrs,
    mesh_request, DumpView,
};
use crate::error::{Error, ErrorView};
use crate::mac::MacAddress;
use crate::model::Originator;
use crate::netlink::{
    attr_array_spec, attr_u32, attr_u32_spec, attr_u8, attr_u8_spec, attribute_id,
    find_attr_payload, find_payload, has_attr, payload_array16, payload_array6, Attribute,
    ByteOrder, Command, GenlMessage, GenlRequest, NlAttr,
};
use crate::text::{before_nul, decimal, lossy_c_string, push_decimal, push_str, string_from_chars, utf8_lossy};
use vstd::prelude::*;

verus! {

/// Where the outgoing interface of an originator entry is named: by the
/// entry itself, or by an interface index still to be looked up.
pub enum OutgoingIf {
    Name(String),
    Index(u32),
}

/// The outgoing interface of an entry, in mathematical form.
pub enum OutgoingIfView {
    Name(Seq<char>),
    Index(u32),
}

/// The view of an [`OutgoingIf`].
pub open spec fn outgoing_view(o: OutgoingIf) -> OutgoingIfView {
    match o {
        OutgoingIf::Name(n) => OutgoingIfView::Name(n@),
        OutgoingIf::Index(i) => OutgoingIfView::Index(i),
    }
}

/// The number of the originator address attribute.
pub open spec fn orig_id() -> u16 {
    attribute_id(Attribute::BatadvAttrOrigAddress)
}

/// The number of the next-hop neighbour address attribute.
pub open spec fn neigh_id() -> u16 {
    attribute_id(Attribute::BatadvAttrNeighAddress)
}

/// The outgoing interface of an originator entry: both addresses must be
/// present (six bytes each); the interface is named by a sixteen-byte
/// `HARD_IFNAME`, read up to its first zero byte, or else by
/// `HARD_IFINDEX`.
pub open spec fn outgoing_spec(attrs: Seq<NlAttr>, order: ByteOrder) -> Result<
    OutgoingIfView,
    ErrorView,
> {
    if attr_array_spec(attrs, orig_id(), 6) is None {
        Err(ErrorView::Argument("Missing ORIG_ADDRESS"@))
    } else if attr_array_spec(attrs, neigh_id(), 6) is None {
        Err(ErrorView::Argument("Missing NEIGH_ADDRESS"@))
    } else {
        match attr_array_spec(attrs, attribute_id(Attribute::BatadvAttrHardIfname), 16) {
            Some(b) => Ok(OutgoingIfView::Name(utf8_lossy(before_nul(b)))),
            None => match attr_u32_spec(
                attrs,
                attribute_id(Attribute::BatadvAttrHardIfindex),
                order,
            ) {
                Some(i) => Ok(OutgoingIfView::Index(i)),
                None => Err(ErrorView::Argument("Missing HARD_IFINDEX"@)),
            },
        }
    }
}

/// An originator entry in mathematical form.
pub struct OriginatorView {
    pub originator: Seq<u8>,
    pub next_hop: Seq<u8>,
    pub outgoing_if: Seq<char>,
    pub last_seen_ms: u32,
    pub tq: Option<u8>,
    pub throughput: Option<u32>,
    pub is_best: bool,
}

/// The view of an [`Originator`].
pub open spec fn originator_view(o: Originator) -> OriginatorView {
    OriginatorView {
        originator: o.originator@,
        next_hop: o.next_hop@,
        outgoing_if: o.outgoing_if@,
        last_seen_ms: o.last_seen_ms,
        tq: o.tq,
        throughput: o.throughput,
        is_best: o.is_best,
    }
}

/// The originator entry read from its attributes once its outgoing
/// interface is named: the last-seen time is required, the link quality
/// (TQ) and throughput are optional, and the `FLAG_BEST` attribute marks the
/// best route.
pub open spec fn originator_spec(attrs: Seq<NlAttr>, outgoing_if: Seq<char>, order: ByteOrder) -> Result<
    OriginatorView,
    ErrorView,
> {
    match (attr_array_spec(attrs, orig_id(), 6), attr_array_spec(attrs, neigh_id(), 6)) {
        (None, _) => Err(ErrorView::Argument("Missing ORIG_ADDRESS"@)),
        (Some(_), None) => Err(ErrorView::Argument("Missing NEIGH_ADDRESS"@)),
        (Some(o), Some(n)) => match attr_u32_spec(
            attrs,
            attribute_id(Attribute::BatadvAttrLastSeenMsecs),
            order,
        ) {
            None => Err(ErrorView::Argument("Missing LAST_SEEN_MSECS"@)),
            Some(last_seen_ms) => Ok(
                OriginatorView {
                    originator: o,
                    next_hop: n,
                    outgoing_if,
                    last_seen_ms,
                    tq: attr_u8_spec(attrs, attribute_id(Attribute::BatadvAttrTq)),
                    throughput: attr_u32_spec(
                        attrs,
                        attribute_id(Attribute::BatadvAttrThroughput),
                        order,
                    ),
                    is_best: find_payload(attrs, attribute_id(Attribute::BatadvAttrFlagBest)) is Some,
                },
            ),
        },
    }
}

/// The request that dumps the originator table of mesh interface
/// `ifindex`.
pub fn get_originators_request(ifindex: u32) -> (r: GenlRequest)
    ensures
        r.command == Command::BatadvCmdGetOriginators,
        r.dump,
        !r.ack,
        r.attrs@ == mesh_ifindex_attrs(ifindex),
{
    mesh_request(Command::BatadvCmdGetOriginators, ifindex, true, false)
}

/// The six-byte address carried by the first attribute of type `kind`.
fn attr_address(attrs: &[NlAttr], kind: u16) -> (r: Option<[u8; 6]>)
    ensures
        match r {
            Some(a) => attr_array_spec(attrs@, kind, 6) == Some(a@),
            None => attr_array_spec(attrs@, kind, 6) is None,
        },
{
    match find_attr_payload(attrs, kind) {
        Some(p) => payload_array6(p),
        None => None,
    }
}

/// Reads where the outgoing interface of an originator entry is named.
pub fn originator_outgoing(attrs: &[NlAttr], order: ByteOrder) -> (r: Result<OutgoingIf, Error>)
    ensures
        match outgoing_spec(attrs@, order) {
            Ok(o) => r matches Ok(x) && outgoing_view(x) == o,
            Err(e) => r matches Err(x) && x@ == e,
        },
{
    if attr_address(attrs, Attribute::BatadvAttrOrigAddress.id()).is_none() {
        return Err(Error::Argument("Missing ORIG_ADDRESS".to_string()));
    }
    if attr_address(attrs, Attribute::BatadvAttrNeighAddress.id()).is_none() {
        return Err(Error::Argument("Missing NEIGH_ADDRESS".to_string()));
    }
    let name = match find_attr_payload(attrs, Attribute::BatadvAttrHardIfname.id()) {
        Some(p) => payload_array16(p),
        None => None,
    };
    match name {
        Some(b) => Ok(OutgoingIf::Name(lossy_c_string(b.as_slice()))),
        None => match attr_u32(attrs, Attribute::BatadvAttrHardIfindex.id(), order) {
            Some(i) => Ok(OutgoingIf::Index(i)),
            None => Err(Error::Argument("Missing HARD_IFINDEX".to_string())),
        },
    }
}

/// The name of the outgoing interface: the one the entry carries, or the
/// one looked up for its index (`None` when the lookup failed).
pub fn outgoing_if_name(outgoing: OutgoingIf, looked_up: Option<String>) -> (r: Result<
    String,
    Error,
>)
    ensures
        match outgoing_view(outgoing) {
            OutgoingIfView::Name(n) => r matches Ok(x) && x@ == n,
            OutgoingIfView::Index(i) => match looked_up {
                Some(n) => r == Ok::<String, Error>(n),
                None => r matches Err(e) && e@ == ErrorView::Netlink(
                    "Failed to resolve ifindex "@ + decimal(i as nat) + " -> name"@,
                ),
            },
        },
{
    match outgoing {
        OutgoingIf::Name(n) => Ok(n),
        OutgoingIf::Index(i) => match looked_up {
            Some(n) => Ok(n),
            None => {
                let mut m: Vec<char> = Vec::new();
                push_str(&mut m, "Failed to resolve ifindex ");
                push_decimal(&mut m, i as u64);
                push_str(&mut m, " -> name");
                Err(Error::Netlink(string_from_chars(m.as_slice())))
            },
        },
    }
}

/// Reads an originator entry whose outgoing interface is `outgoing_if`.
pub fn originator_from_attrs(attrs: &[NlAttr], outgoing_if: String, order: ByteOrder) -> (r: Result<
    Originator,
    Error,
>)
    ensures
        match originator_spec(attrs@, outgoing_if@, order) {
            Ok(o) => r matches Ok(x) && originator_view(x) == o,
            Err(e) => r matches Err(x) && x@ == e,
        },
{
    let orig = match attr_address(attrs, Attribute::BatadvAttrOrigAddress.id()) {
        Some(a) => a,
        None => {
            return Err(Error::Argument("Missing ORIG_ADDRESS".to_string()));
        },
    };
    let neigh = match attr_address(attrs, Attribute::BatadvAttrNeighAddress.id()) {
        Some(a) => a,
        None => {
            return Err(Error::Argument("Missing NEIGH_ADDRESS".to_string()));
        },
    };
    let last_seen_ms = match attr_u32(attrs, Attribute::BatadvAttrLastSeenMsecs.id(), order) {
        Some(v) => v,
        None => {
            return Err(Error::Argument("Missing LAST_SEEN_MSECS".to_string()));
        },
    };
    let tq = attr_u8(attrs, Attribute::BatadvAttrTq.id());
    let throughput = attr_u32(attrs, Attribute::BatadvAttrThroughput.id(), order);
    let is_best = has_attr(attrs, Attribute::BatadvAttrFlagBest.id());
    Ok(
        Originator {
            originator: MacAddress::from_octets(orig),
            next_hop: MacAddress::from_octets(neigh),
            outgoing_if,
            last_seen_ms,
            tq,
            throughput,
            is_best,
        },
    )
}

/// The name of the outgoing interface of an entry, given the names looked
/// up for interface indices.
pub open spec fn outgoing_name_spec(o: OutgoingIfView, names: Seq<(u32, Option<String>)>) -> Result<
    Seq<char>,
    ErrorView,
> {
    match o {
        OutgoingIfView::Name(n) => Ok(n),
        OutgoingIfView::Index(i) => match looked_up_name(names, i) {
            Some(n) => Ok(n),
            None => Err(
                ErrorView::Netlink("Failed to resolve ifindex "@ + decimal(i as nat) + " -> name"@),
            ),
        },
    }
}

/// What the dump of the originator table answers, given the names looked
/// up for interface indices: the messages are read in order, a failure to
/// read one is returned as it is, `NLMSG_DONE` or a zero error code ends the
/// dump, another error fails it, and each entry must name its outgoing
/// interface (by name, or by an index whose name was found) and carry the
/// fields of an originator.
pub open spec fn originator_dump(
    replies: Seq<Result<GenlMessage, Error>>,
    names: Seq<(u32, Option<String>)>,
    order: ByteOrder,
) -> Result<Seq<OriginatorView>, ErrorView>
    decreases replies.len(),
{
    if replies.len() == 0 {
        Ok(Seq::empty())
    } else {
        match replies[0] {
            Err(e) => Err(e@),
            Ok(m) => match dump_step_spec(m, "Message without payload"@) {
                DumpView::End => Ok(Seq::empty()),
                DumpView::Fail(e) => Err(e),
                DumpView::Entry(a) => match outgoing_spec(a, order) {
                    Err(e) => Err(e),
                    Ok(o) => match outgoing_name_spec(o, names) {
                        Err(e) => Err(e),
                        Ok(n) => match originator_spec(a, n, order) {
                            Err(e) => Err(e),
                            Ok(v) => after_entries(
                                seq![v],
                                originator_dump(replies.drop_first(), names, order),
                            ),
                        },
                    },
                },
            },
        }
    }
}

/// The interface indices whose names the originator dump needs: that of
/// each entry naming its outgoing interface by index, in order, up to the
/// message that ends or fails the dump.
pub open spec fn originator_lookups(replies: Seq<Result<GenlMessage, Error>>, order: ByteOrder) -> Seq<u32>
    decreases replies.len(),
{
    if replies.len() == 0 {
        Seq::empty()
    } else {
        match replies[0] {
            Err(_) => Seq::empty(),
            Ok(m) => match dump_step_spec(m, "Message without payload"@) {
                DumpView::Entry(a) => match outgoing_spec(a, order) {
                    Ok(OutgoingIfView::Index(i)) => seq![i] + originator_lookups(
                        replies.drop_first(),
                        order,
                    ),
                    Ok(OutgoingIfView::Name(_)) => originator_lookups(replies.drop_first(), order),
                    Err(_) => Seq::empty(),
                },
                _ => Seq::empty(),
            },
        }
    }
}

/// The interface indices to look up before reading an originator dump.
pub fn originator_lookup_indices(replies: &[Result<GenlMessage, Error>], order: ByteOrder) -> (r: Vec<u32>)
    ensures
        r@ == originator_lookups(replies@, order),
{
    let mut out: Vec<u32> = Vec::new();
    let mut i: usize = 0;
    assert(replies@.skip(0) == replies@);
    while i < replies.len()
        invariant
            i <= replies.len(),
            originator_lookups(replies@, order) == out@ + originator_lookups(replies@.skip(i as int), order),
        decreases replies.len() - i,
    {
        let ghost rest = replies@.skip(i as int);
        assert(rest[0] == replies@[i as int]);
        assert(rest.drop_first() == replies@.skip(i + 1));
        let m = match &replies[i] {
            Ok(m) => m,
            Err(_) => {
                assert(out@ + Seq::<u32>::empty() == out@);
                return out;
            },
        };
        let attrs = match dump_step(m, "Message without payload") {
            Ok(Some(a)) => a,
            _ => {
                assert(out@ + Seq::<u32>::empty() == out@);
                return out;
            },
        };
        match originator_outgoing(attrs, order) {
            Ok(OutgoingIf::Index(idx)) => {
                let ghost before = out@;
                out.push(idx);
                assert(before + (seq![idx] + originator_lookups(replies@.skip(i + 1), order)) == out@
                    + originator_lookups(replies@.skip(i + 1), order));
            },
            Ok(OutgoingIf::Name(_)) => {},
            Err(_) => {
                assert(out@ + Seq::<u32>::empty() == out@);
                return out;
            },
        }
        i = i + 1;
    }
    assert(replies@.skip(i as int).len() == 0);
    assert(out@ + Seq::<u32>::empty() == out@);
    out
}

/// The originator table that a whole dump reply answers, each item being a
/// received message or the failure to read one, with the interface names
/// looked up for the indices its entries name.
pub fn originators_of_dump(
    replies: &[Result<GenlMessage, Error>],
    names: &[(u32, Option<String>)],
    order: ByteOrder,
) -> (r: Result<Vec<Originator>, Error>)
    ensures
        match originator_dump(replies@, names@, order) {
            Ok(v) => r matches Ok(x) && x@.map_values(|o: Originator| originator_view(o)) == v,
            Err(e) => r matches Err(x) && x@ == e,
        },
{
    let mut out: Vec<Originator> = Vec::new();
    let mut i: usize = 0;
    assert(replies@.skip(0) == replies@);
    assert(out@.map_values(|o: Originator| originator_view(o)) =~= Seq::<OriginatorView>::empty());
    while i < replies.len()
        invariant
            i <= replies.len(),
            originator_dump(replies@, names@, order) == after_entries(
                out@.map_values(|o: Originator| originator_view(o)),
                originator_dump(replies@.skip(i as int), names@, order),
            ),
        decreases replies.len() - i,
    {
        let ghost rest = replies@.skip(i as int);
        assert(rest[0] == replies@[i as int]);
        assert(rest.drop_first() == replies@.skip(i + 1));
        let ghost views = out@.map_values(|o: Originator| originator_view(o));
        let m = match &replies[i] {
            Ok(m) => m,
            Err(e) => {
                return Err(e.duplicate());
            },
        };
        let attrs = match dump_step(m, "Message without payload") {
            Ok(Some(a)) => a,
            Ok(None) => {
                assert(views + Seq::<OriginatorView>::empty() =~= views);
                return Ok(out);
            },
            Err(e) => {
                return Err(e);
            },
        };
        let outgoing = match originator_outgoing(attrs, order) {
            Ok(o) => o,
            Err(e) => {
                return Err(e);
            },
        };
        let looked_up = match &outgoing {
            OutgoingIf::Index(idx) => lookup_name(names, *idx),
            OutgoingIf::Name(_) => None,
        };
        let name = match outgoing_if_name(outgoing, looked_up) {
            Ok(n) => n,
            Err(e) => {
                return Err(e);
            },
        };
        let entry = match originator_from_attrs(attrs, name, order) {
            Ok(x) => x,
            Err(e) => {
                return Err(e);
            },
        };
        let ghost item = seq![originator_view(entry)];
        proof {
            let tail = originator_dump(replies@.skip(i + 1), names@, order);
            assert(originator_dump(rest, names@, order) == after_entries(item, tail));
            if let Ok(v) = tail {
                assert(views + (item + v) =~= (views + item) + v);
            }
        }
        out.push(entry);
        assert(out@.map_values(|o: Originator| originator_view(o)) =~= views + item);
        i = i + 1;
    }
    assert(replies@.skip(i as int).len() == 0);
    assert(out@.map_values(|o: Originator| originator_view(o)) + Seq::<OriginatorView>::empty()
        =~= out@.map_values(|o: Originator| originator_view(o)));
    Ok(out)
}

} // verus!
