//! Hard interfaces attached to a mesh interface.

use crate::commands::dump::{
    after_entries, dump_step, dump_step_spec, looked_up_name, lookup_name, mesh_ifindex_attrs,
    mesh_request, DumpView,
};
use crate::error::{Error, ErrorView};
use crate::model::Interface;
use crate::netlink::{
    attr_u32, attr_u32_spec, attribute_id, find_payload, has_attr, Attribute, ByteOrder, Command,
    GenlMessage, GenlRequest, LinkFlags, LinkOp, LinkRequest, NlAttr, IFLA_MASTER,
};
use crate::text::{push_decimal, push_str, decimal, string_from_chars};
use vstd::prelude::*;

verus! {

/// The flags of a request that asks for no more than it names.
pub open spec fn plain_flags(request: bool, ack: bool, dump: bool) -> LinkFlags {
    LinkFlags { request, create: false, excl: false, ack, dump }
}

/// The request that dumps every link of the host, with acknowledgement.
pub fn count_interfaces_request() -> (r: LinkRequest)
    ensures
        r.op == LinkOp::Getlink,
        r.flags == plain_flags(false, true, true),
        r.index == 0,
        r.ifname is None,
        r.master is None,
        r.link_info is None,
{
    LinkRequest {
        op: LinkOp::Getlink,
        flags: LinkFlags { request: false, create: false, excl: false, ack: true, dump: true },
        index: 0,
        ifname: None,
        master: None,
        link_info: None,
    }
}

/// Whether a link (`None` when its message had no payload) has
/// `mesh_ifindex` as master.
pub open spec fn enslaved_to(link: Option<Vec<NlAttr>>, mesh_ifindex: u32, order: ByteOrder) -> bool {
    match link {
        Some(a) => attr_u32_spec(a@, IFLA_MASTER, order) == Some(mesh_ifindex),
        None => false,
    }
}

/// How many of the links have `mesh_ifindex` as master.
pub open spec fn enslaved_count(links: Seq<Option<Vec<NlAttr>>>, mesh_ifindex: u32, order: ByteOrder) -> nat
    decreases links.len(),
{
    if links.len() == 0 {
        0
    } else {
        enslaved_count(links.drop_last(), mesh_ifindex, order) + if enslaved_to(
            links.last(),
            mesh_ifindex,
            order,
        ) {
            1nat
        } else {
            0nat
        }
    }
}

proof fn lemma_enslaved_count_bound(links: Seq<Option<Vec<NlAttr>>>, mesh_ifindex: u32, order: ByteOrder)
    ensures
        enslaved_count(links, mesh_ifindex, order) <= links.len(),
    decreases links.len(),
{
    if links.len() > 0 {
        lemma_enslaved_count_bound(links.drop_last(), mesh_ifindex, order);
    }
}

/// Counts the links of a dump that are attached to mesh interface
/// `mesh_ifindex`, reading each link's `IFLA_MASTER` in host byte order.
pub fn count_enslaved(links: &[Option<Vec<NlAttr>>], mesh_ifindex: u32, order: ByteOrder) -> (r: u32)
    requires
        links.len() <= u32::MAX,
    ensures
        r == enslaved_count(links@, mesh_ifindex, order),
{
    let mut count: u32 = 0;
    let mut i: usize = 0;
    while i < links.len()
        invariant
            i <= links.len(),
            links.len() <= u32::MAX,
            count == enslaved_count(links@.take(i as int), mesh_ifindex, order),
        decreases links.len() - i,
    {
        proof {
            let t = links@.take(i + 1);
            assert(t.drop_last() == links@.take(i as int));
            assert(t.last() == links@[i as int]);
            lemma_enslaved_count_bound(links@.take(i as int), mesh_ifindex, order);
        }
        let hit = match &links[i] {
            Some(a) => match attr_u32(a.as_slice(), IFLA_MASTER, order) {
                Some(m) => m == mesh_ifindex,
                None => false,
            },
            None => false,
        };
        if hit {
            count = count + 1;
        }
        i = i + 1;
    }
    assert(links@.take(links.len() as int) == links@);
    count
}

/// The request that dumps the hard interfaces of mesh interface
/// `mesh_ifindex`.
pub fn get_interfaces_request(mesh_ifindex: u32) -> (r: GenlRequest)
    ensures
        r.command == Command::BatadvCmdGetHardif,
        r.dump,
        !r.ack,
        r.attrs@ == mesh_ifindex_attrs(mesh_ifindex),
{
    mesh_request(Command::BatadvCmdGetHardif, mesh_ifindex, true, false)
}

/// The interface index and activity of a hard interface entry, or the
/// error of an entry without index.
pub open spec fn hardif_spec(attrs: Seq<NlAttr>, order: ByteOrder) -> Result<(u32, bool), ErrorView> {
    match attr_u32_spec(attrs, attribute_id(Attribute::BatadvAttrHardIfindex), order) {
        Some(i) => Ok((i, find_payload(attrs, attribute_id(Attribute::BatadvAttrActive)) is Some)),
        None => Err(ErrorView::Argument("Error - missing HARD_IFINDEX"@)),
    }
}

/// Reads the interface index and the activity flag of a hard interface
/// entry; its name is then looked up by index.
pub fn hardif_of_entry(attrs: &[NlAttr], order: ByteOrder) -> (r: Result<(u32, bool), Error>)
    ensures
        match hardif_spec(attrs@, order) {
            Ok(v) => r == Ok::<(u32, bool), Error>(v),
            Err(e) => r matches Err(x) && x@ == e,
        },
{
    match attr_u32(attrs, Attribute::BatadvAttrHardIfindex.id(), order) {
        Some(i) => Ok((i, has_attr(attrs, Attribute::BatadvAttrActive.id()))),
        None => Err(Error::Argument("Error - missing HARD_IFINDEX".to_string())),
    }
}

/// The hard interface entry once its name was looked up (`None` when the
/// lookup failed).
pub fn interface_entry(hard_ifindex: u32, active: bool, name: Option<String>) -> (r: Result<
    Interface,
    Error,
>)
    ensures
        match name {
            Some(n) => r matches Ok(i) && i.ifname == n && i.active == active,
            None => r matches Err(e) && e@ == ErrorView::Netlink(
                "Error - failed to resolve interface index "@ + decimal(hard_ifindex as nat),
            ),
        },
{
    match name {
        Some(n) => Ok(Interface { ifname: n, active }),
        None => {
            let mut m: Vec<char> = Vec::new();
            push_str(&mut m, "Error - failed to resolve interface index ");
            push_decimal(&mut m, hard_ifindex as u64);
            Err(Error::Netlink(string_from_chars(m.as_slice())))
        },
    }
}

/// The request that attaches interface `iface_ifindex` to mesh interface
/// `mesh_ifindex` (`IFLA_MASTER`), or detaches it (master 0) when no mesh
/// is given, with acknowledgement.
pub fn set_interface_request(iface_ifindex: u32, mesh_ifindex: Option<u32>) -> (r: LinkRequest)
    ensures
        r.op == LinkOp::Setlink,
        r.flags == plain_flags(true, true, false),
        r.index == iface_ifindex as i32,
        r.ifname is None,
        r.master == Some(mesh_ifindex.unwrap_or(0)),
        r.link_info is None,
{
    let master = match mesh_ifindex {
        Some(m) => m,
        None => 0,
    };
    LinkRequest {
        op: LinkOp::Setlink,
        flags: LinkFlags { request: true, create: false, excl: false, ack: true, dump: false },
        index: iface_ifindex as i32,
        ifname: None,
        master: Some(master),
        link_info: None,
    }
}

/// A hard interface entry in mathematical form: its name and whether it is
/// active.
pub open spec fn interface_views(v: Seq<Interface>) -> Seq<(Seq<char>, bool)> {
    v.map_values(|i: Interface| (i.ifname@, i.active))
}

/// What the dump of the hard interfaces of a mesh answers, given the names
/// looked up for interface indices: the messages are read in order, a
/// failure to read one is returned as it is, `NLMSG_DONE` or a zero error
/// code ends the dump, another error fails it, and each entry must carry
/// its index and a name found for it.
pub open spec fn hardif_dump(
    replies: Seq<Result<GenlMessage, Error>>,
    names: Seq<(u32, Option<String>)>,
    order: ByteOrder,
) -> Result<Seq<(Seq<char>, bool)>, ErrorView>
    decreases replies.len(),
{
    if replies.len() == 0 {
        Ok(Seq::empty())
    } else {
        match replies[0] {
            Err(e) => Err(e@),
            Ok(m) => match dump_step_spec(m, "Error - message has no payload"@) {
                DumpView::End => Ok(Seq::empty()),
                DumpView::Fail(e) => Err(e),
                DumpView::Entry(a) => match hardif_spec(a, order) {
                    Err(e) => Err(e),
                    Ok((i, active)) => match looked_up_name(names, i) {
                        None => Err(
                            ErrorView::Netlink(
                                "Error - failed to resolve interface index "@ + decimal(i as nat),
                            ),
                        ),
                        Some(n) => after_entries(
                            seq![(n, active)],
                            hardif_dump(replies.drop_first(), names, order),
                        ),
                    },
                },
            },
        }
    }
}

/// The interface indices whose names the dump of hard interfaces needs:
/// that of each entry, in order, up to the message that ends or fails the
/// dump.
pub open spec fn hardif_lookups(replies: Seq<Result<GenlMessage, Error>>, order: ByteOrder) -> Seq<u32>
    decreases replies.len(),
{
    if replies.len() == 0 {
        Seq::empty()
    } else {
        match replies[0] {
            Err(_) => Seq::empty(),
            Ok(m) => match dump_step_spec(m, "Error - message has no payload"@) {
                DumpView::Entry(a) => match hardif_spec(a, order) {
                    Ok((i, _)) => seq![i] + hardif_lookups(replies.drop_first(), order),
                    Err(_) => Seq::empty(),
                },
                _ => Seq::empty(),
            },
        }
    }
}

/// The interface indices to look up before reading a dump of hard
/// interfaces.
pub fn hardif_lookup_indices(replies: &[Result<GenlMessage, Error>], order: ByteOrder) -> (r: Vec<u32>)
    ensures
        r@ == hardif_lookups(replies@, order),
{
    let mut out: Vec<u32> = Vec::new();
    let mut i: usize = 0;
    assert(replies@.skip(0) == replies@);
    while i < replies.len()
        invariant
            i <= replies.len(),
            hardif_lookups(replies@, order) == out@ + hardif_lookups(replies@.skip(i as int), order),
        decreases replies.len() - i,
    {
        let ghost rest = replies@.skip(i as int);
        assert(rest[0] == replies@[i as int]);
        assert(rest.drop_first() == replies@.skip(i + 1));
        let m = match &replies[i] {
            Ok(m) => m,
            Err(_) => {
                assert(out@ + Seq::<u32>::empty() == out@);
                return out;
            },
        };
        let attrs = match dump_step(m, "Error - message has no payload") {
            Ok(Some(a)) => a,
            _ => {
                proof {
                    reveal_strlit("Error - message has no payload");
                }
                assert(out@ + Seq::<u32>::empty() == out@);
                return out;
            },
        };
        match hardif_of_entry(attrs, order) {
            Ok((idx, _)) => {
                let ghost before = out@;
                out.push(idx);
                assert(before + (seq![idx] + hardif_lookups(replies@.skip(i + 1), order)) == out@
                    + hardif_lookups(replies@.skip(i + 1), order));
            },
            Err(_) => {
                assert(out@ + Seq::<u32>::empty() == out@);
                return out;
            },
        }
        i = i + 1;
    }
    assert(replies@.skip(i as int).len() == 0);
    assert(out@ + Seq::<u32>::empty() == out@);
    out
}

/// The hard interfaces that a whole dump reply answers, each item being a
/// received message or the failure to read one, with the interface names
/// looked up for the indices of its entries.
pub fn interfaces_of_dump(
    replies: &[Result<GenlMessage, Error>],
    names: &[(u32, Option<String>)],
    order: ByteOrder,
) -> (r: Result<Vec<Interface>, Error>)
    ensures
        match hardif_dump(replies@, names@, order) {
            Ok(v) => r matches Ok(x) && interface_views(x@) == v,
            Err(e) => r matches Err(x) && x@ == e,
        },
{
    let mut out: Vec<Interface> = Vec::new();
    let mut i: usize = 0;
    assert(replies@.skip(0) == replies@);
    assert(interface_views(out@) =~= Seq::<(Seq<char>, bool)>::empty());
    while i < replies.len()
        invariant
            i <= replies.len(),
            hardif_dump(replies@, names@, order) == after_entries(
                interface_views(out@),
                hardif_dump(replies@.skip(i as int), names@, order),
            ),
        decreases replies.len() - i,
    {
        let ghost rest = replies@.skip(i as int);
        assert(rest[0] == replies@[i as int]);
        assert(rest.drop_first() == replies@.skip(i + 1));
        let m = match &replies[i] {
            Ok(m) => m,
            Err(e) => {
                return Err(e.duplicate());
            },
        };
        let attrs = match dump_step(m, "Error - message has no payload") {
            Ok(Some(a)) => a,
            Ok(None) => {
                assert(interface_views(out@) + Seq::<(Seq<char>, bool)>::empty() =~= interface_views(out@));
                return Ok(out);
            },
            Err(e) => {
                return Err(e);
            },
        };
        let (idx, active) = match hardif_of_entry(attrs, order) {
            Ok(v) => v,
            Err(e) => {
                return Err(e);
            },
        };
        let entry = match interface_entry(idx, active, lookup_name(names, idx)) {
            Ok(x) => x,
            Err(e) => {
                return Err(e);
            },
        };
        let ghost before = interface_views(out@);
        let ghost item = seq![(entry.ifname@, active)];
        proof {
            let tail = hardif_dump(replies@.skip(i + 1), names@, order);
            assert(hardif_dump(rest, names@, order) == after_entries(item, tail));
            if let Ok(v) = tail {
                assert(before + (item + v) =~= (before + item) + v);
            }
        }
        out.push(entry);
        assert(interface_views(out@) =~= before + item);
        i = i + 1;
    }
    assert(replies@.skip(i as int).len() == 0);
    assert(interface_views(out@) + Seq::<(Seq<char>, bool)>::empty() =~= interface_views(out@));
    Ok(out)
}

} // verus!
