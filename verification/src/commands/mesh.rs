//! Creation, deletion and listing of batman-adv mesh interfaces.

use crate::commands::interface::plain_flags;
use crate::model::Interface;
use crate::netlink::{
    attr_pairs, attr_string, find_attr_payload, find_pair_payload, find_payload,
    lemma_find_payload_pairs, nested_attr, nested_attrs, rtattr_string, string_attr, LinkFlags,
    LinkInfo, LinkOp, LinkRequest, NlAttr, IFLA_IFNAME, IFLA_INFO_KIND, IFLA_LINKINFO,
};
use crate::text::{opt_chars, opt_str_chars, str_equals};
use vstd::prelude::*;

verus! {

/// The link kind of batman-adv mesh interfaces.
pub open spec fn batadv_kind() -> Seq<char> {
    seq!['b', 'a', 't', 'a', 'd', 'v']
}

/// The request that creates mesh interface `mesh_if` of kind `batadv`,
/// with the routing algorithm when one is given; it must not exist yet.
pub fn create_mesh_request(mesh_if: &str, routing_algo: Option<&str>) -> (r: LinkRequest)
    ensures
        r.op == LinkOp::Newlink,
        r.flags == (LinkFlags { request: true, create: true, excl: true, ack: true, dump: false }),
        r.index == 0,
        opt_chars(r.ifname) == Some(mesh_if@),
        r.master is None,
        r.link_info matches Some(li) && li.kind@ == batadv_kind() && opt_chars(li.algo_name)
            == opt_str_chars(routing_algo),
{
    let algo_name = match routing_algo {
        Some(a) => Some(a.to_string()),
        None => None,
    };
    let kind = "batadv".to_string();
    proof {
        reveal_strlit("batadv");
    }
    assert(kind@ =~= batadv_kind());
    LinkRequest {
        op: LinkOp::Newlink,
        flags: LinkFlags { request: true, create: true, excl: true, ack: true, dump: false },
        index: 0,
        ifname: Some(mesh_if.to_string()),
        master: None,
        link_info: Some(LinkInfo { kind, algo_name }),
    }
}

/// The request that deletes mesh interface `mesh_ifindex`, with
/// acknowledgement.
pub fn delete_mesh_request(mesh_ifindex: u32) -> (r: LinkRequest)
    ensures
        r.op == LinkOp::Dellink,
        r.flags == plain_flags(true, true, false),
        r.index == mesh_ifindex as i32,
        r.ifname is None,
        r.master is None,
        r.link_info is None,
{
    LinkRequest {
        op: LinkOp::Dellink,
        flags: LinkFlags { request: true, create: false, excl: false, ack: true, dump: false },
        index: mesh_ifindex as i32,
        ifname: None,
        master: None,
        link_info: None,
    }
}

/// The request that dumps every link of the host, with acknowledgement.
pub fn list_meshes_request() -> (r: LinkRequest)
    ensures
        r.op == LinkOp::Getlink,
        r.flags == plain_flags(true, true, true),
        r.index == 0,
        r.ifname is None,
        r.master is None,
        r.link_info is None,
{
    LinkRequest {
        op: LinkOp::Getlink,
        flags: LinkFlags { request: true, create: false, excl: false, ack: true, dump: true },
        index: 0,
        ifname: None,
        master: None,
        link_info: None,
    }
}

/// The link kind of a link: the string `IFLA_INFO_KIND` nested in its
/// `IFLA_LINKINFO`.
pub open spec fn link_kind(attrs: Seq<NlAttr>) -> Option<Seq<char>> {
    match nested_attr(attrs, IFLA_LINKINFO) {
        Some(info) => match find_pair_payload(info, IFLA_INFO_KIND) {
            Some(k) => rtattr_string(k),
            None => None,
        },
        None => None,
    }
}

/// The name of the mesh interface that a link of the dump is: its
/// `IFLA_IFNAME`, where its link kind is `batadv`.
pub open spec fn mesh_link_name(attrs: Seq<NlAttr>) -> Option<Seq<char>> {
    match string_attr(attrs, IFLA_IFNAME) {
        Some(n) => if link_kind(attrs) == Some(batadv_kind()) {
            Some(n)
        } else {
            None
        },
        None => None,
    }
}

/// Whether the string attributes that reading a link reaches have a
/// payload: the name, then, once the name reads, the kind nested in the
/// link information. neli fails on an empty string payload by panicking.
pub open spec fn link_strings_present(attrs: Seq<NlAttr>) -> bool {
    &&& find_payload(attrs, IFLA_IFNAME) matches Some(p) ==> p.len() >= 1
    &&& string_attr(attrs, IFLA_IFNAME) is Some ==> (nested_attr(attrs, IFLA_LINKINFO) matches Some(
        info,
    ) ==> (find_pair_payload(info, IFLA_INFO_KIND) matches Some(k) ==> k.len() >= 1))
}

/// The mesh interface that a link of the dump is, if any: a link with a
/// name whose link kind is `batadv`. It exists in the link table, so it is
/// active.
pub fn mesh_of_link(attrs: &[NlAttr]) -> (r: Option<Interface>)
    requires
        link_strings_present(attrs@),
    ensures
        match mesh_link_name(attrs@) {
            Some(n) => r matches Some(i) && i.ifname@ == n && i.active,
            None => r is None,
        },
{
    let ifname = match attr_string(attrs, IFLA_IFNAME) {
        Some(n) => n,
        None => {
            return None;
        },
    };
    let info = match nested_attrs(attrs, IFLA_LINKINFO) {
        Some(v) => v,
        None => {
            return None;
        },
    };
    proof {
        lemma_find_payload_pairs(info@, IFLA_INFO_KIND);
    }
    let kind = match attr_string(info.as_slice(), IFLA_INFO_KIND) {
        Some(k) => k,
        None => {
            return None;
        },
    };
    proof {
        reveal_strlit("batadv");
        assert("batadv"@ =~= batadv_kind());
    }
    if str_equals(kind.as_str(), "batadv") {
        Some(Interface { ifname, active: true })
    } else {
        None
    }
}

/// `mesh_of_link` where reading the link stays clear of empty string
/// payloads; `None` where it would meet one.
pub fn checked_mesh_of_link(attrs: &[NlAttr]) -> (r: Option<Option<Interface>>)
    ensures
        match r {
            Some(m) => link_strings_present(attrs@) && match mesh_link_name(attrs@) {
                Some(n) => m matches Some(i) && i.ifname@ == n && i.active,
                None => m is None,
            },
            None => !link_strings_present(attrs@),
        },
{
    let name_ok = match find_attr_payload(attrs, IFLA_IFNAME) {
        Some(p) => p.len() >= 1,
        None => true,
    };
    if !name_ok {
        return None;
    }
    if attr_string(attrs, IFLA_IFNAME).is_some() {
        if let Some(info) = nested_attrs(attrs, IFLA_LINKINFO) {
            proof {
                lemma_find_payload_pairs(info@, IFLA_INFO_KIND);
            }
            if let Some(k) = find_attr_payload(info.as_slice(), IFLA_INFO_KIND) {
                if k.len() == 0 {
                    return None;
                }
            }
        }
    }
    Some(mesh_of_link(attrs))
}

/// Whether every link of a dump can be read without meeting an empty
/// string payload.
pub open spec fn links_readable(links: Seq<Vec<NlAttr>>) -> bool {
    forall|k: int| 0 <= k < links.len() ==> link_strings_present(#[trigger] links[k]@)
}

/// The names of the mesh interfaces among the links of a dump, in dump
/// order.
pub open spec fn mesh_names(links: Seq<Vec<NlAttr>>) -> Seq<Seq<char>>
    decreases links.len(),
{
    if links.len() == 0 {
        Seq::empty()
    } else {
        let rest = mesh_names(links.drop_last());
        match mesh_link_name(links.last()@) {
            Some(n) => rest.push(n),
            None => rest,
        }
    }
}

/// The mesh interfaces among the links of a whole `RTM_GETLINK` dump, each
/// link given by its attributes: in dump order, one active interface per
/// link that names a `batadv` link with a readable name. `None` where some
/// link has an empty string payload that reading it would meet.
pub fn meshes_of_links(links: &[Vec<NlAttr>]) -> (r: Option<Vec<Interface>>)
    ensures
        match r {
            Some(v) => links_readable(links@) && v@.map_values(|i: Interface| i.ifname@)
                == mesh_names(links@) && forall|k: int| 0 <= k < v.len() ==> (#[trigger] v@[k]).active,
            None => !links_readable(links@),
        },
{
    let mut out: Vec<Interface> = Vec::new();
    let mut i: usize = 0;
    assert(out@.map_values(|x: Interface| x.ifname@) =~= mesh_names(links@.take(0)));
    while i < links.len()
        invariant
            i <= links.len(),
            out@.map_values(|x: Interface| x.ifname@) == mesh_names(links@.take(i as int)),
            forall|k: int| 0 <= k < out.len() ==> (#[trigger] out@[k]).active,
            forall|k: int| 0 <= k < i ==> link_strings_present(#[trigger] links@[k]@),
        decreases links.len() - i,
    {
        let ghost t = links@.take(i + 1);
        assert(t.drop_last() == links@.take(i as int));
        assert(t.last() == links@[i as int]);
        match checked_mesh_of_link(links[i].as_slice()) {
            None => {
                return None;
            },
            Some(None) => {},
            Some(Some(m)) => {
                let ghost before = out@.map_values(|x: Interface| x.ifname@);
                out.push(m);
                assert(out@.map_values(|x: Interface| x.ifname@) =~= before.push(m.ifname@));
            },
        }
        i = i + 1;
    }
    assert(links@.take(links.len() as int) == links@);
    Some(out)
}

} // verus!
