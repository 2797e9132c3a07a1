//! The library's model of the netlink messages it exchanges with the
//! kernel: batman-adv generic netlink commands and attributes, the
//! rtnetlink link requests, and the attributes of received messages with
//! the decoding of their payloads.

use neli::types::{Buffer, RtBuffer};
use neli::FromBytesWithInput;
use std::io::Cursor;
use vstd::prelude::*;

verus! {

/// Netlink message type of the last message of a dump.
pub const NLMSG_DONE: u16 = 3;

/// Netlink message type of an error (or acknowledgement) message.
pub const NLMSG_ERROR: u16 = 2;

/// batman-adv generic netlink attributes used by the library.
#[derive(Debug, Clone, Copy, PartialEq, Eq, Structural)]
pub enum Attribute {
    BatadvAttrAlgoName,
    BatadvAttrMeshIfindex,
    BatadvAttrHardIfindex,
    BatadvAttrHardIfname,
    BatadvAttrOrigAddress,
    BatadvAttrActive,
    BatadvAttrFlagBest,
    BatadvAttrLastSeenMsecs,
    BatadvAttrNeighAddress,
    BatadvAttrTq,
    BatadvAttrThroughput,
    BatadvAttrApIsolationEnabled,
    BatadvAttrGwBandwidthDown,
    BatadvAttrGwBandwidthUp,
    BatadvAttrGwMode,
    BatadvAttrGwSelClass,
}

/// The attribute's number in the batman-adv netlink interface.
pub open spec fn attribute_id(a: Attribute) -> u16 {
    match a {
        Attribute::BatadvAttrAlgoName => 2,
        Attribute::BatadvAttrMeshIfindex => 3,
        Attribute::BatadvAttrHardIfindex => 6,
        Attribute::BatadvAttrHardIfname => 7,
        Attribute::BatadvAttrOrigAddress => 9,
        Attribute::BatadvAttrActive => 15,
        Attribute::BatadvAttrFlagBest => 22,
        Attribute::BatadvAttrLastSeenMsecs => 23,
        Attribute::BatadvAttrNeighAddress => 24,
        Attribute::BatadvAttrTq => 25,
        Attribute::BatadvAttrThroughput => 26,
        Attribute::BatadvAttrApIsolationEnabled => 42,
        Attribute::BatadvAttrGwBandwidthDown => 49,
        Attribute::BatadvAttrGwBandwidthUp => 50,
        Attribute::BatadvAttrGwMode => 51,
        Attribute::BatadvAttrGwSelClass => 52,
    }
}

impl Attribute {
    /// The attribute's number in the batman-adv netlink interface.
    pub fn id(self) -> (r: u16)
        ensures
            r == attribute_id(self),
    {
        match self {
            Attribute::BatadvAttrAlgoName => 2,
            Attribute::BatadvAttrMeshIfindex => 3,
            Attribute::BatadvAttrHardIfindex => 6,
            Attribute::BatadvAttrHardIfname => 7,
            Attribute::BatadvAttrOrigAddress => 9,
            Attribute::BatadvAttrActive => 15,
            Attribute::BatadvAttrFlagBest => 22,
            Attribute::BatadvAttrLastSeenMsecs => 23,
            Attribute::BatadvAttrNeighAddress => 24,
            Attribute::BatadvAttrTq => 25,
            Attribute::BatadvAttrThroughput => 26,
            Attribute::BatadvAttrApIsolationEnabled => 42,
            Attribute::BatadvAttrGwBandwidthDown => 49,
            Attribute::BatadvAttrGwBandwidthUp => 50,
            Attribute::BatadvAttrGwMode => 51,
            Attribute::BatadvAttrGwSelClass => 52,
        }
    }
}

/// batman-adv generic netlink commands used by the library.
#[derive(Debug, Clone, Copy, PartialEq, Eq, Structural)]
pub enum Command {
    BatadvCmdGetMeshInfo,
    BatadvCmdGetHardif,
    BatadvCmdGetOriginators,
    BatadvCmdSetMesh,
}

/// The command's number in the batman-adv netlink interface.
pub open spec fn command_id(c: Command) -> u8 {
    match c {
        Command::BatadvCmdGetMeshInfo => 1,
        Command::BatadvCmdGetHardif => 5,
        Command::BatadvCmdGetOriginators => 8,
        Command::BatadvCmdSetMesh => 15,
    }
}

impl Command {
    /// The command's number in the batman-adv netlink interface.
    pub fn id(self) -> (r: u8)
        ensures
            r == command_id(self),
    {
        match self {
            Command::BatadvCmdGetMeshInfo => 1,
            Command::BatadvCmdGetHardif => 5,
            Command::BatadvCmdGetOriginators => 8,
            Command::BatadvCmdSetMesh => 15,
        }
    }
}

/// The value of an attribute sent to the kernel.
#[derive(Debug, Clone, Copy, PartialEq, Eq, Structural)]
pub enum AttrValueForSend {
    U8(u8),
    U32(u32),
}

/// A generic netlink request to the batman-adv family: the command, whether
/// a dump (`NLM_F_DUMP`) and an acknowledgement (`NLM_F_ACK`) are asked for,
/// and the attributes, in order. Every request carries `NLM_F_REQUEST`.
#[derive(Debug, Clone, PartialEq, Eq)]
pub struct GenlRequest {
    pub command: Command,
    pub dump: bool,
    pub ack: bool,
    pub attrs: Vec<(Attribute, AttrValueForSend)>,
}

/// An attribute of a received message: its type (without the nesting and
/// byte-order flags) and its unpadded payload.
#[derive(Debug, Clone, PartialEq, Eq)]
pub struct NlAttr {
    pub kind: u16,
    pub payload: Vec<u8>,
}

/// The payload of a received generic netlink message.
#[derive(Debug, Clone, PartialEq, Eq)]
pub enum GenlPayload {
    /// The attributes of a reply.
    Attrs(Vec<NlAttr>),
    /// An error message with its error code (zero for success).
    Error(i32),
    /// An acknowledgement, the extended acknowledgement of a dump, or no
    /// payload.
    Other,
}

/// A received generic netlink message.
#[derive(Debug, Clone, PartialEq, Eq)]
pub struct GenlMessage {
    pub nl_type: u16,
    pub payload: GenlPayload,
}

/// The rtnetlink link operation of a request.
#[derive(Debug, Clone, Copy, PartialEq, Eq, Structural)]
pub enum LinkOp {
    Newlink,
    Dellink,
    Setlink,
    Getlink,
}

/// The netlink header flags of a request.
#[derive(Debug, Clone, Copy, PartialEq, Eq, Structural)]
pub struct LinkFlags {
    pub request: bool,
    pub create: bool,
    pub excl: bool,
    pub ack: bool,
    pub dump: bool,
}

/// The `IFLA_LINKINFO` attribute of a request: the link kind
/// (`IFLA_INFO_KIND`) and, inside `IFLA_INFO_DATA`, the batman-adv routing
/// algorithm (`IFLA_BATADV_ALGO_NAME`) when one is given.
#[derive(Debug, Clone, PartialEq, Eq)]
pub struct LinkInfo {
    pub kind: String,
    pub algo_name: Option<String>,
}

/// An rtnetlink link request: the operation, its flags, the interface index
/// of the `ifinfomsg` header (0 when none is named), and the attributes
/// `IFLA_IFNAME`, `IFLA_MASTER` and `IFLA_LINKINFO` where present, in that
/// order. The address family is unspecified.
#[derive(Debug, Clone, PartialEq, Eq)]
pub struct LinkRequest {
    pub op: LinkOp,
    pub flags: LinkFlags,
    pub index: i32,
    pub ifname: Option<String>,
    pub master: Option<u32>,
    pub link_info: Option<LinkInfo>,
}

/// The value of an attribute of a link request.
#[derive(Debug, PartialEq, Eq)]
pub enum LinkAttrValue {
    /// A string, sent with its terminating zero byte.
    Text(String),
    /// A 32-bit integer in host byte order.
    U32(u32),
    /// Attributes nested inside this one, in order.
    Nested(Vec<LinkAttr>),
}

/// An attribute of a link request: its type and its value.
#[derive(Debug, PartialEq, Eq)]
pub struct LinkAttr {
    pub kind: u16,
    pub value: LinkAttrValue,
}

/// An attribute of a link request in mathematical form.
pub enum AttrTree {
    Text(u16, Seq<char>),
    U32(u16, u32),
    Nested(u16, Seq<AttrTree>),
}

/// The mathematical form of an attribute.
pub open spec fn attr_tree(a: LinkAttr) -> AttrTree
    decreases a, 0int,
{
    match a.value {
        LinkAttrValue::Text(t) => AttrTree::Text(a.kind, t@),
        LinkAttrValue::U32(n) => AttrTree::U32(a.kind, n),
        LinkAttrValue::Nested(v) => AttrTree::Nested(a.kind, attr_trees_from(v, 0)),
    }
}

/// The mathematical form of the attributes of `v` from position `i` on.
pub open spec fn attr_trees_from(v: Vec<LinkAttr>, i: int) -> Seq<AttrTree>
    decreases v, v.len() - i,
    when 0 <= i <= v.len()
{
    if i >= v.len() {
        Seq::empty()
    } else {
        proof {
            broadcast use vstd::std_specs::vec::axiom_vec_index_decreases;
        }
        seq![attr_tree(v[i])] + attr_trees_from(v, i + 1)
    }
}

/// The `IFLA_IFNAME` attribute type of rtnetlink link messages.
pub const IFLA_IFNAME: u16 = 3;

/// The `IFLA_MASTER` attribute type of rtnetlink link messages.
pub const IFLA_MASTER: u16 = 10;

/// The `IFLA_LINKINFO` attribute type of rtnetlink link messages.
pub const IFLA_LINKINFO: u16 = 18;

/// The `IFLA_INFO_KIND` attribute type, nested in `IFLA_LINKINFO`.
pub const IFLA_INFO_KIND: u16 = 1;

/// The `IFLA_INFO_DATA` attribute type, nested in `IFLA_LINKINFO`.
pub const IFLA_INFO_DATA: u16 = 2;

/// The `IFLA_BATADV_ALGO_NAME` attribute type, nested in `IFLA_INFO_DATA`
/// of a batman-adv link.
pub const IFLA_BATADV_ALGO_NAME: u16 = 1;

/// The attributes of a link request, in order: `IFLA_IFNAME` with the
/// name, `IFLA_MASTER` with the master's index, and `IFLA_LINKINFO`, which
/// holds `IFLA_INFO_KIND` with the link kind, then `IFLA_INFO_DATA`, which
/// holds `IFLA_BATADV_ALGO_NAME` with the routing algorithm when one is
/// given; each only where the request has it.
pub open spec fn link_request_tree(req: LinkRequest) -> Seq<AttrTree> {
    (match req.ifname {
        Some(n) => seq![AttrTree::Text(IFLA_IFNAME, n@)],
        None => Seq::empty(),
    }) + (match req.master {
        Some(m) => seq![AttrTree::U32(IFLA_MASTER, m)],
        None => Seq::empty(),
    }) + (match req.link_info {
        Some(li) => seq![AttrTree::Nested(IFLA_LINKINFO, link_info_tree(li))],
        None => Seq::empty(),
    })
}

/// The attributes inside `IFLA_LINKINFO`: the link kind, then the data
/// holding the routing algorithm when one is given.
pub open spec fn link_info_tree(li: LinkInfo) -> Seq<AttrTree> {
    seq![
        AttrTree::Text(IFLA_INFO_KIND, li.kind@),
        AttrTree::Nested(IFLA_INFO_DATA, link_data_tree(li)),
    ]
}

/// The attributes inside `IFLA_INFO_DATA`.
pub open spec fn link_data_tree(li: LinkInfo) -> Seq<AttrTree> {
    match li.algo_name {
        Some(a) => seq![AttrTree::Text(IFLA_BATADV_ALGO_NAME, a@)],
        None => Seq::empty(),
    }
}

proof fn lemma_attr_trees_empty(v: Vec<LinkAttr>)
    requires
        v@.len() == 0,
    ensures
        attr_trees_from(v, 0) == Seq::<AttrTree>::empty(),
{
}

/// Appending an attribute appends its form.
proof fn lemma_attr_trees_push(a: Vec<LinkAttr>, b: Vec<LinkAttr>, x: LinkAttr, i: int)
    requires
        b@ == a@.push(x),
        0 <= i <= a.len(),
    ensures
        attr_trees_from(b, i) == attr_trees_from(a, i).push(attr_tree(x)),
    decreases a.len() - i,
{
    if i == a.len() {
        assert(b[i] == x);
        assert(attr_trees_from(b, i + 1) == Seq::<AttrTree>::empty());
        assert(seq![attr_tree(x)] + Seq::<AttrTree>::empty() =~= Seq::<AttrTree>::empty().push(
            attr_tree(x),
        ));
    } else {
        lemma_attr_trees_push(a, b, x, i + 1);
        assert(b[i] == a[i]);
        let t = seq![attr_tree(a[i])];
        assert(t + attr_trees_from(a, i + 1).push(attr_tree(x)) =~= (t + attr_trees_from(a, i + 1)).push(
            attr_tree(x),
        ));
    }
}

/// Appends an attribute to a list, and its form to the list's form.
fn push_attr(v: &mut Vec<LinkAttr>, x: LinkAttr)
    ensures
        attr_trees_from(*final(v), 0) == attr_trees_from(*old(v), 0).push(attr_tree(x)),
{
    let ghost before = *v;
    let ghost xx = x;
    v.push(x);
    proof {
        lemma_attr_trees_push(before, *v, xx, 0);
    }
}

/// The attributes of a link request, as the kernel is to receive them.
pub fn link_request_attrs(req: &LinkRequest) -> (r: Vec<LinkAttr>)
    ensures
        attr_trees_from(r, 0) == link_request_tree(*req),
{
    let mut out: Vec<LinkAttr> = Vec::new();
    proof {
        lemma_attr_trees_empty(out);
    }
    let ghost part1: Seq<AttrTree> = link_request_tree(LinkRequest { master: None, link_info: None, ..*req });
    if let Some(n) = &req.ifname {
        push_attr(&mut out, LinkAttr { kind: IFLA_IFNAME, value: LinkAttrValue::Text(n.clone()) });
    }
    assert(attr_trees_from(out, 0) =~= part1);
    let ghost part2: Seq<AttrTree> = link_request_tree(LinkRequest { ifname: None, link_info: None, ..*req });
    if let Some(m) = req.master {
        push_attr(&mut out, LinkAttr { kind: IFLA_MASTER, value: LinkAttrValue::U32(m) });
    }
    assert(attr_trees_from(out, 0) =~= part1 + part2);
    if let Some(li) = &req.link_info {
        let mut data: Vec<LinkAttr> = Vec::new();
        proof {
            lemma_attr_trees_empty(data);
        }
        if let Some(a) = &li.algo_name {
            push_attr(
                &mut data,
                LinkAttr { kind: IFLA_BATADV_ALGO_NAME, value: LinkAttrValue::Text(a.clone()) },
            );
        }
        let ghost data_tree = attr_trees_from(data, 0);
        assert(data_tree =~= link_data_tree(*li));
        let mut info: Vec<LinkAttr> = Vec::new();
        proof {
            lemma_attr_trees_empty(info);
        }
        push_attr(&mut info, LinkAttr { kind: IFLA_INFO_KIND, value: LinkAttrValue::Text(li.kind.clone()) });
        push_attr(&mut info, LinkAttr { kind: IFLA_INFO_DATA, value: LinkAttrValue::Nested(data) });
        let ghost info_tree = attr_trees_from(info, 0);
        push_attr(&mut out, LinkAttr { kind: IFLA_LINKINFO, value: LinkAttrValue::Nested(info) });
        assert(info_tree =~= link_info_tree(*li));
    }
    assert(attr_trees_from(out, 0) =~= link_request_tree(*req));
    out
}

/// How the host orders the bytes of a multi-byte integer.
#[derive(Debug, Clone, Copy, PartialEq, Eq, Structural)]
pub enum ByteOrder {
    Little,
    Big,
}

/// The payload of the first attribute of type `kind`, as
/// `AttrHandle::get_attribute` finds it.
pub open spec fn find_payload(attrs: Seq<NlAttr>, kind: u16) -> Option<Seq<u8>>
    decreases attrs.len(),
{
    if attrs.len() == 0 {
        None
    } else if attrs[0].kind == kind {
        Some(attrs[0].payload@)
    } else {
        find_payload(attrs.drop_first(), kind)
    }
}

/// The 32-bit integer held by the first four bytes of `b`.
pub open spec fn u32_from(b: Seq<u8>, order: ByteOrder) -> u32 {
    match order {
        ByteOrder::Little => (b[0] + 256 * b[1] + 65536 * b[2] + 16777216 * b[3]) as u32,
        ByteOrder::Big => (b[3] + 256 * b[2] + 65536 * b[1] + 16777216 * b[0]) as u32,
    }
}

/// A one-byte integer read from a payload: its first byte.
pub open spec fn payload_u8_spec(p: Seq<u8>) -> Option<u8> {
    if p.len() >= 1 {
        Some(p[0])
    } else {
        None
    }
}

/// A 32-bit integer read from a payload in host byte order.
pub open spec fn payload_u32_spec(p: Seq<u8>, order: ByteOrder) -> Option<u32> {
    if p.len() >= 4 {
        Some(u32_from(p, order))
    } else {
        None
    }
}

/// A fixed array of `n` bytes read from a payload: its first `n` bytes.
pub open spec fn payload_array_spec(p: Seq<u8>, n: nat) -> Option<Seq<u8>> {
    if p.len() >= n {
        Some(p.take(n as int))
    } else {
        None
    }
}

/// The one-byte integer of the first attribute of type `kind`.
pub open spec fn attr_u8_spec(attrs: Seq<NlAttr>, kind: u16) -> Option<u8> {
    match find_payload(attrs, kind) {
        Some(p) => payload_u8_spec(p),
        None => None,
    }
}

/// The 32-bit integer of the first attribute of type `kind`.
pub open spec fn attr_u32_spec(attrs: Seq<NlAttr>, kind: u16, order: ByteOrder) -> Option<u32> {
    match find_payload(attrs, kind) {
        Some(p) => payload_u32_spec(p, order),
        None => None,
    }
}

/// The first `n` bytes of the first attribute of type `kind`.
pub open spec fn attr_array_spec(attrs: Seq<NlAttr>, kind: u16, n: nat) -> Option<Seq<u8>> {
    match find_payload(attrs, kind) {
        Some(p) => payload_array_spec(p, n),
        None => None,
    }
}

/// The payload of the first attribute of type `kind`.
pub fn find_attr_payload(attrs: &[NlAttr], kind: u16) -> (r: Option<&[u8]>)
    ensures
        match r {
            Some(p) => find_payload(attrs@, kind) == Some(p@),
            None => find_payload(attrs@, kind) is None,
        },
{
    let mut i: usize = 0;
    assert(attrs@.skip(0) == attrs@);
    while i < attrs.len()
        invariant
            i <= attrs.len(),
            find_payload(attrs@, kind) == find_payload(attrs@.skip(i as int), kind),
        decreases attrs.len() - i,
    {
        let ghost rest = attrs@.skip(i as int);
        assert(rest[0] == attrs@[i as int]);
        if attrs[i].kind == kind {
            return Some(attrs[i].payload.as_slice());
        }
        assert(rest.drop_first() == attrs@.skip(i + 1));
        i = i + 1;
    }
    assert(attrs@.skip(i as int).len() == 0);
    None
}

/// Reads a one-byte integer from a payload.
pub fn payload_u8(p: &[u8]) -> (r: Option<u8>)
    ensures
        r == payload_u8_spec(p@),
{
    if p.len() >= 1 {
        Some(p[0])
    } else {
        None
    }
}

/// Reads a 32-bit integer in the given byte order from a payload.
pub fn payload_u32(p: &[u8], order: ByteOrder) -> (r: Option<u32>)
    ensures
        r == payload_u32_spec(p@, order),
{
    if p.len() < 4 {
        return None;
    }
    let (b0, b1, b2, b3) = (p[0] as u32, p[1] as u32, p[2] as u32, p[3] as u32);
    match order {
        ByteOrder::Little => Some(b0 + 256 * b1 + 65536 * b2 + 16777216 * b3),
        ByteOrder::Big => Some(b3 + 256 * b2 + 65536 * b1 + 16777216 * b0),
    }
}

/// Reads the first six bytes of a payload.
pub fn payload_array6(p: &[u8]) -> (r: Option<[u8; 6]>)
    ensures
        match r {
            Some(a) => payload_array_spec(p@, 6) == Some(a@),
            None => payload_array_spec(p@, 6) is None,
        },
{
    if p.len() < 6 {
        return None;
    }
    let a: [u8; 6] = [p[0], p[1], p[2], p[3], p[4], p[5]];
    assert(a@ =~= p@.take(6));
    Some(a)
}

/// Reads the first sixteen bytes of a payload.
pub fn payload_array16(p: &[u8]) -> (r: Option<Vec<u8>>)
    ensures
        match r {
            Some(a) => payload_array_spec(p@, 16) == Some(a@),
            None => payload_array_spec(p@, 16) is None,
        },
{
    if p.len() < 16 {
        return None;
    }
    let mut v: Vec<u8> = Vec::new();
    let mut i: usize = 0;
    while i < 16
        invariant
            i <= 16,
            p.len() >= 16,
            v@ == p@.take(i as int),
        decreases 16 - i,
    {
        v.push(p[i]);
        i = i + 1;
        assert(v@ =~= p@.take(i as int));
    }
    Some(v)
}

/// The one-byte integer of the first attribute of type `kind`.
pub fn attr_u8(attrs: &[NlAttr], kind: u16) -> (r: Option<u8>)
    ensures
        r == attr_u8_spec(attrs@, kind),
{
    match find_attr_payload(attrs, kind) {
        Some(p) => payload_u8(p),
        None => None,
    }
}

/// The 32-bit integer of the first attribute of type `kind`.
pub fn attr_u32(attrs: &[NlAttr], kind: u16, order: ByteOrder) -> (r: Option<u32>)
    ensures
        r == attr_u32_spec(attrs@, kind, order),
{
    match find_attr_payload(attrs, kind) {
        Some(p) => payload_u32(p, order),
        None => None,
    }
}

/// Whether an attribute of type `kind` is present.
pub fn has_attr(attrs: &[NlAttr], kind: u16) -> (r: bool)
    ensures
        r == find_payload(attrs@, kind) is Some,
{
    find_attr_payload(attrs, kind).is_some()
}

/// An attribute as its type and payload.
pub open spec fn attr_pairs(attrs: Seq<NlAttr>) -> Seq<(u16, Seq<u8>)> {
    attrs.map_values(|a: NlAttr| (a.kind, a.payload@))
}

/// The payload of the first attribute of type `kind`, among attributes
/// given as type and payload.
pub open spec fn find_pair_payload(attrs: Seq<(u16, Seq<u8>)>, kind: u16) -> Option<Seq<u8>>
    decreases attrs.len(),
{
    if attrs.len() == 0 {
        None
    } else if attrs[0].0 == kind {
        Some(attrs[0].1)
    } else {
        find_pair_payload(attrs.drop_first(), kind)
    }
}

/// Looking an attribute up by type gives the same payload whether the
/// attributes are taken as they are or as type and payload.
pub proof fn lemma_find_payload_pairs(attrs: Seq<NlAttr>, kind: u16)
    ensures
        find_payload(attrs, kind) == find_pair_payload(attr_pairs(attrs), kind),
    decreases attrs.len(),
{
    if attrs.len() > 0 {
        assert(attr_pairs(attrs.drop_first()) =~= attr_pairs(attrs).drop_first());
        lemma_find_payload_pairs(attrs.drop_first(), kind);
    }
}

/// The text that neli reads from a string attribute payload (the
/// `FromBytesWithInput` impl of `String`): the payload without its last
/// byte, decoded as UTF-8; `None` where that is not valid UTF-8.
pub uninterp spec fn rtattr_string(p: Seq<u8>) -> Option<Seq<char>>;

/// The attributes, as type and payload, that neli reads from the payload of
/// a nested rtnetlink attribute (the `FromBytesWithInput` impl of
/// `RtBuffer<u16, Buffer>` over the whole payload); `None` where the
/// payload does not parse.
pub uninterp spec fn nested_rtattrs(p: Seq<u8>) -> Option<Seq<(u16, Seq<u8>)>>;

/// neli's `String::from_bytes_with_input` over a whole attribute payload.
/// The payload must not be empty: neli subtracts one from its length
/// unchecked and then slices, which panics on an empty payload. The result
/// is named by `rtattr_string`.
#[verifier::external_body]
fn payload_string(p: &[u8]) -> (r: Option<String>)
    requires
        p.len() >= 1,
    ensures
        match r {
            Some(s) => rtattr_string(p@) == Some(s@),
            None => rtattr_string(p@) is None,
        },
{
    <String as FromBytesWithInput>::from_bytes_with_input(&mut Cursor::new(p), p.len()).ok()
}

/// neli's `RtBuffer::<u16, Buffer>::from_bytes_with_input` over a whole
/// payload, each attribute handed back as its type and payload. The result
/// is named by `nested_rtattrs`.
#[verifier::external_body]
fn payload_rtattrs(p: &[u8]) -> (r: Option<Vec<NlAttr>>)
    ensures
        match r {
            Some(v) => nested_rtattrs(p@) == Some(attr_pairs(v@)),
            None => nested_rtattrs(p@) is None,
        },
{
    RtBuffer::<u16, Buffer>::from_bytes_with_input(&mut Cursor::new(p), p.len()).ok().map(
        |b| b.iter().map(|a| NlAttr { kind: *a.rta_type(), payload: a.rta_payload().as_ref().to_vec() }).collect(),
    )
}

/// The text of the first attribute of type `kind`, read as a string.
pub open spec fn string_attr(attrs: Seq<NlAttr>, kind: u16) -> Option<Seq<char>> {
    match find_payload(attrs, kind) {
        Some(p) => rtattr_string(p),
        None => None,
    }
}

/// The attributes nested in the first attribute of type `kind`.
pub open spec fn nested_attr(attrs: Seq<NlAttr>, kind: u16) -> Option<Seq<(u16, Seq<u8>)>> {
    match find_payload(attrs, kind) {
        Some(p) => nested_rtattrs(p),
        None => None,
    }
}

/// Reads the first attribute of type `kind` as a string, as neli's
/// `get_attr_payload_as_with_len::<String>` does; `None` when there is no
/// such attribute or its text is not UTF-8. An empty payload is left out:
/// neli panics on it.
pub fn attr_string(attrs: &[NlAttr], kind: u16) -> (r: Option<String>)
    requires
        find_payload(attrs@, kind) matches Some(p) ==> p.len() >= 1,
    ensures
        match r {
            Some(s) => string_attr(attrs@, kind) == Some(s@),
            None => string_attr(attrs@, kind) is None,
        },
{
    match find_attr_payload(attrs, kind) {
        Some(p) => payload_string(p),
        None => None,
    }
}

/// The attributes nested in the first attribute of type `kind`, as neli's
/// `get_nested_attributes` reads them; `None` when there is no such
/// attribute or its payload does not parse.
pub fn nested_attrs(attrs: &[NlAttr], kind: u16) -> (r: Option<Vec<NlAttr>>)
    ensures
        match r {
            Some(v) => nested_attr(attrs@, kind) == Some(attr_pairs(v@)),
            None => nested_attr(attrs@, kind) is None,
        },
{
    match find_attr_payload(attrs, kind) {
        Some(p) => payload_rtattrs(p),
        None => None,
    }
}

} // verus!
