//! Properties that relate several operations of the library.

use crate::commands::ap_isolation::{ap_isolation_in, ap_isolation_reply, flag_byte};
use crate::cli::{event_line, gateway_row, GatewayTableKind};
use crate::commands::gw_mode::gateway_info_from_attrs;
use crate::commands::mesh::{batadv_kind, mesh_link_name, mesh_names};
use crate::gateway_event::action_text;
use crate::mac::MacAddress;
use crate::commands::dump::{data_message, dump_step_spec, looked_up_name, message_attrs, ok_replies, DumpView};
use crate::commands::interface::{enslaved_count, hardif_dump, hardif_lookups, hardif_spec};
use crate::commands::originators::{
    neigh_id, orig_id, originator_dump, originator_lookups, outgoing_spec, OriginatorView, OutgoingIfView,
};
use crate::error::{Error, ErrorView};
use crate::commands::gw_mode::{gw_mode_of, set_gateway_attrs};
use crate::gateway_event::GatewayEventAction;
use crate::mac::mac_text_octets;
use crate::model::{Gateway, GwMode};
use crate::netlink::{
    attr_array_spec, attr_u32_spec, attr_u8_spec, attribute_id, find_payload, AttrValueForSend, Attribute,
    find_pair_payload, link_info_tree, link_request_tree, nested_rtattrs, rtattr_string, AttrTree, ByteOrder, GenlMessage, GenlPayload, LinkRequest, NlAttr,
    IFLA_IFNAME, IFLA_LINKINFO, IFLA_MASTER, NLMSG_DONE,
};
use crate::text::{decimal, digit_char, digits_value, is_digit, parse_u32_spec, strip_plus, all_digits, DECIMAL_DIGITS};
use crate::text::{before_nul, hex_byte, hex_colon, pad_left, utf8_lossy, HEX_UPPER_DIGITS};
use crate::uevent::{
    gateway_event_outcome, lemma_split_nul_nonempty, lines_properties, pairs_map, split_nul,
    split_once_eq, text_properties, uevent_decision, UeventDecisionView,
    uevent_names_interface, unicode_uppercase,
};
use vstd::prelude::*;

verus! {

/// The text of a uevent made of the given `KEY=value` properties, each
/// followed by a `NUL` character.
pub open spec fn uevent_text(pairs: Seq<(Seq<char>, Seq<char>)>) -> Seq<char>
    decreases pairs.len(),
{
    if pairs.len() == 0 {
        Seq::empty()
    } else {
        uevent_text(pairs.drop_last()) + pairs.last().0 + seq!['='] + pairs.last().1 + seq!['\0']
    }
}

/// A property that a uevent can carry: a key without `=` or `NUL`, a value
/// without `NUL`.
pub open spec fn writable_property(p: (Seq<char>, Seq<char>)) -> bool {
    &&& !p.0.contains('=')
    &&& !p.0.contains('\0')
    &&& !p.1.contains('\0')
}

/// The `KEY=value` line of a property.
pub open spec fn property_line(p: (Seq<char>, Seq<char>)) -> Seq<char> {
    p.0 + seq!['='] + p.1
}

proof fn lemma_split_nul_append(s: Seq<char>, t: Seq<char>)
    requires
        !t.contains('\0'),
    ensures
        split_nul(s + t) == split_nul(s).update(
            split_nul(s).len() - 1,
            split_nul(s).last() + t,
        ),
        split_nul(s + t).len() == split_nul(s).len(),
    decreases t.len(),
{
    lemma_split_nul_nonempty(s);
    if t.len() == 0 {
        assert(s + t =~= s);
        assert(split_nul(s).last() + t =~= split_nul(s).last());
        assert(split_nul(s).update(split_nul(s).len() - 1, split_nul(s).last()) =~= split_nul(s));
    } else {
        let u = t.drop_last();
        assert(!u.contains('\0')) by {
            if u.contains('\0') {
                let j = choose|j: int| 0 <= j < u.len() && u[j] == '\0';
                assert(t[j] == '\0');
            }
        }
        lemma_split_nul_append(s, u);
        assert(t.last() != '\0') by {
            assert(t[t.len() - 1] == t.last());
        }
        let st = s + t;
        assert(st.drop_last() =~= s + u);
        assert(st.last() == t.last());
        let p = split_nul(s + u);
        assert(split_nul(st) == p.update(p.len() - 1, p.last().push(t.last())));
        assert(p.last() == split_nul(s).last() + u);
        assert((split_nul(s).last() + u).push(t.last()) =~= split_nul(s).last() + t);
        assert(split_nul(st) =~= split_nul(s).update(
            split_nul(s).len() - 1,
            split_nul(s).last() + t,
        ));
    }
}

/// The pieces of the text of well-formed properties are their lines, then
/// an empty piece after the final `NUL`.
proof fn lemma_uevent_text_pieces(pairs: Seq<(Seq<char>, Seq<char>)>)
    requires
        forall|i: int| 0 <= i < pairs.len() ==> writable_property(#[trigger] pairs[i]),
    ensures
        split_nul(uevent_text(pairs)) == pairs.map_values(|p: (Seq<char>, Seq<char>)| property_line(p)).push(
            Seq::empty(),
        ),
    decreases pairs.len(),
{
    let lines = pairs.map_values(|p: (Seq<char>, Seq<char>)| property_line(p));
    if pairs.len() == 0 {
        assert(uevent_text(pairs) =~= Seq::<char>::empty());
        assert(lines =~= Seq::<Seq<char>>::empty());
        assert(split_nul(Seq::<char>::empty()) =~= seq![Seq::<char>::empty()]);
    } else {
        let ps = pairs.drop_last();
        let p = pairs.last();
        assert forall|i: int| 0 <= i < ps.len() implies writable_property(#[trigger] ps[i]) by {
            assert(ps[i] == pairs[i]);
        }
        lemma_uevent_text_pieces(ps);
        assert(writable_property(pairs[pairs.len() - 1]));
        let e = uevent_text(ps);
        let line = property_line(p);
        assert(!line.contains('\0')) by {
            if line.contains('\0') {
                let j = choose|j: int| 0 <= j < line.len() && line[j] == '\0';
                if j < p.0.len() {
                    assert(p.0[j] == '\0');
                } else if j == p.0.len() {
                } else {
                    assert(p.1[j - p.0.len() - 1] == '\0');
                }
            }
        }
        lemma_split_nul_append(e, line);
        let full = uevent_text(pairs);
        assert(full =~= (e + line).push('\0'));
        assert(full.drop_last() =~= e + line);
        let lps = ps.map_values(|q: (Seq<char>, Seq<char>)| property_line(q));
        assert(split_nul(e) == lps.push(Seq::empty()));
        assert(split_nul(e + line) =~= lps.push(line));
        assert(lines =~= lps.push(line));
    }
}

/// The properties of a list of lines ending in an empty one are those of
/// the lines before it.
proof fn lemma_lines_properties_of_pairs(pairs: Seq<(Seq<char>, Seq<char>)>)
    requires
        forall|i: int| 0 <= i < pairs.len() ==> writable_property(#[trigger] pairs[i]),
    ensures
        lines_properties(pairs.map_values(|p: (Seq<char>, Seq<char>)| property_line(p)))
            == pairs_map(pairs),
    decreases pairs.len(),
{
    let lines = pairs.map_values(|p: (Seq<char>, Seq<char>)| property_line(p));
    if pairs.len() > 0 {
        let ps = pairs.drop_last();
        let p = pairs.last();
        assert forall|i: int| 0 <= i < ps.len() implies writable_property(#[trigger] ps[i]) by {
            assert(ps[i] == pairs[i]);
        }
        lemma_lines_properties_of_pairs(ps);
        assert(writable_property(pairs[pairs.len() - 1]));
        assert(lines.drop_last() =~= ps.map_values(|q: (Seq<char>, Seq<char>)| property_line(q)));
        let line = property_line(p);
        assert(lines.last() == line);
        let k = p.0;
        assert forall|j: int| 0 <= j < k.len() implies line[j] != '=' by {
            assert(line[j] == k[j]);
            if k[j] == '=' {
                assert(k.contains('='));
            }
        }
        crate::uevent::lemma_split_once_at(line, k.len() as int);
        assert(line.take(k.len() as int) =~= k);
        assert(line.skip(k.len() as int + 1) =~= p.1);
    } else {
        assert(lines =~= Seq::<Seq<char>>::empty());
    }
}

/// Reading a uevent gives back the properties it was written with: the
/// properties of the text made of `KEY=value` strings each followed by a
/// `NUL` are those pairs, a later pair replacing an earlier one with the
/// same key, as long as keys hold no `=` or `NUL` and values no `NUL`.
pub proof fn law_uevent_read_gives_back_written_properties(pairs: Seq<(Seq<char>, Seq<char>)>)
    requires
        forall|i: int| 0 <= i < pairs.len() ==> writable_property(#[trigger] pairs[i]),
    ensures
        text_properties(uevent_text(pairs)) == pairs_map(pairs),
{
    lemma_uevent_text_pieces(pairs);
    lemma_lines_properties_of_pairs(pairs);
    let lines = pairs.map_values(|p: (Seq<char>, Seq<char>)| property_line(p));
    let all = lines.push(Seq::<char>::empty());
    assert(all.drop_last() =~= lines);
    assert(split_once_eq(Seq::<char>::empty()) is None);
}

/// The gateway mode byte among the attributes of a request, if the second
/// attribute is one.
pub open spec fn written_mode_byte(a: Seq<(Attribute, AttrValueForSend)>) -> Option<u8> {
    if a.len() >= 2 && a[1].0 == Attribute::BatadvAttrGwMode {
        match a[1].1 {
            AttrValueForSend::U8(b) => Some(b),
            _ => None,
        }
    } else {
        None
    }
}

/// Setting a gateway mode writes the mode byte that reading the mode
/// decodes back to that mode.
pub proof fn law_gateway_mode_read_gives_back_written_mode(
    mode: GwMode,
    down: Option<u32>,
    up: Option<u32>,
    sel_class: Option<u32>,
    ifindex: u32,
)
    requires
        mode != GwMode::Unknown,
    ensures
        match set_gateway_attrs(mode, down, up, sel_class, ifindex) {
            Some(a) => match written_mode_byte(a) {
                Some(b) => gw_mode_of(Some(b)) == mode,
                None => false,
            },
            None => false,
        },
{
}

/// The attributes of the messages of a reply, message after message.
pub open spec fn reply_attrs(msgs: Seq<GenlMessage>) -> Seq<NlAttr>
    decreases msgs.len(),
{
    if msgs.len() == 0 {
        Seq::empty()
    } else {
        (match msgs[0].payload {
            GenlPayload::Attrs(a) => a@,
            _ => Seq::empty(),
        }) + reply_attrs(msgs.drop_first())
    }
}

/// Scanning two lists of attributes one after the other finds the state of
/// the first list, or else that of the second.
proof fn lemma_ap_isolation_in_concat(a: Seq<NlAttr>, b: Seq<NlAttr>)
    ensures
        ap_isolation_in(a + b) == match ap_isolation_in(a) {
            Some(x) => Some(x),
            None => ap_isolation_in(b),
        },
    decreases a.len(),
{
    if a.len() == 0 {
        assert(a + b =~= b);
    } else {
        assert((a + b)[0] == a[0]);
        assert((a + b).drop_first() =~= a.drop_first() + b);
        lemma_ap_isolation_in_concat(a.drop_first(), b);
    }
}

/// Reading AP isolation from a reply whose messages were all read gives the
/// state of the first `AP_ISOLATION_ENABLED` attribute with a non-empty
/// payload, scanning the messages in order; the reply is refused as not
/// found exactly when there is none.
pub proof fn law_ap_isolation_reply_scans_in_order(msgs: Seq<GenlMessage>)
    ensures
        ap_isolation_reply(ok_replies(msgs)) == match ap_isolation_in(reply_attrs(msgs)) {
            Some(b) => Ok::<bool, ErrorView>(b),
            None => Err(ErrorView::NotFound("Error - AP isolation attribute not found"@)),
        },
    decreases msgs.len(),
{
    if msgs.len() > 0 {
        let first = match msgs[0].payload {
            GenlPayload::Attrs(a) => a@,
            _ => Seq::<NlAttr>::empty(),
        };
        lemma_ap_isolation_in_concat(first, reply_attrs(msgs.drop_first()));
        assert(ok_replies(msgs)[0] == Ok::<GenlMessage, Error>(msgs[0]));
        assert(ok_replies(msgs).drop_first() =~= ok_replies(msgs.drop_first()));
        law_ap_isolation_reply_scans_in_order(msgs.drop_first());
    }
}

/// The AP isolation state of attributes whose first `AP_ISOLATION_ENABLED`
/// attribute, at `k`, holds the byte `v`.
proof fn lemma_ap_isolation_first_at(attrs: Seq<NlAttr>, k: int, v: u8)
    requires
        0 <= k < attrs.len(),
        attrs[k].kind == attribute_id(Attribute::BatadvAttrApIsolationEnabled),
        attrs[k].payload@ == seq![v],
        forall|j: int| 0 <= j < k ==> (#[trigger] attrs[j]).kind != attribute_id(
            Attribute::BatadvAttrApIsolationEnabled,
        ),
    ensures
        ap_isolation_in(attrs) == Some(v != 0),
    decreases k,
{
    if k > 0 {
        assert(attrs[0].kind != attribute_id(Attribute::BatadvAttrApIsolationEnabled));
        let rest = attrs.drop_first();
        assert forall|j: int| 0 <= j < k - 1 implies (#[trigger] rest[j]).kind != attribute_id(
            Attribute::BatadvAttrApIsolationEnabled,
        ) by {
            assert(rest[j] == attrs[j + 1]);
        }
        assert(rest[k - 1] == attrs[k]);
        lemma_ap_isolation_first_at(rest, k - 1, v);
    }
}

/// Reading AP isolation gives back the state that setting it wrote: for any
/// reply whose messages were all read and whose first
/// `AP_ISOLATION_ENABLED` attribute is the one the set request carries
/// (`flag_byte(enabled)`), the read answers `enabled`.
pub proof fn law_ap_isolation_read_gives_back_written_flag(enabled: bool, msgs: Seq<GenlMessage>, k: int)
    requires
        0 <= k < reply_attrs(msgs).len(),
        reply_attrs(msgs)[k].kind == attribute_id(Attribute::BatadvAttrApIsolationEnabled),
        reply_attrs(msgs)[k].payload@ == seq![flag_byte(enabled)],
        forall|j: int| 0 <= j < k ==> (#[trigger] reply_attrs(msgs)[j]).kind != attribute_id(
            Attribute::BatadvAttrApIsolationEnabled,
        ),
    ensures
        ap_isolation_reply(ok_replies(msgs)) == Ok::<bool, ErrorView>(enabled),
{
    lemma_ap_isolation_first_at(reply_attrs(msgs), k, flag_byte(enabled));
    law_ap_isolation_reply_scans_in_order(msgs);
}

proof fn lemma_digit_char(d: int)
    requires
        0 <= d < 10,
    ensures
        is_digit(digit_char(d)),
        (digit_char(d) as u32) - ('0' as u32) == d,
{
    assert(DECIMAL_DIGITS@ =~= seq!['0', '1', '2', '3', '4', '5', '6', '7', '8', '9']);
}

proof fn lemma_decimal_digits(n: nat)
    ensures
        decimal(n).len() > 0,
        all_digits(decimal(n)),
        digits_value(decimal(n)) == n,
        decimal(n)[0] != '+',
    decreases n,
{
    if n < 10 {
        lemma_digit_char(n as int);
        let s = decimal(n);
        assert(s.drop_last() =~= Seq::<char>::empty());
        assert(s.last() == digit_char(n as int));
        assert(digits_value(s) == digits_value(s.drop_last()) * 10 + ((s.last() as u32) - ('0' as u32)) as nat);
    } else {
        lemma_decimal_digits(n / 10);
        lemma_digit_char((n % 10) as int);
        let s = decimal(n);
        assert(s.drop_last() == decimal(n / 10));
        assert(s.last() == digit_char((n % 10) as int));
        assert(n == (n / 10) * 10 + n % 10) by (nonlinear_arith);
        assert(digits_value(s) == digits_value(decimal(n / 10)) * 10 + ((s.last() as u32) - ('0' as u32)) as nat);
        assert forall|i: int| 0 <= i < s.len() implies is_digit(#[trigger] s[i]) by {
            if i < s.len() - 1 {
                assert(s[i] == decimal(n / 10)[i]);
            }
        }
        assert(s[0] == decimal(n / 10)[0]);
    }
}

/// An interface index written in decimal, as the kernel writes the
/// `IFINDEX` property of a uevent, is read back as the same index.
pub proof fn law_ifindex_read_gives_back_written_decimal(n: u32)
    ensures
        parse_u32_spec(decimal(n as nat)) == Some(n),
{
    lemma_decimal_digits(n as nat);
    assert(strip_plus(decimal(n as nat)) == decimal(n as nat));
}

/// Setting a uevent property and reading it back gives the value that was
/// set, and leaves every other property as it was.
pub proof fn law_property_read_gives_back_write(
    props: Map<Seq<char>, Seq<char>>,
    key: Seq<char>,
    value: Seq<char>,
    other: Seq<char>,
)
    requires
        other != key,
    ensures
        props.insert(key, value).get(key) == Some(value),
        props.insert(key, value).get(other) == props.get(other),
{
}

/// The listener only ever emits gateway events of the `net` subsystem that
/// name the watched interface, by name or by index.
pub proof fn law_emitted_events_concern_the_watched_interface(
    meshif_index: u32,
    meshif_name: Seq<char>,
    data: Seq<u8>,
)
    requires
        uevent_decision(meshif_index, meshif_name, data) is Emit,
    ensures
        data.len() > 0,
        text_properties(utf8_lossy(data)).get("SUBSYSTEM"@) == Some("net"@),
        text_properties(utf8_lossy(data)).get("BATTYPE"@) == Some("gw"@),
        uevent_names_interface(text_properties(utf8_lossy(data)), meshif_index, meshif_name),
{
}

/// A removed gateway carries no address: every `Delete` event that a set of
/// uevent properties describes, and every one the listener emits, has no
/// gateway address, whatever `BATDATA` holds.
pub proof fn law_delete_event_has_no_gateway(
    props: Map<Seq<char>, Seq<char>>,
    meshif_index: u32,
    meshif_name: Seq<char>,
    data: Seq<u8>,
)
    ensures
        gateway_event_outcome(props) matches Ok((a, m)) ==> (a == GatewayEventAction::Delete ==> m
            is None),
        uevent_decision(meshif_index, meshif_name, data) matches UeventDecisionView::Emit(a, m) ==> (a
            == GatewayEventAction::Delete ==> m is None),
{
}

/// The hard interface that an entry of a dump describes: the name looked
/// up for its `HARD_IFINDEX`, active exactly when it carries `ACTIVE`.
pub open spec fn interface_of_message(
    m: GenlMessage,
    names: Seq<(u32, Option<String>)>,
    order: ByteOrder,
) -> (Seq<char>, bool) {
    let a = message_attrs(m);
    let i = attr_u32_spec(a, attribute_id(Attribute::BatadvAttrHardIfindex), order).unwrap();
    (
        looked_up_name(names, i).unwrap(),
        find_payload(a, attribute_id(Attribute::BatadvAttrActive)) is Some,
    )
}

/// Whether an entry of a hard interface dump can be read: it carries its
/// `HARD_IFINDEX`, whose name was found.
pub open spec fn readable_hardif(m: GenlMessage, names: Seq<(u32, Option<String>)>, order: ByteOrder) -> bool {
    &&& data_message(m)
    &&& attr_u32_spec(message_attrs(m), attribute_id(Attribute::BatadvAttrHardIfindex), order) matches Some(
        i,
    ) && looked_up_name(names, i) is Some
}

/// A dump of hard interfaces made of n readable entries, then
/// `NLMSG_DONE`, gives n interfaces in order, the k-th named after the k-th
/// entry's index and active exactly when that entry carries `ACTIVE`.
pub proof fn law_interface_dump_entries(
    msgs: Seq<GenlMessage>,
    done: GenlMessage,
    names: Seq<(u32, Option<String>)>,
    order: ByteOrder,
)
    requires
        done.nl_type == NLMSG_DONE,
        forall|k: int| 0 <= k < msgs.len() ==> readable_hardif(#[trigger] msgs[k], names, order),
    ensures
        hardif_dump(ok_replies(msgs.push(done)), names, order) == Ok::<
            Seq<(Seq<char>, bool)>,
            ErrorView,
        >(msgs.map_values(|m: GenlMessage| interface_of_message(m, names, order))),
    decreases msgs.len(),
{
    let replies = ok_replies(msgs.push(done));
    if msgs.len() == 0 {
        assert(replies[0] == Ok::<GenlMessage, Error>(done));
        assert(msgs.map_values(|m: GenlMessage| interface_of_message(m, names, order)) =~= Seq::<
            (Seq<char>, bool),
        >::empty());
    } else {
        let rest = msgs.drop_first();
        assert forall|k: int| 0 <= k < rest.len() implies readable_hardif(#[trigger] rest[k], names, order) by {
            assert(rest[k] == msgs[k + 1]);
        }
        law_interface_dump_entries(rest, done, names, order);
        assert(replies[0] == Ok::<GenlMessage, Error>(msgs[0]));
        assert(readable_hardif(msgs[0], names, order));
        assert(replies.drop_first() =~= ok_replies(rest.push(done)));
        let x = interface_of_message(msgs[0], names, order);
        assert(seq![x] + rest.map_values(|m: GenlMessage| interface_of_message(m, names, order))
            =~= msgs.map_values(|m: GenlMessage| interface_of_message(m, names, order)));
    }
}

/// The originator that an entry of a dump describes: its addresses,
/// last-seen time, optional link quality and throughput, whether it is the
/// best route, and its outgoing interface: the `HARD_IFNAME` it carries,
/// cut at its first zero byte, or else the name looked up for its
/// `HARD_IFINDEX`.
pub open spec fn originator_of_message(
    m: GenlMessage,
    names: Seq<(u32, Option<String>)>,
    order: ByteOrder,
) -> OriginatorView {
    let a = message_attrs(m);
    OriginatorView {
        originator: attr_array_spec(a, orig_id(), 6).unwrap(),
        next_hop: attr_array_spec(a, neigh_id(), 6).unwrap(),
        outgoing_if: match attr_array_spec(a, attribute_id(Attribute::BatadvAttrHardIfname), 16) {
            Some(b) => utf8_lossy(before_nul(b)),
            None => looked_up_name(
                names,
                attr_u32_spec(a, attribute_id(Attribute::BatadvAttrHardIfindex), order).unwrap(),
            ).unwrap(),
        },
        last_seen_ms: attr_u32_spec(a, attribute_id(Attribute::BatadvAttrLastSeenMsecs), order).unwrap(),
        tq: attr_u8_spec(a, attribute_id(Attribute::BatadvAttrTq)),
        throughput: attr_u32_spec(a, attribute_id(Attribute::BatadvAttrThroughput), order),
        is_best: find_payload(a, attribute_id(Attribute::BatadvAttrFlagBest)) is Some,
    }
}

/// Whether an entry of an originator dump can be read: it carries both
/// addresses and the last-seen time, and names its outgoing interface by
/// `HARD_IFNAME` or by a `HARD_IFINDEX` whose name was found.
pub open spec fn readable_originator(m: GenlMessage, names: Seq<(u32, Option<String>)>, order: ByteOrder) -> bool {
    let a = message_attrs(m);
    &&& data_message(m)
    &&& attr_array_spec(a, orig_id(), 6) is Some
    &&& attr_array_spec(a, neigh_id(), 6) is Some
    &&& attr_u32_spec(a, attribute_id(Attribute::BatadvAttrLastSeenMsecs), order) is Some
    &&& (attr_array_spec(a, attribute_id(Attribute::BatadvAttrHardIfname), 16) is Some || (
    attr_u32_spec(a, attribute_id(Attribute::BatadvAttrHardIfindex), order) matches Some(i)
        && looked_up_name(names, i) is Some))
}

/// An originator dump made of n readable entries, then `NLMSG_DONE`, gives
/// n originators in order, the k-th read from the k-th entry.
pub proof fn law_originator_dump_entries(
    msgs: Seq<GenlMessage>,
    done: GenlMessage,
    names: Seq<(u32, Option<String>)>,
    order: ByteOrder,
)
    requires
        done.nl_type == NLMSG_DONE,
        forall|k: int| 0 <= k < msgs.len() ==> readable_originator(#[trigger] msgs[k], names, order),
    ensures
        originator_dump(ok_replies(msgs.push(done)), names, order) == Ok::<Seq<OriginatorView>, ErrorView>(
            msgs.map_values(|m: GenlMessage| originator_of_message(m, names, order)),
        ),
    decreases msgs.len(),
{
    let replies = ok_replies(msgs.push(done));
    if msgs.len() == 0 {
        assert(replies[0] == Ok::<GenlMessage, Error>(done));
        assert(msgs.map_values(|m: GenlMessage| originator_of_message(m, names, order)) =~= Seq::<
            OriginatorView,
        >::empty());
    } else {
        let rest = msgs.drop_first();
        assert forall|k: int| 0 <= k < rest.len() implies readable_originator(#[trigger] rest[k], names, order) by {
            assert(rest[k] == msgs[k + 1]);
        }
        law_originator_dump_entries(rest, done, names, order);
        assert(replies[0] == Ok::<GenlMessage, Error>(msgs[0]));
        assert(readable_originator(msgs[0], names, order));
        assert(replies.drop_first() =~= ok_replies(rest.push(done)));
        let x = originator_of_message(msgs[0], names, order);
        assert(seq![x] + rest.map_values(|m: GenlMessage| originator_of_message(m, names, order))
            =~= msgs.map_values(|m: GenlMessage| originator_of_message(m, names, order)));
    }
}

/// Setting a gateway server announces the bandwidths it is given, in units
/// of 100 kbit/s (10000 down and 2000 up where none is given), and the
/// selection class it is given (0 where none is), after the mesh index and
/// the mode byte 2; off and client send only the mesh index and their mode
/// byte, and an unknown mode sends nothing.
pub proof fn law_gateway_request_announces_given_settings(
    down: Option<u32>,
    up: Option<u32>,
    sel_class: Option<u32>,
    ifindex: u32,
)
    ensures
        set_gateway_attrs(GwMode::Server, down, up, sel_class, ifindex) matches Some(a) && a.len() == 5
            && a[0] == (Attribute::BatadvAttrMeshIfindex, AttrValueForSend::U32(ifindex))
            && a[1] == (Attribute::BatadvAttrGwMode, AttrValueForSend::U8(2))
            && a[2] == (Attribute::BatadvAttrGwBandwidthDown, AttrValueForSend::U32(
                match down {
                    Some(d) => d / 100,
                    None => 100,
                },
            )) && a[3] == (Attribute::BatadvAttrGwBandwidthUp, AttrValueForSend::U32(
                match up {
                    Some(u) => u / 100,
                    None => 20,
                },
            )) && a[4] == (Attribute::BatadvAttrGwSelClass, AttrValueForSend::U32(
                match sel_class {
                    Some(c) => c,
                    None => 0,
                },
            )),
        set_gateway_attrs(GwMode::Off, down, up, sel_class, ifindex) == Some(
            seq![
                (Attribute::BatadvAttrMeshIfindex, AttrValueForSend::U32(ifindex)),
                (Attribute::BatadvAttrGwMode, AttrValueForSend::U8(0)),
            ],
        ),
        set_gateway_attrs(GwMode::Client, down, up, sel_class, ifindex) == Some(
            seq![
                (Attribute::BatadvAttrMeshIfindex, AttrValueForSend::U32(ifindex)),
                (Attribute::BatadvAttrGwMode, AttrValueForSend::U8(1)),
            ],
        ),
        set_gateway_attrs(GwMode::Unknown, down, up, sel_class, ifindex) is None,
{
}

/// The gateway address that the `BATDATA` property of a uevent gives.
pub open spec fn batdata_address(props: Map<Seq<char>, Seq<char>>) -> Option<Seq<u8>> {
    if props.contains_key("BATDATA"@) {
        mac_text_octets(props["BATDATA"@])
    } else {
        None
    }
}

/// A gateway event names the action its upper-cased `BATACTION` says
/// (`ADD`, `CHANGE` or `DEL`); an added or changed gateway carries the
/// address that `BATDATA` gives, and a removed one none. The same holds of
/// every event the listener emits.
pub proof fn law_gateway_event_action_and_address(
    props: Map<Seq<char>, Seq<char>>,
    meshif_index: u32,
    meshif_name: Seq<char>,
    data: Seq<u8>,
)
    ensures
        gateway_event_outcome(props) matches Ok((a, m)) ==> m == (if a == GatewayEventAction::Delete {
            None
        } else {
            batdata_address(props)
        }),
        uevent_decision(meshif_index, meshif_name, data) matches UeventDecisionView::Emit(a, m) ==> m
            == (if a == GatewayEventAction::Delete {
            None
        } else {
            batdata_address(text_properties(utf8_lossy(data)))
        }),
        props.get("BATTYPE"@) == Some("gw"@) && props.contains_key("BATACTION"@) ==> {
            let up = unicode_uppercase(props["BATACTION"@]);
            &&& up == "ADD"@ ==> gateway_event_outcome(props) == Ok::<
                (GatewayEventAction, Option<Seq<u8>>),
                ErrorView,
            >((GatewayEventAction::Add, batdata_address(props)))
            &&& up == "CHANGE"@ ==> gateway_event_outcome(props) == Ok::<
                (GatewayEventAction, Option<Seq<u8>>),
                ErrorView,
            >((GatewayEventAction::Change, batdata_address(props)))
            &&& up == "DEL"@ ==> gateway_event_outcome(props) == Ok::<
                (GatewayEventAction, Option<Seq<u8>>),
                ErrorView,
            >((GatewayEventAction::Delete, None))
        },
{
    reveal_strlit("ADD");
    reveal_strlit("CHANGE");
    reveal_strlit("DEL");
    assert("ADD"@ != "CHANGE"@ && "ADD"@ != "DEL"@ && "CHANGE"@ != "DEL"@) by {
        assert("ADD"@.len() != "CHANGE"@.len());
        assert("ADD"@[0] != "DEL"@[0]);
        assert("CHANGE"@.len() != "DEL"@.len());
    }
}

/// Every entry of an originator dump, read before the dump ends or fails,
/// that names its outgoing interface by index has that index among the
/// indices to look up.
pub proof fn law_originator_lookups_cover_entries(
    replies: Seq<Result<GenlMessage, Error>>,
    order: ByteOrder,
    k: int,
    i: u32,
)
    requires
        0 <= k < replies.len(),
        forall|j: int|
            0 <= j <= k ==> (#[trigger] replies[j] matches Ok(m) && dump_step_spec(
                m,
                "Message without payload"@,
            ) matches DumpView::Entry(a) && outgoing_spec(a, order) is Ok),
        replies[k] matches Ok(m) && dump_step_spec(m, "Message without payload"@) matches DumpView::Entry(
            a,
        ) && outgoing_spec(a, order) == Ok::<OutgoingIfView, ErrorView>(OutgoingIfView::Index(i)),
    ensures
        originator_lookups(replies, order).contains(i),
    decreases k,
{
    assert(replies[0] matches Ok(m) && dump_step_spec(m, "Message without payload"@) matches DumpView::Entry(a) && outgoing_spec(a, order) is Ok);
    if k == 0 {
        assert(originator_lookups(replies, order)[0] == i);
    } else {
        let rest = replies.drop_first();
        assert forall|j: int|
            0 <= j <= k - 1 implies (#[trigger] rest[j] matches Ok(m) && dump_step_spec(
                m,
                "Message without payload"@,
            ) matches DumpView::Entry(a) && outgoing_spec(a, order) is Ok) by {
            assert(rest[j] == replies[j + 1]);
        }
        assert(rest[k - 1] == replies[k]);
        law_originator_lookups_cover_entries(rest, order, k - 1, i);
        let tail = originator_lookups(rest, order);
        let x = tail.index_of(i);
        assert(tail[x] == i);
        let all = originator_lookups(replies, order);
        if all.len() > tail.len() {
            assert(all[x + 1] == i);
        } else {
            assert(all[x] == i);
        }
    }
}

/// Every entry of a hard interface dump, read before the dump ends or
/// fails, has its index among the indices to look up.
pub proof fn law_hardif_lookups_cover_entries(
    replies: Seq<Result<GenlMessage, Error>>,
    order: ByteOrder,
    k: int,
    i: u32,
)
    requires
        0 <= k < replies.len(),
        forall|j: int|
            0 <= j <= k ==> (#[trigger] replies[j] matches Ok(m) && dump_step_spec(
                m,
                "Error - message has no payload"@,
            ) matches DumpView::Entry(a) && hardif_spec(a, order) is Ok),
        replies[k] matches Ok(m) && dump_step_spec(m, "Error - message has no payload"@) matches DumpView::Entry(
            a,
        ) && hardif_spec(a, order) matches Ok((x, _)) && x == i,
    ensures
        hardif_lookups(replies, order).contains(i),
    decreases k,
{
    assert(replies[0] matches Ok(m) && dump_step_spec(m, "Error - message has no payload"@) matches DumpView::Entry(a) && hardif_spec(a, order) is Ok);
    if k == 0 {
        assert(hardif_lookups(replies, order)[0] == i);
    } else {
        let rest = replies.drop_first();
        assert forall|j: int|
            0 <= j <= k - 1 implies (#[trigger] rest[j] matches Ok(m) && dump_step_spec(
                m,
                "Error - message has no payload"@,
            ) matches DumpView::Entry(a) && hardif_spec(a, order) is Ok) by {
            assert(rest[j] == replies[j + 1]);
        }
        assert(rest[k - 1] == replies[k]);
        law_hardif_lookups_cover_entries(rest, order, k - 1, i);
        let tail = hardif_lookups(rest, order);
        let x = tail.index_of(i);
        assert(tail[x] == i);
        assert(hardif_lookups(replies, order)[x + 1] == i);
    }
}

/// The attributes of a link request carry `IFLA_MASTER` with value `m`
/// exactly when the request names master `m` (0 included, which detaches
/// the interface), and `IFLA_IFNAME` with name `n` exactly when the request
/// names `n`; a request that names neither and no link information
/// carries no attribute.
pub proof fn law_link_request_carries_its_fields(req: LinkRequest, m: u32, n: Seq<char>)
    ensures
        link_request_tree(req).contains(AttrTree::U32(IFLA_MASTER, m)) <==> req.master == Some(m),
        link_request_tree(req).contains(AttrTree::Text(IFLA_IFNAME, n)) <==> (req.ifname matches Some(
            x,
        ) && x@ == n),
        req.ifname is None && req.master is None && req.link_info is None ==> link_request_tree(
            req,
        ).len() == 0,
{
    let t = link_request_tree(req);
    let p1: Seq<AttrTree> = match req.ifname {
        Some(x) => seq![AttrTree::Text(IFLA_IFNAME, x@)],
        None => Seq::empty(),
    };
    let p2: Seq<AttrTree> = match req.master {
        Some(x) => seq![AttrTree::U32(IFLA_MASTER, x)],
        None => Seq::empty(),
    };
    let p3: Seq<AttrTree> = match req.link_info {
        Some(li) => seq![AttrTree::Nested(IFLA_LINKINFO, link_info_tree(li))],
        None => Seq::empty(),
    };
    assert(t == p1 + p2 + p3);
    if req.master == Some(m) {
        assert(t[p1.len() as int] == AttrTree::U32(IFLA_MASTER, m));
    }
    if t.contains(AttrTree::U32(IFLA_MASTER, m)) {
        let j = choose|j: int| 0 <= j < t.len() && t[j] == AttrTree::U32(IFLA_MASTER, m);
        if j < p1.len() {
            assert(t[j] == p1[j]);
        } else if j < p1.len() + p2.len() {
            assert(t[j] == p2[j - p1.len()]);
        } else {
            assert(t[j] == p3[j - p1.len() - p2.len()]);
        }
    }
    if req.ifname matches Some(x) && x@ == n {
        assert(t[0] == AttrTree::Text(IFLA_IFNAME, n));
    }
    if t.contains(AttrTree::Text(IFLA_IFNAME, n)) {
        let j = choose|j: int| 0 <= j < t.len() && t[j] == AttrTree::Text(IFLA_IFNAME, n);
        if j < p1.len() {
            assert(t[j] == p1[j]);
        } else if j < p1.len() + p2.len() {
            assert(t[j] == p2[j - p1.len()]);
        } else {
            assert(t[j] == p3[j - p1.len() - p2.len()]);
        }
    }
}

/// In the gateway table, whatever the routing algorithm, a gateway's first
/// cell is its address, preceded by `* ` exactly when it is the selected
/// gateway; only the second cell depends on the algorithm (TQ for
/// `BATMAN_IV`, throughput for `BATMAN_V`, 0 where missing).
pub proof fn law_gateway_row_marks_the_best(g: Gateway, kind: GatewayTableKind)
    ensures
        gateway_row(g, kind).len() == 6,
        gateway_row(g, kind)[0] == (if g.is_best {
            "* "@
        } else {
            Seq::<char>::empty()
        }) + hex_colon(g.mac_addr@),
        forall|c: int|
            0 <= c < 6 && c != 1 ==> gateway_row(g, kind)[c] == #[trigger] gateway_row(
                g,
                GatewayTableKind::Tq,
            )[c],
        gateway_row(g, kind)[1] == decimal(
            match kind {
                GatewayTableKind::Tq => match g.tq {
                    Some(q) => q as nat,
                    None => 0,
                },
                GatewayTableKind::Throughput => match g.throughput {
                    Some(t) => t as nat,
                    None => 0,
                },
            },
        ),
{
    assert(Seq::<char>::empty() + hex_colon(g.mac_addr@) =~= hex_colon(g.mac_addr@));
}

/// The character of a hexadecimal digit value below 16, upper case.
pub open spec fn upper_hex_char(v: int) -> char {
    if v < 10 {
        (v + 48) as char
    } else {
        (v + 55) as char
    }
}

/// Bytes are shown as upper-case hexadecimal pairs separated by `:`: for
/// `n` bytes the text has `3n - 1` characters, the `k`-th pair being the
/// high and low digit of the `k`-th byte, followed by `:` except after the
/// last byte.
pub proof fn law_hex_colon_layout(b: Seq<u8>)
    requires
        b.len() >= 1,
    ensures
        hex_colon(b).len() == 3 * b.len() - 1,
        forall|k: int|
            0 <= k < b.len() ==> hex_colon(b)[3 * k] == upper_hex_char(((#[trigger] b[k]) / 16) as int) && hex_colon(
                b,
            )[3 * k + 1] == upper_hex_char((b[k] % 16) as int),
        forall|k: int| 0 <= k < b.len() - 1 ==> #[trigger] hex_colon(b)[3 * k + 2] == ':',
    decreases b.len(),
{
    assert(HEX_UPPER_DIGITS@ == seq![
        '0', '1', '2', '3', '4', '5', '6', '7', '8', '9', 'A', 'B', 'C', 'D', 'E', 'F',
    ]);
    assert forall|v: int| 0 <= v < 16 implies HEX_UPPER_DIGITS@[v] == upper_hex_char(v) by {
        if v < 10 {
            assert(HEX_UPPER_DIGITS@[v] == (v + 48) as char);
        } else {
            assert(HEX_UPPER_DIGITS@[v] == (v + 55) as char);
        }
    }
    if b.len() > 1 {
        let p = b.drop_last();
        law_hex_colon_layout(p);
        let h = hex_colon(b);
        let n = b.len() as int;
        assert(h == hex_colon(p) + seq![':'] + hex_byte(b.last()));
        assert forall|k: int| 0 <= k < b.len() implies h[3 * k] == upper_hex_char(((#[trigger] b[k]) / 16) as int)
            && h[3 * k + 1] == upper_hex_char((b[k] % 16) as int) by {
            if k < n - 1 {
                assert(b[k] == p[k]);
            } else {
                assert(b[k] == b.last());
            }
        }
        assert forall|k: int| 0 <= k < b.len() - 1 implies #[trigger] h[3 * k + 2] == ':' by {
            if k < n - 2 {
            } else {
            }
        }
    }
}

/// The action names of the gateway event listing, and the layout of its
/// lines: the time right-aligned in at least twelve columns, two spaces,
/// `ADD`, `CHANGE` or `DELETE`, two spaces, then the gateway address, or
/// `none` where the event has none.
pub proof fn law_event_line_layout(unix_secs: u64, action: GatewayEventAction, gateway: Option<MacAddress>)
    ensures
        event_line(unix_secs, action, gateway) == pad_left(decimal(unix_secs as nat), 12) + "  "@ + (
        match action {
            GatewayEventAction::Add => "ADD"@,
            GatewayEventAction::Change => "CHANGE"@,
            GatewayEventAction::Delete => "DELETE"@,
        }) + "  "@ + (match gateway {
            Some(m) => hex_colon(m@),
            None => "none"@,
        }),
        pad_left(decimal(unix_secs as nat), 12).len() >= 12,
{
    reveal_strlit("ADD");
    reveal_strlit("CHANGE");
    reveal_strlit("DELETE");
    reveal_strlit("none");
    let d = decimal(unix_secs as nat);
    if d.len() < 12 {
        assert(pad_left(d, 12).len() == 12);
    }
    match action {
        GatewayEventAction::Add => assert(action_text(action) =~= "ADD"@),
        GatewayEventAction::Change => assert(action_text(action) =~= "CHANGE"@),
        GatewayEventAction::Delete => assert(action_text(action) =~= "DELETE"@),
    }
}

/// Counting the links attached to a mesh: no more than there are links,
/// none where no link names the mesh as `IFLA_MASTER`, and every link where
/// all of them do.
pub proof fn law_enslaved_count_bounds(links: Seq<Option<Vec<NlAttr>>>, mesh_ifindex: u32, order: ByteOrder)
    ensures
        enslaved_count(links, mesh_ifindex, order) <= links.len(),
        (forall|k: int|
            0 <= k < links.len() ==> !(#[trigger] links[k] matches Some(a) && attr_u32_spec(
                a@,
                IFLA_MASTER,
                order,
            ) == Some(mesh_ifindex))) ==> enslaved_count(links, mesh_ifindex, order) == 0,
        (forall|k: int|
            0 <= k < links.len() ==> (#[trigger] links[k] matches Some(a) && attr_u32_spec(
                a@,
                IFLA_MASTER,
                order,
            ) == Some(mesh_ifindex))) ==> enslaved_count(links, mesh_ifindex, order) == links.len(),
    decreases links.len(),
{
    if links.len() > 0 {
        let p = links.drop_last();
        law_enslaved_count_bounds(p, mesh_ifindex, order);
        assert(links.last() == links[links.len() - 1]);
        assert forall|k: int| 0 <= k < p.len() implies #[trigger] p[k] == links[k] by {}
    }
}

/// The gateway settings read from a reply are its attributes: the reply is
/// read exactly when it carries the selection class, both bandwidths and
/// the routing algorithm; then these are the values of
/// `GW_SEL_CLASS`, `GW_BANDWIDTH_DOWN` and `GW_BANDWIDTH_UP`, and the mode
/// is off, client or server for mode byte 0, 1 or 2.
pub proof fn law_gateway_info_reads_attributes(attrs: Seq<NlAttr>, order: ByteOrder)
    ensures
        gateway_info_from_attrs(attrs, order) is Ok <==> (attr_u32_spec(
            attrs,
            attribute_id(Attribute::BatadvAttrGwSelClass),
            order,
        ) is Some && attr_u32_spec(attrs, attribute_id(Attribute::BatadvAttrGwBandwidthDown), order)
            is Some && attr_u32_spec(attrs, attribute_id(Attribute::BatadvAttrGwBandwidthUp), order)
            is Some && find_payload(attrs, attribute_id(Attribute::BatadvAttrAlgoName)) is Some),
        gateway_info_from_attrs(attrs, order) matches Ok(g) ==> {
            &&& Some(g.sel_class) == attr_u32_spec(attrs, attribute_id(Attribute::BatadvAttrGwSelClass), order)
            &&& Some(g.bandwidth_down) == attr_u32_spec(
                attrs,
                attribute_id(Attribute::BatadvAttrGwBandwidthDown),
                order,
            )
            &&& Some(g.bandwidth_up) == attr_u32_spec(
                attrs,
                attribute_id(Attribute::BatadvAttrGwBandwidthUp),
                order,
            )
            &&& attr_u8_spec(attrs, attribute_id(Attribute::BatadvAttrGwMode)) == Some(0u8) ==> g.mode
                == GwMode::Off
            &&& attr_u8_spec(attrs, attribute_id(Attribute::BatadvAttrGwMode)) == Some(1u8) ==> g.mode
                == GwMode::Client
            &&& attr_u8_spec(attrs, attribute_id(Attribute::BatadvAttrGwMode)) == Some(2u8) ==> g.mode
                == GwMode::Server
        },
{
}

/// Whether a link's `IFLA_IFNAME` (type 3) reads as `n` and the
/// `IFLA_INFO_KIND` (type 1) nested in its `IFLA_LINKINFO` (type 18) reads
/// as `batadv`.
pub open spec fn named_batadv_link(attrs: Seq<NlAttr>, n: Seq<char>) -> bool {
    &&& find_payload(attrs, 3) matches Some(p)
    &&& rtattr_string(p) == Some(n)
    &&& find_payload(attrs, 18) matches Some(q)
    &&& nested_rtattrs(q) matches Some(inner)
    &&& find_pair_payload(inner, 1) matches Some(k)
    &&& rtattr_string(k) == Some("batadv"@)
}

/// A link of the dump is a mesh interface, named `n`, exactly when its
/// `IFLA_IFNAME` (type 3) reads as `n` and the `IFLA_INFO_KIND` (type 1)
/// nested in its `IFLA_LINKINFO` (type 18) reads as `batadv`.
pub proof fn law_mesh_link_is_batadv(attrs: Seq<NlAttr>, n: Seq<char>)
    ensures
        mesh_link_name(attrs) == Some(n) <==> named_batadv_link(attrs, n),
{
    reveal_strlit("batadv");
    assert("batadv"@ =~= batadv_kind());
}

/// A uevent that is a `net` gateway event naming the watched interface by
/// its `INTERFACE`, with `BATACTION` `ADD`, `CHANGE` or `DEL` once upper
/// cased, is emitted as that action; any other action is not emitted.
pub proof fn law_gateway_uevent_is_emitted(meshif_index: u32, meshif_name: Seq<char>, data: Seq<u8>)
    ensures
        ({
            let props = text_properties(utf8_lossy(data));
            data.len() > 0 && props.get("SUBSYSTEM"@) == Some("net"@) && props.get("BATTYPE"@) == Some(
                "gw"@,
            ) && props.get("INTERFACE"@) == Some(meshif_name) && props.contains_key("BATACTION"@)
                ==> {
                let up = unicode_uppercase(props["BATACTION"@]);
                &&& up == "ADD"@ ==> (uevent_decision(meshif_index, meshif_name, data) matches UeventDecisionView::Emit(
                    a,
                    _,
                ) && a == GatewayEventAction::Add)
                &&& up == "CHANGE"@ ==> (uevent_decision(meshif_index, meshif_name, data) matches UeventDecisionView::Emit(
                    a,
                    _,
                ) && a == GatewayEventAction::Change)
                &&& up == "DEL"@ ==> (uevent_decision(meshif_index, meshif_name, data) matches UeventDecisionView::Emit(
                    a,
                    _,
                ) && a == GatewayEventAction::Delete)
                &&& !(up == "ADD"@ || up == "CHANGE"@ || up == "DEL"@) ==> uevent_decision(
                    meshif_index,
                    meshif_name,
                    data,
                ) is Skip
            }
        }),
{
    let props = text_properties(utf8_lossy(data));
    if props.get("SUBSYSTEM"@) == Some("net"@) {
        assert(props.contains_key("SUBSYSTEM"@));
        assert(props != Map::<Seq<char>, Seq<char>>::empty());
    }
    law_gateway_event_action_and_address(props, meshif_index, meshif_name, data);
}

/// The mesh list keeps the dump's order and drops only links that are not
/// mesh interfaces: it has at most one name per link, none where no link
/// is a mesh interface, and, where every link is one, exactly their names
/// in order.
pub proof fn law_mesh_names_follow_the_dump(links: Seq<Vec<NlAttr>>)
    ensures
        mesh_names(links).len() <= links.len(),
        (forall|k: int| 0 <= k < links.len() ==> mesh_link_name(#[trigger] links[k]@) is None)
            ==> mesh_names(links).len() == 0,
        (forall|k: int| 0 <= k < links.len() ==> mesh_link_name(#[trigger] links[k]@) is Some)
            ==> mesh_names(links) == links.map_values(|l: Vec<NlAttr>| mesh_link_name(l@).unwrap()),
    decreases links.len(),
{
    if links.len() > 0 {
        let p = links.drop_last();
        law_mesh_names_follow_the_dump(p);
        assert forall|k: int| 0 <= k < p.len() implies #[trigger] p[k] == links[k] by {}
        assert(links.last() == links[links.len() - 1]);
        if forall|k: int| 0 <= k < links.len() ==> mesh_link_name(#[trigger] links[k]@) is Some {
            assert(links.map_values(|l: Vec<NlAttr>| mesh_link_name(l@).unwrap()) =~= p.map_values(
                |l: Vec<NlAttr>| mesh_link_name(l@).unwrap(),
            ).push(mesh_link_name(links.last()@).unwrap()));
        }
    }
}

} // verus!
