//! Reading the messages of a batman-adv dump reply.

use crate::error::{Error, ErrorView};
use crate::netlink::{
    AttrValueForSend, Attribute, Command, GenlMessage, GenlPayload, GenlRequest, NlAttr,
    NLMSG_DONE, NLMSG_ERROR,
};
use crate::text::{opt_chars, push_signed_decimal, push_str, signed_decimal, string_from_chars};
use vstd::prelude::*;

verus! {

/// What one message of a dump reply means.
pub enum DumpView {
    /// The dump is over.
    End,
    /// The dump failed.
    Fail(ErrorView),
    /// The message is an entry with these attributes.
    Entry(Seq<NlAttr>),
}

/// The meaning of one message of a dump reply: `NLMSG_DONE` and an error
/// message with code zero end it, an error message with another code or
/// without error payload fails it, and any other message must carry
/// attributes (else it fails with `no_payload`).
pub open spec fn dump_step_spec(msg: GenlMessage, no_payload: Seq<char>) -> DumpView {
    if msg.nl_type == NLMSG_DONE {
        DumpView::End
    } else if msg.nl_type == NLMSG_ERROR {
        match msg.payload {
            GenlPayload::Error(code) => if code == 0 {
                DumpView::End
            } else {
                DumpView::Fail(ErrorView::Netlink("Netlink error "@ + signed_decimal(code as int)))
            },
            _ => DumpView::Fail(ErrorView::Netlink("Unknown netlink error payload"@)),
        }
    } else {
        match msg.payload {
            GenlPayload::Attrs(a) => DumpView::Entry(a@),
            _ => DumpView::Fail(ErrorView::Argument(no_payload)),
        }
    }
}

/// Reads one message of a dump reply: `Ok(None)` at its end, the entry's
/// attributes, or the error that ends the dump.
pub fn dump_step<'a>(msg: &'a GenlMessage, no_payload: &str) -> (r: Result<
    Option<&'a [NlAttr]>,
    Error,
>)
    ensures
        match dump_step_spec(*msg, no_payload@) {
            DumpView::End => r matches Ok(None),
            DumpView::Fail(e) => r matches Err(x) && x@ == e,
            DumpView::Entry(a) => r matches Ok(Some(x)) && x@ == a,
        },
{
    if msg.nl_type == NLMSG_DONE {
        return Ok(None);
    }
    if msg.nl_type == NLMSG_ERROR {
        return match &msg.payload {
            GenlPayload::Error(code) => {
                if *code == 0 {
                    Ok(None)
                } else {
                    let mut m: Vec<char> = Vec::new();
                    push_str(&mut m, "Netlink error ");
                    push_signed_decimal(&mut m, *code as i64);
                    Err(Error::Netlink(string_from_chars(m.as_slice())))
                }
            },
            _ => Err(Error::Netlink("Unknown netlink error payload".to_string())),
        };
    }
    match &msg.payload {
        GenlPayload::Attrs(a) => Ok(Some(a.as_slice())),
        _ => Err(Error::Argument(no_payload.to_string())),
    }
}

/// The attributes and values of a request naming only a mesh interface.
pub open spec fn mesh_ifindex_attrs(ifindex: u32) -> Seq<(Attribute, AttrValueForSend)> {
    seq![(Attribute::BatadvAttrMeshIfindex, AttrValueForSend::U32(ifindex))]
}

/// A request of `command` that names the mesh interface `ifindex`.
pub fn mesh_request(command: Command, ifindex: u32, dump: bool, ack: bool) -> (r: GenlRequest)
    ensures
        r.command == command,
        r.dump == dump,
        r.ack == ack,
        r.attrs@ == mesh_ifindex_attrs(ifindex),
{
    let attrs = vec![(Attribute::BatadvAttrMeshIfindex, AttrValueForSend::U32(ifindex))];
    assert(attrs@ =~= mesh_ifindex_attrs(ifindex));
    GenlRequest { command, dump, ack, attrs }
}

/// The name that a table of interface name lookups gives for index `i`:
/// that of its first entry for `i`; `None` where the table has no entry for
/// `i` or the lookup found no interface.
pub open spec fn looked_up_name(table: Seq<(u32, Option<String>)>, i: u32) -> Option<Seq<char>>
    decreases table.len(),
{
    if table.len() == 0 {
        None
    } else if table[0].0 == i {
        opt_chars(table[0].1)
    } else {
        looked_up_name(table.drop_first(), i)
    }
}

/// Finds the name looked up for interface index `i`.
pub fn lookup_name(table: &[(u32, Option<String>)], i: u32) -> (r: Option<String>)
    ensures
        opt_chars(r) == looked_up_name(table@, i),
{
    let mut k: usize = 0;
    assert(table@.skip(0) == table@);
    while k < table.len()
        invariant
            k <= table.len(),
            looked_up_name(table@, i) == looked_up_name(table@.skip(k as int), i),
        decreases table.len() - k,
    {
        let ghost rest = table@.skip(k as int);
        assert(rest[0] == table@[k as int]);
        if table[k].0 == i {
            return match &table[k].1 {
                Some(n) => Some(n.clone()),
                None => None,
            };
        }
        assert(rest.drop_first() == table@.skip(k + 1));
        k = k + 1;
    }
    None
}

/// The entries read before the rest of a reply, followed by what the rest
/// gives: its entries, or the error that ends the reply.
pub open spec fn after_entries<T>(done: Seq<T>, rest: Result<Seq<T>, ErrorView>) -> Result<Seq<T>, ErrorView> {
    match rest {
        Ok(v) => Ok(done + v),
        Err(e) => Err(e),
    }
}

/// A reply whose every message was read.
pub open spec fn ok_replies(msgs: Seq<GenlMessage>) -> Seq<Result<GenlMessage, Error>> {
    msgs.map_values(|m: GenlMessage| Ok::<GenlMessage, Error>(m))
}

/// Whether a message is an entry of a dump: neither `NLMSG_DONE` nor an
/// error message, and carrying attributes.
pub open spec fn data_message(m: GenlMessage) -> bool {
    &&& m.nl_type != NLMSG_DONE
    &&& m.nl_type != NLMSG_ERROR
    &&& m.payload is Attrs
}

/// The attributes a message carries (none where it carries no attributes).
pub open spec fn message_attrs(m: GenlMessage) -> Seq<NlAttr> {
    match m.payload {
        GenlPayload::Attrs(a) => a@,
        _ => Seq::empty(),
    }
}

} // verus!
