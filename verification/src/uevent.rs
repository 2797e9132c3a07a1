//! Kernel uevents of batman-adv gateway changes.
//!
//! A uevent arrives as a sequence of NUL-terminated `KEY=value` strings.
//! batman-adv tags gateway changes with `BATTYPE=gw`, `BATACTION` (`ADD`,
//! `CHANGE` or `DEL`) and `BATDATA` (the gateway address).

use crate::error::{Error, ErrorView};
use crate::gateway_event::{GatewayEvent, GatewayEventAction};
use crate::mac::{mac_text_octets, MacAddress};
use crate::text::{
    chars_of, decode_utf8_lossy, parse_u32, parse_u32_spec, push_str, str_equals, string_from_chars,
    utf8_lossy,
};
use vstd::prelude::*;

verus! {

/// Listener of batman-adv gateway uevents. It holds no state: the
/// decisions on each received uevent are its associated functions.
#[derive(Debug, Clone, Copy, Default)]
pub struct UeventListener;

/// The properties of a uevent, keyed by property name; a later occurrence
/// of a key replaces an earlier one.
#[derive(Debug, Clone)]
pub struct UeventProperties {
    entries: Vec<(String, String)>,
}

/// The map described by a list of key/value pairs, later pairs winning.
pub open spec fn pairs_map(e: Seq<(Seq<char>, Seq<char>)>) -> Map<Seq<char>, Seq<char>>
    decreases e.len(),
{
    if e.len() == 0 {
        Map::empty()
    } else {
        pairs_map(e.drop_last()).insert(e.last().0, e.last().1)
    }
}

/// The key/value pairs held by a list of string pairs.
pub open spec fn entry_views(e: Seq<(String, String)>) -> Seq<(Seq<char>, Seq<char>)> {
    e.map_values(|p: (String, String)| (p.0@, p.1@))
}

impl View for UeventProperties {
    type V = Map<Seq<char>, Seq<char>>;

    closed spec fn view(&self) -> Map<Seq<char>, Seq<char>> {
        pairs_map(entry_views(self.entries@))
    }
}

/// Pairs after the last occurrence of a key leave its value unchanged.
proof fn lemma_pairs_map_suffix(e: Seq<(Seq<char>, Seq<char>)>, j: int, k: Seq<char>)
    requires
        0 <= j <= e.len(),
        forall|i: int| j <= i < e.len() ==> (#[trigger] e[i]).0 != k,
    ensures
        pairs_map(e).contains_key(k) == pairs_map(e.take(j)).contains_key(k),
        pairs_map(e).contains_key(k) ==> pairs_map(e)[k] == pairs_map(e.take(j))[k],
    decreases e.len() - j,
{
    if j < e.len() {
        let f = e.drop_last();
        assert(f.take(j) == e.take(j));
        assert forall|i: int| j <= i < f.len() implies (#[trigger] f[i]).0 != k by {
            assert(f[i] == e[i]);
        }
        lemma_pairs_map_suffix(f, j, k);
        assert(e.last() == e[e.len() - 1]);
    } else {
        assert(e.take(j) == e);
    }
}

impl UeventProperties {
    /// An empty property set.
    pub fn new() -> (r: UeventProperties)
        ensures
            r@ == Map::<Seq<char>, Seq<char>>::empty(),
    {
        let r = UeventProperties { entries: Vec::new() };
        assert(entry_views(r.entries@) =~= Seq::empty());
        r
    }

    /// Sets the value of a property.
    pub fn insert(&mut self, key: String, value: String)
        ensures
            final(self)@ == old(self)@.insert(key@, value@),
    {
        let ghost kv = key@;
        let ghost vv = value@;
        self.entries.push((key, value));
        assert(entry_views(self.entries@).drop_last() =~= entry_views(old(self).entries@));
        assert(entry_views(self.entries@).last() == (kv, vv));
    }

    /// Whether no property is set.
    pub fn is_empty(&self) -> (r: bool)
        ensures
            r == (self@ == Map::<Seq<char>, Seq<char>>::empty()),
    {
        let r = self.entries.len() == 0;
        proof {
            let e = entry_views(self.entries@);
            if r {
                assert(e =~= Seq::empty());
            } else {
                assert(pairs_map(e).contains_key(e.last().0));
                assert(!Map::<Seq<char>, Seq<char>>::empty().contains_key(e.last().0));
            }
        }
        r
    }

    /// The value of a property, if it is set.
    pub fn get(&self, key: &str) -> (r: Option<&String>)
        ensures
            match r {
                Some(v) => self@.contains_key(key@) && self@[key@] == v@,
                None => !self@.contains_key(key@),
            },
    {
        let ghost e = entry_views(self.entries@);
        let mut j: usize = self.entries.len();
        while j > 0
            invariant
                j <= self.entries.len(),
                e == entry_views(self.entries@),
                forall|i: int| j <= i < e.len() ==> (#[trigger] e[i]).0 != key@,
            decreases j,
        {
            let (k, v) = &self.entries[j - 1];
            if str_equals(k.as_str(), key) {
                proof {
                    assert(e[j - 1] == (k@, v@));
                    lemma_pairs_map_suffix(e, j as int, key@);
                    let t = e.take(j as int);
                    assert(t.drop_last() == e.take(j - 1));
                    assert(t.last() == e[j - 1]);
                }
                return Some(v);
            }
            j = j - 1;
        }
        proof {
            lemma_pairs_map_suffix(e, 0, key@);
            assert(e.take(0) =~= Seq::empty());
        }
        None
    }
}

/// The pieces of `s` between `NUL` characters, as `str::split('\0')` yields
/// them (a trailing `NUL` gives a trailing empty piece).
pub open spec fn split_nul(s: Seq<char>) -> Seq<Seq<char>>
    decreases s.len(),
{
    if s.len() == 0 {
        seq![Seq::empty()]
    } else {
        let p = split_nul(s.drop_last());
        if s.last() == '\0' {
            p.push(Seq::empty())
        } else {
            p.update(p.len() - 1, p.last().push(s.last()))
        }
    }
}

/// `l` split at its first `=`, as `str::split_once('=')` does.
pub open spec fn split_once_eq(l: Seq<char>) -> Option<(Seq<char>, Seq<char>)>
    decreases l.len(),
{
    if l.len() == 0 {
        None
    } else if l[0] == '=' {
        Some((Seq::empty(), l.drop_first()))
    } else {
        match split_once_eq(l.drop_first()) {
            Some((k, v)) => Some((seq![l[0]] + k, v)),
            None => None,
        }
    }
}

/// The properties that a list of `KEY=value` lines sets; lines without `=`
/// are ignored and a later line wins over an earlier one with the same key.
pub open spec fn lines_properties(ls: Seq<Seq<char>>) -> Map<Seq<char>, Seq<char>>
    decreases ls.len(),
{
    if ls.len() == 0 {
        Map::empty()
    } else {
        let m = lines_properties(ls.drop_last());
        match split_once_eq(ls.last()) {
            Some((k, v)) => m.insert(k, v),
            None => m,
        }
    }
}

/// The properties that a decoded uevent text sets.
pub open spec fn text_properties(text: Seq<char>) -> Map<Seq<char>, Seq<char>> {
    lines_properties(split_nul(text))
}

/// The upper-case form of a text, as `str::to_uppercase` computes it.
pub uninterp spec fn unicode_uppercase(s: Seq<char>) -> Seq<char>;

/// Upper-cases a text with `str::to_uppercase`; the result is named by
/// `unicode_uppercase`.
#[verifier::external_body]
fn to_uppercase(s: &str) -> (r: String)
    ensures
        r@ == unicode_uppercase(s@),
{
    s.to_uppercase()
}

/// Splitting at `NUL` always gives at least one piece.
pub(crate) proof fn lemma_split_nul_nonempty(s: Seq<char>)
    ensures
        split_nul(s).len() >= 1,
    decreases s.len(),
{
    if s.len() > 0 {
        lemma_split_nul_nonempty(s.drop_last());
    }
}

/// The first `=` of a line decides how `split_once_eq` splits it.
pub(crate) proof fn lemma_split_once_at(l: Seq<char>, i: int)
    requires
        0 <= i <= l.len(),
        forall|j: int| 0 <= j < i ==> l[j] != '=',
    ensures
        i < l.len() && l[i] == '=' ==> split_once_eq(l) == Some((l.take(i), l.skip(i + 1))),
        i == l.len() ==> split_once_eq(l) is None,
    decreases i,
{
    if i > 0 {
        let t = l.drop_first();
        assert forall|j: int| 0 <= j < i - 1 implies t[j] != '=' by {
            assert(t[j] == l[j + 1]);
        }
        lemma_split_once_at(t, i - 1);
        if i < l.len() && l[i] == '=' {
            assert(t[i - 1] == l[i]);
            assert(seq![l[0]] + t.take(i - 1) =~= l.take(i));
            assert(t.skip(i) =~= l.skip(i + 1));
        }
    } else {
        if l.len() > 0 && l[0] == '=' {
            assert(l.take(0) =~= Seq::<char>::empty());
            assert(l.skip(1) =~= l.drop_first());
        }
    }
}

/// Splits a line at its first `=`.
fn split_line(l: &[char]) -> (r: Option<(String, String)>)
    ensures
        match r {
            Some((k, v)) => split_once_eq(l@) == Some((k@, v@)),
            None => split_once_eq(l@) is None,
        },
{
    let mut i: usize = 0;
    while i < l.len()
        invariant
            i <= l.len(),
            forall|j: int| 0 <= j < i ==> l@[j] != '=',
        decreases l.len() - i,
    {
        if l[i] == '=' {
            proof {
                lemma_split_once_at(l@, i as int);
            }
            let k = string_from_chars(&l[0..i]);
            let v = string_from_chars(&l[i + 1..l.len()]);
            return Some((k, v));
        }
        i = i + 1;
    }
    proof {
        lemma_split_once_at(l@, i as int);
    }
    None
}


/// The address carried by an optional MAC, as octets.
pub open spec fn mac_octets_view(m: Option<MacAddress>) -> Option<Seq<u8>> {
    match m {
        Some(a) => Some(a@),
        None => None,
    }
}

/// The gateway action that an upper-cased `BATACTION` value names.
pub open spec fn action_from_upper(up: Seq<char>) -> Option<GatewayEventAction> {
    if up == "ADD"@ {
        Some(GatewayEventAction::Add)
    } else if up == "CHANGE"@ {
        Some(GatewayEventAction::Change)
    } else if up == "DEL"@ {
        Some(GatewayEventAction::Delete)
    } else {
        None
    }
}

/// The action and gateway address that a set of uevent properties
/// describes, or the error that refuses it. A removed gateway carries no
/// address; an added or changed one carries the `BATDATA` address when that
/// parses.
pub open spec fn gateway_event_outcome(props: Map<Seq<char>, Seq<char>>) -> Result<
    (GatewayEventAction, Option<Seq<u8>>),
    ErrorView,
> {
    if props.get("BATTYPE"@) != Some("gw"@) {
        Err(ErrorView::Argument("not a gateway uevent"@))
    } else if !props.contains_key("BATACTION"@) {
        Err(ErrorView::Argument("missing BATACTION"@))
    } else {
        let a = props["BATACTION"@];
        match action_from_upper(unicode_uppercase(a)) {
            Some(GatewayEventAction::Delete) => Ok((GatewayEventAction::Delete, None)),
            Some(act) => Ok(
                (
                    act,
                    match props.get("BATDATA"@) {
                        Some(t) => mac_text_octets(t),
                        None => None,
                    },
                ),
            ),
            None => Err(ErrorView::Argument("unknown BATACTION: "@ + a)),
        }
    }
}

/// What the listener does with one received uevent.
#[derive(Debug)]
pub enum UeventDecision {
    /// The socket reported end of stream: the listener stops.
    Stop,
    /// The uevent is not a valid gateway event of the watched interface.
    Skip,
    /// The uevent is a gateway event of the watched interface.
    Emit(GatewayEvent),
}

/// The decision on a uevent, in mathematical form.
pub enum UeventDecisionView {
    Stop,
    Skip,
    Emit(GatewayEventAction, Option<Seq<u8>>),
}

/// Whether a uevent names the watched interface, by name or by index.
pub open spec fn uevent_names_interface(
    props: Map<Seq<char>, Seq<char>>,
    meshif_index: u32,
    meshif_name: Seq<char>,
) -> bool {
    ||| props.get("INTERFACE"@) == Some(meshif_name)
    ||| (props.contains_key("IFINDEX"@) && parse_u32_spec(props["IFINDEX"@]) == Some(
        meshif_index,
    ))
}

/// The decision on a received uevent of `data.len()` bytes.
pub open spec fn uevent_decision(meshif_index: u32, meshif_name: Seq<char>, data: Seq<u8>) -> UeventDecisionView {
    if data.len() == 0 {
        UeventDecisionView::Stop
    } else {
        let props = text_properties(utf8_lossy(data));
        if props == Map::<Seq<char>, Seq<char>>::empty() {
            UeventDecisionView::Skip
        } else if props.get("SUBSYSTEM"@) != Some("net"@) {
            UeventDecisionView::Skip
        } else if props.get("BATTYPE"@) != Some("gw"@) {
            UeventDecisionView::Skip
        } else if !uevent_names_interface(props, meshif_index, meshif_name) {
            UeventDecisionView::Skip
        } else {
            match gateway_event_outcome(props) {
                Ok((a, m)) => UeventDecisionView::Emit(a, m),
                Err(_) => UeventDecisionView::Skip,
            }
        }
    }
}

/// Whether a property is set to exactly the given text.
fn property_is(props: &UeventProperties, key: &str, expected: &str) -> (r: bool)
    ensures
        r == (props@.get(key@) == Some(expected@)),
{
    match props.get(key) {
        Some(v) => str_equals(v.as_str(), expected),
        None => false,
    }
}

impl UeventListener {
    /// Reads the properties of a decoded uevent text. Fails when the text
    /// sets no property.
    pub fn parse_uevent_text(text: &str) -> (r: Result<UeventProperties, Error>)
        ensures
            match r {
                Ok(p) => p@ == text_properties(text@) && p@ != Map::<
                    Seq<char>,
                    Seq<char>,
                >::empty(),
                Err(e) => text_properties(text@) == Map::<Seq<char>, Seq<char>>::empty() && e@
                    == ErrorView::Argument("empty uevent properties"@),
            },
    {
        let cs = chars_of(text);
        let mut props = UeventProperties::new();
        let mut cur: Vec<char> = Vec::new();
        let ghost mut done: Seq<Seq<char>> = Seq::empty();
        let mut i: usize = 0;
        while i < cs.len()
            invariant
                i <= cs.len(),
                cs@ == text@,
                split_nul(cs@.take(i as int)) == done.push(cur@),
                props@ == lines_properties(done),
            decreases cs.len() - i,
        {
            let c = cs[i];
            proof {
                let t = cs@.take(i + 1);
                assert(t.drop_last() == cs@.take(i as int));
                assert(t.last() == c);
            }
            if c == '\0' {
                let line = split_line(cur.as_slice());
                proof {
                    let d2 = done.push(cur@);
                    assert(d2.drop_last() == done);
                    assert(d2.last() == cur@);
                    done = d2;
                }
                match line {
                    Some((k, v)) => props.insert(k, v),
                    None => {},
                }
                cur = Vec::new();
            } else {
                let ghost before = cur@;
                cur.push(c);
                proof {
                    lemma_split_nul_nonempty(cs@.take(i as int));
                    assert(done.push(before).update(done.len() as int, cur@) =~= done.push(cur@));
                }
            }
            i = i + 1;
        }
        let line = split_line(cur.as_slice());
        proof {
            assert(cs@.take(cs.len() as int) == cs@);
            let d2 = done.push(cur@);
            assert(d2.drop_last() == done);
            assert(d2.last() == cur@);
        }
        match line {
            Some((k, v)) => props.insert(k, v),
            None => {},
        }
        if props.is_empty() {
            Err(Error::Argument("empty uevent properties".to_string()))
        } else {
            Ok(props)
        }
    }

    /// Parses the `NUL`-separated `KEY=value` strings of a raw uevent. The
    /// bytes are decoded as UTF-8, invalid sequences replaced.
    pub fn parse_uevent_properties(data: &[u8]) -> (r: Result<UeventProperties, Error>)
        ensures
            match r {
                Ok(p) => p@ == text_properties(utf8_lossy(data@)) && p@ != Map::<
                    Seq<char>,
                    Seq<char>,
                >::empty(),
                Err(e) => text_properties(utf8_lossy(data@)) == Map::<
                    Seq<char>,
                    Seq<char>,
                >::empty() && e@ == ErrorView::Argument("empty uevent properties"@),
            },
    {
        let text = decode_utf8_lossy(data);
        Self::parse_uevent_text(text.as_str())
    }

    /// The gateway action named by an upper-cased `BATACTION` value: `ADD`,
    /// `CHANGE` or `DEL`, and nothing else.
    pub fn action_of_upper(up: &str) -> (r: Option<GatewayEventAction>)
        ensures
            r == action_from_upper(up@),
    {
        if str_equals(up, "ADD") {
            Some(GatewayEventAction::Add)
        } else if str_equals(up, "CHANGE") {
            Some(GatewayEventAction::Change)
        } else if str_equals(up, "DEL") {
            Some(GatewayEventAction::Delete)
        } else {
            None
        }
    }

    /// Turns the properties of a uevent into a gateway event of the mesh
    /// interface `meshif_index`, stamped with the current time.
    pub fn parse_gateway_event(meshif_index: u32, props: UeventProperties) -> (r: Result<
        GatewayEvent,
        Error,
    >)
        ensures
            match gateway_event_outcome(props@) {
                Ok((a, m)) => r matches Ok(ev) && ev.meshif == meshif_index && ev.action == a
                    && mac_octets_view(ev.gateway_mac) == m,
                Err(ev) => r matches Err(e) && e@ == ev,
            },
    {
        if !property_is(&props, "BATTYPE", "gw") {
            return Err(Error::Argument("not a gateway uevent".to_string()));
        }
        let action_str = match props.get("BATACTION") {
            Some(v) => v,
            None => {
                return Err(Error::Argument("missing BATACTION".to_string()));
            },
        };
        let up = to_uppercase(action_str.as_str());
        let action = match Self::action_of_upper(up.as_str()) {
            Some(a) => a,
            None => {
                let mut msg: Vec<char> = Vec::new();
                push_str(&mut msg, "unknown BATACTION: ");
                push_str(&mut msg, action_str.as_str());
                return Err(Error::Argument(string_from_chars(msg.as_slice())));
            },
        };
        let gateway_mac = match action {
            GatewayEventAction::Delete => None,
            _ => match props.get("BATDATA") {
                Some(t) => MacAddress::parse(t.as_str()),
                None => None,
            },
        };
        Ok(GatewayEvent::new(meshif_index, action, gateway_mac))
    }

    /// Decides what the listener of mesh interface `meshif_index` (named
    /// `meshif_name`) does with one received uevent: stop on an empty read,
    /// skip what is malformed, not a `net` gateway event, about another
    /// interface or not a valid gateway event, and emit the rest.
    pub fn handle_uevent(meshif_index: u32, meshif_name: &str, data: &[u8]) -> (r: UeventDecision)
        ensures
            match uevent_decision(meshif_index, meshif_name@, data@) {
                UeventDecisionView::Stop => r is Stop,
                UeventDecisionView::Skip => r is Skip,
                UeventDecisionView::Emit(a, m) => r matches UeventDecision::Emit(ev)
                    && ev.meshif == meshif_index && ev.action == a && mac_octets_view(
                    ev.gateway_mac,
                ) == m,
            },
    {
        if data.len() == 0 {
            return UeventDecision::Stop;
        }
        let props = match Self::parse_uevent_properties(data) {
            Ok(p) => p,
            Err(_) => {
                return UeventDecision::Skip;
            },
        };
        if !property_is(&props, "SUBSYSTEM", "net") {
            return UeventDecision::Skip;
        }
        if !property_is(&props, "BATTYPE", "gw") {
            return UeventDecision::Skip;
        }
        let by_name = property_is(&props, "INTERFACE", meshif_name);
        let by_index = match props.get("IFINDEX") {
            Some(t) => match parse_u32(t.as_str()) {
                Some(n) => n == meshif_index,
                None => false,
            },
            None => false,
        };
        if !(by_name || by_index) {
            return UeventDecision::Skip;
        }
        match Self::parse_gateway_event(meshif_index, props) {
            Ok(ev) => UeventDecision::Emit(ev),
            Err(_) => UeventDecision::Skip,
        }
    }
}

} // verus!
