//! Hardware (MAC) addresses as plain octets, parsed and rendered the way
//! the `macaddr` crate does.

use crate::text::{hex_colon, push_hex_colon, string_from_chars};
use vstd::prelude::*;

verus! {

/// A MAC address in EUI-48 (six octets) or EUI-64 (eight octets) form.
#[derive(Debug, Clone, PartialEq, Eq, Hash)]
pub struct MacAddress {
    octets: Vec<u8>,
}

impl View for MacAddress {
    type V = Seq<u8>;

    closed spec fn view(&self) -> Seq<u8> {
        self.octets@
    }
}

/// The octets that `macaddr::MacAddr::from_str` reads from a text, or
/// `None` where it refuses the text.
pub uninterp spec fn mac_text_octets(s: Seq<char>) -> Option<Seq<u8>>;

/// Parses a MAC address with `macaddr::MacAddr::from_str` and hands back its
/// octets (`MacAddr::as_bytes`). The result is named by `mac_text_octets`;
/// the parser yields either an EUI-48 or an EUI-64 address.
#[verifier::external_body]
fn parse_mac_octets(s: &str) -> (r: Option<Vec<u8>>)
    ensures
        match r {
            Some(v) => mac_text_octets(s@) == Some(v@),
            None => mac_text_octets(s@) is None,
        },
        r matches Some(v) ==> (v@.len() == 6 || v@.len() == 8),
{
    s.parse::<macaddr::MacAddr>().ok().map(|m| m.as_bytes().to_vec())
}

impl MacAddress {
    /// Parses a MAC address from its text form (for example
    /// `60:09:c3:aa:bb:cc`).
    pub fn parse(s: &str) -> (r: Option<MacAddress>)
        ensures
            match r {
                Some(m) => mac_text_octets(s@) == Some(m@),
                None => mac_text_octets(s@) is None,
            },
    {
        match parse_mac_octets(s) {
            Some(v) => Some(MacAddress { octets: v }),
            None => None,
        }
    }

    /// An EUI-48 address from its six octets.
    pub fn from_octets(octets: [u8; 6]) -> (r: MacAddress)
        ensures
            r@ == octets@,
    {
        let v = vec![octets[0], octets[1], octets[2], octets[3], octets[4], octets[5]];
        assert(v@ =~= octets@);
        MacAddress { octets: v }
    }

    /// The octets of the address.
    pub fn octets(&self) -> (r: &[u8])
        ensures
            r@ == self@,
    {
        self.octets.as_slice()
    }

    /// The address as upper-case hexadecimal pairs joined by `:`, which is
    /// how `macaddr` displays it.
    pub fn to_text(&self) -> (r: String)
        ensures
            r@ == hex_colon(self@),
    {
        let mut out: Vec<char> = Vec::new();
        push_hex_colon(&mut out, self.octets.as_slice());
        string_from_chars(out.as_slice())
    }
}

impl std::str::FromStr for MacAddress {
    type Err = ();

    fn from_str(s: &str) -> (r: Result<MacAddress, ()>)
        ensures
            match r {
                Ok(m) => mac_text_octets(s@) == Some(m@),
                Err(_) => mac_text_octets(s@) is None,
            },
    {
        match MacAddress::parse(s) {
            Some(m) => Ok(m),
            None => Err(()),
        }
    }
}

} // verus!
