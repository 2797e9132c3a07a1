//! The client of a batman-adv mesh: how it turns a mesh selector into the
//! interface index its requests name.

use crate::error::{Error, ErrorView};
use crate::mesh::{
    field_errors, no_field_errors, selector_name, selector_valid, selector_violations,
    validation_errors_text, MeshSelector,
};
use crate::text::{all_white_space, push_str, string_from_chars};
use vstd::prelude::*;

verus! {

/// High-level client for querying and configuring batman-adv mesh
/// interfaces.
#[derive(Clone, Copy, Debug)]
pub struct Client;

impl Default for Client {
    fn default() -> (r: Self)
        ensures
            r == Client,
    {
        Client::new()
    }
}

/// How a validated selector designates its interface.
pub enum SelectorTarget {
    /// Directly by interface index.
    Index(u32),
    /// By interface name, still to be looked up.
    Name(String),
}

/// The line that reports a blank selector name.
pub open spec fn blank_name_line() -> Seq<char> {
    "name"@ + ": "@ + "Mesh selector name cannot be empty"@
}

/// The line that reports a zero selector index.
pub open spec fn zero_ifindex_line() -> Seq<char> {
    "ifindex"@ + ": "@ + "Mesh selector ifindex must be greater than 0"@
}

/// Whether `m` is the text of the validation failure of a selector with the
/// given name and index: one line per violated rule, the key, `": "`, then
/// the message. With both a blank name and a zero index the two lines may
/// come in either order.
pub open spec fn selector_error_text(name: Option<Seq<char>>, ifindex: Option<u32>, m: Seq<char>) -> bool {
    let blank = name matches Some(n) && all_white_space(n);
    if name is None && ifindex is None {
        m == "mesh_selector"@ + ": "@ + "At least one of 'name' or 'ifindex' must be set"@
    } else if blank && ifindex == Some(0u32) {
        ||| m == blank_name_line() + "\n"@ + zero_ifindex_line()
        ||| m == zero_ifindex_line() + "\n"@ + blank_name_line()
    } else if blank {
        m == blank_name_line()
    } else {
        m == zero_ifindex_line()
    }
}

impl Client {
    /// Creates a new client.
    pub fn new() -> (r: Self)
        ensures
            r == Client,
    {
        Client
    }

    /// Validates a mesh selector and tells how it designates its interface:
    /// by index when it has one, else by name. An invalid selector is an
    /// argument error carrying the text of its validation errors.
    pub fn selector_target(&self, selector: MeshSelector) -> (r: Result<SelectorTarget, Error>)
        ensures
            selector_valid(selector_name(selector), selector.ifindex) ==> match selector.ifindex {
                Some(i) => r matches Ok(SelectorTarget::Index(x)) && x == i,
                None => r matches Ok(SelectorTarget::Name(n)) && Some(n@) == selector_name(
                    selector,
                ),
            },
            !selector_valid(selector_name(selector), selector.ifindex) ==> (r matches Err(
                Error::Argument(m),
            ) && selector_error_text(selector_name(selector), selector.ifindex, m@)),
    {
        let ghost name = selector_name(selector);
        match selector.validate() {
            Ok(()) => {},
            Err(e) => {
                let text = validation_errors_text(&e);
                proof {
                    let v = selector_violations(name, selector.ifindex);
                    assert(field_errors(e) == v);
                    let blank = name matches Some(n) && all_white_space(n);
                    if name is None && selector.ifindex is None {
                        assert(v =~= no_field_errors().insert(
                            "mesh_selector"@,
                            seq![("at_least_one_field"@, Some("At least one of 'name' or 'ifindex' must be set"@))],
                        ));
                    } else if blank && selector.ifindex != Some(0u32) {
                        assert(v =~= no_field_errors().insert(
                            "name"@,
                            seq![("empty_name"@, Some("Mesh selector name cannot be empty"@))],
                        ));
                    } else if !blank && selector.ifindex == Some(0u32) {
                        assert(v =~= no_field_errors().insert(
                            "ifindex"@,
                            seq![("invalid_ifindex"@, Some("Mesh selector ifindex must be greater than 0"@))],
                        ));
                    } else if blank && selector.ifindex == Some(0u32) {
                        assert("name"@ != "ifindex"@) by {
                            reveal_strlit("name");
                            reveal_strlit("ifindex");
                            assert("name"@[0] != "ifindex"@[0]);
                        }
                        assert(v =~= no_field_errors().insert(
                            "name"@,
                            seq![("empty_name"@, Some("Mesh selector name cannot be empty"@))],
                        ).insert(
                            "ifindex"@,
                            seq![("invalid_ifindex"@, Some("Mesh selector ifindex must be greater than 0"@))],
                        ));
                        assert(text@ == blank_name_line() + "\n"@ + zero_ifindex_line()
                            || text@ == zero_ifindex_line() + "\n"@ + blank_name_line());
                    }
                }
                return Err(Error::Argument(text));
            },
        }
        if let Some(i) = selector.ifindex {
            return Ok(SelectorTarget::Index(i));
        }
        if let Some(n) = selector.name {
            return Ok(SelectorTarget::Name(n));
        }
        Err(Error::Argument("Invalid selector".to_string()))
    }

    /// The index of a mesh interface designated by name, once the name was
    /// looked up (`None` when no such interface exists).
    pub fn mesh_name_lookup(&self, name: &str, found: Option<u32>) -> (r: Result<u32, Error>)
        ensures
            match found {
                Some(i) => r == Ok::<u32, Error>(i),
                None => r matches Err(e) && e@ == ErrorView::Netlink(
                    "Error - interface '"@ + name@
                        + "' is not present or not a batman-adv interface"@,
                ),
            },
    {
        match found {
            Some(i) => Ok(i),
            None => {
                let mut m: Vec<char> = Vec::new();
                push_str(&mut m, "Error - interface '");
                push_str(&mut m, name);
                push_str(&mut m, "' is not present or not a batman-adv interface");
                Err(Error::Netlink(string_from_chars(m.as_slice())))
            },
        }
    }

    /// The index of a hard interface designated by name, once the name was
    /// looked up (`None` when no such interface exists).
    pub fn interface_name_lookup(&self, name: &str, found: Option<u32>) -> (r: Result<u32, Error>)
        ensures
            match found {
                Some(i) => r == Ok::<u32, Error>(i),
                None => r matches Err(e) && e@ == ErrorView::Netlink(
                    "Error - interface '"@ + name@ + "' is not present"@,
                ),
            },
    {
        match found {
            Some(i) => Ok(i),
            None => {
                let mut m: Vec<char> = Vec::new();
                push_str(&mut m, "Error - interface '");
                push_str(&mut m, name);
                push_str(&mut m, "' is not present");
                Err(Error::Netlink(string_from_chars(m.as_slice())))
            },
        }
    }
}

} // verus!
