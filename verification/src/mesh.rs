//! Selection of a batman-adv mesh interface by name or by interface index,
//! and its validation.

use crate::text::{all_white_space, is_blank};
use std::borrow::Cow;
use validator::ValidationErrors;
use vstd::prelude::*;

verus! {

/// `validator::ValidationErrors`, held through the validation logic.
#[verifier::external_type_specification]
#[verifier::external_body]
pub struct ExValidationErrors(validator::ValidationErrors);

/// One field-level validation error: its code and its optional message.
pub type FieldError = (Seq<char>, Option<Seq<char>>);

/// What a `ValidationErrors` holds: each key of its map, with the code and
/// message of every field-level error recorded under that key, in the order
/// they were added.
pub uninterp spec fn field_errors(e: ValidationErrors) -> Map<Seq<char>, Seq<FieldError>>;

/// The contents of a collection with no entry.
pub open spec fn no_field_errors() -> Map<Seq<char>, Seq<FieldError>> {
    Map::empty()
}

/// `ValidationErrors::new`: a collection with no entry.
#[verifier::external_body]
fn new_validation_errors() -> (r: ValidationErrors)
    ensures
        field_errors(r) == no_field_errors(),
{
    ValidationErrors::new()
}

/// `ValidationErrors::add` with a `ValidationError` made of the given code
/// and message and no parameter. On a key not yet present it stores a
/// field entry holding that one error.
#[verifier::external_body]
fn add_field_error(
    errors: &mut ValidationErrors,
    field: &'static str,
    code: &'static str,
    message: &'static str,
)
    requires
        !field_errors(*old(errors)).contains_key(field@),
    ensures
        field_errors(*final(errors)) == field_errors(*old(errors)).insert(
            field@,
            seq![(code@, Some(message@))],
        ),
{
    errors.add(
        field,
        validator::ValidationError {
            code: Cow::from(code),
            message: Some(Cow::from(message)),
            params: std::collections::HashMap::new(),
        },
    );
}

/// `ValidationErrors::is_empty`: whether the collection has no entry.
#[verifier::external_body]
fn validation_errors_is_empty(errors: &ValidationErrors) -> (r: bool)
    ensures
        r == (field_errors(*errors) == no_field_errors()),
{
    errors.is_empty()
}

/// The text of a `ValidationErrors` (its `Display` impl, through
/// `to_string`): for each key, the key, `": "` and the messages of its
/// errors, one key per line. The keys are written in the order in which the
/// underlying hash map is walked, so for two keys each holding one error
/// with a message either order may come; collections of other shapes are
/// left unstated.
#[verifier::external_body]
pub(crate) fn validation_errors_text(errors: &ValidationErrors) -> (r: String)
    ensures
        forall|f: Seq<char>, c: Seq<char>, m: Seq<char>|
            field_errors(*errors) == no_field_errors().insert(f, seq![(c, Some(m))]) ==> r@ == f
                + ": "@ + m,
        forall|f1: Seq<char>, c1: Seq<char>, m1: Seq<char>, f2: Seq<char>, c2: Seq<char>, m2: Seq<char>|
            f1 != f2 && field_errors(*errors) == #[trigger] no_field_errors().insert(
                f1,
                seq![(c1, Some(m1))],
            ).insert(f2, seq![(c2, Some(m2))]) ==> (r@ == f1 + ": "@ + m1 + "\n"@ + f2 + ": "@ + m2
                || r@ == f2 + ": "@ + m2 + "\n"@ + f1 + ": "@ + m1),
{
    errors.to_string()
}

/// Selects a batman-adv mesh interface by interface name, by interface
/// index, or by both.
#[derive(Clone, Debug, PartialEq, Eq)]
pub struct MeshSelector {
    /// The interface name (for example `"bat0"`).
    pub name: Option<String>,
    /// The Linux interface index.
    pub ifindex: Option<u32>,
}

/// The name of a selector, as characters.
pub open spec fn selector_name(s: MeshSelector) -> Option<Seq<char>> {
    match s.name {
        Some(n) => Some(n@),
        None => None,
    }
}

/// The validation errors of a selector with the given name and index:
/// `mesh_selector` when neither is set, `name` when the name is blank,
/// `ifindex` when the index is zero.
pub open spec fn selector_violations(name: Option<Seq<char>>, ifindex: Option<u32>) -> Map<
    Seq<char>,
    Seq<FieldError>,
> {
    let m0 = if name is None && ifindex is None {
        Map::empty().insert(
            "mesh_selector"@,
            seq![("at_least_one_field"@, Some("At least one of 'name' or 'ifindex' must be set"@))],
        )
    } else {
        Map::empty()
    };
    let m1 = if name matches Some(n) && all_white_space(n) {
        m0.insert("name"@, seq![("empty_name"@, Some("Mesh selector name cannot be empty"@))])
    } else {
        m0
    };
    if ifindex == Some(0u32) {
        m1.insert(
            "ifindex"@,
            seq![("invalid_ifindex"@, Some("Mesh selector ifindex must be greater than 0"@))],
        )
    } else {
        m1
    }
}

/// Whether a selector with the given name and index is valid.
pub open spec fn selector_valid(name: Option<Seq<char>>, ifindex: Option<u32>) -> bool {
    &&& (name is Some || ifindex is Some)
    &&& !(name matches Some(n) && all_white_space(n))
    &&& ifindex != Some(0u32)
}

/// A selector is valid exactly when validating it reports no error.
pub proof fn law_selector_valid_iff_no_validation_error(name: Option<Seq<char>>, ifindex: Option<u32>)
    ensures
        selector_valid(name, ifindex) <==> selector_violations(name, ifindex) == Map::<
            Seq<char>,
            Seq<FieldError>,
        >::empty(),
{
    let e = Map::<Seq<char>, Seq<FieldError>>::empty();
    if name is None && ifindex is None {
        assert(selector_violations(name, ifindex).contains_key("mesh_selector"@));
    } else if name matches Some(n) && all_white_space(n) {
        assert(selector_violations(name, ifindex).contains_key("name"@));
    } else if ifindex == Some(0u32) {
        assert(selector_violations(name, ifindex).contains_key("ifindex"@));
    }
    assert(!e.contains_key("mesh_selector"@));
    assert(!e.contains_key("name"@));
    assert(!e.contains_key("ifindex"@));
}

impl Default for MeshSelector {
    fn default() -> (r: MeshSelector)
        ensures
            r.name is None,
            r.ifindex is None,
    {
        MeshSelector { name: None, ifindex: None }
    }
}

impl MeshSelector {
    /// A builder holding an empty selector.
    pub fn builder() -> (r: MeshSelectorBuilder)
        ensures
            r@.name is None,
            r@.ifindex is None,
    {
        MeshSelectorBuilder::new()
    }

    /// A selector naming the interface.
    pub fn with_name(name: &str) -> (r: Self)
        ensures
            selector_name(r) == Some(name@),
            r.ifindex is None,
    {
        MeshSelector { name: Some(name.to_string()), ifindex: None }
    }

    /// A selector giving the interface index.
    pub fn with_ifindex(ifindex: u32) -> (r: Self)
        ensures
            r.name is None,
            r.ifindex == Some(ifindex),
    {
        MeshSelector { name: None, ifindex: Some(ifindex) }
    }

    /// Checks that at least one of name and index is set, that a name is not
    /// blank and that an index is not zero. Every violated rule is reported,
    /// under its own key.
    pub fn validate(&self) -> (r: Result<(), ValidationErrors>)
        ensures
            r is Ok <==> selector_valid(selector_name(*self), self.ifindex),
            r matches Err(e) ==> field_errors(e) == selector_violations(
                selector_name(*self),
                self.ifindex,
            ),
    {
        let ghost name = selector_name(*self);
        let mut errors = new_validation_errors();
        proof {
            reveal_strlit("mesh_selector");
            reveal_strlit("name");
            reveal_strlit("ifindex");
        }
        if self.name.is_none() && self.ifindex.is_none() {
            add_field_error(
                &mut errors,
                "mesh_selector",
                "at_least_one_field",
                "At least one of 'name' or 'ifindex' must be set",
            );
        }
        let blank = match &self.name {
            Some(n) => is_blank(n.as_str()),
            None => false,
        };
        if blank {
            assert("mesh_selector"@ != "name"@) by {
                reveal_strlit("mesh_selector");
                reveal_strlit("name");
                assert("mesh_selector"@[0] != "name"@[0]);
            }
            add_field_error(&mut errors, "name", "empty_name", "Mesh selector name cannot be empty");
        }
        let zero = match self.ifindex {
            Some(i) => i == 0,
            None => false,
        };
        if zero {
            assert("mesh_selector"@ != "ifindex"@ && "name"@ != "ifindex"@) by {
                reveal_strlit("mesh_selector");
                reveal_strlit("name");
                reveal_strlit("ifindex");
                assert("mesh_selector"@[0] != "ifindex"@[0]);
                assert("name"@[0] != "ifindex"@[0]);
            }
            add_field_error(
                &mut errors,
                "ifindex",
                "invalid_ifindex",
                "Mesh selector ifindex must be greater than 0",
            );
        }
        proof {
            law_selector_valid_iff_no_validation_error(name, self.ifindex);
        }
        if validation_errors_is_empty(&errors) {
            Ok(())
        } else {
            Err(errors)
        }
    }
}

/// Builder of a [`MeshSelector`], validated when built.
#[derive(Debug)]
pub struct MeshSelectorBuilder {
    selector: MeshSelector,
}

impl View for MeshSelectorBuilder {
    type V = MeshSelector;

    closed spec fn view(&self) -> MeshSelector {
        self.selector
    }
}

impl Default for MeshSelectorBuilder {
    fn default() -> (r: Self)
        ensures
            r@.name is None,
            r@.ifindex is None,
    {
        MeshSelectorBuilder::new()
    }
}

impl MeshSelectorBuilder {
    /// A builder holding an empty selector.
    pub fn new() -> (r: Self)
        ensures
            r@.name is None,
            r@.ifindex is None,
    {
        MeshSelectorBuilder { selector: MeshSelector { name: None, ifindex: None } }
    }

    /// Sets the interface name.
    pub fn with_name(self, name: &str) -> (r: Self)
        ensures
            selector_name(r@) == Some(name@),
            r@.ifindex == self@.ifindex,
    {
        let mut b = self;
        b.selector.name = Some(name.to_string());
        b
    }

    /// Sets the interface index.
    pub fn with_ifindex(self, ifindex: u32) -> (r: Self)
        ensures
            selector_name(r@) == selector_name(self@),
            r@.ifindex == Some(ifindex),
    {
        let mut b = self;
        b.selector.ifindex = Some(ifindex);
        b
    }

    /// The selector, if it passes validation; otherwise its validation
    /// errors.
    pub fn build(self) -> (r: Result<MeshSelector, ValidationErrors>)
        ensures
            match r {
                Ok(s) => s == self@ && selector_valid(
                    selector_name(self@),
                    self@.ifindex,
                ),
                Err(e) => !selector_valid(selector_name(self@), self@.ifindex)
                    && field_errors(e) == selector_violations(
                    selector_name(self@),
                    self@.ifindex,
                ),
            },
    {
        match self.selector.validate() {
            Ok(()) => Ok(self.selector),
            Err(e) => Err(e),
        }
    }
}

} // verus!
