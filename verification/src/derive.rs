//! What deriving `Expression` or `Statement` for a type writes.
//!
//! A derive always writes the capability itself. For a struct it also looks
//! for the field that holds the node's token, the first field whose type is
//! a path with `Token` among its segments. If that field has a name, the
//! derive writes `Node` as well, with the text of that field's token as the
//! node's text.
//!
//! Here stands the decision, on a plain description of the type. Reading the
//! type from source and writing the impls out belong to the macro crate.

use vstd::prelude::*;
use crate::utils::text::same_text;

verus! {

/// A field of a struct.
pub struct Field {
    /// The field's name. A field of a tuple struct has none.
    pub ident: Option<String>,
    /// The segments of the field's type, where the type is a path: `a::Token`
    /// has the segments `a` and `Token`. Any other type has none.
    pub path: Option<Vec<String>>,
}

/// The mathematical value of a [`Field`].
pub ghost struct FieldView {
    pub ident: Option<Seq<char>>,
    pub path: Option<Seq<Seq<char>>>,
}

impl View for Field {
    type V = FieldView;

    open spec fn view(&self) -> FieldView {
        FieldView {
            ident: match self.ident {
                Some(ident) => Some(ident@),
                None => None,
            },
            path: match self.path {
                Some(path) => Some(path@.map_values(|segment: String| segment@)),
                None => None,
            },
        }
    }
}

/// What a type is made of.
pub enum Data {
    Struct(Vec<Field>),
    Enum,
    Union,
}

impl Data {
    /// The fields of a struct; other types have none to look at.
    pub open spec fn fields(self) -> Seq<FieldView> {
        match self {
            Data::Struct(fields) => fields@.map_values(|field: Field| field@),
            _ => Seq::empty(),
        }
    }
}

/// The type that a derive is asked for.
pub struct DeriveInput {
    pub ident: String,
    pub data: Data,
}

/// The capabilities that can be derived.
#[derive(PartialEq, Eq, Structural, Clone, Copy, Debug)]
pub enum Capability {
    Expression,
    Statement,
}

/// What a derive writes for a type: `impl` of the capability for the type
/// `ident`, and, where `token_field` names a field, `impl Node` for it, whose
/// text is that of the token in that field.
pub struct Derived {
    pub capability: Capability,
    pub ident: String,
    pub token_field: Option<String>,
}

/// The mathematical value of a [`Derived`].
pub ghost struct DerivedView {
    pub capability: Capability,
    pub ident: Seq<char>,
    pub token_field: Option<Seq<char>>,
}

impl View for Derived {
    type V = DerivedView;

    open spec fn view(&self) -> DerivedView {
        DerivedView {
            capability: self.capability,
            ident: self.ident@,
            token_field: match self.token_field {
                Some(field) => Some(field@),
                None => None,
            },
        }
    }
}

/// Whether a field holds a token: its type is a path, and one segment of the
/// path is `Token`.
pub open spec fn holds_token(field: FieldView) -> bool {
    field.path matches Some(path) && path.contains("Token"@)
}

/// The index of the first field, at or after `from`, that holds a token.
pub open spec fn first_token_field(fields: Seq<FieldView>, from: int) -> Option<int>
    decreases fields.len() - from,
{
    if from < 0 || from >= fields.len() {
        None
    } else if holds_token(fields[from]) {
        Some(from)
    } else {
        first_token_field(fields, from + 1)
    }
}

/// The name of the field from which a node's text is taken: that of the
/// first field that holds a token. There is none where no field holds a
/// token, and none where the first one that does has no name.
pub open spec fn token_field_name(fields: Seq<FieldView>) -> Option<Seq<char>> {
    match first_token_field(fields, 0) {
        Some(index) => fields[index].ident,
        None => None,
    }
}

/// What deriving a capability for a type writes.
pub open spec fn derived(capability: Capability, ident: Seq<char>, data: Data) -> DerivedView {
    DerivedView { capability, ident, token_field: token_field_name(data.fields()) }
}

/// The first field that holds a token is one that does, and no field before
/// it does; where there is none, no field holds a token.
pub proof fn lemma_first_token_field(fields: Seq<FieldView>, from: int)
    requires
        0 <= from <= fields.len(),
    ensures
        match first_token_field(fields, from) {
            Some(index) => {
                &&& from <= index < fields.len()
                &&& holds_token(fields[index])
                &&& forall|i: int| from <= i < index ==> !holds_token(fields[i])
            },
            None => forall|i: int| from <= i < fields.len() ==> !holds_token(fields[i]),
        },
    decreases fields.len() - from,
{
    if from < fields.len() && !holds_token(fields[from]) {
        lemma_first_token_field(fields, from + 1);
    }
}

/// Whether one segment of a path is `Token`.
fn names_token(path: &Vec<String>) -> (named: bool)
    ensures
        named == path@.map_values(|segment: String| segment@).contains("Token"@),
{
    let ghost segments = path@.map_values(|segment: String| segment@);
    let mut index: usize = 0;
    while index < path.len()
        invariant
            index <= path.len(),
            segments == path@.map_values(|segment: String| segment@),
            forall|i: int| 0 <= i < index ==> segments[i] != "Token"@,
        decreases path.len() - index,
    {
        if same_text(path[index].as_str(), "Token") {
            assert(segments[index as int] == "Token"@);
            return true;
        }
        index += 1;
    }
    false
}

/// The index of the first field that holds a token.
fn token_field(fields: &Vec<Field>) -> (found: Option<usize>)
    ensures
        match found {
            Some(index) => first_token_field(
                fields@.map_values(|field: Field| field@),
                0,
            ) == Some(index as int),
            None => first_token_field(fields@.map_values(|field: Field| field@), 0) is None,
        },
{
    let ghost views = fields@.map_values(|field: Field| field@);
    let mut index: usize = 0;
    while index < fields.len()
        invariant
            index <= fields.len(),
            views == fields@.map_values(|field: Field| field@),
            first_token_field(views, index as int) == first_token_field(views, 0),
        decreases fields.len() - index,
    {
        let holds = match &fields[index].path {
            Some(path) => names_token(path),
            None => false,
        };
        assert(holds == holds_token(views[index as int]));
        if holds {
            return Some(index);
        }
        index += 1;
    }
    None
}

/// What a derive of `capability` writes for a type.
fn derive(capability: Capability, input: DeriveInput) -> (written: Derived)
    ensures
        written@ == derived(capability, input.ident@, input.data),
{
    proof {
        lemma_first_token_field(input.data.fields(), 0);
    }
    let token_field = match &input.data {
        Data::Struct(fields) => match token_field(fields) {
            Some(index) => match &fields[index].ident {
                Some(ident) => Some(ident.clone()),
                None => None,
            },
            None => None,
        },
        _ => None,
    };
    Derived { capability, ident: input.ident, token_field }
}

/// What deriving `Expression` for a type writes.
pub fn expression(input: DeriveInput) -> (written: Derived)
    ensures
        written@ == derived(Capability::Expression, input.ident@, input.data),
{
    derive(Capability::Expression, input)
}

/// What deriving `Statement` for a type writes.
pub fn statement(input: DeriveInput) -> (written: Derived)
    ensures
        written@ == derived(Capability::Statement, input.ident@, input.data),
{
    derive(Capability::Statement, input)
}

} // verus!
