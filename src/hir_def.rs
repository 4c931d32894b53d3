//! Identifiers, literals and possibly-absent nodes of the lowered program.
use vstd::prelude::*;
use num_bigint::BigUint;

verus! {

/// num_bigint's unsigned integer, the value of an integer literal; carried
/// opaquely.
#[verifier::external_type_specification]
#[verifier::external_body]
pub struct ExBigUint(BigUint);

/// An identifier.
#[derive(Debug, Clone, PartialEq, Eq, Hash, PartialOrd, Ord)]
pub struct IdentId {
    data: String,
}

impl View for IdentId {
    type V = Seq<char>;

    closed spec fn view(&self) -> Seq<char> {
        self.data@
    }
}

impl IdentId {
    pub fn new(data: String) -> (r: IdentId)
        ensures
            r@ == data@,
    {
        IdentId { data }
    }

    /// The text of the identifier.
    pub fn data(&self) -> (r: &String)
        ensures
            r@ == self@,
    {
        &self.data
    }

    /// Whether this is the `self` keyword.
    pub fn is_self(&self) -> (r: bool)
        ensures
            r == (self@ == "self"@),
    {
        let kw = "self".to_string();
        self.data == kw
    }
}

/// An integer literal.
#[derive(Debug, PartialEq, Eq, Hash)]
pub struct IntegerId {
    pub data: BigUint,
}

/// A string literal.
#[derive(Debug, Clone, PartialEq, Eq, Hash)]
pub struct StringId {
    /// The text of the string literal, without the quotes.
    pub data: String,
}

#[derive(Debug, PartialEq, Eq, Hash)]
pub enum LitKind {
    Int(IntegerId),
    String(StringId),
    Bool(bool),
}

/// A node that a syntax error may have left absent. Unlike `Option`, which
/// holds a node that is optional in valid syntax, `Partial` marks a node
/// that is required: when it is absent, the parser has already reported
/// the error.
#[derive(Debug, Clone, Copy, PartialEq, Eq, Hash)]
pub enum Partial<T> {
    Present(T),
    Absent,
}

impl<T> Partial<T> {
    /// The node, which must be present.
    pub fn unwrap(&self) -> (r: &T)
        requires
            self is Present,
        ensures
            *r == self->Present_0,
    {
        match self {
            Partial::Present(value) => value,
            Partial::Absent => vstd::pervasive::unreached(),
        }
    }
}

impl<T> Default for Partial<T> {
    fn default() -> (r: Self)
        ensures
            r is Absent,
    {
        Partial::Absent
    }
}

impl<T> From<Option<T>> for Partial<T> {
    fn from(value: Option<T>) -> (r: Self) {
        match value {
            Some(v) => Partial::Present(v),
            None => Partial::Absent,
        }
    }
}

impl<T> vstd::std_specs::convert::FromSpecImpl<Option<T>> for Partial<T> {
    open spec fn obeys_from_spec() -> bool {
        true
    }

    open spec fn from_spec(v: Option<T>) -> Self {
        match v {
            Some(x) => Partial::Present(x),
            None => Partial::Absent,
        }
    }
}

} // verus!
