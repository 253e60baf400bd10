use vstd::prelude::*;

verus! {

/// A generic argument inside the angle brackets of a path segment.
pub enum GenericArg {
    /// A type argument, as source text.
    Type(String),
    /// A lifetime, a constant or an associated-type binding, as source text.
    Other(String),
}

/// The first segment of a path type: `Option` in `Option<u8>`, `std` in `std::option::Option<u8>`.
pub struct Segment {
    pub ident: String,
    /// The angle-bracketed arguments of the segment; empty when it has none.
    pub args: Vec<GenericArg>,
}

/// The declared type of a member.
pub struct TypeExpr {
    /// The whole type, as source text.
    pub text: String,
    /// The first segment, when the type is a path; `None` for a reference, a tuple, an array, ...
    pub first_segment: Option<Segment>,
}

/// One entry inside `#[name(...)]`.
pub enum NestedMeta {
    /// `key = "value"` with a string literal.
    NameStr { key: String, value: String },
    /// An entry with a key but no string value: `key`, `key = 5`, `key(...)`.
    Malformed { key: String },
    /// A bare literal.
    Other,
}

/// What follows the path of an attribute.
pub enum AttrArgs {
    /// `#[name(a, b = "c", ...)]`.
    List(Vec<NestedMeta>),
    /// `#[name]` or `#[name = ...]`.
    NotList,
}

/// An attribute attached to a member.
pub struct Attr {
    /// The attribute's path, as source text (`builder`, `doc`, `serde`, ...).
    pub path: String,
    pub args: AttrArgs,
}

/// A named member of a record.
pub struct Member {
    pub name: String,
    pub ty: TypeExpr,
    pub attrs: Vec<Attr>,
}

/// The shape of a type declaration.
pub enum Shape {
    /// A struct with named members: the one shape that has a builder.
    Named(Vec<Member>),
    /// A tuple struct.
    Tuple,
    /// A unit struct.
    Unit,
    Enum,
    Union,
}

/// A type declaration handed to the expansion.
pub struct RecordDecl {
    pub name: String,
    pub shape: Shape,
}

/// Whether two strings hold the same characters.
pub fn same_text(a: &str, b: &str) -> (r: bool)
    ensures
        r == (a@ == b@),
{
    let n = a.unicode_len();
    if n != b.unicode_len() {
        return false;
    }
    let mut i: usize = 0;
    while i < n
        invariant
            n == a@.len(),
            n == b@.len(),
            i <= n,
            forall|j: int| 0 <= j < i ==> a@[j] == b@[j],
        decreases n - i,
    {
        if a.get_char(i) != b.get_char(i) {
            return false;
        }
        i = i + 1;
    }
    assert(a@ =~= b@);
    true
}

} // verus!
