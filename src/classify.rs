use vstd::prelude::*;
use crate::decl::{Attr, AttrArgs, GenericArg, Member, NestedMeta, TypeExpr};
use crate::decl::same_text;

verus! {

/// The single type argument of `ty` when it is written `wrapper<T>`, judged by
/// its first path segment alone.
pub open spec fn spec_wrapped(ty: TypeExpr, wrapper: Seq<char>) -> Option<Seq<char>> {
    match ty.first_segment {
        Some(seg) => if seg.ident@ == wrapper && seg.args@.len() == 1 {
            match seg.args@[0] {
                GenericArg::Type(t) => Some(t@),
                GenericArg::Other(_) => None,
            }
        } else {
            None
        },
        None => None,
    }
}

/// Returns `T` when `ty` is written `wrapper<T>` with exactly one type
/// argument. A fully qualified spelling (`std::option::Option<T>`) is not
/// recognised: only the first path segment is looked at.
pub fn single_generic_type_of(ty: &TypeExpr, wrapper: &str) -> (r: Option<String>)
    ensures
        r.is_some() == spec_wrapped(*ty, wrapper@).is_some(),
        r.is_some() ==> r.unwrap()@ == spec_wrapped(*ty, wrapper@).unwrap(),
{
    match &ty.first_segment {
        Some(seg) => {
            if same_text(seg.ident.as_str(), wrapper) && seg.args.len() == 1 {
                match &seg.args[0] {
                    GenericArg::Type(t) => Some(t.clone()),
                    GenericArg::Other(_) => None,
                }
            } else {
                None
            }
        }
        None => None,
    }
}

/// How the builder stores a member.
#[derive(Clone, Copy, Debug, PartialEq, Eq, Structural)]
pub enum SlotKind {
    /// Must be set before the builder can finish.
    Required,
    /// Declared `Option<T>`: may be left unset.
    Optional,
    /// Declared `Vec<T>`: starts empty.
    Repeated,
}

/// The slot kind of a member declared with type `ty`.
pub open spec fn spec_slot_kind(ty: TypeExpr) -> SlotKind {
    if spec_wrapped(ty, "Option"@) is Some {
        SlotKind::Optional
    } else if spec_wrapped(ty, "Vec"@) is Some {
        SlotKind::Repeated
    } else {
        SlotKind::Required
    }
}

/// The type a slot holds: `T` for `Option<T>` and `Vec<T>`, the declared type otherwise.
pub open spec fn spec_inner_type(ty: TypeExpr) -> Seq<char> {
    if spec_wrapped(ty, "Option"@) is Some {
        spec_wrapped(ty, "Option"@).unwrap()
    } else if spec_wrapped(ty, "Vec"@) is Some {
        spec_wrapped(ty, "Vec"@).unwrap()
    } else {
        ty.text@
    }
}

/// A classified member type.
pub struct Slot {
    pub kind: SlotKind,
    /// The element or value type, as source text.
    pub inner: String,
}

/// Classifies a member's declared type: `Option<T>` is optional, `Vec<T>` is
/// repeated, anything else is required.
pub fn classify(ty: &TypeExpr) -> (r: Slot)
    ensures
        r.kind == spec_slot_kind(*ty),
        r.inner@ == spec_inner_type(*ty),
{
    match single_generic_type_of(ty, "Option") {
        Some(t) => Slot { kind: SlotKind::Optional, inner: t },
        None => match single_generic_type_of(ty, "Vec") {
            Some(t) => Slot { kind: SlotKind::Repeated, inner: t },
            None => Slot { kind: SlotKind::Required, inner: ty.text.clone() },
        },
    }
}

/// What is wrong with a `#[builder(...)]` directive.
#[derive(Clone, Copy, Debug, PartialEq, Eq, Structural)]
pub enum DirectiveProblem {
    /// `#[builder]` or `#[builder = ...]`: not a list.
    UnsupportedFormat,
    /// `#[builder(key = "...")]` with a key other than `each`.
    WrongKey,
    /// `each` without a string value: `#[builder(each)]`, `#[builder(each = 5)]`.
    NotAString,
    /// The `each` value does not name a method.
    NotAnIdentifier,
    /// `each` on a member that is not a `Vec`.
    NotRepeated,
}

/// The diagnostic text of a directive problem.
pub open spec fn spec_message(p: DirectiveProblem) -> Seq<char> {
    match p {
        DirectiveProblem::UnsupportedFormat => "Unsupported attribute format"@,
        DirectiveProblem::WrongKey => "expected `builder(each = \"...\")`"@,
        DirectiveProblem::NotAString => "expected `builder(each = \"...\")`"@,
        DirectiveProblem::NotAnIdentifier => "`each` must name a method"@,
        DirectiveProblem::NotRepeated => "#[builder(each = \"...\")] attribute is only able to be set on `Vec` type"@,
    }
}

impl DirectiveProblem {
    /// The diagnostic shown for this problem.
    pub fn message(&self) -> (r: String)
        ensures
            r@ == spec_message(*self),
    {
        match self {
            DirectiveProblem::UnsupportedFormat => String::from_str("Unsupported attribute format"),
            DirectiveProblem::WrongKey => String::from_str("expected `builder(each = \"...\")`"),
            DirectiveProblem::NotAString => String::from_str("expected `builder(each = \"...\")`"),
            DirectiveProblem::NotAnIdentifier => String::from_str("`each` must name a method"),
            DirectiveProblem::NotRepeated => String::from_str(
                "#[builder(each = \"...\")] attribute is only able to be set on `Vec` type",
            ),
        }
    }
}

/// What the directive scan finds on a member.
pub enum DirectiveView {
    Each(Seq<char>),
    Problem(DirectiveProblem),
}

/// The first entry of `items` from position `k` on that has a key.
pub open spec fn spec_items_directive(items: Seq<NestedMeta>, k: nat) -> Option<DirectiveView>
    decreases items.len() - k,
{
    if k >= items.len() {
        None
    } else {
        match items[k as int] {
            NestedMeta::NameStr { key, value } => if key@ == "each"@ {
                Some(DirectiveView::Each(value@))
            } else {
                Some(DirectiveView::Problem(DirectiveProblem::WrongKey))
            },
            NestedMeta::Malformed { key } => if key@ == "each"@ {
                Some(DirectiveView::Problem(DirectiveProblem::NotAString))
            } else {
                Some(DirectiveView::Problem(DirectiveProblem::WrongKey))
            },
            NestedMeta::Other => spec_items_directive(items, k + 1),
        }
    }
}

/// The first directive found in the `builder` attributes of `attrs` from position `k` on.
pub open spec fn spec_attrs_directive(attrs: Seq<Attr>, k: nat) -> Option<DirectiveView>
    decreases attrs.len() - k,
{
    if k >= attrs.len() {
        None
    } else if attrs[k as int].path@ == "builder"@ {
        match attrs[k as int].args {
            AttrArgs::NotList => Some(DirectiveView::Problem(DirectiveProblem::UnsupportedFormat)),
            AttrArgs::List(items) => match spec_items_directive(items@, 0) {
                Some(d) => Some(d),
                None => spec_attrs_directive(attrs, k + 1),
            },
        }
    } else {
        spec_attrs_directive(attrs, k + 1)
    }
}

/// The position of the attribute at which the scan from `k` on stops: the
/// length of `attrs` when no attribute holds a directive.
pub open spec fn spec_attrs_stop(attrs: Seq<Attr>, k: nat) -> nat
    decreases attrs.len() - k,
{
    if k >= attrs.len() {
        attrs.len()
    } else if attrs[k as int].path@ == "builder"@ {
        match attrs[k as int].args {
            AttrArgs::NotList => k,
            AttrArgs::List(items) => if spec_items_directive(items@, 0) is Some {
                k
            } else {
                spec_attrs_stop(attrs, k + 1)
            },
        }
    } else {
        spec_attrs_stop(attrs, k + 1)
    }
}

/// The position, among a member's attributes, of the one that holds its directive.
pub open spec fn spec_directive_attr(m: Member) -> nat {
    spec_attrs_stop(m.attrs@, 0)
}

/// The directive of a member, if any.
pub open spec fn spec_directive(m: Member) -> Option<DirectiveView> {
    spec_attrs_directive(m.attrs@, 0)
}

/// The spec form of a directive scan's result.
pub open spec fn directive_view(r: Option<Result<String, DirectiveProblem>>) -> Option<DirectiveView> {
    match r {
        Some(Ok(s)) => Some(DirectiveView::Each(s@)),
        Some(Err(p)) => Some(DirectiveView::Problem(p)),
        None => None,
    }
}

fn items_directive(items: &Vec<NestedMeta>) -> (r: Option<Result<String, DirectiveProblem>>)
    ensures
        directive_view(r) == spec_items_directive(items@, 0),
{
    let mut i: usize = 0;
    while i < items.len()
        invariant
            i <= items.len(),
            spec_items_directive(items@, 0) == spec_items_directive(items@, i as nat),
        decreases items.len() - i,
    {
        match &items[i] {
            NestedMeta::NameStr { key, value } => {
                if same_text(key.as_str(), "each") {
                    return Some(Ok(value.clone()));
                } else {
                    return Some(Err(DirectiveProblem::WrongKey));
                }
            }
            NestedMeta::Malformed { key } => {
                if same_text(key.as_str(), "each") {
                    return Some(Err(DirectiveProblem::NotAString));
                } else {
                    return Some(Err(DirectiveProblem::WrongKey));
                }
            }
            NestedMeta::Other => {}
        }
        i = i + 1;
    }
    None
}

/// Reads the `#[builder(each = "...")]` directive of a member: the value of the
/// first keyed entry of its `builder` attributes, or the problem with it.
pub fn builder_attr_each(m: &Member) -> (r: Option<Result<String, DirectiveProblem>>)
    ensures
        directive_view(r) == spec_directive(*m),
{
    directive_position(m).0
}

/// The directive of a member together with the position of the attribute that holds it.
pub fn directive_position(m: &Member) -> (r: (Option<Result<String, DirectiveProblem>>, usize))
    ensures
        directive_view(r.0) == spec_directive(*m),
        r.1 as nat == spec_directive_attr(*m),
{
    let attrs = &m.attrs;
    let mut i: usize = 0;
    while i < attrs.len()
        invariant
            i <= attrs.len(),
            attrs == m.attrs,
            spec_attrs_directive(attrs@, 0) == spec_attrs_directive(attrs@, i as nat),
            spec_attrs_stop(attrs@, 0) == spec_attrs_stop(attrs@, i as nat),
        decreases attrs.len() - i,
    {
        let a = &attrs[i];
        if same_text(a.path.as_str(), "builder") {
            match &a.args {
                AttrArgs::NotList => {
                    return (Some(Err(DirectiveProblem::UnsupportedFormat)), i);
                }
                AttrArgs::List(items) => {
                    let found = items_directive(items);
                    if found.is_some() {
                        return (found, i);
                    }
                }
            }
        }
        i = i + 1;
    }
    (None, i)
}

} // verus!
