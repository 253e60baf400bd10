use vstd::prelude::*;
use vstd::utf8::is_ascii_chars;
use crate::classify::{
    builder_attr_each, classify, directive_position, spec_directive, spec_directive_attr, spec_inner_type, spec_slot_kind,
    DirectiveProblem, DirectiveView, SlotKind,
};
use crate::decl::{same_text, Member, RecordDecl, Shape};
use crate::ident::{parse_ident, parsed_ident};

verus! {

/// What the companion builder holds and offers for one member.
pub struct MemberPlan {
    pub name: String,
    pub kind: SlotKind,
    /// The value type of the slot (`T` for `Option<T>` and `Vec<T>`).
    pub inner: String,
    /// Whether the builder has a setter named after the member.
    pub setter: bool,
    /// The name of the method that appends one element, for a repeated member with `each`.
    pub appender: Option<String>,
}

/// A directive problem, attached to the member (by position) that carries it.
#[derive(Clone, Copy, Debug, PartialEq, Eq, Structural)]
pub struct Diagnostic {
    pub member: usize,
    /// The position, among the member's attributes, of the one that holds the directive.
    pub attr: usize,
    pub problem: DirectiveProblem,
}

/// Everything the companion declarations are generated from.
pub struct Plan {
    pub origin: String,
    pub builder: String,
    pub members: Vec<MemberPlan>,
    /// Problems reported beside the generated code, in member order.
    pub diagnostics: Vec<Diagnostic>,
}

/// Why no builder can be generated for a declaration.
#[derive(Clone, Copy, Debug, PartialEq, Eq, Structural)]
pub enum ExpandError {
    /// An enum or a union.
    NotAStruct,
    /// A tuple struct or a unit struct.
    UnnamedFields,
}

pub open spec fn opt_view(o: Option<String>) -> Option<Seq<char>> {
    match o {
        Some(s) => Some(s@),
        None => None,
    }
}

/// The append method of a member, where `q` is what syn read from its `each`
/// value: that identifier, when the member is repeated.
pub open spec fn spec_appender(m: Member, q: Option<Seq<char>>) -> Option<Seq<char>> {
    match spec_directive(m) {
        Some(DirectiveView::Each(_)) => if spec_slot_kind(m.ty) == SlotKind::Repeated {
            q
        } else {
            None
        },
        _ => None,
    }
}

/// The setter named after the member is left out only where the append method has that name.
pub open spec fn spec_setter(m: Member, q: Option<Seq<char>>) -> bool {
    spec_appender(m, q) != Some(m.name@)
}

/// The problem with a member's directive, if any, where `q` is what syn read from its `each` value.
pub open spec fn spec_problem(m: Member, q: Option<Seq<char>>) -> Option<DirectiveProblem> {
    match spec_directive(m) {
        Some(DirectiveView::Problem(p)) => Some(p),
        Some(DirectiveView::Each(_)) => if spec_slot_kind(m.ty) != SlotKind::Repeated {
            Some(DirectiveProblem::NotRepeated)
        } else if q is None {
            Some(DirectiveProblem::NotAnIdentifier)
        } else {
            None
        },
        None => None,
    }
}

/// `p` is the plan of member `m`, where `q` is what syn read from its `each` value.
pub open spec fn member_planned_with(p: MemberPlan, m: Member, q: Option<Seq<char>>) -> bool {
    &&& p.name@ == m.name@
    &&& p.kind == spec_slot_kind(m.ty)
    &&& p.inner@ == spec_inner_type(m.ty)
    &&& p.setter == spec_setter(m, q)
    &&& opt_view(p.appender) == spec_appender(m, q)
}

/// `q` is an outcome of reading the `each` value of a repeated member as an
/// identifier: on ASCII text, the one syn gives.
pub open spec fn ident_outcome(m: Member, q: Option<Seq<char>>) -> bool {
    match spec_directive(m) {
        Some(DirectiveView::Each(v)) => spec_slot_kind(m.ty) == SlotKind::Repeated && is_ascii_chars(v)
            ==> q == parsed_ident(v),
        _ => true,
    }
}

/// `p` is the plan of member `m`: its append method, if any, is what syn read.
pub open spec fn member_planned(p: MemberPlan, m: Member) -> bool {
    &&& ident_outcome(m, opt_view(p.appender))
    &&& member_planned_with(p, m, opt_view(p.appender))
}

/// The diagnostics of the first `n` members, planned as `ps`.
pub open spec fn spec_diagnostics(ms: Seq<Member>, ps: Seq<MemberPlan>, n: nat) -> Seq<Diagnostic>
    decreases n,
{
    if n == 0 {
        Seq::empty()
    } else {
        let prev = spec_diagnostics(ms, ps, (n - 1) as nat);
        match spec_problem(ms[n - 1], opt_view(ps[n - 1].appender)) {
            Some(p) => prev.push(
                Diagnostic {
                    member: (n - 1) as usize,
                    attr: spec_directive_attr(ms[n - 1]) as usize,
                    problem: p,
                },
            ),
            None => prev,
        }
    }
}

/// `p` is the plan of the builder of `decl`, a struct with named members.
pub open spec fn plan_of(decl: RecordDecl, p: Plan) -> bool {
    match decl.shape {
        Shape::Named(ms) => {
            &&& p.origin@ == decl.name@
            &&& p.builder@ == decl.name@ + "Builder"@
            &&& p.members@.len() == ms@.len()
            &&& forall|i: int| 0 <= i < ms@.len() ==> member_planned(#[trigger] p.members@[i], ms@[i])
            &&& p.diagnostics@ == spec_diagnostics(ms@, p.members@, ms@.len())
        },
        _ => false,
    }
}

/// The builder's type name: the record's name followed by `Builder`.
pub fn builder_name(origin: &String) -> (r: String)
    ensures
        r@ == origin@ + "Builder"@,
{
    origin.clone().concat("Builder")
}

/// Plans one member, given what syn read from its `each` value (used only for a
/// repeated member with an `each` directive), and reports the problem with its
/// directive, if any.
pub fn plan_member_parsed(m: &Member, parsed: Option<String>) -> (r: (MemberPlan, Option<DirectiveProblem>))
    ensures
        member_planned_with(r.0, *m, opt_view(parsed)),
        r.1 == spec_problem(*m, opt_view(parsed)),
        spec_appender(*m, opt_view(parsed)) == opt_view(r.0.appender),
{
    let slot = classify(&m.ty);
    let (appender, problem) = match builder_attr_each(m) {
        None => (None, None),
        Some(Err(p)) => (None, Some(p)),
        Some(Ok(_)) => {
            if slot.kind != SlotKind::Repeated {
                (None, Some(DirectiveProblem::NotRepeated))
            } else {
                match parsed {
                    Some(id) => (Some(id), None),
                    None => (None, Some(DirectiveProblem::NotAnIdentifier)),
                }
            }
        }
    };
    let setter = match &appender {
        Some(a) => !(*a == m.name),
        None => true,
    };
    (MemberPlan { name: m.name.clone(), kind: slot.kind, inner: slot.inner, setter, appender }, problem)
}

/// Plans one member, reading its `each` value as an identifier with syn, and
/// reports the problem with its directive, if any.
pub fn plan_member(m: &Member) -> (r: (MemberPlan, Option<DirectiveProblem>))
    ensures
        member_planned(r.0, *m),
        r.1 == spec_problem(*m, opt_view(r.0.appender)),
{
    let parsed = match builder_attr_each(m) {
        Some(Ok(v)) => {
            if classify(&m.ty).kind == SlotKind::Repeated {
                parse_ident(&v)
            } else {
                None
            }
        },
        _ => None,
    };
    plan_member_parsed(m, parsed)
}

/// The members of a record, or why it has none a builder can use.
pub fn origin_fields(decl: &RecordDecl) -> (r: Result<&Vec<Member>, ExpandError>)
    ensures
        match decl.shape {
            Shape::Named(ms) => r == Ok::<&Vec<Member>, ExpandError>(&ms),
            Shape::Tuple | Shape::Unit => r == Err::<&Vec<Member>, ExpandError>(ExpandError::UnnamedFields),
            Shape::Enum | Shape::Union => r == Err::<&Vec<Member>, ExpandError>(ExpandError::NotAStruct),
        },
{
    match &decl.shape {
        Shape::Named(ms) => Ok(ms),
        Shape::Tuple | Shape::Unit => Err(ExpandError::UnnamedFields),
        Shape::Enum | Shape::Union => Err(ExpandError::NotAStruct),
    }
}

/// The diagnostics of a prefix depend only on the plans of that prefix.
proof fn lemma_diagnostics_prefix(ms: Seq<Member>, ps: Seq<MemberPlan>, qs: Seq<MemberPlan>, n: nat)
    requires
        n <= ps.len(),
        n <= qs.len(),
        ps.subrange(0, n as int) == qs.subrange(0, n as int),
    ensures
        spec_diagnostics(ms, ps, n) == spec_diagnostics(ms, qs, n),
    decreases n,
{
    if n > 0 {
        assert(ps[n - 1] == ps.subrange(0, n as int)[n - 1]);
        assert(qs[n - 1] == qs.subrange(0, n as int)[n - 1]);
        assert(ps.subrange(0, n - 1) =~= ps.subrange(0, n as int).subrange(0, n - 1));
        assert(qs.subrange(0, n - 1) =~= qs.subrange(0, n as int).subrange(0, n - 1));
        lemma_diagnostics_prefix(ms, ps, qs, (n - 1) as nat);
    }
}

/// The plan of a record's builder: its two type names, one plan per member in
/// declaration order, and the directive problems found on the way.
pub fn expand(decl: &RecordDecl) -> (r: Result<Plan, ExpandError>)
    ensures
        match decl.shape {
            Shape::Named(_) => r is Ok && plan_of(*decl, r->Ok_0),
            Shape::Tuple | Shape::Unit => r == Err::<Plan, ExpandError>(ExpandError::UnnamedFields),
            Shape::Enum | Shape::Union => r == Err::<Plan, ExpandError>(ExpandError::NotAStruct),
        },
{
    let ms = match origin_fields(decl) {
        Ok(ms) => ms,
        Err(e) => return Err(e),
    };
    let mut members: Vec<MemberPlan> = Vec::new();
    let mut diagnostics: Vec<Diagnostic> = Vec::new();
    let mut i: usize = 0;
    while i < ms.len()
        invariant
            decl.shape == Shape::Named(*ms),
            i <= ms@.len(),
            members@.len() == i,
            forall|j: int| 0 <= j < i ==> member_planned(#[trigger] members@[j], ms@[j]),
            diagnostics@ == spec_diagnostics(ms@, members@, i as nat),
        decreases ms@.len() - i,
    {
        let ghost old_members = members@;
        let (p, problem) = plan_member(&ms[i]);
        let (_, attr) = directive_position(&ms[i]);
        members.push(p);
        match problem {
            Some(pr) => diagnostics.push(Diagnostic { member: i, attr, problem: pr }),
            None => {}
        }
        proof {
            assert(members@.subrange(0, i as int) =~= old_members);
            assert(old_members.subrange(0, i as int) =~= old_members);
            lemma_diagnostics_prefix(ms@, members@, old_members, i as nat);
        }
        i = i + 1;
    }
    Ok(Plan { origin: decl.name.clone(), builder: builder_name(&decl.name), members, diagnostics })
}

impl Plan {
    /// The position of the member whose setter has this name.
    pub fn setter_index(&self, name: &str) -> (r: Option<usize>)
        ensures
            match r {
                Some(i) => i < self.members@.len() && self.members@[i as int].setter
                    && self.members@[i as int].name@ == name@,
                None => forall|j: int| 0 <= j < self.members@.len() ==>
                    !(#[trigger] self.members@[j].setter && self.members@[j].name@ == name@),
            },
    {
        let mut i: usize = 0;
        while i < self.members.len()
            invariant
                i <= self.members@.len(),
                forall|j: int| 0 <= j < i ==>
                    !(#[trigger] self.members@[j].setter && self.members@[j].name@ == name@),
            decreases self.members@.len() - i,
        {
            let m = &self.members[i];
            if m.setter && same_text(m.name.as_str(), name) {
                return Some(i);
            }
            i = i + 1;
        }
        None
    }

    /// The position of the first member whose append method has this name.
    pub fn appender_index(&self, name: &str) -> (r: Option<usize>)
        ensures
            match r {
                Some(i) => i < self.members@.len() && opt_view(self.members@[i as int].appender) == Some(name@),
                None => forall|j: int| 0 <= j < self.members@.len() ==>
                    opt_view(#[trigger] self.members@[j].appender) != Some(name@),
            },
    {
        let mut i: usize = 0;
        while i < self.members.len()
            invariant
                i <= self.members@.len(),
                forall|j: int| 0 <= j < i ==> opt_view(#[trigger] self.members@[j].appender) != Some(name@),
            decreases self.members@.len() - i,
        {
            match &self.members[i].appender {
                Some(a) => {
                    if same_text(a.as_str(), name) {
                        return Some(i);
                    }
                }
                None => {}
            }
            i = i + 1;
        }
        None
    }
}

} // verus!
