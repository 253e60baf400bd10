use vstd::prelude::*;
use crate::classify::{spec_message, SlotKind};
use crate::plan::{Diagnostic, MemberPlan, Plan};

verus! {

/// The pieces `f` gives for the first `n` members, one after another.
pub open spec fn joined<T>(xs: Seq<T>, f: spec_fn(T) -> Seq<char>, n: nat) -> Seq<char>
    decreases n,
{
    if n == 0 || n > xs.len() {
        Seq::empty()
    } else {
        joined(xs, f, (n - 1) as nat) + f(xs[n - 1])
    }
}

/// The builder's field for a member: `Vec<T>` for a repeated one, `Option<T>` otherwise.
pub open spec fn field_decl_text(m: MemberPlan) -> Seq<char> {
    if m.kind == SlotKind::Repeated {
        m.name@ + ": Vec<"@ + m.inner@ + ">,\n"@
    } else {
        m.name@ + ": Option<"@ + m.inner@ + ">,\n"@
    }
}

/// The field's initial value: empty for a repeated member, absent otherwise.
pub open spec fn field_init_text(m: MemberPlan) -> Seq<char> {
    if m.kind == SlotKind::Repeated {
        m.name@ + ": Vec::new(),\n"@
    } else {
        m.name@ + ": None,\n"@
    }
}

/// The setter named after the member, where it has one.
pub open spec fn setter_text(m: MemberPlan) -> Seq<char> {
    if !m.setter {
        Seq::empty()
    } else if m.kind == SlotKind::Repeated {
        "pub fn "@ + m.name@ + "(&mut self, item: Vec<"@ + m.inner@ + ">) -> &mut Self {\nself."@
            + m.name@ + " = item;\nself\n}\n"@
    } else {
        "pub fn "@ + m.name@ + "(&mut self, item: "@ + m.inner@ + ") -> &mut Self {\nself."@
            + m.name@ + " = Some(item);\nself\n}\n"@
    }
}

/// The append method of the member, where it has one.
pub open spec fn appender_text(m: MemberPlan) -> Seq<char> {
    match m.appender {
        Some(a) => "pub fn "@ + a@ + "(&mut self, item: "@ + m.inner@ + ") -> &mut Self {\nself."@
            + m.name@ + ".push(item);\nself\n}\n"@,
        None => Seq::empty(),
    }
}

/// How finishing takes the member out of the builder.
pub open spec fn take_text(m: MemberPlan) -> Seq<char> {
    if m.kind == SlotKind::Required {
        m.name@ + ": self."@ + m.name@ + ".take().ok_or(BuildError())?,\n"@
    } else if m.kind == SlotKind::Optional {
        m.name@ + ": self."@ + m.name@ + ".take(),\n"@
    } else {
        m.name@ + ": std::mem::replace(&mut self."@ + m.name@ + ", Vec::new()),\n"@
    }
}

/// How a character is written inside a string literal: `"` and `\` get a backslash.
pub open spec fn escaped_char(c: char) -> Seq<char> {
    if c == '"' {
        "\\\""@
    } else if c == '\\' {
        "\\\\"@
    } else {
        seq![c]
    }
}

/// Text written as the inside of a string literal.
pub open spec fn escaped(s: Seq<char>) -> Seq<char>
    decreases s.len(),
{
    if s.len() == 0 {
        Seq::empty()
    } else {
        escaped(s.drop_last()) + escaped_char(s.last())
    }
}

/// A directive problem, reported where the generated code is compiled.
pub open spec fn diagnostic_text(d: Diagnostic) -> Seq<char> {
    "compile_error!(\""@ + escaped(spec_message(d.problem)) + "\");\n"@
}

/// Writes text as the inside of a string literal.
pub fn escape_literal(s: &str) -> (r: String)
    ensures
        r@ == escaped(s@),
{
    let n = s.unicode_len();
    let mut out = String::new();
    let mut i: usize = 0;
    while i < n
        invariant
            n == s@.len(),
            i <= n,
            out@ == escaped(s@.subrange(0, i as int)),
        decreases n - i,
    {
        let c = s.get_char(i);
        if c == '"' {
            out.append("\\\"");
        } else if c == '\\' {
            out.append("\\\\");
        } else {
            out.append(s.substring_char(i, i + 1));
            assert(s@.subrange(i as int, i + 1) =~= seq![c]);
        }
        assert(s@.subrange(0, i + 1).drop_last() =~= s@.subrange(0, i as int));
        i = i + 1;
    }
    assert(s@.subrange(0, n as int) =~= s@);
    out
}

fn field_decl(m: &MemberPlan) -> (r: String)
    ensures
        r@ == field_decl_text(*m),
{
    let mut s = m.name.clone();
    if m.kind == SlotKind::Repeated {
        s.append(": Vec<");
    } else {
        s.append(": Option<");
    }
    s.append(m.inner.as_str());
    s.append(">,\n");
    s
}

fn field_init(m: &MemberPlan) -> (r: String)
    ensures
        r@ == field_init_text(*m),
{
    let mut s = m.name.clone();
    if m.kind == SlotKind::Repeated {
        s.append(": Vec::new(),\n");
    } else {
        s.append(": None,\n");
    }
    s
}

fn setter(m: &MemberPlan) -> (r: String)
    ensures
        r@ == setter_text(*m),
{
    if !m.setter {
        return String::new();
    }
    let mut s = String::from_str("pub fn ");
    s.append(m.name.as_str());
    if m.kind == SlotKind::Repeated {
        s.append("(&mut self, item: Vec<");
        s.append(m.inner.as_str());
        s.append(">) -> &mut Self {\nself.");
        s.append(m.name.as_str());
        s.append(" = item;\nself\n}\n");
    } else {
        s.append("(&mut self, item: ");
        s.append(m.inner.as_str());
        s.append(") -> &mut Self {\nself.");
        s.append(m.name.as_str());
        s.append(" = Some(item);\nself\n}\n");
    }
    s
}

fn appender(m: &MemberPlan) -> (r: String)
    ensures
        r@ == appender_text(*m),
{
    match &m.appender {
        Some(a) => {
            let mut s = String::from_str("pub fn ");
            s.append(a.as_str());
            s.append("(&mut self, item: ");
            s.append(m.inner.as_str());
            s.append(") -> &mut Self {\nself.");
            s.append(m.name.as_str());
            s.append(".push(item);\nself\n}\n");
            s
        }
        None => String::new(),
    }
}

fn take(m: &MemberPlan) -> (r: String)
    ensures
        r@ == take_text(*m),
{
    let mut s = m.name.clone();
    if m.kind == SlotKind::Required {
        s.append(": self.");
        s.append(m.name.as_str());
        s.append(".take().ok_or(BuildError())?,\n");
    } else if m.kind == SlotKind::Optional {
        s.append(": self.");
        s.append(m.name.as_str());
        s.append(".take(),\n");
    } else {
        s.append(": std::mem::replace(&mut self.");
        s.append(m.name.as_str());
        s.append(", Vec::new()),\n");
    }
    s
}

/// Which per-member piece a fragment is made of.
#[derive(Clone, Copy, Debug, PartialEq, Eq, Structural)]
pub enum Piece {
    FieldDecl,
    FieldInit,
    Setter,
    Appender,
    Take,
}

pub open spec fn piece_text(which: Piece, m: MemberPlan) -> Seq<char> {
    match which {
        Piece::FieldDecl => field_decl_text(m),
        Piece::FieldInit => field_init_text(m),
        Piece::Setter => setter_text(m),
        Piece::Appender => appender_text(m),
        Piece::Take => take_text(m),
    }
}

/// The pieces of one kind for all members, in declaration order.
pub open spec fn members_text(ms: Seq<MemberPlan>, which: Piece) -> Seq<char> {
    joined(ms, |m: MemberPlan| piece_text(which, m), ms.len())
}

fn members_pieces(ms: &Vec<MemberPlan>, which: Piece) -> (r: String)
    ensures
        r@ == members_text(ms@, which),
{
    let ghost f = |m: MemberPlan| piece_text(which, m);
    let mut s = String::new();
    let mut i: usize = 0;
    while i < ms.len()
        invariant
            i <= ms@.len(),
            f == (|m: MemberPlan| piece_text(which, m)),
            s@ == joined(ms@, f, i as nat),
        decreases ms@.len() - i,
    {
        let m = &ms[i];
        let piece = match which {
            Piece::FieldDecl => field_decl(m),
            Piece::FieldInit => field_init(m),
            Piece::Setter => setter(m),
            Piece::Appender => appender(m),
            Piece::Take => take(m),
        };
        s.append(piece.as_str());
        i = i + 1;
    }
    s
}

/// `impl Origin { fn builder() -> OriginBuilder { OriginBuilder::new() } }`
pub open spec fn origin_impl_text(p: Plan) -> Seq<char> {
    "impl "@ + p.origin@ + " {\nfn builder() -> "@ + p.builder@ + " {\n"@ + p.builder@ + "::new()\n}\n}\n"@
}

/// `struct OriginBuilder { ... }`: one field per member.
pub open spec fn builder_struct_text(p: Plan) -> Seq<char> {
    "struct "@ + p.builder@ + " {\n"@ + members_text(p.members@, Piece::FieldDecl) + "}\n"@
}

/// `impl OriginBuilder { pub fn new() -> OriginBuilder { ... } }`: every slot unset.
pub open spec fn new_fn_text(p: Plan) -> Seq<char> {
    "impl "@ + p.builder@ + " {\npub fn new() -> "@ + p.builder@ + " {\n"@ + p.builder@ + " {\n"@
        + members_text(p.members@, Piece::FieldInit) + "}\n}\n}\n"@
}

/// The setters named after the members.
pub open spec fn fields_fn_text(p: Plan) -> Seq<char> {
    "impl "@ + p.builder@ + " {\n"@ + members_text(p.members@, Piece::Setter) + "}\n"@
}

/// The append methods.
pub open spec fn each_fn_text(p: Plan) -> Seq<char> {
    "impl "@ + p.builder@ + " {\n"@ + members_text(p.members@, Piece::Appender) + "}\n"@
}

/// The error type and the method that finishes the builder.
pub open spec fn build_fn_text(p: Plan) -> Seq<char> {
    "#[derive(Debug)]\npub struct BuildError();\nimpl "@ + p.builder@
        + " {\nfn build(&mut self) -> Result<"@ + p.origin@ + ", BuildError> {\nOk("@ + p.origin@ + " {\n"@
        + members_text(p.members@, Piece::Take) + "})\n}\n}\n"@
}

/// The directive problems, one `compile_error!` each.
pub open spec fn diagnostics_text(p: Plan) -> Seq<char> {
    joined(p.diagnostics@, |d: Diagnostic| diagnostic_text(d), p.diagnostics@.len())
}

/// The generated declarations, in a fixed order.
pub open spec fn code_text(p: Plan) -> Seq<char> {
    origin_impl_text(p) + builder_struct_text(p) + new_fn_text(p) + fields_fn_text(p) + each_fn_text(p)
        + build_fn_text(p)
}

/// The generated declarations followed by the directive problems.
pub open spec fn generated_text(p: Plan) -> Seq<char> {
    code_text(p) + diagnostics_text(p)
}

/// The `builder()` associated function on the record.
pub fn ts_origin_impl_builder_fn(p: &Plan) -> (r: String)
    ensures
        r@ == origin_impl_text(*p),
{
    let mut s = String::from_str("impl ");
    s.append(p.origin.as_str());
    s.append(" {\nfn builder() -> ");
    s.append(p.builder.as_str());
    s.append(" {\n");
    s.append(p.builder.as_str());
    s.append("::new()\n}\n}\n");
    s
}

/// The builder type's declaration.
pub fn ts_builder_struct(p: &Plan) -> (r: String)
    ensures
        r@ == builder_struct_text(*p),
{
    let mut s = String::from_str("struct ");
    s.append(p.builder.as_str());
    s.append(" {\n");
    let body = members_pieces(&p.members, Piece::FieldDecl);
    s.append(body.as_str());
    s.append("}\n");
    s
}

/// The builder's constructor.
pub fn ts_builder_impl_new_fn(p: &Plan) -> (r: String)
    ensures
        r@ == new_fn_text(*p),
{
    let mut s = String::from_str("impl ");
    s.append(p.builder.as_str());
    s.append(" {\npub fn new() -> ");
    s.append(p.builder.as_str());
    s.append(" {\n");
    s.append(p.builder.as_str());
    s.append(" {\n");
    let body = members_pieces(&p.members, Piece::FieldInit);
    s.append(body.as_str());
    s.append("}\n}\n}\n");
    s
}

/// The setters.
pub fn ts_builder_impl_fields_fn(p: &Plan) -> (r: String)
    ensures
        r@ == fields_fn_text(*p),
{
    let mut s = String::from_str("impl ");
    s.append(p.builder.as_str());
    s.append(" {\n");
    let body = members_pieces(&p.members, Piece::Setter);
    s.append(body.as_str());
    s.append("}\n");
    s
}

/// The append methods.
pub fn ts_builder_impl_each_field_fn(p: &Plan) -> (r: String)
    ensures
        r@ == each_fn_text(*p),
{
    let mut s = String::from_str("impl ");
    s.append(p.builder.as_str());
    s.append(" {\n");
    let body = members_pieces(&p.members, Piece::Appender);
    s.append(body.as_str());
    s.append("}\n");
    s
}

/// The error type and the finishing method.
pub fn ts_builder_impl_build_fn(p: &Plan) -> (r: String)
    ensures
        r@ == build_fn_text(*p),
{
    let mut s = String::from_str("#[derive(Debug)]\npub struct BuildError();\nimpl ");
    s.append(p.builder.as_str());
    s.append(" {\nfn build(&mut self) -> Result<");
    s.append(p.origin.as_str());
    s.append(", BuildError> {\nOk(");
    s.append(p.origin.as_str());
    s.append(" {\n");
    let body = members_pieces(&p.members, Piece::Take);
    s.append(body.as_str());
    s.append("})\n}\n}\n");
    s
}

/// The `compile_error!` lines of the directive problems.
pub fn ts_diagnostics(p: &Plan) -> (r: String)
    ensures
        r@ == diagnostics_text(*p),
{
    let ghost f = |d: Diagnostic| diagnostic_text(d);
    let mut s = String::new();
    let mut i: usize = 0;
    while i < p.diagnostics.len()
        invariant
            i <= p.diagnostics@.len(),
            f == (|d: Diagnostic| diagnostic_text(d)),
            s@ == joined(p.diagnostics@, f, i as nat),
        decreases p.diagnostics@.len() - i,
    {
        let d = p.diagnostics[i];
        s.append("compile_error!(\"");
        let msg = d.problem.message();
        s.append(escape_literal(msg.as_str()).as_str());
        s.append("\");\n");
        i = i + 1;
    }
    s
}

/// The source text of the generated declarations, in a fixed order: the
/// record's `builder()`, the builder type, its constructor, setters, append
/// methods, and the error type with the finishing method.
pub fn render_code(p: &Plan) -> (r: String)
    ensures
        r@ == code_text(*p),
{
    let mut s = ts_origin_impl_builder_fn(p);
    s.append(ts_builder_struct(p).as_str());
    s.append(ts_builder_impl_new_fn(p).as_str());
    s.append(ts_builder_impl_fields_fn(p).as_str());
    s.append(ts_builder_impl_each_field_fn(p).as_str());
    s.append(ts_builder_impl_build_fn(p).as_str());
    s
}

/// The source text of the generated declarations followed by one
/// `compile_error!` for each directive problem.
pub fn render(p: &Plan) -> (r: String)
    ensures
        r@ == generated_text(*p),
{
    let mut s = render_code(p);
    s.append(ts_diagnostics(p).as_str());
    s
}

} // verus!
