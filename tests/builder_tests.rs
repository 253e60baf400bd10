use builder::classify::{builder_attr_each, classify, single_generic_type_of, DirectiveProblem, SlotKind};
use builder::decl::{same_text, Attr, AttrArgs, GenericArg, Member, NestedMeta, RecordDecl, Segment, Shape, TypeExpr};
use builder::emit::{escape_literal, render_code, ts_builder_impl_build_fn, ts_builder_struct, ts_diagnostics, ts_origin_impl_builder_fn};
use builder::model::{BuildError, Builder, FieldValue};
use builder::plan::{expand, Diagnostic, ExpandError, Plan};

#[derive(Debug, Clone, PartialEq)]
enum V {
    Int(i64),
    Text(String),
}

fn plain(text: &str) -> TypeExpr {
    TypeExpr {
        text: text.to_string(),
        first_segment: Some(Segment { ident: text.to_string(), args: vec![] }),
    }
}

fn wrapped(wrapper: &str, inner: &str) -> TypeExpr {
    TypeExpr {
        text: format!("{} < {} >", wrapper, inner),
        first_segment: Some(Segment {
            ident: wrapper.to_string(),
            args: vec![GenericArg::Type(inner.to_string())],
        }),
    }
}

fn each(value: &str) -> Attr {
    Attr {
        path: "builder".to_string(),
        args: AttrArgs::List(vec![NestedMeta::NameStr { key: "each".to_string(), value: value.to_string() }]),
    }
}

fn member(name: &str, ty: TypeExpr, attrs: Vec<Attr>) -> Member {
    Member { name: name.to_string(), ty, attrs }
}

fn record(name: &str, members: Vec<Member>) -> RecordDecl {
    RecordDecl { name: name.to_string(), shape: Shape::Named(members) }
}

fn plan_of(decl: &RecordDecl) -> Plan {
    match expand(decl) {
        Ok(p) => p,
        Err(e) => panic!("no plan: {:?}", e),
    }
}

fn profile() -> Plan {
    plan_of(&record(
        "Profile",
        vec![
            member("id", plain("i64"), vec![]),
            member("nickname", wrapped("Option", "String"), vec![]),
            member("tags", wrapped("Vec", "String"), vec![each("tag")]),
        ],
    ))
}

fn text(s: &str) -> V {
    V::Text(s.to_string())
}

#[test]
fn profile_with_id_only() {
    let p = profile();
    let mut b: Builder<V> = Builder::new(&p);
    let id = p.setter_index("id").unwrap();
    b.set(id, V::Int(5));
    let r = b.build().unwrap();
    assert_eq!(r.len(), 3);
    assert!(matches!(&r[0], FieldValue::Value(V::Int(5))));
    assert!(matches!(&r[1], FieldValue::Maybe(None)));
    assert!(matches!(&r[2], FieldValue::List(v) if v.is_empty()));
}

#[test]
fn profile_tags_without_id_fails() {
    let p = profile();
    let mut b: Builder<V> = Builder::new(&p);
    let tag = p.appender_index("tag").unwrap();
    b.push(tag, text("x"));
    b.push(tag, text("y"));
    assert_eq!(b.build().err(), Some(BuildError));
}

#[test]
fn profile_id_and_tags() {
    let p = profile();
    let mut b: Builder<V> = Builder::new(&p);
    let id = p.setter_index("id").unwrap();
    let tag = p.appender_index("tag").unwrap();
    b.set(id, V::Int(5));
    b.push(tag, text("x"));
    b.push(tag, text("y"));
    let r = b.build().unwrap();
    assert!(matches!(&r[0], FieldValue::Value(V::Int(5))));
    assert!(matches!(&r[1], FieldValue::Maybe(None)));
    assert!(matches!(&r[2], FieldValue::List(v) if *v == vec![text("x"), text("y")]));
}

#[test]
fn required_members_need_every_setter() {
    let p = plan_of(&record(
        "Point",
        vec![member("x", plain("i64"), vec![]), member("y", plain("i64"), vec![])],
    ));
    let mut b: Builder<V> = Builder::new(&p);
    b.set(0, V::Int(1));
    assert_eq!(b.build().err(), Some(BuildError));
    b.set(0, V::Int(1));
    b.set(1, V::Int(2));
    b.set(1, V::Int(3));
    let r = b.build().unwrap();
    assert!(matches!(&r[0], FieldValue::Value(V::Int(1))));
    assert!(matches!(&r[1], FieldValue::Value(V::Int(3))));
}

#[test]
fn failed_build_resets_members_up_to_the_missing_one() {
    let p = plan_of(&record(
        "Triple",
        vec![
            member("a", plain("i64"), vec![]),
            member("b", plain("i64"), vec![]),
            member("c", plain("i64"), vec![]),
        ],
    ));
    let mut b: Builder<V> = Builder::new(&p);
    b.set(0, V::Int(1));
    b.set(2, V::Int(3));
    assert_eq!(b.build().err(), Some(BuildError));
    b.set(1, V::Int(2));
    assert_eq!(b.build().err(), Some(BuildError));
    b.set(0, V::Int(1));
    b.set(1, V::Int(2));
    b.set(2, V::Int(3));
    assert!(b.build().is_ok());
}

#[test]
fn optional_member_set_once() {
    let p = profile();
    let mut b: Builder<V> = Builder::new(&p);
    b.set(0, V::Int(1));
    b.set(p.setter_index("nickname").unwrap(), text("bo"));
    let r = b.build().unwrap();
    assert!(matches!(&r[1], FieldValue::Maybe(Some(V::Text(s))) if s == "bo"));
}

#[test]
fn bulk_set_replaces_earlier_elements() {
    let p = plan_of(&record("Bag", vec![member("items", wrapped("Vec", "i64"), vec![])]));
    assert_eq!(p.appender_index("items"), None);
    let i = p.setter_index("items").unwrap();
    let mut b: Builder<V> = Builder::new(&p);
    b.set_all(i, vec![V::Int(1), V::Int(2)]);
    b.set_all(i, vec![V::Int(9)]);
    let r = b.build().unwrap();
    assert!(matches!(&r[0], FieldValue::List(v) if *v == vec![V::Int(9)]));
}

#[test]
fn appends_keep_call_order_and_bulk_set_discards_them() {
    let p = profile();
    let tag = p.appender_index("tag").unwrap();
    assert_eq!(p.setter_index("tags"), Some(tag));
    let mut b: Builder<V> = Builder::new(&p);
    b.set(0, V::Int(1));
    b.push(tag, text("a"));
    b.push(tag, text("b"));
    b.push(tag, text("c"));
    let r = b.build().unwrap();
    assert!(matches!(&r[2], FieldValue::List(v) if *v == vec![text("a"), text("b"), text("c")]));
    b.set(0, V::Int(1));
    b.push(tag, text("a"));
    b.set_all(tag, vec![text("z")]);
    let r = b.build().unwrap();
    assert!(matches!(&r[2], FieldValue::List(v) if *v == vec![text("z")]));
}

#[test]
fn directive_with_member_name_drops_setter() {
    let p = plan_of(&record("Cmd", vec![member("arg", wrapped("Vec", "String"), vec![each("arg")])]));
    assert_eq!(p.setter_index("arg"), None);
    assert_eq!(p.appender_index("arg"), Some(0));
    assert!(!p.members[0].setter);
}

#[test]
fn second_round_after_build_starts_fresh() {
    let p = profile();
    let mut b: Builder<V> = Builder::new(&p);
    b.set(0, V::Int(1));
    b.set(1, text("n"));
    b.push(2, text("x"));
    assert!(b.build().is_ok());
    b.set(0, V::Int(2));
    let r = b.build().unwrap();
    assert!(matches!(&r[0], FieldValue::Value(V::Int(2))));
    assert!(matches!(&r[1], FieldValue::Maybe(None)));
    assert!(matches!(&r[2], FieldValue::List(v) if v.is_empty()));
    assert_eq!(b.build().err(), Some(BuildError));
}

#[test]
fn classify_recognises_wrappers() {
    assert_eq!(classify(&wrapped("Option", "u8")).kind, SlotKind::Optional);
    assert_eq!(classify(&wrapped("Option", "u8")).inner, "u8");
    assert_eq!(classify(&wrapped("Vec", "u8")).kind, SlotKind::Repeated);
    let c = classify(&plain("String"));
    assert_eq!(c.kind, SlotKind::Required);
    assert_eq!(c.inner, "String");
}

#[test]
fn qualified_option_is_required() {
    let ty = TypeExpr {
        text: "std :: option :: Option < u8 >".to_string(),
        first_segment: Some(Segment { ident: "std".to_string(), args: vec![] }),
    };
    assert_eq!(single_generic_type_of(&ty, "Option"), None);
    let c = classify(&ty);
    assert_eq!(c.kind, SlotKind::Required);
    assert_eq!(c.inner, "std :: option :: Option < u8 >");
}

#[test]
fn non_path_and_odd_arguments_are_required() {
    let reference = TypeExpr { text: "& 'static str".to_string(), first_segment: None };
    assert_eq!(classify(&reference).kind, SlotKind::Required);
    let lifetime = TypeExpr {
        text: "Option < 'a >".to_string(),
        first_segment: Some(Segment { ident: "Option".to_string(), args: vec![GenericArg::Other("'a".to_string())] }),
    };
    assert_eq!(classify(&lifetime).kind, SlotKind::Required);
    let two = TypeExpr {
        text: "Vec < u8 , A >".to_string(),
        first_segment: Some(Segment {
            ident: "Vec".to_string(),
            args: vec![GenericArg::Type("u8".to_string()), GenericArg::Type("A".to_string())],
        }),
    };
    assert_eq!(classify(&two).kind, SlotKind::Required);
}

#[test]
fn directive_reading() {
    let m = member("args", wrapped("Vec", "String"), vec![each("arg")]);
    assert_eq!(builder_attr_each(&m), Some(Ok("arg".to_string())));
    let other = Attr { path: "serde".to_string(), args: AttrArgs::NotList };
    let skipped = Attr { path: "builder".to_string(), args: AttrArgs::List(vec![NestedMeta::Other]) };
    let m = member("args", wrapped("Vec", "String"), vec![other, skipped, each("arg")]);
    assert_eq!(builder_attr_each(&m), Some(Ok("arg".to_string())));
    let m = member("args", wrapped("Vec", "String"), vec![]);
    assert_eq!(builder_attr_each(&m), None);
}

#[test]
fn directive_with_wrong_key_is_reported() {
    let bad = Attr {
        path: "builder".to_string(),
        args: AttrArgs::List(vec![NestedMeta::NameStr { key: "eac".to_string(), value: "arg".to_string() }]),
    };
    let decl = record("Cmd", vec![member("args", wrapped("Vec", "String"), vec![bad])]);
    let p = plan_of(&decl);
    assert_eq!(p.diagnostics, vec![Diagnostic { member: 0, attr: 0, problem: DirectiveProblem::WrongKey }]);
    assert!(p.members[0].setter);
    assert_eq!(p.members[0].appender, None);
    assert_eq!(DirectiveProblem::WrongKey.message(), "expected `builder(each = \"...\")`");
}

#[test]
fn directive_not_a_list_is_reported() {
    let bad = Attr { path: "builder".to_string(), args: AttrArgs::NotList };
    let p = plan_of(&record("Cmd", vec![member("args", wrapped("Vec", "String"), vec![bad])]));
    assert_eq!(p.diagnostics, vec![Diagnostic { member: 0, attr: 0, problem: DirectiveProblem::UnsupportedFormat }]);
}

#[test]
fn directive_on_non_repeated_is_reported() {
    let p = plan_of(&record(
        "Cmd",
        vec![member("a", plain("u8"), vec![]), member("name", plain("String"), vec![each("name")])],
    ));
    assert_eq!(p.diagnostics, vec![Diagnostic { member: 1, attr: 0, problem: DirectiveProblem::NotRepeated }]);
    assert!(p.members[1].setter);
    assert_eq!(p.members[1].appender, None);
}

#[test]
fn directive_that_is_no_identifier_is_reported() {
    for bad in ["a-b", "fn", "", "1x"] {
        let p = plan_of(&record("Cmd", vec![member("args", wrapped("Vec", "String"), vec![each(bad)])]));
        assert_eq!(p.diagnostics, vec![Diagnostic { member: 0, attr: 0, problem: DirectiveProblem::NotAnIdentifier }]);
        assert_eq!(p.members[0].appender, None);
    }
}

#[test]
fn directive_name_is_read_as_an_identifier() {
    let p = plan_of(&record("Cmd", vec![member("args", wrapped("Vec", "String"), vec![each(" arg ")])]));
    assert!(p.diagnostics.is_empty());
    assert_eq!(p.members[0].appender, Some("arg".to_string()));
}

#[test]
fn non_records_are_rejected() {
    for (shape, err) in [
        (Shape::Enum, ExpandError::NotAStruct),
        (Shape::Union, ExpandError::NotAStruct),
        (Shape::Tuple, ExpandError::UnnamedFields),
        (Shape::Unit, ExpandError::UnnamedFields),
    ] {
        let decl = RecordDecl { name: "X".to_string(), shape };
        assert_eq!(expand(&decl).err(), Some(err));
        assert_eq!(builder::derive(&decl).err(), Some(err));
    }
}

#[test]
fn empty_record_builds_at_once() {
    let p = plan_of(&record("Empty", vec![]));
    assert_eq!(p.builder, "EmptyBuilder");
    let mut b: Builder<V> = Builder::new(&p);
    assert_eq!(b.build().unwrap().len(), 0);
}

#[test]
fn generated_text_of_fragments() {
    let p = profile();
    assert_eq!(
        ts_origin_impl_builder_fn(&p),
        "impl Profile {\nfn builder() -> ProfileBuilder {\nProfileBuilder::new()\n}\n}\n"
    );
    assert_eq!(
        ts_builder_struct(&p),
        "struct ProfileBuilder {\nid: Option<i64>,\nnickname: Option<String>,\ntags: Vec<String>,\n}\n"
    );
    assert_eq!(
        ts_builder_impl_build_fn(&p),
        "#[derive(Debug)]\npub struct BuildError();\nimpl ProfileBuilder {\n\
         fn build(&mut self) -> Result<Profile, BuildError> {\nOk(Profile {\n\
         id: self.id.take().ok_or(BuildError())?,\n\
         nickname: self.nickname.take(),\n\
         tags: std::mem::replace(&mut self.tags, Vec::new()),\n})\n}\n}\n"
    );
}

#[test]
fn generated_text_whole() {
    let decl = record(
        "Cmd",
        vec![
            member("arg", wrapped("Vec", "String"), vec![each("arg")]),
            member("env", wrapped("Vec", "String"), vec![]),
            member("flag", plain("bool"), vec![each("f")]),
        ],
    );
    let s = builder::derive(&decl).unwrap();
    assert!(s.starts_with("impl Cmd {\nfn builder() -> CmdBuilder {"));
    assert!(s.contains("pub fn new() -> CmdBuilder {\nCmdBuilder {\narg: Vec::new(),\nenv: Vec::new(),\nflag: None,\n}"));
    assert!(!s.contains("pub fn arg(&mut self, item: Vec<String>)"));
    assert!(s.contains("pub fn arg(&mut self, item: String) -> &mut Self {\nself.arg.push(item);\nself\n}\n"));
    assert!(s.contains("pub fn env(&mut self, item: Vec<String>) -> &mut Self {\nself.env = item;\nself\n}\n"));
    assert!(s.contains("pub fn flag(&mut self, item: bool) -> &mut Self {\nself.flag = Some(item);\nself\n}\n"));
    assert!(s.ends_with(
        "compile_error!(\"#[builder(each = \\\"...\\\")] attribute is only able to be set on `Vec` type\");\n"
    ));
}

#[test]
fn same_text_compares_characters() {
    assert!(same_text("héllo", "héllo"));
    assert!(!same_text("héllo", "hello"));
    assert!(!same_text("ab", "abc"));
    assert!(same_text("", ""));
}

#[test]
fn directive_without_string_value_is_reported() {
    let bare = Attr {
        path: "builder".to_string(),
        args: AttrArgs::List(vec![NestedMeta::Malformed { key: "each".to_string() }]),
    };
    let m = member("args", wrapped("Vec", "String"), vec![bare]);
    assert_eq!(builder_attr_each(&m), Some(Err(DirectiveProblem::NotAString)));
    let p = plan_of(&record("Cmd", vec![m]));
    assert_eq!(p.diagnostics, vec![Diagnostic { member: 0, attr: 0, problem: DirectiveProblem::NotAString }]);
    assert!(p.members[0].setter);
    assert_eq!(p.members[0].appender, None);
    assert_eq!(DirectiveProblem::NotAString.message(), "expected `builder(each = \"...\")`");
    let other = Attr {
        path: "builder".to_string(),
        args: AttrArgs::List(vec![NestedMeta::Other, NestedMeta::Malformed { key: "eac".to_string() }]),
    };
    let m = member("args", wrapped("Vec", "String"), vec![other]);
    assert_eq!(builder_attr_each(&m), Some(Err(DirectiveProblem::WrongKey)));
}

#[test]
fn diagnostic_names_the_attribute_that_holds_the_directive() {
    let doc = Attr { path: "doc".to_string(), args: AttrArgs::NotList };
    let bad = Attr {
        path: "builder".to_string(),
        args: AttrArgs::List(vec![NestedMeta::NameStr { key: "eac".to_string(), value: "arg".to_string() }]),
    };
    let p = plan_of(&record(
        "Cmd",
        vec![member("a", plain("u8"), vec![]), member("args", wrapped("Vec", "String"), vec![doc, bad])],
    ));
    assert_eq!(p.diagnostics, vec![Diagnostic { member: 1, attr: 1, problem: DirectiveProblem::WrongKey }]);
    assert_eq!(ts_diagnostics(&p), "compile_error!(\"expected `builder(each = \\\"...\\\")`\");\n");
    let whole = builder::derive(&record(
        "Cmd",
        vec![member("a", plain("u8"), vec![]), member("args", wrapped("Vec", "String"), vec![
            Attr { path: "doc".to_string(), args: AttrArgs::NotList },
            Attr {
                path: "builder".to_string(),
                args: AttrArgs::List(vec![NestedMeta::NameStr { key: "eac".to_string(), value: "arg".to_string() }]),
            },
        ])],
    ))
    .unwrap();
    assert_eq!(whole, format!("{}{}", render_code(&p), ts_diagnostics(&p)));
}

#[test]
fn literal_escaping() {
    assert_eq!(escape_literal("a\"b\\c"), "a\\\"b\\\\c");
    assert_eq!(escape_literal("plain é"), "plain é");
    assert_eq!(escape_literal(""), "");
}
