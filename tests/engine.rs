use hash_with::{
    derive_hash_with, describe, expand, generate, resolve_field, AttrDesc, DeriveError,
    FieldDesc, MetaShape, Shape, Statement, Strategy, TypeDesc,
};
use std::hash::{DefaultHasher, Hash, Hasher};

fn tokens(s: &str) -> String {
    let printed = s.parse::<proc_macro2::TokenStream>().unwrap().to_string();
    printed.chars().filter(|c| !c.is_whitespace()).collect()
}

fn generated(decl: &str) -> String {
    tokens(&derive_hash_with(decl).unwrap())
}

fn digest<T: Hash>(value: &T) -> u64 {
    let mut hasher = DefaultHasher::new();
    value.hash(&mut hasher);
    hasher.finish()
}

fn statements(decl: &str) -> Vec<Statement> {
    let t = describe(decl).unwrap();
    generate(&t).unwrap().statements
}

fn hash_bits<H: Hasher>(val: &f64, state: &mut H) {
    val.to_bits().hash(state)
}

struct Sample {
    a: f64,
    b: i64,
}

impl ::std::hash::Hash for Sample {
    fn hash<H: ::std::hash::Hasher>(&self, state: &mut H) {
        hash_bits(&self.a, state);
        ::std::hash::Hash::hash(&self.b, state);
    }
}

#[test]
fn named_function_field_changes_digest() {
    let decl = r#"struct Sample { #[hash_with = "hash_bits"] a: f64, b: i64 }"#;
    assert_eq!(
        generated(decl),
        tokens(
            "impl ::std::hash::Hash for Sample { fn hash<H: ::std::hash::Hasher>(&self, state: &mut H) { \
             hash_bits(&self.a, state); ::std::hash::Hash::hash(&self.b, state); } }"
        )
    );
    let one = Sample { a: 1.0, b: 0 };
    let two = Sample { a: 2.0, b: 0 };
    assert_ne!(digest(&one), digest(&two));
}

struct User {
    id: u32,
    #[allow(dead_code)]
    token: String,
}

impl ::std::hash::Hash for User {
    fn hash<H: ::std::hash::Hasher>(&self, state: &mut H) {
        ::std::hash::Hash::hash(&self.id, state);
    }
}

#[test]
fn excluded_field_is_not_hashed() {
    let decl = "struct User { id: u32, #[hash_without] token: String }";
    assert_eq!(
        generated(decl),
        tokens(
            "impl ::std::hash::Hash for User { fn hash<H: ::std::hash::Hasher>(&self, state: &mut H) { \
             ::std::hash::Hash::hash(&self.id, state); } }"
        )
    );
    let u1 = User { id: 1, token: "abc".to_string() };
    let u2 = User { id: 1, token: "xyz".to_string() };
    let u3 = User { id: 2, token: "abc".to_string() };
    assert_eq!(digest(&u1), digest(&u2));
    assert_ne!(digest(&u1), digest(&u3));
    assert_ne!(digest(&u2), digest(&u3));
}

struct SomeBadStruct {
    number: String,
}

impl ::std::hash::Hash for SomeBadStruct {
    fn hash<H: ::std::hash::Hasher>(&self, state: &mut H) {
        ::std::hash::Hash::hash(
            &({
                let value = self.number.parse::<i32>().unwrap_or(-1);
                value + 5
            }),
            state,
        );
    }
}

#[test]
fn inline_block_hashes_its_result() {
    let decl = "struct SomeBadStruct { #[hash_with({ let value = self.number.parse::<i32>().unwrap_or(-1); value + 5 })] number: String }";
    assert_eq!(
        generated(decl),
        tokens(
            "impl ::std::hash::Hash for SomeBadStruct { fn hash<H: ::std::hash::Hasher>(&self, state: &mut H) { \
             ::std::hash::Hash::hash(&({ let value = self.number.parse::<i32>().unwrap_or(-1); value + 5 }), state); } }"
        )
    );
    let v1 = SomeBadStruct { number: "number".to_string() };
    let v2 = SomeBadStruct { number: "67".to_string() };
    assert_ne!(digest(&v1), digest(&v2));
    let v3 = SomeBadStruct { number: "-1".to_string() };
    assert_eq!(digest(&v1), digest(&v3));
}

#[test]
fn bare_directive_is_unrecognized() {
    let r = derive_hash_with("struct S { #[hash_with] x: u8 }");
    match r {
        Err(DeriveError::UnrecognizedDirective(text)) => {
            assert_eq!(tokens(&text), tokens("#[hash_with]"))
        }
        other => panic!("unexpected {:?}", other),
    }
}

#[test]
fn non_string_value_directive_is_unrecognized() {
    let r = derive_hash_with("struct S { #[hash_with = 5] x: u8 }");
    assert!(matches!(r, Err(DeriveError::UnrecognizedDirective(_))));
}

#[test]
fn other_shapes_are_refused() {
    for decl in [
        "enum E { A, B(u8) }",
        "struct T(u8, u16);",
        "struct U;",
        "struct V {}",
        "union W { a: u8, b: u16 }",
    ] {
        assert!(matches!(derive_hash_with(decl), Err(DeriveError::UnsupportedShape)), "{}", decl);
    }
}

#[test]
fn shapes_are_described() {
    assert!(matches!(describe("enum E { A }").unwrap().shape, Shape::TaggedUnion));
    assert!(matches!(describe("struct T(u8);").unwrap().shape, Shape::PositionalFields));
    assert!(matches!(describe("struct U;").unwrap().shape, Shape::NoFields));
    assert!(matches!(describe("union W { a: u8 }").unwrap().shape, Shape::UntaggedUnion));
    let t = describe("struct N { a: u8, #[hash_without] b: u8 }").unwrap();
    assert!(matches!(t.shape, Shape::NamedFields));
    assert_eq!(t.name, "N");
    assert_eq!(t.fields.len(), 2);
    assert_eq!(t.fields[1].name, "b");
    assert_eq!(t.fields[1].attrs[0].ident.as_deref(), Some("hash_without"));
}

#[test]
fn bad_path_is_a_syntax_error() {
    let r = derive_hash_with(r#"struct S { #[hash_with = "a::"] x: u8 }"#);
    match r {
        Err(DeriveError::Syntax(text)) => {
            assert_eq!(tokens(&text), tokens(r#"#[hash_with = "a::"]"#))
        }
        other => panic!("unexpected {:?}", other),
    }
}

#[test]
fn bad_expression_is_a_syntax_error() {
    let r = derive_hash_with("struct S { #[hash_with(1 +)] x: u8 }");
    assert!(matches!(r, Err(DeriveError::Syntax(_))));
}

#[test]
fn unparsable_declaration_is_a_syntax_error() {
    match derive_hash_with("fn f() {}") {
        Err(DeriveError::Syntax(text)) => assert_eq!(text, "fn f() {}"),
        other => panic!("unexpected {:?}", other),
    }
}

#[test]
fn first_error_in_field_order_wins() {
    let r = derive_hash_with("struct S { #[hash_with] x: u8, #[hash_with(1 +)] y: u8 }");
    assert!(matches!(r, Err(DeriveError::UnrecognizedDirective(_))));
}

#[test]
fn exclusion_wins_in_either_order() {
    let before = statements("struct S { #[hash_without] #[hash_with(self.x)] x: u8, y: u8 }");
    let after = statements("struct S { #[hash_with(self.x)] #[hash_without] x: u8, y: u8 }");
    for s in [before, after] {
        assert_eq!(s.len(), 1);
        assert!(matches!(&s[0], Statement::HashField(f) if f == "y"));
    }
}

#[test]
fn last_override_wins() {
    let s = statements(r#"struct S { #[hash_with = "first"] #[hash_with = "second"] x: u8 }"#);
    assert_eq!(s.len(), 1);
    assert!(matches!(&s[0], Statement::CallFunction { function, field } if function == "second" && field == "x"));
}

#[test]
fn path_is_printed_from_its_tokens() {
    let s = statements(r#"struct S { #[hash_with = "a::b"] x: u8 }"#);
    assert!(matches!(&s[0], Statement::CallFunction { function, .. } if function == "a :: b"));
}

#[test]
fn path_with_comment_is_printed_without_it() {
    let s = statements(r#"struct S { #[hash_with = "hash_bits // note"] x: u8 }"#);
    assert!(matches!(&s[0], Statement::CallFunction { function, .. } if function == "hash_bits"));
}

#[test]
fn suffixed_path_literal_is_a_syntax_error() {
    let r = derive_hash_with(r#"struct S { #[hash_with = "f"suffix] x: u8 }"#);
    assert!(matches!(r, Err(DeriveError::Syntax(_))));
}

#[test]
fn payload_verdicts_are_recorded() {
    let t = describe(r#"struct S { #[hash_with = "a::"] x: u8, #[hash_with(1 + 2)] #[doc = "d"] y: u8 }"#)
        .unwrap();
    assert!(t.fields[0].attrs[0].payload.is_none());
    assert!(matches!(&t.fields[0].attrs[0].meta, MetaShape::NameValueStr(p) if p == "a::"));
    assert_eq!(t.fields[1].attrs[0].payload.as_deref(), Some("1 + 2"));
    assert!(matches!(&t.fields[1].attrs[1].meta, MetaShape::NameValueStr(p) if p == "d"));
    assert!(t.fields[1].attrs[1].payload.is_none());
    assert_eq!(t.fields[1].attrs[1].ident.as_deref(), Some("doc"));
}

#[test]
fn unparsed_payload_is_a_syntax_error_in_the_engine() {
    let mut bad = attr(Some("hash_with"), MetaShape::List("1 +".to_string()), "#[hash_with(1 +)]");
    bad.payload = None;
    assert!(matches!(resolve_field(&vec![bad]), Err(DeriveError::Syntax(t)) if t == "#[hash_with(1 +)]"));
}

#[test]
fn expression_is_printed_from_its_tokens() {
    let s = statements("struct S { #[hash_with(self.x.len())] x: Vec<u8> }");
    assert!(matches!(&s[0], Statement::HashExpression(e) if e == "self . x . len ()"));
}

#[test]
fn other_attributes_are_ignored() {
    let s = statements(r#"struct S { #[doc = "x"] #[serde(skip)] x: u8 }"#);
    assert_eq!(s.len(), 1);
    assert!(matches!(&s[0], Statement::HashField(f) if f == "x"));
}

#[test]
fn field_order_decides_statement_order() {
    let xy = generated("struct P { x: u8, y: u8 }");
    let yx = generated("struct P { y: u8, x: u8 }");
    assert_ne!(xy, yx);
    assert_eq!(
        xy,
        tokens(
            "impl ::std::hash::Hash for P { fn hash<H: ::std::hash::Hasher>(&self, state: &mut H) { \
             ::std::hash::Hash::hash(&self.x, state); ::std::hash::Hash::hash(&self.y, state); } }"
        )
    );
}

#[test]
fn excluded_field_leaves_output_unchanged() {
    assert_eq!(
        generated("struct Q { x: u8, #[hash_without] y: u8 }"),
        generated("struct Q { x: u8 }")
    );
}

#[test]
fn swapping_named_function_changes_one_statement() {
    let f = generated(r#"struct S { a: u8, #[hash_with = "f"] b: u8, c: u8 }"#);
    let g = generated(r#"struct S { a: u8, #[hash_with = "g"] b: u8, c: u8 }"#);
    assert_ne!(f, g);
    assert_eq!(f.replace("f(&self.b", "g(&self.b"), g);
}

#[test]
fn inline_expression_does_not_read_the_field() {
    let a = statements("struct S { #[hash_with(7u8)] x: u8 }");
    let b = statements("struct S { #[hash_with(7u8)] y: u16 }");
    assert!(matches!(&a[0], Statement::HashExpression(e) if e == "7u8"));
    assert!(matches!(&b[0], Statement::HashExpression(e) if e == "7u8"));
}

/// An attribute whose payload, if it has one, parsed as written.
fn attr(ident: Option<&str>, meta: MetaShape, text: &str) -> AttrDesc {
    let payload = match &meta {
        MetaShape::List(t) | MetaShape::NameValueStr(t) => Some(t.clone()),
        MetaShape::Path | MetaShape::NameValueOther => None,
    };
    AttrDesc { ident: ident.map(|s| s.to_string()), meta, text: text.to_string(), payload }
}

#[test]
fn resolve_field_reads_attributes_in_order() {
    assert!(matches!(resolve_field(&vec![]), Ok(Strategy::Default)));
    let path_only = vec![attr(None, MetaShape::Path, "#[a::hash_without]")];
    assert!(matches!(resolve_field(&path_only), Ok(Strategy::Default)));
    let two = vec![
        attr(Some("hash_with"), MetaShape::List("self.x".to_string()), "#[hash_with(self.x)]"),
        attr(Some("hash_with"), MetaShape::NameValueStr("h".to_string()), "#[hash_with = \"h\"]"),
    ];
    assert!(matches!(resolve_field(&two), Ok(Strategy::NamedFunction(p)) if p == "h"));
    let unrecognized = vec![attr(Some("hash_with"), MetaShape::NameValueOther, "#[hash_with = 1]")];
    assert!(matches!(resolve_field(&unrecognized), Err(DeriveError::UnrecognizedDirective(t)) if t == "#[hash_with = 1]"));
}

#[test]
fn expand_renders_exact_text() {
    let t = TypeDesc {
        name: "P".to_string(),
        shape: Shape::NamedFields,
        fields: vec![
            FieldDesc { name: "x".to_string(), attrs: vec![] },
            FieldDesc {
                name: "y".to_string(),
                attrs: vec![attr(Some("hash_without"), MetaShape::Path, "#[hash_without]")],
            },
            FieldDesc {
                name: "z".to_string(),
                attrs: vec![attr(Some("hash_with"), MetaShape::NameValueStr("k".to_string()), "")],
            },
        ],
    };
    assert_eq!(
        expand(&t).unwrap(),
        "impl ::std::hash::Hash for P { fn hash<H: ::std::hash::Hasher>(&self, state: &mut H) { \
         ::std::hash::Hash::hash(&self.x, state); k(&self.z, state); } }"
    );
    let g = generate(&t).unwrap();
    assert_eq!(g.name, "P");
    assert_eq!(g.statements.len(), 2);
    let empty = TypeDesc { name: "E".to_string(), shape: Shape::NamedFields, fields: vec![] };
    assert!(matches!(expand(&empty), Err(DeriveError::UnsupportedShape)));
}

#[test]
fn swapping_distant_fields_swaps_their_statements() {
    let a = statements("struct P { x: u8, m: u8, #[hash_with(self.x + 1)] y: u8 }");
    let b = statements("struct P { #[hash_with(self.x + 1)] y: u8, m: u8, x: u8 }");
    assert!(matches!(&a[0], Statement::HashField(f) if f == "x"));
    assert!(matches!(&a[1], Statement::HashField(f) if f == "m"));
    assert!(matches!(&a[2], Statement::HashExpression(_)));
    assert!(matches!(&b[0], Statement::HashExpression(_)));
    assert!(matches!(&b[1], Statement::HashField(f) if f == "m"));
    assert!(matches!(&b[2], Statement::HashField(f) if f == "x"));
}

#[test]
fn directives_beside_other_attributes() {
    let inline = generated(r#"struct S { #[doc = "a"] #[hash_with(7u8)] #[allow(unused)] x: u8 }"#);
    let renamed = generated(r#"struct S { #[hash_with(7u8)] y: u8 }"#);
    assert_eq!(inline, renamed);
    let f = generated(r#"struct S { #[doc = "a"] #[hash_with = "f"] #[allow(unused)] x: u8, z: u8 }"#);
    let g = generated(r#"struct S { #[doc = "a"] #[hash_with = "g"] #[allow(unused)] x: u8, z: u8 }"#);
    assert_ne!(f, g);
    assert_eq!(f.replace("f(&self.x", "g(&self.x"), g);
}
