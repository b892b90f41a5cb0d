//! From declaration source text to the generated implementation: syn parses
//! the declaration once, its parts are read into a `TypeDesc`, and the engine
//! does the rest.
use crate::engine::{
    expand, expansion, field_statements, field_strategy, has_ident, override_ident,
};
use crate::model::{
    text_result_view, AttrDesc, AttrView, DeriveError, ErrorView, FieldDesc, FieldView,
    MetaShape, Shape, StrategyView, TypeDesc, TypeView,
};
use crate::syntax::{
    attribute_ident, attribute_meta, attribute_path, attribute_text, declared_fields,
    declared_name, declared_shape, field_attributes, field_name, parse_declaration, parse_expr,
};
use vstd::prelude::*;
use vstd::string::*;

verus! {

/// An attribute as reading leaves it: a payload is recorded only for a
/// `hash_with` attribute whose arguments are a string literal or a list.
pub open spec fn attr_well_read(a: AttrView) -> bool {
    a.payload is Some ==> a.ident == Some(override_ident()) && (a.meta is NameValueStr
        || a.meta is List)
}

/// A description as reading leaves it: fields only for a struct with named
/// fields, and every attribute as reading leaves it.
pub open spec fn well_read(t: TypeView) -> bool {
    &&& !(t.shape is NamedFields) ==> t.fields.len() == 0
    &&& forall|i: int, j: int|
        0 <= i < t.fields.len() && 0 <= j < t.fields[i].attrs.len() ==> attr_well_read(
            #[trigger] t.fields[i].attrs[j],
        )
}

/// The payload of a `hash_with` attribute as syn parses it: the named path, or
/// the expression in the list; `None` for any other attribute or where syn
/// refuses it.
fn read_payload(a: &syn::Attribute, ident: &Option<String>, meta: &MetaShape) -> (r: Option<
    String,
>)
    ensures
        r is Some ==> (match ident {
            Some(i) => i@ == override_ident(),
            None => false,
        }) && (meta@ is NameValueStr || meta@ is List),
{
    if !has_ident(ident, "hash_with") {
        return None;
    }
    match meta {
        MetaShape::NameValueStr(_) => attribute_path(a),
        MetaShape::List(e) => parse_expr(e.as_str()),
        _ => None,
    }
}

/// Reads a named field and its attributes, in source order.
fn describe_field(f: &syn::Field) -> (r: FieldDesc)
    ensures
        forall|j: int| 0 <= j < r@.attrs.len() ==> attr_well_read(#[trigger] r@.attrs[j]),
{
    let name = field_name(f);
    let attributes = field_attributes(f);
    let mut attrs: Vec<AttrDesc> = Vec::new();
    let mut j: usize = 0;
    while j < attributes.len()
        invariant
            0 <= j <= attributes.len(),
            forall|k: int| 0 <= k < attrs@.len() ==> attr_well_read(#[trigger] attrs@[k]@),
        decreases attributes.len() - j,
    {
        let a = &attributes[j];
        let ident = attribute_ident(a);
        let meta = attribute_meta(a);
        let payload = read_payload(a, &ident, &meta);
        let text = attribute_text(a);
        attrs.push(AttrDesc { ident, meta, text, payload });
        j += 1;
    }
    let r = FieldDesc { name, attrs };
    assert forall|j: int| 0 <= j < r@.attrs.len() implies attr_well_read(#[trigger] r@.attrs[j]) by {
        assert(r@.attrs[j] == r.attrs@[j]@);
    }
    r
}

/// Parses a struct, enum or union declaration once and reads it into a
/// `TypeDesc`. Fields are read only for a struct with named fields; a payload
/// is recorded only for a `hash_with` attribute. A declaration that does not
/// parse is a syntax error holding the input.
pub fn describe(input: &str) -> (r: Result<TypeDesc, DeriveError>)
    ensures
        match r {
            Ok(t) => well_read(t@),
            Err(e) => e@ == ErrorView::Syntax(input@),
        },
{
    let d = match parse_declaration(input) {
        Some(d) => d,
        None => return Err(DeriveError::Syntax(String::from_str(input))),
    };
    let name = declared_name(&d);
    let shape = declared_shape(&d);
    let mut fields: Vec<FieldDesc> = Vec::new();
    if matches!(shape, Shape::NamedFields) {
        let declared = declared_fields(&d);
        let mut i: usize = 0;
        while i < declared.len()
            invariant
                0 <= i <= declared.len(),
                forall|k: int, j: int|
                    0 <= k < fields@.len() && 0 <= j < fields@[k]@.attrs.len() ==> attr_well_read(
                        #[trigger] fields@[k]@.attrs[j],
                    ),
            decreases declared.len() - i,
        {
            let f = describe_field(&declared[i]);
            fields.push(f);
            i += 1;
        }
    }
    let t = TypeDesc { name, shape, fields };
    assert forall|i: int, j: int|
        0 <= i < t@.fields.len() && 0 <= j < t@.fields[i].attrs.len() implies attr_well_read(
            #[trigger] t@.fields[i].attrs[j],
        ) by {
        assert(t@.fields[i] == t.fields@[i]@);
    }
    Ok(t)
}

proof fn lemma_strategy_never_shape_error(attrs: Seq<AttrView>)
    ensures
        field_strategy(attrs) != Err::<StrategyView, ErrorView>(ErrorView::UnsupportedShape),
    decreases attrs.len(),
{
    if attrs.len() > 0 {
        lemma_strategy_never_shape_error(attrs.drop_last());
    }
}

proof fn lemma_statements_never_shape_error(fields: Seq<FieldView>)
    ensures
        !(field_statements(fields) matches Err(ErrorView::UnsupportedShape)),
    decreases fields.len(),
{
    if fields.len() > 0 {
        lemma_statements_never_shape_error(fields.drop_last());
        lemma_strategy_never_shape_error(fields.last().attrs);
    }
}

/// Generates the `std::hash::Hash` implementation for the declaration in
/// `input`, as Rust source text: a syntax error holding the input where syn
/// does not parse it, and otherwise exactly the expansion of the description
/// read from it. `UnsupportedShape` comes only when that description is not
/// a struct with at least one named field.
pub fn derive_hash_with(input: &str) -> (r: Result<String, DeriveError>)
    ensures
        text_result_view(r) == Err::<Seq<char>, ErrorView>(ErrorView::Syntax(input@)) || exists|
            t: TypeView,
        |
            well_read(t) && text_result_view(r) == #[trigger] expansion(t) && ((r matches Err(
                DeriveError::UnsupportedShape,
            )) <==> (!(t.shape is NamedFields) || t.fields.len() == 0)),
{
    match describe(input) {
        Ok(t) => {
            let r = expand(&t);
            proof {
                lemma_statements_never_shape_error(t@.fields);
                assert(text_result_view(r) == expansion(t@));
            }
            r
        },
        Err(e) => Err(e),
    }
}

} // verus!
