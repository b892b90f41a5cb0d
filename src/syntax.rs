//! The calls into syn: parsing a declaration once, reading its parts as plain
//! values, and parsing directive payloads. Everything here is taken on trust.
//!
//! What syn accepts, and how proc_macro2 prints tokens back, depends on
//! whether the code runs inside the compiler, so nothing is stated of those
//! results: the callers hold whatever comes back.
use crate::model::{MetaShape, Shape};
use quote::ToTokens;
use syn::{Attribute, Data, DeriveInput, Expr, ExprLit, Field, Fields, Lit, Meta, MetaNameValue};
use vstd::prelude::*;

verus! {

#[verifier::external_type_specification]
#[verifier::external_body]
pub struct ExDeriveInput(syn::DeriveInput);

#[verifier::external_type_specification]
#[verifier::external_body]
pub struct ExField(syn::Field);

#[verifier::external_type_specification]
#[verifier::external_body]
pub struct ExAttribute(syn::Attribute);

/// Relies on syn's `parse_str::<DeriveInput>` to parse one struct, enum or
/// union declaration.
#[verifier::external_body]
pub(crate) fn parse_declaration(s: &str) -> (r: Option<DeriveInput>) {
    syn::parse_str::<DeriveInput>(s).ok()
}

/// Relies on `DeriveInput::ident` and proc_macro2's `Ident::to_string`.
#[verifier::external_body]
pub(crate) fn declared_name(d: &DeriveInput) -> (r: String) {
    d.ident.to_string()
}

/// Relies on syn's `Data` and `Fields` variants to tell the declaration's
/// shape.
#[verifier::external_body]
pub(crate) fn declared_shape(d: &DeriveInput) -> (r: Shape) {
    match &d.data {
        Data::Struct(st) => match &st.fields {
            Fields::Named(_) => Shape::NamedFields,
            Fields::Unnamed(_) => Shape::PositionalFields,
            Fields::Unit => Shape::NoFields,
        },
        Data::Enum(_) => Shape::TaggedUnion,
        Data::Union(_) => Shape::UntaggedUnion,
    }
}

/// Relies on syn's `FieldsNamed::named`: a struct's named fields in
/// declaration order, none for any other shape.
#[verifier::external_body]
pub(crate) fn declared_fields(d: &DeriveInput) -> (r: Vec<Field>) {
    match &d.data {
        Data::Struct(st) => match &st.fields {
            Fields::Named(f) => f.named.iter().cloned().collect(),
            Fields::Unnamed(_) | Fields::Unit => Vec::new(),
        },
        Data::Enum(_) | Data::Union(_) => Vec::new(),
    }
}

/// Relies on `Field::ident`, which syn sets on every named field, and
/// `Ident::to_string`.
#[verifier::external_body]
pub(crate) fn field_name(f: &Field) -> (r: String) {
    f.ident.as_ref().map(|i| i.to_string()).unwrap_or_default()
}

/// Relies on `Field::attrs`, the field's attributes in source order.
#[verifier::external_body]
pub(crate) fn field_attributes(f: &Field) -> (r: Vec<Attribute>) {
    f.attrs.clone()
}

/// Relies on `Attribute::path` and `Path::get_ident`: the attribute's name
/// when its path is a single identifier.
#[verifier::external_body]
pub(crate) fn attribute_ident(a: &Attribute) -> (r: Option<String>) {
    a.path().get_ident().map(|i| i.to_string())
}

/// Relies on syn's `Meta` variants, `LitStr::value` and `TokenStream`'s
/// `to_string`: the kind of the attribute's arguments, with the literal's
/// contents or the list's tokens as text.
#[verifier::external_body]
pub(crate) fn attribute_meta(a: &Attribute) -> (r: MetaShape) {
    match &a.meta {
        Meta::Path(_) => MetaShape::Path,
        Meta::List(l) => MetaShape::List(l.tokens.to_string()),
        Meta::NameValue(MetaNameValue {
            value: Expr::Lit(ExprLit { lit: Lit::Str(x), .. }),
            ..
        }) => MetaShape::NameValueStr(x.value()),
        Meta::NameValue(_) => MetaShape::NameValueOther,
    }
}

/// Relies on quote's `ToTokens` for `Attribute`: the attribute's printed text,
/// for diagnostics.
#[verifier::external_body]
pub(crate) fn attribute_text(a: &Attribute) -> (r: String) {
    a.to_token_stream().to_string()
}

/// Relies on syn's `LitStr::parse_with` with `Path::parse_mod_style`, which
/// also refuses a suffixed literal, and on quote's `ToTokens` to print the
/// path back: the path named by `#[name = "path"]`, or `None`.
#[verifier::external_body]
pub(crate) fn attribute_path(a: &Attribute) -> (r: Option<String>) {
    match &a.meta {
        Meta::NameValue(MetaNameValue {
            value: Expr::Lit(ExprLit { lit: Lit::Str(x), .. }),
            ..
        }) => x.parse_with(syn::Path::parse_mod_style).ok().map(|p| p.to_token_stream().to_string()),
        Meta::Path(_) | Meta::List(_) | Meta::NameValue(_) => None,
    }
}

/// Relies on syn's `parse_str::<Expr>`, which parses the whole text as one
/// expression, and on quote's `ToTokens` to print it back; `None` where it
/// does not parse.
#[verifier::external_body]
pub(crate) fn parse_expr(s: &str) -> (r: Option<String>) {
    syn::parse_str::<Expr>(s).ok().map(|e| e.to_token_stream().to_string())
}

} // verus!
