//! Plain descriptions of a type declaration, of the per-field hashing
//! strategies, and of the generated `Hash` implementation, with their
//! mathematical views.
use vstd::prelude::*;

verus! {

/// The shape of a field attribute's arguments.
#[derive(Debug)]
pub enum MetaShape {
    /// A bare path: `#[name]`.
    Path,
    /// A parenthesized token list, `#[name(...)]`, holding the tokens as text.
    List(String),
    /// A name-value pair whose value is a string literal, `#[name = "..."]`,
    /// holding the literal's contents.
    NameValueStr(String),
    /// A name-value pair whose value is anything but a string literal.
    NameValueOther,
}

pub ghost enum MetaShapeView {
    Path,
    List(Seq<char>),
    NameValueStr(Seq<char>),
    NameValueOther,
}

impl View for MetaShape {
    type V = MetaShapeView;

    open spec fn view(&self) -> MetaShapeView {
        match self {
            MetaShape::Path => MetaShapeView::Path,
            MetaShape::List(t) => MetaShapeView::List(t@),
            MetaShape::NameValueStr(s) => MetaShapeView::NameValueStr(s@),
            MetaShape::NameValueOther => MetaShapeView::NameValueOther,
        }
    }
}

/// One attribute attached to a field.
#[derive(Debug)]
pub struct AttrDesc {
    /// The attribute's path when it is a single identifier.
    pub ident: Option<String>,
    pub meta: MetaShape,
    /// The attribute's source text, for diagnostics.
    pub text: String,
    /// For a `hash_with` attribute, its arguments as parsed and printed back
    /// by syn: a string literal's contents as a module-style path, a list's
    /// tokens as one expression; `None` where they do not parse (and for any
    /// other attribute).
    pub payload: Option<String>,
}

pub ghost struct AttrView {
    pub ident: Option<Seq<char>>,
    pub meta: MetaShapeView,
    pub text: Seq<char>,
    pub payload: Option<Seq<char>>,
}

impl View for AttrDesc {
    type V = AttrView;

    open spec fn view(&self) -> AttrView {
        AttrView {
            ident: match self.ident {
                Some(i) => Some(i@),
                None => None,
            },
            meta: self.meta@,
            text: self.text@,
            payload: match self.payload {
                Some(p) => Some(p@),
                None => None,
            },
        }
    }
}

pub open spec fn attrs_view(attrs: Seq<AttrDesc>) -> Seq<AttrView> {
    attrs.map_values(|a: AttrDesc| a@)
}

/// One named field with its attributes, in declaration order.
#[derive(Debug)]
pub struct FieldDesc {
    pub name: String,
    pub attrs: Vec<AttrDesc>,
}

pub ghost struct FieldView {
    pub name: Seq<char>,
    pub attrs: Seq<AttrView>,
}

impl View for FieldDesc {
    type V = FieldView;

    open spec fn view(&self) -> FieldView {
        FieldView { name: self.name@, attrs: attrs_view(self.attrs@) }
    }
}

pub open spec fn fields_view(fields: Seq<FieldDesc>) -> Seq<FieldView> {
    fields.map_values(|f: FieldDesc| f@)
}

/// What kind of type declaration was described.
#[derive(PartialEq, Eq, Structural, Clone, Copy, Debug)]
pub enum Shape {
    /// A struct with named fields, `struct S { a: A }`.
    NamedFields,
    /// A tuple struct, `struct S(A);`.
    PositionalFields,
    /// A unit struct, `struct S;`.
    NoFields,
    /// An enum.
    TaggedUnion,
    /// A union.
    UntaggedUnion,
}

/// A type declaration: its name, its shape and, for a struct with named
/// fields, those fields in declaration order.
#[derive(Debug)]
pub struct TypeDesc {
    pub name: String,
    pub shape: Shape,
    pub fields: Vec<FieldDesc>,
}

pub ghost struct TypeView {
    pub name: Seq<char>,
    pub shape: Shape,
    pub fields: Seq<FieldView>,
}

impl View for TypeDesc {
    type V = TypeView;

    open spec fn view(&self) -> TypeView {
        TypeView { name: self.name@, shape: self.shape, fields: fields_view(self.fields@) }
    }
}

/// How one field contributes to the hash.
#[derive(Debug)]
pub enum Strategy {
    /// The field's own `Hash` implementation.
    Default,
    /// A call `path(&self.field, state)`; holds the parsed path.
    NamedFunction(String),
    /// The `Hash` of an expression evaluated on `self`; holds the parsed
    /// expression.
    InlineExpression(String),
    /// The field is left out of the hash.
    Exclude,
}

pub ghost enum StrategyView {
    Default,
    NamedFunction(Seq<char>),
    InlineExpression(Seq<char>),
    Exclude,
}

impl View for Strategy {
    type V = StrategyView;

    open spec fn view(&self) -> StrategyView {
        match self {
            Strategy::Default => StrategyView::Default,
            Strategy::NamedFunction(p) => StrategyView::NamedFunction(p@),
            Strategy::InlineExpression(e) => StrategyView::InlineExpression(e@),
            Strategy::Exclude => StrategyView::Exclude,
        }
    }
}

/// Why no implementation could be generated.
#[derive(Debug)]
pub enum DeriveError {
    /// The type is not a struct with at least one named field.
    UnsupportedShape,
    /// A `hash_with` attribute of neither recognized form; holds its text.
    UnrecognizedDirective(String),
    /// A payload that does not parse (or a declaration that does not);
    /// holds the offending text.
    Syntax(String),
}

pub ghost enum ErrorView {
    UnsupportedShape,
    UnrecognizedDirective(Seq<char>),
    Syntax(Seq<char>),
}

impl View for DeriveError {
    type V = ErrorView;

    open spec fn view(&self) -> ErrorView {
        match self {
            DeriveError::UnsupportedShape => ErrorView::UnsupportedShape,
            DeriveError::UnrecognizedDirective(t) => ErrorView::UnrecognizedDirective(t@),
            DeriveError::Syntax(t) => ErrorView::Syntax(t@),
        }
    }
}

/// One statement of the generated `hash` body.
#[derive(Debug)]
pub enum Statement {
    /// `::std::hash::Hash::hash(&self.field, state);`
    HashField(String),
    /// `function(&self.field, state);`
    CallFunction { function: String, field: String },
    /// `::std::hash::Hash::hash(&(expression), state);`
    HashExpression(String),
}

pub ghost enum StatementView {
    HashField(Seq<char>),
    CallFunction { function: Seq<char>, field: Seq<char> },
    HashExpression(Seq<char>),
}

impl View for Statement {
    type V = StatementView;

    open spec fn view(&self) -> StatementView {
        match self {
            Statement::HashField(f) => StatementView::HashField(f@),
            Statement::CallFunction { function, field } => StatementView::CallFunction {
                function: function@,
                field: field@,
            },
            Statement::HashExpression(e) => StatementView::HashExpression(e@),
        }
    }
}

pub open spec fn statements_view(s: Seq<Statement>) -> Seq<StatementView> {
    s.map_values(|x: Statement| x@)
}

/// A generated `Hash` implementation: the type's name and the statements of
/// the `hash` body, in field declaration order.
#[derive(Debug)]
pub struct Generated {
    pub name: String,
    pub statements: Vec<Statement>,
}

pub ghost struct GeneratedView {
    pub name: Seq<char>,
    pub statements: Seq<StatementView>,
}

impl View for Generated {
    type V = GeneratedView;

    open spec fn view(&self) -> GeneratedView {
        GeneratedView { name: self.name@, statements: statements_view(self.statements@) }
    }
}

pub open spec fn strategy_result_view(r: Result<Strategy, DeriveError>) -> Result<
    StrategyView,
    ErrorView,
> {
    match r {
        Ok(s) => Ok(s@),
        Err(e) => Err(e@),
    }
}

pub open spec fn generated_result_view(r: Result<Generated, DeriveError>) -> Result<
    GeneratedView,
    ErrorView,
> {
    match r {
        Ok(g) => Ok(g@),
        Err(e) => Err(e@),
    }
}

pub open spec fn text_result_view(r: Result<String, DeriveError>) -> Result<
    Seq<char>,
    ErrorView,
> {
    match r {
        Ok(s) => Ok(s@),
        Err(e) => Err(e@),
    }
}

} // verus!
