//! The derivation engine: chooses each field's hashing strategy from its
//! attributes, plans the statements of the `hash` body in field order, and
//! renders the implementation as Rust source text.
use crate::model::{
    attrs_view, fields_view, generated_result_view, statements_view, strategy_result_view,
    text_result_view, AttrDesc, AttrView, DeriveError, ErrorView, FieldView, Generated,
    GeneratedView, MetaShape, MetaShapeView, Shape, Statement, StatementView, Strategy,
    StrategyView, TypeDesc, TypeView,
};
use vstd::prelude::*;
use vstd::string::*;

verus! {

/// The name of the attribute that overrides how a field is hashed.
pub open spec fn override_ident() -> Seq<char> {
    "hash_with"@
}

/// The name of the attribute that leaves a field out of the hash.
pub open spec fn exclude_ident() -> Seq<char> {
    "hash_without"@
}

/// The strategy that one `hash_with` attribute asks for: a string literal
/// names a function, a parenthesized list holds an expression, either one a
/// syntax error where its payload did not parse, and any other shape is not
/// recognized.
pub open spec fn directive_strategy(a: AttrView) -> Result<StrategyView, ErrorView> {
    match a.meta {
        MetaShapeView::NameValueStr(_) => match a.payload {
            Some(p) => Ok(StrategyView::NamedFunction(p)),
            None => Err(ErrorView::Syntax(a.text)),
        },
        MetaShapeView::List(_) => match a.payload {
            Some(e) => Ok(StrategyView::InlineExpression(e)),
            None => Err(ErrorView::Syntax(a.text)),
        },
        _ => Err(ErrorView::UnrecognizedDirective(a.text)),
    }
}

/// The strategy after reading one more attribute: a later `hash_with`
/// replaces an earlier one, `hash_without` wins over any `hash_with`, and other
/// attributes change nothing.
pub open spec fn after_attr(s: StrategyView, a: AttrView) -> Result<StrategyView, ErrorView> {
    if a.ident == Some(override_ident()) {
        match directive_strategy(a) {
            Ok(o) => if s is Exclude {
                Ok(StrategyView::Exclude)
            } else {
                Ok(o)
            },
            Err(e) => Err(e),
        }
    } else if a.ident == Some(exclude_ident()) {
        Ok(StrategyView::Exclude)
    } else {
        Ok(s)
    }
}

/// A field's strategy: its attributes read in order, starting from the
/// default; the first malformed directive is the error.
pub open spec fn field_strategy(attrs: Seq<AttrView>) -> Result<StrategyView, ErrorView>
    decreases attrs.len(),
{
    if attrs.len() == 0 {
        Ok(StrategyView::Default)
    } else {
        match field_strategy(attrs.drop_last()) {
            Ok(s) => after_attr(s, attrs.last()),
            Err(e) => Err(e),
        }
    }
}

/// The statements that a field contributes: one, or none when excluded.
pub open spec fn statement_for(field: Seq<char>, s: StrategyView) -> Seq<StatementView> {
    match s {
        StrategyView::Default => seq![StatementView::HashField(field)],
        StrategyView::NamedFunction(p) => seq![StatementView::CallFunction { function: p, field }],
        StrategyView::InlineExpression(e) => seq![StatementView::HashExpression(e)],
        StrategyView::Exclude => seq![],
    }
}

/// The statements of all fields, in declaration order, or the first field's
/// error.
pub open spec fn field_statements(fields: Seq<FieldView>) -> Result<
    Seq<StatementView>,
    ErrorView,
>
    decreases fields.len(),
{
    if fields.len() == 0 {
        Ok(seq![])
    } else {
        match field_statements(fields.drop_last()) {
            Ok(prev) => match field_strategy(fields.last().attrs) {
                Ok(s) => Ok(prev + statement_for(fields.last().name, s)),
                Err(e) => Err(e),
            },
            Err(e) => Err(e),
        }
    }
}

/// What generation yields for a type: only a struct with at least one named
/// field is accepted.
pub open spec fn generation(t: TypeView) -> Result<GeneratedView, ErrorView> {
    if !matches!(t.shape, Shape::NamedFields) || t.fields.len() == 0 {
        Err(ErrorView::UnsupportedShape)
    } else {
        match field_statements(t.fields) {
            Ok(s) => Ok(GeneratedView { name: t.name, statements: s }),
            Err(e) => Err(e),
        }
    }
}

/// The source text of one statement, followed by a space.
pub open spec fn statement_text(s: StatementView) -> Seq<char> {
    match s {
        StatementView::HashField(f) => "::std::hash::Hash::hash(&self."@ + f + ", state); "@,
        StatementView::CallFunction { function, field } => function + "(&self."@ + field
            + ", state); "@,
        StatementView::HashExpression(e) => "::std::hash::Hash::hash(&("@ + e + "), state); "@,
    }
}

/// The statements' source text, in order.
pub open spec fn body_text(s: Seq<StatementView>) -> Seq<char>
    decreases s.len(),
{
    if s.len() == 0 {
        seq![]
    } else {
        body_text(s.drop_last()) + statement_text(s.last())
    }
}

/// The source text of the generated implementation.
pub open spec fn impl_text(g: GeneratedView) -> Seq<char> {
    "impl ::std::hash::Hash for "@ + g.name + " { fn hash<H: ::std::hash::Hasher>(&self, state: &mut H) { "@
        + body_text(g.statements) + "} }"@
}

/// What expansion yields for a type: the text of its implementation, or why
/// there is none.
pub open spec fn expansion(t: TypeView) -> Result<Seq<char>, ErrorView> {
    match generation(t) {
        Ok(g) => Ok(impl_text(g)),
        Err(e) => Err(e),
    }
}

proof fn lemma_strategy_error_persists(attrs: Seq<AttrView>, k: int)
    requires
        0 <= k <= attrs.len(),
        field_strategy(attrs.take(k)) is Err,
    ensures
        field_strategy(attrs) == field_strategy(attrs.take(k)),
    decreases attrs.len() - k,
{
    if k < attrs.len() {
        assert(attrs.take(k + 1).drop_last() =~= attrs.take(k));
        lemma_strategy_error_persists(attrs, k + 1);
    } else {
        assert(attrs.take(k) =~= attrs);
    }
}

proof fn lemma_statements_error_persists(fields: Seq<FieldView>, k: int)
    requires
        0 <= k <= fields.len(),
        field_statements(fields.take(k)) is Err,
    ensures
        field_statements(fields) == field_statements(fields.take(k)),
    decreases fields.len() - k,
{
    if k < fields.len() {
        assert(fields.take(k + 1).drop_last() =~= fields.take(k));
        lemma_statements_error_persists(fields, k + 1);
    } else {
        assert(fields.take(k) =~= fields);
    }
}

pub(crate) fn has_ident(ident: &Option<String>, name: &str) -> (r: bool)
    ensures
        r == (match ident {
            Some(i) => i@ == name@,
            None => false,
        }),
{
    match ident {
        Some(i) => *i == String::from_str(name),
        None => false,
    }
}

/// Reads one `hash_with` attribute: a string literal names a function, a
/// parenthesized list holds an expression, each only where its payload parsed;
/// any other shape is refused.
pub fn directive_of(a: &AttrDesc) -> (r: Result<Strategy, DeriveError>)
    ensures
        strategy_result_view(r) == directive_strategy(a@),
{
    match &a.meta {
        MetaShape::NameValueStr(_) => match &a.payload {
            Some(p) => Ok(Strategy::NamedFunction(p.clone())),
            None => Err(DeriveError::Syntax(a.text.clone())),
        },
        MetaShape::List(_) => match &a.payload {
            Some(e) => Ok(Strategy::InlineExpression(e.clone())),
            None => Err(DeriveError::Syntax(a.text.clone())),
        },
        _ => Err(DeriveError::UnrecognizedDirective(a.text.clone())),
    }
}

/// Chooses a field's strategy from its attributes, read in order.
pub fn resolve_field(attrs: &Vec<AttrDesc>) -> (r: Result<Strategy, DeriveError>)
    ensures
        strategy_result_view(r) == field_strategy(attrs_view(attrs@)),
{
    let ghost v = attrs_view(attrs@);
    let mut s = Strategy::Default;
    let mut i: usize = 0;
    assert(v.take(0) =~= Seq::<AttrView>::empty());
    while i < attrs.len()
        invariant
            0 <= i <= attrs.len(),
            v == attrs_view(attrs@),
            field_strategy(v.take(i as int)) == Ok::<StrategyView, ErrorView>(s@),
        decreases attrs.len() - i,
    {
        let a = &attrs[i];
        assert(v.take(i + 1).drop_last() =~= v.take(i as int));
        assert(v.take(i + 1).last() == a@);
        if has_ident(&a.ident, "hash_with") {
            match directive_of(a) {
                Ok(o) => {
                    if !matches!(s, Strategy::Exclude) {
                        s = o;
                    }
                },
                Err(e) => {
                    proof {
                        lemma_strategy_error_persists(v, i + 1);
                    }
                    return Err(e);
                },
            }
        } else if has_ident(&a.ident, "hash_without") {
            s = Strategy::Exclude;
        }
        i += 1;
    }
    assert(v.take(attrs.len() as int) =~= v);
    Ok(s)
}

/// Plans the `hash` body of a type: each named field, in declaration order,
/// contributes the statement that its strategy asks for. Anything but a struct
/// with at least one named field is refused.
pub fn generate(t: &TypeDesc) -> (r: Result<Generated, DeriveError>)
    ensures
        generated_result_view(r) == generation(t@),
        !(t.shape is NamedFields) ==> r matches Err(DeriveError::UnsupportedShape),
{
    if !matches!(t.shape, Shape::NamedFields) || t.fields.len() == 0 {
        return Err(DeriveError::UnsupportedShape);
    }
    let ghost v = fields_view(t.fields@);
    let mut statements: Vec<Statement> = Vec::new();
    let mut i: usize = 0;
    assert(v.take(0) =~= Seq::<FieldView>::empty());
    assert(statements_view(statements@) =~= Seq::<StatementView>::empty());
    while i < t.fields.len()
        invariant
            0 <= i <= t.fields.len(),
            t.shape is NamedFields,
            v == fields_view(t.fields@),
            field_statements(v.take(i as int)) == Ok::<Seq<StatementView>, ErrorView>(
                statements_view(statements@),
            ),
        decreases t.fields.len() - i,
    {
        let f = &t.fields[i];
        assert(v.take(i + 1).drop_last() =~= v.take(i as int));
        assert(v.take(i + 1).last() == f@);
        let ghost before = statements@;
        match resolve_field(&f.attrs) {
            Ok(s) => {
                match s {
                    Strategy::Default => statements.push(Statement::HashField(f.name.clone())),
                    Strategy::NamedFunction(p) => statements.push(
                        Statement::CallFunction { function: p, field: f.name.clone() },
                    ),
                    Strategy::InlineExpression(e) => statements.push(Statement::HashExpression(e)),
                    Strategy::Exclude => {},
                }
                assert(statements_view(statements@) =~= statements_view(before) + statement_for(
                    f.name@,
                    s@,
                ));
            },
            Err(e) => {
                assert(field_statements(v.take(i + 1)) == Err::<Seq<StatementView>, ErrorView>(
                    e@,
                ));
                proof {
                    lemma_statements_error_persists(v, i + 1);
                }
                return Err(e);
            },
        }
        i += 1;
    }
    assert(v.take(t.fields.len() as int) =~= v);
    Ok(Generated { name: t.name.clone(), statements })
}

fn append_statement(out: &mut String, s: &Statement)
    ensures
        final(out)@ == old(out)@ + statement_text(s@),
{
    match s {
        Statement::HashField(f) => {
            out.append("::std::hash::Hash::hash(&self.");
            out.append(f.as_str());
            out.append(", state); ");
        },
        Statement::CallFunction { function, field } => {
            out.append(function.as_str());
            out.append("(&self.");
            out.append(field.as_str());
            out.append(", state); ");
        },
        Statement::HashExpression(e) => {
            out.append("::std::hash::Hash::hash(&(");
            out.append(e.as_str());
            out.append("), state); ");
        },
    }
}

impl Generated {
    /// The implementation as Rust source text.
    pub fn render(&self) -> (r: String)
        ensures
            r@ == impl_text(self@),
    {
        let ghost v = statements_view(self.statements@);
        let mut out = String::new();
        out.append("impl ::std::hash::Hash for ");
        out.append(self.name.as_str());
        out.append(" { fn hash<H: ::std::hash::Hasher>(&self, state: &mut H) { ");
        let ghost head = out@;
        let mut i: usize = 0;
        assert(v.take(0) =~= Seq::<StatementView>::empty());
        while i < self.statements.len()
            invariant
                0 <= i <= self.statements.len(),
                v == statements_view(self.statements@),
                out@ == head + body_text(v.take(i as int)),
            decreases self.statements.len() - i,
        {
            assert(v.take(i + 1).drop_last() =~= v.take(i as int));
            append_statement(&mut out, &self.statements[i]);
            i += 1;
        }
        assert(v.take(self.statements.len() as int) =~= v);
        out.append("} }");
        out
    }
}

/// Generates and renders the implementation for a type.
pub fn expand(t: &TypeDesc) -> (r: Result<String, DeriveError>)
    ensures
        text_result_view(r) == expansion(t@),
{
    match generate(t) {
        Ok(g) => Ok(g.render()),
        Err(e) => Err(e),
    }
}

} // verus!
