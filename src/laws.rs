//! Laws of the generated `hash` body, stated over the engine's spec functions.
use crate::engine::{
    directive_strategy, exclude_ident, field_statements, field_strategy, generation,
    override_ident, statement_for,
};
use crate::model::{AttrView, ErrorView, FieldView, GeneratedView, Shape, StatementView, StrategyView, TypeView};
use vstd::prelude::*;

verus! {

/// Two planning results joined in order: the first error wins, otherwise the
/// statements are concatenated.
pub open spec fn joined(
    a: Result<Seq<StatementView>, ErrorView>,
    b: Result<Seq<StatementView>, ErrorView>,
) -> Result<Seq<StatementView>, ErrorView> {
    match a {
        Err(e) => Err(e),
        Ok(pa) => match b {
            Err(e) => Err(e),
            Ok(pb) => Ok(pa + pb),
        },
    }
}

/// What one field on its own contributes.
pub open spec fn field_contribution(f: FieldView) -> Result<Seq<StatementView>, ErrorView> {
    match field_strategy(f.attrs) {
        Ok(s) => Ok(statement_for(f.name, s)),
        Err(e) => Err(e),
    }
}

/// Planning one field yields exactly that field's contribution.
pub proof fn single_field_statements(f: FieldView)
    ensures
        field_statements(seq![f]) == field_contribution(f),
{
    let one = seq![f];
    assert(one.drop_last() =~= Seq::<FieldView>::empty());
    assert(one.last() == f);
    assert(field_statements(Seq::<FieldView>::empty()) == Ok::<Seq<StatementView>, ErrorView>(
        Seq::empty(),
    ));
    if let Ok(s) = field_strategy(f.attrs) {
        assert(Seq::<StatementView>::empty() + statement_for(f.name, s) =~= statement_for(
            f.name,
            s,
        ));
    }
}

/// Fields are planned in declaration order: the statements of `a` followed by
/// `b` are those of `a` followed by those of `b`, and the first error in field
/// order is the error.
pub proof fn statements_of_concatenation(a: Seq<FieldView>, b: Seq<FieldView>)
    ensures
        field_statements(a + b) == joined(field_statements(a), field_statements(b)),
    decreases b.len(),
{
    if b.len() == 0 {
        assert(a + b =~= a);
        if let Ok(pa) = field_statements(a) {
            assert(pa + Seq::<StatementView>::empty() =~= pa);
        }
    } else {
        let bd = b.drop_last();
        statements_of_concatenation(a, bd);
        assert((a + b).drop_last() =~= a + bd);
        assert((a + b).last() == b.last());
        if let (Ok(pa), Ok(pbd)) = (field_statements(a), field_statements(bd)) {
            if let Ok(s) = field_strategy(b.last().attrs) {
                let st = statement_for(b.last().name, s);
                assert((pa + pbd) + st =~= pa + (pbd + st));
            }
        }
    }
}

/// A field left out of the hash contributes nothing: removing it leaves the
/// planned statements, and any error, exactly as they were. So two instances
/// that differ only in excluded fields run the same statements.
pub proof fn excluded_field_contributes_nothing(fields: Seq<FieldView>, i: int)
    requires
        0 <= i < fields.len(),
        field_strategy(fields[i].attrs) == Ok::<StrategyView, ErrorView>(StrategyView::Exclude),
    ensures
        field_statements(fields) == field_statements(fields.remove(i)),
{
    let a = fields.take(i);
    let b = fields.skip(i + 1);
    let f = fields[i];
    assert(fields =~= a + seq![f] + b);
    assert(fields.remove(i) =~= a + b);
    statements_of_concatenation(a + seq![f], b);
    statements_of_concatenation(a, seq![f]);
    statements_of_concatenation(a, b);
    single_field_statements(f);
    assert(statement_for(f.name, StrategyView::Exclude) =~= Seq::<StatementView>::empty());
    if let Ok(pa) = field_statements(a) {
        assert(pa + Seq::<StatementView>::empty() =~= pa);
    }
}

/// A field without directives is hashed by its own `Hash`: wherever planning
/// succeeds, the statements hold `HashField` of that field, after the
/// statements of the fields before it.
pub proof fn default_field_is_hashed(fields: Seq<FieldView>, i: int)
    requires
        0 <= i < fields.len(),
        field_strategy(fields[i].attrs) == Ok::<StrategyView, ErrorView>(StrategyView::Default),
        field_statements(fields) is Ok,
    ensures
        field_statements(fields.take(i)) is Ok,
        field_statements(fields)->Ok_0[field_statements(fields.take(i))->Ok_0.len() as int]
            == StatementView::HashField(fields[i].name),
{
    let a = fields.take(i);
    let b = fields.skip(i + 1);
    let f = fields[i];
    assert(fields =~= a + seq![f] + b);
    statements_of_concatenation(a + seq![f], b);
    statements_of_concatenation(a, seq![f]);
    single_field_statements(f);
}

/// The statements that the fields contribute, one after another in the
/// order given.
pub open spec fn contributions(fields: Seq<FieldView>) -> Seq<StatementView>
    decreases fields.len(),
{
    if fields.len() == 0 {
        seq![]
    } else {
        contributions(fields.drop_last()) + field_contribution(fields.last())->Ok_0
    }
}

/// Whatever the order of the fields, the generated body is their
/// contributions in exactly that order: reordering the fields reorders the
/// statements the same way.
pub proof fn statements_are_contributions_in_order(fields: Seq<FieldView>)
    requires
        forall|i: int| 0 <= i < fields.len() ==> (#[trigger] field_contribution(fields[i])) is Ok,
    ensures
        field_statements(fields) == Ok::<Seq<StatementView>, ErrorView>(contributions(fields)),
    decreases fields.len(),
{
    if fields.len() > 0 {
        let d = fields.drop_last();
        assert forall|i: int| 0 <= i < d.len() implies (#[trigger] field_contribution(d[i])) is Ok by {
            assert(d[i] == fields[i]);
        }
        statements_are_contributions_in_order(d);
        assert(field_contribution(fields[fields.len() - 1]) is Ok);
    }
}

/// Field order decides statement order: swapping any two fields swaps their
/// statements and changes nothing else, so where both contribute different
/// statements the generated body differs.
pub proof fn swapping_fields_swaps_statements(
    a: Seq<FieldView>,
    f: FieldView,
    m: Seq<FieldView>,
    g: FieldView,
    b: Seq<FieldView>,
)
    requires
        field_statements(a) is Ok,
        field_contribution(f) is Ok,
        field_statements(m) is Ok,
        field_contribution(g) is Ok,
        field_statements(b) is Ok,
    ensures
        field_statements(a + seq![f] + m + seq![g] + b) == Ok::<Seq<StatementView>, ErrorView>(
            field_statements(a)->Ok_0 + field_contribution(f)->Ok_0 + field_statements(m)->Ok_0
                + field_contribution(g)->Ok_0 + field_statements(b)->Ok_0,
        ),
        field_statements(a + seq![g] + m + seq![f] + b) == Ok::<Seq<StatementView>, ErrorView>(
            field_statements(a)->Ok_0 + field_contribution(g)->Ok_0 + field_statements(m)->Ok_0
                + field_contribution(f)->Ok_0 + field_statements(b)->Ok_0,
        ),
        field_contribution(f)->Ok_0.len() == 1 && field_contribution(g)->Ok_0.len() == 1
            && field_contribution(f)->Ok_0 != field_contribution(g)->Ok_0 ==> field_statements(
            a + seq![f] + m + seq![g] + b,
        ) != field_statements(a + seq![g] + m + seq![f] + b),
{
    let pa = field_statements(a)->Ok_0;
    let pf = field_contribution(f)->Ok_0;
    let pg = field_contribution(g)->Ok_0;
    single_field_statements(f);
    single_field_statements(g);
    statements_of_concatenation(a, seq![f]);
    statements_of_concatenation(a + seq![f], m);
    statements_of_concatenation(a + seq![f] + m, seq![g]);
    statements_of_concatenation(a + seq![f] + m + seq![g], b);
    statements_of_concatenation(a, seq![g]);
    statements_of_concatenation(a + seq![g], m);
    statements_of_concatenation(a + seq![g] + m, seq![f]);
    statements_of_concatenation(a + seq![g] + m + seq![f], b);
    if pf.len() == 1 && pg.len() == 1 && pf != pg {
        let x = field_statements(a + seq![f] + m + seq![g] + b)->Ok_0;
        let y = field_statements(a + seq![g] + m + seq![f] + b)->Ok_0;
        assert(x[pa.len() as int] == pf[0]);
        assert(y[pa.len() as int] == pg[0]);
        assert(pf =~= seq![pf[0]]);
        assert(pg =~= seq![pg[0]]);
    }
}

/// Without `hash_without`, a field's strategy is never to be left out.
proof fn lemma_not_excluded(attrs: Seq<AttrView>)
    requires
        forall|j: int| 0 <= j < attrs.len() ==> (#[trigger] attrs[j]).ident != Some(exclude_ident()),
        field_strategy(attrs) is Ok,
    ensures
        !(field_strategy(attrs)->Ok_0 is Exclude),
    decreases attrs.len(),
{
    if attrs.len() > 0 {
        let d = attrs.drop_last();
        assert(attrs[attrs.len() - 1] == attrs.last());
        assert forall|j: int| 0 <= j < d.len() implies (#[trigger] d[j]).ident != Some(
            exclude_ident(),
        ) by {
            assert(d[j] == attrs[j]);
        }
        lemma_not_excluded(d);
    }
}

/// The last `hash_with` decides: on a field without `hash_without` whose
/// attributes are well formed, the strategy is what its last `hash_with`
/// attribute asks for, whatever other attributes stand beside it.
pub proof fn last_override_decides(attrs: Seq<AttrView>, k: int)
    requires
        0 <= k < attrs.len(),
        attrs[k].ident == Some(override_ident()),
        forall|j: int| k < j < attrs.len() ==> (#[trigger] attrs[j]).ident != Some(override_ident()),
        forall|j: int| 0 <= j < attrs.len() ==> (#[trigger] attrs[j]).ident != Some(exclude_ident()),
        field_strategy(attrs) is Ok,
    ensures
        field_strategy(attrs) == directive_strategy(attrs[k]),
    decreases attrs.len(),
{
    let d = attrs.drop_last();
    let last = attrs.len() - 1;
    assert(attrs[last] == attrs.last());
    assert forall|j: int| 0 <= j < d.len() implies (#[trigger] d[j]).ident != Some(exclude_ident())
        by {
        assert(d[j] == attrs[j]);
    }
    if k == last {
        lemma_not_excluded(d);
    } else {
        assert forall|j: int| k < j < d.len() implies (#[trigger] d[j]).ident != Some(
            override_ident(),
        ) by {
            assert(d[j] == attrs[j]);
        }
        assert(d[k] == attrs[k]);
        last_override_decides(d, k);
    }
}

/// An inline expression is hashed in place of the field's value: where the
/// last `hash_with` of a field holds an expression `e` that parses, and no
/// `hash_without` stands beside it, the field's contribution is the statement
/// hashing `e` alone, the same whatever the field is named, and it does not
/// read the field.
pub proof fn inline_expression_replaces_field(f: FieldView, g: FieldView, k: int, e: Seq<char>)
    requires
        f.attrs == g.attrs,
        0 <= k < f.attrs.len(),
        f.attrs[k].ident == Some(override_ident()),
        f.attrs[k].meta is List,
        f.attrs[k].payload == Some(e),
        forall|j: int|
            k < j < f.attrs.len() ==> (#[trigger] f.attrs[j]).ident != Some(override_ident()),
        forall|j: int|
            0 <= j < f.attrs.len() ==> (#[trigger] f.attrs[j]).ident != Some(exclude_ident()),
        field_strategy(f.attrs) is Ok,
    ensures
        field_statements(seq![f]) == Ok::<Seq<StatementView>, ErrorView>(
            seq![StatementView::HashExpression(e)],
        ),
        field_statements(seq![f]) == field_statements(seq![g]),
{
    last_override_decides(f.attrs, k);
    single_field_statements(f);
    single_field_statements(g);
}

/// A named function takes the whole of a field's hashing: where two fields of
/// one name differ only in the path that their last `hash_with` names, the
/// generated bodies differ only in the one statement that calls it.
pub proof fn named_function_delegates(
    a: Seq<FieldView>,
    f: FieldView,
    g: FieldView,
    b: Seq<FieldView>,
    k: int,
    p: Seq<char>,
    q: Seq<char>,
)
    requires
        f.name == g.name,
        f.attrs.len() == g.attrs.len(),
        0 <= k < f.attrs.len(),
        forall|j: int| 0 <= j < f.attrs.len() && j != k ==> f.attrs[j] == g.attrs[j],
        f.attrs[k].ident == Some(override_ident()),
        g.attrs[k].ident == Some(override_ident()),
        f.attrs[k].meta is NameValueStr,
        g.attrs[k].meta is NameValueStr,
        f.attrs[k].payload == Some(p),
        g.attrs[k].payload == Some(q),
        forall|j: int|
            k < j < f.attrs.len() ==> (#[trigger] f.attrs[j]).ident != Some(override_ident()),
        forall|j: int|
            0 <= j < f.attrs.len() ==> (#[trigger] f.attrs[j]).ident != Some(exclude_ident()),
        field_strategy(f.attrs) is Ok,
        field_strategy(g.attrs) is Ok,
        field_statements(a) is Ok,
        field_statements(b) is Ok,
    ensures
        field_statements(a + seq![f] + b) == Ok::<Seq<StatementView>, ErrorView>(
            field_statements(a)->Ok_0 + seq![
                StatementView::CallFunction { function: p, field: f.name },
            ] + field_statements(b)->Ok_0,
        ),
        field_statements(a + seq![g] + b) == Ok::<Seq<StatementView>, ErrorView>(
            field_statements(a)->Ok_0 + seq![
                StatementView::CallFunction { function: q, field: f.name },
            ] + field_statements(b)->Ok_0,
        ),
        p != q ==> field_statements(a + seq![f] + b) != field_statements(a + seq![g] + b),
{
    assert forall|j: int| k < j < g.attrs.len() implies (#[trigger] g.attrs[j]).ident != Some(
        override_ident(),
    ) by {
        assert(f.attrs[j] == g.attrs[j]);
    }
    assert forall|j: int| 0 <= j < g.attrs.len() implies (#[trigger] g.attrs[j]).ident != Some(
        exclude_ident(),
    ) by {
        if j != k {
            assert(f.attrs[j] == g.attrs[j]);
        }
    }
    last_override_decides(f.attrs, k);
    last_override_decides(g.attrs, k);
    single_field_statements(f);
    single_field_statements(g);
    statements_of_concatenation(a, seq![f]);
    statements_of_concatenation(a + seq![f], b);
    statements_of_concatenation(a, seq![g]);
    statements_of_concatenation(a + seq![g], b);
    let pa = field_statements(a)->Ok_0;
    let pb = field_statements(b)->Ok_0;
    if p != q {
        let cf = StatementView::CallFunction { function: p, field: f.name };
        let cg = StatementView::CallFunction { function: q, field: f.name };
        assert((pa + seq![cf] + pb)[pa.len() as int] == cf);
        assert((pa + seq![cg] + pb)[pa.len() as int] == cg);
    }
}

/// Only a struct with named fields yields an implementation: every other
/// shape of declaration is refused as a whole, with no statements produced.
pub proof fn other_shapes_are_refused(t: TypeView)
    requires
        t.shape != Shape::NamedFields,
    ensures
        generation(t) == Err::<GeneratedView, ErrorView>(ErrorView::UnsupportedShape),
{
}

/// `hash_without` wins: a field that carries it anywhere among its attributes
/// is left out of the hash whenever its attributes are well formed, whatever
/// `hash_with` attributes stand before or after it.
pub proof fn exclusion_wins(attrs: Seq<AttrView>, i: int)
    requires
        0 <= i < attrs.len(),
        attrs[i].ident == Some(exclude_ident()),
        field_strategy(attrs) is Ok,
    ensures
        field_strategy(attrs) == Ok::<StrategyView, ErrorView>(StrategyView::Exclude),
    decreases attrs.len(),
{
    reveal_strlit("hash_with");
    reveal_strlit("hash_without");
    assert(override_ident().len() != exclude_ident().len());
    if i < attrs.len() - 1 {
        assert(attrs.drop_last()[i] == attrs[i]);
        exclusion_wins(attrs.drop_last(), i);
    }
}

} // verus!
