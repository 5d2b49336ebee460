use vstd::prelude::*;

use crate::model::{
    and_condition, field_list, insert_head, joined, or_condition, parenthesized,
    rendered_query, rendered_statement, select_head, select_query, select_tail, where_clause,
    BuilderModel, StatementKind, ValuesModel,
};

verus! {

/// The builder after `and_where` was called with each of `conds`, in order.
pub open spec fn and_all(m: BuilderModel, conds: Seq<Seq<char>>) -> BuilderModel
    decreases conds.len(),
{
    if conds.len() == 0 {
        m
    } else {
        and_condition(and_all(m, conds.drop_last()), conds.last())
    }
}

/// `q` stands verbatim in `s`, starting at position `i`.
pub open spec fn occurs_at(s: Seq<char>, q: Seq<char>, i: int) -> bool {
    0 <= i && i + q.len() <= s.len() && s.subrange(i, i + q.len()) == q
}

/// A SELECT with no field renders its projection as `*`.
pub proof fn empty_projection_is_star(m: BuilderModel)
    requires
        m.fields.len() == 0,
    ensures
        select_query(m) == select_head(m.distinct) + "*"@ + " FROM "@ + m.table + select_tail(m),
        m.kind == StatementKind::SelectFrom && m.table.len() > 0 ==> rendered_statement(m) == Ok::<
            Seq<char>,
            crate::model::BuildError,
        >(select_head(m.distinct) + "*"@ + " FROM "@ + m.table + select_tail(m) + ";"@),
{
}

/// After `and_where` calls with conditions c1..cn on a builder without conditions, the
/// builder holds exactly those conditions; the WHERE clause is absent for none, `WHERE c1`
/// for one, and `WHERE (c1) AND (c2) AND ...` for more, each further call adding
/// ` AND (c)` at its end.
pub proof fn and_where_sequence(m: BuilderModel, conds: Seq<Seq<char>>, c: Seq<char>)
    requires
        m.wheres.len() == 0,
    ensures
        and_all(m, conds).wheres == conds,
        conds.len() == 0 ==> where_clause(conds) == Seq::<char>::empty(),
        conds.len() == 1 ==> where_clause(conds) == " WHERE "@ + conds[0],
        conds.len() >= 2 ==> where_clause(conds) == " WHERE "@ + joined(
            conds.map_values(|w: Seq<char>| parenthesized(w)),
            " AND "@,
        ),
        conds.len() == 1 ==> where_clause(conds.push(c)) == " WHERE "@ + parenthesized(conds[0])
            + " AND "@ + parenthesized(c),
        conds.len() >= 2 ==> where_clause(conds.push(c)) == where_clause(conds) + " AND "@
            + parenthesized(c),
    decreases conds.len(),
{
    if conds.len() > 0 {
        and_where_sequence(m, conds.drop_last(), c);
        assert(conds.drop_last().push(conds.last()) =~= conds);
    }
    let wrapped = conds.map_values(|w: Seq<char>| parenthesized(w));
    let wrapped_more = conds.push(c).map_values(|w: Seq<char>| parenthesized(w));
    assert(wrapped_more.drop_last() =~= wrapped);
    if conds.len() == 1 {
        assert(joined(wrapped_more.drop_last(), " AND "@) == parenthesized(conds[0]));
        assert(where_clause(conds.push(c)) =~= " WHERE "@ + parenthesized(conds[0]) + " AND "@
            + parenthesized(c));
    }
    if conds.len() >= 2 {
        assert(where_clause(conds.push(c)) =~= where_clause(conds) + " AND "@ + parenthesized(c));
    }
}

/// `or_where` on a builder with conditions keeps their number: it extends the last one with
/// ` OR c` and leaves the others as they were.
pub proof fn or_where_extends_last(m: BuilderModel, c: Seq<char>)
    requires
        m.wheres.len() > 0,
    ensures
        or_condition(m, c).wheres.len() == m.wheres.len(),
        or_condition(m, c).wheres.drop_last() == m.wheres.drop_last(),
        or_condition(m, c).wheres.last() == m.wheres.last() + " OR "@ + c,
        m.wheres.len() == 1 ==> where_clause(or_condition(m, c).wheres) == " WHERE "@
            + m.wheres[0] + " OR "@ + c,
{
    assert(or_condition(m, c).wheres.drop_last() =~= m.wheres.drop_last());
}

/// A query fragment set as the source of an INSERT stands verbatim in the INSERT statement.
pub proof fn insert_select_embeds_query(inner: BuilderModel, outer: BuilderModel)
    requires
        inner.table.len() > 0,
        outer.kind == StatementKind::InsertInto,
        outer.table.len() > 0,
    ensures
        rendered_query(inner) == Ok::<Seq<char>, crate::model::BuildError>(select_query(inner)),
        ({
            let q = select_query(inner);
            let with_source = BuilderModel { values: ValuesModel::Select(q), ..outer };
            &&& rendered_statement(with_source) is Ok
            &&& occurs_at(
                rendered_statement(with_source)->Ok_0,
                q,
                insert_head(with_source).len() + 1int,
            )
        }),
{
    let q = select_query(inner);
    let with_source = BuilderModel { values: ValuesModel::Select(q), ..outer };
    reveal_strlit(" ");
    let head = insert_head(with_source) + " "@;
    let s = rendered_statement(with_source)->Ok_0;
    assert(s =~= head + q + ";"@);
    assert(s.subrange(head.len() as int, head.len() + q.len() as int) =~= q);
}

/// A query fragment used as the table of a SELECT stands verbatim in the SELECT statement.
pub proof fn select_from_embeds_query(inner: BuilderModel, outer: BuilderModel)
    requires
        inner.table.len() > 0,
        outer.kind == StatementKind::SelectFrom,
    ensures
        ({
            let q = select_query(inner);
            let with_table = BuilderModel { table: q, ..outer };
            &&& rendered_statement(with_table) is Ok
            &&& occurs_at(
                rendered_statement(with_table)->Ok_0,
                q,
                select_head(outer.distinct).len() + field_list(outer.fields).len() + 6int,
            )
        }),
{
    let q = select_query(inner);
    let with_table = BuilderModel { table: q, ..outer };
    assert(q.len() > 0) by {
        assert(select_head(inner.distinct).len() > 0) by {
            reveal_strlit("SELECT DISTINCT ");
            reveal_strlit("SELECT ");
        }
    }
    reveal_strlit(" FROM ");
    let head = select_head(outer.distinct) + field_list(outer.fields) + " FROM "@;
    let s = rendered_statement(with_table)->Ok_0;
    assert(s =~= head + q + (select_tail(with_table) + ";"@));
    assert(s.subrange(head.len() as int, head.len() + q.len() as int) =~= q);
}

/// A query fragment given to `union` stands verbatim in the SELECT statement.
pub proof fn union_embeds_query(inner: BuilderModel, outer: BuilderModel)
    requires
        inner.table.len() > 0,
        outer.kind == StatementKind::SelectFrom,
        outer.table.len() > 0,
    ensures
        ({
            let q = select_query(inner);
            let with_union = BuilderModel { unions: outer.unions + " UNION "@ + q, ..outer };
            &&& rendered_statement(with_union) is Ok
            &&& exists|i: int| occurs_at(rendered_statement(with_union)->Ok_0, q, i)
        }),
{
    let q = select_query(inner);
    let with_union = BuilderModel { unions: outer.unions + " UNION "@ + q, ..outer };
    let m = with_union;
    let head = select_head(m.distinct) + field_list(m.fields) + " FROM "@ + m.table
        + crate::model::joins_part(m.joins) + crate::model::group_part(m.group_by, m.having)
        + where_clause(m.wheres) + outer.unions + " UNION "@;
    let rest = crate::model::order_part(m.order_by, m.unions) + crate::model::limit_part(m.limit)
        + crate::model::offset_part(m.offset) + ";"@;
    let s = rendered_statement(with_union)->Ok_0;
    assert(s =~= head + q + rest);
    assert(s.subrange(head.len() as int, head.len() + q.len() as int) =~= q);
    assert(occurs_at(s, q, head.len() as int));
}

} // verus!
