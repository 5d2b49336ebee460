use vstd::prelude::*;
use vstd::string::StringExecFns;

use crate::escape::{esc, quote};
use crate::model::{
    and_condition, assignment, comparison, field_list, fresh, group_part, insert_head,
    join_keyword, joins_part, like_condition, limit_part, offset_part, or_condition, order_item,
    order_part, rendered_query, rendered_statement, rendered_subquery, rendered_subquery_as,
    select_head, select_query, select_tail, str_texts, string_assignment, text_result, texts,
    values_query, values_row, where_clause, with_row, BuildError, BuilderModel, JoinKind,
    StatementKind, ValuesModel,
};
use crate::render::{decimal_text, join_keyword_text, join_texts, where_text};

verus! {

/// The rows of an INSERT statement.
enum Values {
    Empty,
    List(Vec<String>),
    Select(String),
}

spec fn values_model(v: Values) -> ValuesModel {
    match v {
        Values::Empty => ValuesModel::Empty,
        Values::List(rows) => ValuesModel::List(texts(rows@)),
        Values::Select(q) => ValuesModel::Select(q@),
    }
}

spec fn text_option(o: Option<String>) -> Option<Seq<char>> {
    match o {
        Some(s) => Some(s@),
        None => None,
    }
}

/// A SQL statement under construction.
pub struct Sqlite3Builder {
    statement: StatementKind,
    table: String,
    join_natural: bool,
    join_kind: JoinKind,
    joins: Vec<String>,
    distinct: bool,
    fields: Vec<String>,
    sets: Vec<String>,
    values: Values,
    group_by: Vec<String>,
    having: Option<String>,
    unions: String,
    wheres: Vec<String>,
    order_by: Vec<String>,
    limit: Option<u64>,
    offset: Option<u64>,
}

impl View for Sqlite3Builder {
    type V = BuilderModel;

    closed spec fn view(&self) -> BuilderModel {
        BuilderModel {
            kind: self.statement,
            table: self.table@,
            natural: self.join_natural,
            join_kind: self.join_kind,
            joins: texts(self.joins@),
            distinct: self.distinct,
            fields: texts(self.fields@),
            sets: texts(self.sets@),
            values: values_model(self.values),
            group_by: texts(self.group_by@),
            having: text_option(self.having),
            unions: self.unions@,
            wheres: texts(self.wheres@),
            order_by: texts(self.order_by@),
            limit: self.limit,
            offset: self.offset,
        }
    }
}

/// Owned copies of the strings of a slice.
fn owned_texts(items: &[&str]) -> (r: Vec<String>)
    ensures
        texts(r@) == str_texts(items@),
{
    let mut r: Vec<String> = Vec::new();
    let mut i: usize = 0;
    while i < items.len()
        invariant
            i <= items.len(),
            texts(r@) == str_texts(items@.take(i as int)),
        decreases items.len() - i,
    {
        let ghost before = r@;
        r.push(String::from_str(items[i]));
        proof {
            assert(items@.take(i + 1) =~= items@.take(i as int).push(items@[i as int]));
            assert(texts(r@) =~= texts(before).push(items@[i as int]@));
            assert(str_texts(items@.take(i + 1)) =~= str_texts(items@.take(i as int)).push(
                items@[i as int]@,
            ));
        }
        i += 1;
    }
    proof {
        assert(items@.take(items.len() as int) =~= items@);
    }
    r
}

fn comparison_text(field: &str, op: &str, value: &str) -> (r: String)
    ensures
        r@ == comparison(field@, op@, value@),
{
    let mut r = String::from_str(field);
    r.append(" ");
    r.append(op);
    r.append(" ");
    r.append(value);
    r
}

fn like_text(field: &str, negated: bool, mask: &str, leading: bool, trailing: bool) -> (r: String)
    ensures
        r@ == like_condition(field@, negated, mask@, leading, trailing),
{
    let mut r = String::from_str(field);
    if negated {
        r.append(" NOT LIKE '");
    } else {
        r.append(" LIKE '");
    }
    if leading {
        r.append("%");
    }
    let escaped_mask = esc(mask);
    r.append(escaped_mask.as_str());
    if trailing {
        r.append("%'");
    } else {
        r.append("'");
    }
    r
}

impl Sqlite3Builder {
    fn new(statement: StatementKind, table: &str) -> (r: Self)
        ensures
            r@ == fresh(statement, table@),
    {
        let r = Sqlite3Builder {
            statement,
            table: String::from_str(table),
            join_natural: false,
            join_kind: JoinKind::Plain,
            joins: Vec::new(),
            distinct: false,
            fields: Vec::new(),
            sets: Vec::new(),
            values: Values::Empty,
            group_by: Vec::new(),
            having: None,
            unions: String::new(),
            wheres: Vec::new(),
            order_by: Vec::new(),
            limit: None,
            offset: None,
        };
        proof {
            assert(texts(r.joins@) =~= Seq::empty());
            assert(texts(r.fields@) =~= Seq::empty());
            assert(texts(r.sets@) =~= Seq::empty());
            assert(texts(r.group_by@) =~= Seq::empty());
            assert(texts(r.wheres@) =~= Seq::empty());
            assert(texts(r.order_by@) =~= Seq::empty());
        }
        r
    }

    /// Starts a SELECT from a table, a list of tables or a subquery.
    pub fn select_from(table: &str) -> (r: Self)
        ensures
            r@ == fresh(StatementKind::SelectFrom, table@),
    {
        Self::new(StatementKind::SelectFrom, table)
    }

    /// Adds a field or expression to the projection or to the INSERT column list.
    pub fn field(&mut self, field: &str) -> (r: &mut Self)
        ensures
            r@ == (BuilderModel { fields: old(self)@.fields.push(field@), ..old(self)@ }),
            *final(self) == *final(r),
    {
        self.fields.push(String::from_str(field));
        proof {
            assert(texts(self.fields@) =~= texts(old(self).fields@).push(field@));
        }
        self
    }

    /// Starts an INSERT into a table.
    pub fn insert_into(table: &str) -> (r: Self)
        ensures
            r@ == fresh(StatementKind::InsertInto, table@),
    {
        Self::new(StatementKind::InsertInto, table)
    }

    /// Starts an UPDATE of a table.
    pub fn update_table(table: &str) -> (r: Self)
        ensures
            r@ == fresh(StatementKind::UpdateTable, table@),
    {
        Self::new(StatementKind::UpdateTable, table)
    }

    /// Starts a DELETE from a table.
    pub fn delete_from(table: &str) -> (r: Self)
        ensures
            r@ == fresh(StatementKind::DeleteFrom, table@),
    {
        Self::new(StatementKind::DeleteFrom, table)
    }

    /// Starts a SELECT of bare values, with no table.
    pub fn select_values(values: &[&str]) -> (r: Self)
        ensures
            r@ == (BuilderModel {
                fields: str_texts(values@),
                ..fresh(StatementKind::SelectValues, Seq::empty())
            }),
    {
        let mut r = Self::new(StatementKind::SelectValues, "");
        r.fields = owned_texts(values);
        proof {
            reveal_strlit("");
            assert(""@ =~= Seq::<char>::empty());
        }
        r
    }

    /// Makes the next join a NATURAL join.
    pub fn natural(&mut self) -> (r: &mut Self)
        ensures
            r@ == (BuilderModel { natural: true, ..old(self)@ }),
            *final(self) == *final(r),
    {
        self.join_natural = true;
        self
    }

    /// Makes the next join a LEFT JOIN.
    pub fn left(&mut self) -> (r: &mut Self)
        ensures
            r@ == (BuilderModel { join_kind: JoinKind::Left, ..old(self)@ }),
            *final(self) == *final(r),
    {
        self.join_kind = JoinKind::Left;
        self
    }

    /// Makes the next join a LEFT OUTER JOIN.
    pub fn left_outer(&mut self) -> (r: &mut Self)
        ensures
            r@ == (BuilderModel { join_kind: JoinKind::LeftOuter, ..old(self)@ }),
            *final(self) == *final(r),
    {
        self.join_kind = JoinKind::LeftOuter;
        self
    }

    /// Makes the next join a RIGHT JOIN.
    pub fn right(&mut self) -> (r: &mut Self)
        ensures
            r@ == (BuilderModel { join_kind: JoinKind::Right, ..old(self)@ }),
            *final(self) == *final(r),
    {
        self.join_kind = JoinKind::Right;
        self
    }

    /// Makes the next join an INNER JOIN.
    pub fn inner(&mut self) -> (r: &mut Self)
        ensures
            r@ == (BuilderModel { join_kind: JoinKind::Inner, ..old(self)@ }),
            *final(self) == *final(r),
    {
        self.join_kind = JoinKind::Inner;
        self
    }

    /// Makes the next join a CROSS JOIN.
    pub fn cross(&mut self) -> (r: &mut Self)
        ensures
            r@ == (BuilderModel { join_kind: JoinKind::Cross, ..old(self)@ }),
            *final(self) == *final(r),
    {
        self.join_kind = JoinKind::Cross;
        self
    }

    /// Adds a join of `table`, introduced by the join modifiers set since the last join,
    /// which are then cleared.
    pub fn join(&mut self, table: &str) -> (r: &mut Self)
        ensures
            r@ == (BuilderModel {
                joins: old(self)@.joins.push(
                    join_keyword(old(self)@.natural, old(self)@.join_kind) + table@,
                ),
                natural: false,
                join_kind: JoinKind::Plain,
                ..old(self)@
            }),
            *final(self) == *final(r),
    {
        let mut text = join_keyword_text(self.join_natural, self.join_kind);
        text.append(table);
        self.joins.push(text);
        self.join_natural = false;
        self.join_kind = JoinKind::Plain;
        proof {
            assert(texts(self.joins@) =~= texts(old(self).joins@).push(text@));
        }
        self
    }

    /// Adds ` ON constraint` to the last join; does nothing when there is no join.
    pub fn on(&mut self, constraint: &str) -> (r: &mut Self)
        ensures
            r@ == (if old(self)@.joins.len() == 0 {
                old(self)@
            } else {
                BuilderModel {
                    joins: old(self)@.joins.update(
                        old(self)@.joins.len() - 1,
                        old(self)@.joins.last() + " ON "@ + constraint@,
                    ),
                    ..old(self)@
                }
            }),
            *final(self) == *final(r),
    {
        let n = self.joins.len();
        if n > 0 {
            let mut last = self.joins[n - 1].clone();
            last.append(" ON ");
            last.append(constraint);
            self.joins.set(n - 1, last);
            proof {
                assert(texts(self.joins@) =~= texts(old(self).joins@).update(n - 1, last@));
            }
        }
        self
    }

    /// Selects distinct rows only.
    pub fn distinct(&mut self) -> (r: &mut Self)
        ensures
            r@ == (BuilderModel { distinct: true, ..old(self)@ }),
            *final(self) == *final(r),
    {
        self.distinct = true;
        self
    }

    /// Appends several fields.
    pub fn fields(&mut self, fields: &[&str]) -> (r: &mut Self)
        ensures
            r@ == (BuilderModel { fields: old(self)@.fields + str_texts(fields@), ..old(self)@ }),
            *final(self) == *final(r),
    {
        let mut more = owned_texts(fields);
        self.fields.append(&mut more);
        proof {
            assert(texts(self.fields@) =~= texts(old(self).fields@) + str_texts(fields@));
        }
        self
    }

    /// Replaces all fields by `fields`.
    pub fn set_fields(&mut self, fields: &[&str]) -> (r: &mut Self)
        ensures
            r@ == (BuilderModel { fields: str_texts(fields@), ..old(self)@ }),
            *final(self) == *final(r),
    {
        self.fields = owned_texts(fields);
        self
    }

    /// Replaces all fields by the single `field`.
    pub fn set_field(&mut self, field: &str) -> (r: &mut Self)
        ensures
            r@ == (BuilderModel { fields: seq![field@], ..old(self)@ }),
            *final(self) == *final(r),
    {
        let mut fields = Vec::new();
        fields.push(String::from_str(field));
        self.fields = fields;
        proof {
            assert(texts(self.fields@) =~= seq![field@]);
        }
        self
    }

    fn push_set(&mut self, expr: String) -> (r: &mut Self)
        ensures
            r@ == (BuilderModel { sets: old(self)@.sets.push(expr@), ..old(self)@ }),
            *final(self) == *final(r),
    {
        let ghost e = expr@;
        self.sets.push(expr);
        proof {
            assert(texts(self.sets@) =~= texts(old(self).sets@).push(e));
        }
        self
    }

    /// Adds the assignment `field = value` of an UPDATE, with the value written verbatim.
    pub fn set(&mut self, field: &str, value: &str) -> (r: &mut Self)
        ensures
            r@ == (BuilderModel {
                sets: old(self)@.sets.push(assignment(field@, value@)),
                ..old(self)@
            }),
            *final(self) == *final(r),
    {
        let mut expr = String::from_str(field);
        expr.append(" = ");
        expr.append(value);
        self.push_set(expr)
    }

    /// Adds the assignment `field = 'value'` of an UPDATE, with the value escaped and quoted.
    pub fn set_str(&mut self, field: &str, value: &str) -> (r: &mut Self)
        ensures
            r@ == (BuilderModel {
                sets: old(self)@.sets.push(string_assignment(field@, value@)),
                ..old(self)@
            }),
            *final(self) == *final(r),
    {
        let mut expr = String::from_str(field);
        expr.append(" = ");
        let literal = quote(value);
        expr.append(literal.as_str());
        self.push_set(expr)
    }

    /// Adds a row of values to an INSERT; a subquery source set before is dropped.
    pub fn values(&mut self, values: &[&str]) -> (r: &mut Self)
        ensures
            r@ == (BuilderModel {
                values: with_row(old(self)@.values, values_row(str_texts(values@))),
                ..old(self)@
            }),
            *final(self) == *final(r),
    {
        let items = owned_texts(values);
        let mut row = String::from_str("(");
        let inner = join_texts(&items, ", ");
        row.append(inner.as_str());
        row.append(")");
        let ghost row_text = row@;
        let ghost row_string = row;
        match &mut self.values {
            Values::List(rows) => {
                rows.push(row);
            },
            _ => {
                let mut rows = Vec::new();
                rows.push(row);
                self.values = Values::List(rows);
            },
        }
        proof {
            let rows_now = self.values->List_0;
            if old(self).values is List {
                let before = old(self).values->List_0;
                assert(rows_now@ == before@.push(row_string));
                assert(texts(rows_now@) =~= texts(before@).push(row_text));
            } else {
                assert(texts(rows_now@) =~= seq![row_text]);
            }
        }
        self
    }

    /// Makes the rows of an INSERT come from the query `query`, in place of VALUES.
    pub fn select(&mut self, query: &str) -> (r: &mut Self)
        ensures
            r@ == (BuilderModel { values: ValuesModel::Select(query@), ..old(self)@ }),
            *final(self) == *final(r),
    {
        self.values = Values::Select(String::from_str(query));
        self
    }

    /// Adds a GROUP BY expression.
    pub fn group_by(&mut self, field: &str) -> (r: &mut Self)
        ensures
            r@ == (BuilderModel { group_by: old(self)@.group_by.push(field@), ..old(self)@ }),
            *final(self) == *final(r),
    {
        self.group_by.push(String::from_str(field));
        proof {
            assert(texts(self.group_by@) =~= texts(old(self).group_by@).push(field@));
        }
        self
    }

    /// Sets the HAVING condition; the last one set wins.
    pub fn having(&mut self, cond: &str) -> (r: &mut Self)
        ensures
            r@ == (BuilderModel { having: Some(cond@), ..old(self)@ }),
            *final(self) == *final(r),
    {
        self.having = Some(String::from_str(cond));
        self
    }

    /// Adds `cond` as a new condition, ANDed with the conditions before it.
    pub fn and_where(&mut self, cond: &str) -> (r: &mut Self)
        ensures
            r@ == and_condition(old(self)@, cond@),
            *final(self) == *final(r),
    {
        self.wheres.push(String::from_str(cond));
        proof {
            assert(texts(self.wheres@) =~= texts(old(self).wheres@).push(cond@));
        }
        self
    }

    /// ORs `cond` onto the last condition; with no condition yet, it becomes the first.
    pub fn or_where(&mut self, cond: &str) -> (r: &mut Self)
        ensures
            r@ == or_condition(old(self)@, cond@),
            old(self)@.wheres.len() > 0 ==> r@.wheres.len() == old(self)@.wheres.len(),
            *final(self) == *final(r),
    {
        let n = self.wheres.len();
        if n == 0 {
            self.wheres.push(String::from_str(cond));
            proof {
                assert(texts(self.wheres@) =~= seq![cond@]);
            }
        } else {
            let mut last = self.wheres[n - 1].clone();
            last.append(" OR ");
            last.append(cond);
            self.wheres.set(n - 1, last);
            proof {
                assert(texts(self.wheres@) =~= texts(old(self).wheres@).update(n - 1, last@));
            }
        }
        self
    }

    /// Adds a condition: `field` is equal to `value`, written verbatim.
    pub fn and_where_eq(&mut self, field: &str, value: &str) -> (r: &mut Self)
        ensures
            r@ == and_condition(old(self)@, comparison(field@, "="@, value@)),
            *final(self) == *final(r),
    {
        let cond = comparison_text(field, "=", value);
        self.and_where(cond.as_str())
    }

    /// Adds a condition: `field` is not equal to `value`, written verbatim.
    pub fn and_where_ne(&mut self, field: &str, value: &str) -> (r: &mut Self)
        ensures
            r@ == and_condition(old(self)@, comparison(field@, "<>"@, value@)),
            *final(self) == *final(r),
    {
        let cond = comparison_text(field, "<>", value);
        self.and_where(cond.as_str())
    }

    /// Adds a condition: `field` is greater than `value`, written verbatim.
    pub fn and_where_gt(&mut self, field: &str, value: &str) -> (r: &mut Self)
        ensures
            r@ == and_condition(old(self)@, comparison(field@, ">"@, value@)),
            *final(self) == *final(r),
    {
        let cond = comparison_text(field, ">", value);
        self.and_where(cond.as_str())
    }

    /// Adds a condition: `field` is at least `value`, written verbatim.
    pub fn and_where_ge(&mut self, field: &str, value: &str) -> (r: &mut Self)
        ensures
            r@ == and_condition(old(self)@, comparison(field@, ">="@, value@)),
            *final(self) == *final(r),
    {
        let cond = comparison_text(field, ">=", value);
        self.and_where(cond.as_str())
    }

    /// Adds a condition: `field` is less than `value`, written verbatim.
    pub fn and_where_lt(&mut self, field: &str, value: &str) -> (r: &mut Self)
        ensures
            r@ == and_condition(old(self)@, comparison(field@, "<"@, value@)),
            *final(self) == *final(r),
    {
        let cond = comparison_text(field, "<", value);
        self.and_where(cond.as_str())
    }

    /// Adds a condition: `field` is at most `value`, written verbatim.
    pub fn and_where_le(&mut self, field: &str, value: &str) -> (r: &mut Self)
        ensures
            r@ == and_condition(old(self)@, comparison(field@, "<="@, value@)),
            *final(self) == *final(r),
    {
        let cond = comparison_text(field, "<=", value);
        self.and_where(cond.as_str())
    }

    /// Adds a condition: `field` matches the mask; the mask is escaped.
    pub fn and_where_like(&mut self, field: &str, mask: &str) -> (r: &mut Self)
        ensures
            r@ == and_condition(old(self)@, like_condition(field@, false, mask@, false, false)),
            *final(self) == *final(r),
    {
        let cond = like_text(field, false, mask, false, false);
        self.and_where(cond.as_str())
    }

    /// Adds a condition: `field` ends with the mask; the mask is escaped.
    pub fn and_where_like_right(&mut self, field: &str, mask: &str) -> (r: &mut Self)
        ensures
            r@ == and_condition(old(self)@, like_condition(field@, false, mask@, true, false)),
            *final(self) == *final(r),
    {
        let cond = like_text(field, false, mask, true, false);
        self.and_where(cond.as_str())
    }

    /// Adds a condition: `field` starts with the mask; the mask is escaped.
    pub fn and_where_like_left(&mut self, field: &str, mask: &str) -> (r: &mut Self)
        ensures
            r@ == and_condition(old(self)@, like_condition(field@, false, mask@, false, true)),
            *final(self) == *final(r),
    {
        let cond = like_text(field, false, mask, false, true);
        self.and_where(cond.as_str())
    }

    /// Adds a condition: `field` contains the mask; the mask is escaped.
    pub fn and_where_like_any(&mut self, field: &str, mask: &str) -> (r: &mut Self)
        ensures
            r@ == and_condition(old(self)@, like_condition(field@, false, mask@, true, true)),
            *final(self) == *final(r),
    {
        let cond = like_text(field, false, mask, true, true);
        self.and_where(cond.as_str())
    }

    /// Adds a condition: `field` does not match the mask; the mask is escaped.
    pub fn and_where_not_like(&mut self, field: &str, mask: &str) -> (r: &mut Self)
        ensures
            r@ == and_condition(old(self)@, like_condition(field@, true, mask@, false, false)),
            *final(self) == *final(r),
    {
        let cond = like_text(field, true, mask, false, false);
        self.and_where(cond.as_str())
    }

    /// Adds a condition: `field` does not end with the mask; the mask is escaped.
    pub fn and_where_not_like_right(&mut self, field: &str, mask: &str) -> (r: &mut Self)
        ensures
            r@ == and_condition(old(self)@, like_condition(field@, true, mask@, true, false)),
            *final(self) == *final(r),
    {
        let cond = like_text(field, true, mask, true, false);
        self.and_where(cond.as_str())
    }

    /// Adds a condition: `field` does not start with the mask; the mask is escaped.
    pub fn and_where_not_like_left(&mut self, field: &str, mask: &str) -> (r: &mut Self)
        ensures
            r@ == and_condition(old(self)@, like_condition(field@, true, mask@, false, true)),
            *final(self) == *final(r),
    {
        let cond = like_text(field, true, mask, false, true);
        self.and_where(cond.as_str())
    }

    /// Adds a condition: `field` does not contain the mask; the mask is escaped.
    pub fn and_where_not_like_any(&mut self, field: &str, mask: &str) -> (r: &mut Self)
        ensures
            r@ == and_condition(old(self)@, like_condition(field@, true, mask@, true, true)),
            *final(self) == *final(r),
    {
        let cond = like_text(field, true, mask, true, true);
        self.and_where(cond.as_str())
    }

    /// Adds a condition: `field` is NULL.
    pub fn and_where_is_null(&mut self, field: &str) -> (r: &mut Self)
        ensures
            r@ == and_condition(old(self)@, field@ + " IS NULL"@),
            *final(self) == *final(r),
    {
        let mut cond = String::from_str(field);
        cond.append(" IS NULL");
        self.and_where(cond.as_str())
    }

    /// Adds a condition: `field` is not NULL.
    pub fn and_where_is_not_null(&mut self, field: &str) -> (r: &mut Self)
        ensures
            r@ == and_condition(old(self)@, field@ + " IS NOT NULL"@),
            *final(self) == *final(r),
    {
        let mut cond = String::from_str(field);
        cond.append(" IS NOT NULL");
        self.and_where(cond.as_str())
    }

    /// ORs onto the last condition: `field` is equal to `value`, written verbatim.
    pub fn or_where_eq(&mut self, field: &str, value: &str) -> (r: &mut Self)
        ensures
            r@ == or_condition(old(self)@, comparison(field@, "="@, value@)),
            *final(self) == *final(r),
    {
        let cond = comparison_text(field, "=", value);
        self.or_where(cond.as_str())
    }

    /// ORs onto the last condition: `field` is not equal to `value`, written verbatim.
    pub fn or_where_ne(&mut self, field: &str, value: &str) -> (r: &mut Self)
        ensures
            r@ == or_condition(old(self)@, comparison(field@, "<>"@, value@)),
            *final(self) == *final(r),
    {
        let cond = comparison_text(field, "<>", value);
        self.or_where(cond.as_str())
    }

    /// ORs onto the last condition: `field` is greater than `value`, written verbatim.
    pub fn or_where_gt(&mut self, field: &str, value: &str) -> (r: &mut Self)
        ensures
            r@ == or_condition(old(self)@, comparison(field@, ">"@, value@)),
            *final(self) == *final(r),
    {
        let cond = comparison_text(field, ">", value);
        self.or_where(cond.as_str())
    }

    /// ORs onto the last condition: `field` is at least `value`, written verbatim.
    pub fn or_where_ge(&mut self, field: &str, value: &str) -> (r: &mut Self)
        ensures
            r@ == or_condition(old(self)@, comparison(field@, ">="@, value@)),
            *final(self) == *final(r),
    {
        let cond = comparison_text(field, ">=", value);
        self.or_where(cond.as_str())
    }

    /// ORs onto the last condition: `field` is less than `value`, written verbatim.
    pub fn or_where_lt(&mut self, field: &str, value: &str) -> (r: &mut Self)
        ensures
            r@ == or_condition(old(self)@, comparison(field@, "<"@, value@)),
            *final(self) == *final(r),
    {
        let cond = comparison_text(field, "<", value);
        self.or_where(cond.as_str())
    }

    /// ORs onto the last condition: `field` is at most `value`, written verbatim.
    pub fn or_where_le(&mut self, field: &str, value: &str) -> (r: &mut Self)
        ensures
            r@ == or_condition(old(self)@, comparison(field@, "<="@, value@)),
            *final(self) == *final(r),
    {
        let cond = comparison_text(field, "<=", value);
        self.or_where(cond.as_str())
    }

    /// ORs onto the last condition: `field` matches the mask; the mask is escaped.
    pub fn or_where_like(&mut self, field: &str, mask: &str) -> (r: &mut Self)
        ensures
            r@ == or_condition(old(self)@, like_condition(field@, false, mask@, false, false)),
            *final(self) == *final(r),
    {
        let cond = like_text(field, false, mask, false, false);
        self.or_where(cond.as_str())
    }

    /// ORs onto the last condition: `field` ends with the mask; the mask is escaped.
    pub fn or_where_like_right(&mut self, field: &str, mask: &str) -> (r: &mut Self)
        ensures
            r@ == or_condition(old(self)@, like_condition(field@, false, mask@, true, false)),
            *final(self) == *final(r),
    {
        let cond = like_text(field, false, mask, true, false);
        self.or_where(cond.as_str())
    }

    /// ORs onto the last condition: `field` starts with the mask; the mask is escaped.
    pub fn or_where_like_left(&mut self, field: &str, mask: &str) -> (r: &mut Self)
        ensures
            r@ == or_condition(old(self)@, like_condition(field@, false, mask@, false, true)),
            *final(self) == *final(r),
    {
        let cond = like_text(field, false, mask, false, true);
        self.or_where(cond.as_str())
    }

    /// ORs onto the last condition: `field` contains the mask; the mask is escaped.
    pub fn or_where_like_any(&mut self, field: &str, mask: &str) -> (r: &mut Self)
        ensures
            r@ == or_condition(old(self)@, like_condition(field@, false, mask@, true, true)),
            *final(self) == *final(r),
    {
        let cond = like_text(field, false, mask, true, true);
        self.or_where(cond.as_str())
    }

    /// ORs onto the last condition: `field` does not match the mask; the mask is escaped.
    pub fn or_where_not_like(&mut self, field: &str, mask: &str) -> (r: &mut Self)
        ensures
            r@ == or_condition(old(self)@, like_condition(field@, true, mask@, false, false)),
            *final(self) == *final(r),
    {
        let cond = like_text(field, true, mask, false, false);
        self.or_where(cond.as_str())
    }

    /// ORs onto the last condition: `field` does not end with the mask; the mask is escaped.
    pub fn or_where_not_like_right(&mut self, field: &str, mask: &str) -> (r: &mut Self)
        ensures
            r@ == or_condition(old(self)@, like_condition(field@, true, mask@, true, false)),
            *final(self) == *final(r),
    {
        let cond = like_text(field, true, mask, true, false);
        self.or_where(cond.as_str())
    }

    /// ORs onto the last condition: `field` does not start with the mask; the mask is escaped.
    pub fn or_where_not_like_left(&mut self, field: &str, mask: &str) -> (r: &mut Self)
        ensures
            r@ == or_condition(old(self)@, like_condition(field@, true, mask@, false, true)),
            *final(self) == *final(r),
    {
        let cond = like_text(field, true, mask, false, true);
        self.or_where(cond.as_str())
    }

    /// ORs onto the last condition: `field` does not contain the mask; the mask is escaped.
    pub fn or_where_not_like_any(&mut self, field: &str, mask: &str) -> (r: &mut Self)
        ensures
            r@ == or_condition(old(self)@, like_condition(field@, true, mask@, true, true)),
            *final(self) == *final(r),
    {
        let cond = like_text(field, true, mask, true, true);
        self.or_where(cond.as_str())
    }

    /// ORs onto the last condition: `field` is NULL.
    pub fn or_where_is_null(&mut self, field: &str) -> (r: &mut Self)
        ensures
            r@ == or_condition(old(self)@, field@ + " IS NULL"@),
            *final(self) == *final(r),
    {
        let mut cond = String::from_str(field);
        cond.append(" IS NULL");
        self.or_where(cond.as_str())
    }

    /// ORs onto the last condition: `field` is not NULL.
    pub fn or_where_is_not_null(&mut self, field: &str) -> (r: &mut Self)
        ensures
            r@ == or_condition(old(self)@, field@ + " IS NOT NULL"@),
            *final(self) == *final(r),
    {
        let mut cond = String::from_str(field);
        cond.append(" IS NOT NULL");
        self.or_where(cond.as_str())
    }

    /// Appends ` UNION query` after the query.
    pub fn union(&mut self, query: &str) -> (r: &mut Self)
        ensures
            r@ == (BuilderModel { unions: old(self)@.unions + " UNION "@ + query@, ..old(self)@ }),
            *final(self) == *final(r),
    {
        self.unions.append(" UNION ");
        self.unions.append(query);
        self
    }

    /// Appends ` UNION ALL query` after the query.
    pub fn union_all(&mut self, query: &str) -> (r: &mut Self)
        ensures
            r@ == (BuilderModel {
                unions: old(self)@.unions + " UNION ALL "@ + query@,
                ..old(self)@
            }),
            *final(self) == *final(r),
    {
        self.unions.append(" UNION ALL ");
        self.unions.append(query);
        self
    }

    /// Adds an ORDER BY item, descending when `desc`.
    pub fn order_by(&mut self, field: &str, desc: bool) -> (r: &mut Self)
        ensures
            r@ == (BuilderModel {
                order_by: old(self)@.order_by.push(order_item(field@, desc)),
                ..old(self)@
            }),
            *final(self) == *final(r),
    {
        let mut item = String::from_str(field);
        if desc {
            item.append(" DESC");
        }
        let ghost t = item@;
        self.order_by.push(item);
        proof {
            assert(texts(self.order_by@) =~= texts(old(self).order_by@).push(t));
        }
        self
    }

    /// Adds an ascending ORDER BY item.
    pub fn order_asc(&mut self, field: &str) -> (r: &mut Self)
        ensures
            r@ == (BuilderModel {
                order_by: old(self)@.order_by.push(order_item(field@, false)),
                ..old(self)@
            }),
            *final(self) == *final(r),
    {
        self.order_by(field, false)
    }

    /// Adds a descending ORDER BY item.
    pub fn order_desc(&mut self, field: &str) -> (r: &mut Self)
        ensures
            r@ == (BuilderModel {
                order_by: old(self)@.order_by.push(order_item(field@, true)),
                ..old(self)@
            }),
            *final(self) == *final(r),
    {
        self.order_by(field, true)
    }

    /// Sets the LIMIT; the last one set wins.
    pub fn limit(&mut self, limit: u64) -> (r: &mut Self)
        ensures
            r@ == (BuilderModel { limit: Some(limit), ..old(self)@ }),
            *final(self) == *final(r),
    {
        self.limit = Some(limit);
        self
    }

    /// Sets the OFFSET; the last one set wins.
    pub fn offset(&mut self, offset: u64) -> (r: &mut Self)
        ensures
            r@ == (BuilderModel { offset: Some(offset), ..old(self)@ }),
            *final(self) == *final(r),
    {
        self.offset = Some(offset);
        self
    }

    fn tail_text(&self) -> (r: String)
        ensures
            r@ == select_tail(self@),
    {
        let ghost m = self@;
        let mut r = String::new();
        if self.joins.len() > 0 {
            r.append(" ");
            let joins = join_texts(&self.joins, " ");
            r.append(joins.as_str());
        }
        assert(r@ =~= joins_part(m.joins));
        let ghost acc = r@;
        if self.group_by.len() > 0 {
            r.append(" GROUP BY ");
            let groups = join_texts(&self.group_by, ", ");
            r.append(groups.as_str());
        }
        match &self.having {
            Some(h) => {
                r.append(" HAVING ");
                r.append(h.as_str());
            },
            None => {},
        }
        assert(r@ =~= acc + group_part(m.group_by, m.having));
        let ghost acc = r@;
        let wheres = where_text(&self.wheres);
        r.append(wheres.as_str());
        r.append(self.unions.as_str());
        assert(r@ =~= acc + where_clause(m.wheres) + m.unions);
        let ghost acc = r@;
        if self.order_by.len() > 0 && self.unions.as_str().is_empty() {
            r.append(" ORDER BY ");
            let orders = join_texts(&self.order_by, ", ");
            r.append(orders.as_str());
        }
        assert(r@ =~= acc + order_part(m.order_by, m.unions));
        let ghost acc = r@;
        match self.limit {
            Some(n) => {
                r.append(" LIMIT ");
                let digits = decimal_text(n);
                r.append(digits.as_str());
            },
            None => {},
        }
        assert(r@ =~= acc + limit_part(m.limit));
        let ghost acc = r@;
        match self.offset {
            Some(n) => {
                r.append(" OFFSET ");
                let digits = decimal_text(n);
                r.append(digits.as_str());
            },
            None => {},
        }
        assert(r@ =~= acc + offset_part(m.offset));
        r
    }

    fn select_text(&self) -> (r: String)
        ensures
            r@ == select_query(self@),
    {
        let ghost m = self@;
        let mut r = if self.distinct {
            String::from_str("SELECT DISTINCT ")
        } else {
            String::from_str("SELECT ")
        };
        if self.fields.len() == 0 {
            r.append("*");
        } else {
            let fields = join_texts(&self.fields, ", ");
            r.append(fields.as_str());
        }
        assert(r@ =~= select_head(m.distinct) + field_list(m.fields));
        r.append(" FROM ");
        r.append(self.table.as_str());
        let tail = self.tail_text();
        r.append(tail.as_str());
        r
    }

    fn values_text(&self) -> (r: String)
        ensures
            r@ == values_query(self@.fields),
    {
        let mut r = String::from_str("SELECT ");
        let fields = join_texts(&self.fields, ", ");
        r.append(fields.as_str());
        r
    }

    fn insert_head_text(&self) -> (r: String)
        ensures
            r@ == insert_head(self@),
    {
        let mut r = String::from_str("INSERT INTO ");
        r.append(self.table.as_str());
        r.append(" (");
        let fields = join_texts(&self.fields, ", ");
        r.append(fields.as_str());
        r.append(")");
        r
    }

    fn insert_text(&self) -> (r: Result<String, BuildError>)
        requires
            self@.kind == StatementKind::InsertInto,
        ensures
            text_result(r) == rendered_statement(self@),
    {
        if self.table.as_str().is_empty() {
            return Err(BuildError::NoTableName);
        }
        match &self.values {
            Values::Empty => Err(BuildError::NoValues),
            Values::List(rows) => {
                if rows.len() == 0 {
                    Err(BuildError::NoValues)
                } else {
                    let mut r = self.insert_head_text();
                    r.append(" VALUES ");
                    let rows_text = join_texts(rows, ", ");
                    r.append(rows_text.as_str());
                    r.append(";");
                    Ok(r)
                }
            },
            Values::Select(query) => {
                let mut r = self.insert_head_text();
                r.append(" ");
                r.append(query.as_str());
                r.append(";");
                Ok(r)
            },
        }
    }

    fn update_text(&self) -> (r: Result<String, BuildError>)
        requires
            self@.kind == StatementKind::UpdateTable,
        ensures
            text_result(r) == rendered_statement(self@),
    {
        if self.table.as_str().is_empty() {
            return Err(BuildError::NoTableName);
        }
        if self.sets.len() == 0 {
            return Err(BuildError::NoSetFields);
        }
        let mut r = String::from_str("UPDATE ");
        r.append(self.table.as_str());
        r.append(" SET ");
        let sets = join_texts(&self.sets, ", ");
        r.append(sets.as_str());
        let wheres = where_text(&self.wheres);
        r.append(wheres.as_str());
        r.append(";");
        Ok(r)
    }

    fn delete_text(&self) -> (r: Result<String, BuildError>)
        requires
            self@.kind == StatementKind::DeleteFrom,
        ensures
            text_result(r) == rendered_statement(self@),
    {
        if self.table.as_str().is_empty() {
            return Err(BuildError::NoTableName);
        }
        let mut r = String::from_str("DELETE FROM ");
        r.append(self.table.as_str());
        let wheres = where_text(&self.wheres);
        r.append(wheres.as_str());
        r.append(";");
        Ok(r)
    }

    /// Renders the complete statement, terminated by a semicolon.
    pub fn sql(&self) -> (r: Result<String, BuildError>)
        ensures
            text_result(r) == rendered_statement(self@),
    {
        match self.statement {
            StatementKind::SelectFrom => {
                if self.table.as_str().is_empty() {
                    Err(BuildError::NoTableName)
                } else {
                    let mut r = self.select_text();
                    r.append(";");
                    Ok(r)
                }
            },
            StatementKind::SelectValues => {
                if self.fields.len() == 0 {
                    Err(BuildError::NoValues)
                } else {
                    let mut r = self.values_text();
                    r.append(";");
                    Ok(r)
                }
            },
            StatementKind::InsertInto => self.insert_text(),
            StatementKind::UpdateTable => self.update_text(),
            StatementKind::DeleteFrom => self.delete_text(),
        }
    }

    /// Renders the SELECT query as a fragment: no semicolon, fit for a union or a subquery.
    pub fn query(&self) -> (r: Result<String, BuildError>)
        ensures
            text_result(r) == rendered_query(self@),
    {
        if self.table.as_str().is_empty() {
            Err(BuildError::NoTableName)
        } else {
            Ok(self.select_text())
        }
    }

    /// Renders the query in parentheses, for use as a subquery.
    pub fn subquery(&self) -> (r: Result<String, BuildError>)
        ensures
            text_result(r) == rendered_subquery(self@),
    {
        match self.query() {
            Ok(q) => {
                let mut r = String::from_str("(");
                r.append(q.as_str());
                r.append(")");
                Ok(r)
            },
            Err(e) => Err(e),
        }
    }

    /// Renders the query in parentheses followed by ` AS name`, for use as a named subquery.
    pub fn subquery_as(&self, name: &str) -> (r: Result<String, BuildError>)
        ensures
            text_result(r) == rendered_subquery_as(self@, name@),
    {
        match self.query() {
            Ok(q) => {
                let mut r = String::from_str("(");
                r.append(q.as_str());
                r.append(")");
                r.append(" AS ");
                r.append(name);
                Ok(r)
            },
            Err(e) => Err(e),
        }
    }

    /// Renders `SELECT` followed by the fields alone: no FROM and no semicolon.
    pub fn query_values(&self) -> (r: Result<String, BuildError>)
        ensures
            text_result(r) == Ok::<Seq<char>, BuildError>(values_query(self@.fields)),
    {
        Ok(self.values_text())
    }
}

} // verus!
