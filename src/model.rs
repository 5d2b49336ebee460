use vstd::prelude::*;

use crate::escape::{escaped, quoted};

verus! {

/// The kind of statement a builder assembles; fixed when the builder is made.
#[derive(Clone, Copy, Debug, PartialEq, Eq, Structural)]
pub enum StatementKind {
    SelectFrom,
    SelectValues,
    InsertInto,
    UpdateTable,
    DeleteFrom,
}

/// The join operator that the next `join` call renders.
#[derive(Clone, Copy, Debug, PartialEq, Eq, Structural)]
pub enum JoinKind {
    Plain,
    Left,
    LeftOuter,
    Right,
    Inner,
    Cross,
}

/// A structural problem found when a statement is rendered.
#[derive(Clone, Copy, Debug, PartialEq, Eq, Structural)]
pub enum BuildError {
    NoTableName,
    NoValues,
    NoSetFields,
}

/// The text that describes each structural error.
pub open spec fn error_message(e: BuildError) -> Seq<char> {
    match e {
        BuildError::NoTableName => "No table name"@,
        BuildError::NoValues => "No values"@,
        BuildError::NoSetFields => "No set fields"@,
    }
}

impl BuildError {
    /// A short description of the error.
    pub fn message(&self) -> (r: &'static str)
        ensures
            r@ == error_message(*self),
    {
        match self {
            BuildError::NoTableName => "No table name",
            BuildError::NoValues => "No values",
            BuildError::NoSetFields => "No set fields",
        }
    }
}

/// The source of the rows of an INSERT statement.
pub enum ValuesModel {
    Empty,
    List(Seq<Seq<char>>),
    Select(Seq<char>),
}

/// The abstract state of a statement builder.
pub struct BuilderModel {
    pub kind: StatementKind,
    pub table: Seq<char>,
    pub natural: bool,
    pub join_kind: JoinKind,
    pub joins: Seq<Seq<char>>,
    pub distinct: bool,
    pub fields: Seq<Seq<char>>,
    pub sets: Seq<Seq<char>>,
    pub values: ValuesModel,
    pub group_by: Seq<Seq<char>>,
    pub having: Option<Seq<char>>,
    pub unions: Seq<char>,
    pub wheres: Seq<Seq<char>>,
    pub order_by: Seq<Seq<char>>,
    pub limit: Option<u64>,
    pub offset: Option<u64>,
}

/// A builder of the given kind and table with every clause empty.
pub open spec fn fresh(kind: StatementKind, table: Seq<char>) -> BuilderModel {
    BuilderModel {
        kind,
        table,
        natural: false,
        join_kind: JoinKind::Plain,
        joins: Seq::empty(),
        distinct: false,
        fields: Seq::empty(),
        sets: Seq::empty(),
        values: ValuesModel::Empty,
        group_by: Seq::empty(),
        having: None,
        unions: Seq::empty(),
        wheres: Seq::empty(),
        order_by: Seq::empty(),
        limit: None,
        offset: None,
    }
}

/// The character sequences held by a sequence of strings.
pub open spec fn texts(v: Seq<String>) -> Seq<Seq<char>> {
    v.map_values(|s: String| s@)
}

/// The parts written one after another with `sep` between neighbours.
pub open spec fn joined(parts: Seq<Seq<char>>, sep: Seq<char>) -> Seq<char>
    decreases parts.len(),
{
    if parts.len() == 0 {
        Seq::empty()
    } else if parts.len() == 1 {
        parts[0]
    } else {
        joined(parts.drop_last(), sep) + sep + parts.last()
    }
}

pub open spec fn parenthesized(s: Seq<char>) -> Seq<char> {
    "("@ + s + ")"@
}

/// The WHERE clause, with its leading space: nothing for no condition, the condition itself
/// for one, and each condition in parentheses joined by AND for more.
pub open spec fn where_clause(ws: Seq<Seq<char>>) -> Seq<char> {
    if ws.len() == 0 {
        Seq::empty()
    } else if ws.len() == 1 {
        " WHERE "@ + ws[0]
    } else {
        " WHERE "@ + joined(ws.map_values(|w: Seq<char>| parenthesized(w)), " AND "@)
    }
}

pub open spec fn join_operator(kind: JoinKind) -> Seq<char> {
    match kind {
        JoinKind::Plain => "JOIN "@,
        JoinKind::Left => "LEFT JOIN "@,
        JoinKind::LeftOuter => "LEFT OUTER JOIN "@,
        JoinKind::Right => "RIGHT JOIN "@,
        JoinKind::Inner => "INNER JOIN "@,
        JoinKind::Cross => "CROSS JOIN "@,
    }
}

/// The keyword that starts a join fragment, with its trailing space.
pub open spec fn join_keyword(natural: bool, kind: JoinKind) -> Seq<char> {
    if natural {
        "NATURAL "@ + join_operator(kind)
    } else {
        join_operator(kind)
    }
}

pub open spec fn digit(d: nat) -> Seq<char> {
    if d == 0 {
        "0"@
    } else if d == 1 {
        "1"@
    } else if d == 2 {
        "2"@
    } else if d == 3 {
        "3"@
    } else if d == 4 {
        "4"@
    } else if d == 5 {
        "5"@
    } else if d == 6 {
        "6"@
    } else if d == 7 {
        "7"@
    } else if d == 8 {
        "8"@
    } else {
        "9"@
    }
}

/// The decimal notation of `n`, without leading zeros.
pub open spec fn decimal(n: nat) -> Seq<char>
    decreases n,
{
    if n < 10 {
        digit(n)
    } else {
        decimal(n / 10) + digit(n % 10)
    }
}

pub open spec fn select_head(distinct: bool) -> Seq<char> {
    if distinct {
        "SELECT DISTINCT "@
    } else {
        "SELECT "@
    }
}

/// The projection of a SELECT: `*` when no field was given.
pub open spec fn field_list(fields: Seq<Seq<char>>) -> Seq<char> {
    if fields.len() == 0 {
        "*"@
    } else {
        joined(fields, ", "@)
    }
}

pub open spec fn joins_part(joins: Seq<Seq<char>>) -> Seq<char> {
    if joins.len() == 0 {
        Seq::empty()
    } else {
        " "@ + joined(joins, " "@)
    }
}

/// GROUP BY when there are grouping expressions, then HAVING whenever a condition is set.
pub open spec fn group_part(group_by: Seq<Seq<char>>, having: Option<Seq<char>>) -> Seq<char> {
    let grouping = if group_by.len() == 0 {
        Seq::empty()
    } else {
        " GROUP BY "@ + joined(group_by, ", "@)
    };
    match having {
        Some(h) => grouping + " HAVING "@ + h,
        None => grouping,
    }
}

/// ORDER BY is left out once a union follows the query.
pub open spec fn order_part(order_by: Seq<Seq<char>>, unions: Seq<char>) -> Seq<char> {
    if order_by.len() == 0 || unions.len() != 0 {
        Seq::empty()
    } else {
        " ORDER BY "@ + joined(order_by, ", "@)
    }
}

pub open spec fn limit_part(limit: Option<u64>) -> Seq<char> {
    match limit {
        Some(n) => " LIMIT "@ + decimal(n as nat),
        None => Seq::empty(),
    }
}

pub open spec fn offset_part(offset: Option<u64>) -> Seq<char> {
    match offset {
        Some(n) => " OFFSET "@ + decimal(n as nat),
        None => Seq::empty(),
    }
}

/// Everything of a SELECT query that follows its table.
pub open spec fn select_tail(m: BuilderModel) -> Seq<char> {
    joins_part(m.joins) + group_part(m.group_by, m.having) + where_clause(m.wheres) + m.unions
        + order_part(m.order_by, m.unions) + limit_part(m.limit) + offset_part(m.offset)
}

/// The SELECT query of a builder, without a terminating semicolon.
pub open spec fn select_query(m: BuilderModel) -> Seq<char> {
    select_head(m.distinct) + field_list(m.fields) + " FROM "@ + m.table + select_tail(m)
}

/// A SELECT of bare values, without FROM and without a terminating semicolon.
pub open spec fn values_query(fields: Seq<Seq<char>>) -> Seq<char> {
    "SELECT "@ + joined(fields, ", "@)
}

/// What `query` returns: the SELECT fragment, or the missing table.
pub open spec fn rendered_query(m: BuilderModel) -> Result<Seq<char>, BuildError> {
    if m.table.len() == 0 {
        Err(BuildError::NoTableName)
    } else {
        Ok(select_query(m))
    }
}

/// What `subquery` returns: the query in parentheses.
pub open spec fn rendered_subquery(m: BuilderModel) -> Result<Seq<char>, BuildError> {
    match rendered_query(m) {
        Ok(q) => Ok(parenthesized(q)),
        Err(e) => Err(e),
    }
}

/// What `subquery_as` returns: the query in parentheses, followed by ` AS name`.
pub open spec fn rendered_subquery_as(m: BuilderModel, name: Seq<char>) -> Result<
    Seq<char>,
    BuildError,
> {
    match rendered_query(m) {
        Ok(q) => Ok(parenthesized(q) + " AS "@ + name),
        Err(e) => Err(e),
    }
}

pub open spec fn insert_head(m: BuilderModel) -> Seq<char> {
    "INSERT INTO "@ + m.table + " ("@ + joined(m.fields, ", "@) + ")"@
}

pub open spec fn insert_statement(m: BuilderModel) -> Result<Seq<char>, BuildError> {
    if m.table.len() == 0 {
        Err(BuildError::NoTableName)
    } else {
        match m.values {
            ValuesModel::Empty => Err(BuildError::NoValues),
            ValuesModel::List(rows) => if rows.len() == 0 {
                Err(BuildError::NoValues)
            } else {
                Ok(insert_head(m) + " VALUES "@ + joined(rows, ", "@) + ";"@)
            },
            ValuesModel::Select(q) => Ok(insert_head(m) + " "@ + q + ";"@),
        }
    }
}

pub open spec fn update_statement(m: BuilderModel) -> Result<Seq<char>, BuildError> {
    if m.table.len() == 0 {
        Err(BuildError::NoTableName)
    } else if m.sets.len() == 0 {
        Err(BuildError::NoSetFields)
    } else {
        Ok("UPDATE "@ + m.table + " SET "@ + joined(m.sets, ", "@) + where_clause(m.wheres) + ";"@)
    }
}

pub open spec fn delete_statement(m: BuilderModel) -> Result<Seq<char>, BuildError> {
    if m.table.len() == 0 {
        Err(BuildError::NoTableName)
    } else {
        Ok("DELETE FROM "@ + m.table + where_clause(m.wheres) + ";"@)
    }
}

/// The complete statement of a builder, terminated by a semicolon, or the structural error.
pub open spec fn rendered_statement(m: BuilderModel) -> Result<Seq<char>, BuildError> {
    match m.kind {
        StatementKind::SelectFrom => match rendered_query(m) {
            Ok(q) => Ok(q + ";"@),
            Err(e) => Err(e),
        },
        StatementKind::SelectValues => if m.fields.len() == 0 {
            Err(BuildError::NoValues)
        } else {
            Ok(values_query(m.fields) + ";"@)
        },
        StatementKind::InsertInto => insert_statement(m),
        StatementKind::UpdateTable => update_statement(m),
        StatementKind::DeleteFrom => delete_statement(m),
    }
}

/// The character sequences held by a slice of string slices.
pub open spec fn str_texts(v: Seq<&str>) -> Seq<Seq<char>> {
    v.map_values(|s: &str| s@)
}

/// A comparison condition `field <op> value`.
pub open spec fn comparison(field: Seq<char>, op: Seq<char>, value: Seq<char>) -> Seq<char> {
    field + " "@ + op + " "@ + value
}

/// A LIKE condition on an escaped mask, with `%` before it when `leading` and after it when
/// `trailing`.
pub open spec fn like_condition(
    field: Seq<char>,
    negated: bool,
    mask: Seq<char>,
    leading: bool,
    trailing: bool,
) -> Seq<char> {
    field + (if negated {
        " NOT LIKE '"@
    } else {
        " LIKE '"@
    }) + (if leading {
        "%"@
    } else {
        Seq::empty()
    }) + escaped(mask) + (if trailing {
        "%'"@
    } else {
        "'"@
    })
}

/// The builder with `cond` as a new condition, ANDed with those before it.
pub open spec fn and_condition(m: BuilderModel, cond: Seq<char>) -> BuilderModel {
    BuilderModel { wheres: m.wheres.push(cond), ..m }
}

/// The builder with `cond` ORed onto the last condition, or as the first condition when there
/// is none.
pub open spec fn or_condition(m: BuilderModel, cond: Seq<char>) -> BuilderModel {
    if m.wheres.len() == 0 {
        BuilderModel { wheres: seq![cond], ..m }
    } else {
        BuilderModel {
            wheres: m.wheres.update(m.wheres.len() - 1, m.wheres.last() + " OR "@ + cond),
            ..m
        }
    }
}

/// A row of INSERT values: the values joined by commas, in parentheses.
pub open spec fn values_row(values: Seq<Seq<char>>) -> Seq<char> {
    "("@ + joined(values, ", "@) + ")"@
}

/// The INSERT source after one more row of values; a subquery source is dropped.
pub open spec fn with_row(v: ValuesModel, row: Seq<char>) -> ValuesModel {
    match v {
        ValuesModel::List(rows) => ValuesModel::List(rows.push(row)),
        _ => ValuesModel::List(seq![row]),
    }
}

/// An assignment of a SET clause whose value is written verbatim.
pub open spec fn assignment(field: Seq<char>, value: Seq<char>) -> Seq<char> {
    field + " = "@ + value
}

/// An assignment of a SET clause whose value is a quoted string literal.
pub open spec fn string_assignment(field: Seq<char>, value: Seq<char>) -> Seq<char> {
    field + " = "@ + quoted(value)
}

/// An ORDER BY item.
pub open spec fn order_item(field: Seq<char>, desc: bool) -> Seq<char> {
    if desc {
        field + " DESC"@
    } else {
        field
    }
}

/// The result of a render with its string seen as characters.
pub open spec fn text_result(r: Result<String, BuildError>) -> Result<Seq<char>, BuildError> {
    match r {
        Ok(s) => Ok(s@),
        Err(e) => Err(e),
    }
}

} // verus!
