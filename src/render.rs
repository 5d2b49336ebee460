use vstd::prelude::*;
use vstd::string::StringExecFns;

use crate::model::{
    decimal, digit, join_keyword, joined, parenthesized, texts, where_clause, JoinKind,
};

verus! {

proof fn lemma_joined_push(parts: Seq<Seq<char>>, sep: Seq<char>, x: Seq<char>)
    requires
        parts.len() >= 1,
    ensures
        joined(parts.push(x), sep) == joined(parts, sep) + sep + x,
{
    assert(parts.push(x).drop_last() =~= parts);
}

/// The strings of `parts` joined by `sep`.
pub(crate) fn join_texts(parts: &Vec<String>, sep: &str) -> (r: String)
    ensures
        r@ == joined(texts(parts@), sep@),
{
    let ghost all = texts(parts@);
    let mut r = String::new();
    let mut i: usize = 0;
    while i < parts.len()
        invariant
            i <= parts.len(),
            all == texts(parts@),
            r@ == joined(all.take(i as int), sep@),
        decreases parts.len() - i,
    {
        let ghost before = r@;
        if i > 0 {
            r.append(sep);
        }
        r.append(parts[i].as_str());
        proof {
            let next = all.take(i + 1);
            if i == 0 {
                assert(r@ =~= next[0]);
            } else {
                assert(all.take(i as int).push(all[i as int]) =~= next);
                lemma_joined_push(all.take(i as int), sep@, all[i as int]);
            }
        }
        i += 1;
    }
    proof {
        assert(all.take(parts.len() as int) =~= all);
    }
    r
}

/// The WHERE clause of the conditions `ws`, with its leading space.
pub(crate) fn where_text(ws: &Vec<String>) -> (r: String)
    ensures
        r@ == where_clause(texts(ws@)),
{
    let ghost all = texts(ws@);
    if ws.len() == 0 {
        return String::new();
    }
    let mut r = String::from_str(" WHERE ");
    if ws.len() == 1 {
        r.append(ws[0].as_str());
        return r;
    }
    let ghost wrapped = all.map_values(|w: Seq<char>| parenthesized(w));
    let mut i: usize = 0;
    while i < ws.len()
        invariant
            i <= ws.len(),
            ws.len() >= 2,
            all == texts(ws@),
            wrapped == all.map_values(|w: Seq<char>| parenthesized(w)),
            r@ == " WHERE "@ + joined(wrapped.take(i as int), " AND "@),
        decreases ws.len() - i,
    {
        let ghost before = joined(wrapped.take(i as int), " AND "@);
        if i > 0 {
            r.append(" AND ");
        }
        r.append("(");
        r.append(ws[i].as_str());
        r.append(")");
        proof {
            let next = wrapped.take(i + 1);
            assert(wrapped[i as int] == parenthesized(ws@[i as int]@));
            if i == 0 {
                assert(joined(next, " AND "@) == wrapped[0]);
                assert(r@ =~= " WHERE "@ + joined(next, " AND "@));
            } else {
                assert(wrapped.take(i as int).push(wrapped[i as int]) =~= next);
                lemma_joined_push(wrapped.take(i as int), " AND "@, wrapped[i as int]);
                assert(r@ =~= " WHERE "@ + joined(next, " AND "@));
            }
        }
        i += 1;
    }
    proof {
        assert(wrapped.take(ws.len() as int) =~= wrapped);
    }
    r
}

fn digit_text(d: u64) -> (r: &'static str)
    requires
        d < 10,
    ensures
        r@ == digit(d as nat),
{
    if d == 0 {
        "0"
    } else if d == 1 {
        "1"
    } else if d == 2 {
        "2"
    } else if d == 3 {
        "3"
    } else if d == 4 {
        "4"
    } else if d == 5 {
        "5"
    } else if d == 6 {
        "6"
    } else if d == 7 {
        "7"
    } else if d == 8 {
        "8"
    } else {
        "9"
    }
}

/// The decimal notation of `n`.
pub(crate) fn decimal_text(n: u64) -> (r: String)
    ensures
        r@ == decimal(n as nat),
    decreases n,
{
    if n < 10 {
        String::from_str(digit_text(n))
    } else {
        let mut r = decimal_text(n / 10);
        r.append(digit_text(n % 10));
        r
    }
}

/// The keyword that starts a join fragment.
pub(crate) fn join_keyword_text(natural: bool, kind: JoinKind) -> (r: String)
    ensures
        r@ == join_keyword(natural, kind),
{
    let op = match kind {
        JoinKind::Plain => "JOIN ",
        JoinKind::Left => "LEFT JOIN ",
        JoinKind::LeftOuter => "LEFT OUTER JOIN ",
        JoinKind::Right => "RIGHT JOIN ",
        JoinKind::Inner => "INNER JOIN ",
        JoinKind::Cross => "CROSS JOIN ",
    };
    if natural {
        let mut r = String::from_str("NATURAL ");
        r.append(op);
        r
    } else {
        String::from_str(op)
    }
}

} // verus!
