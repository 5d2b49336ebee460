use vstd::prelude::*;

verus! {

/// The text `s` with every single quote doubled.
pub open spec fn escaped(s: Seq<char>) -> Seq<char>
    decreases s.len(),
{
    if s.len() == 0 {
        Seq::empty()
    } else {
        let head = if s[0] == '\'' {
            seq!['\'', '\'']
        } else {
            seq![s[0]]
        };
        head + escaped(s.drop_first())
    }
}

/// The text `s` escaped and wrapped in single quotes.
pub open spec fn quoted(s: Seq<char>) -> Seq<char> {
    seq!['\''] + escaped(s) + seq!['\'']
}

/// Relies on sql_builder::esc: it replaces each `'` by `''` and keeps every other character.
#[verifier::external_body]
fn escape_text(src: &str) -> (r: String)
    ensures
        r@ == escaped(src@),
{
    sql_builder::esc(src)
}

/// Relies on sql_builder::quote: `'`, then the text as sql_builder::esc returns it, then `'`.
#[verifier::external_body]
fn quote_text(src: &str) -> (r: String)
    ensures
        r@ == quoted(src@),
{
    sql_builder::quote(src)
}

/// Escapes a string for use inside a single-quoted SQL literal.
pub fn esc(src: &str) -> (r: String)
    ensures
        r@ == escaped(src@),
{
    escape_text(src)
}

/// Makes a single-quoted SQL string literal from arbitrary text.
pub fn quote(src: &str) -> (r: String)
    ensures
        r@ == seq!['\''] + escaped(src@) + seq!['\''],
{
    quote_text(src)
}

} // verus!
