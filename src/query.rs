//! Statement classification and the coercion of result cells.

use vstd::prelude::*;
use crate::text::{trim, trim_of, upper_of, uppercase};

verus! {

/// How a statement is run against a tenant database.
#[derive(Debug, Clone, Copy, PartialEq, Eq, Structural)]
pub enum StatementKind {
    /// Expected to produce rows.
    Query,
    /// Expected to report a count of affected rows.
    Mutation,
}

/// The keyword that marks a statement as a query.
pub open spec fn select_keyword() -> Seq<char> {
    seq!['S', 'E', 'L', 'E', 'C', 'T']
}

/// Whether `s` begins with the query keyword.
pub open spec fn has_select_prefix(s: Seq<char>) -> bool {
    s.len() >= 6 && s.subrange(0, 6) == select_keyword()
}

/// The kind of a statement whose trimmed, upper-cased text is `upper`.
pub open spec fn kind_of_upper(upper: Seq<char>) -> StatementKind {
    if has_select_prefix(upper) {
        StatementKind::Query
    } else {
        StatementKind::Mutation
    }
}

/// The kind of a statement, from its text as submitted.
pub open spec fn statement_kind(statement: Seq<char>) -> StatementKind {
    kind_of_upper(upper_of(trim_of(statement)))
}

/// Classifies a statement whose text has already been trimmed and upper-cased.
pub fn kind_from_upper(upper: &str) -> (r: StatementKind)
    ensures
        r == kind_of_upper(upper@),
{
    let n = upper.unicode_len();
    if n < 6 {
        return StatementKind::Mutation;
    }
    let kw = ['S', 'E', 'L', 'E', 'C', 'T'];
    let mut i: usize = 0;
    while i < 6
        invariant
            n == upper@.len(),
            n >= 6,
            i <= 6,
            kw@ == select_keyword(),
            forall|j: int| 0 <= j < i ==> upper@[j] == select_keyword()[j],
        decreases 6 - i,
    {
        if upper.get_char(i) != kw[i] {
            assert(upper@.subrange(0, 6)[i as int] != select_keyword()[i as int]);
            return StatementKind::Mutation;
        }
        i = i + 1;
    }
    assert(upper@.subrange(0, 6) =~= select_keyword());
    StatementKind::Query
}

/// Classifies a statement by a case-insensitive look at its first word:
/// one that begins with `SELECT` is a query, anything else a mutation.
pub fn classify_statement(statement: &str) -> (r: StatementKind)
    ensures
        r == statement_kind(statement@),
{
    let trimmed = trim(statement);
    let upper = uppercase(trimmed);
    kind_from_upper(upper.as_str())
}

/// One cell of a query result, after coercion.
#[derive(Debug, Clone, PartialEq, Eq)]
pub enum CellValue {
    /// The cell decoded as text.
    Text(String),
    /// The cell decoded as a 64-bit signed integer.
    Integer(i64),
    /// The cell decoded as a 64-bit float, held as its IEEE-754 bit pattern.
    Real(u64),
    /// The cell decoded as none of the above.
    Null,
}

/// What each decoding of one cell produced, tried in this order: text,
/// integer, float.
#[derive(Debug, Clone, PartialEq, Eq)]
pub struct CellDecodings {
    pub text: Option<String>,
    pub integer: Option<i64>,
    pub real_bits: Option<u64>,
}

/// The value a cell takes: the first decoding that succeeded, else null.
pub open spec fn coerced(d: CellDecodings) -> CellValue {
    match d.text {
        Some(t) => CellValue::Text(t),
        None => match d.integer {
            Some(i) => CellValue::Integer(i),
            None => match d.real_bits {
                Some(b) => CellValue::Real(b),
                None => CellValue::Null,
            },
        },
    }
}

/// Coerces one cell: text first, then integer, then float, else null.
/// A number stored as text stays text.
pub fn coerce_cell(d: CellDecodings) -> (r: CellValue)
    ensures
        r == coerced(d),
{
    match d.text {
        Some(t) => CellValue::Text(t),
        None => match d.integer {
            Some(i) => CellValue::Integer(i),
            None => match d.real_bits {
                Some(b) => CellValue::Real(b),
                None => CellValue::Null,
            },
        },
    }
}

/// Numbers stored as text stay text: whenever the text decoding succeeds the
/// cell is that text, whatever the numeric decodings gave; a cell that is no
/// text but decodes as an integer is that integer.
pub proof fn lemma_text_before_numbers(d: CellDecodings)
    ensures
        d.text matches Some(t) ==> coerced(d) == CellValue::Text(t),
        d.text is None ==> (d.integer matches Some(i) ==> coerced(d) == CellValue::Integer(i)),
{
}

/// Coerces every cell of one result row, column by column.
pub fn coerce_row(cells: Vec<CellDecodings>) -> (r: Vec<CellValue>)
    ensures
        r@.len() == cells@.len(),
        forall|j: int| 0 <= j < cells@.len() ==> r@[j] == coerced(#[trigger] cells@[j]),
{
    let mut out: Vec<CellValue> = Vec::new();
    let mut rest = cells;
    let ghost orig = rest@;
    let n = rest.len();
    let mut i: usize = 0;
    while i < n
        invariant
            n == orig.len(),
            i <= n,
            rest@ == orig.subrange(i as int, n as int),
            out@.len() == i,
            forall|j: int| 0 <= j < i ==> out@[j] == coerced(#[trigger] orig[j]),
        decreases n - i,
    {
        let d = rest.remove(0);
        assert(d == orig[i as int]);
        out.push(coerce_cell(d));
        i = i + 1;
        assert(rest@ =~= orig.subrange(i as int, n as int));
    }
    out
}

/// What running a statement produced.
#[derive(Debug, Clone, PartialEq, Eq)]
pub enum QueryOutput {
    /// A query: the column names and the coerced rows.
    Rows { columns: Vec<String>, rows: Vec<Vec<CellValue>> },
    /// A mutation: the number of rows it affected.
    Affected(usize),
}

} // verus!
