//! The table-scan path: existence pre-check decision, identifier quoting,
//! scan statement construction, and bare row coercion.
use vstd::prelude::*;
use crate::coerce::{coerce_row, spec_coerce_row, RawResultSet, RowObject};

verus! {

/// The distinguished failure of the table-scan path: the requested
/// (schema, table) pair is not in the catalog. Returned by the pre-check,
/// before any scan statement is built or issued.
#[derive(Debug, PartialEq, Eq, Clone, Copy)]
pub enum ScanError {
    TableNotFound,
}

/// Relies on `String::push`: appends exactly one character.
#[verifier::external_body]
fn push_char(s: &mut String, c: char)
    ensures
        final(s)@ == old(s)@.push(c),
{
    s.push(c)
}

/// An identifier's body with every double-quote character doubled.
pub open spec fn escaped(s: Seq<char>) -> Seq<char>
    decreases s.len(),
{
    if s.len() == 0 {
        Seq::<char>::empty()
    } else {
        escaped(s.drop_last()) + (if s.last() == '"' {
            seq!['"', '"']
        } else {
            seq![s.last()]
        })
    }
}

/// A quoted identifier: the escaped body wrapped in double quotes.
pub open spec fn quoted_ident(s: Seq<char>) -> Seq<char> {
    seq!['"'] + escaped(s) + seq!['"']
}

/// Quotes an identifier for interpolation into a statement: wraps it in
/// double quotes and doubles every embedded double-quote character, so the
/// result is always a syntactically valid quoted identifier.
pub fn quote_ident(name: &str) -> (r: String)
    ensures
        r@ == quoted_ident(name@),
{
    let mut out = String::new();
    push_char(&mut out, '"');
    let n = name.unicode_len();
    let mut i: usize = 0;
    while i < n
        invariant
            0 <= i <= n,
            n == name@.len(),
            out@ == seq!['"'] + escaped(name@.take(i as int)),
        decreases n - i,
    {
        let c = name.get_char(i);
        proof {
            assert(name@.take(i + 1).drop_last() =~= name@.take(i as int));
            assert(name@.take(i + 1).last() == name@[i as int]);
        }
        if c == '"' {
            push_char(&mut out, '"');
            push_char(&mut out, '"');
        } else {
            push_char(&mut out, c);
        }
        proof {
            assert(out@ =~= seq!['"'] + escaped(name@.take(i + 1)));
        }
        i += 1;
    }
    push_char(&mut out, '"');
    proof {
        assert(name@.take(n as int) =~= name@);
        assert(out@ =~= quoted_ident(name@));
    }
    out
}

/// The scan statement for a table: both identifiers quoted, the result
/// bounded to 1000 rows.
pub open spec fn scan_statement_of(schema: Seq<char>, table: Seq<char>) -> Seq<char> {
    "SELECT * FROM "@ + quoted_ident(schema) + "."@ + quoted_ident(table) + " LIMIT 1000"@
}

/// Builds the bounded scan statement for a (schema, table) pair.
pub fn scan_statement(schema_name: &str, table_name: &str) -> (r: String)
    ensures
        r@ == scan_statement_of(schema_name@, table_name@),
{
    let qs = quote_ident(schema_name);
    let qt = quote_ident(table_name);
    let mut out = String::from_str("SELECT * FROM ");
    out.append(qs.as_str());
    out.append(".");
    out.append(qt.as_str());
    out.append(" LIMIT 1000");
    proof {
        assert(out@ =~= scan_statement_of(schema_name@, table_name@));
    }
    out
}

/// The message reported when the pre-check fails.
pub open spec fn not_found_message_of(schema: Seq<char>, table: Seq<char>) -> Seq<char> {
    "Table "@ + schema + "."@ + table + " does not exist"@
}

/// Renders the pre-check failure for a (schema, table) pair.
pub fn table_not_found_message(schema_name: &str, table_name: &str) -> (r: String)
    ensures
        r@ == not_found_message_of(schema_name@, table_name@),
{
    let mut out = String::from_str("Table ");
    out.append(schema_name);
    out.append(".");
    out.append(table_name);
    out.append(" does not exist");
    proof {
        assert(out@ =~= not_found_message_of(schema_name@, table_name@));
    }
    out
}

/// The parameterized existence pre-check: bound parameters, never
/// interpolated identifiers.
pub fn existence_check_sql() -> (r: &'static str)
    ensures
        r@
            == "SELECT EXISTS (SELECT FROM information_schema.tables WHERE table_schema = $1 AND table_name = $2)"@,
{
    "SELECT EXISTS (SELECT FROM information_schema.tables WHERE table_schema = $1 AND table_name = $2)"
}

/// Decides the table-scan path from the existence pre-check: a missing
/// table short-circuits with `TableNotFound` and no scan statement is
/// produced; an existing one yields the quoted, bounded scan statement.
pub fn plan_table_scan(table_exists: bool, schema_name: &str, table_name: &str) -> (r: Result<
    String,
    ScanError,
>)
    ensures
        table_exists ==> (r matches Ok(stmt) && stmt@ == scan_statement_of(
            schema_name@,
            table_name@,
        )),
        !table_exists ==> r is Err && (r matches Err(e) && e is TableNotFound),
{
    if !table_exists {
        Err(ScanError::TableNotFound)
    } else {
        Ok(scan_statement(schema_name, table_name))
    }
}

/// Coerces a scanned result set to the bare ordered sequence of row
/// objects — the table-scan path reports no column metadata, count or
/// timing block.
pub fn scan_rows(raw: &RawResultSet) -> (r: Vec<RowObject>)
    ensures
        r@.len() == raw.rows@.len(),
        forall|i: int|
            0 <= i < raw.rows@.len() ==> (#[trigger] r@[i])@ == spec_coerce_row(raw.rows@[i]@),
{
    let mut rows: Vec<RowObject> = Vec::new();
    let mut i: usize = 0;
    while i < raw.rows.len()
        invariant
            0 <= i <= raw.rows@.len(),
            rows@.len() == i,
            forall|j: int|
                0 <= j < i ==> (#[trigger] rows@[j])@ == spec_coerce_row(raw.rows@[j]@),
        decreases raw.rows@.len() - i,
    {
        let obj = coerce_row(&raw.rows[i]);
        rows.push(obj);
        i += 1;
    }
    rows
}

} // verus!
