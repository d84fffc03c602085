//! Result-set coercion: turns a raw result set into ordered row objects of
//! interchange primitives, with column metadata, row count and timing.
use vstd::prelude::*;
use crate::mapper::{map_cell, spec_map, wire_of, CellModel, InterchangeValue, RawCell, ValueModel};

verus! {

/// A result-set column descriptor: name plus declared wire type name.
pub struct ColumnDesc {
    pub name: String,
    pub wire_name: String,
}

#[verifier::ext_equal]
pub struct ColumnDescModel {
    pub name: Seq<char>,
    pub wire_name: Seq<char>,
}

impl View for ColumnDesc {
    type V = ColumnDescModel;

    open spec fn view(&self) -> ColumnDescModel {
        ColumnDescModel { name: self.name@, wire_name: self.wire_name@ }
    }
}

/// One raw row: its column descriptors and its cells, positionally paired.
pub struct RawRow {
    pub columns: Vec<ColumnDesc>,
    pub cells: Vec<RawCell>,
}

#[verifier::ext_equal]
pub struct RawRowModel {
    pub columns: Seq<ColumnDescModel>,
    pub cells: Seq<CellModel>,
}

impl View for RawRow {
    type V = RawRowModel;

    open spec fn view(&self) -> RawRowModel {
        RawRowModel {
            columns: self.columns@.map_values(|c: ColumnDesc| c@),
            cells: self.cells@.map_values(|c: RawCell| c@),
        }
    }
}

/// A raw result set: ordered rows, each carrying its own column tags.
pub struct RawResultSet {
    pub rows: Vec<RawRow>,
}

/// The models of a sequence of column descriptors.
pub open spec fn columns_view(s: Seq<ColumnDesc>) -> Seq<ColumnDescModel> {
    s.map_values(|c: ColumnDesc| c@)
}

/// A name-to-value mapping for one output row. Entries are kept in
/// insertion order; a later entry with the same name overrides an earlier
/// one, so the mapping a row object denotes is last-wins.
pub struct RowObject {
    pub entries: Vec<(String, InterchangeValue)>,
}

/// The mapping an entry list denotes: later entries override earlier ones.
pub open spec fn map_of(s: Seq<(String, InterchangeValue)>) -> Map<Seq<char>, ValueModel>
    decreases s.len(),
{
    if s.len() == 0 {
        Map::<Seq<char>, ValueModel>::empty()
    } else {
        map_of(s.drop_last()).insert(s.last().0@, s.last().1@)
    }
}

impl View for RowObject {
    type V = Map<Seq<char>, ValueModel>;

    open spec fn view(&self) -> Map<Seq<char>, ValueModel> {
        map_of(self.entries@)
    }
}

proof fn lemma_map_of_untouched_tail(s: Seq<(String, InterchangeValue)>, i: int, n: Seq<char>)
    requires
        0 <= i <= s.len(),
        forall|j: int| i <= j < s.len() ==> (#[trigger] s[j]).0@ != n,
    ensures
        map_of(s).contains_key(n) <==> map_of(s.take(i)).contains_key(n),
        map_of(s.take(i)).contains_key(n) ==> map_of(s)[n] == map_of(s.take(i))[n],
    decreases s.len(),
{
    if i == s.len() {
        assert(s.take(i) =~= s);
    } else {
        assert(s.last().0@ != n);
        lemma_map_of_untouched_tail(s.drop_last(), i, n);
        assert(s.drop_last().take(i) =~= s.take(i));
    }
}

impl RowObject {
    /// An empty row object.
    pub fn new() -> (r: RowObject)
        ensures
            r@ == Map::<Seq<char>, ValueModel>::empty(),
    {
        RowObject { entries: Vec::new() }
    }

    /// Binds `name` to `value`; a prior binding of the same name is
    /// overridden.
    pub fn insert(&mut self, name: String, value: InterchangeValue)
        ensures
            final(self)@ == old(self)@.insert(name@, value@),
            final(self).entries@ == old(self).entries@.push((name, value)),
    {
        let ghost before = self.entries@;
        self.entries.push((name, value));
        proof {
            assert(self.entries@.drop_last() =~= before);
        }
    }

    /// Looks a name up: the value of its latest binding, or nothing.
    pub fn get(&self, name: &str) -> (r: Option<&InterchangeValue>)
        ensures
            match r {
                Some(v) => self@.contains_key(name@) && v@ == self@[name@],
                None => !self@.contains_key(name@),
            },
    {
        let mut i: usize = self.entries.len();
        while i > 0
            invariant
                0 <= i <= self.entries@.len(),
                forall|j: int|
                    i <= j < self.entries@.len() ==> (#[trigger] self.entries@[j]).0@ != name@,
            decreases i,
        {
            let entry = &self.entries[i - 1];
            if crate::eq_str(entry.0.as_str(), name) {
                proof {
                    lemma_map_of_untouched_tail(self.entries@, i as int, name@);
                    assert(self.entries@.take(i as int).drop_last() =~= self.entries@.take(
                        i - 1,
                    ));
                    assert(self.entries@.take(i as int).last() == self.entries@[i - 1]);
                }
                return Some(&entry.1);
            }
            i -= 1;
        }
        proof {
            lemma_map_of_untouched_tail(self.entries@, 0, name@);
            assert(self.entries@.take(0) =~= Seq::<(String, InterchangeValue)>::empty());
        }
        None
    }
}

/// The interchange value of cell `i` of a raw row: coerced under its
/// column's declared wire type, or null where the row has no such cell.
pub open spec fn cell_at(r: RawRowModel, i: int) -> ValueModel {
    if 0 <= i < r.cells.len() {
        spec_map(wire_of(r.columns[i].wire_name), r.cells[i])
    } else {
        ValueModel::Null
    }
}

/// The mapping built from the first `n` columns of a raw row, keyed by
/// column name, later columns overriding earlier ones of the same name.
pub open spec fn row_map_prefix(r: RawRowModel, n: int) -> Map<Seq<char>, ValueModel>
    decreases n,
{
    if n <= 0 {
        Map::<Seq<char>, ValueModel>::empty()
    } else {
        row_map_prefix(r, n - 1).insert(r.columns[n - 1].name, cell_at(r, n - 1))
    }
}

/// The row object a raw row coerces to: every column, in positional order.
pub open spec fn spec_coerce_row(r: RawRowModel) -> Map<Seq<char>, ValueModel> {
    row_map_prefix(r, r.columns.len() as int)
}

/// Coerces one raw row into a row object, column by column in positional
/// order, keyed by column name with a last-wins collision policy.
pub fn coerce_row(row: &RawRow) -> (r: RowObject)
    ensures
        r@ == spec_coerce_row(row@),
{
    let mut obj = RowObject::new();
    let mut i: usize = 0;
    while i < row.columns.len()
        invariant
            0 <= i <= row.columns@.len(),
            obj@ == row_map_prefix(row@, i as int),
        decreases row.columns@.len() - i,
    {
        let value = if i < row.cells.len() {
            map_cell(row.columns[i].wire_name.as_str(), &row.cells[i])
        } else {
            InterchangeValue::Null
        };
        obj.insert(row.columns[i].name.clone(), value);
        i += 1;
    }
    obj
}

/// The materialized outcome of one query: coerced rows, the row count,
/// the caller-measured execution time, and the first row's column tags.
pub struct QueryOutcome {
    pub rows: Vec<RowObject>,
    pub row_count: usize,
    pub execution_time_ms: u64,
    pub columns: Vec<ColumnDesc>,
}

fn clone_columns(v: &Vec<ColumnDesc>) -> (r: Vec<ColumnDesc>)
    ensures
        columns_view(r@) == columns_view(v@),
{
    let mut r: Vec<ColumnDesc> = Vec::new();
    let mut i: usize = 0;
    while i < v.len()
        invariant
            0 <= i <= v@.len(),
            r@.len() == i,
            forall|j: int| 0 <= j < i ==> (#[trigger] r@[j])@ == v@[j]@,
        decreases v@.len() - i,
    {
        r.push(ColumnDesc { name: v[i].name.clone(), wire_name: v[i].wire_name.clone() });
        i += 1;
    }
    proof {
        assert(columns_view(r@) =~= columns_view(v@));
    }
    r
}

/// Coerces a whole raw result set: one row object per raw row in order,
/// the row count, the caller-supplied elapsed milliseconds, and the column
/// descriptors of the first row — empty when there is no row. Never fails:
/// unreadable cells have already degraded to null cell by cell.
pub fn coerce(raw: &RawResultSet, elapsed_ms: u64) -> (r: QueryOutcome)
    ensures
        r.row_count == raw.rows@.len(),
        r.rows@.len() == raw.rows@.len(),
        forall|i: int|
            0 <= i < raw.rows@.len() ==> (#[trigger] r.rows@[i])@ == spec_coerce_row(
                raw.rows@[i]@,
            ),
        raw.rows@.len() > 0 ==> columns_view(r.columns@) == raw.rows@[0]@.columns,
        raw.rows@.len() == 0 ==> columns_view(r.columns@) == Seq::<ColumnDescModel>::empty(),
        r.execution_time_ms == elapsed_ms,
{
    let mut rows: Vec<RowObject> = Vec::new();
    let mut i: usize = 0;
    while i < raw.rows.len()
        invariant
            0 <= i <= raw.rows@.len(),
            rows@.len() == i,
            forall|j: int|
                0 <= j < i ==> (#[trigger] rows@[j])@ == spec_coerce_row(raw.rows@[j]@),
        decreases raw.rows@.len() - i,
    {
        let obj = coerce_row(&raw.rows[i]);
        rows.push(obj);
        i += 1;
    }
    let columns = if raw.rows.len() > 0 {
        clone_columns(&raw.rows[0].columns)
    } else {
        Vec::new()
    };
    proof {
        if raw.rows@.len() == 0 {
            assert(columns_view(columns@) =~= Seq::<ColumnDescModel>::empty());
        }
    }
    let row_count = rows.len();
    QueryOutcome { rows, row_count, execution_time_ms: elapsed_ms, columns }
}

} // verus!
