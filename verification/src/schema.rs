//! Schema introspection: folds the flat, contiguity-sorted stream of
//! catalog rows into a grouped sequence of table schemas.
use vstd::prelude::*;

verus! {

/// The kind of constraint a catalog row reports for a column.
#[derive(Debug, PartialEq, Eq, Clone, Copy)]
pub enum ConstraintKind {
    PrimaryKey,
    ForeignKey,
    Unique,
    Other,
}

/// The (schema, table, column) triple a foreign key points at.
pub struct FkTarget {
    pub schema: String,
    pub table: String,
    pub column: String,
}

/// One denormalized row of the catalog query: a column of a table,
/// with its type, nullability, and an optional constraint.
pub struct CatalogRow {
    pub schema_name: String,
    pub table_name: String,
    pub column_name: String,
    pub sql_type: String,
    /// The catalog's nullability flag, `"YES"` when the column is nullable.
    pub is_nullable: String,
    pub constraint_kind: Option<ConstraintKind>,
    pub fk_target: Option<FkTarget>,
}

/// One column of a table schema.
pub struct ColumnInfo {
    pub name: String,
    pub data_type: String,
    pub is_nullable: bool,
    /// Not sourced by the catalog query; always `false`.
    pub has_default: bool,
    /// `"<schema>.<table>.<column>"` of the referenced column, when the
    /// row carries a foreign-key constraint.
    pub foreign_key: Option<String>,
}

/// One table with its ordered columns. Identity key: (schema, name).
pub struct TableSchema {
    pub schema: String,
    pub name: String,
    pub columns: Vec<ColumnInfo>,
}

#[verifier::ext_equal]
pub struct FkModel {
    pub schema: Seq<char>,
    pub table: Seq<char>,
    pub column: Seq<char>,
}

#[verifier::ext_equal]
pub struct RowModel {
    pub schema_name: Seq<char>,
    pub table_name: Seq<char>,
    pub column_name: Seq<char>,
    pub sql_type: Seq<char>,
    pub is_nullable: Seq<char>,
    pub constraint_kind: Option<ConstraintKind>,
    pub fk_target: Option<FkModel>,
}

#[verifier::ext_equal]
pub struct ColumnModel {
    pub name: Seq<char>,
    pub data_type: Seq<char>,
    pub is_nullable: bool,
    pub has_default: bool,
    pub foreign_key: Option<Seq<char>>,
}

#[verifier::ext_equal]
pub struct TableModel {
    pub schema: Seq<char>,
    pub name: Seq<char>,
    pub columns: Seq<ColumnModel>,
}

impl View for FkTarget {
    type V = FkModel;

    open spec fn view(&self) -> FkModel {
        FkModel { schema: self.schema@, table: self.table@, column: self.column@ }
    }
}

impl View for CatalogRow {
    type V = RowModel;

    open spec fn view(&self) -> RowModel {
        RowModel {
            schema_name: self.schema_name@,
            table_name: self.table_name@,
            column_name: self.column_name@,
            sql_type: self.sql_type@,
            is_nullable: self.is_nullable@,
            constraint_kind: self.constraint_kind,
            fk_target: match &self.fk_target {
                Some(f) => Some(f@),
                None => None,
            },
        }
    }
}

impl View for ColumnInfo {
    type V = ColumnModel;

    open spec fn view(&self) -> ColumnModel {
        ColumnModel {
            name: self.name@,
            data_type: self.data_type@,
            is_nullable: self.is_nullable,
            has_default: self.has_default,
            foreign_key: match &self.foreign_key {
                Some(s) => Some(s@),
                None => None,
            },
        }
    }
}

impl View for TableSchema {
    type V = TableModel;

    open spec fn view(&self) -> TableModel {
        TableModel {
            schema: self.schema@,
            name: self.name@,
            columns: self.columns@.map_values(|c: ColumnInfo| c@),
        }
    }
}

impl RowModel {
    /// A catalog row that reports a foreign-key constraint carries the
    /// referenced column; the catalog join guarantees it.
    pub open spec fn wf(self) -> bool {
        self.constraint_kind == Some(ConstraintKind::ForeignKey) ==> self.fk_target is Some
    }
}

/// The dotted rendering of a foreign-key target.
pub open spec fn fk_string_of(f: FkModel) -> Seq<char> {
    f.schema + "."@ + f.table + "."@ + f.column
}

/// The column a catalog row describes: foreign key rendered exactly when
/// the row's constraint is a foreign key; nullable exactly when the
/// catalog flag reads `"YES"`; defaults not sourced, so always `false`.
pub open spec fn column_of(r: RowModel) -> ColumnModel {
    ColumnModel {
        name: r.column_name,
        data_type: r.sql_type,
        is_nullable: r.is_nullable == "YES"@,
        has_default: false,
        foreign_key: if r.constraint_kind == Some(ConstraintKind::ForeignKey) {
            Some(fk_string_of(r.fk_target->Some_0))
        } else {
            None
        },
    }
}

/// A fresh table opened from one catalog row, seeded with one column.
pub open spec fn new_table_model(r: RowModel, c: ColumnModel) -> TableModel {
    TableModel { schema: r.schema_name, name: r.table_name, columns: seq![c] }
}

/// The state of the single-pass group-by after consuming `rows`: the
/// flushed tables in order, and the still-open current table, if any.
pub open spec fn fold_acc(rows: Seq<RowModel>) -> (Seq<TableModel>, Option<TableModel>)
    decreases rows.len(),
{
    if rows.len() == 0 {
        (Seq::<TableModel>::empty(), None::<TableModel>)
    } else {
        let prev = fold_acc(rows.drop_last());
        let r = rows.last();
        let c = column_of(r);
        match prev.1 {
            Some(t) => {
                if t.schema == r.schema_name && t.name == r.table_name {
                    (
                        prev.0,
                        Some(TableModel { schema: t.schema, name: t.name, columns: t.columns.push(c) }),
                    )
                } else {
                    (prev.0.push(t), Some(new_table_model(r, c)))
                }
            },
            None => (prev.0, Some(new_table_model(r, c))),
        }
    }
}

/// The grouped tree of tables for a contiguity-sorted catalog stream:
/// the group-by state with the last open table flushed.
pub open spec fn spec_fold(rows: Seq<RowModel>) -> Seq<TableModel> {
    let acc = fold_acc(rows);
    match acc.1 {
        Some(t) => acc.0.push(t),
        None => acc.0,
    }
}

/// The models of a sequence of catalog rows.
pub open spec fn catalog_view(s: Seq<CatalogRow>) -> Seq<RowModel> {
    s.map_values(|r: CatalogRow| r@)
}

/// The models of a sequence of table schemas.
pub open spec fn tables_view(s: Seq<TableSchema>) -> Seq<TableModel> {
    s.map_values(|t: TableSchema| t@)
}

/// Builds the column a catalog row describes.
pub fn make_column(row: &CatalogRow) -> (r: ColumnInfo)
    requires
        row@.wf(),
    ensures
        r@ == column_of(row@),
{
    let foreign_key: Option<String> = match &row.constraint_kind {
        Some(ConstraintKind::ForeignKey) => match &row.fk_target {
            Some(fk) => Some(
                fk.schema.clone().concat(".").concat(fk.table.as_str()).concat(".").concat(
                    fk.column.as_str(),
                ),
            ),
            None => None,
        },
        _ => None,
    };
    ColumnInfo {
        name: row.column_name.clone(),
        data_type: row.sql_type.clone(),
        is_nullable: crate::eq_str(row.is_nullable.as_str(), "YES"),
        has_default: false,
        foreign_key,
    }
}

fn new_table(row: &CatalogRow, col: ColumnInfo) -> (r: TableSchema)
    ensures
        r@ == new_table_model(row@, col@),
{
    let mut columns: Vec<ColumnInfo> = Vec::new();
    columns.push(col);
    let r = TableSchema {
        schema: row.schema_name.clone(),
        name: row.table_name.clone(),
        columns,
    };
    proof {
        assert(r@.columns =~= seq![col@]);
    }
    r
}

spec fn current_view(c: &Option<TableSchema>) -> Option<TableModel> {
    match c {
        Some(t) => Some(t@),
        None => None,
    }
}

/// Folds a contiguity-sorted stream of catalog rows into the grouped
/// sequence of table schemas: one table per maximal run of rows sharing
/// (schema, name), its columns in input order, flushed in input order.
/// An empty input yields an empty sequence.
pub fn fold_catalog(rows: &Vec<CatalogRow>) -> (r: Vec<TableSchema>)
    requires
        forall|j: int| 0 <= j < rows@.len() ==> (#[trigger] rows@[j])@.wf(),
    ensures
        tables_view(r@) == spec_fold(catalog_view(rows@)),
        rows@.len() == 0 ==> r@.len() == 0,
{
    let ghost all = catalog_view(rows@);
    let mut out: Vec<TableSchema> = Vec::new();
    let mut current: Option<TableSchema> = None;
    let mut i: usize = 0;
    proof {
        assert(all.take(0) =~= Seq::<RowModel>::empty());
        assert(tables_view(out@) =~= Seq::<TableModel>::empty());
    }
    while i < rows.len()
        invariant
            0 <= i <= rows@.len(),
            all == catalog_view(rows@),
            all.len() == rows@.len(),
            forall|j: int| 0 <= j < rows@.len() ==> (#[trigger] rows@[j])@.wf(),
            tables_view(out@) == fold_acc(all.take(i as int)).0,
            current_view(&current) == fold_acc(all.take(i as int)).1,
        decreases rows@.len() - i,
    {
        let row = &rows[i];
        let col = make_column(row);
        proof {
            assert(all.take(i + 1).drop_last() =~= all.take(i as int));
            assert(all.take(i + 1).last() == row@);
        }
        current = match current {
            Some(mut t) => {
                let same = crate::eq_str(t.schema.as_str(), row.schema_name.as_str()) && crate::eq_str(
                    t.name.as_str(),
                    row.table_name.as_str(),
                );
                if same {
                    let ghost old_t = t@;
                    t.columns.push(col);
                    proof {
                        assert(t@.columns =~= old_t.columns.push(col@));
                    }
                    Some(t)
                } else {
                    let ghost old_out = out@;
                    out.push(t);
                    proof {
                        assert(tables_view(out@) =~= tables_view(old_out).push(
                            fold_acc(all.take(i as int)).1->Some_0,
                        ));
                    }
                    Some(new_table(row, col))
                }
            },
            None => Some(new_table(row, col)),
        };
        i += 1;
    }
    proof {
        assert(all.take(rows@.len() as int) =~= all);
    }
    match current {
        Some(t) => {
            let ghost old_out = out@;
            out.push(t);
            proof {
                assert(tables_view(out@) =~= tables_view(old_out).push(t@));
            }
        },
        None => {},
    }
    out
}

} // verus!
