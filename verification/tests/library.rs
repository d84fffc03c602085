use dbmirror::coerce::{coerce, coerce_row, ColumnDesc, RawResultSet, RawRow};
use dbmirror::conn::{
    admin_connection_string, base_connection_string, create_database_statement,
    drop_database_statement,
};
use dbmirror::mapper::{map_cell, InterchangeValue, RawCell};
use dbmirror::scan::{
    existence_check_sql, plan_table_scan, quote_ident, scan_rows, scan_statement,
    table_not_found_message, ScanError,
};
use dbmirror::schema::{fold_catalog, make_column, CatalogRow, ConstraintKind, FkTarget};

fn catalog_row(schema: &str, table: &str, column: &str, sql_type: &str) -> CatalogRow {
    CatalogRow {
        schema_name: schema.to_string(),
        table_name: table.to_string(),
        column_name: column.to_string(),
        sql_type: sql_type.to_string(),
        is_nullable: "NO".to_string(),
        constraint_kind: None,
        fk_target: None,
    }
}

#[test]
fn supported_types_map_to_exact_tags() {
    assert_eq!(
        map_cell("text", &RawCell::Text("hi".to_string())),
        InterchangeValue::Text("hi".to_string())
    );
    assert_eq!(
        map_cell("varchar", &RawCell::Text("v".to_string())),
        InterchangeValue::Text("v".to_string())
    );
    assert_eq!(
        map_cell("char", &RawCell::Text("c".to_string())),
        InterchangeValue::Text("c".to_string())
    );
    assert_eq!(
        map_cell("name", &RawCell::Text("n".to_string())),
        InterchangeValue::Text("n".to_string())
    );
    assert_eq!(map_cell("int2", &RawCell::SmallInt(7)), InterchangeValue::Integer(7));
    assert_eq!(map_cell("int4", &RawCell::SmallInt(-42)), InterchangeValue::Integer(-42));
    assert_eq!(
        map_cell("int8", &RawCell::BigInt(9_000_000_000)),
        InterchangeValue::Integer(9_000_000_000)
    );
    let bits = (1.5f64).to_bits();
    assert_eq!(map_cell("float4", &RawCell::Float(bits)), InterchangeValue::FloatBits(bits));
    assert_eq!(map_cell("float8", &RawCell::Float(bits)), InterchangeValue::FloatBits(bits));
    assert_eq!(map_cell("bool", &RawCell::Bool(true)), InterchangeValue::Boolean(true));
}

#[test]
fn int4_widens_to_64_bits() {
    assert_eq!(map_cell("int4", &RawCell::SmallInt(i32::MAX)), InterchangeValue::Integer(2147483647));
    assert_eq!(map_cell("int4", &RawCell::SmallInt(i32::MIN)), InterchangeValue::Integer(-2147483648));
}

#[test]
fn null_cell_maps_to_null_for_every_type() {
    for name in [
        "text", "varchar", "char", "name", "int2", "int4", "int8", "float4", "float8", "bool",
        "timestamp", "timestamptz", "uuid", "jsonb", "",
    ] {
        assert_eq!(map_cell(name, &RawCell::Null), InterchangeValue::Null);
    }
}

#[test]
fn unknown_type_degrades_to_text_or_null() {
    assert_eq!(
        map_cell("uuid", &RawCell::Text("abc-def".to_string())),
        InterchangeValue::Text("abc-def".to_string())
    );
    assert_eq!(map_cell("jsonb", &RawCell::BigInt(3)), InterchangeValue::Null);
    assert_eq!(map_cell("", &RawCell::Bool(false)), InterchangeValue::Null);
}

#[test]
fn mismatched_storage_degrades_to_null() {
    assert_eq!(map_cell("int4", &RawCell::Text("5".to_string())), InterchangeValue::Null);
    assert_eq!(map_cell("text", &RawCell::SmallInt(5)), InterchangeValue::Null);
    assert_eq!(map_cell("bool", &RawCell::BigInt(1)), InterchangeValue::Null);
    assert_eq!(map_cell("timestamp", &RawCell::Text("now".to_string())), InterchangeValue::Null);
}

#[test]
fn timestamptz_renders_rfc3339() {
    // 2024-01-15T10:30:00Z as seconds since the Unix epoch.
    let cell = RawCell::Timestamp(1705314600, 0);
    assert_eq!(
        map_cell("timestamptz", &cell),
        InterchangeValue::Text("2024-01-15T10:30:00+00:00".to_string())
    );
    assert_eq!(
        map_cell("timestamp", &cell),
        InterchangeValue::Text("2024-01-15T10:30:00+00:00".to_string())
    );
}

#[test]
fn timestamp_epoch_renders_rfc3339() {
    assert_eq!(
        map_cell("timestamptz", &RawCell::Timestamp(0, 0)),
        InterchangeValue::Text("1970-01-01T00:00:00+00:00".to_string())
    );
}

#[test]
fn out_of_range_timestamp_degrades_to_null() {
    assert_eq!(map_cell("timestamptz", &RawCell::Timestamp(i64::MAX, 0)), InterchangeValue::Null);
    assert_eq!(map_cell("timestamptz", &RawCell::Timestamp(0, 2_000_000_000)), InterchangeValue::Null);
}

#[test]
fn fold_of_empty_input_is_empty() {
    let rows: Vec<CatalogRow> = Vec::new();
    let tables = fold_catalog(&rows);
    assert_eq!(tables.len(), 0);
}

#[test]
fn fold_groups_contiguous_rows_by_table() {
    let rows = vec![
        catalog_row("s", "t", "c1", "int4"),
        catalog_row("s", "t", "c2", "text"),
        catalog_row("s", "t2", "c3", "bool"),
    ];
    let tables = fold_catalog(&rows);
    assert_eq!(tables.len(), 2);
    assert_eq!(tables[0].schema, "s");
    assert_eq!(tables[0].name, "t");
    assert_eq!(tables[0].columns.len(), 2);
    assert_eq!(tables[0].columns[0].name, "c1");
    assert_eq!(tables[0].columns[1].name, "c2");
    assert_eq!(tables[1].schema, "s");
    assert_eq!(tables[1].name, "t2");
    assert_eq!(tables[1].columns.len(), 1);
    assert_eq!(tables[1].columns[0].name, "c3");
}

#[test]
fn fold_reopens_table_on_key_change() {
    // A non-contiguous stream produces duplicate table entries: the fold
    // trusts the catalog's ordering and never re-sorts.
    let rows = vec![
        catalog_row("s", "a", "c1", "int4"),
        catalog_row("s", "b", "c2", "int4"),
        catalog_row("s", "a", "c3", "int4"),
    ];
    let tables = fold_catalog(&rows);
    assert_eq!(tables.len(), 3);
    assert_eq!(tables[0].name, "a");
    assert_eq!(tables[1].name, "b");
    assert_eq!(tables[2].name, "a");
}

#[test]
fn foreign_key_column_renders_dotted_target() {
    let mut row = catalog_row("app", "orders", "user_id", "int4");
    row.constraint_kind = Some(ConstraintKind::ForeignKey);
    row.fk_target = Some(FkTarget {
        schema: "public".to_string(),
        table: "users".to_string(),
        column: "id".to_string(),
    });
    let col = make_column(&row);
    assert_eq!(col.foreign_key, Some("public.users.id".to_string()));
    assert_eq!(col.name, "user_id");
    assert!(!col.has_default);
}

#[test]
fn non_foreign_constraints_leave_no_foreign_key() {
    let mut row = catalog_row("app", "orders", "id", "int4");
    row.constraint_kind = Some(ConstraintKind::PrimaryKey);
    let col = make_column(&row);
    assert_eq!(col.foreign_key, None);
}

#[test]
fn nullable_flag_reads_yes() {
    let mut row = catalog_row("s", "t", "c", "text");
    row.is_nullable = "YES".to_string();
    assert!(make_column(&row).is_nullable);
    row.is_nullable = "NO".to_string();
    assert!(!make_column(&row).is_nullable);
}

#[test]
fn coerce_of_zero_rows_is_empty() {
    let raw = RawResultSet { rows: Vec::new() };
    let outcome = coerce(&raw, 17);
    assert_eq!(outcome.row_count, 0);
    assert_eq!(outcome.rows.len(), 0);
    assert_eq!(outcome.columns.len(), 0);
    assert_eq!(outcome.execution_time_ms, 17);
}

fn two_column_row() -> RawRow {
    RawRow {
        columns: vec![
            ColumnDesc { name: "id".to_string(), wire_name: "int4".to_string() },
            ColumnDesc { name: "title".to_string(), wire_name: "text".to_string() },
        ],
        cells: vec![RawCell::SmallInt(3), RawCell::Text("ok".to_string())],
    }
}

#[test]
fn coerce_builds_row_objects_and_metadata() {
    let raw = RawResultSet { rows: vec![two_column_row()] };
    let outcome = coerce(&raw, 5);
    assert_eq!(outcome.row_count, 1);
    assert_eq!(outcome.columns.len(), 2);
    assert_eq!(outcome.columns[0].name, "id");
    assert_eq!(outcome.columns[0].wire_name, "int4");
    assert_eq!(outcome.columns[1].name, "title");
    let row = &outcome.rows[0];
    assert_eq!(row.get("id"), Some(&InterchangeValue::Integer(3)));
    assert_eq!(row.get("title"), Some(&InterchangeValue::Text("ok".to_string())));
    assert_eq!(row.get("missing"), None);
}

#[test]
fn duplicate_column_names_take_the_later_value() {
    let raw_row = RawRow {
        columns: vec![
            ColumnDesc { name: "x".to_string(), wire_name: "int4".to_string() },
            ColumnDesc { name: "x".to_string(), wire_name: "int4".to_string() },
        ],
        cells: vec![RawCell::SmallInt(1), RawCell::SmallInt(2)],
    };
    let obj = coerce_row(&raw_row);
    assert_eq!(obj.get("x"), Some(&InterchangeValue::Integer(2)));
}

#[test]
fn missing_cell_coerces_to_null() {
    let raw_row = RawRow {
        columns: vec![
            ColumnDesc { name: "a".to_string(), wire_name: "int4".to_string() },
            ColumnDesc { name: "b".to_string(), wire_name: "int4".to_string() },
        ],
        cells: vec![RawCell::SmallInt(1)],
    };
    let obj = coerce_row(&raw_row);
    assert_eq!(obj.get("a"), Some(&InterchangeValue::Integer(1)));
    assert_eq!(obj.get("b"), Some(&InterchangeValue::Null));
}

#[test]
fn quoting_doubles_embedded_quotes() {
    assert_eq!(quote_ident("a\"b"), "\"a\"\"b\"");
    assert_eq!(quote_ident("plain"), "\"plain\"");
    assert_eq!(quote_ident(""), "\"\"");
}

#[test]
fn scan_statement_quotes_and_bounds() {
    assert_eq!(
        scan_statement("public", "users"),
        "SELECT * FROM \"public\".\"users\" LIMIT 1000"
    );
    assert_eq!(
        scan_statement("s", "a\"b"),
        "SELECT * FROM \"s\".\"a\"\"b\" LIMIT 1000"
    );
}

#[test]
fn missing_table_short_circuits_before_any_scan() {
    let r = plan_table_scan(false, "public", "ghosts");
    assert_eq!(r, Err(ScanError::TableNotFound));
    assert_eq!(
        table_not_found_message("public", "ghosts"),
        "Table public.ghosts does not exist"
    );
}

#[test]
fn existing_table_yields_the_scan_statement() {
    let r = plan_table_scan(true, "public", "users");
    assert_eq!(r, Ok("SELECT * FROM \"public\".\"users\" LIMIT 1000".to_string()));
}

#[test]
fn existence_check_uses_bound_parameters() {
    let sql = existence_check_sql();
    assert!(sql.contains("$1"));
    assert!(sql.contains("$2"));
    assert_eq!(
        sql,
        "SELECT EXISTS (SELECT FROM information_schema.tables WHERE table_schema = $1 AND table_name = $2)"
    );
}

#[test]
fn scan_rows_returns_bare_row_objects() {
    let raw = RawResultSet { rows: vec![two_column_row(), two_column_row()] };
    let rows = scan_rows(&raw);
    assert_eq!(rows.len(), 2);
    assert_eq!(rows[1].get("id"), Some(&InterchangeValue::Integer(3)));
}

#[test]
fn base_connection_string_cuts_after_last_slash() {
    assert_eq!(
        base_connection_string("postgres://u@host:5432/mydb"),
        "postgres://u@host:5432/"
    );
    assert_eq!(base_connection_string("hostonly"), "hostonly");
    assert_eq!(
        admin_connection_string("postgres://u@host:5432/mydb"),
        "postgres://u@host:5432/postgres"
    );
    assert_eq!(admin_connection_string("hostonly"), "hostonlypostgres");
}

#[test]
fn ddl_statements_are_exact() {
    assert_eq!(create_database_statement("newdb"), "CREATE DATABASE newdb");
    assert_eq!(drop_database_statement("olddb"), "DROP DATABASE olddb");
}
