//! Cell-level type coercion: one shared policy that maps a database wire
//! type name and a raw cell to an interchange primitive.
use vstd::prelude::*;

verus! {

/// Earliest timestamp (seconds since the Unix epoch) that the formatter
/// accepts: 0001-01-01T00:00:00Z.
pub const TS_MIN_SECS: i64 = -62135596800;

/// Latest timestamp (seconds since the Unix epoch) that the formatter
/// accepts: 9999-12-31T23:59:59Z.
pub const TS_MAX_SECS: i64 = 253402300799;

/// A normalized tag for the database's native scalar type names.
#[derive(Debug, PartialEq, Eq, Clone, Copy)]
pub enum WireType {
    /// `text`, `varchar`, `char`, `name`: extracted as UTF-8 text.
    Text,
    /// `int2`, `int4`: extracted as a 32-bit integer, widened to 64 bits.
    SmallInt,
    /// `int8`: extracted as a 64-bit integer.
    BigInt,
    /// `float4`, `float8`: extracted as a 64-bit float, carried as its bits.
    Float,
    /// `bool`.
    Bool,
    /// `timestamp`, `timestamptz`: rendered as RFC 3339 text, assumed UTC.
    Timestamp,
    /// Any other type name: best-effort text extraction.
    Unknown,
}

/// One raw, type-erased cell of a result set, as handed over by the row
/// adapter: either null, or one concrete storage value. Extraction "as T"
/// succeeds exactly when the storage kind matches.
#[derive(Debug, PartialEq, Eq, Clone)]
pub enum RawCell {
    Null,
    Text(String),
    /// Storage of the 16- and 32-bit integer types, already widened to 32 bits.
    SmallInt(i32),
    BigInt(i64),
    /// A 64-bit float, carried as its IEEE 754 bit pattern.
    Float(u64),
    Bool(bool),
    /// Seconds since the Unix epoch plus subsecond nanoseconds, UTC.
    Timestamp(i64, u32),
}

/// The mathematical value of a raw cell.
pub enum CellModel {
    Null,
    Text(Seq<char>),
    SmallInt(i32),
    BigInt(i64),
    Float(u64),
    Bool(bool),
    Timestamp(i64, u32),
}

impl View for RawCell {
    type V = CellModel;

    open spec fn view(&self) -> CellModel {
        match self {
            RawCell::Null => CellModel::Null,
            RawCell::Text(s) => CellModel::Text(s@),
            RawCell::SmallInt(n) => CellModel::SmallInt(*n),
            RawCell::BigInt(n) => CellModel::BigInt(*n),
            RawCell::Float(b) => CellModel::Float(*b),
            RawCell::Bool(b) => CellModel::Bool(*b),
            RawCell::Timestamp(s, n) => CellModel::Timestamp(*s, *n),
        }
    }
}

/// The closed set of interchange primitives every cell is coerced to.
/// Timestamps are rendered as `Text` holding RFC 3339; floats are carried
/// as the bit pattern of a 64-bit IEEE 754 value.
#[derive(Debug, PartialEq, Eq, Clone)]
pub enum InterchangeValue {
    Null,
    Text(String),
    Integer(i64),
    FloatBits(u64),
    Boolean(bool),
}

/// The mathematical value of an interchange primitive.
pub enum ValueModel {
    Null,
    Text(Seq<char>),
    Integer(i64),
    FloatBits(u64),
    Boolean(bool),
}

impl View for InterchangeValue {
    type V = ValueModel;

    open spec fn view(&self) -> ValueModel {
        match self {
            InterchangeValue::Null => ValueModel::Null,
            InterchangeValue::Text(s) => ValueModel::Text(s@),
            InterchangeValue::Integer(n) => ValueModel::Integer(*n),
            InterchangeValue::FloatBits(b) => ValueModel::FloatBits(*b),
            InterchangeValue::Boolean(b) => ValueModel::Boolean(*b),
        }
    }
}

/// Which wire type tag a native scalar type name normalizes to.
pub open spec fn wire_of(s: Seq<char>) -> WireType {
    if s == "text"@ || s == "varchar"@ || s == "char"@ || s == "name"@ {
        WireType::Text
    } else if s == "int2"@ || s == "int4"@ {
        WireType::SmallInt
    } else if s == "int8"@ {
        WireType::BigInt
    } else if s == "float4"@ || s == "float8"@ {
        WireType::Float
    } else if s == "bool"@ {
        WireType::Bool
    } else if s == "timestamp"@ || s == "timestamptz"@ {
        WireType::Timestamp
    } else {
        WireType::Unknown
    }
}

/// Whether a type name belongs to the supported set (everything that does
/// not normalize to `Unknown`).
pub open spec fn supported_name(s: Seq<char>) -> bool {
    !(wire_of(s) is Unknown)
}

/// Whether an epoch timestamp lies in the range the RFC 3339 formatter
/// accepts (years 1 through 9999, subsecond part below one second).
pub open spec fn ts_in_range(secs: i64, nanos: u32) -> bool {
    TS_MIN_SECS <= secs <= TS_MAX_SECS && nanos < 1000000000
}

/// The RFC 3339 rendering (UTC offset `+00:00`) of an epoch timestamp.
pub uninterp spec fn rfc3339_of(secs: i64, nanos: u32) -> Seq<char>;

/// Relies on chrono's `DateTime::<Utc>::from_timestamp` and
/// `DateTime::to_rfc3339`: for seconds within years 1..=9999 and a
/// subsecond part below one second, `from_timestamp` returns `Some`, and
/// the rendering is a function of the two arguments alone.
#[verifier::external_body]
fn rfc3339_utc(secs: i64, nanos: u32) -> (r: String)
    requires
        ts_in_range(secs, nanos),
    ensures
        r@ == rfc3339_of(secs, nanos),
{
    match chrono::DateTime::from_timestamp(secs, nanos) {
        Some(dt) => dt.to_rfc3339(),
        None => String::new(),
    }
}

/// What the shared coercion policy yields for a wire type tag and a cell:
/// null stays null; a matching storage kind is converted to its interchange
/// primitive; a mismatched one degrades to null; an unknown type name
/// degrades to best-effort text.
pub open spec fn spec_map(w: WireType, c: CellModel) -> ValueModel {
    if c is Null {
        ValueModel::Null
    } else {
        match w {
            WireType::Text => match c {
                CellModel::Text(s) => ValueModel::Text(s),
                _ => ValueModel::Null,
            },
            WireType::SmallInt => match c {
                CellModel::SmallInt(n) => ValueModel::Integer(n as i64),
                _ => ValueModel::Null,
            },
            WireType::BigInt => match c {
                CellModel::BigInt(n) => ValueModel::Integer(n),
                _ => ValueModel::Null,
            },
            WireType::Float => match c {
                CellModel::Float(b) => ValueModel::FloatBits(b),
                _ => ValueModel::Null,
            },
            WireType::Bool => match c {
                CellModel::Bool(b) => ValueModel::Boolean(b),
                _ => ValueModel::Null,
            },
            WireType::Timestamp => match c {
                CellModel::Timestamp(s, n) => if ts_in_range(s, n) {
                    ValueModel::Text(rfc3339_of(s, n))
                } else {
                    ValueModel::Null
                },
                _ => ValueModel::Null,
            },
            WireType::Unknown => match c {
                CellModel::Text(s) => ValueModel::Text(s),
                _ => ValueModel::Null,
            },
        }
    }
}

/// Normalizes a native scalar type name to its wire type tag.
pub fn wire_type_from_name(s: &str) -> (r: WireType)
    ensures
        r == wire_of(s@),
{
    if crate::eq_str(s, "text") || crate::eq_str(s, "varchar") || crate::eq_str(s, "char")
        || crate::eq_str(s, "name") {
        WireType::Text
    } else if crate::eq_str(s, "int2") || crate::eq_str(s, "int4") {
        WireType::SmallInt
    } else if crate::eq_str(s, "int8") {
        WireType::BigInt
    } else if crate::eq_str(s, "float4") || crate::eq_str(s, "float8") {
        WireType::Float
    } else if crate::eq_str(s, "bool") {
        WireType::Bool
    } else if crate::eq_str(s, "timestamp") || crate::eq_str(s, "timestamptz") {
        WireType::Timestamp
    } else {
        WireType::Unknown
    }
}

/// Coerces one raw cell under the declared wire type name. Total: every
/// name and every cell yield a value, never an error.
pub fn map_cell(wire_type_name: &str, cell: &RawCell) -> (r: InterchangeValue)
    ensures
        r@ == spec_map(wire_of(wire_type_name@), cell@),
{
    let w = wire_type_from_name(wire_type_name);
    match cell {
        RawCell::Null => InterchangeValue::Null,
        _ => match w {
            WireType::Text => match cell {
                RawCell::Text(s) => InterchangeValue::Text(s.clone()),
                _ => InterchangeValue::Null,
            },
            WireType::SmallInt => match cell {
                RawCell::SmallInt(n) => InterchangeValue::Integer(*n as i64),
                _ => InterchangeValue::Null,
            },
            WireType::BigInt => match cell {
                RawCell::BigInt(n) => InterchangeValue::Integer(*n),
                _ => InterchangeValue::Null,
            },
            WireType::Float => match cell {
                RawCell::Float(b) => InterchangeValue::FloatBits(*b),
                _ => InterchangeValue::Null,
            },
            WireType::Bool => match cell {
                RawCell::Bool(b) => InterchangeValue::Boolean(*b),
                _ => InterchangeValue::Null,
            },
            WireType::Timestamp => match cell {
                RawCell::Timestamp(s, n) => {
                    if TS_MIN_SECS <= *s && *s <= TS_MAX_SECS && *n < 1000000000 {
                        InterchangeValue::Text(rfc3339_utc(*s, *n))
                    } else {
                        InterchangeValue::Null
                    }
                },
                _ => InterchangeValue::Null,
            },
            WireType::Unknown => match cell {
                RawCell::Text(s) => InterchangeValue::Text(s.clone()),
                _ => InterchangeValue::Null,
            },
        },
    }
}

/// Law: for every type name in the supported set, a non-null cell whose
/// storage kind matches maps to exactly that type's interchange tag — an
/// integer type never yields text or a float, and so on. Timestamps within
/// the formatter's range yield text.
pub proof fn lemma_supported_names_exact_tags(name: Seq<char>, c: CellModel)
    ensures
        wire_of(name) is Text && c is Text ==> spec_map(wire_of(name), c) is Text,
        wire_of(name) is SmallInt && c is SmallInt ==> spec_map(wire_of(name), c) is Integer,
        wire_of(name) is BigInt && c is BigInt ==> spec_map(wire_of(name), c) is Integer,
        wire_of(name) is Float && c is Float ==> spec_map(wire_of(name), c) is FloatBits,
        wire_of(name) is Bool && c is Bool ==> spec_map(wire_of(name), c) is Boolean,
        wire_of(name) is Timestamp && (c matches CellModel::Timestamp(s, n) && ts_in_range(
            s,
            n,
        )) ==> spec_map(wire_of(name), c) is Text,
{
}

/// Law: a null cell maps to null, whatever the wire type.
pub proof fn lemma_null_cell_maps_to_null(w: WireType)
    ensures
        spec_map(w, CellModel::Null) is Null,
{
}

/// Law: an unsupported type name degrades to text or null — coercion is
/// total and never rejects a type name.
pub proof fn lemma_unknown_name_degrades(s: Seq<char>, c: CellModel)
    requires
        !supported_name(s),
    ensures
        spec_map(wire_of(s), c) is Text || spec_map(wire_of(s), c) is Null,
{
}

} // verus!
