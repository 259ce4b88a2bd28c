//! The columns of the input log, and the outside crates that hold them.
//!
//! `arrow` holds the schema of the log and each batch of its rows, and
//! `parquet` the properties of the file that the rows go to. What this library
//! takes on trust of the two crates stands in this module.

use std::sync::Arc;

use arrow::array::{Int32Array, TimestampMicrosecondArray, UInt32Array};
use arrow::datatypes::{DataType, Field, Schema, TimeUnit};
use arrow::error::ArrowError;
use arrow::record_batch::RecordBatch;
use parquet::basic::Compression;
use parquet::file::properties::WriterProperties;
use vstd::prelude::*;

verus! {

/// The type of a column's values.
#[derive(Clone, Copy)]
pub enum ColumnKind {
    /// Microseconds in 64 bits, without a time zone.
    TimestampMicros,
    /// Unsigned integers of 32 bits.
    UInt32,
    /// Signed integers of 32 bits.
    Int32,
}

/// A column of a schema.
pub struct Column {
    /// The column's name.
    pub name: String,
    /// The type of its values.
    pub kind: ColumnKind,
    /// Whether a value may be missing.
    pub nullable: bool,
}

/// How the pages of a file are compressed.
pub enum Codec {
    /// Not at all.
    Uncompressed,
    /// With Snappy.
    Snappy,
}

/// The name, type and nullability of a column.
pub open spec fn column_parts(column: Column) -> (Seq<char>, ColumnKind, bool) {
    (column.name@, column.kind, column.nullable)
}

// ---------------------------------------------------------------------------
// Outside types and the names of what they hold
// ---------------------------------------------------------------------------

/// A schema of `arrow`.
#[verifier::external_type_specification]
#[verifier::external_body]
pub struct ExSchema(arrow::datatypes::Schema);

/// A batch of rows, held as a `RecordBatch` of `arrow`.
#[verifier::external_body]
pub struct InputBatch {
    /// The batch, for the writer that it goes to.
    pub batch: RecordBatch,
}

/// An error of `arrow`.
#[verifier::external_type_specification]
#[verifier::external_body]
pub struct ExArrowError(arrow::error::ArrowError);

/// The properties of a file that `parquet` writes.
#[verifier::external_type_specification]
#[verifier::external_body]
pub struct ExWriterProperties(parquet::file::properties::WriterProperties);

/// The columns of a schema, in order.
pub uninterp spec fn schema_columns(schema: Schema) -> Seq<(Seq<char>, ColumnKind, bool)>;

/// The columns of the schema that a batch was made with, in order.
pub uninterp spec fn batch_columns(batch: InputBatch) -> Seq<(Seq<char>, ColumnKind, bool)>;

/// The rows of a batch of six columns, in order.
pub uninterp spec fn batch_rows(batch: InputBatch) -> Seq<(i64, u32, u32, i32, i32, u32)>;

/// The codec that file properties give to every column.
pub uninterp spec fn properties_codec(properties: WriterProperties) -> Codec;

// ---------------------------------------------------------------------------
// Outside calls
// ---------------------------------------------------------------------------

/// Calls `Schema::new` with a `Field::new` for each column: the schema holds
/// the columns that were given, in their order.
#[verifier::external_body]
fn new_schema(columns: Vec<Column>) -> (schema: Schema)
    ensures
        schema_columns(schema) == columns@.map_values(|c: Column| column_parts(c)),
{
    let fields = columns.into_iter().map(|column| {
        let data_type = match column.kind {
            ColumnKind::TimestampMicros => DataType::Timestamp(TimeUnit::Microsecond, None),
            ColumnKind::UInt32 => DataType::UInt32,
            ColumnKind::Int32 => DataType::Int32,
        };
        Field::new(column.name, data_type, column.nullable)
    });
    Schema::new(fields.collect::<Vec<Field>>())
}

/// Calls `RecordBatch::try_new` with an array made of each vector: for a schema
/// whose columns have the types of the vectors, the batch is made if and only
/// if the vectors are equally long. It holds the schema that was given, and its
/// rows hold the values of the vectors, position by position.
#[verifier::external_body]
fn new_batch(
    schema: Arc<Schema>,
    timestamps: Vec<i64>,
    event_types: Vec<u32>,
    codes: Vec<u32>,
    xs: Vec<i32>,
    ys: Vec<i32>,
    flags: Vec<u32>,
) -> (r: Result<InputBatch, ArrowError>)
    requires
        column_kinds(schema_columns(*schema)) == row_kinds(),
    ensures
        r is Ok <==> timestamps@.len() == event_types@.len() == codes@.len() == xs@.len()
            == ys@.len() == flags@.len(),
        r matches Ok(batch) ==> batch_columns(batch) == schema_columns(*schema),
        r matches Ok(batch) ==> batch_rows(batch) == rows_of(
            timestamps@,
            event_types@,
            codes@,
            xs@,
            ys@,
            flags@,
        ),
{
    RecordBatch::try_new(
        schema,
        vec![
            Arc::new(TimestampMicrosecondArray::from(timestamps)),
            Arc::new(UInt32Array::from(event_types)),
            Arc::new(UInt32Array::from(codes)),
            Arc::new(Int32Array::from(xs)),
            Arc::new(Int32Array::from(ys)),
            Arc::new(UInt32Array::from(flags)),
        ],
    ).map(|batch| InputBatch { batch })
}

/// Builds `WriterProperties` with `set_compression`: the properties give the
/// codec to every column.
#[verifier::external_body]
fn new_properties(codec: Codec) -> (properties: WriterProperties)
    ensures
        properties_codec(properties) == codec,
{
    let compression = match codec {
        Codec::Uncompressed => Compression::UNCOMPRESSED,
        Codec::Snappy => Compression::SNAPPY,
    };
    WriterProperties::builder().set_compression(compression).build()
}

// ---------------------------------------------------------------------------
// The input log
// ---------------------------------------------------------------------------

/// The types of a list of columns.
pub open spec fn column_kinds(columns: Seq<(Seq<char>, ColumnKind, bool)>) -> Seq<ColumnKind> {
    columns.map_values(|c: (Seq<char>, ColumnKind, bool)| c.1)
}

/// The types of the six values of a row.
pub open spec fn row_kinds() -> Seq<ColumnKind> {
    seq![
        ColumnKind::TimestampMicros,
        ColumnKind::UInt32,
        ColumnKind::UInt32,
        ColumnKind::Int32,
        ColumnKind::Int32,
        ColumnKind::UInt32,
    ]
}

/// The rows that six columns of equal length hold.
pub open spec fn rows_of(
    timestamps: Seq<i64>,
    event_types: Seq<u32>,
    codes: Seq<u32>,
    xs: Seq<i32>,
    ys: Seq<i32>,
    flags: Seq<u32>,
) -> Seq<(i64, u32, u32, i32, i32, u32)> {
    Seq::new(
        timestamps.len(),
        |i: int| (timestamps[i], event_types[i], codes[i], xs[i], ys[i], flags[i]),
    )
}

/// The columns of the input log: six columns in which no value is missing.
pub open spec fn input_columns() -> Seq<(Seq<char>, ColumnKind, bool)> {
    seq![
        ("timestamp_us"@, ColumnKind::TimestampMicros, false),
        ("event_type"@, ColumnKind::UInt32, false),
        ("code"@, ColumnKind::UInt32, false),
        ("x"@, ColumnKind::Int32, false),
        ("y"@, ColumnKind::Int32, false),
        ("flags"@, ColumnKind::UInt32, false),
    ]
}

/// A column in which no value is missing.
fn required(name: &str, kind: ColumnKind) -> (column: Column)
    ensures
        column_parts(column) == (name@, kind, false),
{
    Column { name: name.to_owned(), kind, nullable: false }
}

/// The schema of the input log.
pub fn input_schema() -> (schema: Arc<Schema>)
    ensures
        schema_columns(*schema) == input_columns(),
{
    let mut columns: Vec<Column> = Vec::new();
    columns.push(required("timestamp_us", ColumnKind::TimestampMicros));
    columns.push(required("event_type", ColumnKind::UInt32));
    columns.push(required("code", ColumnKind::UInt32));
    columns.push(required("x", ColumnKind::Int32));
    columns.push(required("y", ColumnKind::Int32));
    columns.push(required("flags", ColumnKind::UInt32));
    assert(columns@.map_values(|c: Column| column_parts(c)) =~= input_columns());
    Arc::new(new_schema(columns))
}

/// A batch of rows of the input log, made of its six columns.
pub fn input_batch(
    timestamps: Vec<i64>,
    event_types: Vec<u32>,
    codes: Vec<u32>,
    xs: Vec<i32>,
    ys: Vec<i32>,
    flags: Vec<u32>,
) -> (batch: InputBatch)
    requires
        timestamps@.len() == event_types@.len() == codes@.len() == xs@.len() == ys@.len()
            == flags@.len(),
    ensures
        batch_columns(batch) == input_columns(),
        batch_rows(batch) == rows_of(timestamps@, event_types@, codes@, xs@, ys@, flags@),
{
    let schema: Arc<Schema> = input_schema();
    assert(column_kinds(schema_columns(*schema)) =~= row_kinds());
    new_batch(schema, timestamps, event_types, codes, xs, ys, flags).unwrap()
}

/// The properties of the file that the input log is written to: it is
/// compressed with Snappy.
pub fn input_writer_properties() -> (properties: WriterProperties)
    ensures
        properties_codec(properties) == Codec::Snappy,
{
    new_properties(Codec::Snappy)
}

// ---------------------------------------------------------------------------
// Laws
// ---------------------------------------------------------------------------

/// The rows of six columns hold their values position by position, each column in
/// its own place.
pub proof fn rows_hold_the_columns(
    timestamps: Seq<i64>,
    event_types: Seq<u32>,
    codes: Seq<u32>,
    xs: Seq<i32>,
    ys: Seq<i32>,
    flags: Seq<u32>,
)
    ensures
        ({
            let rows = rows_of(timestamps, event_types, codes, xs, ys, flags);
            &&& rows.len() == timestamps.len()
            &&& forall|i: int|
                0 <= i < timestamps.len() ==> {
                    &&& (#[trigger] rows[i]).0 == timestamps[i]
                    &&& rows[i].1 == event_types[i]
                    &&& rows[i].2 == codes[i]
                    &&& rows[i].3 == xs[i]
                    &&& rows[i].4 == ys[i]
                    &&& rows[i].5 == flags[i]
                }
        }),
{
}

/// A column's parts are its name, its type and its nullability.
pub proof fn parts_of_a_column(column: Column)
    ensures
        column_parts(column).0 == column.name@,
        column_parts(column).1 == column.kind,
        column_parts(column).2 == column.nullable,
{
}

} // verus!
