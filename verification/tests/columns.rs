use arrow::array::{Array, Int32Array, TimestampMicrosecondArray, UInt32Array};
use arrow::datatypes::{DataType, TimeUnit};
use lolcap::columns::{input_batch, input_schema, input_writer_properties};
use parquet::basic::Compression;
use parquet::schema::types::ColumnPath;

#[test]
fn input_schema_has_six_required_columns() {
    let schema = input_schema();
    let found: Vec<(String, DataType, bool)> = schema
        .fields()
        .iter()
        .map(|f| (f.name().clone(), f.data_type().clone(), f.is_nullable()))
        .collect();
    let stamp = DataType::Timestamp(TimeUnit::Microsecond, None);
    assert_eq!(
        found,
        vec![
            ("timestamp_us".to_string(), stamp, false),
            ("event_type".to_string(), DataType::UInt32, false),
            ("code".to_string(), DataType::UInt32, false),
            ("x".to_string(), DataType::Int32, false),
            ("y".to_string(), DataType::Int32, false),
            ("flags".to_string(), DataType::UInt32, false),
        ]
    );
}

#[test]
fn input_batch_holds_its_columns() {
    let batch = input_batch(
        vec![10, 20],
        vec![0, 1],
        vec![65, 7],
        vec![0, -3],
        vec![0, 4],
        vec![128, 2],
    )
    .batch;
    assert_eq!(batch.schema(), input_schema());
    assert_eq!(batch.num_rows(), 2);
    let stamps = batch.column(0).as_any().downcast_ref::<TimestampMicrosecondArray>().unwrap();
    assert_eq!(stamps.values().to_vec(), vec![10i64, 20]);
    let types = batch.column(1).as_any().downcast_ref::<UInt32Array>().unwrap();
    assert_eq!(types.values().to_vec(), vec![0u32, 1]);
    let codes = batch.column(2).as_any().downcast_ref::<UInt32Array>().unwrap();
    assert_eq!(codes.values().to_vec(), vec![65u32, 7]);
    let xs = batch.column(3).as_any().downcast_ref::<Int32Array>().unwrap();
    assert_eq!(xs.values().to_vec(), vec![0i32, -3]);
    let ys = batch.column(4).as_any().downcast_ref::<Int32Array>().unwrap();
    assert_eq!(ys.values().to_vec(), vec![0i32, 4]);
    let flags = batch.column(5).as_any().downcast_ref::<UInt32Array>().unwrap();
    assert_eq!(flags.values().to_vec(), vec![128u32, 2]);
}

#[test]
fn input_batch_may_be_empty() {
    let batch = input_batch(vec![], vec![], vec![], vec![], vec![], vec![]).batch;
    assert_eq!(batch.num_rows(), 0);
    assert_eq!(batch.num_columns(), 6);
}

#[test]
fn input_file_is_compressed_with_snappy() {
    let properties = input_writer_properties();
    for name in ["timestamp_us", "event_type", "code", "x", "y", "flags"] {
        assert_eq!(properties.compression(&ColumnPath::from(name)), Compression::SNAPPY);
    }
}
