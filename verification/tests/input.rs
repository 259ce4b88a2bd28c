use arrow::array::{Array, Int32Array, TimestampMicrosecondArray, UInt32Array};
use lolcap::columns::{input_schema, input_writer_properties, InputBatch};
use lolcap::input::{elapsed_us, InputBuffer, InputLog, BUFFER_SIZE, MOUSE_LIMIT};
use parquet::arrow::ArrowWriter;

type Row = (i64, u32, u32, i32, i32, u32);

fn rows(batch: &InputBatch) -> Vec<Row> {
    let b = &batch.batch;
    let stamps = b.column(0).as_any().downcast_ref::<TimestampMicrosecondArray>().unwrap();
    let u = |i: usize| b.column(i).as_any().downcast_ref::<UInt32Array>().unwrap();
    let s = |i: usize| b.column(i).as_any().downcast_ref::<Int32Array>().unwrap();
    (0..b.num_rows())
        .map(|i| {
            (
                stamps.value(i),
                u(1).value(i),
                u(2).value(i),
                s(3).value(i),
                s(4).value(i),
                u(5).value(i),
            )
        })
        .collect()
}

fn recording(writer_open: bool) -> InputLog {
    let mut log = InputLog::new();
    log.start_time = Some(1_000_000);
    log.writer_open = writer_open;
    log
}

#[test]
fn timestamps_are_whole_microseconds() {
    assert_eq!(elapsed_us(0, 0), 0);
    assert_eq!(elapsed_us(1000, 1999), 0);
    assert_eq!(elapsed_us(1000, 2000), 1);
    assert_eq!(elapsed_us(0, 2_500_999), 2500);
    assert_eq!(elapsed_us(5000, 1000), 0);
    assert_eq!(elapsed_us(0, i64::MAX as u128 * 1000), i64::MAX);
}

#[test]
fn long_timestamps_wrap() {
    assert_eq!(elapsed_us(0, (1u128 << 63) * 1000), i64::MIN);
    assert_eq!(elapsed_us(0, (1u128 << 64) * 1000), 0);
}

#[test]
fn buffer_keeps_rows_in_order() {
    let mut buffer = InputBuffer::new();
    assert_eq!(buffer.len(), 0);
    buffer.push((1, 0, 65, 0, 0, 2));
    buffer.push((2, 1, 7, -3, 4, 0));
    assert_eq!(buffer.len(), 2);
    assert_eq!(rows(&buffer.to_batch()), vec![(1, 0, 65, 0, 0, 2), (2, 1, 7, -3, 4, 0)]);
    assert_eq!(buffer.len(), 2);
    buffer.clear();
    assert_eq!(buffer.len(), 0);
}

#[test]
fn nothing_is_recorded_without_a_recording() {
    let mut log = InputLog::new();
    assert!(!log.wants_event(0));
    assert!(log.keyboard_hook_proc(0, 5, 65, 0).is_none());
    assert!(log.mouse_hook_proc(0, 5, 0, 1, 2, 3).is_none());
    assert_eq!(log.buffer.len(), 0);
}

#[test]
fn negative_codes_are_passed_on() {
    let mut log = recording(true);
    assert!(!log.wants_event(-1));
    assert!(log.wants_event(0));
    assert!(log.keyboard_hook_proc(-1, 5, 65, 0).is_none());
    assert!(log.mouse_hook_proc(-1, 5, 0, 1, 2, 3).is_none());
    assert_eq!(log.buffer.len(), 0);
}

#[test]
fn events_become_rows() {
    let mut log = recording(true);
    assert!(log.keyboard_hook_proc(0, 1_004_000, 65, 128).is_none());
    assert!(log.mouse_hook_proc(0, 1_009_999, 7, -20, 30, 1).is_none());
    assert_eq!(rows(&log.buffer.to_batch()), vec![(4, 0, 65, 0, 0, 128), (9, 1, 7, -20, 30, 1)]);
    assert_eq!(log.start_time, Some(1_000_000));
    assert!(log.writer_open);
}

#[test]
fn keys_fill_the_whole_buffer() {
    let mut log = recording(true);
    for i in 1..BUFFER_SIZE {
        assert!(log.keyboard_hook_proc(0, 1_000_000, i as u32, 0).is_none());
    }
    assert_eq!(log.buffer.len(), 1023);
    let batch = log.keyboard_hook_proc(0, 1_000_000, 1024, 0).unwrap();
    assert_eq!(log.buffer.len(), 0);
    let handed = rows(&batch);
    assert_eq!(handed.len(), 1024);
    for (i, row) in handed.iter().enumerate() {
        assert_eq!(*row, (0, 0, i as u32 + 1, 0, 0, 0));
    }
}

#[test]
fn mouse_hands_out_earlier() {
    let mut log = recording(true);
    for i in 1..MOUSE_LIMIT {
        assert!(log.mouse_hook_proc(0, 1_000_000, i as u32, 0, 0, 0).is_none());
    }
    assert_eq!(log.buffer.len(), 999);
    let batch = log.mouse_hook_proc(0, 1_000_000, 1000, 0, 0, 0).unwrap();
    assert_eq!(rows(&batch).len(), 1000);
    assert_eq!(log.buffer.len(), 0);
}

#[test]
fn a_key_does_not_hand_out_at_the_mouse_limit() {
    let mut log = recording(true);
    for _ in 0..1010 {
        assert!(log.keyboard_hook_proc(0, 1_000_000, 1, 0).is_none());
    }
    let batch = log.mouse_hook_proc(0, 1_000_000, 2, 0, 0, 0).unwrap();
    assert_eq!(rows(&batch).len(), 1011);
}

#[test]
fn without_a_writer_rows_wait() {
    let mut log = recording(false);
    for _ in 0..1500 {
        assert!(log.keyboard_hook_proc(0, 1_000_000, 1, 0).is_none());
    }
    assert_eq!(log.buffer.len(), 1500);
    log.writer_open = true;
    assert_eq!(rows(&log.mouse_hook_proc(0, 1_000_000, 2, 0, 0, 0).unwrap()).len(), 1501);
}

#[test]
fn no_event_is_lost() {
    let mut log = recording(true);
    let mut seen = Vec::new();
    for i in 0..5000u32 {
        let out = if i % 3 == 0 {
            log.keyboard_hook_proc(0, 1_000_000 + i as u128 * 1000, i, 0)
        } else {
            log.mouse_hook_proc(0, 1_000_000 + i as u128 * 1000, i, 0, 0, 0)
        };
        assert!(log.buffer.len() < BUFFER_SIZE);
        if let Some(batch) = out {
            seen.extend(rows(&batch));
        }
    }
    seen.extend(rows(&log.buffer.to_batch()));
    assert_eq!(seen.len(), 5000);
    for (i, row) in seen.iter().enumerate() {
        assert_eq!(row.0, i as i64);
        assert_eq!(row.2, i as u32);
    }
}

#[test]
fn batches_go_into_a_file() {
    let mut log = recording(true);
    for i in 0..3000u32 {
        log.start_time = Some(0);
        let _ = log.keyboard_hook_proc(0, i as u128 * 1000, i, 0);
    }
    let properties = input_writer_properties();
    let mut writer = ArrowWriter::try_new(Vec::new(), input_schema(), Some(properties)).unwrap();
    writer.write(&log.buffer.to_batch().batch).unwrap();
    writer.flush().unwrap();
    let bytes = writer.into_inner().unwrap();
    assert_eq!(&bytes[..4], b"PAR1");
}
