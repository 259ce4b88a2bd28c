//! The log of keyboard and mouse events.
//!
//! Events are buffered column by column. Once the buffer is long enough, and
//! while a writer is open, it is handed out as a batch and begins anew.

use vstd::prelude::*;

use crate::columns;
use crate::columns::InputBatch;

verus! {

/// How many rows the buffer is made for. A key event that brings it to this
/// length has it handed out.
pub const BUFFER_SIZE: usize = 1024;

/// A mouse event that brings the buffer to this length has it handed out.
pub const MOUSE_LIMIT: usize = 1000;

/// The event type of a key event.
pub const KEYBOARD: u32 = 0;

/// The event type of a mouse event.
pub const MOUSE: u32 = 1;

/// A row of the log: the microseconds since the recording began, the event
/// type, the code, the two coordinates, and the flags.
pub type InputRow = (i64, u32, u32, i32, i32, u32);

/// An event that a hook reports.
#[derive(Clone, Copy)]
pub enum InputEvent {
    /// A key went down or up.
    Key {
        /// The virtual key.
        vk_code: u32,
        /// The flags of the event.
        flags: u32,
    },
    /// The mouse moved, or one of its buttons or its wheel did.
    Mouse {
        /// Which button, or how far the wheel.
        data: u32,
        /// The horizontal position.
        x: i32,
        /// The vertical position.
        y: i32,
        /// The flags of the event.
        flags: u32,
    },
}

/// Rows that wait to be written, column by column.
pub struct InputBuffer {
    timestamps: Vec<i64>,
    event_types: Vec<u32>,
    codes: Vec<u32>,
    x_coords: Vec<i32>,
    y_coords: Vec<i32>,
    flags: Vec<u32>,
}

impl View for InputBuffer {
    type V = Seq<InputRow>;

    closed spec fn view(&self) -> Seq<InputRow> {
        columns::rows_of(
            self.timestamps@,
            self.event_types@,
            self.codes@,
            self.x_coords@,
            self.y_coords@,
            self.flags@,
        )
    }
}

impl InputBuffer {
    /// All columns are equally long.
    pub closed spec fn wf(&self) -> bool {
        self.timestamps@.len() == self.event_types@.len() == self.codes@.len()
            == self.x_coords@.len() == self.y_coords@.len() == self.flags@.len()
    }

    /// An empty buffer.
    pub fn new() -> (buffer: InputBuffer)
        ensures
            buffer.wf(),
            buffer@ == Seq::<InputRow>::empty(),
    {
        InputBuffer {
            timestamps: Vec::with_capacity(BUFFER_SIZE),
            event_types: Vec::with_capacity(BUFFER_SIZE),
            codes: Vec::with_capacity(BUFFER_SIZE),
            x_coords: Vec::with_capacity(BUFFER_SIZE),
            y_coords: Vec::with_capacity(BUFFER_SIZE),
            flags: Vec::with_capacity(BUFFER_SIZE),
        }
    }

    /// How many rows wait.
    pub fn len(&self) -> (n: usize)
        requires
            self.wf(),
        ensures
            n == self@.len(),
    {
        self.timestamps.len()
    }

    /// Adds a row at the end.
    pub fn push(&mut self, row: InputRow)
        requires
            old(self).wf(),
        ensures
            final(self).wf(),
            final(self)@ == old(self)@.push(row),
    {
        self.timestamps.push(row.0);
        self.event_types.push(row.1);
        self.codes.push(row.2);
        self.x_coords.push(row.3);
        self.y_coords.push(row.4);
        self.flags.push(row.5);
        assert(self@ =~= old(self)@.push(row));
    }

    /// Drops all rows.
    pub fn clear(&mut self)
        ensures
            final(self).wf(),
            final(self)@ == Seq::<InputRow>::empty(),
    {
        self.timestamps.clear();
        self.event_types.clear();
        self.codes.clear();
        self.x_coords.clear();
        self.y_coords.clear();
        self.flags.clear();
        assert(self@ =~= Seq::<InputRow>::empty());
    }

    /// A batch of all rows that wait.
    pub fn to_batch(&self) -> (batch: InputBatch)
        requires
            self.wf(),
        ensures
            columns::batch_columns(batch) == columns::input_columns(),
            columns::batch_rows(batch) == self@,
    {
        columns::input_batch(
            self.timestamps.clone(),
            self.event_types.clone(),
            self.codes.clone(),
            self.x_coords.clone(),
            self.y_coords.clone(),
            self.flags.clone(),
        )
    }
}

/// The log of a recording's input events.
pub struct InputLog {
    /// The rows that wait to be written.
    pub buffer: InputBuffer,
    /// When the recording began, in nanoseconds of the monotonic clock. Without
    /// it events are not recorded.
    pub start_time: Option<u128>,
    /// Whether a writer is open that takes batches.
    pub writer_open: bool,
}

/// What an input log holds.
#[verifier::ext_equal]
pub struct LogView {
    /// The rows that wait to be written.
    pub rows: Seq<InputRow>,
    /// When the recording began.
    pub start_time: Option<u128>,
    /// Whether a writer is open.
    pub writer_open: bool,
}

impl View for InputLog {
    type V = LogView;

    open spec fn view(&self) -> LogView {
        LogView {
            rows: self.buffer@,
            start_time: self.start_time,
            writer_open: self.writer_open,
        }
    }
}

/// The whole microseconds from `start` to `now`, both in nanoseconds, as a
/// signed number of 64 bits. Where `now` lies before `start` there are none.
pub open spec fn timestamp_us(start: u128, now: u128) -> i64 {
    ((if now > start {
        now - start
    } else {
        0
    }) / 1000) as i64
}

/// The row of an event.
pub open spec fn event_row(event: InputEvent, timestamp: i64) -> InputRow {
    match event {
        InputEvent::Key { vk_code, flags } => (timestamp, KEYBOARD, vk_code, 0, 0, flags),
        InputEvent::Mouse { data, x, y, flags } => (timestamp, MOUSE, data, x, y, flags),
    }
}

/// The length of the buffer at which an event has it handed out.
pub open spec fn event_limit(event: InputEvent) -> nat {
    match event {
        InputEvent::Key { .. } => BUFFER_SIZE as nat,
        InputEvent::Mouse { .. } => MOUSE_LIMIT as nat,
    }
}

/// Whether a log records an event that a hook reports with this code.
pub open spec fn records(log: LogView, code: i32) -> bool {
    code >= 0 && log.start_time is Some
}

/// What a log holds after a hook reported an event, and the rows that were
/// handed out for it.
pub open spec fn hooked(log: LogView, code: i32, now: u128, event: InputEvent) -> (
    LogView,
    Option<Seq<InputRow>>,
) {
    if records(log, code) {
        let rows = log.rows.push(event_row(event, timestamp_us(log.start_time->0, now)));
        if log.writer_open && rows.len() >= event_limit(event) {
            (LogView { rows: Seq::empty(), ..log }, Some(rows))
        } else {
            (LogView { rows, ..log }, None)
        }
    } else {
        (log, None)
    }
}

/// Whether a batch, or its absence, is what was to be handed out.
pub open spec fn hands_out(batch: Option<InputBatch>, rows: Option<Seq<InputRow>>) -> bool {
    match batch {
        Some(b) => {
            &&& columns::batch_columns(b) == columns::input_columns()
            &&& rows == Some(columns::batch_rows(b))
        },
        None => rows is None,
    }
}

/// The whole microseconds from `start` to `now`, both in nanoseconds.
pub fn elapsed_us(start: u128, now: u128) -> (r: i64)
    ensures
        r == timestamp_us(start, now),
{
    let elapsed: u128 = if now > start { now - start } else { 0 };
    let micros: u128 = elapsed / 1000;
    #[verifier::truncate]
    (micros as i64)
}

impl InputLog {
    /// The buffer's columns are equally long.
    pub open spec fn wf(&self) -> bool {
        self.buffer.wf()
    }

    /// An empty log, without a recording.
    pub fn new() -> (log: InputLog)
        ensures
            log.wf(),
            log@ == (LogView { rows: Seq::empty(), start_time: None, writer_open: false }),
    {
        InputLog { buffer: InputBuffer::new(), start_time: None, writer_open: false }
    }

    /// Whether an event that a hook reports with this code is recorded.
    pub fn wants_event(&self, code: i32) -> (r: bool)
        ensures
            r == records(self@, code),
    {
        code >= 0 && self.start_time.is_some()
    }

    /// Takes in the row of an event. Returns the batch that is to be written
    /// now, if there is one.
    fn record(&mut self, code: i32, now: u128, event: InputEvent) -> (r: Option<InputBatch>)
        requires
            old(self).wf(),
        ensures
            final(self).wf(),
            final(self)@ == hooked(old(self)@, code, now, event).0,
            hands_out(r, hooked(old(self)@, code, now, event).1),
    {
        if code < 0 {
            return None;
        }
        let start: u128 = match self.start_time {
            Some(start) => start,
            None => {
                return None;
            },
        };
        let timestamp: i64 = elapsed_us(start, now);
        let limit: usize = match event {
            InputEvent::Key { vk_code, flags } => {
                self.buffer.push((timestamp, KEYBOARD, vk_code, 0, 0, flags));
                BUFFER_SIZE
            },
            InputEvent::Mouse { data, x, y, flags } => {
                self.buffer.push((timestamp, MOUSE, data, x, y, flags));
                MOUSE_LIMIT
            },
        };
        if self.writer_open && self.buffer.len() >= limit {
            let batch: InputBatch = self.buffer.to_batch();
            self.buffer.clear();
            Some(batch)
        } else {
            None
        }
    }

    /// Takes in what the keyboard hook reports. Returns the batch that is to be
    /// written now, if there is one.
    pub fn keyboard_hook_proc(&mut self, code: i32, now: u128, vk_code: u32, flags: u32) -> (r:
        Option<InputBatch>)
        requires
            old(self).wf(),
        ensures
            final(self).wf(),
            final(self)@ == hooked(
                old(self)@,
                code,
                now,
                InputEvent::Key { vk_code, flags },
            ).0,
            hands_out(
                r,
                hooked(old(self)@, code, now, InputEvent::Key { vk_code, flags }).1,
            ),
    {
        self.record(code, now, InputEvent::Key { vk_code, flags })
    }

    /// Takes in what the mouse hook reports. Returns the batch that is to be
    /// written now, if there is one.
    pub fn mouse_hook_proc(
        &mut self,
        code: i32,
        now: u128,
        data: u32,
        x: i32,
        y: i32,
        flags: u32,
    ) -> (r: Option<InputBatch>)
        requires
            old(self).wf(),
        ensures
            final(self).wf(),
            final(self)@ == hooked(
                old(self)@,
                code,
                now,
                InputEvent::Mouse { data, x, y, flags },
            ).0,
            hands_out(
                r,
                hooked(old(self)@, code, now, InputEvent::Mouse { data, x, y, flags }).1,
            ),
    {
        self.record(code, now, InputEvent::Mouse { data, x, y, flags })
    }
}

// ---------------------------------------------------------------------------
// Laws
// ---------------------------------------------------------------------------

/// What a hook reports: its code, when it did, and the event.
pub struct HookCall {
    /// The code of the report.
    pub code: i32,
    /// When it came.
    pub now: u128,
    /// The event.
    pub event: InputEvent,
}

/// What a log holds after a sequence of reports.
pub open spec fn log_after(log: LogView, calls: Seq<HookCall>) -> LogView
    decreases calls.len(),
{
    if calls.len() == 0 {
        log
    } else {
        let before = log_after(log, calls.drop_last());
        let call = calls.last();
        hooked(before, call.code, call.now, call.event).0
    }
}

/// All rows that a log handed out during a sequence of reports, in order.
pub open spec fn rows_handed_out(log: LogView, calls: Seq<HookCall>) -> Seq<InputRow>
    decreases calls.len(),
{
    if calls.len() == 0 {
        Seq::empty()
    } else {
        let before = log_after(log, calls.drop_last());
        let call = calls.last();
        let earlier = rows_handed_out(log, calls.drop_last());
        match hooked(before, call.code, call.now, call.event).1 {
            Some(rows) => earlier + rows,
            None => earlier,
        }
    }
}

/// The rows of a sequence of reports, in order, for a log that records.
pub open spec fn rows_reported(start: u128, calls: Seq<HookCall>) -> Seq<InputRow>
    decreases calls.len(),
{
    if calls.len() == 0 {
        Seq::empty()
    } else {
        let call = calls.last();
        let earlier = rows_reported(start, calls.drop_last());
        if call.code >= 0 {
            earlier.push(event_row(call.event, timestamp_us(start, call.now)))
        } else {
            earlier
        }
    }
}

/// The hooks change neither when the recording began nor whether a writer is
/// open.
pub proof fn hooks_keep_the_recording(log: LogView, calls: Seq<HookCall>)
    ensures
        log_after(log, calls).start_time == log.start_time,
        log_after(log, calls).writer_open == log.writer_open,
    decreases calls.len(),
{
    if calls.len() > 0 {
        hooks_keep_the_recording(log, calls.drop_last());
    }
}

/// No event is lost, doubled or moved: what was handed out, followed by what
/// still waits, is what waited at first, followed by every event that was
/// reported.
pub proof fn every_event_is_kept(log: LogView, calls: Seq<HookCall>)
    requires
        log.start_time is Some,
    ensures
        rows_handed_out(log, calls) + log_after(log, calls).rows == log.rows + rows_reported(
            log.start_time->0,
            calls,
        ),
    decreases calls.len(),
{
    if calls.len() == 0 {
        assert(rows_handed_out(log, calls) + log.rows =~= log.rows + rows_reported(
            log.start_time->0,
            calls,
        ));
    } else {
        let shorter = calls.drop_last();
        every_event_is_kept(log, shorter);
        hooks_keep_the_recording(log, shorter);
        let start = log.start_time->0;
        let call = calls.last();
        let kept = rows_handed_out(log, shorter) + log_after(log, shorter).rows;
        assert(kept == log.rows + rows_reported(start, shorter));
        if call.code >= 0 {
            let row = event_row(call.event, timestamp_us(start, call.now));
            assert(rows_handed_out(log, calls) + log_after(log, calls).rows =~= kept.push(row));
            assert(log.rows + rows_reported(start, calls) =~= (log.rows + rows_reported(
                start,
                shorter,
            )).push(row));
        }
    }
}

/// Before a recording begins and after it ends nothing is recorded.
pub proof fn nothing_is_recorded_outside_a_recording(log: LogView, calls: Seq<HookCall>)
    requires
        log.start_time is None,
    ensures
        log_after(log, calls) == log,
        rows_handed_out(log, calls) == Seq::<InputRow>::empty(),
    decreases calls.len(),
{
    if calls.len() > 0 {
        nothing_is_recorded_outside_a_recording(log, calls.drop_last());
    }
}

/// While a writer is open, the buffer never reaches the length that it was made
/// for.
pub proof fn buffer_stays_short(log: LogView, calls: Seq<HookCall>)
    requires
        log.writer_open,
        log.rows.len() < BUFFER_SIZE,
    ensures
        log_after(log, calls).rows.len() < BUFFER_SIZE,
    decreases calls.len(),
{
    if calls.len() > 0 {
        buffer_stays_short(log, calls.drop_last());
        hooks_keep_the_recording(log, calls.drop_last());
    }
}

/// Without a writer nothing is handed out, and the buffer grows by every event.
pub proof fn without_writer_rows_wait(log: LogView, calls: Seq<HookCall>)
    requires
        !log.writer_open,
        log.start_time is Some,
    ensures
        rows_handed_out(log, calls) == Seq::<InputRow>::empty(),
        log_after(log, calls).rows == log.rows + rows_reported(log.start_time->0, calls),
    decreases calls.len(),
{
    every_event_is_kept(log, calls);
    if calls.len() > 0 {
        without_writer_rows_wait(log, calls.drop_last());
        hooks_keep_the_recording(log, calls.drop_last());
    }
    assert(rows_handed_out(log, calls) + log_after(log, calls).rows =~= log_after(log, calls).rows);
}

/// A later event has no smaller timestamp, as long as the recording has lasted
/// for less than the microseconds that fit into 63 bits.
pub proof fn timestamps_do_not_decrease(start: u128, earlier: u128, later: u128)
    requires
        earlier <= later,
        later < start + 1000 * (i64::MAX + 1),
    ensures
        0 <= timestamp_us(start, earlier) <= timestamp_us(start, later),
{
}

/// Whether no row has a negative timestamp, and none a smaller one than a row
/// before it.
pub open spec fn in_order_of_time(rows: Seq<InputRow>) -> bool {
    &&& forall|i: int| 0 <= i < rows.len() ==> (#[trigger] rows[i]).0 >= 0
    &&& forall|i: int, j: int|
        0 <= i <= j < rows.len() ==> (#[trigger] rows[i]).0 <= (#[trigger] rows[j]).0
}

/// The rows of events that come in order of time have timestamps that are not
/// negative and do not decrease, as long as the recording has lasted for less
/// than the microseconds that fit into 63 bits.
pub proof fn rows_are_in_order_of_time(start: u128, calls: Seq<HookCall>)
    requires
        forall|i: int, j: int|
            0 <= i <= j < calls.len() ==> (#[trigger] calls[i]).now <= (#[trigger] calls[j]).now,
        forall|i: int|
            0 <= i < calls.len() ==> (#[trigger] calls[i]).now < start + 1000 * (i64::MAX + 1),
    ensures
        in_order_of_time(rows_reported(start, calls)),
{
    if calls.len() > 0 {
        lemma_rows_up_to(start, calls, calls.last().now);
    } else {
        assert(rows_reported(start, calls).len() == 0);
    }
}

/// Rows in order of time have no larger timestamp than a time that none of them
/// comes after.
proof fn lemma_rows_up_to(start: u128, calls: Seq<HookCall>, until: u128)
    requires
        forall|i: int, j: int|
            0 <= i <= j < calls.len() ==> (#[trigger] calls[i]).now <= (#[trigger] calls[j]).now,
        forall|i: int| 0 <= i < calls.len() ==> (#[trigger] calls[i]).now <= until,
        until < start + 1000 * (i64::MAX + 1),
    ensures
        in_order_of_time(rows_reported(start, calls)),
        forall|i: int|
            0 <= i < rows_reported(start, calls).len() ==> (#[trigger] rows_reported(
                start,
                calls,
            )[i]).0 <= timestamp_us(start, until),
    decreases calls.len(),
{
    let rows = rows_reported(start, calls);
    if calls.len() == 0 {
        assert(rows.len() == 0);
    } else {
        let shorter = calls.drop_last();
        let call = calls.last();
        let earlier = rows_reported(start, shorter);
        assert forall|i: int| 0 <= i < shorter.len() implies (#[trigger] shorter[i]).now
            <= call.now by {
            assert(calls[i].now <= calls[calls.len() - 1].now);
        }
        assert(call.now <= until) by {
            assert(calls[calls.len() - 1].now <= until);
        }
        lemma_rows_up_to(start, shorter, call.now);
        timestamps_do_not_decrease(start, call.now, until);
        if call.code >= 0 {
            let row = event_row(call.event, timestamp_us(start, call.now));
            assert(rows == earlier.push(row));
            assert(row.0 == timestamp_us(start, call.now));
        } else {
            assert(rows == earlier);
        }
        assert forall|i: int| 0 <= i < rows.len() implies 0 <= (#[trigger] rows[i]).0
            <= timestamp_us(start, call.now) by {
            if i < earlier.len() {
                assert(rows[i] == earlier[i]);
            }
        }
        assert forall|i: int, j: int| 0 <= i <= j < rows.len() implies (#[trigger] rows[i]).0 <= (
        #[trigger] rows[j]).0 by {
            if j < earlier.len() {
                assert(rows[i] == earlier[i] && rows[j] == earlier[j]);
            }
        }
    }
}

/// A timestamp is the number of whole microseconds that have passed: not more
/// time than that has passed, and less than one microsecond more. Before the
/// start it is zero.
pub proof fn timestamp_counts_whole_microseconds(start: u128, now: u128)
    requires
        now < start + 1000 * (i64::MAX + 1),
    ensures
        now >= start ==> 1000 * timestamp_us(start, now) <= now - start < 1000 * (timestamp_us(
            start,
            now,
        ) + 1),
        now < start ==> timestamp_us(start, now) == 0,
{
}

/// However long a recording lasts, its timestamps are the microseconds that have
/// passed, modulo the numbers of 64 bits.
pub proof fn long_timestamps_are_taken_modulo(start: u128, now: u128, micros: u128)
    requires
        now >= start,
        1000 * micros <= now - start < 1000 * (micros + 1),
    ensures
        (timestamp_us(start, now) - micros) % 0x1_0000_0000_0000_0000 == 0,
{
    assert((now - start) / 1000 == micros);
    let low: u128 = micros % 0x1_0000_0000_0000_0000;
    assert(micros as i64 == low as i64) by (bit_vector)
        requires
            low == micros % 0x1_0000_0000_0000_0000,
    ;
    if low >= 0x8000_0000_0000_0000 {
        assert(low as i64 == low - 0x1_0000_0000_0000_0000) by (bit_vector)
            requires
                0x8000_0000_0000_0000 <= low < 0x1_0000_0000_0000_0000,
        ;
    }
}

/// Timestamps count from the start alone: a recording that begins and an event
/// that comes later by the same time have the same timestamp.
pub proof fn timestamps_count_from_the_start(start: u128, now: u128, shift: u128)
    requires
        start + shift <= u128::MAX,
        now + shift <= u128::MAX,
    ensures
        timestamp_us((start + shift) as u128, (now + shift) as u128) == timestamp_us(start, now),
{
}

/// The row of a key holds its time, the type of a key, its code, no position, and
/// its flags.
pub proof fn row_of_a_key(vk_code: u32, flags: u32, timestamp: i64)
    ensures
        ({
            let row = event_row(InputEvent::Key { vk_code, flags }, timestamp);
            &&& row.0 == timestamp
            &&& row.1 == 0
            &&& row.2 == vk_code
            &&& row.3 == 0
            &&& row.4 == 0
            &&& row.5 == flags
        }),
{
}

/// The row of a mouse event holds its time, the type of a mouse event, its data,
/// its position, and its flags.
pub proof fn row_of_a_mouse_event(data: u32, x: i32, y: i32, flags: u32, timestamp: i64)
    ensures
        ({
            let row = event_row(InputEvent::Mouse { data, x, y, flags }, timestamp);
            &&& row.0 == timestamp
            &&& row.1 == 1
            &&& row.2 == data
            &&& row.3 == x
            &&& row.4 == y
            &&& row.5 == flags
        }),
{
}

/// Nothing of an event is lost in its row: different events, and events of
/// different times, have different rows.
pub proof fn rows_tell_events_apart(a: InputEvent, b: InputEvent, at: i64, bt: i64)
    requires
        event_row(a, at) == event_row(b, bt),
    ensures
        a == b,
        at == bt,
{
}

/// An event of a recording is added, as the last row, to the rows that wait,
/// whether they are then handed out or go on waiting: with the type, the code, the
/// position and the flags that the hook reported, and with the whole microseconds
/// since the start.
pub proof fn event_is_logged_as_reported(log: LogView, code: i32, now: u128, event: InputEvent)
    requires
        code >= 0,
        log.start_time is Some,
    ensures
        ({
            let (after, out) = hooked(log, code, now, event);
            let rows = if out is Some {
                out->0
            } else {
                after.rows
            };
            let row = rows.last();
            &&& rows.len() == log.rows.len() + 1
            &&& rows.drop_last() == log.rows
            &&& log.start_time->0 <= now < log.start_time->0 + 1000 * (i64::MAX + 1) ==> 1000
                * row.0 <= now - log.start_time->0 < 1000 * (row.0 + 1)
            &&& now < log.start_time->0 ==> row.0 == 0
            &&& match event {
                InputEvent::Key { vk_code, flags } => {
                    row.1 == 0 && row.2 == vk_code && row.3 == 0 && row.4 == 0 && row.5 == flags
                },
                InputEvent::Mouse { data, x, y, flags } => {
                    row.1 == 1 && row.2 == data && row.3 == x && row.4 == y && row.5 == flags
                },
            }
        }),
{
    let rows = log.rows.push(event_row(event, timestamp_us(log.start_time->0, now)));
    assert(rows.drop_last() =~= log.rows);
}

/// The rows are handed out exactly where a writer is open and the event is the
/// 1024th row, or is of the mouse and the 1000th row, or comes later than that.
/// None is left waiting then. Otherwise all wait.
pub proof fn rows_are_handed_out_when_enough(log: LogView, code: i32, now: u128, event: InputEvent)
    requires
        code >= 0,
        log.start_time is Some,
    ensures
        ({
            let (after, out) = hooked(log, code, now, event);
            &&& out is Some <==> log.writer_open && (log.rows.len() >= 1023 || (event is Mouse
                && log.rows.len() >= 999))
            &&& out is Some <==> after.rows.len() == 0
            &&& after.start_time == log.start_time
            &&& after.writer_open == log.writer_open
        }),
{
}

/// An event whose code is negative, or that comes outside of a recording, changes
/// nothing and has nothing handed out. Any other event is recorded.
pub proof fn records_exactly_during_a_recording(
    log: LogView,
    code: i32,
    now: u128,
    event: InputEvent,
)
    ensures
        code < 0 || log.start_time is None ==> hooked(log, code, now, event) == (
            log,
            None::<Seq<InputRow>>,
        ),
        records(log, code) <==> code >= 0 && log.start_time is Some,
{
}

/// A batch is what was to be handed out exactly where it has the columns of the
/// log and those very rows, and no batch is where there were none.
pub proof fn batches_hold_what_is_handed_out(batch: InputBatch, rows: Seq<InputRow>)
    ensures
        hands_out(Some(batch), Some(rows)) <==> columns::batch_rows(batch) == rows
            && columns::batch_columns(batch) == columns::input_columns(),
        !hands_out(Some(batch), None),
        !hands_out(None, Some(rows)),
        hands_out(None, None),
{
}

/// The view of a log shows all of it.
pub proof fn log_view_shows_all(log: InputLog)
    ensures
        log@.rows == log.buffer@,
        log@.start_time == log.start_time,
        log@.writer_open == log.writer_open,
{
}

} // verus!
