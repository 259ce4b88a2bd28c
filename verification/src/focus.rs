//! Which window has the focus, and what follows from it.

use vstd::prelude::*;

use crate::session::RecorderState;
use crate::text;

verus! {

/// Window events are delivered without loading code into other processes.
pub const WINEVENT_OUTOFCONTEXT: u32 = 0x0000;

/// Events of the recorder's own process are left out.
pub const WINEVENT_SKIPOWNPROCESS: u32 = 0x0002;

/// The flags that the recorder watches window events with.
pub const WINEVENT_FLAGS: u32 = WINEVENT_OUTOFCONTEXT | WINEVENT_SKIPOWNPROCESS;

/// The event of another window coming to the foreground.
pub const EVENT_SYSTEM_FOREGROUND: u32 = 0x0003;

/// How long after a change of focus a change to the target window is ignored,
/// in nanoseconds.
pub const DEBOUNCE: u128 = 500_000_000;

// ---------------------------------------------------------------------------
// Titles
// ---------------------------------------------------------------------------

/// How much room a title of this length needs, if it needs any.
pub open spec fn title_room(length: i32) -> Option<usize> {
    if length == 0 {
        None
    } else {
        Some((length + 1) as usize)
    }
}

/// The size of the buffer that a title of this length is read into: room for a
/// terminator is added. A window without a title needs none.
pub fn title_buffer_len(length: i32) -> (r: Option<usize>)
    requires
        length >= 0,
    ensures
        r == (if length == 0 {
            None::<usize>
        } else {
            Some((length + 1) as usize)
        }),
        r == title_room(length),
{
    if length == 0 {
        None
    } else {
        Some(length as usize + 1)
    }
}

/// The title of which `copied` code units were read into a buffer, if there were
/// any.
pub open spec fn title_read(buffer: Seq<u16>, copied: int) -> Option<Seq<char>> {
    if copied == 0 {
        None
    } else {
        Some(text::utf16_lossy(buffer.take(copied)))
    }
}

/// The title of a window, of which `copied` code units were read into a buffer.
pub fn get_window_title(buffer: &Vec<u16>, copied: i32) -> (r: Option<String>)
    requires
        0 <= copied <= buffer@.len(),
    ensures
        r is None <==> copied == 0,
        r matches Some(title) ==> title@ == text::utf16_lossy(buffer@.take(copied as int)),
        title_text(r) == title_read(buffer@, copied as int),
{
    if copied == 0 {
        return None;
    }
    let units: &[u16] = vstd::slice::slice_subrange(buffer.as_slice(), 0, copied as usize);
    assert(units@ =~= buffer@.take(copied as int));
    Some(text::decode_utf16(units))
}

// ---------------------------------------------------------------------------
// Changes of focus
// ---------------------------------------------------------------------------

/// What a window event means to the recorder.
#[derive(Clone, Copy, PartialEq, Eq, Structural, Debug)]
pub enum FocusChange {
    /// The event is not about the foreground window.
    OtherEvent,
    /// The window in the foreground has no title.
    Untitled,
    /// The window in the foreground is the task switcher.
    TaskSwitcher,
    /// The target window got the focus, and a recording is to start.
    Start,
    /// The target window got the focus too soon after another change.
    Debounced,
    /// Another window got the focus, and a recording is to stop.
    Stop,
}

/// The title of the window that shows while the user switches tasks.
pub open spec fn task_switcher() -> Seq<char> {
    "Task Switching"@
}

/// Whether a change of focus at `now` comes too soon after the last one.
pub open spec fn too_soon(last: u128, now: u128) -> bool {
    (if now > last {
        now - last
    } else {
        0
    }) < DEBOUNCE
}

/// What an event means while `target` is to be recorded and `last` is when the
/// focus last changed.
pub open spec fn focus_change(
    target: Seq<char>,
    last: u128,
    event: u32,
    title: Option<Seq<char>>,
    now: u128,
) -> FocusChange {
    if event != EVENT_SYSTEM_FOREGROUND {
        FocusChange::OtherEvent
    } else {
        match title {
            None => FocusChange::Untitled,
            Some(t) => if t == task_switcher() {
                FocusChange::TaskSwitcher
            } else if t != target {
                FocusChange::Stop
            } else if too_soon(last, now) {
                FocusChange::Debounced
            } else {
                FocusChange::Start
            },
        }
    }
}

/// Whether a change of focus counts for the debouncing of later ones.
pub open spec fn counts(change: FocusChange) -> bool {
    change is Start || change is Debounced || change is Stop
}

/// The session that follows another. After the last there is the first again.
pub open spec fn next_session(session: usize) -> usize {
    if session == usize::MAX {
        0
    } else {
        (session + 1) as usize
    }
}

/// A recorder's state after an event.
pub open spec fn state_after(state: RecorderState, change: FocusChange, now: u128) -> RecorderState {
    RecorderState {
        last_window_change: if counts(change) {
            now
        } else {
            state.last_window_change
        },
        session_id: if change is Start {
            next_session(state.session_id)
        } else {
            state.session_id
        },
        ..state
    }
}

/// The text of a title, if there is one.
pub open spec fn title_text(title: Option<String>) -> Option<Seq<char>> {
    match title {
        Some(t) => Some(t@),
        None => None,
    }
}

/// Whether a title is that of the task switcher.
pub fn is_task_switcher(title: &String) -> (r: bool)
    ensures
        r == (title@ == task_switcher()),
{
    let switcher: String = "Task Switching".to_owned();
    *title == switcher
}

impl RecorderState {
    /// Takes in a window event. `title` is the title of the event's window.
    pub fn win_event_proc(&mut self, event: u32, title: &Option<String>, now: u128) -> (r:
        FocusChange)
        ensures
            r == focus_change(
                old(self).window_title@,
                old(self).last_window_change,
                event,
                title_text(*title),
                now,
            ),
            *final(self) == state_after(*old(self), r, now),
    {
        if event != EVENT_SYSTEM_FOREGROUND {
            return FocusChange::OtherEvent;
        }
        let title: &String = match title {
            Some(title) => title,
            None => {
                return FocusChange::Untitled;
            },
        };
        if is_task_switcher(title) {
            return FocusChange::TaskSwitcher;
        }
        let matches: bool = *title == self.window_title;
        let last: u128 = self.last_window_change;
        let elapsed: u128 = if now > last { now - last } else { 0 };
        self.last_window_change = now;
        if !matches {
            FocusChange::Stop
        } else if elapsed < DEBOUNCE {
            FocusChange::Debounced
        } else {
            self.session_id = self.session_id.wrapping_add(1);
            FocusChange::Start
        }
    }

    /// Whether a window of this title does not stand in the way of a capture.
    pub open spec fn lets_capture(&self, foreground: Option<Seq<char>>) -> bool {
        foreground is None || foreground == Some(self.window_title@)
    }

    /// Whether a capture may begin while a window of this title is in the
    /// foreground. A window without a title does not stand in the way.
    pub fn may_capture(&self, foreground: &Option<String>) -> (r: bool)
        ensures
            r == (title_text(*foreground) matches Some(t) ==> t == self.window_title@),
            r == self.lets_capture(title_text(*foreground)),
    {
        match foreground {
            Some(title) => *title == self.window_title,
            None => true,
        }
    }
}

// ---------------------------------------------------------------------------
// Laws
// ---------------------------------------------------------------------------

/// An event that reaches the recorder.
pub struct WindowEvent {
    /// The event.
    pub event: u32,
    /// The title of its window.
    pub title: Option<Seq<char>>,
    /// When it came.
    pub now: u128,
}

/// What an event means to a recorder in a given state.
pub open spec fn change_of(state: RecorderState, e: WindowEvent) -> FocusChange {
    focus_change(state.window_title@, state.last_window_change, e.event, e.title, e.now)
}

/// A recorder's state after a sequence of events.
pub open spec fn state_after_events(state: RecorderState, events: Seq<WindowEvent>) -> RecorderState
    decreases events.len(),
{
    if events.len() == 0 {
        state
    } else {
        let before = state_after_events(state, events.drop_last());
        state_after(before, change_of(before, events.last()), events.last().now)
    }
}

/// How many of a sequence of events started a recording.
pub open spec fn starts(state: RecorderState, events: Seq<WindowEvent>) -> nat
    decreases events.len(),
{
    if events.len() == 0 {
        0
    } else {
        let before = state_after_events(state, events.drop_last());
        starts(state, events.drop_last()) + (if change_of(before, events.last()) is Start {
            1nat
        } else {
            0nat
        })
    }
}

/// A recording starts only where the target window gets the focus, at least the
/// debounce interval after the focus last changed.
pub proof fn start_needs_target_and_quiet(state: RecorderState, e: WindowEvent)
    requires
        change_of(state, e) is Start,
    ensures
        e.event == EVENT_SYSTEM_FOREGROUND,
        e.title == Some(state.window_title@),
        e.now - state.last_window_change >= DEBOUNCE,
{
}

/// Leaving the target window always stops the recording, however soon after
/// the last change.
pub proof fn stop_is_never_debounced(state: RecorderState, e: WindowEvent)
    requires
        e.event == EVENT_SYSTEM_FOREGROUND,
        e.title matches Some(t) && t != task_switcher() && t != state.window_title@,
    ensures
        change_of(state, e) is Stop,
{
}

/// Once the focus has changed, a change to the target window within the
/// debounce interval does not start a recording, and the interval begins anew.
pub proof fn rapid_changes_are_ignored(
    state: RecorderState,
    first: WindowEvent,
    second: WindowEvent,
)
    requires
        counts(change_of(state, first)),
        first.now <= second.now < first.now + DEBOUNCE,
    ensures
        ({
            let between = state_after(state, change_of(state, first), first.now);
            let change = change_of(between, second);
            &&& !(change is Start)
            &&& counts(change) ==> state_after(between, change, second.now).last_window_change
                == second.now
        }),
{
}

/// Whether an event brings a window other than the target to the foreground.
pub open spec fn is_other_window(target: Seq<char>, e: WindowEvent) -> bool {
    &&& e.event == EVENT_SYSTEM_FOREGROUND
    &&& e.title matches Some(t) && t != task_switcher() && t != target
}

/// Whether an event brings the target to the foreground.
pub open spec fn is_target_window(target: Seq<char>, e: WindowEvent) -> bool {
    e.event == EVENT_SYSTEM_FOREGROUND && e.title == Some(target)
}

/// Whether the event at position `i` is one of a rapid switching: at even
/// positions another window comes to the foreground, and at odd ones the target,
/// within the debounce interval after the event before.
pub open spec fn is_rapid_switch(target: Seq<char>, events: Seq<WindowEvent>, i: int) -> bool {
    if i % 2 == 0 {
        is_other_window(target, events[i])
    } else {
        is_target_window(target, events[i]) && events[i].now < events[i - 1].now + DEBOUNCE
    }
}

/// What the event at position `i` means to a recorder that has taken in those
/// before it.
pub open spec fn change_at(state: RecorderState, events: Seq<WindowEvent>, i: int) -> FocusChange {
    change_of(state_after_events(state, events.take(i)), events[i])
}

/// However long the focus switches rapidly between other windows and the target,
/// every switch away stops the recording, no switch back starts one, and the
/// session stays.
pub proof fn rapid_switching_only_stops(state: RecorderState, events: Seq<WindowEvent>)
    requires
        forall|i: int|
            0 <= i < events.len() ==> #[trigger] is_rapid_switch(state.window_title@, events, i),
    ensures
        forall|i: int|
            0 <= i < events.len() && i % 2 == 0 ==> #[trigger] change_at(state, events, i) is Stop,
        forall|i: int|
            0 <= i < events.len() && i % 2 == 1 ==> !(#[trigger] change_at(
                state,
                events,
                i,
            ) is Start),
        state_after_events(state, events).session_id == state.session_id,
    decreases events.len(),
{
    if events.len() > 0 {
        let target = state.window_title@;
        let shorter = events.drop_last();
        let k = events.len() - 1;
        assert forall|i: int| 0 <= i < shorter.len() implies #[trigger] is_rapid_switch(
            target,
            shorter,
            i,
        ) by {
            assert(is_rapid_switch(target, events, i));
        }
        rapid_switching_only_stops(state, shorter);
        events_keep_the_target(state, shorter);
        assert(is_rapid_switch(target, events, k));
        assert(events.take(k) =~= shorter);
        if k % 2 == 1 {
            assert(is_rapid_switch(target, events, k - 1));
            events_keep_the_target(state, shorter.drop_last());
            assert(state_after_events(state, shorter).last_window_change == events[k - 1].now);
        }
        assert forall|i: int| 0 <= i < k implies #[trigger] change_at(state, events, i)
            == change_at(state, shorter, i) by {
            assert(shorter.take(i) =~= events.take(i));
        }
    }
}

/// The task switcher, windows without a title and other events change nothing.
pub proof fn other_events_change_nothing(state: RecorderState, e: WindowEvent)
    requires
        !counts(change_of(state, e)),
    ensures
        state_after(state, change_of(state, e), e.now) == state,
{
}

/// Events change neither what is recorded nor where to, nor whether a recording
/// is under way.
pub proof fn events_keep_the_target(state: RecorderState, events: Seq<WindowEvent>)
    ensures
        state_after_events(state, events).window_title == state.window_title,
        state_after_events(state, events).output_directory == state.output_directory,
        state_after_events(state, events).is_recording == state.is_recording,
    decreases events.len(),
{
    if events.len() > 0 {
        events_keep_the_target(state, events.drop_last());
    }
}

/// Every start has a session of its own: as long as the numbers last, the
/// session grows by one for each recording that is started and for nothing else.
pub proof fn each_start_is_a_new_session(state: RecorderState, events: Seq<WindowEvent>)
    requires
        state.session_id + starts(state, events) <= usize::MAX,
    ensures
        state_after_events(state, events).session_id == state.session_id + starts(state, events),
    decreases events.len(),
{
    if events.len() > 0 {
        each_start_is_a_new_session(state, events.drop_last());
    }
}

/// A recording starts exactly where the target window comes to the foreground at
/// least half a second after the focus last changed, however long that is.
pub proof fn starts_exactly_on_target_after_quiet(state: RecorderState, e: WindowEvent)
    ensures
        change_of(state, e) is Start <==> {
            &&& e.event == 3
            &&& e.title == Some(state.window_title@)
            &&& state.window_title@ != "Task Switching"@
            &&& e.now >= state.last_window_change + 500_000_000
        },
{
}

/// The target window is passed over exactly where it comes to the foreground
/// sooner than that.
pub proof fn debounces_exactly_within_half_a_second(state: RecorderState, e: WindowEvent)
    ensures
        change_of(state, e) is Debounced <==> {
            &&& e.event == 3
            &&& e.title == Some(state.window_title@)
            &&& state.window_title@ != "Task Switching"@
            &&& e.now < state.last_window_change + 500_000_000
        },
{
}

/// A recording stops exactly where a window of another title, other than the task
/// switcher, comes to the foreground, at whatever time.
pub proof fn stops_exactly_on_other_windows(state: RecorderState, e: WindowEvent)
    ensures
        change_of(state, e) is Stop <==> {
            &&& e.event == 3
            &&& e.title is Some
            &&& e.title != Some(state.window_title@)
            &&& e.title != Some("Task Switching"@)
        },
{
}

/// Which events are none of the recorder's business.
pub proof fn ignores_exactly_what_does_not_count(state: RecorderState, e: WindowEvent)
    ensures
        change_of(state, e) is OtherEvent <==> e.event != 3,
        change_of(state, e) is Untitled <==> e.event == 3 && e.title is None,
        change_of(state, e) is TaskSwitcher <==> e.event == 3 && e.title == Some(
            "Task Switching"@,
        ),
{
}

/// Whether an event starts a recording, stops it or neither depends on how much
/// time has passed, and not on what time it is.
pub proof fn only_the_time_between_matters(state: RecorderState, e: WindowEvent, shift: u128)
    requires
        state.last_window_change + shift <= u128::MAX,
        e.now + shift <= u128::MAX,
    ensures
        change_of(
            RecorderState {
                last_window_change: (state.last_window_change + shift) as u128,
                ..state
            },
            WindowEvent { now: (e.now + shift) as u128, ..e },
        ) == change_of(state, e),
{
}

/// What an event leaves behind: a window with a title that is not the task
/// switcher sets the time of the last change, a start moves on to the next
/// session, and nothing else changes.
pub proof fn what_an_event_changes(state: RecorderState, e: WindowEvent)
    ensures
        ({
            let after = state_after(state, change_of(state, e), e.now);
            let seen = e.event == 3 && e.title is Some && e.title != Some("Task Switching"@);
            let starts = seen && e.title == Some(state.window_title@) && e.now
                >= state.last_window_change + 500_000_000;
            &&& seen ==> after.last_window_change == e.now
            &&& !seen ==> after.last_window_change == state.last_window_change
            &&& starts && state.session_id < usize::MAX ==> after.session_id - state.session_id == 1
            &&& starts && state.session_id == usize::MAX ==> after.session_id == 0
            &&& !starts ==> after.session_id == state.session_id
            &&& after.window_title == state.window_title
            &&& after.output_directory == state.output_directory
            &&& after.is_recording == state.is_recording
            &&& after.capture_ready == state.capture_ready
        }),
{
}

/// A title is taken as it is.
pub proof fn titles_are_taken_as_they_are(title: Option<String>)
    ensures
        title is None <==> title_text(title) is None,
        title matches Some(t) ==> title_text(title) == Some(t@),
{
}

/// The room for a title is one more than its length. Only an empty title needs
/// none.
pub proof fn title_room_holds_a_terminator(length: i32)
    requires
        length >= 0,
    ensures
        title_room(length) is None <==> length == 0,
        title_room(length) matches Some(room) ==> room - 1 == length,
{
}

/// A title that was read into a buffer is read back from it, whatever stands
/// behind it in the buffer.
pub proof fn title_is_read_back(title: Seq<char>, rest: Seq<u16>)
    requires
        title.len() > 0,
    ensures
        title_read(text::utf16(title) + rest, text::utf16(title).len() as int) == Some(title),
        title_read(rest, 0) is None,
{
    let units = text::utf16(title);
    assert((units + rest).take(units.len() as int) =~= units);
    text::decoding_gives_back_the_text(title);
    assert(units.len() > 0);
}

/// What was read is decoded, and what stands behind it in the buffer is not.
pub proof fn only_what_was_read_is_decoded(units: Seq<u16>, rest: Seq<u16>)
    requires
        units.len() > 0,
    ensures
        title_read(units + rest, units.len() as int) == Some(text::utf16_lossy(units)),
{
    assert((units + rest).take(units.len() as int) =~= units);
}

/// A capture is held up exactly where a window of another title is in the
/// foreground.
pub proof fn only_another_window_holds_up_a_capture(
    state: RecorderState,
    foreground: Option<Seq<char>>,
)
    ensures
        !state.lets_capture(foreground) <==> (foreground matches Some(title) && title
            != state.window_title@),
{
}

} // verus!
