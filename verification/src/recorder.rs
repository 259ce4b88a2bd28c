//! The recorder, and how a recording is started and stopped.
//!
//! Starting and stopping alternate between decisions, which are made here, and
//! work on the operating system, which is not. Each call takes in what was done
//! last and returns what is to be done next. Where that fails the procedure ends
//! with the failure, and the recorder stays as the last call has left it.

use vstd::prelude::*;

use crate::columns;
use crate::columns::InputBatch;
use crate::input;
use crate::input::{InputLog, InputRow, LogView};
use crate::session;
use crate::session::RecorderState;

verus! {

/// A recorder of one window.
pub struct GameRecorder {
    /// What is shared with the focus watcher and the capture thread.
    pub state: RecorderState,
    /// The handle of the keyboard hook, while it is installed.
    pub keyboard_hook: Option<usize>,
    /// The handle of the mouse hook, while it is installed.
    pub mouse_hook: Option<usize>,
    /// The log of input events.
    pub log: InputLog,
}

/// What a recorder holds.
#[verifier::ext_equal]
pub struct RecorderView {
    /// The shared state.
    pub state: RecorderState,
    /// The handle of the keyboard hook.
    pub keyboard_hook: Option<usize>,
    /// The handle of the mouse hook.
    pub mouse_hook: Option<usize>,
    /// The log of input events.
    pub log: LogView,
}

impl View for GameRecorder {
    type V = RecorderView;

    open spec fn view(&self) -> RecorderView {
        RecorderView {
            state: self.state,
            keyboard_hook: self.keyboard_hook,
            mouse_hook: self.mouse_hook,
            log: self.log@,
        }
    }
}

// ---------------------------------------------------------------------------
// Stopping
// ---------------------------------------------------------------------------

/// What was done last to stop a recording.
#[derive(Clone, Copy, PartialEq, Eq, Structural, Debug)]
pub enum StopStep {
    /// Nothing yet.
    Begin,
    /// The keyboard hook was removed.
    KeyboardUnhooked,
    /// The mouse hook was removed.
    MouseUnhooked,
    /// The waiting rows were written.
    RowsWritten,
    /// The written rows were flushed.
    RowsFlushed,
    /// The writer was closed.
    WriterClosed,
}

/// What is to be done next to stop a recording.
pub enum StopAction {
    /// Remove the keyboard hook.
    UnhookKeyboard(usize),
    /// Remove the mouse hook.
    UnhookMouse(usize),
    /// Write the waiting rows.
    WriteRows(InputBatch),
    /// Flush the writer.
    FlushRows,
    /// Close the writer.
    CloseWriter,
    /// Nothing: the recording is stopped.
    Finished,
}

/// What is asked for to stop a recording.
pub enum StopRequest {
    /// To remove the keyboard hook.
    UnhookKeyboard(usize),
    /// To remove the mouse hook.
    UnhookMouse(usize),
    /// To write these rows.
    WriteRows(Seq<InputRow>),
    /// To flush the writer.
    FlushRows,
    /// To close the writer.
    CloseWriter,
    /// Nothing more.
    Finished,
}

impl View for StopAction {
    type V = StopRequest;

    open spec fn view(&self) -> StopRequest {
        match self {
            StopAction::UnhookKeyboard(hook) => StopRequest::UnhookKeyboard(*hook),
            StopAction::UnhookMouse(hook) => StopRequest::UnhookMouse(*hook),
            StopAction::WriteRows(batch) => StopRequest::WriteRows(columns::batch_rows(*batch)),
            StopAction::FlushRows => StopRequest::FlushRows,
            StopAction::CloseWriter => StopRequest::CloseWriter,
            StopAction::Finished => StopRequest::Finished,
        }
    }
}

/// How far a stop has come.
pub open spec fn stop_rank(done: StopStep) -> int {
    match done {
        StopStep::Begin => 0,
        StopStep::KeyboardUnhooked => 1,
        StopStep::MouseUnhooked => 2,
        StopStep::RowsWritten => 3,
        StopStep::RowsFlushed => 4,
        StopStep::WriterClosed => 5,
    }
}

/// What is asked for next: the hooks are removed, the rows that wait are written
/// and flushed, and the writer is closed, as far as they are there.
pub open spec fn stop_request(r: RecorderView, done: StopStep) -> StopRequest {
    if stop_rank(done) < 1 && r.keyboard_hook is Some {
        StopRequest::UnhookKeyboard(r.keyboard_hook->0)
    } else if stop_rank(done) < 2 && r.mouse_hook is Some {
        StopRequest::UnhookMouse(r.mouse_hook->0)
    } else if stop_rank(done) < 3 && r.log.writer_open && r.log.rows.len() > 0 {
        StopRequest::WriteRows(r.log.rows)
    } else if done is RowsWritten {
        StopRequest::FlushRows
    } else if stop_rank(done) < 5 && r.log.writer_open {
        StopRequest::CloseWriter
    } else {
        StopRequest::Finished
    }
}

/// The recorder when it asks for something: it no longer records, a hook that is
/// to be removed and a writer that is to be closed are given up, and once all is
/// done the log is emptied and the recording is over.
pub open spec fn stop_view(r: RecorderView, done: StopStep) -> RecorderView {
    let request = stop_request(r, done);
    RecorderView {
        state: RecorderState {
            is_recording: if done is Begin {
                false
            } else {
                r.state.is_recording
            },
            ..r.state
        },
        keyboard_hook: if request is UnhookKeyboard {
            None
        } else {
            r.keyboard_hook
        },
        mouse_hook: if request is UnhookMouse {
            None
        } else {
            r.mouse_hook
        },
        log: LogView {
            rows: if request is Finished {
                Seq::empty()
            } else {
                r.log.rows
            },
            start_time: if request is Finished {
                None
            } else {
                r.log.start_time
            },
            writer_open: r.log.writer_open && !(request is CloseWriter),
        },
    }
}

impl GameRecorder {
    /// The log is well formed.
    pub open spec fn wf(&self) -> bool {
        self.log.wf()
    }

    /// A recorder that has not recorded anything yet. Its session follows those
    /// that the entries of the output directory belong to.
    pub fn new(
        window_title: &str,
        output_directory: &str,
        entries: &Vec<Option<String>>,
        now: u128,
    ) -> (r: GameRecorder)
        requires
            forall|i: int|
                0 <= i < entries@.len() ==> #[trigger] session::session_of_entry(entries@[i])
                    != Some(usize::MAX),
        ensures
            r.wf(),
            r.state.window_title@ == window_title@,
            r.state.output_directory@ == output_directory@,
            exists|highest: Option<usize>| #[trigger]
                session::is_highest_session(entries@, highest) && r.state.session_id
                    == session::session_after(highest),
            r.state.last_window_change == now,
            !r.state.is_recording,
            !r.state.capture_ready,
            r.keyboard_hook is None,
            r.mouse_hook is None,
            r.log@ == (LogView { rows: Seq::empty(), start_time: None, writer_open: false }),
    {
        let highest: Option<usize> = session::highest_session(entries);
        let session_id: usize = session::starting_session(highest);
        GameRecorder {
            state: RecorderState::new(window_title, output_directory, session_id, now),
            keyboard_hook: None,
            mouse_hook: None,
            log: InputLog::new(),
        }
    }

    /// Stops the recording, step by step. `done` is what was done last.
    pub fn stop_recording(&mut self, done: StopStep) -> (r: StopAction)
        requires
            old(self).wf(),
        ensures
            final(self).wf(),
            final(self)@ == stop_view(old(self)@, done),
            r@ == stop_request(old(self)@, done),
            r matches StopAction::WriteRows(batch) ==> columns::batch_columns(batch)
                == columns::input_columns(),
    {
        if let StopStep::Begin = done {
            self.state.is_recording = false;
            if let Some(hook) = self.keyboard_hook {
                self.keyboard_hook = None;
                return StopAction::UnhookKeyboard(hook);
            }
        }
        if done == StopStep::Begin || done == StopStep::KeyboardUnhooked {
            if let Some(hook) = self.mouse_hook {
                self.mouse_hook = None;
                return StopAction::UnhookMouse(hook);
            }
        }
        match done {
            StopStep::RowsWritten => {
                return StopAction::FlushRows;
            },
            StopStep::RowsFlushed | StopStep::WriterClosed => {},
            _ => {
                if self.log.buffer.len() > 0 && self.log.writer_open {
                    return StopAction::WriteRows(self.log.buffer.to_batch());
                }
            },
        }
        if done != StopStep::WriterClosed && self.log.writer_open {
            self.log.writer_open = false;
            return StopAction::CloseWriter;
        }
        self.log.start_time = None;
        self.log.buffer.clear();
        StopAction::Finished
    }
}

// ---------------------------------------------------------------------------
// Starting
// ---------------------------------------------------------------------------

/// What was done last to start a recording.
#[derive(Clone, Copy, PartialEq, Eq, Structural, Debug)]
pub enum StartStep {
    /// Nothing yet.
    Begin,
    /// The threads that have finished were dropped, or the recording before was
    /// stopped as far as this step.
    Stopping(StopStep),
    /// The file of the input log was created.
    FileCreated,
    /// A writer was opened on the file, at this time.
    WriterOpened(u128),
    /// The keyboard hook was installed, with this handle.
    KeyboardHooked(usize),
    /// The mouse hook was installed, with this handle.
    MouseHooked(usize),
    /// The capture thread was started.
    CaptureStarted,
}

/// What is to be done next to start a recording.
pub enum StartAction {
    /// Drop the recording threads that have finished.
    DropFinishedThreads,
    /// Do this to stop the recording before.
    Stop(StopAction),
    /// Create the file of the input log at this path.
    CreateFile(String),
    /// Open a writer on the file.
    OpenWriter,
    /// Install the keyboard hook.
    HookKeyboard,
    /// Install the mouse hook.
    HookMouse,
    /// Start the capture thread.
    StartCapture,
    /// Nothing: the recording is under way.
    Finished,
}

/// What is asked for to start a recording.
pub enum StartRequest {
    /// To drop the recording threads that have finished.
    DropFinishedThreads,
    /// To do this to stop the recording before.
    Stop(StopRequest),
    /// To create the file of the input log at this path.
    CreateFile(Seq<char>),
    /// To open a writer on the file.
    OpenWriter,
    /// To install the keyboard hook.
    HookKeyboard,
    /// To install the mouse hook.
    HookMouse,
    /// To start the capture thread.
    StartCapture,
    /// Nothing more.
    Finished,
}

impl View for StartAction {
    type V = StartRequest;

    open spec fn view(&self) -> StartRequest {
        match self {
            StartAction::DropFinishedThreads => StartRequest::DropFinishedThreads,
            StartAction::Stop(action) => StartRequest::Stop(action@),
            StartAction::CreateFile(path) => StartRequest::CreateFile(path@),
            StartAction::OpenWriter => StartRequest::OpenWriter,
            StartAction::HookKeyboard => StartRequest::HookKeyboard,
            StartAction::HookMouse => StartRequest::HookMouse,
            StartAction::StartCapture => StartRequest::StartCapture,
            StartAction::Finished => StartRequest::Finished,
        }
    }
}

/// What is asked for next. The recording before is stopped first; once it is,
/// the file of the session's input log is created.
pub open spec fn start_request(r: RecorderView, done: StartStep) -> StartRequest {
    match done {
        StartStep::Begin => StartRequest::DropFinishedThreads,
        StartStep::Stopping(step) => if stop_request(r, step) is Finished {
            StartRequest::CreateFile(
                session::input_path(r.state.output_directory@, r.state.session_id),
            )
        } else {
            StartRequest::Stop(stop_request(r, step))
        },
        StartStep::FileCreated => StartRequest::OpenWriter,
        StartStep::WriterOpened(_) => StartRequest::HookKeyboard,
        StartStep::KeyboardHooked(_) => StartRequest::HookMouse,
        StartStep::MouseHooked(_) => StartRequest::StartCapture,
        StartStep::CaptureStarted => StartRequest::Finished,
    }
}

/// The recorder when it asks for something. It records as soon as a writer is
/// open, and holds the hooks once they are installed.
pub open spec fn start_view(r: RecorderView, done: StartStep) -> RecorderView {
    match done {
        StartStep::Stopping(step) => stop_view(r, step),
        StartStep::WriterOpened(now) => RecorderView {
            state: RecorderState { is_recording: true, ..r.state },
            log: LogView { start_time: Some(now), writer_open: true, ..r.log },
            ..r
        },
        StartStep::KeyboardHooked(hook) => RecorderView { keyboard_hook: Some(hook), ..r },
        StartStep::MouseHooked(hook) => RecorderView { mouse_hook: Some(hook), ..r },
        _ => r,
    }
}

impl GameRecorder {
    /// Starts a recording, step by step. `done` is what was done last.
    pub fn start_recording(&mut self, done: StartStep) -> (r: StartAction)
        requires
            old(self).wf(),
        ensures
            final(self).wf(),
            final(self)@ == start_view(old(self)@, done),
            r@ == start_request(old(self)@, done),
            r matches StartAction::Stop(StopAction::WriteRows(batch)) ==> columns::batch_columns(
                batch,
            ) == columns::input_columns(),
    {
        match done {
            StartStep::Begin => StartAction::DropFinishedThreads,
            StartStep::Stopping(step) => {
                let action: StopAction = self.stop_recording(step);
                match action {
                    StopAction::Finished => StartAction::CreateFile(self.state.get_input_path()),
                    _ => StartAction::Stop(action),
                }
            },
            StartStep::FileCreated => StartAction::OpenWriter,
            StartStep::WriterOpened(now) => {
                self.log.writer_open = true;
                self.log.start_time = Some(now);
                self.state.is_recording = true;
                StartAction::HookKeyboard
            },
            StartStep::KeyboardHooked(hook) => {
                self.keyboard_hook = Some(hook);
                StartAction::HookMouse
            },
            StartStep::MouseHooked(hook) => {
                self.mouse_hook = Some(hook);
                StartAction::StartCapture
            },
            StartStep::CaptureStarted => StartAction::Finished,
        }
    }
}

// ---------------------------------------------------------------------------
// Laws
// ---------------------------------------------------------------------------

/// What was done once a request of a stop has been met.
pub open spec fn stop_done(request: StopRequest) -> StopStep {
    match request {
        StopRequest::UnhookKeyboard(_) => StopStep::KeyboardUnhooked,
        StopRequest::UnhookMouse(_) => StopStep::MouseUnhooked,
        StopRequest::WriteRows(_) => StopStep::RowsWritten,
        StopRequest::FlushRows => StopStep::RowsFlushed,
        _ => StopStep::WriterClosed,
    }
}

/// The recorder when a stop is over, where all that it asks for is done.
pub open spec fn stopped(r: RecorderView, done: StopStep) -> RecorderView
    decreases 5 - stop_rank(done),
{
    let request = stop_request(r, done);
    if request is Finished {
        stop_view(r, done)
    } else {
        stopped(stop_view(r, done), stop_done(request))
    }
}

/// All that a stop asks for, in order, where all of it is done.
pub open spec fn stop_requests(r: RecorderView, done: StopStep) -> Seq<StopRequest>
    decreases 5 - stop_rank(done),
{
    let request = stop_request(r, done);
    if request is Finished {
        Seq::empty()
    } else {
        seq![request] + stop_requests(stop_view(r, done), stop_done(request))
    }
}

/// A recorder at rest: it records nothing and holds nothing of the system.
pub open spec fn at_rest(r: RecorderView) -> RecorderView {
    RecorderView {
        state: RecorderState { is_recording: false, ..r.state },
        keyboard_hook: None,
        mouse_hook: None,
        log: LogView { rows: Seq::empty(), start_time: None, writer_open: false },
    }
}

/// What was done once a request of a start has been met, where the writer is
/// opened at `now` and the hooks get these handles.
pub open spec fn start_done(
    request: StartRequest,
    now: u128,
    keyboard: usize,
    mouse: usize,
) -> StartStep {
    match request {
        StartRequest::DropFinishedThreads => StartStep::Stopping(StopStep::Begin),
        StartRequest::Stop(stop) => StartStep::Stopping(stop_done(stop)),
        StartRequest::CreateFile(_) => StartStep::FileCreated,
        StartRequest::OpenWriter => StartStep::WriterOpened(now),
        StartRequest::HookKeyboard => StartStep::KeyboardHooked(keyboard),
        StartRequest::HookMouse => StartStep::MouseHooked(mouse),
        _ => StartStep::CaptureStarted,
    }
}

/// How much of a start is left.
pub open spec fn start_left(done: StartStep) -> int {
    match done {
        StartStep::Begin => 11,
        StartStep::Stopping(step) => 10 - stop_rank(step),
        StartStep::FileCreated => 4,
        StartStep::WriterOpened(_) => 3,
        StartStep::KeyboardHooked(_) => 2,
        StartStep::MouseHooked(_) => 1,
        StartStep::CaptureStarted => 0,
    }
}

/// The recorder when a start is over, where all that it asks for is done.
pub open spec fn started(
    r: RecorderView,
    done: StartStep,
    now: u128,
    keyboard: usize,
    mouse: usize,
) -> RecorderView
    decreases start_left(done),
{
    let request = start_request(r, done);
    if request is Finished {
        start_view(r, done)
    } else {
        started(
            start_view(r, done),
            start_done(request, now, keyboard, mouse),
            now,
            keyboard,
            mouse,
        )
    }
}

/// All that a start asks for, in order, where all of it is done.
pub open spec fn start_requests(
    r: RecorderView,
    done: StartStep,
    now: u128,
    keyboard: usize,
    mouse: usize,
) -> Seq<StartRequest>
    decreases start_left(done),
{
    let request = start_request(r, done);
    if request is Finished {
        Seq::empty()
    } else {
        seq![request] + start_requests(
            start_view(r, done),
            start_done(request, now, keyboard, mouse),
            now,
            keyboard,
            mouse,
        )
    }
}

/// A request in a sequence, where there is cause for it.
pub open spec fn one_if(cause: bool, request: StopRequest) -> Seq<StopRequest> {
    if cause {
        seq![request]
    } else {
        Seq::empty()
    }
}

/// A stop whose requests are all met leaves the recorder at rest. The target,
/// the output directory and the session stay as they were.
pub proof fn stop_leaves_recorder_at_rest(r: RecorderView)
    ensures
        stopped(r, StopStep::Begin) == at_rest(r),
{
    reveal_with_fuel(stopped, 6);
}

/// A stop removes the hooks that are installed, first that of the keyboard.
/// Where a writer is open it then has the rows that wait written and flushed, if
/// there are any, and closes the writer.
pub proof fn stop_writes_what_waits(r: RecorderView)
    ensures
        stop_requests(r, StopStep::Begin) == one_if(
            r.keyboard_hook is Some,
            StopRequest::UnhookKeyboard(r.keyboard_hook->0),
        ) + one_if(r.mouse_hook is Some, StopRequest::UnhookMouse(r.mouse_hook->0)) + one_if(
            r.log.writer_open && r.log.rows.len() > 0,
            StopRequest::WriteRows(r.log.rows),
        ) + one_if(r.log.writer_open && r.log.rows.len() > 0, StopRequest::FlushRows) + one_if(
            r.log.writer_open,
            StopRequest::CloseWriter,
        ),
{
    reveal_with_fuel(stop_requests, 6);
}

/// A recorder at rest is stopped without asking for anything.
pub proof fn stop_twice_asks_for_nothing(r: RecorderView)
    ensures
        stop_requests(at_rest(r), StopStep::Begin) == Seq::<StopRequest>::empty(),
        stopped(at_rest(r), StopStep::Begin) == at_rest(r),
{
    stop_leaves_recorder_at_rest(at_rest(r));
}

/// The recorder when a stop asks for the `n`-th time.
pub open spec fn stop_interrupted(r: RecorderView, done: StopStep, n: nat) -> RecorderView
    decreases n,
{
    let request = stop_request(r, done);
    if n == 0 || request is Finished {
        stop_view(r, done)
    } else {
        stop_interrupted(stop_view(r, done), stop_done(request), (n - 1) as nat)
    }
}

/// A stop that fails, at whichever of its requests, has dropped no row, and the
/// recorder no longer records.
pub proof fn failed_stop_drops_no_row(r: RecorderView, n: nat)
    requires
        n < stop_requests(r, StopStep::Begin).len(),
    ensures
        stop_interrupted(r, StopStep::Begin, n).log.rows == r.log.rows,
        !stop_interrupted(r, StopStep::Begin, n).state.is_recording,
{
    lemma_interrupted(r, StopStep::Begin, n);
}

/// What a stop that began at any of its steps has kept when it fails.
proof fn lemma_interrupted(r: RecorderView, done: StopStep, n: nat)
    requires
        n < stop_requests(r, done).len(),
        done is Begin || !r.state.is_recording,
    ensures
        stop_interrupted(r, done, n).log.rows == r.log.rows,
        !stop_interrupted(r, done, n).state.is_recording,
    decreases n,
{
    if n > 0 {
        lemma_interrupted(stop_view(r, done), stop_done(stop_request(r, done)), (n - 1) as nat);
    }
}

/// A start whose requests are all met leaves the recorder recording, with its
/// hooks installed, a writer open, and an empty log that begins when the writer
/// was opened. The target, the output directory and the session stay as they
/// were.
pub proof fn start_leaves_recorder_recording(
    r: RecorderView,
    now: u128,
    keyboard: usize,
    mouse: usize,
)
    ensures
        started(r, StartStep::Begin, now, keyboard, mouse) == recording_since(
            r,
            now,
            Some(keyboard),
            Some(mouse),
        ),
{
    stop_leaves_recorder_at_rest(r);
    lemma_started(r, StopStep::Begin, now, keyboard, mouse);
}

/// What a start comes to from any step of the stop that it begins with.
proof fn lemma_started(r: RecorderView, done: StopStep, now: u128, keyboard: usize, mouse: usize)
    ensures
        started(r, StartStep::Stopping(done), now, keyboard, mouse) == (RecorderView {
            state: RecorderState { is_recording: true, ..stopped(r, done).state },
            keyboard_hook: Some(keyboard),
            mouse_hook: Some(mouse),
            log: LogView {
                start_time: Some(now),
                writer_open: true,
                ..stopped(r, done).log
            },
        }),
    decreases 5 - stop_rank(done),
{
    if stop_request(r, done) is Finished {
        reveal_with_fuel(started, 6);
    } else {
        lemma_started(
            stop_view(r, done),
            stop_done(stop_request(r, done)),
            now,
            keyboard,
            mouse,
        );
    }
}

/// A start drops the threads that have finished and does all that a stop does.
/// Then it creates the file of the session's input log, opens a writer on it,
/// installs the hooks, and starts the capture.
pub proof fn start_stops_first(r: RecorderView, now: u128, keyboard: usize, mouse: usize)
    ensures
        start_requests(r, StartStep::Begin, now, keyboard, mouse) == seq![
            StartRequest::DropFinishedThreads,
        ] + stop_requests(r, StopStep::Begin).map_values(|q: StopRequest| StartRequest::Stop(q))
            + seq![
            StartRequest::CreateFile(
                session::input_path(r.state.output_directory@, r.state.session_id),
            ),
            StartRequest::OpenWriter,
            StartRequest::HookKeyboard,
            StartRequest::HookMouse,
            StartRequest::StartCapture,
        ],
{
    lemma_start_requests(r, StopStep::Begin, now, keyboard, mouse);
    assert(start_requests(r, StartStep::Begin, now, keyboard, mouse) == seq![
        StartRequest::DropFinishedThreads,
    ] + start_requests(r, StartStep::Stopping(StopStep::Begin), now, keyboard, mouse));
}

/// What a start asks for from any step of the stop that it begins with.
proof fn lemma_start_requests(
    r: RecorderView,
    done: StopStep,
    now: u128,
    keyboard: usize,
    mouse: usize,
)
    ensures
        start_requests(r, StartStep::Stopping(done), now, keyboard, mouse) == stop_requests(
            r,
            done,
        ).map_values(|q: StopRequest| StartRequest::Stop(q)) + seq![
            StartRequest::CreateFile(
                session::input_path(r.state.output_directory@, r.state.session_id),
            ),
            StartRequest::OpenWriter,
            StartRequest::HookKeyboard,
            StartRequest::HookMouse,
            StartRequest::StartCapture,
        ],
    decreases 5 - stop_rank(done),
{
    let to_start = |q: StopRequest| StartRequest::Stop(q);
    if stop_request(r, done) is Finished {
        reveal_with_fuel(start_requests, 6);
        assert(stop_requests(r, done).map_values(to_start) =~= Seq::<StartRequest>::empty());
    } else {
        let request = stop_request(r, done);
        let next = stop_view(r, done);
        lemma_start_requests(next, stop_done(request), now, keyboard, mouse);
        assert(stop_requests(r, done).map_values(to_start) =~= seq![StartRequest::Stop(request)]
            + stop_requests(next, stop_done(request)).map_values(to_start));
    }
}

/// The recorder when a start asks for the `n`-th time.
pub open spec fn start_interrupted(
    r: RecorderView,
    done: StartStep,
    now: u128,
    keyboard: usize,
    mouse: usize,
    n: nat,
) -> RecorderView
    decreases n,
{
    let request = start_request(r, done);
    if n == 0 || request is Finished {
        start_view(r, done)
    } else {
        start_interrupted(
            start_view(r, done),
            start_done(request, now, keyboard, mouse),
            now,
            keyboard,
            mouse,
            (n - 1) as nat,
        )
    }
}

/// A recorder that records since `now`, with these hooks.
pub open spec fn recording_since(
    r: RecorderView,
    now: u128,
    keyboard: Option<usize>,
    mouse: Option<usize>,
) -> RecorderView {
    RecorderView {
        state: RecorderState { is_recording: true, ..r.state },
        keyboard_hook: keyboard,
        mouse_hook: mouse,
        log: LogView { rows: Seq::empty(), start_time: Some(now), writer_open: true },
    }
}

/// What the recorder is when a start asks for something, and so what it stays
/// where that fails. Before the recording before is stopped, nothing has changed,
/// or what a stop that fails there has changed. Until a writer is open the
/// recorder is at rest. From then on it records, with the hooks that were
/// installed by then.
pub proof fn failed_start_keeps_what_was_done(
    r: RecorderView,
    now: u128,
    keyboard: usize,
    mouse: usize,
    n: nat,
)
    requires
        n < start_requests(r, StartStep::Begin, now, keyboard, mouse).len(),
    ensures
        ({
            let left = start_interrupted(r, StartStep::Begin, now, keyboard, mouse, n);
            match start_requests(r, StartStep::Begin, now, keyboard, mouse)[n as int] {
                StartRequest::DropFinishedThreads => left == r,
                StartRequest::Stop(_) => n > 0 && left == stop_interrupted(
                    r,
                    StopStep::Begin,
                    (n - 1) as nat,
                ),
                StartRequest::CreateFile(_) | StartRequest::OpenWriter => left == at_rest(r),
                StartRequest::HookKeyboard => left == recording_since(r, now, None, None),
                StartRequest::HookMouse => left == recording_since(r, now, Some(keyboard), None),
                StartRequest::StartCapture => left == recording_since(
                    r,
                    now,
                    Some(keyboard),
                    Some(mouse),
                ),
                StartRequest::Finished => false,
            }
        }),
{
    let requests = start_requests(r, StartStep::Begin, now, keyboard, mouse);
    let stopping = StartStep::Stopping(StopStep::Begin);
    assert(requests == seq![StartRequest::DropFinishedThreads] + start_requests(
        r,
        stopping,
        now,
        keyboard,
        mouse,
    ));
    if n > 0 {
        assert(requests[n as int] == start_requests(r, stopping, now, keyboard, mouse)[n - 1]);
        stop_leaves_recorder_at_rest(r);
        lemma_start_interrupted(r, StopStep::Begin, now, keyboard, mouse, (n - 1) as nat);
        assert(start_interrupted(r, StartStep::Begin, now, keyboard, mouse, n)
            == start_interrupted(r, stopping, now, keyboard, mouse, (n - 1) as nat));
    }
}

/// What the recorder is when a start asks for something, from any step of the
/// stop that it begins with.
proof fn lemma_start_interrupted(
    r: RecorderView,
    done: StopStep,
    now: u128,
    keyboard: usize,
    mouse: usize,
    n: nat,
)
    requires
        n < start_requests(r, StartStep::Stopping(done), now, keyboard, mouse).len(),
    ensures
        ({
            let step = StartStep::Stopping(done);
            let left = start_interrupted(r, step, now, keyboard, mouse, n);
            let rest = stopped(r, done);
            let begun = RecorderView {
                state: RecorderState { is_recording: true, ..rest.state },
                log: LogView { start_time: Some(now), writer_open: true, ..rest.log },
                ..rest
            };
            match start_requests(r, step, now, keyboard, mouse)[n as int] {
                StartRequest::Stop(_) => left == stop_interrupted(r, done, n),
                StartRequest::CreateFile(_) | StartRequest::OpenWriter => left == rest,
                StartRequest::HookKeyboard => left == begun,
                StartRequest::HookMouse => left == (RecorderView {
                    keyboard_hook: Some(keyboard),
                    ..begun
                }),
                StartRequest::StartCapture => left == (RecorderView {
                    keyboard_hook: Some(keyboard),
                    mouse_hook: Some(mouse),
                    ..begun
                }),
                _ => false,
            }
        }),
    decreases 5 - stop_rank(done),
{
    let request = stop_request(r, done);
    if request is Finished {
        reveal_with_fuel(start_interrupted, 6);
        reveal_with_fuel(start_requests, 6);
    } else {
        let next = stop_view(r, done);
        assert(start_requests(r, StartStep::Stopping(done), now, keyboard, mouse) == seq![
            StartRequest::Stop(request),
        ] + start_requests(
            next,
            StartStep::Stopping(stop_done(request)),
            now,
            keyboard,
            mouse,
        ));
        if n > 0 {
            lemma_start_interrupted(
                next,
                stop_done(request),
                now,
                keyboard,
                mouse,
                (n - 1) as nat,
            );
        }
    }
}

/// All rows that a sequence of requests has written, in order.
pub open spec fn rows_written(requests: Seq<StopRequest>) -> Seq<InputRow>
    decreases requests.len(),
{
    if requests.len() == 0 {
        Seq::empty()
    } else {
        match requests[0] {
            StopRequest::WriteRows(rows) => rows + rows_written(requests.skip(1)),
            _ => rows_written(requests.skip(1)),
        }
    }
}

/// Every event of a recording reaches the writer, once and in order: what the
/// hooks hand out while the recording lasts, followed by what the stop writes,
/// is what was reported.
pub proof fn every_event_is_written(
    r: RecorderView,
    now: u128,
    keyboard: usize,
    mouse: usize,
    calls: Seq<input::HookCall>,
)
    ensures
        ({
            let begun = started(r, StartStep::Begin, now, keyboard, mouse);
            let ending = RecorderView { log: input::log_after(begun.log, calls), ..begun };
            input::rows_handed_out(begun.log, calls) + rows_written(
                stop_requests(ending, StopStep::Begin),
            ) == input::rows_reported(now, calls)
        }),
{
    let begun = started(r, StartStep::Begin, now, keyboard, mouse);
    let ending = RecorderView { log: input::log_after(begun.log, calls), ..begun };
    start_leaves_recorder_recording(r, now, keyboard, mouse);
    input::every_event_is_kept(begun.log, calls);
    input::hooks_keep_the_recording(begun.log, calls);
    stop_writes_what_waits(ending);
    lemma_rows_written(ending);
    assert(begun.log.rows + input::rows_reported(now, calls) =~= input::rows_reported(now, calls));
}

/// A stop writes the rows that wait, where a writer is open.
proof fn lemma_rows_written(r: RecorderView)
    requires
        r.log.writer_open,
    ensures
        rows_written(stop_requests(r, StopStep::Begin)) == r.log.rows,
{
    stop_writes_what_waits(r);
    let hooks = one_if(
        r.keyboard_hook is Some,
        StopRequest::UnhookKeyboard(r.keyboard_hook->0),
    ) + one_if(r.mouse_hook is Some, StopRequest::UnhookMouse(r.mouse_hook->0));
    let waits = r.log.rows.len() > 0;
    let rest = one_if(waits, StopRequest::WriteRows(r.log.rows)) + one_if(
        waits,
        StopRequest::FlushRows,
    ) + one_if(true, StopRequest::CloseWriter);
    assert(stop_requests(r, StopStep::Begin) =~= hooks + rest);
    lemma_skip_unwritten(hooks, rest);
    let closing = seq![StopRequest::CloseWriter];
    assert(rows_written(closing.skip(1)) =~= Seq::<InputRow>::empty());
    assert(closing[0] is CloseWriter);
    assert(rows_written(closing) =~= Seq::<InputRow>::empty());
    if waits {
        let flushing = seq![StopRequest::FlushRows, StopRequest::CloseWriter];
        assert(flushing.skip(1) =~= closing);
        assert(flushing[0] is FlushRows);
        assert(rows_written(flushing) == rows_written(closing));
        assert(rest.skip(1) =~= flushing);
        assert(rest[0] == StopRequest::WriteRows(r.log.rows));
        assert(rows_written(rest) =~= r.log.rows);
    } else {
        assert(rest =~= closing);
        assert(rows_written(rest) =~= r.log.rows);
    }
}

/// Requests that write nothing add nothing to what is written.
proof fn lemma_skip_unwritten(requests: Seq<StopRequest>, rest: Seq<StopRequest>)
    requires
        forall|i: int|
            0 <= i < requests.len() ==> !(#[trigger] requests[i] is WriteRows),
    ensures
        rows_written(requests + rest) == rows_written(rest),
    decreases requests.len(),
{
    if requests.len() == 0 {
        assert(requests + rest =~= rest);
    } else {
        assert(!(requests[0] is WriteRows));
        lemma_skip_unwritten(requests.skip(1), rest);
        assert((requests + rest).skip(1) =~= requests.skip(1) + rest);
    }
}

/// While a recording lasts its buffer never reaches the length that it was made
/// for.
pub proof fn recording_stays_within_its_buffer(
    r: RecorderView,
    now: u128,
    keyboard: usize,
    mouse: usize,
    calls: Seq<input::HookCall>,
)
    ensures
        input::log_after(
            started(r, StartStep::Begin, now, keyboard, mouse).log,
            calls,
        ).rows.len() < input::BUFFER_SIZE,
{
    start_leaves_recorder_recording(r, now, keyboard, mouse);
    input::buffer_stays_short(started(r, StartStep::Begin, now, keyboard, mouse).log, calls);
}

/// The view of a recorder shows all of it.
pub proof fn recorder_view_shows_all(recorder: GameRecorder)
    ensures
        recorder@.state == recorder.state,
        recorder@.keyboard_hook == recorder.keyboard_hook,
        recorder@.mouse_hook == recorder.mouse_hook,
        recorder@.log.rows == recorder.log.buffer@,
        recorder@.log.start_time == recorder.log.start_time,
        recorder@.log.writer_open == recorder.log.writer_open,
{
}

/// What a stop asks for is what its action says, with the rows of its batch.
pub proof fn stop_action_shows_its_request(action: StopAction)
    ensures
        action matches StopAction::UnhookKeyboard(hook) ==> action@ == StopRequest::UnhookKeyboard(
            hook,
        ),
        action matches StopAction::UnhookMouse(hook) ==> action@ == StopRequest::UnhookMouse(hook),
        action matches StopAction::WriteRows(batch) ==> action@ == StopRequest::WriteRows(
            columns::batch_rows(batch),
        ),
        action is FlushRows <==> action@ is FlushRows,
        action is CloseWriter <==> action@ is CloseWriter,
        action is Finished <==> action@ is Finished,
{
}

/// What a start asks for is what its action says.
pub proof fn start_action_shows_its_request(action: StartAction)
    ensures
        action matches StartAction::Stop(stop) ==> action@ == StartRequest::Stop(stop@),
        action matches StartAction::CreateFile(path) ==> action@ == StartRequest::CreateFile(path@),
        action is DropFinishedThreads <==> action@ is DropFinishedThreads,
        action is OpenWriter <==> action@ is OpenWriter,
        action is HookKeyboard <==> action@ is HookKeyboard,
        action is HookMouse <==> action@ is HookMouse,
        action is StartCapture <==> action@ is StartCapture,
        action is Finished <==> action@ is Finished,
{
}

/// When each thing is asked for to stop a recording. A hook is removed where it is
/// there and is not behind what was done. Then the rows that wait are written where
/// a writer is open, flushed once they are written, and the writer is closed.
pub proof fn when_a_stop_asks(r: RecorderView, done: StopStep)
    ensures
        ({
            let request = stop_request(r, done);
            let keyboard = done is Begin && r.keyboard_hook is Some;
            let mouse = !keyboard && (done is Begin || done is KeyboardUnhooked)
                && r.mouse_hook is Some;
            let unhooked = !keyboard && !mouse && (done is Begin || done is KeyboardUnhooked
                || done is MouseUnhooked);
            &&& request is UnhookKeyboard <==> keyboard
            &&& request is UnhookMouse <==> mouse
            &&& request is WriteRows <==> unhooked && r.log.writer_open && r.log.rows.len() > 0
            &&& request is FlushRows <==> done is RowsWritten
            &&& request is CloseWriter <==> r.log.writer_open && (done is RowsFlushed || (unhooked
                && r.log.rows.len() == 0))
            &&& request matches StopRequest::UnhookKeyboard(hook) ==> r.keyboard_hook == Some(hook)
            &&& request matches StopRequest::UnhookMouse(hook) ==> r.mouse_hook == Some(hook)
            &&& request matches StopRequest::WriteRows(rows) ==> rows == r.log.rows
        }),
{
}

/// What a step of a stop changes: the first ends the recording, a hook is given up
/// when it is to be removed and the writer when it is to be closed, and the last
/// empties the log. All else stays.
pub proof fn what_a_step_of_a_stop_changes(r: RecorderView, done: StopStep)
    ensures
        ({
            let request = stop_request(r, done);
            let after = stop_view(r, done);
            &&& after.state.is_recording <==> r.state.is_recording && !(done is Begin)
            &&& after.state.window_title == r.state.window_title
            &&& after.state.output_directory == r.state.output_directory
            &&& after.state.session_id == r.state.session_id
            &&& after.state.last_window_change == r.state.last_window_change
            &&& after.state.capture_ready == r.state.capture_ready
            &&& request is UnhookKeyboard ==> after.keyboard_hook is None
            &&& !(request is UnhookKeyboard) ==> after.keyboard_hook == r.keyboard_hook
            &&& request is UnhookMouse ==> after.mouse_hook is None
            &&& !(request is UnhookMouse) ==> after.mouse_hook == r.mouse_hook
            &&& request is Finished ==> after.log.rows.len() == 0 && after.log.start_time is None
            &&& !(request is Finished) ==> after.log.rows == r.log.rows && after.log.start_time
                == r.log.start_time
            &&& after.log.writer_open <==> r.log.writer_open && !(request is CloseWriter)
        }),
{
}

/// What is left of a recorder once a stop is over: no hook, no writer, no row and
/// no recording. The rest of its state is what it was.
pub proof fn what_a_stop_leaves(r: RecorderView)
    ensures
        ({
            let after = stopped(r, StopStep::Begin);
            &&& !after.state.is_recording
            &&& after.state.window_title == r.state.window_title
            &&& after.state.output_directory == r.state.output_directory
            &&& after.state.session_id == r.state.session_id
            &&& after.state.last_window_change == r.state.last_window_change
            &&& after.state.capture_ready == r.state.capture_ready
            &&& after.keyboard_hook is None
            &&& after.mouse_hook is None
            &&& after.log.rows.len() == 0
            &&& after.log.start_time is None
            &&& !after.log.writer_open
        }),
{
    stop_leaves_recorder_at_rest(r);
}

/// What a stop asks for, in order: each hook and the writer are given up where
/// they are there, and no rows are written without being flushed.
pub proof fn what_a_stop_asks_for(r: RecorderView)
    ensures
        ({
            let keyboard = if r.keyboard_hook is Some {
                seq![StopRequest::UnhookKeyboard(r.keyboard_hook->0)]
            } else {
                Seq::<StopRequest>::empty()
            };
            let mouse = if r.mouse_hook is Some {
                seq![StopRequest::UnhookMouse(r.mouse_hook->0)]
            } else {
                Seq::<StopRequest>::empty()
            };
            let writer = if !r.log.writer_open {
                Seq::<StopRequest>::empty()
            } else if r.log.rows.len() == 0 {
                seq![StopRequest::CloseWriter]
            } else {
                seq![
                    StopRequest::WriteRows(r.log.rows),
                    StopRequest::FlushRows,
                    StopRequest::CloseWriter,
                ]
            };
            stop_requests(r, StopStep::Begin) == keyboard + mouse + writer
        }),
{
    stop_writes_what_waits(r);
}

/// What a stop that fails has given up by then: what it has asked for, and nothing
/// that it has not come to.
pub proof fn what_a_failed_stop_leaves(r: RecorderView, n: nat)
    requires
        n < stop_requests(r, StopStep::Begin).len(),
    ensures
        ({
            let left = stop_interrupted(r, StopStep::Begin, n);
            let request = stop_requests(r, StopStep::Begin)[n as int];
            &&& !left.state.is_recording
            &&& left.state == (RecorderState { is_recording: false, ..r.state })
            &&& left.log.rows == r.log.rows
            &&& left.log.start_time == r.log.start_time
            &&& left.keyboard_hook is None
            &&& request is UnhookKeyboard ==> left.mouse_hook == r.mouse_hook
            &&& !(request is UnhookKeyboard) ==> left.mouse_hook is None
            &&& left.log.writer_open <==> r.log.writer_open && !(request is CloseWriter)
        }),
{
    reveal_with_fuel(stop_interrupted, 6);
    reveal_with_fuel(stop_requests, 6);
}

/// When each thing is asked for to start a recording.
pub proof fn when_a_start_asks(r: RecorderView, done: StartStep)
    ensures
        ({
            let request = start_request(r, done);
            &&& request is DropFinishedThreads <==> done is Begin
            &&& request is Stop <==> (done matches StartStep::Stopping(step) && !(stop_request(
                r,
                step,
            ) is Finished))
            &&& request is CreateFile <==> (done matches StartStep::Stopping(step) && stop_request(
                r,
                step,
            ) is Finished)
            &&& request matches StartRequest::Stop(stop) ==> (done matches StartStep::Stopping(step)
                && stop == stop_request(r, step))
            &&& request matches StartRequest::CreateFile(path) ==> path == session::input_path(
                r.state.output_directory@,
                r.state.session_id,
            )
            &&& request is OpenWriter <==> done is FileCreated
            &&& request is HookKeyboard <==> done is WriterOpened
            &&& request is HookMouse <==> done is KeyboardHooked
            &&& request is StartCapture <==> done is MouseHooked
            &&& request is Finished <==> done is CaptureStarted
        }),
{
}

/// What a step of a start changes, apart from the steps of the stop that it begins
/// with: the recording begins when the writer was opened, and each hook is held
/// under the handle that it was installed with. All else stays.
pub proof fn what_a_step_of_a_start_changes(r: RecorderView, done: StartStep)
    ensures
        ({
            let after = start_view(r, done);
            &&& done matches StartStep::Stopping(step) ==> after == stop_view(r, step)
            &&& !(done is Stopping) ==> {
                &&& after.state.is_recording <==> r.state.is_recording || done is WriterOpened
                &&& after.state.window_title == r.state.window_title
                &&& after.state.output_directory == r.state.output_directory
                &&& after.state.session_id == r.state.session_id
                &&& after.state.last_window_change == r.state.last_window_change
                &&& after.state.capture_ready == r.state.capture_ready
                &&& after.log.rows == r.log.rows
                &&& after.log.writer_open <==> r.log.writer_open || done is WriterOpened
                &&& done matches StartStep::WriterOpened(now) ==> after.log.start_time == Some(now)
                &&& !(done is WriterOpened) ==> after.log.start_time == r.log.start_time
                &&& done matches StartStep::KeyboardHooked(hook) ==> after.keyboard_hook == Some(
                    hook,
                )
                &&& !(done is KeyboardHooked) ==> after.keyboard_hook == r.keyboard_hook
                &&& done matches StartStep::MouseHooked(hook) ==> after.mouse_hook == Some(hook)
                &&& !(done is MouseHooked) ==> after.mouse_hook == r.mouse_hook
            }
        }),
{
}

/// What a recorder is once a start is over: it records since the writer was
/// opened, with both hooks and no row yet. The rest of its state is what it was.
pub proof fn what_a_start_leaves(r: RecorderView, now: u128, keyboard: usize, mouse: usize)
    ensures
        ({
            let after = started(r, StartStep::Begin, now, keyboard, mouse);
            &&& after.state.is_recording
            &&& after.state.window_title == r.state.window_title
            &&& after.state.output_directory == r.state.output_directory
            &&& after.state.session_id == r.state.session_id
            &&& after.state.last_window_change == r.state.last_window_change
            &&& after.state.capture_ready == r.state.capture_ready
            &&& after.keyboard_hook == Some(keyboard)
            &&& after.mouse_hook == Some(mouse)
            &&& after.log.rows.len() == 0
            &&& after.log.start_time == Some(now)
            &&& after.log.writer_open
        }),
{
    start_leaves_recorder_recording(r, now, keyboard, mouse);
}

} // verus!
