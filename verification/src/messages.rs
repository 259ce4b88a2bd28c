//! The messages that the recorder's window and its loop receive.

use vstd::prelude::*;

use crate::focus;
use crate::focus::FocusChange;

verus! {

/// The message of a window that is destroyed.
pub const WM_DESTROY: u32 = 0x0002;

/// The message by which the recorder tells itself to start or to stop.
pub const WM_USER: u32 = 0x0400;

/// The parameter of a message that starts a recording.
pub const START_PARAM: usize = 1;

/// The parameter of a message that stops a recording.
pub const STOP_PARAM: usize = 0;

/// What the recorder's loop is told.
#[derive(Clone, Copy, PartialEq, Eq, Structural, Debug)]
pub enum LoopEvent {
    /// The loop begins.
    Begin,
    /// A message has come.
    Message {
        /// The message.
        message: u32,
        /// Its parameter.
        wparam: usize,
    },
    /// No more messages will come.
    Quit,
    /// What was to be done about a message was done.
    Handled,
    /// The recording threads were checked, and none has failed.
    Checked,
}

/// What the recorder's loop does next. Where that fails, the loop fails.
#[derive(Clone, Copy, PartialEq, Eq, Structural, Debug)]
pub enum LoopAction {
    /// Wait for a message.
    GetMessage,
    /// Start a recording.
    Start,
    /// Stop the recording.
    Stop,
    /// Hand the message on to the window that it is for.
    Dispatch,
    /// Check the recording threads.
    CheckThreads,
    /// Leave the loop.
    Return,
}

/// What the recorder's window does about a message.
#[derive(Clone, Copy, PartialEq, Eq, Structural, Debug)]
pub enum WindowAction {
    /// End the loop.
    Quit,
    /// Leave the message to the system.
    Default,
}

/// What the loop does about a message. About a message of its own that is
/// neither to start nor to stop it does nothing, and goes on to the threads.
pub open spec fn message_action(message: u32, wparam: usize) -> LoopAction {
    if message != WM_USER {
        LoopAction::Dispatch
    } else if wparam == START_PARAM {
        LoopAction::Start
    } else if wparam == STOP_PARAM {
        LoopAction::Stop
    } else {
        LoopAction::CheckThreads
    }
}

/// What the loop does next.
pub open spec fn loop_action(event: LoopEvent) -> LoopAction {
    match event {
        LoopEvent::Begin | LoopEvent::Checked => LoopAction::GetMessage,
        LoopEvent::Message { message, wparam } => message_action(message, wparam),
        LoopEvent::Quit => LoopAction::Return,
        LoopEvent::Handled => LoopAction::CheckThreads,
    }
}

/// The parameter of the message that is posted about a change of focus.
pub open spec fn posted_param(change: FocusChange) -> Option<usize> {
    match change {
        FocusChange::Start => Some(START_PARAM),
        FocusChange::Stop => Some(STOP_PARAM),
        _ => None,
    }
}

/// What the recorder's window does about a message.
pub open spec fn window_action(message: u32) -> WindowAction {
    if message == WM_DESTROY {
        WindowAction::Quit
    } else {
        WindowAction::Default
    }
}

/// Runs the loop, step by step. Returns what it does next.
pub fn run(event: LoopEvent) -> (r: LoopAction)
    ensures
        r == loop_action(event),
{
    match event {
        LoopEvent::Begin | LoopEvent::Checked => LoopAction::GetMessage,
        LoopEvent::Quit => LoopAction::Return,
        LoopEvent::Handled => LoopAction::CheckThreads,
        LoopEvent::Message { message, wparam } => {
            if message != WM_USER {
                LoopAction::Dispatch
            } else if wparam == START_PARAM {
                LoopAction::Start
            } else if wparam == STOP_PARAM {
                LoopAction::Stop
            } else {
                LoopAction::CheckThreads
            }
        },
    }
}

/// The parameter of the message that is to be posted about a change of focus, if
/// one is.
pub fn message_for(change: FocusChange) -> (r: Option<usize>)
    ensures
        r == posted_param(change),
{
    match change {
        FocusChange::Start => Some(START_PARAM),
        FocusChange::Stop => Some(STOP_PARAM),
        _ => None,
    }
}

/// What the recorder's window does about a message.
pub fn window_proc(message: u32) -> (r: WindowAction)
    ensures
        r == (if message == WM_DESTROY {
            WindowAction::Quit
        } else {
            WindowAction::Default
        }),
        r == window_action(message),
{
    if message == WM_DESTROY {
        WindowAction::Quit
    } else {
        WindowAction::Default
    }
}

// ---------------------------------------------------------------------------
// Laws
// ---------------------------------------------------------------------------

/// What is posted about a change of focus arrives: the loop starts a recording
/// for a change that starts one, stops it for a change that stops it, and for
/// any other change nothing is posted.
pub proof fn posted_messages_arrive(change: FocusChange)
    ensures
        posted_param(change) matches Some(wparam) ==> message_action(WM_USER, wparam) == (
        if change is Start {
            LoopAction::Start
        } else {
            LoopAction::Stop
        }),
        posted_param(change) is Some <==> change is Start || change is Stop,
{
}

/// After every message the recording threads are checked before another message
/// is waited for.
pub proof fn threads_are_checked_after_every_message(message: u32, wparam: usize)
    ensures
        ({
            let action = loop_action(LoopEvent::Message { message, wparam });
            ||| action is CheckThreads
            ||| {
                &&& action is Start || action is Stop || action is Dispatch
                &&& loop_action(LoopEvent::Handled) is CheckThreads
            }
        }),
{
}

/// The loop is left only when no more messages will come.
pub proof fn loop_ends_only_on_quit(event: LoopEvent)
    requires
        loop_action(event) is Return,
    ensures
        event is Quit,
{
}

/// A recording is started only for the target window, and only where the focus
/// had been still.
pub proof fn only_the_target_starts_a_recording(
    target: Seq<char>,
    last: u128,
    event: u32,
    title: Option<Seq<char>>,
    now: u128,
)
    requires
        posted_param(focus::focus_change(target, last, event, title, now)) matches Some(wparam)
            && message_action(WM_USER, wparam) is Start,
    ensures
        title == Some(target),
        now - last >= focus::DEBOUNCE,
{
}

/// Which messages start a recording, which stop it, and which are handed on.
pub proof fn messages_that_start_and_stop(message: u32, wparam: usize)
    ensures
        message_action(message, wparam) is Start <==> message == 0x0400 && wparam == 1,
        message_action(message, wparam) is Stop <==> message == 0x0400 && wparam == 0,
        message_action(message, wparam) is Dispatch <==> message != 0x0400,
        message_action(message, wparam) is CheckThreads <==> message == 0x0400 && wparam > 1,
{
}

/// What the loop does at each event: it waits for a message at the beginning and
/// after each check, checks once a message is handled, ends when there are no
/// more messages, and acts on each message by what the message says.
pub proof fn what_the_loop_does(event: LoopEvent)
    ensures
        loop_action(event) is GetMessage <==> event is Begin || event is Checked,
        loop_action(event) is Return <==> event is Quit,
        event is Handled ==> loop_action(event) is CheckThreads,
        loop_action(event) is Start <==> event == (LoopEvent::Message {
            message: 0x0400,
            wparam: 1,
        }),
        loop_action(event) is Stop <==> event == (LoopEvent::Message {
            message: 0x0400,
            wparam: 0,
        }),
        loop_action(event) is Dispatch <==> (event matches LoopEvent::Message { message, .. }
            && message != 0x0400),
{
}

/// What is posted about each change of focus.
pub proof fn what_is_posted(change: FocusChange)
    ensures
        posted_param(change) == Some(1usize) <==> change is Start,
        posted_param(change) == Some(0usize) <==> change is Stop,
        posted_param(change) is None <==> !(change is Start) && !(change is Stop),
{
}

/// The loop is ended exactly where the recorder's window is destroyed.
pub proof fn only_the_end_of_the_window_quits(message: u32)
    ensures
        window_action(message) is Quit <==> message == 2,
        window_action(message) is Default <==> message != 2,
{
}

} // verus!
