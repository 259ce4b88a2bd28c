//! The capture of the target window: how it is found, how its video is encoded,
//! and what becomes of each frame.

use vstd::prelude::*;

use crate::error::RecorderError;
use crate::session;
use crate::session::RecorderState;

verus! {

/// The frames of a video per second.
pub const FRAME_RATE: u32 = 24;

/// The bits of a video per second.
pub const BITRATE: u32 = 16384;

/// How often the search for the target window is repeated before it is given
/// up.
pub const MAX_RETRIES: u32 = 10;

/// How long to wait before the search is repeated, in milliseconds.
pub const RETRY_DELAY_MS: u64 = 100;

// ---------------------------------------------------------------------------
// Sizes
// ---------------------------------------------------------------------------

/// The edges of a window on the screen.
#[derive(Clone, Copy)]
pub struct Rect {
    /// The left edge.
    pub left: i32,
    /// The upper edge.
    pub top: i32,
    /// The right edge.
    pub right: i32,
    /// The lower edge.
    pub bottom: i32,
}

/// The distance from one edge to another, modulo 2^32 where it is negative.
pub open spec fn extent(from: i32, to: i32) -> int {
    if from <= to {
        to - from
    } else {
        to - from + 0x1_0000_0000
    }
}

/// Whether the distances between a window's edges are numbers of 32 bits.
pub open spec fn has_size(rect: Rect) -> bool {
    &&& i32::MIN <= rect.right - rect.left <= i32::MAX
    &&& i32::MIN <= rect.bottom - rect.top <= i32::MAX
}

/// Whether a window is large enough to be captured.
pub open spec fn is_usable(rect: Rect) -> bool {
    extent(rect.left, rect.right) > 1 && extent(rect.top, rect.bottom) > 1
}

/// The distance from one edge to another.
fn distance(from: i32, to: i32) -> (d: u32)
    requires
        i32::MIN <= to - from <= i32::MAX,
    ensures
        d == extent(from, to),
{
    let signed: i32 = to - from;
    assert(signed < 0 ==> signed as u32 == signed + 0x1_0000_0000) by (bit_vector);
    #[verifier::truncate]
    (signed as u32)
}

impl Rect {
    /// Whether the window's width and height are numbers of 32 bits.
    pub fn fits(&self) -> (r: bool)
        ensures
            r == has_size(*self),
    {
        let width: i64 = self.right as i64 - self.left as i64;
        let height: i64 = self.bottom as i64 - self.top as i64;
        let low: i64 = i32::MIN as i64;
        let high: i64 = i32::MAX as i64;
        low <= width && width <= high && low <= height && height <= high
    }

    /// The window's width and height.
    pub fn size(&self) -> (r: (u32, u32))
        requires
            has_size(*self),
        ensures
            r.0 == extent(self.left, self.right),
            r.1 == extent(self.top, self.bottom),
            self.left <= self.right ==> self.left + r.0 == self.right,
            self.top <= self.bottom ==> self.top + r.1 == self.bottom,
    {
        (distance(self.left, self.right), distance(self.top, self.bottom))
    }
}

// ---------------------------------------------------------------------------
// The search for the window
// ---------------------------------------------------------------------------

/// The search for a target window of usable size.
pub struct WindowSearch {
    /// How many attempts have failed.
    pub retry_count: u32,
}

/// What follows an attempt to find the target window.
#[derive(Clone, Copy, PartialEq, Eq, Structural, Debug)]
pub enum SearchStep {
    /// The window was found, with this size. It is to be captured.
    Capture {
        /// The window's width.
        width: u32,
        /// The window's height.
        height: u32,
    },
    /// Another attempt is to follow.
    Retry,
    /// The search has failed.
    GiveUp,
}

/// What follows an attempt after `failures` others have failed. An attempt that
/// finds no window, or no edges of it, finds `None`.
pub open spec fn search_step(failures: int, found: Option<Rect>) -> SearchStep {
    match found {
        Some(rect) if is_usable(rect) => SearchStep::Capture {
            width: extent(rect.left, rect.right) as u32,
            height: extent(rect.top, rect.bottom) as u32,
        },
        _ => if failures < MAX_RETRIES {
            SearchStep::Retry
        } else {
            SearchStep::GiveUp
        },
    }
}

impl WindowSearch {
    /// The search before the first attempt.
    pub fn new() -> (search: WindowSearch)
        ensures
            search.retry_count == 0,
    {
        WindowSearch { retry_count: 0 }
    }

    /// Takes in what an attempt has found.
    pub fn attempt(&mut self, found: Option<Rect>) -> (r: SearchStep)
        requires
            old(self).retry_count <= MAX_RETRIES,
            found matches Some(rect) ==> has_size(rect),
        ensures
            r == search_step(old(self).retry_count as int, found),
            final(self).retry_count == old(self).retry_count + (if r is Capture {
                0int
            } else {
                1int
            }),
    {
        if let Some(rect) = found {
            let (width, height): (u32, u32) = rect.size();
            if width > 1 && height > 1 {
                return SearchStep::Capture { width, height };
            }
        }
        self.retry_count += 1;
        if self.retry_count > MAX_RETRIES {
            SearchStep::GiveUp
        } else {
            SearchStep::Retry
        }
    }
}

/// What the capture thread is told before the capture begins.
pub enum SearchEvent {
    /// The thread begins, with this title in the foreground, if there is one.
    Begin(Option<String>),
    /// The target window was looked for, and this was found.
    Looked(Option<Rect>),
    /// The time to wait has passed.
    Waited,
}

/// What the capture thread does before the capture begins.
pub enum SearchAction {
    /// Look for the target window.
    Look,
    /// Wait for this many milliseconds.
    Wait(u64),
    /// Capture the window, which has this width and height.
    Capture(u32, u32),
    /// End, since another window has the focus.
    Leave,
    /// Report this failure, and end.
    Fail(RecorderError),
}

/// What the capture thread does next, while `target` is to be captured and
/// `failures` attempts to find it have failed.
pub open spec fn search_action(
    target: Seq<char>,
    failures: int,
    event: SearchEvent,
) -> SearchAction {
    match event {
        SearchEvent::Begin(Some(title)) if title@ != target => SearchAction::Leave,
        SearchEvent::Looked(found) => match search_step(failures, found) {
            SearchStep::Capture { width, height } => SearchAction::Capture(width, height),
            SearchStep::Retry => SearchAction::Wait(RETRY_DELAY_MS),
            SearchStep::GiveUp => SearchAction::Fail(RecorderError::NoWindowSize),
        },
        _ => SearchAction::Look,
    }
}

/// How many attempts have failed after an event, where `failures` had before it.
pub open spec fn failures_after(target: Seq<char>, failures: int, event: SearchEvent) -> int {
    if event is Looked && !(search_action(target, failures, event) is Capture) {
        failures + 1
    } else {
        failures
    }
}

impl WindowSearch {
    /// Runs the capture thread up to the capture, step by step.
    pub fn capture_thread(&mut self, state: &RecorderState, event: SearchEvent) -> (r: SearchAction)
        requires
            old(self).retry_count <= MAX_RETRIES,
            event matches SearchEvent::Looked(Some(rect)) ==> has_size(rect),
        ensures
            r == search_action(state.window_title@, old(self).retry_count as int, event),
            final(self).retry_count == old(self).retry_count + (if event is Looked
                && !(r is Capture) {
                1int
            } else {
                0int
            }),
            final(self).retry_count == failures_after(
                state.window_title@,
                old(self).retry_count as int,
                event,
            ),
    {
        match event {
            SearchEvent::Begin(foreground) => {
                if state.may_capture(&foreground) {
                    SearchAction::Look
                } else {
                    SearchAction::Leave
                }
            },
            SearchEvent::Looked(found) => match self.attempt(found) {
                SearchStep::Capture { width, height } => SearchAction::Capture(width, height),
                SearchStep::Retry => SearchAction::Wait(RETRY_DELAY_MS),
                SearchStep::GiveUp => SearchAction::Fail(RecorderError::NoWindowSize),
            },
            SearchEvent::Waited => SearchAction::Look,
        }
    }
}

// ---------------------------------------------------------------------------
// The encoder
// ---------------------------------------------------------------------------

/// How a session's video is encoded.
pub struct EncoderSettings {
    /// The width of the video.
    pub width: u32,
    /// The height of the video.
    pub height: u32,
    /// The frames per second.
    pub frame_rate: u32,
    /// The bits per second.
    pub bitrate: u32,
    /// Whether the video is without sound.
    pub audio_disabled: bool,
    /// The path of the video.
    pub path: String,
}

/// How the video of the current session is encoded.
pub fn encoder_settings(rect: Rect, state: &RecorderState) -> (r: EncoderSettings)
    requires
        has_size(rect),
    ensures
        r.width == extent(rect.left, rect.right),
        r.height == extent(rect.top, rect.bottom),
        rect.left <= rect.right ==> rect.left + r.width == rect.right,
        rect.top <= rect.bottom ==> rect.top + r.height == rect.bottom,
        r.frame_rate == FRAME_RATE,
        r.bitrate == BITRATE,
        r.audio_disabled,
        r.path@ == session::output_path(state.output_directory@, state.session_id),
{
    let (width, height): (u32, u32) = rect.size();
    EncoderSettings {
        width,
        height,
        frame_rate: FRAME_RATE,
        bitrate: BITRATE,
        audio_disabled: true,
        path: state.get_output_path(),
    }
}

/// The order of the colours in a captured frame.
#[derive(Clone, Copy, PartialEq, Eq, Structural, Debug)]
pub enum PixelFormat {
    /// Red, green, blue and alpha, in eight bits each.
    Rgba8,
    /// Blue, green, red and alpha, in eight bits each.
    Bgra8,
}

/// How the target window is captured.
pub struct CaptureSettings {
    /// The title of the window.
    pub window_title: String,
    /// Whether the cursor is captured with it.
    pub with_cursor: bool,
    /// Whether a border is drawn around it meanwhile.
    pub with_border: bool,
    /// The format of the frames.
    pub format: PixelFormat,
}

/// How the target window is captured: with the cursor, without a border, and
/// with blue first.
pub fn capture_settings(state: &RecorderState) -> (r: CaptureSettings)
    ensures
        r.window_title@ == state.window_title@,
        r.with_cursor,
        !r.with_border,
        r.format == PixelFormat::Bgra8,
{
    CaptureSettings {
        window_title: state.window_title.clone(),
        with_cursor: true,
        with_border: false,
        format: PixelFormat::Bgra8,
    }
}

/// The capture of a session.
pub struct CaptureHandler {
    /// Whether the encoder is there and takes frames.
    pub encoder_open: bool,
    /// Whether the encoder was given a frame.
    pub frame_sent: bool,
}

/// What happens to a capture.
#[derive(Clone, Copy, PartialEq, Eq, Structural, Debug)]
pub enum CaptureEvent {
    /// A frame arrives, while a recording is under way or not.
    Frame {
        /// Whether a recording is under way.
        is_recording: bool,
    },
    /// The captured window is closed.
    Closed,
}

/// What becomes of a frame.
#[derive(Clone, Copy, PartialEq, Eq, Structural, Debug)]
pub enum FrameAction {
    /// The encoder is to be finished, and the capture stopped.
    FinishAndStop,
    /// The capture is to be stopped, and an encoder that is left is dropped.
    Stop,
    /// The frame is to be encoded.
    Send,
    /// The frame is dropped.
    Skip,
}

/// What becomes of a frame that arrives. Only an encoder that was given a frame
/// is finished.
pub open spec fn frame_action(handler: CaptureHandler, is_recording: bool) -> FrameAction {
    if is_recording {
        if handler.encoder_open {
            FrameAction::Send
        } else {
            FrameAction::Skip
        }
    } else if handler.encoder_open && handler.frame_sent {
        FrameAction::FinishAndStop
    } else {
        FrameAction::Stop
    }
}

/// A capture after an event.
pub open spec fn handler_after(handler: CaptureHandler, event: CaptureEvent) -> CaptureHandler {
    match event {
        CaptureEvent::Frame { is_recording } => CaptureHandler {
            encoder_open: handler.encoder_open && is_recording,
            frame_sent: handler.frame_sent || frame_action(handler, is_recording) is Send,
        },
        CaptureEvent::Closed => CaptureHandler { encoder_open: false, ..handler },
    }
}

impl CaptureHandler {
    /// The capture once the encoder has been made.
    pub fn new() -> (handler: CaptureHandler)
        ensures
            handler.encoder_open,
            !handler.frame_sent,
    {
        CaptureHandler { encoder_open: true, frame_sent: false }
    }

    /// Takes in that a frame has arrived.
    pub fn on_frame_arrived(&mut self, is_recording: bool) -> (r: FrameAction)
        ensures
            r == frame_action(*old(self), is_recording),
            *final(self) == handler_after(*old(self), CaptureEvent::Frame { is_recording }),
    {
        if !is_recording {
            let finish: bool = self.encoder_open && self.frame_sent;
            self.encoder_open = false;
            if finish {
                FrameAction::FinishAndStop
            } else {
                FrameAction::Stop
            }
        } else if self.encoder_open {
            self.frame_sent = true;
            FrameAction::Send
        } else {
            FrameAction::Skip
        }
    }

    /// Takes in that the captured window was closed. Returns whether the encoder
    /// is to be finished.
    pub fn on_closed(&mut self) -> (finish: bool)
        ensures
            finish == old(self).encoder_open,
            finish == is_finished_at(*old(self), CaptureEvent::Closed),
            *final(self) == handler_after(*old(self), CaptureEvent::Closed),
    {
        let open: bool = self.encoder_open;
        self.encoder_open = false;
        open
    }
}

// ---------------------------------------------------------------------------
// Laws
// ---------------------------------------------------------------------------

/// What a search comes to after a sequence of attempts, `failures` others having
/// failed before them.
pub open spec fn search_result(failures: int, found: Seq<Option<Rect>>) -> SearchStep
    decreases found.len(),
{
    if found.len() == 0 {
        SearchStep::Retry
    } else {
        let step = search_step(failures, found[0]);
        if step is Retry {
            search_result(failures + 1, found.skip(1))
        } else {
            step
        }
    }
}

/// Whether an attempt has found a window of usable size.
pub open spec fn finds_window(found: Option<Rect>) -> bool {
    found matches Some(rect) && is_usable(rect)
}

/// The first window of usable size is captured, where it is found at the first
/// attempt or at one of the ten that may follow.
pub proof fn first_usable_window_is_captured(found: Seq<Option<Rect>>, k: int)
    requires
        0 <= k <= MAX_RETRIES,
        k < found.len(),
        forall|i: int| 0 <= i < k ==> !finds_window(#[trigger] found[i]),
        finds_window(found[k]),
    ensures
        search_result(0, found) == (SearchStep::Capture {
            width: extent(found[k]->0.left, found[k]->0.right) as u32,
            height: extent(found[k]->0.top, found[k]->0.bottom) as u32,
        }),
{
    lemma_skip_failures(0, found, k);
    assert(found.skip(k)[0] == found[k]);
}

/// The search is given up exactly where the first attempt and the ten that
/// follow have all failed.
pub proof fn search_is_given_up_after_retries(found: Seq<Option<Rect>>)
    ensures
        search_result(0, found) is GiveUp <==> {
            &&& found.len() > MAX_RETRIES
            &&& forall|i: int| 0 <= i <= MAX_RETRIES ==> !finds_window(#[trigger] found[i])
        },
{
    let limit = MAX_RETRIES as int;
    if exists|i: int| 0 <= i <= limit && i < found.len() && finds_window(#[trigger] found[i]) {
        let k = lemma_first_usable(found, limit);
        first_usable_window_is_captured(found, k);
    } else if found.len() > limit {
        lemma_skip_failures(0, found, limit);
        assert(found.skip(limit)[0] == found[limit]);
    } else {
        lemma_skip_failures(0, found, found.len() as int);
        assert(found.skip(found.len() as int).len() == 0);
    }
}

/// Attempts that fail count, and nothing else comes of them.
proof fn lemma_skip_failures(failures: int, found: Seq<Option<Rect>>, k: int)
    requires
        0 <= k <= found.len(),
        failures + k <= MAX_RETRIES,
        forall|i: int| 0 <= i < k ==> !finds_window(#[trigger] found[i]),
    ensures
        search_result(failures, found) == search_result(failures + k, found.skip(k)),
    decreases k,
{
    if k == 0 {
        assert(found.skip(0) =~= found);
    } else {
        assert(!finds_window(found[0]));
        let rest = found.skip(1);
        assert forall|i: int| 0 <= i < k - 1 implies !finds_window(#[trigger] rest[i]) by {
            assert(rest[i] == found[i + 1]);
        }
        lemma_skip_failures(failures + 1, rest, k - 1);
        assert(rest.skip(k - 1) =~= found.skip(k));
    }
}

/// Where some attempt finds a window, there is a first that does.
proof fn lemma_first_usable(found: Seq<Option<Rect>>, limit: int) -> (k: int)
    requires
        exists|i: int| 0 <= i <= limit && i < found.len() && finds_window(#[trigger] found[i]),
    ensures
        0 <= k <= limit,
        k < found.len(),
        finds_window(found[k]),
        forall|i: int| 0 <= i < k ==> !finds_window(#[trigger] found[i]),
    decreases limit,
{
    let j = choose|i: int| 0 <= i <= limit && i < found.len() && finds_window(#[trigger] found[i]);
    if exists|i: int| 0 <= i <= j - 1 && i < found.len() && finds_window(#[trigger] found[i]) {
        lemma_first_usable(found, j - 1)
    } else {
        j
    }
}

/// A capture after a sequence of events.
pub open spec fn handler_after_all(
    handler: CaptureHandler,
    events: Seq<CaptureEvent>,
) -> CaptureHandler
    decreases events.len(),
{
    if events.len() == 0 {
        handler
    } else {
        handler_after(handler_after_all(handler, events.drop_last()), events.last())
    }
}

/// Whether the encoder is finished at an event.
pub open spec fn is_finished_at(handler: CaptureHandler, event: CaptureEvent) -> bool {
    match event {
        CaptureEvent::Frame { is_recording } => frame_action(
            handler,
            is_recording,
        ) is FinishAndStop,
        CaptureEvent::Closed => handler.encoder_open,
    }
}

/// How often the encoder is finished during a sequence of events.
pub open spec fn finishes(handler: CaptureHandler, events: Seq<CaptureEvent>) -> nat
    decreases events.len(),
{
    if events.len() == 0 {
        0
    } else {
        let before = handler_after_all(handler, events.drop_last());
        finishes(handler, events.drop_last()) + (if is_finished_at(before, events.last()) {
            1nat
        } else {
            0nat
        })
    }
}

/// The encoder is finished at most once, and not while it is open. It is finished
/// where it ceases to be open after it was given a frame, and it is never opened
/// again.
pub proof fn encoder_is_finished_once(handler: CaptureHandler, events: Seq<CaptureEvent>)
    ensures
        finishes(handler, events) <= 1,
        handler_after_all(handler, events).encoder_open ==> handler.encoder_open && finishes(
            handler,
            events,
        ) == 0,
        !handler.encoder_open ==> finishes(handler, events) == 0,
        handler.encoder_open && !handler_after_all(handler, events).encoder_open
            && handler_after_all(handler, events).frame_sent ==> finishes(handler, events) == 1,
    decreases events.len(),
{
    if events.len() > 0 {
        encoder_is_finished_once(handler, events.drop_last());
    }
}

/// Frames of which none was given to the encoder do not have it finished.
pub proof fn unused_encoder_is_not_finished(handler: CaptureHandler, events: Seq<CaptureEvent>)
    requires
        forall|i: int| 0 <= i < events.len() ==> #[trigger] events[i] is Frame,
        !handler_after_all(handler, events).frame_sent,
    ensures
        finishes(handler, events) == 0,
    decreases events.len(),
{
    if events.len() > 0 {
        assert(events.last() is Frame);
        unused_encoder_is_not_finished(handler, events.drop_last());
    }
}

/// Once the encoder has been finished no frame is sent to it.
pub proof fn no_frame_after_finish(
    handler: CaptureHandler,
    events: Seq<CaptureEvent>,
    is_recording: bool,
)
    requires
        finishes(handler, events) > 0,
    ensures
        !(frame_action(handler_after_all(handler, events), is_recording) is Send),
{
    encoder_is_finished_once(handler, events);
}

/// From one edge to another that does not lie before it, the distance is their
/// difference.
pub proof fn distance_is_the_difference(from: i32, to: i32)
    requires
        from <= to,
    ensures
        extent(from, to) == to - from,
{
}

/// Every distance is a number of 32 bits, and differs from the difference of the
/// edges by a multiple of 2^32.
pub proof fn distance_is_taken_modulo(from: i32, to: i32)
    ensures
        0 <= extent(from, to) < 0x1_0000_0000,
        (extent(from, to) - (to - from)) % 0x1_0000_0000 == 0,
{
}

/// A window has the same width and height wherever on the screen it stands.
pub proof fn distance_does_not_depend_on_the_place(from: i32, to: i32, shift: i32)
    requires
        i32::MIN <= from + shift <= i32::MAX,
        i32::MIN <= to + shift <= i32::MAX,
    ensures
        extent((from + shift) as i32, (to + shift) as i32) == extent(from, to),
{
}

/// The distance from the edge of the screen is the position itself.
pub proof fn distance_from_zero(to: i32)
    requires
        to >= 0,
    ensures
        extent(0, to) == to,
{
}

/// Distances that lie end to end add up.
pub proof fn distances_add_up(from: i32, between: i32, to: i32)
    requires
        from <= between <= to,
    ensures
        extent(from, between) + extent(between, to) == extent(from, to),
{
}

/// A window is too small exactly where it is zero or one wide, or zero or one
/// high.
pub proof fn windows_of_one_pixel_are_not_usable(rect: Rect)
    requires
        has_size(rect),
    ensures
        !is_usable(rect) <==> {
            ||| rect.right == rect.left
            ||| rect.right == rect.left + 1
            ||| rect.bottom == rect.top
            ||| rect.bottom == rect.top + 1
        },
{
}

/// A window is usable exactly where its width and its height, taken modulo 2^32,
/// are more than one.
pub proof fn usable_windows_are_wide_and_high(rect: Rect)
    ensures
        is_usable(rect) <==> (rect.right - rect.left) % 0x1_0000_0000 > 1 && (rect.bottom
            - rect.top) % 0x1_0000_0000 > 1,
{
}

/// A window has a size exactly where its right edge lies a number of 32 bits from
/// its left one, and its lower edge one from its upper one.
pub proof fn sizes_are_numbers_of_32_bits(rect: Rect, width: i32, height: i32)
    ensures
        rect.left + width == rect.right && rect.top + height == rect.bottom ==> has_size(rect),
        has_size(rect) ==> rect.left + ((rect.right - rect.left) as i32) == rect.right && rect.top
            + ((rect.bottom - rect.top) as i32) == rect.bottom,
{
}

/// At every attempt, the last one too, a window with a positive width and height
/// of more than one is captured in that width and height.
pub proof fn usable_window_is_captured_at_every_attempt(
    target: Seq<char>,
    failures: int,
    rect: Rect,
)
    requires
        rect.right - rect.left > 1,
        rect.bottom - rect.top > 1,
    ensures
        search_action(target, failures, SearchEvent::Looked(Some(rect))) matches SearchAction::Capture(
            width,
            height,
        ) && width == rect.right - rect.left && height == rect.bottom - rect.top,
        search_step(failures, Some(rect)) matches SearchStep::Capture { width, height } && width
            == rect.right - rect.left && height == rect.bottom - rect.top,
{
}

/// A window whose edges lie the wrong way round is captured too, in a width and
/// height that are taken modulo 2^32.
pub proof fn inverted_window_is_captured_modulo(target: Seq<char>, failures: int, rect: Rect)
    requires
        has_size(rect),
        rect.right < rect.left,
        rect.bottom < rect.top,
    ensures
        search_action(target, failures, SearchEvent::Looked(Some(rect))) matches SearchAction::Capture(
            width,
            height,
        ) && rect.left + width == rect.right + 0x1_0000_0000 && rect.top + height == rect.bottom
            + 0x1_0000_0000,
{
}

/// The capture thread waits a tenth of a second after each of the first ten
/// attempts that find no window or one that is too small, and fails after the
/// next.
pub proof fn failed_attempt_is_repeated_ten_times(
    target: Seq<char>,
    failures: int,
    found: Option<Rect>,
)
    requires
        found matches Some(rect) ==> {
            ||| rect.right == rect.left
            ||| rect.right == rect.left + 1
            ||| rect.bottom == rect.top
            ||| rect.bottom == rect.top + 1
        },
    ensures
        failures < 10 ==> search_action(target, failures, SearchEvent::Looked(found))
            == SearchAction::Wait(100),
        failures >= 10 ==> search_action(target, failures, SearchEvent::Looked(found))
            == SearchAction::Fail(RecorderError::NoWindowSize),
        failures < 10 <==> search_step(failures, found) is Retry,
        failures >= 10 <==> search_step(failures, found) is GiveUp,
{
}

/// The capture thread leaves exactly where it begins while a window of another
/// title is in the foreground. Otherwise it looks for the target, when it begins
/// and whenever it has waited.
pub proof fn thread_leaves_only_for_another_window(
    target: Seq<char>,
    failures: int,
    event: SearchEvent,
)
    ensures
        search_action(target, failures, event) is Leave <==> (event matches SearchEvent::Begin(
            Some(title),
        ) && title@ != target),
        search_action(target, failures, event) is Look <==> event is Waited || event
            == SearchEvent::Begin(None) || (event matches SearchEvent::Begin(Some(title)) && title@
            == target),
{
}

/// What the capture thread comes to, once it has looked for the target as often
/// as `found` says and has waited in between.
pub open spec fn thread_outcome(
    target: Seq<char>,
    failures: int,
    found: Seq<Option<Rect>>,
) -> SearchAction
    decreases found.len(),
{
    if found.len() == 0 {
        SearchAction::Look
    } else {
        match search_action(target, failures, SearchEvent::Looked(found[0])) {
            SearchAction::Wait(_) => {
                let failed = failures_after(target, failures, SearchEvent::Looked(found[0]));
                match search_action(target, failed, SearchEvent::Waited) {
                    SearchAction::Look => thread_outcome(
                        target,
                        failures_after(target, failed, SearchEvent::Waited),
                        found.skip(1),
                    ),
                    action => action,
                }
            },
            action => action,
        }
    }
}

/// The capture thread does what the search for the window comes to.
proof fn lemma_thread_follows_search(target: Seq<char>, failures: int, found: Seq<Option<Rect>>)
    ensures
        thread_outcome(target, failures, found) == (match search_result(failures, found) {
            SearchStep::Capture { width, height } => SearchAction::Capture(width, height),
            SearchStep::Retry => SearchAction::Look,
            SearchStep::GiveUp => SearchAction::Fail(RecorderError::NoWindowSize),
        }),
    decreases found.len(),
{
    if found.len() > 0 {
        lemma_thread_follows_search(target, failures + 1, found.skip(1));
    }
}

/// The capture thread captures the first usable window that it finds, at its
/// first attempt or at one of the ten that may follow, in the distances between
/// the window's edges.
pub proof fn thread_captures_the_first_usable_window(
    target: Seq<char>,
    found: Seq<Option<Rect>>,
    k: int,
)
    requires
        0 <= k <= 10,
        k < found.len(),
        forall|i: int| 0 <= i < k ==> !finds_window(#[trigger] found[i]),
        found[k] matches Some(rect) && rect.right - rect.left > 1 && rect.bottom - rect.top > 1,
    ensures
        thread_outcome(target, 0, found) matches SearchAction::Capture(width, height) && width
            == found[k]->0.right - found[k]->0.left && height == found[k]->0.bottom
            - found[k]->0.top,
{
    lemma_thread_follows_search(target, 0, found);
    first_usable_window_is_captured(found, k);
}

/// The capture thread fails exactly where it has looked eleven times and has
/// found no usable window, and goes on looking before that.
pub proof fn thread_fails_after_eleven_attempts(target: Seq<char>, found: Seq<Option<Rect>>)
    ensures
        thread_outcome(target, 0, found) == SearchAction::Fail(RecorderError::NoWindowSize) <==> {
            &&& found.len() >= 11
            &&& forall|i: int| 0 <= i < 11 ==> !finds_window(#[trigger] found[i])
        },
        found.len() < 11 && (forall|i: int|
            0 <= i < found.len() ==> !finds_window(#[trigger] found[i])) ==> thread_outcome(
            target,
            0,
            found,
        ) is Look,
{
    lemma_thread_follows_search(target, 0, found);
    search_is_given_up_after_retries(found);
    if found.len() < 11 && (forall|i: int|
        0 <= i < found.len() ==> !finds_window(#[trigger] found[i])) {
        lemma_skip_failures(0, found, found.len() as int);
        assert(found.skip(found.len() as int).len() == 0);
    }
}

/// What becomes of a frame: during a recording it is sent where there is an
/// encoder, and dropped where there is none. Otherwise the capture stops, and the
/// encoder is finished where it is there and was given a frame.
pub proof fn what_becomes_of_a_frame(handler: CaptureHandler, is_recording: bool)
    ensures
        frame_action(handler, is_recording) is Send <==> is_recording && handler.encoder_open,
        frame_action(handler, is_recording) is Skip <==> is_recording && !handler.encoder_open,
        frame_action(handler, is_recording) is FinishAndStop <==> !is_recording
            && handler.encoder_open && handler.frame_sent,
        frame_action(handler, is_recording) is Stop <==> !is_recording && !(handler.encoder_open
            && handler.frame_sent),
{
}

/// Every frame of a recording is sent, however many there are: the encoder stays
/// open, and has been given a frame once there was one.
pub proof fn every_frame_of_a_recording_is_sent(handler: CaptureHandler, events: Seq<CaptureEvent>)
    requires
        handler.encoder_open,
        forall|i: int|
            0 <= i < events.len() ==> #[trigger] events[i] == (CaptureEvent::Frame {
                is_recording: true,
            }),
    ensures
        handler_after_all(handler, events).encoder_open,
        handler_after_all(handler, events).frame_sent <==> handler.frame_sent || events.len() > 0,
        frame_action(handler_after_all(handler, events), true) is Send,
        finishes(handler, events) == 0,
    decreases events.len(),
{
    if events.len() > 0 {
        assert(events.last() == events[events.len() - 1]);
        every_frame_of_a_recording_is_sent(handler, events.drop_last());
    }
}

/// The encoder is closed by the first frame outside of a recording and by the end
/// of the window, and by nothing else. A frame that is sent is remembered, and no
/// other event is.
pub proof fn what_closes_the_encoder(handler: CaptureHandler, event: CaptureEvent)
    ensures
        handler_after(handler, event).encoder_open <==> handler.encoder_open && event == (
        CaptureEvent::Frame { is_recording: true }),
        handler_after(handler, event).frame_sent <==> handler.frame_sent || (handler.encoder_open
            && event == (CaptureEvent::Frame { is_recording: true })),
{
}

/// The end of the window has the encoder finished exactly where it is open,
/// whether it was given a frame or not.
pub proof fn closing_finishes_an_open_encoder(handler: CaptureHandler)
    ensures
        is_finished_at(handler, CaptureEvent::Closed) <==> handler.encoder_open,
{
}

/// One more attempt has failed exactly where the target was looked for and no
/// window of more than one pixel in width and height was found.
pub proof fn only_failed_attempts_count(target: Seq<char>, failures: int, event: SearchEvent)
    requires
        event matches SearchEvent::Looked(Some(rect)) ==> rect.left <= rect.right && rect.top
            <= rect.bottom,
    ensures
        failures_after(target, failures, event) == failures || failures_after(
            target,
            failures,
            event,
        ) == failures + 1,
        failures_after(target, failures, event) == failures + 1 <==> (event matches SearchEvent::Looked(
            found,
        ) && (found matches Some(rect) ==> rect.right - rect.left <= 1 || rect.bottom - rect.top
            <= 1)),
{
}

} // verus!
