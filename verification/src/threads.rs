//! The recording threads, and what their end means.
//!
//! After each message the recorder goes through its threads. It removes those
//! that have finished, and fails where one of them has.

use vstd::prelude::*;

use crate::error::RecorderError;

verus! {

/// A pass through the recording threads.
pub struct ThreadSweep {
    /// The thread that is looked at.
    pub index: usize,
    /// How many threads are left.
    pub count: usize,
}

/// What a pass through the threads is told.
pub enum ThreadEvent {
    /// The pass begins, with the error that a thread has reported, if one has.
    Begin(Option<String>),
    /// Whether the thread that was asked about has finished.
    Polled(bool),
    /// How the thread that was joined has ended: by itself, or by a panic.
    Joined(Result<(), String>),
}

/// What a pass through the threads asks for.
pub enum ThreadAction {
    /// Find out whether the thread at this position has finished.
    Poll(usize),
    /// Remove the thread at this position, and join it.
    Join(usize),
    /// The pass is over, with this result.
    Finished(Result<(), RecorderError>),
}

/// What a pass asks for where it looks at a thread next: whether that thread has
/// finished. Behind the last thread the pass is over. While a recording is under
/// way a thread must then be left.
pub open spec fn look(sweep: ThreadSweep, is_recording: bool) -> ThreadAction {
    if sweep.index < sweep.count {
        ThreadAction::Poll(sweep.index)
    } else if is_recording && sweep.count == 0 {
        ThreadAction::Finished(Err(RecorderError::NoThreads))
    } else {
        ThreadAction::Finished(Ok(()))
    }
}

/// Where a pass stands after an event: a thread that has finished is left out,
/// and one that runs is passed over.
pub open spec fn sweep_after(sweep: ThreadSweep, event: ThreadEvent) -> ThreadSweep {
    match event {
        ThreadEvent::Polled(true) => ThreadSweep { count: (sweep.count - 1) as usize, ..sweep },
        ThreadEvent::Polled(false) => ThreadSweep { index: (sweep.index + 1) as usize, ..sweep },
        _ => sweep,
    }
}

/// What a pass asks for after an event. A reported error and a panic end it.
pub open spec fn sweep_action(
    sweep: ThreadSweep,
    event: ThreadEvent,
    is_recording: bool,
) -> ThreadAction {
    match event {
        ThreadEvent::Begin(Some(cause)) => ThreadAction::Finished(
            Err(RecorderError::Thread(cause)),
        ),
        ThreadEvent::Joined(Err(cause)) => ThreadAction::Finished(
            Err(RecorderError::Panicked(cause)),
        ),
        ThreadEvent::Polled(true) => ThreadAction::Join(sweep.index),
        _ => look(sweep_after(sweep, event), is_recording),
    }
}

impl ThreadSweep {
    /// A pass through `count` threads.
    pub fn new(count: usize) -> (sweep: ThreadSweep)
        ensures
            sweep == (ThreadSweep { index: 0, count }),
    {
        ThreadSweep { index: 0, count }
    }

    /// Takes in an event of the pass. Returns what is to be done next.
    pub fn check_thread_errors(&mut self, event: ThreadEvent, is_recording: bool) -> (r:
        ThreadAction)
        requires
            event is Polled ==> old(self).index < old(self).count,
        ensures
            *final(self) == sweep_after(*old(self), event),
            r == sweep_action(*old(self), event, is_recording),
    {
        match event {
            ThreadEvent::Begin(Some(cause)) => {
                return ThreadAction::Finished(Err(RecorderError::Thread(cause)));
            },
            ThreadEvent::Joined(Err(cause)) => {
                return ThreadAction::Finished(Err(RecorderError::Panicked(cause)));
            },
            ThreadEvent::Polled(finished) => {
                if finished {
                    self.count -= 1;
                    return ThreadAction::Join(self.index);
                }
                self.index += 1;
            },
            _ => {},
        }
        if self.index < self.count {
            ThreadAction::Poll(self.index)
        } else if is_recording && self.count == 0 {
            ThreadAction::Finished(Err(RecorderError::NoThreads))
        } else {
            ThreadAction::Finished(Ok(()))
        }
    }
}

// ---------------------------------------------------------------------------
// Laws
// ---------------------------------------------------------------------------

/// How a recording thread is doing.
pub enum ThreadStatus {
    /// It runs.
    Running,
    /// It has ended.
    Ended,
    /// It has panicked.
    Panicked(String),
}

/// Whether a thread runs.
pub open spec fn is_running() -> spec_fn(ThreadStatus) -> bool {
    |t: ThreadStatus| t is Running
}

/// How a thread that has finished is joined.
pub open spec fn join_result(thread: ThreadStatus) -> Result<(), String> {
    match thread {
        ThreadStatus::Panicked(cause) => Err(cause),
        _ => Ok(()),
    }
}

/// The threads that are left when a pass is over, and its result, where each of
/// its questions is answered by how the threads are doing.
pub open spec fn swept(
    sweep: ThreadSweep,
    action: ThreadAction,
    threads: Seq<ThreadStatus>,
    is_recording: bool,
) -> (Seq<ThreadStatus>, Result<(), RecorderError>)
    decreases
            threads.len() - sweep.index,
            (match action {
                ThreadAction::Poll(_) => 2int,
                ThreadAction::Join(_) => 1int,
                ThreadAction::Finished(_) => 0int,
            }),
    when 0 <= sweep.index <= threads.len() <= usize::MAX && match action {
        ThreadAction::Poll(i) => i == sweep.index < threads.len(),
        ThreadAction::Join(i) => i == sweep.index < threads.len(),
        ThreadAction::Finished(_) => true,
    }
{
    match action {
        ThreadAction::Poll(i) => {
            let event = ThreadEvent::Polled(!(threads[i as int] is Running));
            swept(
                sweep_after(sweep, event),
                sweep_action(sweep, event, is_recording),
                threads,
                is_recording,
            )
        },
        ThreadAction::Join(i) => {
            let event = ThreadEvent::Joined(join_result(threads[i as int]));
            swept(
                sweep_after(sweep, event),
                sweep_action(sweep, event, is_recording),
                threads.remove(i as int),
                is_recording,
            )
        },
        ThreadAction::Finished(result) => (threads, result),
    }
}

/// The threads that a whole pass leaves, and its result.
pub open spec fn checked(
    reported: Option<String>,
    threads: Seq<ThreadStatus>,
    is_recording: bool,
) -> (Seq<ThreadStatus>, Result<(), RecorderError>) {
    let sweep = ThreadSweep { index: 0, count: threads.len() as usize };
    let event = ThreadEvent::Begin(reported);
    swept(sweep_after(sweep, event), sweep_action(sweep, event, is_recording), threads, is_recording)
}

/// An error that a thread has reported is what a pass comes to, and every thread
/// is left.
pub proof fn reported_error_comes_first(
    cause: String,
    threads: Seq<ThreadStatus>,
    is_recording: bool,
)
    requires
        threads.len() <= usize::MAX,
    ensures
        checked(Some(cause), threads, is_recording) == (
            threads,
            Err::<(), RecorderError>(RecorderError::Thread(cause)),
        ),
{
}

/// A pass in which no thread has panicked leaves the threads that run, in their
/// order, and no others. It fails if and only if a recording is under way and
/// none is left.
pub proof fn finished_threads_are_removed(threads: Seq<ThreadStatus>, is_recording: bool)
    requires
        threads.len() <= usize::MAX,
        forall|i: int| 0 <= i < threads.len() ==> !(#[trigger] threads[i] is Panicked),
    ensures
        checked(None, threads, is_recording) == (
            threads.filter(is_running()),
            if is_recording && threads.filter(is_running()).len() == 0 {
                Err::<(), RecorderError>(RecorderError::NoThreads)
            } else {
                Ok(())
            },
        ),
{
    let sweep = ThreadSweep { index: 0, count: threads.len() as usize };
    lemma_swept(sweep, threads, is_recording, threads.len() as int);
    assert(threads.subrange(0, threads.len() as int) =~= threads);
    assert(threads.take(0) + threads.filter(is_running()) =~= threads.filter(is_running()));
}

/// A pass in which a thread has panicked fails with the first panic. The threads
/// before it that have finished are removed, and those behind it stay.
pub proof fn first_panic_ends_the_pass(threads: Seq<ThreadStatus>, is_recording: bool, p: int)
    requires
        threads.len() <= usize::MAX,
        0 <= p < threads.len(),
        threads[p] is Panicked,
        forall|i: int| 0 <= i < p ==> !(#[trigger] threads[i] is Panicked),
    ensures
        checked(None, threads, is_recording) == (
            threads.take(p).filter(is_running()) + threads.skip(p + 1),
            Err::<(), RecorderError>(RecorderError::Panicked(threads[p]->Panicked_0)),
        ),
{
    let sweep = ThreadSweep { index: 0, count: threads.len() as usize };
    lemma_swept(sweep, threads, is_recording, p);
    assert(threads.subrange(0, p) =~= threads.take(p));
    assert(threads.take(0) + threads.take(p).filter(is_running()) =~= threads.take(p).filter(
        is_running(),
    ));
}

/// What a pass does about the thread that it looks at.
proof fn lemma_swept_once(sweep: ThreadSweep, threads: Seq<ThreadStatus>, is_recording: bool)
    requires
        sweep.index < threads.len() <= usize::MAX,
        sweep.count == threads.len(),
    ensures
        swept(sweep, look(sweep, is_recording), threads, is_recording) == ({
            let passed = sweep_after(sweep, ThreadEvent::Polled(false));
            let fewer = sweep_after(sweep, ThreadEvent::Polled(true));
            let left = threads.remove(sweep.index as int);
            match threads[sweep.index as int] {
                ThreadStatus::Running => swept(
                    passed,
                    look(passed, is_recording),
                    threads,
                    is_recording,
                ),
                ThreadStatus::Ended => swept(fewer, look(fewer, is_recording), left, is_recording),
                ThreadStatus::Panicked(cause) => (
                    left,
                    Err::<(), RecorderError>(RecorderError::Panicked(cause)),
                ),
            }
        }),
{
    let poll = look(sweep, is_recording);
    let thread = threads[sweep.index as int];
    if !(thread is Running) {
        let fewer = sweep_after(sweep, ThreadEvent::Polled(true));
        let join = ThreadAction::Join(sweep.index);
        assert(swept(sweep, poll, threads, is_recording) == swept(
            fewer,
            join,
            threads,
            is_recording,
        ));
        let joined = ThreadEvent::Joined(join_result(thread));
        assert(swept(fewer, join, threads, is_recording) == swept(
            sweep_after(fewer, joined),
            sweep_action(fewer, joined, is_recording),
            threads.remove(sweep.index as int),
            is_recording,
        ));
    }
}

/// What a pass comes to that looks at a thread next, where the first panic from
/// there on is at `p`, or `p` is the end.
proof fn lemma_swept(
    sweep: ThreadSweep,
    threads: Seq<ThreadStatus>,
    is_recording: bool,
    p: int,
)
    requires
        threads.len() <= usize::MAX,
        sweep.count == threads.len(),
        sweep.index <= p <= threads.len(),
        forall|i: int| sweep.index <= i < p ==> !(#[trigger] threads[i] is Panicked),
        p < threads.len() ==> threads[p] is Panicked,
    ensures
        ({
            let (left, result) = swept(sweep, look(sweep, is_recording), threads, is_recording);
            let kept = threads.take(sweep.index as int) + threads.subrange(
                sweep.index as int,
                p,
            ).filter(is_running());
            if p < threads.len() {
                &&& left == kept + threads.skip(p + 1)
                &&& result == Err::<(), RecorderError>(
                    RecorderError::Panicked(threads[p]->Panicked_0),
                )
            } else {
                &&& left == kept
                &&& result == (if is_recording && kept.len() == 0 {
                    Err::<(), RecorderError>(RecorderError::NoThreads)
                } else {
                    Ok(())
                })
            }
        }),
    decreases p - sweep.index,
{
    let i = sweep.index as int;
    let middle = threads.subrange(i, p);
    let kept = threads.take(i) + middle.filter(is_running());
    if i < threads.len() {
        lemma_swept_once(sweep, threads, is_recording);
    }
    if i == p {
        assert(middle =~= Seq::<ThreadStatus>::empty());
        assert(middle.filter(is_running()) =~= Seq::<ThreadStatus>::empty()) by {
            reveal(Seq::filter);
        }
        if p < threads.len() {
            assert(threads.remove(i) =~= kept + threads.skip(p + 1));
        } else {
            assert(threads =~= kept);
        }
    } else {
        let rest = threads.subrange(i + 1, p);
        assert(middle =~= seq![threads[i]] + rest);
        lemma_filter_first(threads[i], rest);
        assert(!(threads[i] is Panicked));
        if threads[i] is Running {
            lemma_swept(
                sweep_after(sweep, ThreadEvent::Polled(false)),
                threads,
                is_recording,
                p,
            );
            assert(threads.take(i + 1) + rest.filter(is_running()) =~= kept);
        } else {
            let fewer = threads.remove(i);
            assert forall|j: int| i <= j < p - 1 implies !(#[trigger] fewer[j] is Panicked) by {
                assert(fewer[j] == threads[j + 1]);
            }
            if p < threads.len() {
                assert(fewer[p - 1] == threads[p]);
                assert(fewer.skip(p) =~= threads.skip(p + 1));
            }
            lemma_swept(
                sweep_after(sweep, ThreadEvent::Polled(true)),
                fewer,
                is_recording,
                p - 1,
            );
            assert(fewer.take(i) =~= threads.take(i));
            assert(fewer.subrange(i, p - 1) =~= rest);
        }
    }
}

/// Filtering begins with the first thread, if it runs.
proof fn lemma_filter_first(t: ThreadStatus, rest: Seq<ThreadStatus>)
    ensures
        (seq![t] + rest).filter(is_running()) == (if t is Running {
            seq![t] + rest.filter(is_running())
        } else {
            rest.filter(is_running())
        }),
{
    let one = seq![t];
    Seq::filter_distributes_over_add(one, rest, is_running());
    reveal(Seq::filter);
    assert(one.drop_last() =~= Seq::<ThreadStatus>::empty());
    assert(one.drop_last().filter(is_running()) =~= Seq::<ThreadStatus>::empty());
    if t is Running {
        assert(one.filter(is_running()) =~= one);
    } else {
        assert(one.filter(is_running()) =~= Seq::<ThreadStatus>::empty());
        assert(Seq::<ThreadStatus>::empty() + rest.filter(is_running()) =~= rest.filter(
            is_running(),
        ));
    }
}

/// What a pass through the threads asks for at each step: it looks at one thread
/// after another, joins each that has finished, and is over behind the last, at a
/// reported error, and at a panic.
pub proof fn what_a_pass_asks_for(sweep: ThreadSweep, event: ThreadEvent, is_recording: bool)
    requires
        event is Polled ==> sweep.index < sweep.count,
    ensures
        ({
            let after = sweep_after(sweep, event);
            let action = sweep_action(sweep, event, is_recording);
            let looks = event == ThreadEvent::Begin(None) || event == ThreadEvent::Polled(false)
                || (event matches ThreadEvent::Joined(Ok(_)));
            &&& after.index - sweep.index == (if event == ThreadEvent::Polled(false) {
                1int
            } else {
                0
            })
            &&& sweep.count - after.count == (if event == ThreadEvent::Polled(true) {
                1int
            } else {
                0
            })
            &&& action is Join <==> event == ThreadEvent::Polled(true)
            &&& action matches ThreadAction::Join(i) ==> i == sweep.index
            &&& action is Poll <==> looks && after.index < after.count
            &&& action matches ThreadAction::Poll(i) ==> i == after.index
            &&& action == ThreadAction::Finished(Err(RecorderError::NoThreads)) <==> looks
                && after.index >= after.count && is_recording && after.count == 0
            &&& (action matches ThreadAction::Finished(Ok(_))) <==> looks && after.index >= after.count
                && !(is_recording && after.count == 0)
            &&& event matches ThreadEvent::Begin(Some(cause)) ==> action == ThreadAction::Finished(
                Err(RecorderError::Thread(cause)),
            )
            &&& event matches ThreadEvent::Joined(Err(cause)) ==> action
                == ThreadAction::Finished(Err(RecorderError::Panicked(cause)))
        }),
{
}

} // verus!
