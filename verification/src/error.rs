//! What can go wrong with a recording.

use vstd::prelude::*;

verus! {

/// A failure of a recording.
pub enum RecorderError {
    /// A recording thread has reported an error.
    Thread(String),
    /// A recording thread has panicked.
    Panicked(String),
    /// A recording is under way, and no recording thread is left.
    NoThreads,
    /// No window of usable size was found.
    NoWindowSize,
}

/// The message of a failure.
pub open spec fn message_of(error: RecorderError) -> Seq<char> {
    match error {
        RecorderError::Thread(cause) => "Recording thread error: "@ + cause@,
        RecorderError::Panicked(cause) => "Recording thread panicked: "@ + cause@,
        RecorderError::NoThreads => "All recording threads terminated unexpectedly"@,
        RecorderError::NoWindowSize => "Failed to get valid window size after 10 retries"@,
    }
}

impl RecorderError {
    /// The message of the failure.
    pub fn message(&self) -> (r: String)
        ensures
            r@ == message_of(*self),
    {
        match self {
            RecorderError::Thread(cause) => {
                "Recording thread error: ".to_owned().concat(cause.as_str())
            },
            RecorderError::Panicked(cause) => {
                "Recording thread panicked: ".to_owned().concat(cause.as_str())
            },
            RecorderError::NoThreads => "All recording threads terminated unexpectedly".to_owned(),
            RecorderError::NoWindowSize => {
                "Failed to get valid window size after 10 retries".to_owned()
            },
        }
    }
}

// ---------------------------------------------------------------------------
// Laws
// ---------------------------------------------------------------------------

/// The message of a thread's failure says what kind of failure it is, and ends
/// with its cause, whole.
pub proof fn messages_tell_the_cause(cause: String)
    ensures
        ({
            let error = message_of(RecorderError::Thread(cause));
            let panic = message_of(RecorderError::Panicked(cause));
            let e = "Recording thread error: "@;
            let p = "Recording thread panicked: "@;
            &&& error.len() == e.len() + cause@.len()
            &&& error.take(e.len() as int) == e
            &&& error.skip(e.len() as int) == cause@
            &&& panic.len() == p.len() + cause@.len()
            &&& panic.take(p.len() as int) == p
            &&& panic.skip(p.len() as int) == cause@
        }),
{
    let error = message_of(RecorderError::Thread(cause));
    let panic = message_of(RecorderError::Panicked(cause));
    let e = "Recording thread error: "@;
    let p = "Recording thread panicked: "@;
    assert(error.take(e.len() as int) =~= e);
    assert(error.skip(e.len() as int) =~= cause@);
    assert(panic.take(p.len() as int) =~= p);
    assert(panic.skip(p.len() as int) =~= cause@);
}

/// The other failures have fixed messages.
pub proof fn messages_without_a_cause()
    ensures
        message_of(RecorderError::NoThreads) == "All recording threads terminated unexpectedly"@,
        message_of(RecorderError::NoWindowSize)
            == "Failed to get valid window size after 10 retries"@,
{
}

} // verus!
