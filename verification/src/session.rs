//! Recording sessions: their numbers, their files, and the state that the
//! recorder shares with its capture thread.

use vstd::prelude::*;

use crate::text;

verus! {

/// What the recorder shares with the focus watcher and the capture thread.
///
/// Times are readings of one monotonic clock, in nanoseconds.
pub struct RecorderState {
    /// The title of the window to record.
    pub window_title: String,
    /// Whether a recording is under way.
    pub is_recording: bool,
    /// Where recordings are written.
    pub output_directory: String,
    /// The number of the current session.
    pub session_id: usize,
    /// When the focus last moved to a window that counts.
    pub last_window_change: u128,
    /// Whether the capture is ready.
    pub capture_ready: bool,
}

/// The path of a session's video.
pub open spec fn output_path(directory: Seq<char>, session: usize) -> Seq<char> {
    directory + "/"@ + text::decimal(session as nat) + ".mp4"@
}

/// The path of a session's input log: that of its video, with every `.mp4` in
/// it replaced.
pub open spec fn input_path(directory: Seq<char>, session: usize) -> Seq<char> {
    text::replaced(output_path(directory, session), ".mp4"@, "_inputs.parquet"@)
}

/// The name of a session's input log within its directory.
pub open spec fn input_file_name(session: usize) -> Seq<char> {
    text::decimal(session as nat) + "_inputs.parquet"@
}

/// The session that a file name belongs to: the number before its first
/// underscore, or before its end where it has none.
pub open spec fn session_of_name(name: Seq<char>) -> Option<usize> {
    text::parsed_usize(text::before_first(name, '_'))
}

/// The session that a directory entry belongs to. An entry that could not be
/// read, or whose name is not Unicode, is `None` and belongs to no session.
pub open spec fn session_of_entry(entry: Option<String>) -> Option<usize> {
    match entry {
        Some(name) => session_of_name(name@),
        None => None,
    }
}

/// Whether `highest` is the highest session that any entry belongs to, or
/// `None` where no entry belongs to one.
pub open spec fn is_highest_session(entries: Seq<Option<String>>, highest: Option<usize>) -> bool {
    match highest {
        Some(m) => {
            &&& exists|i: int|
                0 <= i < entries.len() && #[trigger] session_of_entry(entries[i]) == Some(m)
            &&& forall|i: int|
                0 <= i < entries.len() ==> (#[trigger] session_of_entry(entries[i]) matches Some(
                    n,
                ) ==> n <= m)
        },
        None => forall|i: int|
            0 <= i < entries.len() ==> #[trigger] session_of_entry(entries[i]) is None,
    }
}

/// The session to begin with: one above the highest on disk, or zero.
pub open spec fn session_after(highest: Option<usize>) -> int {
    match highest {
        Some(m) => m + 1,
        None => 0,
    }
}

/// The session that a file name belongs to, if it belongs to one.
pub fn parse_session(name: &str) -> (r: Option<usize>)
    ensures
        r == session_of_name(name@),
{
    let chars: Vec<char> = text::chars_of(name);
    let n: usize = text::len_before_first(chars.as_slice(), '_');
    let field: &[char] = vstd::slice::slice_subrange(chars.as_slice(), 0, n);
    assert(field@ =~= name@.take(n as int));
    text::parse_usize(field)
}

/// The highest session that any directory entry belongs to.
pub fn highest_session(entries: &Vec<Option<String>>) -> (r: Option<usize>)
    ensures
        is_highest_session(entries@, r),
{
    let mut best: Option<usize> = None;
    let mut i: usize = 0;
    while i < entries.len()
        invariant
            i <= entries@.len(),
            is_highest_session(entries@.take(i as int), best),
        decreases entries@.len() - i,
    {
        let found: Option<usize> = match &entries[i] {
            Some(name) => parse_session(name.as_str()),
            None => None,
        };
        let ghost seen = entries@.take(i as int);
        let ghost more = entries@.take(i + 1);
        let ghost previous = best;
        assert(found == session_of_entry(more[i as int]));
        assert(forall|j: int| 0 <= j < i ==> more[j] == seen[j]);
        if let Some(n) = found {
            best = match best {
                Some(m) => if n > m { Some(n) } else { Some(m) },
                None => Some(n),
            };
        }
        proof {
            if best is Some {
                if found is Some && best == found {
                    assert(session_of_entry(more[i as int]) == best);
                } else {
                    let j = choose|j: int|
                        0 <= j < seen.len() && #[trigger] session_of_entry(seen[j]) == previous;
                    assert(session_of_entry(more[j]) == best);
                }
                assert forall|j: int| 0 <= j < more.len() implies (#[trigger] session_of_entry(
                    more[j],
                ) matches Some(n) ==> n <= best->0) by {
                    if j < i {
                        assert(session_of_entry(seen[j]) == session_of_entry(more[j]));
                    }
                }
            } else {
                assert forall|j: int| 0 <= j < more.len() implies #[trigger] session_of_entry(
                    more[j],
                ) is None by {
                    if j < i {
                        assert(session_of_entry(seen[j]) is None);
                    }
                }
            }
        }
        i += 1;
    }
    assert(entries@.take(i as int) =~= entries@);
    best
}

/// The session to begin with, given the highest one on disk.
pub fn starting_session(highest: Option<usize>) -> (r: usize)
    requires
        highest != Some(usize::MAX),
    ensures
        r == session_after(highest),
{
    match highest {
        Some(m) => m + 1,
        None => 0,
    }
}

impl RecorderState {
    /// The state of a recorder that has not recorded anything yet.
    pub fn new(
        window_title: &str,
        output_directory: &str,
        session_id: usize,
        now: u128,
    ) -> (r: RecorderState)
        ensures
            r.window_title@ == window_title@,
            r.output_directory@ == output_directory@,
            r.session_id == session_id,
            r.last_window_change == now,
            !r.is_recording,
            !r.capture_ready,
    {
        RecorderState {
            window_title: window_title.to_owned(),
            is_recording: false,
            output_directory: output_directory.to_owned(),
            session_id,
            last_window_change: now,
            capture_ready: false,
        }
    }

    /// The path of the current session's video.
    pub fn get_output_path(&self) -> (r: String)
        ensures
            r@ == output_path(self.output_directory@, self.session_id),
    {
        let mut path: String = self.output_directory.clone();
        path.append("/");
        text::push_decimal(&mut path, self.session_id);
        path.append(".mp4");
        path
    }

    /// The path of the current session's input log.
    pub fn get_input_path(&self) -> (r: String)
        ensures
            r@ == input_path(self.output_directory@, self.session_id),
    {
        let path: String = self.get_output_path();
        proof {
            reveal_strlit(".mp4");
        }
        text::replace(path.as_str(), ".mp4", "_inputs.parquet")
    }
}

// ---------------------------------------------------------------------------
// Laws
// ---------------------------------------------------------------------------

/// Replacement works on each side of a separator by itself, where the pattern
/// does not hold the separator.
proof fn lemma_replaced_around(
    a: Seq<char>,
    separator: char,
    b: Seq<char>,
    pattern: Seq<char>,
    by: Seq<char>,
)
    requires
        pattern.len() > 0,
        !pattern.contains(separator),
    ensures
        text::replaced(a + seq![separator] + b, pattern, by) == text::replaced(a, pattern, by)
            + seq![separator] + text::replaced(b, pattern, by),
    decreases a.len(),
{
    let whole = a + seq![separator] + b;
    let p = pattern.len() as int;
    if a.len() == 0 {
        if text::occurs_at(whole, pattern, 0) {
            assert(whole.subrange(0, p)[0] == separator);
            assert(pattern[0] == separator);
        }
        assert(whole.skip(1) =~= b);
        assert(text::replaced(whole, pattern, by) =~= text::replaced(a, pattern, by) + seq![separator]
            + text::replaced(b, pattern, by));
    } else {
        if p <= a.len() {
            assert(whole.subrange(0, p) =~= a.subrange(0, p));
        } else if text::occurs_at(whole, pattern, 0) {
            assert(whole.subrange(0, p)[a.len() as int] == separator);
            assert(pattern[a.len() as int] == separator);
        }
        if text::occurs_at(a, pattern, 0) {
            lemma_replaced_around(a.skip(p), separator, b, pattern, by);
            assert(whole.skip(p) =~= a.skip(p) + seq![separator] + b);
        } else {
            lemma_replaced_around(a.skip(1), separator, b, pattern, by);
            assert(whole.skip(1) =~= a.skip(1) + seq![separator] + b);
        }
        assert(text::replaced(whole, pattern, by) =~= text::replaced(a, pattern, by) + seq![separator]
            + text::replaced(b, pattern, by));
    }
}

/// Digits before a pattern that begins with no digit are kept by replacement.
proof fn lemma_replaced_after_digits(digits: Seq<char>, pattern: Seq<char>, by: Seq<char>)
    requires
        pattern.len() > 0,
        !text::is_digit(pattern[0]),
        text::all_digits(digits),
    ensures
        text::replaced(digits + pattern, pattern, by) == digits + by,
    decreases digits.len(),
{
    let whole = digits + pattern;
    let p = pattern.len() as int;
    if digits.len() == 0 {
        assert(whole.subrange(0, p) =~= pattern);
        assert(text::replaced(whole.skip(p), pattern, by) =~= Seq::<char>::empty());
        assert(text::replaced(whole, pattern, by) =~= digits + by);
    } else {
        if text::occurs_at(whole, pattern, 0) {
            assert(whole.subrange(0, p)[0] == digits[0]);
            assert(text::is_digit(digits[0]));
        }
        assert(whole.skip(1) =~= digits.skip(1) + pattern);
        assert forall|i: int| 0 <= i < digits.skip(1).len() implies text::is_digit(
            #[trigger] digits.skip(1)[i],
        ) by {
            assert(text::is_digit(digits[i + 1]));
        }
        lemma_replaced_after_digits(digits.skip(1), pattern, by);
        assert(text::replaced(whole, pattern, by) =~= digits + by);
    }
}

/// A text without the pattern is kept by replacement.
proof fn lemma_replaced_nothing(s: Seq<char>, pattern: Seq<char>, by: Seq<char>)
    requires
        forall|i: int| !text::occurs_at(s, pattern, i),
    ensures
        text::replaced(s, pattern, by) == s,
{
    text::text_without_the_pattern_is_kept(s, pattern, by);
}

/// A session's input log stands, under a name made of the session's number, in
/// the output directory with every `.mp4` in the directory's own path replaced.
pub proof fn input_path_in_directory(directory: Seq<char>, session: usize)
    ensures
        input_path(directory, session) == text::replaced(directory, ".mp4"@, "_inputs.parquet"@)
            + "/"@ + input_file_name(session),
{
    reveal_strlit("/");
    reveal_strlit(".mp4");
    let digits = text::decimal(session as nat);
    let pattern = ".mp4"@;
    let by = "_inputs.parquet"@;
    text::lemma_decimal_value(session as nat);
    assert("/"@ =~= seq!['/']);
    assert(output_path(directory, session) =~= directory + seq!['/'] + (digits + pattern));
    lemma_replaced_around(directory, '/', digits + pattern, pattern, by);
    lemma_replaced_after_digits(digits, pattern, by);
}

/// Where the output directory's path holds no `.mp4`, a session's input log
/// stands beside its video.
pub proof fn input_path_beside_video(directory: Seq<char>, session: usize)
    requires
        forall|i: int| !text::occurs_at(directory, ".mp4"@, i),
    ensures
        input_path(directory, session) == directory + "/"@ + input_file_name(session),
{
    input_path_in_directory(directory, session);
    lemma_replaced_nothing(directory, ".mp4"@, "_inputs.parquet"@);
}

/// The name of an input log gives back the session that it was written for.
pub proof fn input_file_name_gives_session(session: usize)
    ensures
        session_of_name(input_file_name(session)) == Some(session),
{
    reveal_strlit("_inputs.parquet");
    let digits = text::decimal(session as nat);
    let name = input_file_name(session);
    text::lemma_decimal_value(session as nat);
    assert forall|j: int| 0 <= j < digits.len() implies name[j] != '_' by {
        assert(text::is_digit(digits[j]));
    }
    text::lemma_before_first(name, '_', digits.len() as int);
    assert(name.take(digits.len() as int) =~= digits);
    text::decimal_parses_back(session);
}

/// The session that a restarted recorder begins with is above every session
/// whose input log is on disk.
pub proof fn starting_session_is_unused(
    entries: Seq<Option<String>>,
    highest: Option<usize>,
    i: int,
    session: usize,
)
    requires
        is_highest_session(entries, highest),
        0 <= i < entries.len(),
        entries[i] matches Some(name) && name@ == input_file_name(session),
    ensures
        session_after(highest) > session,
{
    input_file_name_gives_session(session);
    assert(session_of_entry(entries[i]) == Some(session));
}

/// Different sessions have different videos and different input logs.
pub proof fn sessions_do_not_share_files(directory: Seq<char>, a: usize, b: usize)
    requires
        a != b,
    ensures
        output_path(directory, a) != output_path(directory, b),
        input_path(directory, a) != input_path(directory, b),
{
    text::lemma_decimal_value(a as nat);
    text::lemma_decimal_value(b as nat);
    if output_path(directory, a) == output_path(directory, b) {
        lemma_middle(directory + "/"@, text::decimal(a as nat), text::decimal(b as nat), ".mp4"@);
    }
    if input_path(directory, a) == input_path(directory, b) {
        input_path_in_directory(directory, a);
        input_path_in_directory(directory, b);
        let head = text::replaced(directory, ".mp4"@, "_inputs.parquet"@) + "/"@;
        assert(input_path(directory, a) =~= head + text::decimal(a as nat) + "_inputs.parquet"@);
        assert(input_path(directory, b) =~= head + text::decimal(b as nat) + "_inputs.parquet"@);
        lemma_middle(head, text::decimal(a as nat), text::decimal(b as nat), "_inputs.parquet"@);
    }
}

/// Texts that agree before and behind their middle agree in the middle.
proof fn lemma_middle(head: Seq<char>, x: Seq<char>, y: Seq<char>, tail: Seq<char>)
    requires
        head + x + tail == head + y + tail,
    ensures
        x == y,
{
    let s = head + x + tail;
    let t = head + y + tail;
    assert(s.len() == t.len());
    assert(s.subrange(head.len() as int, s.len() - tail.len()) =~= x);
    assert(t.subrange(head.len() as int, t.len() - tail.len()) =~= y);
}

/// The path of a video is the output directory, a slash, the session in digits
/// without leading zeros, and the extension.
pub proof fn parts_of_the_output_path(directory: Seq<char>, session: usize)
    ensures
        ({
            let path = output_path(directory, session);
            let name = path.subrange(directory.len() as int + 1, path.len() - 4);
            &&& path.len() > directory.len() + 5
            &&& path.take(directory.len() as int) == directory
            &&& path[directory.len() as int] == '/'
            &&& path.skip(path.len() - 4) == ".mp4"@
            &&& forall|i: int| 0 <= i < name.len() ==> '0' <= #[trigger] name[i] <= '9'
            &&& name[0] == '0' ==> name.len() == 1
            &&& text::numeral_value(name) == session
        }),
{
    reveal_strlit("/");
    reveal_strlit(".mp4");
    let digits = text::decimal(session as nat);
    let path = output_path(directory, session);
    text::decimal_is_the_shortest_numeral(session as nat);
    assert(path.take(directory.len() as int) =~= directory);
    assert(path.skip(path.len() - 4) =~= ".mp4"@);
    assert(path.subrange(directory.len() as int + 1, path.len() - 4) =~= digits);
}

/// The name of an input log is the session in digits without leading zeros, and
/// the same ending for every session.
pub proof fn parts_of_the_input_file_name(session: usize)
    ensures
        ({
            let name = input_file_name(session);
            let digits = name.take(name.len() - 15);
            &&& name.len() > 15
            &&& name.skip(name.len() - 15) == "_inputs.parquet"@
            &&& forall|i: int| 0 <= i < digits.len() ==> '0' <= #[trigger] digits[i] <= '9'
            &&& digits[0] == '0' ==> digits.len() == 1
            &&& text::numeral_value(digits) == session
        }),
{
    reveal_strlit("_inputs.parquet");
    let name = input_file_name(session);
    text::decimal_is_the_shortest_numeral(session as nat);
    assert(name.skip(name.len() - 15) =~= "_inputs.parquet"@);
    assert(name.take(name.len() - 15) =~= text::decimal(session as nat));
}

/// Where the path of the output directory holds no `.mp4`, a video and its input
/// log differ in their endings alone.
pub proof fn video_and_log_differ_in_their_endings(directory: Seq<char>, session: usize)
    requires
        forall|i: int| !text::occurs_at(directory, ".mp4"@, i),
    ensures
        ({
            let video = output_path(directory, session);
            let log = input_path(directory, session);
            &&& log.len() == video.len() + 11
            &&& log.take(video.len() - 4) == video.take(video.len() - 4)
            &&& log.skip(video.len() - 4) == "_inputs.parquet"@
        }),
{
    reveal_strlit("/");
    reveal_strlit(".mp4");
    reveal_strlit("_inputs.parquet");
    let digits = text::decimal(session as nat);
    let video = output_path(directory, session);
    let log = input_path(directory, session);
    input_path_in_directory(directory, session);
    lemma_replaced_nothing(directory, ".mp4"@, "_inputs.parquet"@);
    assert(log.take(video.len() - 4) =~= video.take(video.len() - 4));
    assert(log.skip(video.len() - 4) =~= "_inputs.parquet"@);
}

/// What follows the first underscore of a name does not matter to its session,
/// and neither does the underscore.
pub proof fn session_is_read_before_the_underscore(field: Seq<char>, rest: Seq<char>)
    requires
        !field.contains('_'),
    ensures
        session_of_name(field + seq!['_'] + rest) == text::parsed_usize(field),
        session_of_name(field) == text::parsed_usize(field),
{
    let name = field + seq!['_'] + rest;
    assert forall|j: int| 0 <= j < field.len() implies name[j] != '_' && field[j] != '_' by {
        assert(name[j] == field[j]);
        assert(field.contains(field[j]));
    }
    text::lemma_before_first(name, '_', field.len() as int);
    text::lemma_before_first(field, '_', field.len() as int);
    assert(name.take(field.len() as int) =~= field);
    assert(field.take(field.len() as int) =~= field);
}

/// An entry belongs to the session of its name. One without a name belongs to
/// none.
pub proof fn entries_belong_by_their_names(entry: Option<String>)
    ensures
        entry matches Some(name) ==> session_of_entry(entry) == session_of_name(name@),
        entry is None ==> session_of_entry(entry) is None,
{
}

/// A directory has one highest session.
pub proof fn highest_session_is_unique(
    entries: Seq<Option<String>>,
    a: Option<usize>,
    b: Option<usize>,
)
    requires
        is_highest_session(entries, a),
        is_highest_session(entries, b),
    ensures
        a == b,
{
    if a is Some {
        let i = choose|i: int|
            0 <= i < entries.len() && #[trigger] session_of_entry(entries[i]) == a;
        assert(session_of_entry(entries[i]) == a);
    }
    if b is Some {
        let i = choose|i: int|
            0 <= i < entries.len() && #[trigger] session_of_entry(entries[i]) == b;
        assert(session_of_entry(entries[i]) == b);
    }
}

/// An empty directory has no highest session. One more entry raises the highest
/// session where it belongs to a higher one, and otherwise leaves it.
pub proof fn another_entry_may_raise_the_highest(
    entries: Seq<Option<String>>,
    entry: Option<String>,
    highest: Option<usize>,
)
    requires
        is_highest_session(entries, highest),
    ensures
        is_highest_session(Seq::empty(), None),
        is_highest_session(
            entries.push(entry),
            match (highest, session_of_entry(entry)) {
                (Some(m), Some(n)) => Some(
                    if m < n {
                        n
                    } else {
                        m
                    },
                ),
                (None, n) => n,
                (m, None) => m,
            },
        ),
{
    let more = entries.push(entry);
    let last = entries.len() as int;
    assert(more[last] == entry);
    assert forall|i: int| 0 <= i < more.len() && i != last implies #[trigger] session_of_entry(
        more[i],
    ) == session_of_entry(entries[i]) by {
        assert(more[i] == entries[i]);
    }
    if highest is Some {
        let i = choose|i: int|
            0 <= i < entries.len() && #[trigger] session_of_entry(entries[i]) == highest;
        assert(session_of_entry(more[i]) == highest);
    }
    assert(session_of_entry(more[last]) == session_of_entry(entry));
}

/// The session to begin with is the least that lies above every session on disk.
pub proof fn starting_session_is_the_next(entries: Seq<Option<String>>, highest: Option<usize>)
    requires
        is_highest_session(entries, highest),
    ensures
        session_after(highest) >= 0,
        forall|i: int|
            0 <= i < entries.len() ==> (#[trigger] session_of_entry(entries[i]) matches Some(n)
                ==> n < session_after(highest)),
        session_after(highest) > 0 ==> exists|i: int|
            0 <= i < entries.len() && (#[trigger] session_of_entry(entries[i]) matches Some(n)
                && n == session_after(highest) - 1),
{
    if highest is Some {
        let i = choose|i: int|
            0 <= i < entries.len() && #[trigger] session_of_entry(entries[i]) == highest;
        assert(session_of_entry(entries[i]) == highest);
    }
}

} // verus!
