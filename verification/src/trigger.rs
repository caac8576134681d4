//! Trigger decisions: the serial poller reads lines from the trigger device
//! and the orchestration around it only needs two judgements, both made
//! here — is this line the RING sentinel, and what should the waiting loop
//! do with each kind of observation. The blocking line reader itself is an
//! outside event source and stays with the caller.
use vstd::prelude::*;

verus! {

/// The whitespace stripped from either end of a trigger line.
pub open spec fn is_space(c: char) -> bool {
    c == ' ' || c == '\t' || c == '\r' || c == '\n'
}

/// The text with its leading whitespace removed.
pub open spec fn trim_start(s: Seq<char>) -> Seq<char>
    decreases s.len(),
{
    if s.len() > 0 && is_space(s[0]) {
        trim_start(s.subrange(1, s.len() as int))
    } else {
        s
    }
}

/// The text with its trailing whitespace removed.
pub open spec fn trim_end(s: Seq<char>) -> Seq<char>
    decreases s.len(),
{
    if s.len() > 0 && is_space(s.last()) {
        trim_end(s.drop_last())
    } else {
        s
    }
}

/// The text with whitespace removed from both ends.
pub open spec fn spec_trim(s: Seq<char>) -> Seq<char> {
    trim_end(trim_start(s))
}

/// The sentinel the trigger device emits when the button is pressed.
pub open spec fn ring_word() -> Seq<char> {
    seq!['R', 'I', 'N', 'G']
}

proof fn lemma_trim_start(s: Seq<char>, a: int)
    requires
        0 <= a <= s.len(),
        forall|k: int| 0 <= k < a ==> is_space(#[trigger] s[k]),
        a < s.len() ==> !is_space(s[a]),
    ensures
        trim_start(s) == s.subrange(a, s.len() as int),
    decreases a,
{
    if a == 0 {
        assert(s.subrange(0, s.len() as int) =~= s);
    } else {
        let rest = s.subrange(1, s.len() as int);
        lemma_trim_start(rest, a - 1);
        assert(rest.subrange(a - 1, rest.len() as int) =~= s.subrange(a, s.len() as int));
    }
}

proof fn lemma_trim_end(s: Seq<char>, e: int)
    requires
        0 <= e <= s.len(),
        forall|k: int| e <= k < s.len() ==> is_space(#[trigger] s[k]),
        e > 0 ==> !is_space(s[e - 1]),
    ensures
        trim_end(s) == s.subrange(0, e),
    decreases s.len() - e,
{
    if e == s.len() {
        if s.len() > 0 && is_space(s.last()) {
            assert(!is_space(s[e - 1]));
        }
        assert(s.subrange(0, s.len() as int) =~= s);
    } else {
        let head = s.drop_last();
        assert(is_space(s.last()));
        lemma_trim_end(head, e);
        assert(head.subrange(0, e) =~= s.subrange(0, e));
    }
}

/// Whether the character is whitespace.
fn is_space_char(c: char) -> (r: bool)
    ensures
        r == is_space(c),
{
    c == ' ' || c == '\t' || c == '\r' || c == '\n'
}

/// Whether the line, once stripped of surrounding whitespace, is exactly
/// the RING sentinel.
pub fn is_ring_line(line: &str) -> (r: bool)
    ensures
        r == (spec_trim(line@) == ring_word()),
{
    let n = line.unicode_len();
    let mut a: usize = 0;
    while a < n && is_space_char(line.get_char(a))
        invariant
            n == line@.len(),
            a <= n,
            forall|k: int| 0 <= k < a ==> is_space(#[trigger] line@[k]),
        decreases n - a,
    {
        a = a + 1;
    }
    proof {
        lemma_trim_start(line@, a as int);
    }
    if a == n {
        // nothing but whitespace: the trimmed line is empty
        proof {
            assert(trim_start(line@).len() == 0);
            assert(spec_trim(line@).len() == 0);
        }
        return false;
    }
    let mut e: usize = n;
    while e > a && is_space_char(line.get_char(e - 1))
        invariant
            n == line@.len(),
            a < e <= n,
            a < n,
            !is_space(line@[a as int]),
            forall|k: int| e <= k < n ==> is_space(#[trigger] line@[k]),
        decreases e,
    {
        e = e - 1;
    }
    let ghost rest = line@.subrange(a as int, n as int);
    proof {
        assert(forall|k: int|
            e - a <= k < rest.len() ==> is_space(#[trigger] rest[k]) == is_space(
                line@[k + a as int],
            ));
        assert(!is_space(rest[e - a - 1]));
        lemma_trim_end(rest, e as int - a as int);
        assert(spec_trim(line@) == line@.subrange(a as int, e as int));
    }
    if e - a != 4 {
        return false;
    }
    let r = line.get_char(a) == 'R' && line.get_char(a + 1) == 'I' && line.get_char(a + 2) == 'N'
        && line.get_char(a + 3) == 'G';
    proof {
        let trimmed = line@.subrange(a as int, e as int);
        if r {
            assert(trimmed =~= ring_word());
        }
        if trimmed == ring_word() {
            assert(line@[a as int] == trimmed[0]);
            assert(line@[a as int + 1] == trimmed[1]);
            assert(line@[a as int + 2] == trimmed[2]);
            assert(line@[a as int + 3] == trimmed[3]);
        }
    }
    r
}

/// One observation made by the serial line reader.
pub enum LineEvent {
    /// A complete line of text arrived.
    Line(String),
    /// The read timed out before a line arrived.
    TimedOut,
    /// The bytes read were not valid text.
    InvalidData,
    /// The reader failed in a way it cannot recover from.
    Fatal,
}

/// What the waiting loop does with one observation.
#[derive(Clone, Copy, Debug, PartialEq, Eq, Structural)]
pub enum TriggerStep {
    /// The sentinel arrived: run one call.
    Fired,
    /// Nothing of note: keep reading lines.
    KeepWaiting,
    /// A fatal read failure: give up.
    Abort,
}

/// What the waiting loop does with one observation: only the RING sentinel
/// fires the trigger; timeouts and undecodable noise are ignored; only an
/// unrecoverable read failure aborts.
pub open spec fn spec_trigger_step(e: LineEvent) -> TriggerStep {
    match e {
        LineEvent::Line(s) => if spec_trim(s@) == ring_word() {
            TriggerStep::Fired
        } else {
            TriggerStep::KeepWaiting
        },
        LineEvent::TimedOut => TriggerStep::KeepWaiting,
        LineEvent::InvalidData => TriggerStep::KeepWaiting,
        LineEvent::Fatal => TriggerStep::Abort,
    }
}

/// Decides what the waiting loop does with one observation.
pub fn trigger_step(event: &LineEvent) -> (r: TriggerStep)
    ensures
        r == spec_trigger_step(*event),
{
    match event {
        LineEvent::Line(s) => {
            if is_ring_line(s.as_str()) {
                TriggerStep::Fired
            } else {
                TriggerStep::KeepWaiting
            }
        },
        LineEvent::TimedOut => TriggerStep::KeepWaiting,
        LineEvent::InvalidData => TriggerStep::KeepWaiting,
        LineEvent::Fatal => TriggerStep::Abort,
    }
}

} // verus!
