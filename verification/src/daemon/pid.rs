use crate::json::{all_digits, digits_value, parse_u64};
use crate::text::{decimal, trimmed};
use vstd::prelude::*;

verus! {

/// The file in which a running daemon leaves the number of its process.
#[derive(Debug, PartialEq)]
pub struct PidFile {
    pub path: String,
}

/// What sending a signal to a process came to.
#[derive(Clone, Copy, Debug, PartialEq, Eq, Structural)]
pub enum SignalOutcome {
    /// The signal was sent.
    Sent,
    /// There is such a process, but it may not be signalled.
    NotPermitted,
    /// Anything else: there is no such process.
    Failed,
}

/// What to do to take the file for this process.
#[derive(Debug, PartialEq)]
pub enum AcquireStep {
    /// Another daemon runs: give up with this message.
    Refuse { message: String },
    /// The file is stale: take it away, then write the file.
    ReplaceStale { pid: u32 },
    /// There is no file to speak of: write the file.
    Write,
}

/// The digits of a number that may stand after a plus sign.
pub open spec fn unsigned_digits(t: Seq<char>) -> Seq<char> {
    if t.len() > 0 && t[0] == '+' {
        t.drop_first()
    } else {
        t
    }
}

/// The process that the text of a file names: decimal digits, after a
/// plus sign or not, with white space around them, and a value that fits
/// 32 bits.
pub open spec fn pid_of(contents: Seq<char>) -> Option<u32> {
    let digits = unsigned_digits(trimmed(contents));
    if digits.len() > 0 && all_digits(digits) && digits_value(digits) <= u32::MAX {
        Some(digits_value(digits) as u32)
    } else {
        None
    }
}

/// The process that the text of a file names.
pub fn parse_pid(contents: &str) -> (r: Option<u32>)
    ensures
        r == pid_of(contents@),
{
    let text = crate::text::trim(&crate::text::to_chars(contents));
    let digits = if text.len() > 0 && text[0] == '+' {
        let rest = crate::text::slice(&text, 1, text.len());
        assert(text@.subrange(1, text.len() as int) =~= text@.drop_first());
        rest
    } else {
        text
    };
    match parse_u64(&digits) {
        Some(n) => if n <= 0xffff_ffff {
            Some(n as u32)
        } else {
            None
        },
        None => None,
    }
}

/// A text of digits has no white space to trim.
proof fn lemma_digits_trimmed(s: Seq<char>)
    requires
        s.len() > 0,
        all_digits(s),
    ensures
        trimmed(s) == s,
{
    assert('0' <= s[0] <= '9');
    assert('0' <= s.last() <= '9');
    assert(!crate::text::is_space(s[0]));
    assert(!crate::text::is_space(s.last()));
    assert(crate::text::trim_start(s) == s);
    assert(crate::text::trim_end(s) == s);
}

/// What a process writes into the file names the process.
pub proof fn lemma_pid_round_trip(pid: u32)
    ensures
        pid_of(decimal(pid as nat)) == Some(pid),
{
    crate::wire::lemma_decimal(pid as nat);
    let s = decimal(pid as nat);
    lemma_digits_trimmed(s);
    assert('0' <= s[0] <= '9');
    assert(unsigned_digits(s) == s);
}

/// The message for a daemon that finds another running.
pub open spec fn taken_message(pid: u32, path: Seq<char>) -> Seq<char> {
    "daemon already running (pid "@ + decimal(pid as nat) + "). Stop it first or remove "@ + path
}

impl PidFile {
    pub fn new(path: String) -> (f: PidFile)
        ensures
            f.path@ == path@,
    {
        PidFile { path }
    }

    /// True when sending the signal shows that the process is there: the
    /// signal was sent, or the process may not be signalled.
    pub fn is_alive(outcome: SignalOutcome) -> (r: bool)
        ensures
            r == (outcome != SignalOutcome::Failed),
    {
        match outcome {
            SignalOutcome::Sent => true,
            SignalOutcome::NotPermitted => true,
            SignalOutcome::Failed => false,
        }
    }

    /// The running daemon: the process that the file names, where it is
    /// alive.
    pub fn is_running(existing: Option<u32>, alive: bool) -> (r: Option<u32>)
        ensures
            r == if alive {
                existing
            } else {
                None
            },
    {
        if alive {
            existing
        } else {
            None
        }
    }

    /// What to do to take the file, given the process that it names and
    /// whether that process is alive.
    pub fn acquire_step(&self, existing: Option<u32>, alive: bool) -> (r: AcquireStep)
        ensures
            match existing {
                Some(pid) => if alive {
                    r matches AcquireStep::Refuse { message } && message@ == taken_message(
                        pid,
                        self.path@,
                    )
                } else {
                    r == (AcquireStep::ReplaceStale { pid })
                },
                None => r == AcquireStep::Write,
            },
    {
        match existing {
            Some(pid) => {
                if alive {
                    let head = crate::text::concat3(
                        "daemon already running (pid ",
                        crate::text::u64_to_string(pid as u64).as_str(),
                        "). Stop it first or remove ",
                    );
                    AcquireStep::Refuse {
                        message: crate::text::concat(head.as_str(), self.path.as_str()),
                    }
                } else {
                    AcquireStep::ReplaceStale { pid }
                }
            },
            None => AcquireStep::Write,
        }
    }

    /// What this process writes into the file: its number in decimal
    /// digits, which names it.
    pub fn contents(pid: u32) -> (s: String)
        ensures
            s@ == decimal(pid as nat),
            pid_of(s@) == Some(pid),
    {
        proof {
            lemma_pid_round_trip(pid);
        }
        crate::text::u64_to_string(pid as u64)
    }
}

} // verus!
