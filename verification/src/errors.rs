//! The pipeline's error taxonomy and the model of a subprocess outcome.

use vstd::prelude::*;
use vstd::string::StringExecFns;

verus! {

/// The character of one decimal digit.
pub open spec fn decimal_digit(d: nat) -> char {
    if d == 0 {
        '0'
    } else if d == 1 {
        '1'
    } else if d == 2 {
        '2'
    } else if d == 3 {
        '3'
    } else if d == 4 {
        '4'
    } else if d == 5 {
        '5'
    } else if d == 6 {
        '6'
    } else if d == 7 {
        '7'
    } else if d == 8 {
        '8'
    } else {
        '9'
    }
}

/// The decimal rendering of a natural number, without leading zeros.
pub open spec fn decimal_text(n: nat) -> Seq<char>
    decreases n,
{
    if n < 10 {
        seq![decimal_digit(n)]
    } else {
        decimal_text(n / 10).push(decimal_digit(n % 10))
    }
}

/// The decimal rendering of an integer: a minus sign before the magnitude
/// for negative values.
pub open spec fn signed_decimal_text(n: int) -> Seq<char> {
    if n < 0 {
        seq!['-'] + decimal_text((-n) as nat)
    } else {
        decimal_text(n as nat)
    }
}

/// Appends the decimal rendering of one digit.
fn push_digit(s: &mut String, d: u32)
    requires
        d < 10,
    ensures
        final(s)@ == old(s)@ + seq![decimal_digit(d as nat)],
{
    let t: &str = match d {
        0 => "0",
        1 => "1",
        2 => "2",
        3 => "3",
        4 => "4",
        5 => "5",
        6 => "6",
        7 => "7",
        8 => "8",
        _ => "9",
    };
    proof {
        reveal_strlit("0");
        reveal_strlit("1");
        reveal_strlit("2");
        reveal_strlit("3");
        reveal_strlit("4");
        reveal_strlit("5");
        reveal_strlit("6");
        reveal_strlit("7");
        reveal_strlit("8");
        reveal_strlit("9");
        assert(t@ =~= seq![decimal_digit(d as nat)]);
    }
    s.append(t);
}

/// Appends the decimal rendering of a number.
fn push_decimal(s: &mut String, n: u32)
    ensures
        final(s)@ == old(s)@ + decimal_text(n as nat),
    decreases n,
{
    if n >= 10 {
        push_decimal(s, n / 10);
    }
    push_digit(s, n % 10);
}

/// How an external subprocess terminated: success (exit code 0) or failure
/// carrying the signed exit code, with -1 standing in when no code is
/// available (termination by signal).
#[derive(Clone, Copy, Debug, PartialEq, Eq, Structural)]
pub enum ProcessOutcome {
    Success,
    Failure(i32),
}

/// Every failure the pipeline can report. Each variant carries only the data
/// needed to render its one-line message.
#[derive(Clone, Debug)]
pub enum PipelineError {
    /// The build succeeded but produced no qualifying artifact.
    NoImage,
    /// More than one artifact with a non-empty executable path was observed.
    MultipleImages,
    /// A child process exited non-zero; carries the exit code, or -1 if none.
    SubprocessFailed(i32),
    /// A process could not be spawned or a pipe failed; carries the message.
    Io(String),
    /// An event line of the build stream could not be decoded.
    Decode(String),
}

/// The one-line human-readable message of each error.
pub open spec fn error_message_text(e: PipelineError) -> Seq<char> {
    match e {
        PipelineError::NoImage => "No binary image found."@,
        PipelineError::MultipleImages => (
            "Found multiple binary images in crate. This is currently not supported."@
        ),
        PipelineError::SubprocessFailed(c) => "Subprocess exited with code "@ + signed_decimal_text(
            c as int,
        ),
        PipelineError::Io(s) => "io error: "@ + s@,
        PipelineError::Decode(s) => "serialization error: "@ + s@,
    }
}

impl PipelineError {
    /// Renders the error as its one-line human-readable message.
    pub fn message(&self) -> (r: String)
        ensures
            r@ == error_message_text(*self),
    {
        match self {
            PipelineError::NoImage => String::from_str("No binary image found."),
            PipelineError::MultipleImages => String::from_str(
                "Found multiple binary images in crate. This is currently not supported.",
            ),
            PipelineError::SubprocessFailed(c) => {
                let mut s = String::from_str("Subprocess exited with code ");
                if *c < 0 {
                    s.append("-");
                    let m: u32 = (-(*c as i64)) as u32;
                    proof {
                        reveal_strlit("-");
                        assert(m as nat == (-(*c as int)) as nat);
                    }
                    push_decimal(&mut s, m);
                } else {
                    push_decimal(&mut s, *c as u32);
                }
                s
            },
            PipelineError::Io(m) => {
                let mut s = String::from_str("io error: ");
                s.append(m.as_str());
                s
            },
            PipelineError::Decode(m) => {
                let mut s = String::from_str("serialization error: ");
                s.append(m.as_str());
                s
            },
        }
    }
}

impl ProcessOutcome {
    /// Classifies a subprocess outcome: success is `Ok`, any failure is
    /// `SubprocessFailed` with its exit code.
    pub fn classify(&self) -> (r: Result<(), PipelineError>)
        ensures
            *self is Success <==> r is Ok,
            forall|c: i32| *self == ProcessOutcome::Failure(c) ==> r == Result::<(), PipelineError>::Err(
                PipelineError::SubprocessFailed(c),
            ),
    {
        match self {
            ProcessOutcome::Success => Ok(()),
            ProcessOutcome::Failure(c) => Err(PipelineError::SubprocessFailed(*c)),
        }
    }
}

} // verus!
