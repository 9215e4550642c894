//! The rules of a batch run: how many workers decode, where the decoded
//! files go, and how the time that a run took is reported.

use vstd::prelude::*;
use vstd::string::*;

verus! {

/// The number of workers of a run that names none.
pub const DEFAULT_WORKERS: usize = 4;

/// The directory that takes the decoded files of a run that names none.
pub open spec fn default_output() -> Seq<char> {
    "NcmmiaoOutput"@
}

/// What the user asks of a run.
#[derive(Debug, Clone, PartialEq, Eq)]
pub struct Cli {
    /// The greatest number of containers that are decoded at a time.
    pub workers: Option<usize>,
    /// The files and directories to decode.
    pub input: Vec<String>,
    /// The directory that takes the decoded files.
    pub output: Option<String>,
}

/// The number of workers for a wish: the number that is asked for, but at
/// least one, and four where none is asked for.
pub open spec fn workers_for(wish: Option<usize>) -> int {
    match wish {
        Some(n) => if n >= 1 {
            n as int
        } else {
            1
        },
        None => DEFAULT_WORKERS as int,
    }
}

impl Cli {
    /// The number of workers that the run starts: never none.
    pub fn max_workers(&self) -> (count: usize)
        ensures
            count == workers_for(self.workers),
            count >= 1,
    {
        match self.workers {
            Some(n) => if n >= 1 {
                n
            } else {
                1
            },
            None => DEFAULT_WORKERS,
        }
    }

    /// The directory that takes the decoded files: the one that is asked
    /// for, else `NcmmiaoOutput`.
    pub fn output_dir(&self) -> (dir: String)
        ensures
            dir@ == match self.output {
                Some(wish) => wish@,
                None => default_output(),
            },
    {
        match &self.output {
            Some(wish) => wish.clone(),
            None => String::from_str("NcmmiaoOutput"),
        }
    }
}

/// The moment, in milliseconds since the epoch, from which time is measured.
#[derive(Debug, Clone, Copy, PartialEq, Eq)]
pub struct TimeCompare(pub u128);

/// How a span of time is shown.
#[derive(Debug, Clone, Copy, PartialEq, Eq, Structural)]
pub enum Elapsed {
    /// Whole seconds, for a span above two seconds.
    Seconds(u128),
    /// Milliseconds, for a span of up to two seconds.
    Millis(u128),
}

/// The span from `start` to `now`, which is none where the clock went back.
pub open spec fn span(start: u128, now: u128) -> int {
    if now >= start {
        now - start
    } else {
        0
    }
}

/// How a span of `millis` milliseconds is shown: in whole seconds above
/// 2000 milliseconds, else in milliseconds.
pub open spec fn shown(millis: u128) -> Elapsed {
    if millis > 2000 {
        Elapsed::Seconds(millis / 1000)
    } else {
        Elapsed::Millis(millis)
    }
}

impl TimeCompare {
    /// Starts measuring at `now`, in milliseconds since the epoch.
    pub fn new(now: u128) -> (start: TimeCompare)
        ensures
            start.0 == now,
    {
        TimeCompare(now)
    }

    /// The milliseconds from the start to `now`. A clock that went back
    /// gives 0.
    pub fn compare(&self, now: u128) -> (millis: u128)
        ensures
            millis == span(self.0, now),
    {
        if now >= self.0 {
            now - self.0
        } else {
            0
        }
    }
}

/// Chooses the unit in which a span of time is shown.
pub fn show_elapsed(millis: u128) -> (elapsed: Elapsed)
    ensures
        elapsed == shown(millis),
{
    if millis > 2000 {
        Elapsed::Seconds(millis / 1000)
    } else {
        Elapsed::Millis(millis)
    }
}

} // verus!
