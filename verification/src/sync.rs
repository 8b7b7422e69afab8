//! The sync action: pulling into the local checkout. It is run as an outside
//! process, at most once in a cycle; whether it fails or not, the loop goes
//! on.

use vstd::prelude::*;
use vstd::string::*;
use crate::cycle::{Event, EventView};

verus! {

/// The program that pulls.
pub const PULL_PROGRAM: &'static str = "git";

/// The arguments of the pull for a checkout: `-C <path> pull`.
pub open spec fn pull_arguments_text(local_path: Seq<char>) -> Seq<Seq<char>> {
    seq!["-C"@, local_path, "pull"@]
}

/// The texts of a list of strings.
pub open spec fn texts_of(strings: Seq<String>) -> Seq<Seq<char>> {
    strings.map_values(|s: String| s@)
}

/// Builds the arguments with which the pull program is run for the checkout
/// at `local_path`.
pub fn pull_arguments(local_path: &str) -> (arguments: Vec<String>)
    ensures
        texts_of(arguments@) == pull_arguments_text(local_path@),
{
    let mut arguments: Vec<String> = Vec::new();
    arguments.push(String::from_str("-C"));
    arguments.push(String::from_str(local_path));
    arguments.push(String::from_str("pull"));
    assert(texts_of(arguments@) =~= pull_arguments_text(local_path@));
    arguments
}

/// How the pull process ended.
#[derive(Clone, Copy, Debug, PartialEq, Eq, Structural)]
pub enum PullOutcome {
    /// The process could not be started.
    NotRun,
    /// The process ran and exited, with a success status or without.
    Exited { success: bool },
}

impl PullOutcome {
    /// The pull succeeded: the process ran and exited with success.
    pub open spec fn succeeded(self) -> bool {
        self == (PullOutcome::Exited { success: true })
    }

    /// The event that reports this outcome to the loop.
    pub fn into_event(self) -> (event: Event)
        ensures
            event@ == EventView::PullFinished(self.succeeded()),
    {
        match self {
            PullOutcome::Exited { success } => Event::PullFinished(success),
            PullOutcome::NotRun => Event::PullFinished(false),
        }
    }
}

} // verus!
