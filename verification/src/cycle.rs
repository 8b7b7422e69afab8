//! The reconciliation loop as a state machine.
//!
//! One cycle opens the local repository, fetches the remote head, reads the
//! local head, compares the two, pulls when they differ, and sleeps. The
//! machine does none of that work itself: [`step`] takes the outcome of the
//! work just done and answers with the work to do next.

use vstd::prelude::*;
use crate::backoff::{backoff_seconds, exponential_backoff};
use crate::config::{Config, ConfigView};
use crate::error::ErrorKind;

verus! {

/// Where the loop stands inside a cycle: the outside work whose outcome it is
/// waiting for.
#[derive(Clone, Debug)]
pub enum Phase {
    /// Between two cycles.
    Sleeping,
    /// The local repository is being opened.
    OpeningLocal,
    /// The remote head is being fetched.
    FetchingRemote,
    /// The local head is being read; the remote head is already known.
    ReadingLocal { remote_head: String },
    /// The heads differed and the pull is running.
    Pulling,
}

/// A phase as plain values.
pub enum PhaseView {
    Sleeping,
    OpeningLocal,
    FetchingRemote,
    ReadingLocal { remote_head: Seq<char> },
    Pulling,
}

impl View for Phase {
    type V = PhaseView;

    open spec fn view(&self) -> PhaseView {
        match self {
            Phase::Sleeping => PhaseView::Sleeping,
            Phase::OpeningLocal => PhaseView::OpeningLocal,
            Phase::FetchingRemote => PhaseView::FetchingRemote,
            Phase::ReadingLocal { remote_head } => PhaseView::ReadingLocal {
                remote_head: remote_head@,
            },
            Phase::Pulling => PhaseView::Pulling,
        }
    }
}

/// What the loop remembers from one cycle to the next. Times are whole
/// seconds since the Unix epoch.
#[derive(Clone, Debug)]
pub struct LoopState {
    pub phase: Phase,
    /// When a divergence was last acted on, or when the loop started.
    pub last_change_time: u64,
    /// How many cycles in a row have failed to obtain a head.
    pub backoff_attempt: u32,
}

/// The loop state as plain values.
pub struct LoopStateView {
    pub phase: PhaseView,
    pub last_change_time: u64,
    pub backoff_attempt: u32,
}

impl View for LoopState {
    type V = LoopStateView;

    open spec fn view(&self) -> LoopStateView {
        LoopStateView {
            phase: self.phase@,
            last_change_time: self.last_change_time,
            backoff_attempt: self.backoff_attempt,
        }
    }
}

/// Why the remote head could not be obtained.
#[derive(Clone, Copy, Debug, PartialEq, Eq, Structural)]
pub enum RemoteError {
    /// The request did not get through, or timed out.
    Unavailable,
    /// The answer was not a success status with a commit identifier in it.
    Protocol,
}

impl RemoteError {
    /// The kind under which the failure is reported.
    pub open spec fn kind_of(self) -> ErrorKind {
        match self {
            RemoteError::Unavailable => ErrorKind::RemoteUnavailable,
            RemoteError::Protocol => ErrorKind::RemoteProtocolError,
        }
    }

    /// The kind under which the failure is reported.
    pub fn kind(&self) -> (k: ErrorKind)
        ensures
            k == self.kind_of(),
    {
        match self {
            RemoteError::Unavailable => ErrorKind::RemoteUnavailable,
            RemoteError::Protocol => ErrorKind::RemoteProtocolError,
        }
    }
}

/// The outcome of a piece of outside work, handed to the machine.
#[derive(Debug)]
pub enum Event {
    /// The sleep is over (or the loop has just started).
    Woke,
    /// The local repository was opened, or could not be.
    LocalOpened(bool),
    /// The remote head, or why there is none.
    RemoteFetched(Result<String, RemoteError>),
    /// The local head, or `None` where it cannot be resolved.
    LocalRead(Option<String>),
    /// The pull ended, successfully or not.
    PullFinished(bool),
}

/// An event as plain values.
pub enum EventView {
    Woke,
    LocalOpened(bool),
    RemoteFetched(Result<Seq<char>, RemoteError>),
    LocalRead(Option<Seq<char>>),
    PullFinished(bool),
}

impl View for Event {
    type V = EventView;

    open spec fn view(&self) -> EventView {
        match self {
            Event::Woke => EventView::Woke,
            Event::LocalOpened(ok) => EventView::LocalOpened(*ok),
            Event::RemoteFetched(Ok(head)) => EventView::RemoteFetched(Ok(head@)),
            Event::RemoteFetched(Err(e)) => EventView::RemoteFetched(Err(*e)),
            Event::LocalRead(Some(head)) => EventView::LocalRead(Some(head@)),
            Event::LocalRead(None) => EventView::LocalRead(None),
            Event::PullFinished(ok) => EventView::PullFinished(*ok),
        }
    }
}

/// The outside work that the driver performs next.
#[derive(Clone, Copy, Debug, PartialEq, Eq, Structural)]
pub enum Action {
    /// Open the repository at the configured path.
    OpenLocal,
    /// Ask the hosting service for the head of the configured branch.
    FetchRemote,
    /// Read the head of the local checkout.
    ReadLocal,
    /// Pull into the local checkout.
    Pull,
    /// Sleep for so many seconds.
    Sleep(u64),
}

/// What the driver reports to its log or its status line.
#[derive(Clone, Copy, Debug, PartialEq, Eq, Structural)]
pub enum Notice {
    /// Nothing.
    Quiet,
    /// An error of this kind, to the log.
    Failed(ErrorKind),
    /// The heads differ and a pull follows, to the log.
    ChangesDetected,
    /// The pull succeeded, to the log.
    Pulled,
    /// The heads agree: refresh the status line with the time of the last
    /// change and the seconds gone by since.
    Unchanged { since: u64, elapsed: u64 },
}

/// The machine's answer to an event.
#[derive(Clone, Copy, Debug, PartialEq, Eq, Structural)]
pub struct Step {
    pub action: Action,
    pub notice: Notice,
}

/// The seconds from `since` to `now`; zero where the clock has gone back.
pub open spec fn elapsed_between(since: u64, now: u64) -> u64 {
    if now >= since {
        (now - since) as u64
    } else {
        0
    }
}

/// The attempt counter after one more failure. It stops at the largest
/// value of its type, far beyond the point where the delay stops growing.
pub open spec fn bumped(attempt: u32) -> u32 {
    if attempt < u32::MAX {
        (attempt + 1) as u32
    } else {
        attempt
    }
}

/// The state and answer after a failure to obtain a head: report it, sleep
/// for the backoff delay of the current attempt, and count the failure.
pub open spec fn retry_after(s: LoopStateView, kind: ErrorKind) -> (LoopStateView, Step) {
    (
        LoopStateView {
            phase: PhaseView::Sleeping,
            last_change_time: s.last_change_time,
            backoff_attempt: bumped(s.backoff_attempt),
        },
        Step {
            action: Action::Sleep(backoff_seconds(s.backoff_attempt as nat) as u64),
            notice: Notice::Failed(kind),
        },
    )
}

/// The transition function. `None` where the event is not the outcome that
/// the phase waits for.
pub open spec fn transition(cfg: ConfigView, s: LoopStateView, e: EventView, now: u64) -> Option<
    (LoopStateView, Step),
> {
    let interval = cfg.check_interval_seconds;
    match (s.phase, e) {
        (PhaseView::Sleeping, EventView::Woke) => Some(
            (
                LoopStateView { phase: PhaseView::OpeningLocal, ..s },
                Step { action: Action::OpenLocal, notice: Notice::Quiet },
            ),
        ),
        (PhaseView::OpeningLocal, EventView::LocalOpened(true)) => Some(
            (
                LoopStateView { phase: PhaseView::FetchingRemote, ..s },
                Step { action: Action::FetchRemote, notice: Notice::Quiet },
            ),
        ),
        (PhaseView::OpeningLocal, EventView::LocalOpened(false)) => Some(
            (
                LoopStateView { phase: PhaseView::Sleeping, ..s },
                Step {
                    action: Action::Sleep(interval),
                    notice: Notice::Failed(ErrorKind::LocalRepoUnavailable),
                },
            ),
        ),
        (PhaseView::FetchingRemote, EventView::RemoteFetched(Ok(remote_head))) => Some(
            (
                LoopStateView { phase: PhaseView::ReadingLocal { remote_head }, ..s },
                Step { action: Action::ReadLocal, notice: Notice::Quiet },
            ),
        ),
        (PhaseView::FetchingRemote, EventView::RemoteFetched(Err(e))) => Some(
            retry_after(s, e.kind_of()),
        ),
        (PhaseView::ReadingLocal { remote_head }, EventView::LocalRead(Some(local_head))) => {
            if remote_head != local_head {
                Some(
                    (
                        LoopStateView { phase: PhaseView::Pulling, ..s },
                        Step { action: Action::Pull, notice: Notice::ChangesDetected },
                    ),
                )
            } else {
                Some(
                    (
                        LoopStateView {
                            phase: PhaseView::Sleeping,
                            last_change_time: s.last_change_time,
                            backoff_attempt: 0,
                        },
                        Step {
                            action: Action::Sleep(interval),
                            notice: Notice::Unchanged {
                                since: s.last_change_time,
                                elapsed: elapsed_between(s.last_change_time, now),
                            },
                        },
                    ),
                )
            }
        },
        (PhaseView::ReadingLocal { .. }, EventView::LocalRead(None)) => Some(
            retry_after(s, ErrorKind::LocalRepoUnavailable),
        ),
        (PhaseView::Pulling, EventView::PullFinished(ok)) => Some(
            (
                LoopStateView {
                    phase: PhaseView::Sleeping,
                    last_change_time: now,
                    backoff_attempt: 0,
                },
                Step {
                    action: Action::Sleep(interval),
                    notice: if ok {
                        Notice::Pulled
                    } else {
                        Notice::Failed(ErrorKind::SyncActionFailed)
                    },
                },
            ),
        ),
        _ => None,
    }
}

impl LoopState {
    /// The state at startup: between cycles, no failure counted, and the
    /// start taken as the time of the last change.
    pub fn new(now: u64) -> (state: LoopState)
        ensures
            state@ == (LoopStateView {
                phase: PhaseView::Sleeping,
                last_change_time: now,
                backoff_attempt: 0,
            }),
    {
        LoopState { phase: Phase::Sleeping, last_change_time: now, backoff_attempt: 0 }
    }
}

/// Counts a failure to obtain a head and answers with the backoff sleep.
fn back_off(state: &mut LoopState, kind: ErrorKind) -> (answer: Step)
    ensures
        (final(state)@, answer) == retry_after(old(state)@, kind),
{
    let delay: u64 = exponential_backoff(state.backoff_attempt);
    if state.backoff_attempt < u32::MAX {
        state.backoff_attempt = state.backoff_attempt + 1;
    }
    state.phase = Phase::Sleeping;
    Step { action: Action::Sleep(delay), notice: Notice::Failed(kind) }
}

/// Takes the outcome of the work that the machine last asked for, at time
/// `now`, and answers with the work to do next and what to report.
///
/// An event that the current phase does not wait for changes nothing and is
/// answered with `None`.
pub fn step(config: &Config, state: &mut LoopState, event: Event, now: u64) -> (answer: Option<
    Step,
>)
    ensures
        match transition(config@, old(state)@, event@, now) {
            Some((next, expected)) => answer == Some(expected) && final(state)@ == next,
            None => answer is None && *final(state) == *old(state),
        },
{
    let interval: u64 = config.local_repo.check_interval_seconds;
    match event {
        Event::Woke => {
            if let Phase::Sleeping = state.phase {
                state.phase = Phase::OpeningLocal;
                Some(Step { action: Action::OpenLocal, notice: Notice::Quiet })
            } else {
                None
            }
        },
        Event::LocalOpened(ok) => {
            if let Phase::OpeningLocal = state.phase {
                if ok {
                    state.phase = Phase::FetchingRemote;
                    Some(Step { action: Action::FetchRemote, notice: Notice::Quiet })
                } else {
                    state.phase = Phase::Sleeping;
                    Some(
                        Step {
                            action: Action::Sleep(interval),
                            notice: Notice::Failed(ErrorKind::LocalRepoUnavailable),
                        },
                    )
                }
            } else {
                None
            }
        },
        Event::RemoteFetched(outcome) => {
            if let Phase::FetchingRemote = state.phase {
                match outcome {
                    Ok(remote_head) => {
                        state.phase = Phase::ReadingLocal { remote_head };
                        Some(Step { action: Action::ReadLocal, notice: Notice::Quiet })
                    },
                    Err(e) => Some(back_off(state, e.kind())),
                }
            } else {
                None
            }
        },
        Event::LocalRead(outcome) => {
            let agree: Option<bool> = match &state.phase {
                Phase::ReadingLocal { remote_head } => match &outcome {
                    Some(local_head) => Some(*remote_head == *local_head),
                    None => None,
                },
                _ => { return None; },
            };
            match agree {
                None => Some(back_off(state, ErrorKind::LocalRepoUnavailable)),
                Some(false) => {
                    state.phase = Phase::Pulling;
                    Some(Step { action: Action::Pull, notice: Notice::ChangesDetected })
                },
                Some(true) => {
                    let since: u64 = state.last_change_time;
                    let elapsed: u64 = if now >= since {
                        now - since
                    } else {
                        0
                    };
                    state.phase = Phase::Sleeping;
                    state.backoff_attempt = 0;
                    Some(
                        Step {
                            action: Action::Sleep(interval),
                            notice: Notice::Unchanged { since, elapsed },
                        },
                    )
                },
            }
        },
        Event::PullFinished(ok) => {
            if let Phase::Pulling = state.phase {
                state.phase = Phase::Sleeping;
                state.last_change_time = now;
                state.backoff_attempt = 0;
                let notice = if ok {
                    Notice::Pulled
                } else {
                    Notice::Failed(ErrorKind::SyncActionFailed)
                };
                Some(Step { action: Action::Sleep(interval), notice })
            } else {
                None
            }
        },
    }
}

impl LoopStateView {
    /// The event reports that one of the two heads could not be obtained.
    pub open spec fn lost_head(self, e: EventView) -> bool {
        ||| self.phase is FetchingRemote && e is RemoteFetched && e->RemoteFetched_0 is Err
        ||| self.phase is ReadingLocal && e == EventView::LocalRead(None)
    }

    /// The event reports a local head that differs from the remote head
    /// fetched before it.
    pub open spec fn sees_divergence(self, e: EventView) -> bool {
        &&& self.phase is ReadingLocal
        &&& e is LocalRead
        &&& e->LocalRead_0 is Some
        &&& self.phase->remote_head != e->LocalRead_0->0
    }
}

/// The pull is asked for exactly when a local head arrives that differs from
/// the remote head: never on agreement, never after a failure, and never
/// twice for one comparison.
pub proof fn lemma_pull_only_on_divergence(cfg: ConfigView, s: LoopStateView, e: EventView, now: u64)
    ensures
        (transition(cfg, s, e, now) is Some && transition(cfg, s, e, now).unwrap().1.action
            == Action::Pull) <==> s.sees_divergence(e),
{
}

/// When the heads agree, the machine goes to sleep for the poll interval
/// with the failure counter at zero and the time of the last change
/// untouched.
pub proof fn lemma_agreement_idles(cfg: ConfigView, s: LoopStateView, head: Seq<char>, now: u64)
    requires
        s.phase == (PhaseView::ReadingLocal { remote_head: head }),
    ensures
        transition(cfg, s, EventView::LocalRead(Some(head)), now) == Some(
            (
                LoopStateView {
                    phase: PhaseView::Sleeping,
                    last_change_time: s.last_change_time,
                    backoff_attempt: 0,
                },
                Step {
                    action: Action::Sleep(cfg.check_interval_seconds),
                    notice: Notice::Unchanged {
                        since: s.last_change_time,
                        elapsed: elapsed_between(s.last_change_time, now),
                    },
                },
            ),
        ),
{
}

/// When the pull ends, however it ends and whatever the failure counter
/// was, the time of the last change becomes the time of the event and the
/// counter becomes zero.
pub proof fn lemma_pull_resets(cfg: ConfigView, s: LoopStateView, ok: bool, now: u64)
    requires
        s.phase == PhaseView::Pulling,
    ensures
        transition(cfg, s, EventView::PullFinished(ok), now) is Some,
        transition(cfg, s, EventView::PullFinished(ok), now).unwrap().0 == (LoopStateView {
            phase: PhaseView::Sleeping,
            last_change_time: now,
            backoff_attempt: 0,
        }),
        transition(cfg, s, EventView::PullFinished(ok), now).unwrap().1.action == Action::Sleep(
            cfg.check_interval_seconds,
        ),
{
}

/// Every sleep lasts either the poll interval or the backoff delay, and the
/// backoff delay exactly when a head could not be obtained; only then is a
/// failure counted.
pub proof fn lemma_sleep_lengths(cfg: ConfigView, s: LoopStateView, e: EventView, now: u64)
    requires
        transition(cfg, s, e, now) is Some,
    ensures
        ({
            let (next, answer) = transition(cfg, s, e, now).unwrap();
            if s.lost_head(e) {
                &&& answer.action == Action::Sleep(backoff_seconds(s.backoff_attempt as nat) as u64)
                &&& next.backoff_attempt == bumped(s.backoff_attempt)
                &&& next.last_change_time == s.last_change_time
            } else {
                &&& answer.action is Sleep ==> answer.action == Action::Sleep(
                    cfg.check_interval_seconds,
                )
                &&& next.backoff_attempt == 0 || next.backoff_attempt == s.backoff_attempt
            }
        }),
{
}

/// Every failure is reported: a transition out of a failed piece of work
/// carries a notice that names the kind of failure.
pub proof fn lemma_failures_are_reported(cfg: ConfigView, s: LoopStateView, e: EventView, now: u64)
    requires
        transition(cfg, s, e, now) is Some,
    ensures
        ({
            let notice = transition(cfg, s, e, now).unwrap().1.notice;
            &&& e == EventView::LocalOpened(false) ==> notice == Notice::Failed(
                ErrorKind::LocalRepoUnavailable,
            )
            &&& (e is RemoteFetched && e->RemoteFetched_0 is Err) ==> notice == Notice::Failed(
                e->RemoteFetched_0->Err_0.kind_of(),
            )
            &&& e == EventView::LocalRead(None) ==> notice == Notice::Failed(
                ErrorKind::LocalRepoUnavailable,
            )
            &&& e == EventView::PullFinished(false) ==> notice == Notice::Failed(
                ErrorKind::SyncActionFailed,
            )
        }),
{
}

/// The machine never ends: in every phase there is an event that it
/// accepts, and the phase after a sleep is the start of a new cycle.
pub proof fn lemma_never_stuck(cfg: ConfigView, s: LoopStateView, now: u64)
    ensures
        exists|e: EventView| (#[trigger] transition(cfg, s, e, now)) is Some,
        s.phase is Sleeping ==> transition(cfg, s, EventView::Woke, now).unwrap().0.phase
            == PhaseView::OpeningLocal,
{
    let e = match s.phase {
        PhaseView::Sleeping => EventView::Woke,
        PhaseView::OpeningLocal => EventView::LocalOpened(true),
        PhaseView::FetchingRemote => EventView::RemoteFetched(Err(RemoteError::Unavailable)),
        PhaseView::ReadingLocal { .. } => EventView::LocalRead(None),
        PhaseView::Pulling => EventView::PullFinished(true),
    };
    assert(transition(cfg, s, e, now) is Some);
}

} // verus!
