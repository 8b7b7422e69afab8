//! Running the machine against scripted outcomes, with nothing done outside:
//! whole cycles, and sequences of them.

use vstd::prelude::*;
use crate::config::{Config, ConfigView};
use crate::backoff::{backoff_seconds, lemma_backoff_is_capped_power};
use crate::cycle::{
    elapsed_between, retry_after, step, Action, Event, LoopState, LoopStateView, Notice, Phase,
    PhaseView, RemoteError, Step,
};
use crate::error::ErrorKind;

verus! {

/// The outcomes that the outside work of one cycle will have, and the time at
/// which the cycle runs. Outcomes of work that the cycle never gets to are
/// not looked at.
#[derive(Debug)]
pub struct CycleScript {
    /// Whether the local repository can be opened.
    pub opened: bool,
    /// What fetching the remote head gives.
    pub remote: Result<String, RemoteError>,
    /// What reading the local head gives.
    pub local: Option<String>,
    /// Whether a pull, if one is made, succeeds.
    pub pull_succeeds: bool,
    /// The time of the cycle, in seconds since the Unix epoch.
    pub at: u64,
}

/// A scripted cycle as plain values.
pub struct CycleScriptView {
    pub opened: bool,
    pub remote: Result<Seq<char>, RemoteError>,
    pub local: Option<Seq<char>>,
    pub pull_succeeds: bool,
    pub at: u64,
}

impl View for CycleScript {
    type V = CycleScriptView;

    open spec fn view(&self) -> CycleScriptView {
        CycleScriptView {
            opened: self.opened,
            remote: match self.remote {
                Ok(head) => Ok(head@),
                Err(e) => Err(e),
            },
            local: match self.local {
                Some(head) => Some(head@),
                None => None,
            },
            pull_succeeds: self.pull_succeeds,
            at: self.at,
        }
    }
}

impl CycleScriptView {
    /// Both heads were obtained.
    pub open spec fn healthy(self) -> bool {
        self.opened && self.remote is Ok && self.local is Some
    }

    /// Both heads were obtained and they differ.
    pub open spec fn diverged(self) -> bool {
        self.healthy() && self.remote->Ok_0 != self.local->0
    }
}

/// What one cycle did.
#[derive(Clone, Copy, Debug, PartialEq, Eq, Structural)]
pub struct CycleReport {
    /// Whether the pull was invoked.
    pub pulled: bool,
    /// The seconds of the sleep that ended the cycle.
    pub slept: u64,
    /// The last thing the cycle reported.
    pub notice: Notice,
}

/// The state after a whole cycle that starts from `s`, and what the cycle
/// did.
pub open spec fn cycle_model(cfg: ConfigView, s: LoopStateView, c: CycleScriptView) -> (
    LoopStateView,
    CycleReport,
) {
    let interval = cfg.check_interval_seconds;
    let asleep = LoopStateView { phase: PhaseView::Sleeping, ..s };
    if !c.opened {
        (
            asleep,
            CycleReport {
                pulled: false,
                slept: interval,
                notice: Notice::Failed(ErrorKind::LocalRepoUnavailable),
            },
        )
    } else if c.remote is Err || c.local is None {
        let kind = if c.remote is Err {
            c.remote->Err_0.kind_of()
        } else {
            ErrorKind::LocalRepoUnavailable
        };
        let (next, answer) = retry_after(s, kind);
        (next, CycleReport { pulled: false, slept: answer.action->Sleep_0, notice: answer.notice })
    } else if c.remote->Ok_0 != c.local->0 {
        (
            LoopStateView { phase: PhaseView::Sleeping, last_change_time: c.at, backoff_attempt: 0 },
            CycleReport {
                pulled: true,
                slept: interval,
                notice: if c.pull_succeeds {
                    Notice::Pulled
                } else {
                    Notice::Failed(ErrorKind::SyncActionFailed)
                },
            },
        )
    } else {
        (
            LoopStateView { backoff_attempt: 0, ..asleep },
            CycleReport {
                pulled: false,
                slept: interval,
                notice: Notice::Unchanged {
                    since: s.last_change_time,
                    elapsed: elapsed_between(s.last_change_time, c.at),
                },
            },
        )
    }
}

/// The report of a cycle that ends with the answer `last`.
fn closing(pulled: bool, last: Step) -> (r: Option<CycleReport>)
    ensures
        match last.action {
            Action::Sleep(seconds) => r == Some(
                CycleReport { pulled, slept: seconds, notice: last.notice },
            ),
            _ => r is None,
        },
{
    match last.action {
        Action::Sleep(seconds) => Some(CycleReport { pulled, slept: seconds, notice: last.notice }),
        _ => None,
    }
}

/// Runs one whole cycle, from waking to the sleep that ends it, feeding the
/// machine the scripted outcomes in place of outside work.
///
/// The state must stand between two cycles; otherwise nothing is done and
/// the answer is `None`.
pub fn run_cycle(config: &Config, state: &mut LoopState, script: &CycleScript) -> (report: Option<
    CycleReport,
>)
    ensures
        old(state)@.phase == PhaseView::Sleeping ==> report == Some(
            cycle_model(config@, old(state)@, script@).1,
        ) && final(state)@ == cycle_model(config@, old(state)@, script@).0,
        old(state)@.phase != PhaseView::Sleeping ==> report is None && *final(state) == *old(
            state,
        ),
{
    let now: u64 = script.at;
    if step(config, state, Event::Woke, now).is_none() {
        return None;
    }
    let opened = match step(config, state, Event::LocalOpened(script.opened), now) {
        Some(answer) => answer,
        None => { return None; },
    };
    if !script.opened {
        return closing(false, opened);
    }
    let fetched_event = match &script.remote {
        Ok(head) => Event::RemoteFetched(Ok(head.clone())),
        Err(e) => Event::RemoteFetched(Err(*e)),
    };
    let fetched = match step(config, state, fetched_event, now) {
        Some(answer) => answer,
        None => { return None; },
    };
    if script.remote.is_err() {
        return closing(false, fetched);
    }
    let read_event = match &script.local {
        Some(head) => Event::LocalRead(Some(head.clone())),
        None => Event::LocalRead(None),
    };
    let read = match step(config, state, read_event, now) {
        Some(answer) => answer,
        None => { return None; },
    };
    match read.action {
        Action::Pull => {
            match step(config, state, Event::PullFinished(script.pull_succeeds), now) {
                Some(answer) => closing(true, answer),
                None => None,
            }
        },
        _ => closing(false, read),
    }
}

/// The scripted cycles as plain values, in order.
pub open spec fn script_views(script: Seq<CycleScript>) -> Seq<CycleScriptView> {
    script.map_values(|c: CycleScript| c@)
}

/// The state after the scripted cycles have run one after the other from
/// `s`, and the report of each.
pub open spec fn replay_model(cfg: ConfigView, s: LoopStateView, script: Seq<CycleScriptView>) -> (
    LoopStateView,
    Seq<CycleReport>,
)
    decreases script.len(),
{
    if script.len() == 0 {
        (s, Seq::empty())
    } else {
        let (before, reports) = replay_model(cfg, s, script.drop_last());
        let (after, report) = cycle_model(cfg, before, script.last());
        (after, reports.push(report))
    }
}

/// The state in which cycle `k` of the script starts (for `k` the script's
/// length: the state at the end).
pub open spec fn state_before(
    cfg: ConfigView,
    s: LoopStateView,
    script: Seq<CycleScriptView>,
    k: int,
) -> LoopStateView {
    replay_model(cfg, s, script.take(k)).0
}

/// A replay gives one report per cycle; each cycle starts from the state
/// that the cycles before it left, and its report is that of the cycle run
/// alone from there.
pub proof fn lemma_replay_unfolds(
    cfg: ConfigView,
    s: LoopStateView,
    script: Seq<CycleScriptView>,
    i: int,
)
    requires
        0 <= i < script.len(),
    ensures
        replay_model(cfg, s, script).1.len() == script.len(),
        replay_model(cfg, s, script).1[i] == cycle_model(
            cfg,
            state_before(cfg, s, script, i),
            script[i],
        ).1,
        state_before(cfg, s, script, i + 1) == cycle_model(
            cfg,
            state_before(cfg, s, script, i),
            script[i],
        ).0,
        state_before(cfg, s, script, 0) == s,
        state_before(cfg, s, script, script.len() as int) == replay_model(cfg, s, script).0,
    decreases script.len(),
{
    let shorter = script.drop_last();
    assert(script.take(script.len() as int) =~= script);
    assert(script.take(0).len() == 0);
    if shorter.len() > 0 {
        lemma_replay_unfolds(cfg, s, shorter, 0);
    }
    if i == script.len() - 1 {
        assert(script.take(i) =~= shorter);
        assert(script.take(i + 1) =~= script);
    } else {
        lemma_replay_unfolds(cfg, s, shorter, i);
        assert(shorter.take(i) =~= script.take(i));
        assert(shorter.take(i + 1) =~= script.take(i + 1));
    }
}

/// Every cycle leaves the loop between two cycles.
pub proof fn lemma_cycle_ends_asleep(cfg: ConfigView, s: LoopStateView, c: CycleScriptView)
    ensures
        cycle_model(cfg, s, c).0.phase == PhaseView::Sleeping,
{
}

/// Runs the scripted cycles one after the other and gives the report of
/// each, in order.
///
/// The state must stand between two cycles; otherwise nothing is done and
/// the answer is `None`.
pub fn replay(config: &Config, state: &mut LoopState, script: &Vec<CycleScript>) -> (reports:
    Option<Vec<CycleReport>>)
    ensures
        old(state)@.phase == PhaseView::Sleeping ==> reports is Some && (reports->0@, final(state)@)
            == (
            replay_model(config@, old(state)@, script_views(script@)).1,
            replay_model(config@, old(state)@, script_views(script@)).0,
        ),
        old(state)@.phase != PhaseView::Sleeping ==> reports is None && *final(state) == *old(
            state,
        ),
{
    match state.phase {
        Phase::Sleeping => {},
        _ => { return None; },
    }
    let ghost start = state@;
    let ghost views = script_views(script@);
    let mut reports: Vec<CycleReport> = Vec::new();
    let mut i: usize = 0;
    proof {
        assert(views.take(0).len() == 0);
    }
    while i < script.len()
        invariant
            0 <= i <= script.len(),
            views == script_views(script@),
            views.len() == script.len(),
            state@.phase == PhaseView::Sleeping,
            state@ == replay_model(config@, start, views.take(i as int)).0,
            reports@ == replay_model(config@, start, views.take(i as int)).1,
        decreases script.len() - i,
    {
        let ghost before = state@;
        let outcome = run_cycle(config, state, &script[i]);
        proof {
            let longer = views.take(i + 1);
            assert(longer.drop_last() =~= views.take(i as int));
            assert(longer.last() == script@[i as int]@);
        }
        match outcome {
            Some(report) => {
                reports.push(report);
            },
            None => {
                return None;
            },
        }
        i = i + 1;
    }
    proof {
        assert(views.take(i as int) =~= views);
    }
    Some(reports)
}

/// The pull is invoked in exactly the cycles in which both heads were
/// obtained and differ, whatever the state the replay starts from.
pub proof fn lemma_pulls_are_divergences(
    cfg: ConfigView,
    s: LoopStateView,
    script: Seq<CycleScriptView>,
    i: int,
)
    requires
        0 <= i < script.len(),
    ensures
        replay_model(cfg, s, script).1[i].pulled == script[i].diverged(),
{
    lemma_replay_unfolds(cfg, s, script, i);
}

/// While the heads agree cycle after cycle, the pull is never invoked, the
/// failure counter stands at zero after each cycle, and the time of the last
/// change stays what it was.
pub proof fn lemma_agreeing_heads_stay_idle(
    cfg: ConfigView,
    s: LoopStateView,
    script: Seq<CycleScriptView>,
    i: int,
)
    requires
        0 <= i < script.len(),
        forall|j: int| 0 <= j < script.len() ==> (#[trigger] script[j]).healthy() && !script[j].diverged(),
    ensures
        !replay_model(cfg, s, script).1[i].pulled,
        replay_model(cfg, s, script).1[i].slept == cfg.check_interval_seconds,
        state_before(cfg, s, script, i + 1).backoff_attempt == 0,
        state_before(cfg, s, script, i + 1).last_change_time == s.last_change_time,
    decreases i,
{
    lemma_replay_unfolds(cfg, s, script, i);
    if i > 0 {
        lemma_agreeing_heads_stay_idle(cfg, s, script, i - 1);
    }
}

/// A cycle in which the heads differ sets the time of the last change to the
/// time of the cycle and the failure counter to zero, whatever the counter
/// was before and however the pull ends.
pub proof fn lemma_divergence_resets(cfg: ConfigView, s: LoopStateView, c: CycleScriptView)
    requires
        c.diverged(),
    ensures
        cycle_model(cfg, s, c).0.last_change_time == c.at,
        cycle_model(cfg, s, c).0.backoff_attempt == 0,
        cycle_model(cfg, s, c).1.pulled,
{
}

/// The same inside a replay: after each cycle in which the heads differ, the
/// time of the last change is the time of that cycle and the failure counter
/// is zero.
pub proof fn lemma_divergence_resets_in_replay(
    cfg: ConfigView,
    s: LoopStateView,
    script: Seq<CycleScriptView>,
    i: int,
)
    requires
        0 <= i < script.len(),
        script[i].diverged(),
    ensures
        state_before(cfg, s, script, i + 1).last_change_time == script[i].at,
        state_before(cfg, s, script, i + 1).backoff_attempt == 0,
{
    lemma_replay_unfolds(cfg, s, script, i);
}

/// Any cycle in which both heads were obtained sets the failure counter to
/// zero.
pub proof fn lemma_success_resets_attempts(cfg: ConfigView, s: LoopStateView, c: CycleScriptView)
    requires
        c.healthy(),
    ensures
        cycle_model(cfg, s, c).0.backoff_attempt == 0,
        cycle_model(cfg, s, c).1.slept == cfg.check_interval_seconds,
{
}

impl CycleScriptView {
    /// The repository opened, but one of the two heads could not be
    /// obtained.
    pub open spec fn headless(self) -> bool {
        self.opened && (self.remote is Err || self.local is None)
    }
}

/// While cycle after cycle fails to obtain a head, each failure is counted
/// and each sleep is the backoff delay of the failures counted before it:
/// from a counter of zero, one second, then two, then four, and so on up to
/// the ceiling.
pub proof fn lemma_failures_back_off(
    cfg: ConfigView,
    s: LoopStateView,
    script: Seq<CycleScriptView>,
    i: int,
)
    requires
        0 <= i < script.len(),
        s.backoff_attempt + script.len() <= u32::MAX,
        forall|j: int| 0 <= j < script.len() ==> (#[trigger] script[j]).headless(),
    ensures
        !replay_model(cfg, s, script).1[i].pulled,
        replay_model(cfg, s, script).1[i].slept == backoff_seconds(
            (s.backoff_attempt + i) as nat,
        ),
        state_before(cfg, s, script, i + 1).backoff_attempt == s.backoff_attempt + i + 1,
        state_before(cfg, s, script, i + 1).last_change_time == s.last_change_time,
    decreases i,
{
    lemma_replay_unfolds(cfg, s, script, i);
    lemma_backoff_is_capped_power((s.backoff_attempt + i) as nat);
    if i > 0 {
        lemma_failures_back_off(cfg, s, script, i - 1);
    }
}

} // verus!
