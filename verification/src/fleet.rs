//! Fanning one whitelist command out over the fleet, server by server, with
//! a bounded number of attempts on each. The coordinator decides; the caller
//! talks to the servers and waits between attempts.

use crate::remote::{CommandOutcome, CommandOutcomeView};
use vstd::prelude::*;

verus! {

/// How often one server is tried, and how long to wait between two attempts.
#[derive(Debug, Clone, Copy, PartialEq, Eq, Structural)]
pub struct RetryPolicy {
    /// The most attempts made on one server. The first attempt is always
    /// made, so a budget of zero counts as one.
    pub max_attempts: u32,
    /// The pause before every attempt but the first, in milliseconds.
    pub delay_ms: u64,
}

impl RetryPolicy {
    /// Ten attempts, two seconds apart.
    pub fn standard() -> (r: RetryPolicy)
        ensures
            r.max_attempts == 10,
            r.delay_ms == 2000,
    {
        RetryPolicy { max_attempts: 10, delay_ms: 2000 }
    }

    /// The number of attempts that are made on a server that stays
    /// unreachable.
    pub open spec fn budget(&self) -> int {
        if self.max_attempts == 0 {
            1
        } else {
            self.max_attempts as int
        }
    }
}

impl Default for RetryPolicy {
    fn default() -> (r: RetryPolicy)
        ensures
            r.max_attempts == 10,
            r.delay_ms == 2000,
    {
        RetryPolicy::standard()
    }
}

/// How a command ended on the fleet as a whole.
#[derive(Debug, PartialEq, Eq)]
pub enum FleetOutcome {
    /// Every server took the command.
    AllSucceeded,
    /// A server stayed unreachable through all its attempts; the positions
    /// of the servers that failed. The servers behind them were not tried.
    PartialFailure(Vec<usize>),
    /// A server answered that it knows no player of that name.
    PlayerUnknown,
}

/// What a [`FleetOutcome`] holds.
pub ghost enum FleetOutcomeView {
    AllSucceeded,
    PartialFailure(Seq<usize>),
    PlayerUnknown,
}

impl View for FleetOutcome {
    type V = FleetOutcomeView;

    open spec fn view(&self) -> FleetOutcomeView {
        match *self {
            FleetOutcome::AllSucceeded => FleetOutcomeView::AllSucceeded,
            FleetOutcome::PartialFailure(failed) => FleetOutcomeView::PartialFailure(failed@),
            FleetOutcome::PlayerUnknown => FleetOutcomeView::PlayerUnknown,
        }
    }
}

impl Clone for FleetOutcome {
    fn clone(&self) -> (r: Self)
        ensures
            r@ == self@,
    {
        match self {
            FleetOutcome::AllSucceeded => FleetOutcome::AllSucceeded,
            FleetOutcome::PartialFailure(failed) => FleetOutcome::PartialFailure(failed.clone()),
            FleetOutcome::PlayerUnknown => FleetOutcome::PlayerUnknown,
        }
    }
}

/// Where a fan-out stands: the server being tried and the number of the
/// attempt in flight on it, counted from one.
#[derive(Debug, Clone, Copy, PartialEq, Eq, Structural)]
pub struct FleetProgress {
    /// The position of the server in the configured list.
    pub target: usize,
    /// The number of the attempt in flight on that server.
    pub attempt: u32,
}

/// What the coordinator asks for next.
#[derive(Debug, PartialEq, Eq)]
pub enum FleetStep {
    /// Wait `delay_ms` milliseconds, then send the command to the server at
    /// `target` in a fresh session, and report how that ended.
    Attempt { target: usize, delay_ms: u64 },
    /// The fan-out is over.
    Finished(FleetOutcome),
}

/// What a [`FleetStep`] holds.
pub ghost enum FleetStepView {
    Attempt { target: usize, delay_ms: u64 },
    Finished(FleetOutcomeView),
}

impl View for FleetStep {
    type V = FleetStepView;

    open spec fn view(&self) -> FleetStepView {
        match *self {
            FleetStep::Attempt { target, delay_ms } => FleetStepView::Attempt { target, delay_ms },
            FleetStep::Finished(outcome) => FleetStepView::Finished(outcome@),
        }
    }
}

/// The first step of a fan-out over `targets` servers: the first attempt on
/// the first server, at once; with no server there is nothing to do.
pub open spec fn fleet_first(targets: usize) -> (FleetProgress, FleetStepView) {
    let progress = FleetProgress { target: 0, attempt: 1 };
    if targets == 0 {
        (progress, FleetStepView::Finished(FleetOutcomeView::AllSucceeded))
    } else {
        (progress, FleetStepView::Attempt { target: 0, delay_ms: 0 })
    }
}

/// The step that follows the attempt in flight at `progress`, once that
/// attempt has ended as `outcome`.
///
/// A success moves on to the next server, or ends the fan-out when there is
/// none left. An unknown player ends it at once. An unreachable server is
/// tried again after the policy's pause while attempts are left; once they
/// are used up the fan-out ends with that server as the one that failed.
pub open spec fn fleet_next(
    policy: RetryPolicy,
    targets: usize,
    progress: FleetProgress,
    outcome: CommandOutcomeView,
) -> (FleetProgress, FleetStepView) {
    match outcome {
        CommandOutcomeView::Success(_) => {
            if progress.target + 1 < targets {
                let target = (progress.target + 1) as usize;
                (
                    FleetProgress { target, attempt: 1 },
                    FleetStepView::Attempt { target, delay_ms: 0 },
                )
            } else {
                (progress, FleetStepView::Finished(FleetOutcomeView::AllSucceeded))
            }
        },
        CommandOutcomeView::PlayerUnknown => (
            progress,
            FleetStepView::Finished(FleetOutcomeView::PlayerUnknown),
        ),
        CommandOutcomeView::Unreachable(_) => {
            if progress.attempt < policy.max_attempts {
                (
                    FleetProgress { target: progress.target, attempt: (progress.attempt + 1) as u32 },
                    FleetStepView::Attempt { target: progress.target, delay_ms: policy.delay_ms },
                )
            } else {
                (
                    progress,
                    FleetStepView::Finished(
                        FleetOutcomeView::PartialFailure(seq![progress.target]),
                    ),
                )
            }
        },
    }
}

/// Starts a fan-out over `targets` servers.
pub fn fleet_begin(targets: usize) -> (r: (FleetProgress, FleetStep))
    ensures
        (r.0, r.1@) == fleet_first(targets),
{
    let progress = FleetProgress { target: 0, attempt: 1 };
    if targets == 0 {
        (progress, FleetStep::Finished(FleetOutcome::AllSucceeded))
    } else {
        (progress, FleetStep::Attempt { target: 0, delay_ms: 0 })
    }
}

/// Takes the outcome of the attempt in flight and decides what comes next.
pub fn fleet_advance(
    policy: &RetryPolicy,
    targets: usize,
    progress: FleetProgress,
    outcome: &CommandOutcome,
) -> (r: (FleetProgress, FleetStep))
    ensures
        (r.0, r.1@) == fleet_next(*policy, targets, progress, outcome@),
        progress.target < targets ==> r.0.target < targets,
        r.1@ matches FleetStepView::Attempt { target, .. } ==> target == r.0.target,
{
    match outcome {
        CommandOutcome::Success(_) => {
            if targets > 0 && progress.target < targets - 1 {
                let target: usize = progress.target + 1;
                (FleetProgress { target, attempt: 1 }, FleetStep::Attempt { target, delay_ms: 0 })
            } else {
                (progress, FleetStep::Finished(FleetOutcome::AllSucceeded))
            }
        },
        CommandOutcome::PlayerUnknown => (progress, FleetStep::Finished(FleetOutcome::PlayerUnknown)),
        CommandOutcome::Unreachable(_) => {
            if progress.attempt < policy.max_attempts {
                (
                    FleetProgress { target: progress.target, attempt: progress.attempt + 1 },
                    FleetStep::Attempt { target: progress.target, delay_ms: policy.delay_ms },
                )
            } else {
                let mut failed: Vec<usize> = Vec::new();
                failed.push(progress.target);
                (progress, FleetStep::Finished(FleetOutcome::PartialFailure(failed)))
            }
        },
    }
}

/// The verdict on one server: the answer to the first attempt, counted from
/// `attempt`, that finds the server reachable, or the answer to the last
/// attempt that the policy allows.
pub open spec fn target_verdict(
    policy: RetryPolicy,
    answers: spec_fn(int, int) -> CommandOutcomeView,
    target: int,
    attempt: int,
) -> CommandOutcomeView
    decreases policy.budget() - attempt,
{
    let outcome = answers(target, attempt);
    if outcome is Unreachable && attempt < policy.budget() {
        target_verdict(policy, answers, target, attempt + 1)
    } else {
        outcome
    }
}

/// The verdict on the servers from position `from` on: that of the first
/// server whose own verdict is not a success, or success when there is none.
pub open spec fn fleet_verdict(
    policy: RetryPolicy,
    targets: usize,
    answers: spec_fn(int, int) -> CommandOutcomeView,
    from: int,
) -> FleetOutcomeView
    decreases targets - from,
{
    if from >= targets {
        FleetOutcomeView::AllSucceeded
    } else {
        match target_verdict(policy, answers, from, 1) {
            CommandOutcomeView::Success(_) => fleet_verdict(policy, targets, answers, from + 1),
            CommandOutcomeView::PlayerUnknown => FleetOutcomeView::PlayerUnknown,
            CommandOutcomeView::Unreachable(_) => FleetOutcomeView::PartialFailure(
                seq![from as usize],
            ),
        }
    }
}

/// The outcome that the coordinator reaches from `progress` when the
/// `attempt`-th attempt on the server at `target` ends as
/// `answers(target, attempt)`.
pub open spec fn fleet_run(
    policy: RetryPolicy,
    targets: usize,
    answers: spec_fn(int, int) -> CommandOutcomeView,
    progress: FleetProgress,
) -> FleetOutcomeView
    decreases targets - progress.target, policy.budget() - progress.attempt,
{
    let outcome = answers(progress.target as int, progress.attempt as int);
    let (next, step) = fleet_next(policy, targets, progress, outcome);
    match step {
        FleetStepView::Finished(end) => end,
        FleetStepView::Attempt { .. } => fleet_run(policy, targets, answers, next),
    }
}

/// The outcome of a whole fan-out over `targets` servers that answer as
/// `answers` says.
pub open spec fn fleet_outcome(
    policy: RetryPolicy,
    targets: usize,
    answers: spec_fn(int, int) -> CommandOutcomeView,
) -> FleetOutcomeView {
    let (progress, step) = fleet_first(targets);
    match step {
        FleetStepView::Finished(end) => end,
        FleetStepView::Attempt { .. } => fleet_run(policy, targets, answers, progress),
    }
}

proof fn run_settles_target(
    policy: RetryPolicy,
    targets: usize,
    answers: spec_fn(int, int) -> CommandOutcomeView,
    progress: FleetProgress,
)
    requires
        progress.target < targets,
        1 <= progress.attempt,
    ensures
        fleet_run(policy, targets, answers, progress) == match target_verdict(
            policy,
            answers,
            progress.target as int,
            progress.attempt as int,
        ) {
            CommandOutcomeView::Success(_) => fleet_verdict(
                policy,
                targets,
                answers,
                progress.target + 1,
            ),
            CommandOutcomeView::PlayerUnknown => FleetOutcomeView::PlayerUnknown,
            CommandOutcomeView::Unreachable(_) => FleetOutcomeView::PartialFailure(
                seq![progress.target],
            ),
        },
    decreases targets - progress.target, policy.budget() - progress.attempt,
{
    let outcome = answers(progress.target as int, progress.attempt as int);
    let (next, step) = fleet_next(policy, targets, progress, outcome);
    match step {
        FleetStepView::Finished(_) => {},
        FleetStepView::Attempt { .. } => {
            run_settles_target(policy, targets, answers, next);
        },
    }
}

/// Driving the coordinator step by step comes to the verdict of the first
/// server that does not succeed: with a budget of `n` attempts a server is
/// tried at most `n` times, again only while it is unreachable, and no
/// server behind the one that decides is tried at all.
pub proof fn fleet_outcome_is_verdict(
    policy: RetryPolicy,
    targets: usize,
    answers: spec_fn(int, int) -> CommandOutcomeView,
)
    ensures
        fleet_outcome(policy, targets, answers) == fleet_verdict(policy, targets, answers, 0),
{
    if targets > 0 {
        run_settles_target(policy, targets, answers, FleetProgress { target: 0, attempt: 1 });
    }
}

/// The verdict on a server is the answer to its first attempt that is not
/// `Unreachable`, when there is one within the budget.
pub proof fn verdict_is_first_reachable_answer(
    policy: RetryPolicy,
    answers: spec_fn(int, int) -> CommandOutcomeView,
    target: int,
    attempt: int,
)
    requires
        1 <= attempt <= policy.budget(),
        !(answers(target, attempt) is Unreachable),
        forall|a: int| 1 <= a < attempt ==> #[trigger] answers(target, a) is Unreachable,
    ensures
        target_verdict(policy, answers, target, 1) == answers(target, attempt),
{
    verdict_skips_unreachable(policy, answers, target, 1, attempt);
}

proof fn verdict_skips_unreachable(
    policy: RetryPolicy,
    answers: spec_fn(int, int) -> CommandOutcomeView,
    target: int,
    from: int,
    attempt: int,
)
    requires
        from <= attempt <= policy.budget(),
        forall|a: int| from <= a < attempt ==> #[trigger] answers(target, a) is Unreachable,
    ensures
        target_verdict(policy, answers, target, from) == target_verdict(
            policy,
            answers,
            target,
            attempt,
        ),
    decreases attempt - from,
{
    if from < attempt {
        verdict_skips_unreachable(policy, answers, target, from + 1, attempt);
    }
}

/// A server that is unreachable at every attempt within the budget gets the
/// verdict `Unreachable`, with the cause that its last attempt gave.
pub proof fn verdict_of_unreachable_server(
    policy: RetryPolicy,
    answers: spec_fn(int, int) -> CommandOutcomeView,
    target: int,
)
    requires
        forall|a: int| 1 <= a <= policy.budget() ==> #[trigger] answers(target, a) is Unreachable,
    ensures
        target_verdict(policy, answers, target, 1) == answers(target, policy.budget()),
{
    verdict_skips_unreachable(policy, answers, target, 1, policy.budget());
}

proof fn verdict_skips_successes(
    policy: RetryPolicy,
    targets: usize,
    answers: spec_fn(int, int) -> CommandOutcomeView,
    from: int,
    target: int,
)
    requires
        0 <= from <= target <= targets,
        forall|t: int| from <= t < target ==> #[trigger] target_verdict(policy, answers, t, 1) is Success,
    ensures
        fleet_verdict(policy, targets, answers, from) == fleet_verdict(
            policy,
            targets,
            answers,
            target,
        ),
    decreases target - from,
{
    if from < target {
        verdict_skips_successes(policy, targets, answers, from + 1, target);
    }
}

/// The fleet succeeds as a whole exactly when every server does.
pub proof fn fleet_succeeds_iff_every_server_does(
    policy: RetryPolicy,
    targets: usize,
    answers: spec_fn(int, int) -> CommandOutcomeView,
)
    ensures
        fleet_verdict(policy, targets, answers, 0) is AllSucceeded <==> forall|t: int|
            0 <= t < targets ==> #[trigger] target_verdict(policy, answers, t, 1) is Success,
{
    if forall|t: int| 0 <= t < targets ==> #[trigger] target_verdict(policy, answers, t, 1) is Success {
        verdict_skips_successes(policy, targets, answers, 0, targets as int);
    } else {
        let t = first_failing_server(policy, targets, answers, 0);
        verdict_skips_successes(policy, targets, answers, 0, t);
    }
}

proof fn first_failing_server(
    policy: RetryPolicy,
    targets: usize,
    answers: spec_fn(int, int) -> CommandOutcomeView,
    from: int,
) -> (target: int)
    requires
        0 <= from,
        exists|t: int| from <= t < targets && !(#[trigger] target_verdict(policy, answers, t, 1) is Success),
    ensures
        from <= target < targets,
        !(target_verdict(policy, answers, target, 1) is Success),
        forall|t: int| from <= t < target ==> #[trigger] target_verdict(policy, answers, t, 1) is Success,
    decreases targets - from,
{
    if target_verdict(policy, answers, from, 1) is Success {
        first_failing_server(policy, targets, answers, from + 1)
    } else {
        from
    }
}

/// A command for a player whom a server does not know ends as
/// `PlayerUnknown`, not as a failure: when the first server that does not
/// succeed says so, that is the outcome of the fleet, whatever the servers
/// behind it would have answered.
pub proof fn unknown_player_decides_fleet(
    policy: RetryPolicy,
    targets: usize,
    answers: spec_fn(int, int) -> CommandOutcomeView,
    target: int,
)
    requires
        0 <= target < targets,
        target_verdict(policy, answers, target, 1) is PlayerUnknown,
        forall|t: int| 0 <= t < target ==> #[trigger] target_verdict(policy, answers, t, 1) is Success,
    ensures
        fleet_verdict(policy, targets, answers, 0) == FleetOutcomeView::PlayerUnknown,
{
    verdict_skips_successes(policy, targets, answers, 0, target);
}

/// A server that is reached within the budget gets the answer of an attempt
/// that reached it as its verdict.
pub proof fn verdict_of_reached_server(
    policy: RetryPolicy,
    answers: spec_fn(int, int) -> CommandOutcomeView,
    target: int,
    from: int,
    reached: int,
)
    requires
        from <= reached <= policy.budget(),
        !(answers(target, reached) is Unreachable),
    ensures
        exists|a: int|
            from <= a <= reached && !(#[trigger] answers(target, a) is Unreachable)
                && target_verdict(policy, answers, target, from) == answers(target, a),
    decreases reached - from,
{
    if answers(target, from) is Unreachable {
        verdict_of_reached_server(policy, answers, target, from + 1, reached);
        let a = choose|a: int|
            from + 1 <= a <= reached && !(#[trigger] answers(target, a) is Unreachable)
                && target_verdict(policy, answers, target, from + 1) == answers(target, a);
        assert(from <= a <= reached && !(answers(target, a) is Unreachable) && target_verdict(
            policy,
            answers,
            target,
            from,
        ) == answers(target, a));
    } else {
        assert(from <= from <= reached && !(answers(target, from) is Unreachable)
            && target_verdict(policy, answers, target, from) == answers(target, from));
    }
}

/// Removing a player who is on no whitelist is no failure: when no server
/// answers with a success, and the first server is reached within its
/// budget, the fan-out ends as `PlayerUnknown`.
pub proof fn removing_unlisted_player_is_player_unknown(
    policy: RetryPolicy,
    targets: usize,
    answers: spec_fn(int, int) -> CommandOutcomeView,
    reached: int,
)
    requires
        targets > 0,
        forall|t: int, a: int| !(#[trigger] answers(t, a) is Success),
        1 <= reached <= policy.budget(),
        !(answers(0, reached) is Unreachable),
    ensures
        fleet_outcome(policy, targets, answers) == FleetOutcomeView::PlayerUnknown,
{
    fleet_outcome_is_verdict(policy, targets, answers);
    verdict_of_reached_server(policy, answers, 0, 1, reached);
}

/// A server that stays unreachable ends the fan-out with itself as the one
/// server that failed, when every server before it succeeded.
pub proof fn unreachable_server_fails_fleet(
    policy: RetryPolicy,
    targets: usize,
    answers: spec_fn(int, int) -> CommandOutcomeView,
    target: int,
)
    requires
        0 <= target < targets,
        target_verdict(policy, answers, target, 1) is Unreachable,
        forall|t: int| 0 <= t < target ==> #[trigger] target_verdict(policy, answers, t, 1) is Success,
    ensures
        fleet_verdict(policy, targets, answers, 0) == FleetOutcomeView::PartialFailure(
            seq![target as usize],
        ),
{
    verdict_skips_successes(policy, targets, answers, 0, target);
}

} // verus!
