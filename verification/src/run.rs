//! Whole runs of an exchange, and what holds of every one of them.
//!
//! A run is an exchange together with the outcomes that its requests meet,
//! in order. [`Exchange::carry_out`] makes a run with a function that
//! performs the requests. The laws below speak of all runs: they are what a
//! caller may rely on without knowing how the device will behave.

use crate::effect::{
    blend_frame, breathe_frame, cycle_frame, effects_call_the_effect_feature, has_zone_prefix,
    solid_frame, triple_calls_the_zone_feature, triple_frame, wave_frame, Direction,
};
use crate::exchange::{
    commit_frame, fault, reset_frame, unwind, Action, Exchange, ExchangeState, Failure, Outcome,
    Request, RequestView, Stage, REPORT_INDEX, REPORT_VALUE, REQUEST_TYPE, RESET_VALUE,
    SET_REPORT,
};
use vstd::prelude::*;

verus! {

impl Stage {
    /// The place of a request in the order in which requests are made.
    pub open spec fn rank(self) -> nat {
        match self {
            Stage::Detach => 0,
            Stage::Claim => 1,
            Stage::Reset => 2,
            Stage::Payload => 3,
            Stage::Commit => 4,
            Stage::Release => 5,
            Stage::Attach => 6,
            Stage::Finished => 7,
        }
    }

    /// Whether the request is a control transfer.
    pub open spec fn is_transfer(self) -> bool {
        self == Stage::Reset || self == Stage::Payload || self == Stage::Commit
    }
}

impl ExchangeState {
    /// The exchange after `n` requests, where request `i` met `outcomes[i]`.
    pub open spec fn after(self, outcomes: Seq<Outcome>, n: nat) -> ExchangeState
        decreases n,
    {
        if n == 0 {
            self
        } else {
            self.after(outcomes, (n - 1) as nat).advance(outcomes[n - 1])
        }
    }

    /// Whether no request was made yet.
    pub open spec fn fresh(self) -> bool {
        self == ExchangeState::begin(self.payload, self.memory_reset, self.detach, self.timeout)
    }

    /// Whether `outcomes` are what `perform` answered to the requests of
    /// this exchange, each made in its turn and none after the end, and
    /// `result` is what the exchange reports after them.
    pub open spec fn carried_out<F: Fn(Request) -> Outcome>(
        self,
        perform: F,
        outcomes: Seq<Outcome>,
        result: Result<(), Failure>,
    ) -> bool {
        &&& forall|i: nat|
            i < outcomes.len() ==> (#[trigger] self.after(outcomes, i)).answered(
                perform,
                outcomes[i as int],
            )
        &&& self.after(outcomes, outcomes.len()).stage == Stage::Finished
        &&& self.after(outcomes, outcomes.len()).result() == result
    }

    /// Whether `outcome` is what `perform` answered to the pending request,
    /// and a request is pending.
    pub open spec fn answered<F: Fn(Request) -> Outcome>(self, perform: F, outcome: Outcome) -> bool {
        self.stage != Stage::Finished && exists|request: Request|
            request@ == self.request() && #[trigger] call_ensures(perform, (request,), outcome)
    }
}

impl Exchange {
    /// Carries the exchange out: has `perform` make each request in its
    /// turn, takes what it answers as the outcome, and returns the result
    /// once nothing is left to do. `perform` is called seven times at most.
    pub fn carry_out<F: Fn(Request) -> Outcome>(self, perform: F) -> (result: Result<(), Failure>)
        requires
            forall|request: Request| call_requires(perform, (request,)),
        ensures
            exists|outcomes: Seq<Outcome>|
                outcomes.len() <= 7 && #[trigger] self@.carried_out(perform, outcomes, result),
    {
        let ghost start = self@;
        let ghost mut outcomes: Seq<Outcome> = Seq::empty();
        let mut exchange = self;
        let mut action = exchange.pending();
        loop
            invariant
                forall|request: Request| call_requires(perform, (request,)),
                start == self@,
                exchange@ == start.after(outcomes, outcomes.len()),
                action@ == exchange@.pending(),
                forall|i: nat|
                    i < outcomes.len() ==> (#[trigger] start.after(outcomes, i)).answered(
                        perform,
                        outcomes[i as int],
                    ),
            decreases Stage::Finished.rank() - exchange@.stage.rank(),
        {
            let request = match action {
                Action::Make(request) => request,
                Action::Finish(result) => {
                    proof {
                        if outcomes.len() > 7 {
                            ends_within_seven(start, outcomes, 7);
                        }
                    }
                    assert(start.carried_out(perform, outcomes, result));
                    return result;
                },
            };
            let ghost asked = request;
            let ghost before = outcomes;
            let outcome = perform(request);
            proof {
                outcomes = before.push(outcome);
                assert forall|i: nat| i <= before.len() implies #[trigger] start.after(outcomes, i)
                    == start.after(before, i) by {
                    later_outcomes_do_not_matter(start, before, outcomes, i);
                }
                assert(start.after(before, before.len()).answered(perform, outcome)) by {
                    assert(call_ensures(perform, (asked,), outcome));
                }
                assert(start.after(outcomes, outcomes.len()) == start.after(
                    outcomes,
                    before.len(),
                ).advance(outcome));
                stages_rise(exchange@, outcome);
            }
            action = exchange.step(outcome);
        }
    }
}

/// What an exchange is after `n` requests depends on the first `n` outcomes
/// alone.
pub proof fn later_outcomes_do_not_matter(
    start: ExchangeState,
    first: Seq<Outcome>,
    second: Seq<Outcome>,
    n: nat,
)
    requires
        n <= first.len(),
        n <= second.len(),
        forall|i: int| 0 <= i < n ==> first[i] == second[i],
    ensures
        start.after(first, n) == start.after(second, n),
    decreases n,
{
    if n > 0 {
        later_outcomes_do_not_matter(start, first, second, (n - 1) as nat);
    }
}

/// A request that is made only where it is wanted.
pub open spec fn only(wanted: bool, stage: Stage) -> Seq<Stage> {
    if wanted {
        seq![stage]
    } else {
        Seq::empty()
    }
}

/// The requests by which a command acquires the interface and sends, in
/// order: the driver leaves where the platform asks for it, the interface is
/// claimed, the reset report goes out where it was asked for, then the
/// report, then the commit report if the report is a zone report.
pub open spec fn sending(payload: Seq<u8>, memory_reset: bool, detach: bool) -> Seq<Stage> {
    only(detach, Stage::Detach) + seq![Stage::Claim] + only(memory_reset, Stage::Reset)
        + seq![Stage::Payload] + only(has_zone_prefix(payload), Stage::Commit)
}

/// The place of the claim among the sending requests: the number of
/// requests that come before it.
pub open spec fn claim_at(detach: bool) -> nat {
    if detach {
        1
    } else {
        0
    }
}

/// The requests by which a command gives back what it holds, in order: the
/// interface is released if it is claimed, and the driver comes back if it
/// had left.
pub open spec fn giving_back(claimed: bool, detached: bool) -> Seq<Stage> {
    only(claimed, Stage::Release) + only(detached, Stage::Attach)
}

/// The requests of a command that meets no failure, in order.
pub open spec fn script(payload: Seq<u8>, memory_reset: bool, detach: bool) -> Seq<Stage> {
    sending(payload, memory_reset, detach) + giving_back(true, detach)
}

/// Each outcome moves an exchange to a later request, until it is over; the
/// report and the session's settings stay as they were.
pub proof fn stages_rise(state: ExchangeState, outcome: Outcome)
    ensures
        state.stage != Stage::Finished ==> state.stage.rank() < state.advance(outcome).stage.rank(),
        state.stage == Stage::Finished ==> state.advance(outcome) == state,
        state.advance(outcome).payload == state.payload,
        state.advance(outcome).memory_reset == state.memory_reset,
        state.advance(outcome).detach == state.detach,
        state.advance(outcome).timeout == state.timeout,
{
}

/// An exchange that made no request yet is consistent, and an outcome
/// leaves a consistent exchange consistent.
pub proof fn consistency_is_kept(state: ExchangeState, outcome: Outcome)
    ensures
        state.fresh() ==> state.consistent(),
        state.consistent() ==> state.advance(outcome).consistent(),
{
}

/// Along a run the report and the settings stay as they were, and an
/// exchange that was consistent stays so.
pub proof fn run_keeps(start: ExchangeState, outcomes: Seq<Outcome>, n: nat)
    ensures
        start.after(outcomes, n).payload == start.payload,
        start.after(outcomes, n).memory_reset == start.memory_reset,
        start.after(outcomes, n).detach == start.detach,
        start.after(outcomes, n).timeout == start.timeout,
        start.consistent() ==> start.after(outcomes, n).consistent(),
    decreases n,
{
    if n > 0 {
        let before = start.after(outcomes, (n - 1) as nat);
        run_keeps(start, outcomes, (n - 1) as nat);
        stages_rise(before, outcomes[n - 1]);
        consistency_is_kept(before, outcomes[n - 1]);
    }
}

/// Requests are made in one order: a request that is made later in a run
/// stands later in that order. So no request is made twice.
pub proof fn requests_come_in_order(start: ExchangeState, outcomes: Seq<Outcome>, i: nat, j: nat)
    requires
        i < j,
        start.after(outcomes, i).stage != Stage::Finished,
    ensures
        start.after(outcomes, i).stage.rank() < start.after(outcomes, j).stage.rank(),
    decreases j,
{
    let before = start.after(outcomes, (j - 1) as nat);
    if i + 1 < j {
        requests_come_in_order(start, outcomes, i, (j - 1) as nat);
    }
    stages_rise(before, outcomes[j - 1]);
}

/// Once an exchange is over it stays over.
pub proof fn finished_stays(start: ExchangeState, outcomes: Seq<Outcome>, i: nat, j: nat)
    requires
        i <= j,
        start.after(outcomes, i).stage == Stage::Finished,
    ensures
        start.after(outcomes, j) == start.after(outcomes, i),
    decreases j,
{
    if i < j {
        finished_stays(start, outcomes, i, (j - 1) as nat);
        stages_rise(start.after(outcomes, (j - 1) as nat), outcomes[j - 1]);
    }
}

/// An exchange is over after seven requests at most, whatever their
/// outcomes.
pub proof fn ends_within_seven(start: ExchangeState, outcomes: Seq<Outcome>, n: nat)
    ensures
        start.after(outcomes, n).stage.rank() >= n || start.after(outcomes, n).stage
            == Stage::Finished,
        n >= 7 ==> start.after(outcomes, n).stage == Stage::Finished,
    decreases n,
{
    if n > 0 {
        ends_within_seven(start, outcomes, (n - 1) as nat);
        stages_rise(start.after(outcomes, (n - 1) as nat), outcomes[n - 1]);
    }
}

/// The interface is released exactly once in a command that came to send
/// its report, whether or not the report went through: once the report was
/// sent as request `i`, and the exchange is over after `n` requests, the
/// release is request `j`, after the report and before the end, and no other
/// request releases.
pub proof fn release_once_per_command(
    start: ExchangeState,
    outcomes: Seq<Outcome>,
    i: nat,
    n: nat,
) -> (j: nat)
    requires
        start.fresh(),
        n <= outcomes.len(),
        start.after(outcomes, i).stage == Stage::Payload,
        start.after(outcomes, n).stage == Stage::Finished,
    ensures
        i < j < n,
        start.after(outcomes, j).stage == Stage::Release,
        forall|k: nat| #[trigger] start.after(outcomes, k).stage == Stage::Release ==> k == j,
{
    run_keeps(start, outcomes, i);
    run_keeps(start, outcomes, i + 1);
    let next = start.after(outcomes, i + 1);
    assert(next == start.after(outcomes, i).advance(outcomes[i as int]));
    let j = if next.stage == Stage::Release {
        i + 1
    } else {
        assert(start.after(outcomes, i + 2) == next.advance(outcomes[i + 1 as int]));
        i + 2
    };
    if n <= j {
        finished_stays(start, outcomes, n, j);
    }
    released_at_most_once(start, outcomes, j);
    j
}

/// No request but `j` releases the interface, if `j` does.
proof fn released_at_most_once(start: ExchangeState, outcomes: Seq<Outcome>, j: nat)
    requires
        start.after(outcomes, j).stage == Stage::Release,
    ensures
        forall|k: nat| #[trigger] start.after(outcomes, k).stage == Stage::Release ==> k == j,
{
    assert forall|k: nat| #[trigger]
        start.after(outcomes, k).stage == Stage::Release implies k == j by {
        if k < j {
            requests_come_in_order(start, outcomes, k, j);
        } else if j < k {
            requests_come_in_order(start, outcomes, j, k);
        }
    }
}

/// The interface is released only if it was claimed: a release is preceded
/// by a claim that completed, and every transfer lies between the two.
pub proof fn release_only_after_claim(start: ExchangeState, outcomes: Seq<Outcome>, j: nat) -> (i:
    nat)
    requires
        start.fresh(),
        j <= outcomes.len(),
        start.after(outcomes, j).stage == Stage::Release,
    ensures
        i < j,
        start.after(outcomes, i).stage == Stage::Claim,
        outcomes[i as int] == Outcome::Completed,
        forall|k: nat| #[trigger] start.after(outcomes, k).stage.is_transfer() ==> i < k < j,
{
    run_keeps(start, outcomes, j);
    let i = claimed_since(start, outcomes, j);
    assert forall|k: nat| #[trigger] start.after(outcomes, k).stage.is_transfer() implies i < k
        < j by {
        if k <= i {
            if k < i {
                requests_come_in_order(start, outcomes, k, i);
            }
        } else if j <= k {
            if j < k {
                requests_come_in_order(start, outcomes, j, k);
            }
        }
    }
    i
}

/// An interface that is claimed after `n` requests was claimed by one of
/// them.
proof fn claimed_since(start: ExchangeState, outcomes: Seq<Outcome>, n: nat) -> (i: nat)
    requires
        !start.claimed,
        start.after(outcomes, n).claimed,
    ensures
        i < n,
        start.after(outcomes, i).stage == Stage::Claim,
        outcomes[i as int] == Outcome::Completed,
    decreases n,
{
    let before = start.after(outcomes, (n - 1) as nat);
    if before.stage == Stage::Claim && outcomes[n - 1] == Outcome::Completed {
        (n - 1) as nat
    } else {
        claimed_since(start, outcomes, (n - 1) as nat)
    }
}

/// A claim that completed is followed by one release, and by nothing but
/// transfers in between.
pub proof fn claim_is_released(start: ExchangeState, outcomes: Seq<Outcome>, i: nat, n: nat) -> (j:
    nat)
    requires
        start.fresh(),
        i < n <= outcomes.len(),
        start.after(outcomes, i).stage == Stage::Claim,
        outcomes[i as int] == Outcome::Completed,
        start.after(outcomes, n).stage == Stage::Finished,
    ensures
        i < j < n,
        start.after(outcomes, j).stage == Stage::Release,
        forall|k: nat| i < k < j ==> #[trigger] start.after(outcomes, k).stage.is_transfer(),
        forall|k: nat| #[trigger] start.after(outcomes, k).stage == Stage::Release ==> k == j,
{
    run_keeps(start, outcomes, i);
    assert(start.after(outcomes, i + 1) == start.after(outcomes, i).advance(outcomes[i as int]));
    let j = release_ahead(start, outcomes, i + 1);
    if n <= j {
        finished_stays(start, outcomes, n, j);
    }
    released_at_most_once(start, outcomes, j);
    j
}

/// An exchange that is about to make a transfer releases the interface
/// after its transfers.
proof fn release_ahead(start: ExchangeState, outcomes: Seq<Outcome>, i: nat) -> (j: nat)
    requires
        start.consistent(),
        start.after(outcomes, i).stage.is_transfer(),
    ensures
        i < j,
        start.after(outcomes, j).stage == Stage::Release,
        forall|k: nat| i <= k < j ==> #[trigger] start.after(outcomes, k).stage.is_transfer(),
    decreases Stage::Release.rank() - start.after(outcomes, i).stage.rank(),
{
    run_keeps(start, outcomes, i);
    let next = start.after(outcomes, i + 1);
    assert(next == start.after(outcomes, i).advance(outcomes[i as int]));
    consistency_is_kept(start.after(outcomes, i), outcomes[i as int]);
    if next.stage == Stage::Release {
        i + 1
    } else {
        release_ahead(start, outcomes, i + 1)
    }
}

/// The commit report is sent for a zone report only, and only as the request
/// that follows the report itself, once that went through.
pub proof fn commit_only_after_zone_report(start: ExchangeState, outcomes: Seq<Outcome>, k: nat)
    requires
        start.fresh(),
        k <= outcomes.len(),
        start.after(outcomes, k).stage == Stage::Commit,
    ensures
        has_zone_prefix(start.payload),
        k > 0,
        start.after(outcomes, (k - 1) as nat).stage == Stage::Payload,
        outcomes[k - 1] == Outcome::Completed,
{
    run_keeps(start, outcomes, (k - 1) as nat);
}

/// A zone report that went through is committed by the next request: one
/// transfer of the commit report, with the value of an effect report. No
/// other request of the run commits.
pub proof fn zone_report_is_committed(start: ExchangeState, outcomes: Seq<Outcome>, i: nat)
    requires
        i < outcomes.len(),
        has_zone_prefix(start.payload),
        start.after(outcomes, i).stage == Stage::Payload,
        outcomes[i as int] == Outcome::Completed,
    ensures
        start.after(outcomes, i + 1).stage == Stage::Commit,
        start.after(outcomes, i + 1).request() == start.after(outcomes, i + 1).transfer(
            REPORT_VALUE,
            commit_frame(),
        ),
        forall|k: nat| #[trigger] start.after(outcomes, k).stage == Stage::Commit ==> k == i + 1,
{
    run_keeps(start, outcomes, i);
    assert(start.after(outcomes, i + 1) == start.after(outcomes, i).advance(outcomes[i as int]));
    assert forall|k: nat| #[trigger]
        start.after(outcomes, k).stage == Stage::Commit implies k == i + 1 by {
        if k < i + 1 {
            requests_come_in_order(start, outcomes, k, i + 1);
        } else if i + 1 < k {
            requests_come_in_order(start, outcomes, i + 1, k);
        }
    }
}

/// None of the five colour effects is committed: no request of a command
/// that delivers one of their reports sends the commit report.
pub proof fn colour_effects_are_never_committed(
    start: ExchangeState,
    outcomes: Seq<Outcome>,
    k: nat,
    rgb: [u8; 3],
    rate: u16,
    brightness: u8,
    direction: Direction,
)
    requires
        start.fresh(),
        k <= outcomes.len(),
        start.payload == solid_frame(rgb) || start.payload == breathe_frame(rgb, rate, brightness)
            || start.payload == cycle_frame(rate, brightness) || start.payload == wave_frame(
            rate,
            brightness,
            direction,
        ) || start.payload == blend_frame(rate, brightness),
    ensures
        start.after(outcomes, k).stage != Stage::Commit,
{
    effects_call_the_effect_feature(rgb, rate, brightness, direction);
    if start.after(outcomes, k).stage == Stage::Commit {
        commit_only_after_zone_report(start, outcomes, k);
    }
}

/// The three zone colours are committed exactly once where their report
/// went through: by the request that follows it.
pub proof fn zone_colours_are_committed_once(
    start: ExchangeState,
    outcomes: Seq<Outcome>,
    i: nat,
    colors: [[u8; 3]; 3],
)
    requires
        i < outcomes.len(),
        start.payload == triple_frame(colors),
        start.after(outcomes, i).stage == Stage::Payload,
        outcomes[i as int] == Outcome::Completed,
    ensures
        start.after(outcomes, i + 1).stage == Stage::Commit,
        forall|k: nat| #[trigger] start.after(outcomes, k).stage == Stage::Commit ==> k == i + 1,
{
    triple_calls_the_zone_feature(colors);
    zone_report_is_committed(start, outcomes, i);
}

/// The reset report goes out only where it was asked for, and then the
/// effect report is not sent before it went through.
pub proof fn reset_precedes_report(start: ExchangeState, outcomes: Seq<Outcome>, k: nat)
    requires
        start.fresh(),
        k <= outcomes.len(),
    ensures
        start.after(outcomes, k).stage == Stage::Reset ==> start.memory_reset,
        start.after(outcomes, k).stage == Stage::Payload ==> k > 0 && outcomes[k - 1]
            == Outcome::Completed && start.after(outcomes, (k - 1) as nat).stage == (
        if start.memory_reset {
            Stage::Reset
        } else {
            Stage::Claim
        }),
{
    run_keeps(start, outcomes, k);
    if k > 0 {
        run_keeps(start, outcomes, (k - 1) as nat);
    }
}

/// The kernel's driver is detached only on a platform that asks for it, and
/// there before anything else; the interface is claimed only once the
/// driver has left it.
pub proof fn driver_leaves_first(start: ExchangeState, outcomes: Seq<Outcome>, k: nat)
    requires
        start.fresh(),
        k <= outcomes.len(),
    ensures
        start.after(outcomes, k).stage == Stage::Detach ==> start.detach && k == 0,
        start.after(outcomes, k).stage == Stage::Claim ==> if start.detach {
            k == 1 && outcomes[0] == Outcome::Completed
        } else {
            k == 0
        },
{
    if k > 0 {
        if start.after(outcomes, k).stage != Stage::Finished {
            requests_come_in_order(start, outcomes, 0, k);
        }
        run_keeps(start, outcomes, (k - 1) as nat);
        if k > 1 && start.after(outcomes, k).stage == Stage::Claim {
            requests_come_in_order(start, outcomes, 0, (k - 1) as nat);
        }
    }
}

/// An exchange reports no failure only if every request that it made
/// completed.
pub proof fn success_means_all_completed(
    start: ExchangeState,
    outcomes: Seq<Outcome>,
    n: nat,
    i: nat,
)
    requires
        n <= outcomes.len(),
        start.after(outcomes, n).failure is None,
        i < n,
        start.after(outcomes, i).stage != Stage::Finished,
    ensures
        outcomes[i as int] == Outcome::Completed,
    decreases n,
{
    let before = start.after(outcomes, (n - 1) as nat);
    if i + 1 < n {
        success_means_all_completed(start, outcomes, (n - 1) as nat, i);
    }
}

/// The failure that an exchange reports is the first one met: request `i`
/// did not complete, every request before it did, and the error is the one
/// that stands for the outcome of request `i`.
pub proof fn first_failure_is_reported(start: ExchangeState, outcomes: Seq<Outcome>, n: nat) -> (i:
    nat)
    requires
        n <= outcomes.len(),
        start.failure is None,
        start.after(outcomes, n).failure is Some,
    ensures
        i < n,
        start.after(outcomes, i).stage != Stage::Finished,
        start.after(outcomes, n).failure == fault(start.after(outcomes, i).stage, outcomes[i as int]),
        forall|k: nat| k < i ==> outcomes[k as int] == Outcome::Completed,
    decreases n,
{
    let before = start.after(outcomes, (n - 1) as nat);
    if before.failure is Some {
        first_failure_is_reported(start, outcomes, (n - 1) as nat)
    } else {
        let i = (n - 1) as nat;
        assert forall|k: nat| k < i implies outcomes[k as int] == Outcome::Completed by {
            if start.after(outcomes, k).stage == Stage::Finished {
                finished_stays(start, outcomes, k, i);
            }
            success_means_all_completed(start, outcomes, i, k);
        }
        i
    }
}

/// Requests that complete leave no failure.
proof fn no_failure_while_completing(start: ExchangeState, outcomes: Seq<Outcome>, n: nat)
    requires
        start.failure is None,
        forall|i: int| 0 <= i < n ==> outcomes[i] == Outcome::Completed,
    ensures
        start.after(outcomes, n).failure is None,
    decreases n,
{
    if n > 0 {
        no_failure_while_completing(start, outcomes, (n - 1) as nat);
    }
}

/// An exchange ends with the interface still claimed only where the release
/// was tried and failed, and with the driver still detached only where
/// attaching it was tried and failed.
pub proof fn nothing_is_kept_untried(start: ExchangeState, outcomes: Seq<Outcome>, n: nat)
    requires
        start.fresh(),
        n <= outcomes.len(),
        start.after(outcomes, n).stage == Stage::Finished,
    ensures
        start.after(outcomes, n).claimed ==> exists|j: nat|
            j < n && #[trigger] start.after(outcomes, j).stage == Stage::Release && outcomes[j as int]
                != Outcome::Completed,
        start.after(outcomes, n).detached ==> exists|j: nat|
            j < n && #[trigger] start.after(outcomes, j).stage == Stage::Attach && outcomes[j as int]
                != Outcome::Completed,
{
    let end = finished_since(start, outcomes, n);
    let last = start.after(outcomes, end);
    run_keeps(start, outcomes, end);
    finished_stays(start, outcomes, end + 1, n);
    assert(start.after(outcomes, n) == last.advance(outcomes[end as int]));
    if start.after(outcomes, n).detached {
        assert(last.stage == Stage::Attach);
    }
    if start.after(outcomes, n).claimed {
        if last.stage != Stage::Release {
            let j = (end - 1) as nat;
            run_keeps(start, outcomes, j);
            assert(last == start.after(outcomes, j).advance(outcomes[j as int]));
            assert(start.after(outcomes, j).stage == Stage::Release);
        }
    }
}

/// The request that ended an exchange.
proof fn finished_since(start: ExchangeState, outcomes: Seq<Outcome>, n: nat) -> (i: nat)
    requires
        start.stage != Stage::Finished,
        start.after(outcomes, n).stage == Stage::Finished,
    ensures
        i < n,
        start.after(outcomes, i).stage != Stage::Finished,
        start.after(outcomes, i + 1).stage == Stage::Finished,
    decreases n,
{
    let before = start.after(outcomes, (n - 1) as nat);
    if before.stage == Stage::Finished {
        finished_since(start, outcomes, (n - 1) as nat)
    } else {
        (n - 1) as nat
    }
}

/// Every run is made of two parts. The command sends until a request fails:
/// with `m` the number of sending requests that completed, it makes those
/// and, if one is left, the one that fails. Then it gives back what it
/// holds by then, the interface if the claim completed and the driver if
/// the detaching did, whatever the outcomes of giving back, and is over.
pub proof fn run_sends_then_gives_back(start: ExchangeState, outcomes: Seq<Outcome>, m: nat)
    requires
        start.fresh(),
        m <= sending(start.payload, start.memory_reset, start.detach).len(),
        m < outcomes.len(),
        forall|i: int| 0 <= i < m ==> outcomes[i] == Outcome::Completed,
        m < sending(start.payload, start.memory_reset, start.detach).len() ==> outcomes[m as int]
            != Outcome::Completed,
    ensures
        ({
            let forth = sending(start.payload, start.memory_reset, start.detach);
            let sent = if m < forth.len() {
                m + 1
            } else {
                m
            };
            let back = giving_back(m > claim_at(start.detach), start.detach && m > 0);
            &&& forall|k: nat|
                k < sent ==> #[trigger] start.after(outcomes, k).stage == forth[k as int]
            &&& forall|k: nat|
                sent <= k < sent + back.len() ==> #[trigger] start.after(outcomes, k).stage
                    == back[k - sent]
            &&& start.after(outcomes, sent + back.len()).stage == Stage::Finished
        }),
{
    let forth = sending(start.payload, start.memory_reset, start.detach);
    sending_shape(start.payload, start.memory_reset, start.detach);
    let sent: nat = if m < forth.len() {
        m + 1
    } else {
        m
    };
    let claimed = m > claim_at(start.detach);
    let detached = start.detach && m > 0;
    let back = giving_back(claimed, detached);
    let turn = start.after(outcomes, sent);
    assert(turn.stage == unwind(claimed, detached) && turn.claimed == claimed && turn.detached
        == detached) by {
        sends_while_completing(start, outcomes, m, m);
        if m < forth.len() {
            assert(turn == start.after(outcomes, m).advance(outcomes[m as int]));
        }
    }
    let next = start.after(outcomes, sent + 1);
    assert(next == turn.advance(outcomes[sent as int]));
    assert(start.after(outcomes, sent + 2) == next.advance(outcomes[sent + 1 as int]));
    assert(back.len() == (if claimed { 1nat } else { 0nat }) + (if detached { 1nat } else { 0nat }));
    assert forall|k: nat| k < sent implies #[trigger] start.after(outcomes, k).stage == forth[k as int] by {
        sends_while_completing(start, outcomes, m, k);
    }
    assert forall|k: nat| sent <= k < sent + back.len() implies #[trigger] start.after(
        outcomes,
        k,
    ).stage == back[k - sent] by {
        assert(k == sent || k == sent + 1);
    }
}

/// While every request completes, a command makes its sending requests in
/// order, holds what it has acquired so far, and has met no failure; past
/// the last of them it turns to releasing.
proof fn sends_while_completing(start: ExchangeState, outcomes: Seq<Outcome>, m: nat, k: nat)
    requires
        start.fresh(),
        k <= m <= sending(start.payload, start.memory_reset, start.detach).len(),
        forall|i: int| 0 <= i < m ==> outcomes[i] == Outcome::Completed,
    ensures
        ({
            let forth = sending(start.payload, start.memory_reset, start.detach);
            let state = start.after(outcomes, k);
            &&& state.stage == if k < forth.len() {
                forth[k as int]
            } else {
                Stage::Release
            }
            &&& state.claimed == (k > claim_at(start.detach))
            &&& state.detached == (start.detach && k > 0)
            &&& state.failure is None
        }),
    decreases k,
{
    sending_shape(start.payload, start.memory_reset, start.detach);
    if k > 0 {
        sends_while_completing(start, outcomes, m, (k - 1) as nat);
        run_keeps(start, outcomes, (k - 1) as nat);
    }
}

/// The sending requests, place by place.
proof fn sending_shape(payload: Seq<u8>, memory_reset: bool, detach: bool)
    ensures
        ({
            let forth = sending(payload, memory_reset, detach);
            let claim = claim_at(detach) as int;
            let report = claim + if memory_reset {
                2int
            } else {
                1int
            };
            &&& forth.len() == report + if has_zone_prefix(payload) {
                2int
            } else {
                1int
            }
            &&& detach ==> forth[0] == Stage::Detach
            &&& forth[claim] == Stage::Claim
            &&& memory_reset ==> forth[claim + 1] == Stage::Reset
            &&& forth[report] == Stage::Payload
            &&& has_zone_prefix(payload) ==> forth[report + 1] == Stage::Commit
        }),
{
    assert(only(detach, Stage::Detach).len() == claim_at(detach));
    assert(only(memory_reset, Stage::Reset).len() == if memory_reset { 1nat } else { 0nat });
}

/// A command whose requests all complete makes the requests of its script,
/// in that order and no others, and reports success.
pub proof fn clean_run_follows_script(start: ExchangeState, outcomes: Seq<Outcome>)
    requires
        start.fresh(),
        outcomes.len() == script(start.payload, start.memory_reset, start.detach).len(),
        forall|i: int| 0 <= i < outcomes.len() ==> outcomes[i] == Outcome::Completed,
    ensures
        forall|k: nat|
            k < outcomes.len() ==> #[trigger] start.after(outcomes, k).stage == script(
                start.payload,
                start.memory_reset,
                start.detach,
            )[k as int],
        start.after(outcomes, outcomes.len()).stage == Stage::Finished,
        start.after(outcomes, outcomes.len()).result() == Ok::<(), Failure>(()),
{
    let forth = sending(start.payload, start.memory_reset, start.detach);
    sending_shape(start.payload, start.memory_reset, start.detach);
    run_sends_then_gives_back(start, outcomes, forth.len());
    no_failure_while_completing(start, outcomes, outcomes.len());
}

/// Every transfer of a run is a class request to the lighting interface
/// that sets a report, and is given the time that the exchange was begun
/// with. The reset report goes out with its own value, the other two with
/// the value of an effect report.
pub proof fn transfers_carry_signature(start: ExchangeState, outcomes: Seq<Outcome>, k: nat)
    requires
        k <= outcomes.len(),
        start.after(outcomes, k).stage.is_transfer(),
    ensures
        start.after(outcomes, k).request() matches RequestView::WriteControl {
            request_type,
            request,
            value,
            index,
            data,
            timeout,
        } && request_type == REQUEST_TYPE && request == SET_REPORT && index == REPORT_INDEX
            && timeout == start.timeout && value == (if start.after(outcomes, k).stage
            == Stage::Reset {
            RESET_VALUE
        } else {
            REPORT_VALUE
        }) && data == (match start.after(outcomes, k).stage {
            Stage::Reset => reset_frame(),
            Stage::Commit => commit_frame(),
            _ => start.payload,
        }),
{
    run_keeps(start, outcomes, k);
}

} // verus!
