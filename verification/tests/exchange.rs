use g203_lib::effect::{encode_solid, encode_triple};
use g203_lib::exchange::{classify, Action, Exchange, Failure, Outcome, Request, Stage};
use std::cell::RefCell;
use g203_lib::Error;
use std::time::Duration;

const RESET: [u8; 7] = [0x10, 0xFF, 0x0E, 0x5B, 0x01, 0x03, 0x05];

const COMMIT: [u8; 20] = [
    0x11, 0xFF, 0x12, 0x7B, 0x00, 0x00, 0x00, 0x00, 0x00, 0x00, 0x00, 0x00, 0x00, 0x00, 0x00,
    0x00, 0x00, 0x00, 0x00, 0x00,
];

const OK: Outcome = Outcome::Completed;

fn timeout() -> Duration {
    Duration::from_millis(750)
}

fn write(value: u16, data: &[u8]) -> Request {
    Request::WriteControl {
        request_type: 0x21,
        request: 0x09,
        value,
        index: 0x01,
        data: data.to_vec(),
        timeout: timeout(),
    }
}

fn detach() -> Request {
    Request::DetachKernelDriver { interface: 1 }
}

fn claim() -> Request {
    Request::ClaimInterface { interface: 1 }
}

fn release() -> Request {
    Request::ReleaseInterface { interface: 1 }
}

fn attach() -> Request {
    Request::AttachKernelDriver { interface: 1 }
}

fn failed(cause: Error, still_claimed: bool, still_detached: bool) -> Result<(), Failure> {
    Err(Failure { cause, still_claimed, still_detached })
}

/// Carries an exchange out against a device that answers with `outcomes`, in
/// order: the requests that were made, and the result.
fn drive(mut exchange: Exchange, outcomes: &[Outcome]) -> (Vec<Request>, Result<(), Failure>) {
    let mut made = Vec::new();
    let mut answers = outcomes.iter();
    let mut action = exchange.pending();
    loop {
        match action {
            Action::Finish(result) => return (made, result),
            Action::Make(request) => made.push(request),
        }
        let outcome = *answers.next().expect("the device has an answer to every request");
        action = exchange.step(outcome);
    }
}

/// The same, with the library's own loop.
fn carry(exchange: Exchange, outcomes: &[Outcome]) -> (Vec<Request>, Result<(), Failure>) {
    let made = RefCell::new(Vec::new());
    let result = exchange.carry_out(|request| {
        let mut made = made.borrow_mut();
        made.push(request);
        outcomes[made.len() - 1]
    });
    (made.into_inner(), result)
}

fn solid(reset: bool, detach: bool) -> Exchange {
    Exchange::begin(&encode_solid([1, 2, 3]), reset, detach, timeout())
}

fn triple(reset: bool, detach: bool) -> Exchange {
    Exchange::begin(&encode_triple([[1, 2, 3], [4, 5, 6], [7, 8, 9]]), reset, detach, timeout())
}

#[test]
fn a_command_runs_from_detach_to_attach() {
    let report = encode_solid([1, 2, 3]);
    let (made, result) = drive(solid(true, true), &[OK; 6]);
    assert_eq!(
        made,
        vec![
            detach(),
            claim(),
            write(0x0210, &RESET),
            write(0x0211, &report),
            release(),
            attach()
        ]
    );
    assert_eq!(result, Ok(()));
}

#[test]
fn a_platform_without_kernel_driver_only_claims_and_releases() {
    let report = encode_solid([1, 2, 3]);
    let (made, result) = drive(solid(true, false), &[OK; 4]);
    assert_eq!(
        made,
        vec![claim(), write(0x0210, &RESET), write(0x0211, &report), release()]
    );
    assert_eq!(result, Ok(()));
}

#[test]
fn no_reset_goes_out_where_none_was_asked_for() {
    let report = encode_solid([1, 2, 3]);
    let (made, result) = drive(solid(false, false), &[OK; 3]);
    assert_eq!(made, vec![claim(), write(0x0211, &report), release()]);
    assert_eq!(result, Ok(()));
}

#[test]
fn a_zone_report_is_committed_once() {
    let report = encode_triple([[1, 2, 3], [4, 5, 6], [7, 8, 9]]);
    let (made, result) = drive(triple(false, true), &[OK; 6]);
    assert_eq!(
        made,
        vec![
            detach(),
            claim(),
            write(0x0211, &report),
            write(0x0211, &COMMIT),
            release(),
            attach()
        ]
    );
    assert_eq!(result, Ok(()));
    let commits = made.iter().filter(|request| **request == write(0x0211, &COMMIT)).count();
    assert_eq!(commits, 1);
}

#[test]
fn a_zone_report_with_reset_makes_all_seven_requests() {
    let report = encode_triple([[1, 2, 3], [4, 5, 6], [7, 8, 9]]);
    let (made, result) = drive(triple(true, true), &[OK; 7]);
    assert_eq!(
        made,
        vec![
            detach(),
            claim(),
            write(0x0210, &RESET),
            write(0x0211, &report),
            write(0x0211, &COMMIT),
            release(),
            attach()
        ]
    );
    assert_eq!(result, Ok(()));
}

#[test]
fn any_report_with_the_zone_prefix_is_committed() {
    let report = [0x11, 0xFF, 0x12, 0x1B, 0xAA];
    let exchange = Exchange::begin(&report, false, false, timeout());
    let (made, result) = drive(exchange, &[OK; 4]);
    assert_eq!(
        made,
        vec![claim(), write(0x0211, &report), write(0x0211, &COMMIT), release()]
    );
    assert_eq!(result, Ok(()));
}

#[test]
fn short_and_empty_reports_are_sent_and_not_committed() {
    for report in [&[][..], &[0x11][..], &[0x11, 0xFF, 0x12][..]] {
        let exchange = Exchange::begin(report, false, false, timeout());
        let (made, result) = drive(exchange, &[OK; 3]);
        assert_eq!(made, vec![claim(), write(0x0211, report), release()]);
        assert_eq!(result, Ok(()));
    }
}

#[test]
fn the_commit_report_itself_is_not_committed() {
    let exchange = Exchange::begin(&COMMIT, false, false, timeout());
    let (made, result) = drive(exchange, &[OK; 3]);
    assert_eq!(made, vec![claim(), write(0x0211, &COMMIT), release()]);
    assert_eq!(result, Ok(()));
}

#[test]
fn a_zone_report_that_fails_is_not_committed() {
    let report = encode_triple([[1, 2, 3], [4, 5, 6], [7, 8, 9]]);
    let (made, result) = drive(triple(false, false), &[OK, Outcome::Failed, OK]);
    assert_eq!(made, vec![claim(), write(0x0211, &report), release()]);
    assert_eq!(result, failed(Error::TransferFailed, false, false));
}

#[test]
fn the_interface_is_released_once_when_the_report_fails() {
    let report = encode_solid([1, 2, 3]);
    for outcome in [Outcome::Failed, Outcome::TimedOut, Outcome::Completed] {
        let (made, _) = drive(solid(true, true), &[OK, OK, OK, outcome, OK, OK]);
        assert_eq!(
            made,
            vec![
                detach(),
                claim(),
                write(0x0210, &RESET),
                write(0x0211, &report),
                release(),
                attach()
            ]
        );
        assert_eq!(made.iter().filter(|request| **request == release()).count(), 1);
    }
}

#[test]
fn a_report_that_times_out_reports_the_timeout() {
    let (_, result) = drive(solid(false, false), &[OK, Outcome::TimedOut, OK]);
    assert_eq!(result, failed(Error::TransferTimeout, false, false));
}

#[test]
fn a_report_that_fails_reports_the_transfer() {
    let (_, result) = drive(solid(false, false), &[OK, Outcome::Failed, OK]);
    assert_eq!(result, failed(Error::TransferFailed, false, false));
}

#[test]
fn a_reset_that_fails_holds_the_report_back() {
    let (made, result) = drive(solid(true, true), &[OK, OK, Outcome::TimedOut, OK, OK]);
    assert_eq!(made, vec![detach(), claim(), write(0x0210, &RESET), release(), attach()]);
    assert_eq!(result, failed(Error::TransferTimeout, false, false));
}

#[test]
fn a_commit_that_fails_is_reported() {
    let report = encode_triple([[1, 2, 3], [4, 5, 6], [7, 8, 9]]);
    let (made, result) = drive(triple(false, false), &[OK, OK, Outcome::Failed, OK]);
    assert_eq!(
        made,
        vec![claim(), write(0x0211, &report), write(0x0211, &COMMIT), release()]
    );
    assert_eq!(result, failed(Error::TransferFailed, false, false));
}

#[test]
fn a_claim_that_fails_sends_nothing_and_releases_nothing() {
    let (made, result) = drive(solid(true, false), &[Outcome::Failed]);
    assert_eq!(made, vec![claim()]);
    assert_eq!(result, failed(Error::InterfaceClaimFailed, false, false));
}

#[test]
fn a_claim_that_fails_brings_the_driver_back() {
    let (made, result) = drive(solid(true, true), &[OK, Outcome::Failed, OK]);
    assert_eq!(made, vec![detach(), claim(), attach()]);
    assert_eq!(result, failed(Error::InterfaceClaimFailed, false, false));
}

#[test]
fn a_detach_that_fails_ends_the_command() {
    for outcome in [Outcome::Failed, Outcome::TimedOut] {
        let (made, result) = drive(solid(true, true), &[outcome]);
        assert_eq!(made, vec![detach()]);
        assert_eq!(result, failed(Error::KernelDriverError, false, false));
    }
}

#[test]
fn a_release_that_fails_is_reported_and_the_driver_still_attached() {
    let (made, result) = drive(solid(false, true), &[OK, OK, OK, Outcome::Failed, OK]);
    assert_eq!(made.len(), 5);
    assert_eq!(made[3], release());
    assert_eq!(made[4], attach());
    assert_eq!(result, failed(Error::InterfaceClaimFailed, true, false));
}

#[test]
fn an_attach_that_fails_is_reported() {
    let (made, result) = drive(solid(false, true), &[OK, OK, OK, OK, Outcome::Failed]);
    assert_eq!(made.len(), 5);
    assert_eq!(result, failed(Error::KernelDriverError, false, true));
}

#[test]
fn the_first_failure_is_the_cause_and_later_ones_are_not_lost() {
    let (made, result) =
        drive(solid(false, true), &[OK, OK, Outcome::TimedOut, Outcome::Failed, Outcome::Failed]);
    assert_eq!(made.len(), 5);
    assert_eq!(made[3], release());
    assert_eq!(made[4], attach());
    assert_eq!(result, failed(Error::TransferTimeout, true, true));
}

#[test]
fn every_transfer_is_given_the_time_of_the_exchange() {
    let span = Duration::from_millis(1234);
    let exchange = Exchange::begin(&encode_triple([[0; 3]; 3]), true, true, span);
    let (made, _) = drive(exchange, &[OK; 7]);
    let mut transfers = 0;
    for made in made {
        if let Request::WriteControl { request_type, request, index, timeout, .. } = made {
            assert_eq!(request_type, 0x21);
            assert_eq!(request, 0x09);
            assert_eq!(index, 0x01);
            assert_eq!(timeout, span);
            transfers += 1;
        }
    }
    assert_eq!(transfers, 3);
}

#[test]
fn an_exchange_that_is_over_takes_no_more_outcomes() {
    let mut exchange = solid(false, false);
    let over = || Action::Finish(failed(Error::InterfaceClaimFailed, false, false));
    assert_eq!(exchange.step(Outcome::Failed), over());
    for outcome in [Outcome::Completed, Outcome::TimedOut, Outcome::Failed] {
        assert_eq!(exchange.step(outcome), over());
    }
    let mut clean = solid(false, false);
    clean.step(OK);
    clean.step(OK);
    assert_eq!(clean.step(OK), Action::Finish(Ok(())));
    assert_eq!(clean.step(Outcome::Failed), Action::Finish(Ok(())));
    assert_eq!(clean.pending(), Action::Finish(Ok(())));
}

#[test]
fn pending_names_the_same_request_until_it_is_answered() {
    let exchange = solid(true, true);
    assert_eq!(exchange.pending(), Action::Make(detach()));
    assert_eq!(exchange.pending(), Action::Make(detach()));
    let mut exchange = solid(true, false);
    assert_eq!(exchange.pending(), Action::Make(claim()));
    assert_eq!(exchange.step(OK), Action::Make(write(0x0210, &RESET)));
    assert_eq!(exchange.pending(), Action::Make(write(0x0210, &RESET)));
}

#[test]
fn outcomes_stand_for_errors_by_the_kind_of_request() {
    let stages = [
        Stage::Detach,
        Stage::Claim,
        Stage::Reset,
        Stage::Payload,
        Stage::Commit,
        Stage::Release,
        Stage::Attach,
        Stage::Finished,
    ];
    for stage in stages {
        assert_eq!(classify(stage, Outcome::Completed), None);
    }
    for outcome in [Outcome::TimedOut, Outcome::Failed] {
        assert_eq!(classify(Stage::Detach, outcome), Some(Error::KernelDriverError));
        assert_eq!(classify(Stage::Attach, outcome), Some(Error::KernelDriverError));
        assert_eq!(classify(Stage::Claim, outcome), Some(Error::InterfaceClaimFailed));
        assert_eq!(classify(Stage::Release, outcome), Some(Error::InterfaceClaimFailed));
    }
    for stage in [Stage::Reset, Stage::Payload, Stage::Commit] {
        assert_eq!(classify(stage, Outcome::TimedOut), Some(Error::TransferTimeout));
        assert_eq!(classify(stage, Outcome::Failed), Some(Error::TransferFailed));
    }
}

/// What a careful host does by hand, written in one piece: the requests it
/// makes against a device that answers with `outcomes`, and what it reports.
fn by_hand(
    report: &[u8],
    reset: bool,
    with_driver: bool,
    outcomes: &[Outcome],
) -> (Vec<Request>, Result<(), Failure>) {
    let mut made = Vec::new();
    let mut answers = outcomes.iter();
    let mut cause = None;
    let mut ask = |request: Request, transfer: bool, driver: bool, cause: &mut Option<Error>| {
        made.push(request);
        match *answers.next().unwrap() {
            Outcome::Completed => true,
            outcome => {
                let error = if driver {
                    Error::KernelDriverError
                } else if !transfer {
                    Error::InterfaceClaimFailed
                } else if outcome == Outcome::TimedOut {
                    Error::TransferTimeout
                } else {
                    Error::TransferFailed
                };
                cause.get_or_insert(error);
                false
            }
        }
    };
    let mut detached = false;
    let mut claimed = false;
    if !with_driver || ask(detach(), false, true, &mut cause) {
        detached = with_driver;
        if ask(claim(), false, false, &mut cause) {
            claimed = true;
            if (!reset || ask(write(0x0210, &RESET), true, false, &mut cause))
                && ask(write(0x0211, report), true, false, &mut cause)
                && report.len() >= 4
                && report[..4] == [0x11, 0xFF, 0x12, 0x1B]
            {
                ask(write(0x0211, &COMMIT), true, false, &mut cause);
            }
        }
    }
    if claimed {
        claimed = !ask(release(), false, false, &mut cause);
    }
    if detached {
        detached = !ask(attach(), false, true, &mut cause);
    }
    let result = match cause {
        None => Ok(()),
        Some(cause) => Err(Failure { cause, still_claimed: claimed, still_detached: detached }),
    };
    (made, result)
}

fn every_run(mut check: impl FnMut(&[u8], bool, bool, &[Outcome])) {
    let solid = encode_solid([9, 9, 9]);
    let triple = encode_triple([[9; 3]; 3]);
    let all = [Outcome::Completed, Outcome::TimedOut, Outcome::Failed];
    for report in [&solid[..], &triple[..]] {
        for reset in [false, true] {
            for with_driver in [false, true] {
                for code in 0..2187u32 {
                    let mut outcomes = [Outcome::Completed; 7];
                    let mut rest = code;
                    for outcome in outcomes.iter_mut() {
                        *outcome = all[(rest % 3) as usize];
                        rest /= 3;
                    }
                    check(report, reset, with_driver, &outcomes);
                }
            }
        }
    }
}

#[test]
fn every_run_is_the_one_made_by_hand() {
    every_run(|report, reset, with_driver, outcomes| {
        let exchange = Exchange::begin(report, reset, with_driver, timeout());
        assert_eq!(
            drive(exchange, outcomes),
            by_hand(report, reset, with_driver, outcomes)
        );
    });
}

#[test]
fn every_run_is_carried_out_alike_by_the_library() {
    every_run(|report, reset, with_driver, outcomes| {
        assert_eq!(
            carry(Exchange::begin(report, reset, with_driver, timeout()), outcomes),
            by_hand(report, reset, with_driver, outcomes)
        );
    });
}

#[test]
fn carrying_out_makes_each_request_and_returns_the_result() {
    let report = encode_triple([[1, 2, 3], [4, 5, 6], [7, 8, 9]]);
    let (made, result) = carry(triple(true, true), &[OK; 7]);
    assert_eq!(
        made,
        vec![
            detach(),
            claim(),
            write(0x0210, &RESET),
            write(0x0211, &report),
            write(0x0211, &COMMIT),
            release(),
            attach()
        ]
    );
    assert_eq!(result, Ok(()));
    let (made, result) = carry(triple(true, true), &[OK, OK, OK, Outcome::TimedOut, OK, OK]);
    assert_eq!(made.len(), 6);
    assert_eq!(made[4], release());
    assert_eq!(result, failed(Error::TransferTimeout, false, false));
}

#[test]
fn carrying_out_an_exchange_that_is_over_asks_nothing() {
    let mut exchange = solid(false, false);
    exchange.step(Outcome::Failed);
    let (made, result) = carry(exchange, &[]);
    assert_eq!(made, vec![]);
    assert_eq!(result, failed(Error::InterfaceClaimFailed, false, false));
}

#[test]
fn carrying_out_goes_on_from_where_the_exchange_stands() {
    let mut exchange = solid(false, true);
    exchange.step(OK);
    exchange.step(OK);
    let (made, result) = carry(exchange, &[Outcome::Failed, OK, OK]);
    assert_eq!(made, vec![write(0x0211, &encode_solid([1, 2, 3])), release(), attach()]);
    assert_eq!(result, failed(Error::TransferFailed, false, false));
}

#[test]
fn every_run_releases_what_it_claimed_exactly_once() {
    every_run(|report, reset, with_driver, outcomes| {
        let (made, _) = drive(Exchange::begin(report, reset, with_driver, timeout()), outcomes);
        assert!(made.len() <= 7);
        let at = |wanted: &Request| made.iter().position(|request| request == wanted);
        let count = |wanted: &Request| made.iter().filter(|request| *request == wanted).count();
        let detached = at(&detach()).map_or(false, |i| outcomes[i] == Outcome::Completed);
        assert_eq!(count(&detach()), if with_driver { 1 } else { 0 });
        assert_eq!(count(&attach()), if detached { 1 } else { 0 });
        let claimed = at(&claim()).map_or(false, |i| outcomes[i] == Outcome::Completed);
        assert_eq!(count(&claim()), if with_driver && !detached { 0 } else { 1 });
        assert_eq!(count(&release()), if claimed { 1 } else { 0 });
        for (i, request) in made.iter().enumerate() {
            if matches!(request, Request::WriteControl { .. }) {
                assert!(at(&claim()).unwrap() < i);
                assert!(i < at(&release()).unwrap());
            }
        }
    });
}

#[test]
fn every_run_commits_zone_reports_and_nothing_else() {
    every_run(|report, reset, with_driver, outcomes| {
        let (made, _) = drive(Exchange::begin(report, reset, with_driver, timeout()), outcomes);
        let sent = made.iter().position(|request| *request == write(0x0211, report));
        let commits = made.iter().filter(|request| **request == write(0x0211, &COMMIT)).count();
        let went_through = sent.map_or(false, |i| outcomes[i] == Outcome::Completed);
        if report[2] == 0x12 && went_through {
            assert_eq!(commits, 1);
            assert_eq!(made[sent.unwrap() + 1], write(0x0211, &COMMIT));
        } else {
            assert_eq!(commits, 0);
        }
        let resets = made.iter().filter(|request| **request == write(0x0210, &RESET)).count();
        if sent.is_some() {
            assert_eq!(resets, if reset { 1 } else { 0 });
        }
        if !reset {
            assert_eq!(resets, 0);
        }
    });
}

#[test]
fn every_run_reports_its_first_failure() {
    every_run(|report, reset, with_driver, outcomes| {
        let (made, result) =
            drive(Exchange::begin(report, reset, with_driver, timeout()), outcomes);
        let first = (0..made.len()).find(|i| outcomes[*i] != Outcome::Completed);
        match (first, result) {
            (None, Ok(())) => {}
            (Some(i), Err(failure)) => {
                let expected = match made[i] {
                    Request::DetachKernelDriver { .. } | Request::AttachKernelDriver { .. } => {
                        Error::KernelDriverError
                    }
                    Request::ClaimInterface { .. } | Request::ReleaseInterface { .. } => {
                        Error::InterfaceClaimFailed
                    }
                    _ if outcomes[i] == Outcome::TimedOut => Error::TransferTimeout,
                    _ => Error::TransferFailed,
                };
                assert_eq!(failure.cause, expected);
            }
            (first, result) => panic!("request {:?} failed first, and the report is {:?}", first, result),
        }
    });
}
