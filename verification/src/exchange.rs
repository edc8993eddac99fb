//! The delivery of one report, as a sequence of decisions.
//!
//! Talking to the device takes up to seven requests to the USB stack: detach
//! the kernel's driver, claim the interface, reset the device's stored
//! lighting, send the report, commit it, release the interface, attach the
//! driver again. Which of them are made depends on the report, on the
//! platform, and on how the earlier requests went. An [`Exchange`] holds that
//! decision: it names the request to make now, takes its outcome, and names
//! the next one, until it hands out the result. It performs nothing itself.
//!
//! The caller makes each request as it is named, one exchange at a time, and
//! goes on until the exchange is over: an exchange that is dropped midway
//! may leave the interface claimed and the kernel's driver detached.
//!
//! Three choices are made here once and for all.
//!
//! - The driver leaves before the interface is claimed, and comes back
//!   after it was released.
//! - What was acquired is given back whatever happened in between, and
//!   giving back goes on when a part of it fails. The first failure is the
//!   one reported as the cause; a failure to give back is never dropped, it
//!   shows in what the report says is still held.
//! - No request selects a configuration: the device is used in the one in
//!   which it was opened.

use crate::effect::{has_zone_prefix, is_zone_report, zeros};
use crate::error::Error;
use std::time::Duration;
use vstd::prelude::*;
use vstd::slice::slice_to_vec;

verus! {

/// Number of the lighting interface.
pub const INTERFACE: u8 = 0x01;

/// Request type of every transfer: host to device, class request, addressed
/// to an interface.
pub const REQUEST_TYPE: u8 = 0x21;

/// Request code of every transfer: the HID request that sets a report.
pub const SET_REPORT: u8 = 0x09;

/// Value field of the transfer that carries the reset report.
pub const RESET_VALUE: u16 = 0x0210;

/// Value field of the transfers that carry an effect report or the commit
/// report.
pub const REPORT_VALUE: u16 = 0x0211;

/// Index field of every transfer: the number of the lighting interface.
pub const REPORT_INDEX: u16 = 0x0001;

/// The seven-byte report that makes the device forget its stored lighting.
pub open spec fn reset_frame() -> Seq<u8> {
    seq![0x10u8, 0xffu8, 0x0eu8, 0x5bu8, 0x01u8, 0x03u8, 0x05u8]
}

/// The twenty-byte report that makes the device show the zone colours it was
/// sent.
pub open spec fn commit_frame() -> Seq<u8> {
    seq![0x11u8, 0xffu8, 0x12u8, 0x7bu8] + zeros(16)
}

/// The request an exchange is waiting on.
#[derive(Clone, Copy, Debug, PartialEq, Eq, Structural)]
pub enum Stage {
    /// Detaching the kernel's driver from the interface.
    Detach,
    /// Claiming the interface.
    Claim,
    /// Sending the reset report.
    Reset,
    /// Sending the effect report.
    Payload,
    /// Sending the commit report.
    Commit,
    /// Releasing the interface.
    Release,
    /// Attaching the kernel's driver again.
    Attach,
    /// Nothing is left to do.
    Finished,
}

/// How a request went.
#[derive(Clone, Copy, Debug, PartialEq, Eq, Structural)]
pub enum Outcome {
    /// The request succeeded.
    Completed,
    /// The request did not complete in time.
    TimedOut,
    /// The request failed in any other way.
    Failed,
}

/// What an exchange that failed reports.
#[derive(Clone, Copy, Debug, PartialEq, Eq, Structural)]
pub struct Failure {
    /// The first failure met.
    pub cause: Error,
    /// The interface was claimed and could not be released.
    pub still_claimed: bool,
    /// The kernel's driver was detached and could not be attached again.
    pub still_detached: bool,
}

/// A request to the USB stack, as a value of specifications.
pub enum RequestView {
    DetachKernelDriver { interface: u8 },
    ClaimInterface { interface: u8 },
    WriteControl {
        request_type: u8,
        request: u8,
        value: u16,
        index: u16,
        data: Seq<u8>,
        timeout: Duration,
    },
    ReleaseInterface { interface: u8 },
    AttachKernelDriver { interface: u8 },
}

/// A request to the USB stack.
#[derive(Debug, PartialEq, Eq)]
pub enum Request {
    /// Detach the kernel's driver from the interface.
    DetachKernelDriver { interface: u8 },
    /// Claim the interface.
    ClaimInterface { interface: u8 },
    /// Write `data` to the device in one control transfer, and give it
    /// `timeout` to complete.
    WriteControl {
        request_type: u8,
        request: u8,
        value: u16,
        index: u16,
        data: Vec<u8>,
        timeout: Duration,
    },
    /// Release the interface.
    ReleaseInterface { interface: u8 },
    /// Attach the kernel's driver to the interface.
    AttachKernelDriver { interface: u8 },
}

impl View for Request {
    type V = RequestView;

    open spec fn view(&self) -> RequestView {
        match *self {
            Request::DetachKernelDriver { interface } => RequestView::DetachKernelDriver {
                interface,
            },
            Request::ClaimInterface { interface } => RequestView::ClaimInterface { interface },
            Request::WriteControl { request_type, request, value, index, data, timeout } => {
                RequestView::WriteControl {
                    request_type,
                    request,
                    value,
                    index,
                    data: data@,
                    timeout,
                }
            },
            Request::ReleaseInterface { interface } => RequestView::ReleaseInterface { interface },
            Request::AttachKernelDriver { interface } => RequestView::AttachKernelDriver {
                interface,
            },
        }
    }
}

/// What is to be done next, as a value of specifications.
pub enum ActionView {
    Make(RequestView),
    Finish(Result<(), Failure>),
}

/// What the caller of an exchange has to do next.
#[derive(Debug, PartialEq, Eq)]
pub enum Action {
    /// Make this request, and tell the exchange how it went.
    Make(Request),
    /// Stop: the exchange is over, with this result.
    Finish(Result<(), Failure>),
}

impl View for Action {
    type V = ActionView;

    open spec fn view(&self) -> ActionView {
        match *self {
            Action::Make(request) => ActionView::Make(request@),
            Action::Finish(result) => ActionView::Finish(result),
        }
    }
}

/// The error that a request's outcome stands for: none where it completed;
/// else by the kind of request, and for a transfer by whether it timed out.
pub open spec fn fault(stage: Stage, outcome: Outcome) -> Option<Error> {
    if outcome == Outcome::Completed {
        None
    } else {
        Some(
            match stage {
                Stage::Detach | Stage::Attach => Error::KernelDriverError,
                Stage::Claim | Stage::Release => Error::InterfaceClaimFailed,
                _ => if outcome == Outcome::TimedOut {
                    Error::TransferTimeout
                } else {
                    Error::TransferFailed
                },
            },
        )
    }
}

/// Where an exchange goes once it sends nothing more: it gives back what it
/// still holds, the interface first.
pub open spec fn unwind(claimed: bool, detached: bool) -> Stage {
    if claimed {
        Stage::Release
    } else if detached {
        Stage::Attach
    } else {
        Stage::Finished
    }
}

/// An exchange, as a value of specifications.
pub struct ExchangeState {
    /// The effect report to deliver.
    pub payload: Seq<u8>,
    /// Whether the reset report goes out before the effect report.
    pub memory_reset: bool,
    /// Whether the kernel's driver has to leave the interface first.
    pub detach: bool,
    /// The time each transfer is given.
    pub timeout: Duration,
    /// The request that is being waited on.
    pub stage: Stage,
    /// Whether the interface is claimed.
    pub claimed: bool,
    /// Whether the kernel's driver is detached.
    pub detached: bool,
    /// The first failure met so far.
    pub failure: Option<Error>,
}

impl ExchangeState {
    /// The exchange before any request was made.
    pub open spec fn begin(
        payload: Seq<u8>,
        memory_reset: bool,
        detach: bool,
        timeout: Duration,
    ) -> ExchangeState {
        ExchangeState {
            payload,
            memory_reset,
            detach,
            timeout,
            stage: if detach {
                Stage::Detach
            } else {
                Stage::Claim
            },
            claimed: false,
            detached: false,
            failure: None,
        }
    }

    /// A control transfer of this exchange.
    pub open spec fn transfer(self, value: u16, data: Seq<u8>) -> RequestView {
        RequestView::WriteControl {
            request_type: REQUEST_TYPE,
            request: SET_REPORT,
            value,
            index: REPORT_INDEX,
            data,
            timeout: self.timeout,
        }
    }

    /// What the exchange reports once it is over.
    pub open spec fn result(self) -> Result<(), Failure> {
        match self.failure {
            None => Ok(()),
            Some(cause) => Err(
                Failure { cause, still_claimed: self.claimed, still_detached: self.detached },
            ),
        }
    }

    /// The request that the exchange is waiting on. An exchange that is over
    /// waits on none, and this names an arbitrary one.
    pub open spec fn request(self) -> RequestView {
        match self.stage {
            Stage::Detach => RequestView::DetachKernelDriver { interface: INTERFACE },
            Stage::Claim => RequestView::ClaimInterface { interface: INTERFACE },
            Stage::Reset => self.transfer(RESET_VALUE, reset_frame()),
            Stage::Payload => self.transfer(REPORT_VALUE, self.payload),
            Stage::Commit => self.transfer(REPORT_VALUE, commit_frame()),
            Stage::Release => RequestView::ReleaseInterface { interface: INTERFACE },
            _ => RequestView::AttachKernelDriver { interface: INTERFACE },
        }
    }

    /// What is to be done next: the request that the exchange is waiting on,
    /// or nothing more.
    pub open spec fn pending(self) -> ActionView {
        if self.stage == Stage::Finished {
            ActionView::Finish(self.result())
        } else {
            ActionView::Make(self.request())
        }
    }

    /// Whether the stage agrees with what the exchange holds and with what
    /// it was asked to do. A new exchange is consistent, and every outcome
    /// leaves it so.
    pub open spec fn consistent(self) -> bool {
        let sending = self.claimed && self.detached == self.detach && self.failure is None;
        &&& self.detached ==> self.detach
        &&& match self.stage {
            Stage::Detach => self.detach && !self.claimed && !self.detached && self.failure is None,
            Stage::Claim => !self.claimed && self.detached == self.detach && self.failure is None,
            Stage::Reset => self.memory_reset && sending,
            Stage::Payload => sending,
            Stage::Commit => has_zone_prefix(self.payload) && sending,
            Stage::Release => self.claimed && self.detached == self.detach,
            Stage::Attach => self.detached && (self.failure is None ==> !self.claimed),
            Stage::Finished => self.failure is None ==> !self.claimed && !self.detached,
        }
    }

    /// The exchange after the pending request came back with `outcome`.
    ///
    /// A request that completes leads to the next one that the report asks
    /// for. The first request that does not complete ends the sending: what
    /// was acquired is given back, and nothing else is asked of the device.
    /// Giving back goes on whether or not it succeeds.
    pub open spec fn advance(self, outcome: Outcome) -> ExchangeState {
        if self.stage == Stage::Finished {
            self
        } else {
            let done = outcome == Outcome::Completed;
            let claimed = match self.stage {
                Stage::Claim => done,
                Stage::Release => self.claimed && !done,
                _ => self.claimed,
            };
            let detached = match self.stage {
                Stage::Detach => done,
                Stage::Attach => self.detached && !done,
                _ => self.detached,
            };
            let stage = match self.stage {
                Stage::Detach => if done {
                    Stage::Claim
                } else {
                    unwind(claimed, detached)
                },
                Stage::Claim => if !done {
                    unwind(claimed, detached)
                } else if self.memory_reset {
                    Stage::Reset
                } else {
                    Stage::Payload
                },
                Stage::Reset => if done {
                    Stage::Payload
                } else {
                    unwind(claimed, detached)
                },
                Stage::Payload => if done && has_zone_prefix(self.payload) {
                    Stage::Commit
                } else {
                    unwind(claimed, detached)
                },
                Stage::Commit => unwind(claimed, detached),
                Stage::Release => unwind(false, detached),
                _ => Stage::Finished,
            };
            let failure = if self.failure is None {
                fault(self.stage, outcome)
            } else {
                self.failure
            };
            ExchangeState { stage, claimed, detached, failure, ..self }
        }
    }
}

/// How far an exchange has come.
#[derive(Clone, Copy, Debug)]
struct Progress {
    stage: Stage,
    claimed: bool,
    detached: bool,
    failure: Option<Error>,
}

/// The delivery of one report: what was asked for, and how far it has come.
///
/// Every exchange is consistent, as [`ExchangeState::consistent`] says: its
/// stage agrees with what it holds and with what it was asked to do.
#[derive(Debug)]
pub struct Exchange {
    payload: Vec<u8>,
    memory_reset: bool,
    detach: bool,
    timeout: Duration,
    progress: Progress,
}

impl View for Exchange {
    type V = ExchangeState;

    closed spec fn view(&self) -> ExchangeState {
        ExchangeState {
            payload: self.payload@,
            memory_reset: self.memory_reset,
            detach: self.detach,
            timeout: self.timeout,
            stage: self.progress.stage,
            claimed: self.progress.claimed,
            detached: self.progress.detached,
            failure: self.progress.failure,
        }
    }
}

/// The reset report.
fn reset_report() -> (report: Vec<u8>)
    ensures
        report@ == reset_frame(),
{
    let report: Vec<u8> = vec![0x10, 0xff, 0x0e, 0x5b, 0x01, 0x03, 0x05];
    assert(report@ =~= reset_frame());
    report
}

/// The commit report.
fn commit_report() -> (report: Vec<u8>)
    ensures
        report@ == commit_frame(),
{
    let report: Vec<u8> = vec![
        0x11, 0xff, 0x12, 0x7b, 0x00, 0x00, 0x00, 0x00, 0x00, 0x00,
        0x00, 0x00, 0x00, 0x00, 0x00, 0x00, 0x00, 0x00, 0x00, 0x00,
    ];
    assert(report@ =~= commit_frame());
    report
}

/// Names the error that a request's outcome stands for.
pub fn classify(stage: Stage, outcome: Outcome) -> (error: Option<Error>)
    ensures
        error == fault(stage, outcome),
{
    match outcome {
        Outcome::Completed => None,
        Outcome::TimedOut => match stage {
            Stage::Detach | Stage::Attach => Some(Error::KernelDriverError),
            Stage::Claim | Stage::Release => Some(Error::InterfaceClaimFailed),
            _ => Some(Error::TransferTimeout),
        },
        Outcome::Failed => match stage {
            Stage::Detach | Stage::Attach => Some(Error::KernelDriverError),
            Stage::Claim | Stage::Release => Some(Error::InterfaceClaimFailed),
            _ => Some(Error::TransferFailed),
        },
    }
}

impl Exchange {
    #[verifier::type_invariant]
    spec fn is_in_order(self) -> bool {
        self@.consistent()
    }

    /// Starts the delivery of `data`. With `memory_reset` the reset report
    /// goes out first; with `detach` the kernel's driver is taken off the
    /// interface for the time of the exchange.
    pub fn begin(data: &[u8], memory_reset: bool, detach: bool, timeout: Duration) -> (exchange:
        Exchange)
        ensures
            exchange@ == ExchangeState::begin(data@, memory_reset, detach, timeout),
            exchange@.consistent(),
    {
        let stage = if detach {
            Stage::Detach
        } else {
            Stage::Claim
        };
        Exchange {
            payload: slice_to_vec(data),
            memory_reset,
            detach,
            timeout,
            progress: Progress { stage, claimed: false, detached: false, failure: None },
        }
    }

    fn write(&self, value: u16, data: Vec<u8>) -> (request: Request)
        ensures
            request@ == self@.transfer(value, data@),
    {
        Request::WriteControl {
            request_type: REQUEST_TYPE,
            request: SET_REPORT,
            value,
            index: REPORT_INDEX,
            data,
            timeout: self.timeout,
        }
    }

    /// The request to make now, or the result when nothing is left to do.
    pub fn pending(&self) -> (action: Action)
        ensures
            action@ == self@.pending(),
            self@.consistent(),
    {
        proof {
            use_type_invariant(self);
        }
        let request = match self.progress.stage {
            Stage::Detach => Request::DetachKernelDriver { interface: INTERFACE },
            Stage::Claim => Request::ClaimInterface { interface: INTERFACE },
            Stage::Reset => self.write(RESET_VALUE, reset_report()),
            Stage::Payload => {
                let data = self.payload.clone();
                assert(data@ =~= self.payload@);
                self.write(REPORT_VALUE, data)
            },
            Stage::Commit => self.write(REPORT_VALUE, commit_report()),
            Stage::Release => Request::ReleaseInterface { interface: INTERFACE },
            Stage::Attach => Request::AttachKernelDriver { interface: INTERFACE },
            Stage::Finished => {
                return Action::Finish(
                    match self.progress.failure {
                        None => Ok(()),
                        Some(cause) => Err(
                            Failure {
                                cause,
                                still_claimed: self.progress.claimed,
                                still_detached: self.progress.detached,
                            },
                        ),
                    },
                );
            },
        };
        Action::Make(request)
    }

    /// Takes the outcome of the pending request and names the next one.
    /// Once the exchange is over an outcome changes nothing.
    pub fn step(&mut self, outcome: Outcome) -> (next: Action)
        ensures
            final(self)@ == old(self)@.advance(outcome),
            final(self)@.consistent(),
            next@ == final(self)@.pending(),
    {
        proof {
            use_type_invariant(&*self);
        }
        let now = self.progress;
        let done = match outcome {
            Outcome::Completed => true,
            _ => false,
        };
        let failure = match now.failure {
            Some(_) => now.failure,
            None => classify(now.stage, outcome),
        };
        // What is held decides how the exchange ends: the interface goes
        // first, then the driver comes back.
        let release = Progress { stage: Stage::Release, failure, ..now };
        let attach = Progress { stage: Stage::Attach, failure, ..now };
        let finish = Progress { stage: Stage::Finished, failure, ..now };
        self.progress = match now.stage {
            Stage::Detach => if done {
                Progress { stage: Stage::Claim, detached: true, ..now }
            } else {
                finish
            },
            Stage::Claim => if !done {
                if now.detached {
                    attach
                } else {
                    finish
                }
            } else if self.memory_reset {
                Progress { stage: Stage::Reset, claimed: true, ..now }
            } else {
                Progress { stage: Stage::Payload, claimed: true, ..now }
            },
            Stage::Reset => if done {
                Progress { stage: Stage::Payload, ..now }
            } else {
                release
            },
            Stage::Payload => if done && is_zone_report(self.payload.as_slice()) {
                Progress { stage: Stage::Commit, ..now }
            } else {
                release
            },
            Stage::Commit => release,
            Stage::Release => {
                let claimed = !done;
                if now.detached {
                    Progress { claimed, ..attach }
                } else {
                    Progress { claimed, ..finish }
                }
            },
            Stage::Attach => Progress { detached: !done, ..finish },
            Stage::Finished => now,
        };
        self.pending()
    }
}

} // verus!
