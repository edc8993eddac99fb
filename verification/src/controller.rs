//! A session with one mouse.
//!
//! A [`Controller`] owns the handle of the opened device and the settings of
//! the session. It sends nothing: for each effect it lays out the report and
//! begins the [`Exchange`] that delivers it, which the owner of the handle
//! then carries out.

use crate::effect::{
    blend_frame, breathe_frame, cycle_frame, encode_blend, encode_breathe, encode_cycle,
    encode_solid, encode_triple, encode_wave, solid_frame, triple_frame, wave_frame, Direction,
};
use crate::error::Error;
use crate::exchange::{Exchange, ExchangeState};
use crate::util::same_text;
use std::time::Duration;
use vstd::prelude::*;

verus! {

/// USB vendor id of the mouse.
pub const VENDOR_ID: u16 = 0x046D;

/// USB product id of the mouse.
pub const PRODUCT_ID: u16 = 0xC09D;

/// Seconds that a transfer is given where the session names no timeout.
pub const DEFAULT_TIMEOUT_SECS: u64 = 2;

/// Rate of an effect where the caller names none.
pub const DEFAULT_RATE: u16 = 1000;

/// Brightness of an effect where the caller names none.
pub const DEFAULT_BRIGHTNESS: u8 = 100;

/// The span of time that `Duration::from_secs` makes of a number of seconds.
pub uninterp spec fn duration_of_secs(secs: u64) -> Duration;

/// `Duration::from_secs` of std: the result depends on the number of seconds
/// alone.
pub assume_specification[ Duration::from_secs ](secs: u64) -> (span: Duration)
    ensures
        span == duration_of_secs(secs),
;

/// Tells whether the operating system named `os` binds a driver of its own
/// to the lighting interface, which then has to leave it for the time of a
/// command. Every system but Windows does.
pub fn has_kernel_driver(os: &str) -> (bound: bool)
    ensures
        bound == (os@ != "windows"@),
{
    !same_text(os, "windows")
}

/// A session with one mouse: the handle of the opened device, the time that
/// each transfer is given, and whether the kernel's driver has to leave the
/// lighting interface for the time of a command.
#[derive(Debug)]
pub struct Controller<H> {
    inner: H,
    timeout: Duration,
    detach: bool,
}

/// A session, as a value of specifications.
pub struct ControllerView<H> {
    pub handle: H,
    pub timeout: Duration,
    pub detach: bool,
}

impl<H> View for Controller<H> {
    type V = ControllerView<H>;

    closed spec fn view(&self) -> ControllerView<H> {
        ControllerView { handle: self.inner, timeout: self.timeout, detach: self.detach }
    }
}

impl<H> Controller<H> {
    /// Makes a session of what opening the device gave: the handle, or
    /// nothing where no such device is attached.
    pub fn new_with_timeout(found: Option<H>, detach: bool, timeout: Duration) -> (session: Result<
        Self,
        Error,
    >)
        ensures
            match found {
                Some(handle) => session matches Ok(controller) && controller@ == (ControllerView {
                    handle,
                    timeout,
                    detach,
                }),
                None => session matches Err(error) && error == Error::DeviceNotFound,
            },
    {
        match found {
            Some(handle) => Ok(Controller { inner: handle, timeout, detach }),
            None => Err(Error::DeviceNotFound),
        }
    }

    /// Makes a session whose transfers are given two seconds each.
    pub fn new(found: Option<H>, detach: bool) -> (session: Result<Self, Error>)
        ensures
            match found {
                Some(handle) => session matches Ok(controller) && controller@ == (ControllerView {
                    handle,
                    timeout: duration_of_secs(DEFAULT_TIMEOUT_SECS),
                    detach,
                }),
                None => session matches Err(error) && error == Error::DeviceNotFound,
            },
    {
        Self::new_with_timeout(found, detach, Duration::from_secs(DEFAULT_TIMEOUT_SECS))
    }

    /// The handle of the opened device.
    pub fn handle(&self) -> (handle: &H)
        ensures
            *handle == self@.handle,
    {
        &self.inner
    }

    /// The time that each transfer is given.
    pub fn timeout(&self) -> (timeout: Duration)
        ensures
            timeout == self@.timeout,
    {
        self.timeout
    }

    /// Whether the kernel's driver leaves the interface during a command.
    pub fn detaches_kernel_driver(&self) -> (detach: bool)
        ensures
            detach == self@.detach,
    {
        self.detach
    }

    /// Begins the delivery of the report `data`. With `disable_ls_memory`
    /// the device is first told to forget its stored lighting.
    pub fn command(&self, data: &[u8], disable_ls_memory: bool) -> (exchange: Exchange)
        ensures
            exchange@ == self@.begins(data@, disable_ls_memory),
    {
        Exchange::begin(data, disable_ls_memory, self.detach, self.timeout)
    }

    /// Begins a command that shows one colour. The stored lighting is reset.
    pub fn set_solid(&self, rgb: [u8; 3]) -> (exchange: Exchange)
        ensures
            exchange@ == self@.begins(solid_frame(rgb), true),
    {
        let report = encode_solid(rgb);
        self.command(report.as_slice(), true)
    }

    /// Begins a command that fades one colour in and out. The stored
    /// lighting is left as it is.
    pub fn set_breathe(&self, rgb: [u8; 3], rate: u16, brightness: u8) -> (exchange: Exchange)
        ensures
            exchange@ == self@.begins(breathe_frame(rgb, rate, brightness), false),
    {
        let report = encode_breathe(rgb, rate, brightness);
        self.command(report.as_slice(), false)
    }

    /// Begins a command that cycles through the colours. The stored
    /// lighting is reset.
    pub fn set_cycle(&self, rate: u16, brightness: u8) -> (exchange: Exchange)
        ensures
            exchange@ == self@.begins(cycle_frame(rate, brightness), true),
    {
        let report = encode_cycle(rate, brightness);
        self.command(report.as_slice(), true)
    }

    /// Begins a command that gives each of the three zones a colour. The
    /// stored lighting is left as it is.
    pub fn set_triple(&self, colors: [[u8; 3]; 3]) -> (exchange: Exchange)
        ensures
            exchange@ == self@.begins(triple_frame(colors), false),
    {
        let report = encode_triple(colors);
        self.command(report.as_slice(), false)
    }

    /// Begins a command that lets the colours travel across the zones. The
    /// stored lighting is reset.
    pub fn set_wave(&self, rate: u16, brightness: u8, direction: Direction) -> (exchange: Exchange)
        ensures
            exchange@ == self@.begins(wave_frame(rate, brightness, direction), true),
    {
        let report = encode_wave(rate, brightness, direction);
        self.command(report.as_slice(), true)
    }

    /// Begins a command that blends the colours into one another. The
    /// stored lighting is reset.
    pub fn set_blend(&self, rate: u16, brightness: u8) -> (exchange: Exchange)
        ensures
            exchange@ == self@.begins(blend_frame(rate, brightness), true),
    {
        let report = encode_blend(rate, brightness);
        self.command(report.as_slice(), true)
    }
}

impl<H> ControllerView<H> {
    /// The exchange that delivers `report` in this session, before its
    /// first request.
    pub open spec fn begins(self, report: Seq<u8>, memory_reset: bool) -> ExchangeState {
        ExchangeState::begin(report, memory_reset, self.detach, self.timeout)
    }
}

} // verus!
