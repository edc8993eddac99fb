//! The wire format of the six lighting effects.
//!
//! Every effect is one twenty-byte HID++ long report. The five effects of the
//! colour-effect feature share a six-byte header that ends in the effect's
//! mode, ten parameter bytes, and a four-byte trailer. The three-zone report
//! belongs to another feature and has a layout of its own.

use vstd::prelude::*;
use vstd::string::StrSliceExecFns;

verus! {

/// Length of every effect report.
pub const REPORT_LEN: usize = 20;

/// Report id of a HID++ long report.
pub const LONG_REPORT: u8 = 0x11;

/// HID++ device index of a wired device.
pub const DEVICE_INDEX: u8 = 0xff;

/// Feature index of the colour effects.
pub const EFFECT_FEATURE: u8 = 0x0e;

/// Feature index of the per-zone colours.
pub const ZONE_FEATURE: u8 = 0x12;

/// Function byte of the call that sets an effect or the zone colours.
pub const SET_FUNCTION: u8 = 0x1b;

/// Mode of the effect that shows one colour.
pub const MODE_SOLID: u8 = 0x01;

/// Mode of the effect that cycles through the colours.
pub const MODE_CYCLE: u8 = 0x02;

/// Mode of the effect that lets the colours travel across the zones.
pub const MODE_WAVE: u8 = 0x03;

/// Mode of the effect that fades one colour in and out.
pub const MODE_BREATHE: u8 = 0x04;

/// Mode of the effect that blends the colours into one another.
pub const MODE_BLEND: u8 = 0x06;

/// The way a wave travels across the zones.
#[derive(Clone, Copy, Debug, PartialEq, Eq, Structural)]
pub enum Direction {
    Left,
    Right,
}

impl Direction {
    /// The byte that stands for the direction in a wave report.
    pub open spec fn code_of(self) -> u8 {
        match self {
            Direction::Left => 0x01,
            Direction::Right => 0x06,
        }
    }

    /// The direction that a word names: `l` for left, `r` for right.
    pub open spec fn named_by(token: Seq<char>) -> Option<Direction> {
        if token == seq!['l'] {
            Some(Direction::Left)
        } else if token == seq!['r'] {
            Some(Direction::Right)
        } else {
            None
        }
    }

    /// The byte that stands for the direction in a wave report.
    #[verifier::when_used_as_spec(code_of)]
    pub fn code(self) -> (c: u8)
        ensures
            c == self.code_of(),
    {
        match self {
            Direction::Left => 0x01,
            Direction::Right => 0x06,
        }
    }

    /// Reads a direction from the word `l` or `r`. Any other word names
    /// none.
    pub fn from_token(token: &str) -> (direction: Option<Direction>)
        ensures
            direction == Direction::named_by(token@),
    {
        if token.unicode_len() != 1 {
            return None;
        }
        let c = token.get_char(0);
        if c == 'l' {
            assert(token@ =~= seq!['l']);
            Some(Direction::Left)
        } else if c == 'r' {
            assert(token@ =~= seq!['r']);
            Some(Direction::Right)
        } else {
            assert(token@[0] != seq!['l'][0] && token@[0] != seq!['r'][0]);
            None
        }
    }
}

/// The high byte of a rate: the first of its two big-endian bytes.
pub open spec fn rate_high(rate: u16) -> u8 {
    (rate / 256) as u8
}

/// The low byte of a rate: the second of its two big-endian bytes.
pub open spec fn rate_low(rate: u16) -> u8 {
    (rate % 256) as u8
}

/// The six bytes that open a colour-effect report: report id, device index,
/// feature, function, a zero, and the effect's mode.
pub open spec fn effect_header(mode: u8) -> Seq<u8> {
    seq![LONG_REPORT, DEVICE_INDEX, EFFECT_FEATURE, SET_FUNCTION, 0x00u8, mode]
}

/// The four bytes that close a colour-effect report.
pub open spec fn effect_trailer() -> Seq<u8> {
    seq![0x01u8, 0x00u8, 0x00u8, 0x00u8]
}

/// `n` zero bytes.
pub open spec fn zeros(n: nat) -> Seq<u8> {
    Seq::new(n, |i: int| 0x00u8)
}

/// The four bytes that open a three-zone report.
pub open spec fn zone_header() -> Seq<u8> {
    seq![LONG_REPORT, DEVICE_INDEX, ZONE_FEATURE, SET_FUNCTION]
}

/// One zone of a three-zone report: the zone's number, then its colour.
pub open spec fn zone_block(zone: u8, rgb: [u8; 3]) -> Seq<u8> {
    seq![zone, rgb[0], rgb[1], rgb[2]]
}

/// Whether a report opens as a three-zone report does. The device shows the
/// colours of such a report only once a commit report has followed it.
pub open spec fn has_zone_prefix(report: Seq<u8>) -> bool {
    report.len() >= 4 && report.subrange(0, 4) == zone_header()
}

/// Whether `report` is a long report of twenty bytes that calls the set
/// function of `feature` on the wired device.
pub open spec fn calls_feature(report: Seq<u8>, feature: u8) -> bool {
    &&& report.len() == REPORT_LEN
    &&& report[0] == LONG_REPORT
    &&& report[1] == DEVICE_INDEX
    &&& report[2] == feature
    &&& report[3] == SET_FUNCTION
}

/// A colour-effect report: header, parameters, trailer. A report has ten
/// parameter bytes.
pub open spec fn effect_frame(mode: u8, parameters: Seq<u8>) -> Seq<u8> {
    effect_header(mode) + parameters + effect_trailer()
}

/// The report of a solid colour. Its parameters are the colour and seven
/// zero bytes.
pub open spec fn solid_frame(rgb: [u8; 3]) -> Seq<u8> {
    effect_frame(MODE_SOLID, rgb@ + zeros(7))
}

/// The report of a breathing colour. Its parameters are the colour, the rate
/// with its high byte first, a zero, the brightness, and three zero bytes.
pub open spec fn breathe_frame(rgb: [u8; 3], rate: u16, brightness: u8) -> Seq<u8> {
    effect_frame(
        MODE_BREATHE,
        rgb@ + seq![rate_high(rate), rate_low(rate), 0x00u8, brightness] + zeros(3),
    )
}

/// The report of a colour cycle. Its parameters are five zero bytes, the
/// rate with its high byte first, the brightness, and two zero bytes.
pub open spec fn cycle_frame(rate: u16, brightness: u8) -> Seq<u8> {
    effect_frame(
        MODE_CYCLE,
        zeros(5) + seq![rate_high(rate), rate_low(rate), brightness] + zeros(2),
    )
}

/// The report of the three zone colours: header, the three zones in order,
/// four zero bytes.
pub open spec fn triple_frame(colors: [[u8; 3]; 3]) -> Seq<u8> {
    zone_header() + zone_block(1, colors[0]) + zone_block(2, colors[1]) + zone_block(3, colors[2])
        + zeros(4)
}

/// The report of a wave. Its parameters are six zero bytes, the low byte of
/// the rate, the direction, the brightness, and the high byte of the rate:
/// the two bytes of the rate do not stand side by side here.
pub open spec fn wave_frame(rate: u16, brightness: u8, direction: Direction) -> Seq<u8> {
    effect_frame(
        MODE_WAVE,
        zeros(6) + seq![rate_low(rate), direction.code_of(), brightness, rate_high(rate)],
    )
}

/// The report of a colour blend. Its parameters are six zero bytes, the rate
/// with its high byte first, the brightness, and a zero.
pub open spec fn blend_frame(rate: u16, brightness: u8) -> Seq<u8> {
    effect_frame(
        MODE_BLEND,
        zeros(6) + seq![rate_high(rate), rate_low(rate), brightness, 0x00u8],
    )
}

/// The reports of the five colour effects call the effect feature, and so
/// none of them opens as a zone report does.
pub proof fn effects_call_the_effect_feature(
    rgb: [u8; 3],
    rate: u16,
    brightness: u8,
    direction: Direction,
)
    ensures
        calls_feature(solid_frame(rgb), EFFECT_FEATURE),
        calls_feature(breathe_frame(rgb, rate, brightness), EFFECT_FEATURE),
        calls_feature(cycle_frame(rate, brightness), EFFECT_FEATURE),
        calls_feature(wave_frame(rate, brightness, direction), EFFECT_FEATURE),
        calls_feature(blend_frame(rate, brightness), EFFECT_FEATURE),
        !has_zone_prefix(solid_frame(rgb)),
        !has_zone_prefix(breathe_frame(rgb, rate, brightness)),
        !has_zone_prefix(cycle_frame(rate, brightness)),
        !has_zone_prefix(wave_frame(rate, brightness, direction)),
        !has_zone_prefix(blend_frame(rate, brightness)),
{
    zone_prefix_names_the_feature(solid_frame(rgb));
    zone_prefix_names_the_feature(breathe_frame(rgb, rate, brightness));
    zone_prefix_names_the_feature(cycle_frame(rate, brightness));
    zone_prefix_names_the_feature(wave_frame(rate, brightness, direction));
    zone_prefix_names_the_feature(blend_frame(rate, brightness));
}

/// The report of the three zones calls the zone feature, and so opens as a
/// zone report does.
pub proof fn triple_calls_the_zone_feature(colors: [[u8; 3]; 3])
    ensures
        calls_feature(triple_frame(colors), ZONE_FEATURE),
        has_zone_prefix(triple_frame(colors)),
{
    zone_prefix_names_the_feature(triple_frame(colors));
}

/// A report of twenty bytes opens as a zone report exactly if it calls the
/// zone feature.
pub proof fn zone_prefix_names_the_feature(report: Seq<u8>)
    requires
        report.len() == REPORT_LEN,
    ensures
        has_zone_prefix(report) <==> calls_feature(report, ZONE_FEATURE),
{
    let head = report.subrange(0, 4);
    assert(head[0] == report[0] && head[1] == report[1] && head[2] == report[2] && head[3]
        == report[3]);
    if calls_feature(report, ZONE_FEATURE) {
        assert(head =~= zone_header());
    }
}

/// Splits a rate into its two big-endian bytes, the high one first.
pub fn rate_bytes(rate: u16) -> (bytes: (u8, u8))
    ensures
        bytes.0 == rate_high(rate),
        bytes.1 == rate_low(rate),
        rate == 256 * bytes.0 + bytes.1,
{
    ((rate / 256) as u8, (rate % 256) as u8)
}

/// Tells whether `data` opens as a three-zone report does.
pub fn is_zone_report(data: &[u8]) -> (zone: bool)
    ensures
        zone == has_zone_prefix(data@),
{
    if data.len() < 4 {
        return false;
    }
    let zone = data[0] == LONG_REPORT && data[1] == DEVICE_INDEX && data[2] == ZONE_FEATURE
        && data[3] == SET_FUNCTION;
    proof {
        let head = data@.subrange(0, 4);
        assert(head[0] == data@[0] && head[1] == data@[1] && head[2] == data@[2] && head[3]
            == data@[3]);
        if zone {
            assert(head =~= zone_header());
        }
    }
    zone
}

/// Lays out a colour-effect report around its ten parameter bytes: this is
/// the one place that knows where header, parameters and trailer stand.
fn effect_report(mode: u8, parameters: [u8; 10]) -> (report: [u8; 20])
    ensures
        report@ == effect_frame(mode, parameters@),
        forall|i: int| 0 <= i < 10 ==> report[6 + i] == #[trigger] parameters[i],
        !has_zone_prefix(report@),
{
    let report: [u8; 20] = [
        LONG_REPORT,
        DEVICE_INDEX,
        EFFECT_FEATURE,
        SET_FUNCTION,
        0x00,
        mode,
        parameters[0],
        parameters[1],
        parameters[2],
        parameters[3],
        parameters[4],
        parameters[5],
        parameters[6],
        parameters[7],
        parameters[8],
        parameters[9],
        0x01,
        0x00,
        0x00,
        0x00,
    ];
    assert(report@ =~= effect_frame(mode, parameters@));
    proof {
        zone_prefix_names_the_feature(report@);
    }
    report
}

/// Lays out the report that shows one colour, without animation.
pub fn encode_solid(rgb: [u8; 3]) -> (report: [u8; 20])
    ensures
        report@ == solid_frame(rgb),
        report[6] == rgb[0],
        report[7] == rgb[1],
        report[8] == rgb[2],
        !has_zone_prefix(report@),
{
    let parameters: [u8; 10] = [rgb[0], rgb[1], rgb[2], 0x00, 0x00, 0x00, 0x00, 0x00, 0x00, 0x00];
    assert(parameters@ =~= rgb@ + zeros(7));
    effect_report(MODE_SOLID, parameters)
}

/// Lays out the report that fades one colour in and out. `rate` is the length
/// of one breath and `brightness` its peak.
pub fn encode_breathe(rgb: [u8; 3], rate: u16, brightness: u8) -> (report: [u8; 20])
    ensures
        report@ == breathe_frame(rgb, rate, brightness),
        report[9] == rate_high(rate),
        report[10] == rate_low(rate),
        report[12] == brightness,
        !has_zone_prefix(report@),
{
    let (high, low) = rate_bytes(rate);
    let parameters: [u8; 10] = [
        rgb[0],
        rgb[1],
        rgb[2],
        high,
        low,
        0x00,
        brightness,
        0x00,
        0x00,
        0x00,
    ];
    assert(parameters@ =~= rgb@ + seq![high, low, 0x00u8, brightness] + zeros(3));
    effect_report(MODE_BREATHE, parameters)
}

/// Lays out the report that cycles through the colours.
pub fn encode_cycle(rate: u16, brightness: u8) -> (report: [u8; 20])
    ensures
        report@ == cycle_frame(rate, brightness),
        report[11] == rate_high(rate),
        report[12] == rate_low(rate),
        report[13] == brightness,
        !has_zone_prefix(report@),
{
    let (high, low) = rate_bytes(rate);
    let parameters: [u8; 10] = [0x00, 0x00, 0x00, 0x00, 0x00, high, low, brightness, 0x00, 0x00];
    assert(parameters@ =~= zeros(5) + seq![high, low, brightness] + zeros(2));
    effect_report(MODE_CYCLE, parameters)
}

/// Lays out the report that gives each of the three zones a colour of its
/// own. `colors[0]` is the colour of zone one.
pub fn encode_triple(colors: [[u8; 3]; 3]) -> (report: [u8; 20])
    ensures
        report@ == triple_frame(colors),
        report[4] == 1,
        report[8] == 2,
        report[12] == 3,
        has_zone_prefix(report@),
{
    let left: [u8; 3] = colors[0];
    let center: [u8; 3] = colors[1];
    let right: [u8; 3] = colors[2];
    let report: [u8; 20] = [
        LONG_REPORT,
        DEVICE_INDEX,
        ZONE_FEATURE,
        SET_FUNCTION,
        0x01,
        left[0],
        left[1],
        left[2],
        0x02,
        center[0],
        center[1],
        center[2],
        0x03,
        right[0],
        right[1],
        right[2],
        0x00,
        0x00,
        0x00,
        0x00,
    ];
    assert(report@ =~= triple_frame(colors));
    proof {
        zone_prefix_names_the_feature(report@);
    }
    report
}

/// Lays out the report that lets the colours travel across the zones.
pub fn encode_wave(rate: u16, brightness: u8, direction: Direction) -> (report: [u8; 20])
    ensures
        report@ == wave_frame(rate, brightness, direction),
        report[12] == rate_low(rate),
        report[13] == direction.code_of(),
        report[14] == brightness,
        report[15] == rate_high(rate),
        !has_zone_prefix(report@),
{
    let (high, low) = rate_bytes(rate);
    let code = direction.code();
    let parameters: [u8; 10] = [0x00, 0x00, 0x00, 0x00, 0x00, 0x00, low, code, brightness, high];
    assert(parameters@ =~= zeros(6) + seq![low, code, brightness, high]);
    effect_report(MODE_WAVE, parameters)
}

/// Lays out the report that blends the colours into one another.
pub fn encode_blend(rate: u16, brightness: u8) -> (report: [u8; 20])
    ensures
        report@ == blend_frame(rate, brightness),
        report[12] == rate_high(rate),
        report[13] == rate_low(rate),
        report[14] == brightness,
        !has_zone_prefix(report@),
{
    let (high, low) = rate_bytes(rate);
    let parameters: [u8; 10] = [0x00, 0x00, 0x00, 0x00, 0x00, 0x00, high, low, brightness, 0x00];
    assert(parameters@ =~= zeros(6) + seq![high, low, brightness, 0x00u8]);
    effect_report(MODE_BLEND, parameters)
}

} // verus!
