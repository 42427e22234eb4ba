//! The peripheral line protocol of the radio link: colon-separated tokens,
//! ended by a semicolon, the first token naming the command.

use vstd::prelude::*;
use vstd::slice::slice_subrange;
use vstd::string::StringSliceAdditionalSpecFns;
use core::ops::Range;
use crate::bytes::{bytes_eq, find_byte, first_index};
use crate::hal::hitachi_board::{HitachiConfig, Lights};
use crate::hal::ledc::{clamp_percent, PwmController};
use crate::rpc::{ResponseMessage, ResponseTag};
use crate::text::{parse_i64, parse_i64_of};

verus! {

/// The byte that separates the tokens of a line.
pub const COLON: u8 = 58;

/// The byte that ends a line.
pub const SEMICOLON: u8 = 59;

/// The absolute value of an integer.
pub open spec fn magnitude(a: int) -> int {
    if a >= 0 {
        a
    } else {
        -a
    }
}

/// The quotient of `a` by `b`, rounded toward zero.
pub open spec fn trunc_div(a: int, b: int) -> int {
    if (a >= 0) == (b > 0) {
        magnitude(a) / magnitude(b)
    } else {
        -(magnitude(a) / magnitude(b))
    }
}

/// Where `val` falls when the range `lhs` is laid linearly onto `rhs`:
/// `rhs.start + (val - lhs.start) * (rhs.end - rhs.start) / (lhs.end - lhs.start)`,
/// the division rounding toward zero.
pub open spec fn map_value(lhs: Range<i64>, rhs: Range<i64>, val: i64) -> int {
    rhs.start + trunc_div(
        (val - lhs.start) * (rhs.end - rhs.start),
        lhs.end - lhs.start,
    )
}

/// What the mapping gives for `val`. The value 0 stands for "stop" and is
/// mapped to 0 whatever the two ranges are. Any other value is mapped by
/// `map_value`, as far as that can be computed: nothing for a source range
/// of width zero, nothing for a result outside of `i64`.
pub open spec fn map_range_of(lhs: Range<i64>, rhs: Range<i64>, val: i64) -> Option<i64> {
    if val == 0 {
        Some(0)
    } else if lhs.start != lhs.end && i64::MIN <= map_value(lhs, rhs, val) <= i64::MAX {
        Some(map_value(lhs, rhs, val) as i64)
    } else {
        None
    }
}

/// The value 0 is mapped to 0, whatever the source and the target range.
pub proof fn lemma_zero_maps_to_zero(lhs: Range<i64>, rhs: Range<i64>)
    ensures
        map_range_of(lhs, rhs, 0) == Some(0i64),
{
}

proof fn lemma_product(a: int, b: int, ua: int, ub: int)
    requires
        ua == magnitude(a),
        ub == magnitude(b),
        ua <= 0xffff_ffff_ffff_ffff,
        ub <= 0xffff_ffff_ffff_ffff,
    ensures
        ua * ub == magnitude(a * b),
        0 <= ua * ub <= 0xffff_ffff_ffff_ffff * 0xffff_ffff_ffff_ffff,
        (a * b >= 0) == (a == 0 || b == 0 || (a > 0) == (b > 0)),
{
    assert(ua * ub == magnitude(a * b) && ((a * b >= 0) == (a == 0 || b == 0 || (a > 0) == (b
        > 0)))) by (nonlinear_arith)
        requires
            ua == magnitude(a),
            ub == magnitude(b),
    ;
    assert(0 <= ua * ub <= 0xffff_ffff_ffff_ffff * 0xffff_ffff_ffff_ffff) by (nonlinear_arith)
        requires
            0 <= ua <= 0xffff_ffff_ffff_ffff,
            0 <= ub <= 0xffff_ffff_ffff_ffff,
    ;
}

fn magnitude_of(a: i128) -> (m: u128)
    requires
        -0xffff_ffff_ffff_ffff <= a <= 0xffff_ffff_ffff_ffff,
    ensures
        m == magnitude(a as int),
{
    if a >= 0 {
        a as u128
    } else {
        (-a) as u128
    }
}

/// Lays the range `lhs` linearly onto `rhs` and says where `val` falls.
/// The value 0 stops: it gives 0 without regard to the ranges.
pub fn map_range(lhs: Range<i64>, rhs: Range<i64>, val: i64) -> (mapped: Option<i64>)
    ensures
        mapped == map_range_of(lhs, rhs, val),
{
    if val == 0 {
        return Some(0);
    }
    if lhs.start == lhs.end {
        return None;
    }
    let a: i128 = val as i128 - lhs.start as i128;
    let b: i128 = rhs.end as i128 - rhs.start as i128;
    let c: i128 = lhs.end as i128 - lhs.start as i128;
    let ua = magnitude_of(a);
    let ub = magnitude_of(b);
    let uc = magnitude_of(c);
    proof {
        lemma_product(a as int, b as int, ua as int, ub as int);
    }
    let product: u128 = ua * ub;
    let quotient: u128 = product / uc;
    let numerator_positive = a == 0 || b == 0 || (a > 0) == (b > 0);
    let positive = numerator_positive == (c > 0);
    assert(trunc_div(a * b, c as int) == if positive {
        quotient as int
    } else {
        -(quotient as int)
    });
    if quotient > 0x1_0000_0000_0000_0000 {
        return None;
    }
    let step: i128 = quotient as i128;
    let wide: i128 = if positive {
        rhs.start as i128 + step
    } else {
        rhs.start as i128 - step
    };
    if wide < i64::MIN as i128 || wide > i64::MAX as i128 {
        None
    } else {
        Some(wide as i64)
    }
}

/// The output range that intensities are mapped onto.
#[derive(Clone, Copy, Debug, PartialEq, Eq, Structural)]
pub struct LovenseConfig {
    pub start: i64,
    pub end: i64,
}

impl LovenseConfig {
    /// The mapping of a device that has none stored.
    pub fn default() -> (config: Option<Self>)
        ensures
            config == Some(LovenseConfig { start: 65, end: 100 }),
    {
        Some(LovenseConfig { start: 65, end: 100 })
    }
}

/// Whether a line holds its terminator.
pub open spec fn terminated(line: Seq<u8>) -> bool {
    first_index(line, SEMICOLON) < line.len()
}

/// The part of a line before its terminator.
pub open spec fn command_body(line: Seq<u8>) -> Seq<u8> {
    line.take(first_index(line, SEMICOLON))
}

/// The first token of a command.
pub open spec fn head(body: Seq<u8>) -> Seq<u8> {
    body.take(first_index(body, COLON))
}

/// Whether anything follows the first token.
pub open spec fn has_tail(body: Seq<u8>) -> bool {
    first_index(body, COLON) < body.len()
}

/// What follows the first token and its colon.
pub open spec fn tail(body: Seq<u8>) -> Seq<u8> {
    body.skip(first_index(body, COLON) + 1)
}

/// A command of the line protocol.
#[derive(Clone, Copy, Debug, PartialEq, Eq, Structural)]
pub enum LovenseCommand {
    /// `Battery`: the battery level is asked for.
    Battery,
    /// `Status`: the device status is asked for.
    Status,
    /// `GetLight`: the light state is asked for.
    GetLight,
    /// `Vibrate:<intensity>`: the actuator is set.
    Vibrate(i64),
    /// `Vibrate` without a decimal intensity.
    Malformed,
    /// Any other first token.
    Unknown,
}

/// The command that a line's body writes.
pub open spec fn command_of(body: Seq<u8>) -> LovenseCommand {
    let name = head(body);
    if name == "Battery".spec_bytes() {
        LovenseCommand::Battery
    } else if name == "Status".spec_bytes() {
        LovenseCommand::Status
    } else if name == "GetLight".spec_bytes() {
        LovenseCommand::GetLight
    } else if name == "Vibrate".spec_bytes() {
        if has_tail(body) {
            match parse_i64_of(head(tail(body))) {
                Some(strength) => LovenseCommand::Vibrate(strength),
                None => LovenseCommand::Malformed,
            }
        } else {
            LovenseCommand::Malformed
        }
    } else {
        LovenseCommand::Unknown
    }
}

/// Reads the command that a line's body writes.
pub fn parse_command(body: &[u8]) -> (command: LovenseCommand)
    ensures
        command == command_of(body@),
{
    let split = find_byte(body, COLON);
    let name = match split {
        Some(at) => slice_subrange(body, 0, at),
        None => body,
    };
    assert(name@ =~= head(body@));
    if bytes_eq(name, "Battery".as_bytes()) {
        LovenseCommand::Battery
    } else if bytes_eq(name, "Status".as_bytes()) {
        LovenseCommand::Status
    } else if bytes_eq(name, "GetLight".as_bytes()) {
        LovenseCommand::GetLight
    } else if bytes_eq(name, "Vibrate".as_bytes()) {
        match split {
            Some(at) => {
                let length = body.len();
                assert(at < length);
                let rest = slice_subrange(body, at + 1, length);
                assert(rest@ =~= tail(body@));
                let argument = match find_byte(rest, COLON) {
                    Some(end) => slice_subrange(rest, 0, end),
                    None => rest,
                };
                assert(argument@ =~= head(rest@));
                match parse_i64(argument) {
                    Some(strength) => LovenseCommand::Vibrate(strength),
                    None => LovenseCommand::Malformed,
                }
            },
            None => LovenseCommand::Malformed,
        }
    } else {
        LovenseCommand::Unknown
    }
}

/// The intensity range of the line protocol.
pub open spec fn intensity_range() -> Range<i64> {
    Range { start: 0, end: 20 }
}

/// The duty that an intensity asks for: zero and anything below stop
/// whatever the configured range is, anything above zero is mapped from
/// `0..20` onto that range. Nothing where the mapped value is outside of
/// `i64`.
pub open spec fn vibrate_target(config: LovenseConfig, strength: i64) -> Option<i64> {
    if strength > 0 {
        map_range_of(intensity_range(), Range { start: config.start, end: config.end }, strength)
    } else {
        Some(0)
    }
}

/// What a line asks of the handler.
pub struct LovenseReply {
    /// The tag of the reply.
    pub tag: ResponseTag,
    /// The bytes of the reply.
    pub body: Seq<u8>,
    /// The duty that the line asks for, before clamping, if it asks for one.
    pub target: Option<i64>,
}

/// The reply to a line under a configured output range.
///
/// A line without terminator is discarded, and so is an actuation command
/// without a usable intensity. The queries are answered with fixed bodies;
/// the actuation command and unknown commands are answered with an empty
/// body.
pub open spec fn reply_of(config: LovenseConfig, line: Seq<u8>) -> LovenseReply {
    let discard = LovenseReply { tag: ResponseTag::Discard, body: Seq::empty(), target: None };
    if !terminated(line) {
        discard
    } else {
        match command_of(command_body(line)) {
            LovenseCommand::Battery => LovenseReply {
                tag: ResponseTag::Lovense,
                body: "100".spec_bytes(),
                target: None,
            },
            LovenseCommand::Status => LovenseReply {
                tag: ResponseTag::Lovense,
                body: "2".spec_bytes(),
                target: None,
            },
            LovenseCommand::GetLight => LovenseReply {
                tag: ResponseTag::Lovense,
                body: "Light:1".spec_bytes(),
                target: None,
            },
            LovenseCommand::Vibrate(strength) => match vibrate_target(config, strength) {
                Some(target) => LovenseReply {
                    tag: ResponseTag::Lovense,
                    body: Seq::empty(),
                    target: Some(target),
                },
                None => discard,
            },
            LovenseCommand::Malformed => discard,
            LovenseCommand::Unknown => LovenseReply {
                tag: ResponseTag::Lovense,
                body: Seq::empty(),
                target: None,
            },
        }
    }
}

/// A line without terminator is discarded with an empty reply, whatever
/// precedes the place where the terminator should be.
pub proof fn lemma_unterminated_is_discarded(config: LovenseConfig, line: Seq<u8>)
    requires
        !terminated(line),
    ensures
        reply_of(config, line).tag == ResponseTag::Discard,
        reply_of(config, line).body == Seq::<u8>::empty(),
        reply_of(config, line).target is None,
{
}

/// Every reply that is not discarded carries the tag of the line protocol.
pub proof fn lemma_reply_tag(config: LovenseConfig, line: Seq<u8>)
    ensures
        reply_of(config, line).tag == ResponseTag::Discard || reply_of(config, line).tag
            == ResponseTag::Lovense,
        reply_of(config, line).tag == ResponseTag::Discard ==> reply_of(config, line).body
            == Seq::<u8>::empty() && reply_of(config, line).target is None,
{
}

/// An intensity of zero or below stops the actuator, whatever the
/// configured range.
pub proof fn lemma_zero_stops(config: LovenseConfig, strength: i64)
    requires
        strength <= 0,
    ensures
        vibrate_target(config, strength) == Some(0i64),
{
}

/// The handler of the line protocol.
#[derive(Clone, Copy, Debug)]
pub struct LovenseHandler {
    pub mappings: HitachiConfig,
    pub lovense_config: LovenseConfig,
}

impl LovenseHandler {
    /// Handles one line: writes the reply and its tag into `send_slot`,
    /// sets the duty where the line asks for one, and returns the light
    /// pattern to send to the companion board in that case.
    pub fn handle(
        &self,
        args: &[u8],
        pwm: &mut PwmController,
        send_slot: &mut ResponseMessage,
    ) -> (lights: Option<String>)
        ensures
            final(send_slot).tag == reply_of(self.lovense_config, args@).tag,
            final(send_slot).buffer@ == old(send_slot).buffer@ + reply_of(
                self.lovense_config,
                args@,
            ).body,
            match reply_of(self.lovense_config, args@).target {
                Some(target) => {
                    &&& final(pwm).percent == clamp_percent(target as int)
                    &&& lights matches Some(line) && line@ == Lights::lit_by(
                        target,
                        self.mappings.light_mappings,
                    ).pattern()
                },
                None => *final(pwm) == *old(pwm) && lights is None,
            },
    {
        let ghost before = send_slot.buffer@;
        let end = match find_byte(args, SEMICOLON) {
            Some(end) => end,
            None => {
                send_slot.tag = ResponseTag::Discard;
                assert(send_slot.buffer@ =~= before + Seq::<u8>::empty());
                return None;
            },
        };
        let body = slice_subrange(args, 0, end);
        assert(body@ =~= command_body(args@));
        let command = parse_command(body);
        let mut lights: Option<String> = None;
        match command {
            LovenseCommand::Battery => {
                send_slot.buffer.extend_from_slice("100".as_bytes());
            },
            LovenseCommand::Status => {
                send_slot.buffer.extend_from_slice("2".as_bytes());
            },
            LovenseCommand::GetLight => {
                send_slot.buffer.extend_from_slice("Light:1".as_bytes());
            },
            LovenseCommand::Vibrate(strength) => {
                let mapped = if strength > 0 {
                    map_range(
                        Range { start: 0, end: 20 },
                        Range { start: self.lovense_config.start, end: self.lovense_config.end },
                        strength,
                    )
                } else {
                    Some(0)
                };
                match mapped {
                    Some(target) => {
                        pwm.set_percent(target);
                        let pattern = Lights::from_mapping(target, &self.mappings.light_mappings);
                        let mut line = String::new();
                        pattern.write_into(&mut line);
                        assert(line@ =~= pattern.pattern());
                        lights = Some(line);
                    },
                    None => {
                        send_slot.tag = ResponseTag::Discard;
                        assert(send_slot.buffer@ =~= before + Seq::<u8>::empty());
                        return None;
                    },
                }
            },
            LovenseCommand::Malformed => {
                send_slot.tag = ResponseTag::Discard;
                assert(send_slot.buffer@ =~= before + Seq::<u8>::empty());
                return None;
            },
            LovenseCommand::Unknown => {},
        }
        send_slot.tag = ResponseTag::Lovense;
        assert(send_slot.buffer@ =~= before + reply_of(self.lovense_config, args@).body);
        lights
    }
}

} // verus!
