//! The dispatcher: the single consumer of the request queue. It routes
//! each request by its source, handles it to completion and says what is
//! left for the host to do.

use vstd::prelude::*;
use vstd::slice::slice_subrange;
use vstd::string::{StringExecFns, StringSliceAdditionalSpecFns};
use crate::bytes::{bytes_eq, find_byte};
use crate::hal::hitachi_board::{HitachiConfig, Lights};
use crate::hal::ledc::clamp_percent;
use crate::handlers::lovense::{has_tail, reply_of, tail, LovenseConfig, LovenseHandler, COLON};
use crate::handlers::rpc::{reply_bytes, verdict_of, RpcAction, RpcActionView, RpcHandler};
use crate::rpc::{
    call_of, decode_call, framed, reply_route_of, MessageSource, ReplyChannel, ResponseMessage,
    ResponseTag, RpcCall, RpcResponse,
};
use crate::text::DIGIT_ZERO;

verus! {

/// What the dispatcher does with a request, decided by its source alone.
#[derive(Clone, Copy, Debug, PartialEq, Eq, Structural)]
pub enum Route {
    /// Decode a call and answer on this channel with this tag.
    RpcDispatch(ReplyChannel, ResponseTag),
    /// Handle a line of the peripheral protocol and answer on this channel.
    DomainProtocolDispatch(ReplyChannel),
    /// Act on a line of the companion board; no reply.
    SerialEvent,
    /// Run the periodic callback; no reply.
    TimerTick,
}

/// The route of each source.
pub open spec fn route_of(src: MessageSource) -> Route {
    match src {
        MessageSource::BleRpc => Route::RpcDispatch(ReplyChannel::Ble, ResponseTag::BleRpc),
        MessageSource::HttpRpc => Route::RpcDispatch(ReplyChannel::Http, ResponseTag::Normal),
        MessageSource::BleLovense => Route::DomainProtocolDispatch(ReplyChannel::Ble),
        MessageSource::Uart => Route::SerialEvent,
        MessageSource::Timer => Route::TimerTick,
    }
}

/// Routes a request by its source.
pub fn route(src: MessageSource) -> (route: Route)
    ensures
        route == route_of(src),
{
    match src {
        MessageSource::BleRpc => Route::RpcDispatch(ReplyChannel::Ble, ResponseTag::BleRpc),
        MessageSource::HttpRpc => Route::RpcDispatch(ReplyChannel::Http, ResponseTag::Normal),
        MessageSource::BleLovense => Route::DomainProtocolDispatch(ReplyChannel::Ble),
        MessageSource::Uart => Route::SerialEvent,
        MessageSource::Timer => Route::TimerTick,
    }
}

/// Every route that answers does so on the channel and with the tag that
/// the routing table gives for the source; the serial link and the timer
/// have no entry in the table and their routes answer nowhere.
pub proof fn lemma_route_follows_table(src: MessageSource)
    ensures
        match route_of(src) {
            Route::RpcDispatch(channel, tag) => reply_route_of(src) == Some((channel, tag)),
            Route::DomainProtocolDispatch(channel) => reply_route_of(src) == Some(
                (channel, ResponseTag::Lovense),
            ),
            Route::SerialEvent => reply_route_of(src) is None,
            Route::TimerTick => reply_route_of(src) is None,
        },
        (src == MessageSource::Uart || src == MessageSource::Timer) <==> reply_route_of(src) is None,
{
}

/// The tag of the replies to the calls of a source.
pub open spec fn call_tag(src: MessageSource) -> ResponseTag {
    match reply_route_of(src) {
        Some(entry) => entry.1,
        None => ResponseTag::Normal,
    }
}

/// Whether `b` is ASCII white space.
pub open spec fn is_space(b: u8) -> bool {
    b == 32 || 9 <= b <= 13
}

/// `s` without the white space at its start.
pub open spec fn trim_start(s: Seq<u8>) -> Seq<u8>
    decreases s.len(),
{
    if s.len() > 0 && is_space(s[0]) {
        trim_start(s.drop_first())
    } else {
        s
    }
}

/// `s` without the white space at its end.
pub open spec fn trim_end(s: Seq<u8>) -> Seq<u8>
    decreases s.len(),
{
    if s.len() > 0 && is_space(s.last()) {
        trim_end(s.drop_last())
    } else {
        s
    }
}

/// `s` without the white space at either end.
pub open spec fn trimmed(s: Seq<u8>) -> Seq<u8> {
    trim_end(trim_start(s))
}

fn space(b: u8) -> (yes: bool)
    ensures
        yes == is_space(b),
{
    b == 32 || (9 <= b && b <= 13)
}

/// Cuts the white space off both ends of a line.
pub fn trim(s: &[u8]) -> (cut: &[u8])
    ensures
        cut@ == trimmed(s@),
{
    let n = s.len();
    let mut from: usize = 0;
    assert(s@.skip(0) =~= s@);
    while from < n && space(s[from])
        invariant
            from <= n,
            n == s@.len(),
            trim_start(s@) == trim_start(s@.skip(from as int)),
        decreases n - from,
    {
        assert(s@.skip(from as int).drop_first() =~= s@.skip(from + 1));
        from += 1;
    }
    assert(trim_start(s@) == s@.skip(from as int));
    assert(s@.skip(from as int) =~= s@.subrange(from as int, n as int));
    let mut to: usize = n;
    while to > from && space(s[to - 1])
        invariant
            from <= to <= n,
            n == s@.len(),
            trimmed(s@) == trim_end(s@.subrange(from as int, to as int)),
        decreases to,
    {
        assert(s@.subrange(from as int, to as int).drop_last() =~= s@.subrange(
            from as int,
            to - 1,
        ));
        to -= 1;
    }
    slice_subrange(s, from, to)
}

/// Whether `s` begins with `prefix`.
pub open spec fn starts_with(s: Seq<u8>, prefix: Seq<u8>) -> bool {
    prefix.len() <= s.len() && s.take(prefix.len() as int) == prefix
}

/// Which of the three buttons a line of the companion board reports as
/// pressed. The line is trimmed, begins with `BUTTONS`, and after its first
/// colon holds one character per button, `0` standing for pressed.
pub open spec fn buttons_of(line: Seq<u8>) -> Option<(bool, bool, bool)> {
    let text = trimmed(line);
    if starts_with(text, "BUTTONS".spec_bytes()) && has_tail(text) && tail(text).len() >= 3 {
        Some(
            (tail(text)[0] == DIGIT_ZERO, tail(text)[1] == DIGIT_ZERO, tail(text)[2] == DIGIT_ZERO),
        )
    } else {
        None
    }
}

/// Reads the button states off a line of the companion board.
pub fn read_buttons(line: &[u8]) -> (pressed: Option<(bool, bool, bool)>)
    ensures
        pressed == buttons_of(line@),
{
    let text = trim(line);
    let prefix = "BUTTONS".as_bytes();
    if prefix.len() > text.len() {
        return None;
    }
    let begin = slice_subrange(text, 0, prefix.len());
    assert(begin@ =~= text@.take(prefix@.len() as int));
    if !bytes_eq(begin, prefix) {
        return None;
    }
    match find_byte(text, COLON) {
        Some(at) => {
            let length = text.len();
            assert(at < length);
            let state = slice_subrange(text, at + 1, length);
            assert(state@ =~= tail(text@));
            if state.len() < 3 {
                None
            } else {
                Some((state[0] == DIGIT_ZERO, state[1] == DIGIT_ZERO, state[2] == DIGIT_ZERO))
            }
        },
        None => None,
    }
}

/// The change of duty that the buttons ask for: the first increment where
/// only the second button is pressed, the second increment where only the
/// third is, none otherwise.
pub open spec fn delta_of(pressed: (bool, bool, bool), increments: [i64; 2]) -> Option<i64> {
    if pressed.1 && !pressed.2 {
        Some(increments[0])
    } else if pressed.2 && !pressed.1 {
        Some(increments[1])
    } else {
        None
    }
}

/// The duty that a line of the companion board leads to, where it changes
/// the duty.
pub open spec fn serial_target(percent: int, line: Seq<u8>, increments: [i64; 2]) -> Option<int> {
    match buttons_of(line) {
        Some(pressed) => match delta_of(pressed, increments) {
            Some(delta) => Some(clamp_percent(percent + delta)),
            None => None,
        },
        None => None,
    }
}

/// The diagnostic for a request that is no call.
pub open spec fn invalid_request(diagnostic: Seq<char>) -> Seq<char> {
    "Invalid JSON in RPC request: "@ + diagnostic
}

/// The dispatcher's state: the actuator's duty, the last serial line, the
/// board's mappings and the output range of the line protocol.
#[derive(Debug)]
pub struct Dispatcher {
    pub rpc: RpcHandler,
    pub lovense: LovenseHandler,
}

impl Dispatcher {
    /// The duty is within its range.
    pub open spec fn wf(&self) -> bool {
        self.rpc.wf()
    }

    /// A dispatcher for an actuator at rest.
    pub fn new(mappings: HitachiConfig, lovense_config: LovenseConfig) -> (dispatcher: Self)
        ensures
            dispatcher.wf(),
            dispatcher.rpc.wand.pwm.percent == 0,
            dispatcher.rpc.uart.last_uart_msg@ == Seq::<u8>::empty(),
            dispatcher.lovense.mappings == mappings,
            dispatcher.lovense.lovense_config == lovense_config,
    {
        Dispatcher { rpc: RpcHandler::new(), lovense: LovenseHandler { mappings, lovense_config } }
    }

    /// Takes over a configuration that was stored anew.
    pub fn reload(&mut self, mappings: HitachiConfig, lovense_config: LovenseConfig)
        ensures
            final(self).rpc == old(self).rpc,
            final(self).lovense.mappings == mappings,
            final(self).lovense.lovense_config == lovense_config,
    {
        self.lovense.mappings = mappings;
        self.lovense.lovense_config = lovense_config;
    }

    /// Handles a request of a call source: the payload is decoded as a call
    /// envelope and the call is handled. The reply goes into `slot` under
    /// the tag that the routing table gives for the source; a payload that
    /// holds no call is answered with an error under the identifier 0. The
    /// decoded call is handed back with the action, for the host to answer
    /// where the action leaves the reply to it.
    pub fn rpc_dispatch(
        &mut self,
        src: MessageSource,
        payload: &[u8],
        slot: &mut ResponseMessage,
    ) -> (handled: (RpcAction, Option<RpcCall>))
        requires
            old(self).wf(),
            src == MessageSource::BleRpc || src == MessageSource::HttpRpc,
        ensures
            final(self).wf(),
            final(self).lovense == old(self).lovense,
            final(self).rpc.uart.last_uart_msg@ == old(self).rpc.uart.last_uart_msg@,
            final(slot).tag == call_tag(src),
            match call_of(payload@) {
                Ok(call) => {
                    let verdict = verdict_of(
                        old(self).rpc.wand.pwm.percent as int,
                        old(self).rpc.uart.last_uart_msg@,
                        call.method,
                        call.params,
                    );
                    &&& final(self).rpc.wand.pwm.percent == verdict.percent
                    &&& handled.0@ == verdict.action
                    &&& handled.1 matches Some(decoded) && decoded@ == call
                    &&& final(slot).buffer@ == old(slot).buffer@ + reply_bytes(call.id, verdict)
                },
                Err(diagnostic) => {
                    &&& final(self).rpc.wand.pwm == old(self).rpc.wand.pwm
                    &&& handled.0@ == RpcActionView::Nothing
                    &&& handled.1 is None
                    &&& final(slot).buffer@ == old(slot).buffer@ + framed(
                        0,
                        Err(invalid_request(diagnostic)),
                    )
                },
            },
    {
        slot.tag = match src {
            MessageSource::BleRpc => ResponseTag::BleRpc,
            _ => ResponseTag::Normal,
        };
        match decode_call(payload) {
            Ok(call) => {
                let action = self.rpc.rpc_call(&call, &mut slot.buffer);
                (action, Some(call))
            },
            Err(diagnostic) => {
                let mut text = String::from_str("Invalid JSON in RPC request: ");
                text.append(diagnostic.as_str());
                let reply = RpcResponse::new(0, Err(text));
                reply.write_into(&mut slot.buffer);
                (RpcAction::Nothing, None)
            },
        }
    }

    /// Handles a line of the peripheral protocol: the reply and its tag go
    /// into `slot`; where the line sets the duty, the light pattern for the
    /// companion board is returned.
    pub fn domain_protocol_dispatch(&mut self, payload: &[u8], slot: &mut ResponseMessage) -> (lights:
        Option<String>)
        ensures
            final(self).lovense == old(self).lovense,
            final(self).rpc.uart.last_uart_msg == old(self).rpc.uart.last_uart_msg,
            final(slot).tag == reply_of(old(self).lovense.lovense_config, payload@).tag,
            final(slot).buffer@ == old(slot).buffer@ + reply_of(
                old(self).lovense.lovense_config,
                payload@,
            ).body,
            match reply_of(old(self).lovense.lovense_config, payload@).target {
                Some(target) => {
                    &&& final(self).rpc.wand.pwm.percent == clamp_percent(target as int)
                    &&& lights matches Some(line) && line@ == Lights::lit_by(
                        target,
                        old(self).lovense.mappings.light_mappings,
                    ).pattern()
                },
                None => final(self).rpc.wand.pwm == old(self).rpc.wand.pwm && lights is None,
            },
            old(self).wf() ==> final(self).wf(),
    {
        self.lovense.handle(payload, &mut self.rpc.wand.pwm, slot)
    }

    /// Handles a line of the companion board. The line is kept as the last
    /// one seen. Where it reports exactly one of the two increment buttons
    /// as pressed, the duty changes by that button's increment, clamped to
    /// `0..=100`, and the light pattern of the new duty is returned for the
    /// companion board. Any other line changes nothing else.
    pub fn serial_event(&mut self, payload: &[u8]) -> (lights: Option<String>)
        requires
            old(self).wf(),
        ensures
            final(self).wf(),
            final(self).lovense == old(self).lovense,
            final(self).rpc.uart.last_uart_msg@ == payload@,
            match serial_target(
                old(self).rpc.wand.pwm.percent as int,
                payload@,
                old(self).lovense.mappings.button_mappings,
            ) {
                Some(target) => {
                    &&& final(self).rpc.wand.pwm.percent == target
                    &&& lights matches Some(line) && line@ == Lights::lit_by(
                        target as i64,
                        old(self).lovense.mappings.light_mappings,
                    ).pattern()
                },
                None => final(self).rpc.wand.pwm == old(self).rpc.wand.pwm && lights is None,
            },
    {
        self.rpc.uart.last_uart_msg.clear();
        self.rpc.uart.last_uart_msg.extend_from_slice(payload);
        assert(self.rpc.uart.last_uart_msg@ =~= payload@);
        let pressed = match read_buttons(payload) {
            Some(pressed) => pressed,
            None => {
                return None;
            },
        };
        let delta: i64 = if pressed.1 && !pressed.2 {
            self.lovense.mappings.button_mappings[0]
        } else if pressed.2 && !pressed.1 {
            self.lovense.mappings.button_mappings[1]
        } else {
            return None;
        };
        let sum: i128 = self.rpc.wand.pwm.get_percent() as i128 + delta as i128;
        let target: i64 = if sum > 100 {
            100
        } else if sum < 0 {
            0
        } else {
            sum as i64
        };
        self.rpc.wand.pwm.set_percent(target);
        let pattern = Lights::from_mapping(target, &self.lovense.mappings.light_mappings);
        let mut line = String::new();
        pattern.write_into(&mut line);
        assert(line@ =~= pattern.pattern());
        Some(line)
    }

    /// Handles one request to completion, whatever its source.
    ///
    /// A call source is answered in `slot` as `rpc_dispatch` does, the
    /// peripheral protocol as `domain_protocol_dispatch` does, each on the
    /// channel and under the tag of the routing table. A serial line is
    /// handled as `serial_event` does and a timer tick is left to the host:
    /// neither touches `slot`, and neither names a channel.
    pub fn dispatch(&mut self, src: MessageSource, payload: &[u8], slot: &mut ResponseMessage) -> (done:
        Dispatched)
        requires
            old(self).wf(),
        ensures
            final(self).wf(),
            final(self).lovense == old(self).lovense,
            match done {
                Dispatched::Rpc(channel, action, decoded) => {
                    &&& reply_route_of(src) == Some((channel, final(slot).tag))
                    &&& route_of(src) == Route::RpcDispatch(channel, final(slot).tag)
                    &&& final(self).rpc.uart.last_uart_msg@ == old(self).rpc.uart.last_uart_msg@
                    &&& match call_of(payload@) {
                        Ok(call) => {
                            let verdict = verdict_of(
                                old(self).rpc.wand.pwm.percent as int,
                                old(self).rpc.uart.last_uart_msg@,
                                call.method,
                                call.params,
                            );
                            &&& final(self).rpc.wand.pwm.percent == verdict.percent
                            &&& action@ == verdict.action
                            &&& decoded matches Some(given) && given@ == call
                            &&& final(slot).buffer@ == old(slot).buffer@ + reply_bytes(
                                call.id,
                                verdict,
                            )
                        },
                        Err(diagnostic) => {
                            &&& final(self).rpc.wand.pwm == old(self).rpc.wand.pwm
                            &&& action@ == RpcActionView::Nothing
                            &&& decoded is None
                            &&& final(slot).buffer@ == old(slot).buffer@ + framed(
                                0,
                                Err(invalid_request(diagnostic)),
                            )
                        },
                    }
                },
                Dispatched::Lovense(channel, lights) => {
                    let reply = reply_of(old(self).lovense.lovense_config, payload@);
                    &&& route_of(src) == Route::DomainProtocolDispatch(channel)
                    &&& reply_route_of(src) == Some((channel, ResponseTag::Lovense))
                    &&& final(self).rpc.uart.last_uart_msg@ == old(self).rpc.uart.last_uart_msg@
                    &&& final(slot).tag == reply.tag
                    &&& final(slot).buffer@ == old(slot).buffer@ + reply.body
                    &&& match reply.target {
                        Some(target) => {
                            &&& final(self).rpc.wand.pwm.percent == clamp_percent(target as int)
                            &&& lights matches Some(line) && line@ == Lights::lit_by(
                                target,
                                old(self).lovense.mappings.light_mappings,
                            ).pattern()
                        },
                        None => final(self).rpc.wand.pwm == old(self).rpc.wand.pwm && lights is None,
                    }
                },
                Dispatched::Serial(lights) => {
                    &&& route_of(src) == Route::SerialEvent
                    &&& reply_route_of(src) is None
                    &&& *final(slot) == *old(slot)
                    &&& final(self).rpc.uart.last_uart_msg@ == payload@
                    &&& match serial_target(
                        old(self).rpc.wand.pwm.percent as int,
                        payload@,
                        old(self).lovense.mappings.button_mappings,
                    ) {
                        Some(target) => {
                            &&& final(self).rpc.wand.pwm.percent == target
                            &&& lights matches Some(line) && line@ == Lights::lit_by(
                                target as i64,
                                old(self).lovense.mappings.light_mappings,
                            ).pattern()
                        },
                        None => final(self).rpc.wand.pwm == old(self).rpc.wand.pwm && lights is None,
                    }
                },
                Dispatched::Tick => {
                    &&& route_of(src) == Route::TimerTick
                    &&& reply_route_of(src) is None
                    &&& *final(slot) == *old(slot)
                    &&& final(self).rpc.wand.pwm == old(self).rpc.wand.pwm
                    &&& final(self).rpc.uart.last_uart_msg@ == old(self).rpc.uart.last_uart_msg@
                },
            },
    {
        match route(src) {
            Route::RpcDispatch(channel, _) => {
                let (action, decoded) = self.rpc_dispatch(src, payload, slot);
                Dispatched::Rpc(channel, action, decoded)
            },
            Route::DomainProtocolDispatch(channel) => {
                let lights = self.domain_protocol_dispatch(payload, slot);
                Dispatched::Lovense(channel, lights)
            },
            Route::SerialEvent => Dispatched::Serial(self.serial_event(payload)),
            Route::TimerTick => Dispatched::Tick,
        }
    }
}

/// What handling a request came to, and what is left to the host.
#[derive(Debug)]
pub enum Dispatched {
    /// A call was handled: carry the action out and send the slot on this
    /// channel. Where the action leaves the reply to the host, the host
    /// first writes the reply to the call given here.
    Rpc(ReplyChannel, RpcAction, Option<RpcCall>),
    /// A line of the peripheral protocol was handled: send the slot on this
    /// channel; where a light pattern is given, drive the actuator and send
    /// the pattern to the companion board.
    Lovense(ReplyChannel, Option<String>),
    /// A line of the companion board was handled: where a light pattern is
    /// given, drive the actuator and send the pattern to the board.
    Serial(Option<String>),
    /// The timer fired: run the periodic callback.
    Tick,
}

} // verus!
