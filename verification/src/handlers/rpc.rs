//! The call handlers: a registry addressed by namespace and method, the
//! handlers that only touch the dispatcher's own state, and the hand-over
//! of the rest to the host.

use vstd::prelude::*;
use vstd::slice::slice_subrange;
use vstd::string::{StringExecFns, StringSliceAdditionalSpecFns};
use crate::bytes::{bytes_eq, find_byte, first_index};
use crate::hal::hitachi_board::Lights;
use crate::hal::ledc::{clamp_percent, PwmController};
use crate::handlers::lovense::{LovenseConfig, COLON};
use crate::rpc::{framed, json_string, quote, RpcCall, RpcResponse};
use crate::text::{decimal_u8, write_u8};

verus! {

/// A method of the registry.
#[derive(Clone, Copy, Debug, PartialEq, Eq, Structural)]
pub enum RpcMethod {
    /// `sys:fake_uart`: feeds a line into the bus as if the serial link had sent it.
    SysFakeUart,
    /// `sys:health`: temperature and free memory.
    SysHealth,
    /// `sys:restart`: restarts the device.
    SysRestart,
    /// `sys:build_info`: how the firmware was built.
    SysBuildInfo,
    /// `conn:set_wifi`: stores and applies a network configuration.
    ConnSetWifi,
    /// `conn:addr`: the device's addresses.
    ConnAddr,
    /// `wand:set_percent`: sets the duty.
    WandSetPercent,
    /// `wand:update_lovense_mapping`: sets the output range of the line protocol.
    WandUpdateLovenseMapping,
    /// `wand:get_percent`: the current duty.
    WandGetPercent,
    /// `uart:send`: sends a light pattern to the companion board.
    UartSend,
    /// `uart:get_last`: the last line that the companion board sent.
    UartGetLast,
}

/// Why a method name leads to no method.
#[derive(Clone, Copy, Debug, PartialEq, Eq, Structural)]
pub enum RpcFault {
    /// The part before the colon names no namespace, or there is no colon.
    InvalidNamespace,
    /// The namespace has no method of that name.
    InvalidMethod,
}

impl RpcFault {
    /// The diagnostic that the caller receives.
    pub open spec fn text(&self) -> Seq<char> {
        match self {
            RpcFault::InvalidNamespace => "Invalid namespace."@,
            RpcFault::InvalidMethod => "Invalid method."@,
        }
    }

    /// The diagnostic that the caller receives.
    pub fn message(&self) -> (text: String)
        ensures
            text@ == self.text(),
    {
        match self {
            RpcFault::InvalidNamespace => String::from_str("Invalid namespace."),
            RpcFault::InvalidMethod => String::from_str("Invalid method."),
        }
    }
}

/// The method that a namespace and a name lead to.
pub open spec fn method_in(namespace: Seq<u8>, name: Seq<u8>) -> Result<RpcMethod, RpcFault> {
    if namespace == "sys".spec_bytes() {
        if name == "fake_uart".spec_bytes() {
            Ok(RpcMethod::SysFakeUart)
        } else if name == "health".spec_bytes() {
            Ok(RpcMethod::SysHealth)
        } else if name == "restart".spec_bytes() {
            Ok(RpcMethod::SysRestart)
        } else if name == "build_info".spec_bytes() {
            Ok(RpcMethod::SysBuildInfo)
        } else {
            Err(RpcFault::InvalidMethod)
        }
    } else if namespace == "conn".spec_bytes() {
        if name == "set_wifi".spec_bytes() {
            Ok(RpcMethod::ConnSetWifi)
        } else if name == "addr".spec_bytes() {
            Ok(RpcMethod::ConnAddr)
        } else {
            Err(RpcFault::InvalidMethod)
        }
    } else if namespace == "wand".spec_bytes() {
        if name == "set_percent".spec_bytes() {
            Ok(RpcMethod::WandSetPercent)
        } else if name == "update_lovense_mapping".spec_bytes() {
            Ok(RpcMethod::WandUpdateLovenseMapping)
        } else if name == "get_percent".spec_bytes() {
            Ok(RpcMethod::WandGetPercent)
        } else {
            Err(RpcFault::InvalidMethod)
        }
    } else if namespace == "uart".spec_bytes() {
        if name == "send".spec_bytes() {
            Ok(RpcMethod::UartSend)
        } else if name == "get_last".spec_bytes() {
            Ok(RpcMethod::UartGetLast)
        } else {
            Err(RpcFault::InvalidMethod)
        }
    } else {
        Err(RpcFault::InvalidNamespace)
    }
}

/// The method that `namespace:name` leads to. A name without colon has no
/// namespace.
pub open spec fn method_of(method: Seq<u8>) -> Result<RpcMethod, RpcFault> {
    let at = first_index(method, COLON);
    if at < method.len() {
        method_in(method.take(at), method.skip(at + 1))
    } else {
        Err(RpcFault::InvalidNamespace)
    }
}

/// Looks a method up by namespace and name.
pub fn lookup_in(namespace: &[u8], name: &[u8]) -> (found: Result<RpcMethod, RpcFault>)
    ensures
        found == method_in(namespace@, name@),
{
    if bytes_eq(namespace, "sys".as_bytes()) {
        if bytes_eq(name, "fake_uart".as_bytes()) {
            Ok(RpcMethod::SysFakeUart)
        } else if bytes_eq(name, "health".as_bytes()) {
            Ok(RpcMethod::SysHealth)
        } else if bytes_eq(name, "restart".as_bytes()) {
            Ok(RpcMethod::SysRestart)
        } else if bytes_eq(name, "build_info".as_bytes()) {
            Ok(RpcMethod::SysBuildInfo)
        } else {
            Err(RpcFault::InvalidMethod)
        }
    } else if bytes_eq(namespace, "conn".as_bytes()) {
        if bytes_eq(name, "set_wifi".as_bytes()) {
            Ok(RpcMethod::ConnSetWifi)
        } else if bytes_eq(name, "addr".as_bytes()) {
            Ok(RpcMethod::ConnAddr)
        } else {
            Err(RpcFault::InvalidMethod)
        }
    } else if bytes_eq(namespace, "wand".as_bytes()) {
        if bytes_eq(name, "set_percent".as_bytes()) {
            Ok(RpcMethod::WandSetPercent)
        } else if bytes_eq(name, "update_lovense_mapping".as_bytes()) {
            Ok(RpcMethod::WandUpdateLovenseMapping)
        } else if bytes_eq(name, "get_percent".as_bytes()) {
            Ok(RpcMethod::WandGetPercent)
        } else {
            Err(RpcFault::InvalidMethod)
        }
    } else if bytes_eq(namespace, "uart".as_bytes()) {
        if bytes_eq(name, "send".as_bytes()) {
            Ok(RpcMethod::UartSend)
        } else if bytes_eq(name, "get_last".as_bytes()) {
            Ok(RpcMethod::UartGetLast)
        } else {
            Err(RpcFault::InvalidMethod)
        }
    } else {
        Err(RpcFault::InvalidNamespace)
    }
}

/// Looks a method up by its full name, `namespace:name`.
pub fn lookup(method: &[u8]) -> (found: Result<RpcMethod, RpcFault>)
    ensures
        found == method_of(method@),
{
    match find_byte(method, COLON) {
        Some(at) => {
            let length = method.len();
            assert(at < length);
            let namespace = slice_subrange(method, 0, at);
            let name = slice_subrange(method, at + 1, length);
            assert(namespace@ =~= method@.take(at as int));
            assert(name@ =~= method@.skip(at + 1));
            lookup_in(namespace, name)
        },
        None => Err(RpcFault::InvalidNamespace),
    }
}

/// What a JSON text holds as an array of one integer, or the parser's
/// diagnostic.
pub uninterp spec fn one_i64_of(params: Seq<u8>) -> Result<i64, Seq<char>>;

/// What a JSON text holds as an array of two integers, or the parser's
/// diagnostic.
pub uninterp spec fn two_i64_of(params: Seq<u8>) -> Result<(i64, i64), Seq<char>>;

/// What a JSON text holds as an array of four booleans, or the parser's
/// diagnostic.
pub uninterp spec fn four_bool_of(params: Seq<u8>) -> Result<(bool, bool, bool, bool), Seq<char>>;

/// What a JSON text holds as an array of one string, or the parser's
/// diagnostic.
pub uninterp spec fn one_string_of(params: Seq<u8>) -> Result<Seq<char>, Seq<char>>;

/// Reads an array of one integer with `serde_json::from_slice`; the error
/// is handed on as its text.
#[verifier::external_body]
fn parse_one_i64(params: &[u8]) -> (args: Result<[i64; 1], String>)
    ensures
        match args {
            Ok(values) => one_i64_of(params@) == Ok::<i64, Seq<char>>(values[0]),
            Err(text) => one_i64_of(params@) == Err::<i64, Seq<char>>(text@),
        },
{
    match serde_json::from_slice::<[i64; 1]>(params) {
        Ok(values) => Ok(values),
        Err(error) => Err(error.to_string()),
    }
}

/// Reads an array of two integers with `serde_json::from_slice`; the error
/// is handed on as its text.
#[verifier::external_body]
fn parse_two_i64(params: &[u8]) -> (args: Result<[i64; 2], String>)
    ensures
        match args {
            Ok(values) => two_i64_of(params@) == Ok::<(i64, i64), Seq<char>>(
                (values[0], values[1]),
            ),
            Err(text) => two_i64_of(params@) == Err::<(i64, i64), Seq<char>>(text@),
        },
{
    match serde_json::from_slice::<[i64; 2]>(params) {
        Ok(values) => Ok(values),
        Err(error) => Err(error.to_string()),
    }
}

/// Reads an array of four booleans with `serde_json::from_slice`; the
/// error is handed on as its text.
#[verifier::external_body]
fn parse_four_bool(params: &[u8]) -> (args: Result<[bool; 4], String>)
    ensures
        match args {
            Ok(values) => four_bool_of(params@) == Ok::<(bool, bool, bool, bool), Seq<char>>(
                (values[0], values[1], values[2], values[3]),
            ),
            Err(text) => four_bool_of(params@) == Err::<(bool, bool, bool, bool), Seq<char>>(
                text@,
            ),
        },
{
    match serde_json::from_slice::<[bool; 4]>(params) {
        Ok(values) => Ok(values),
        Err(error) => Err(error.to_string()),
    }
}

/// Reads an array of one string with `serde_json::from_slice`; the error
/// is handed on as its text.
#[verifier::external_body]
fn parse_one_string(params: &[u8]) -> (args: Result<String, String>)
    ensures
        match args {
            Ok(value) => one_string_of(params@) == Ok::<Seq<char>, Seq<char>>(value@),
            Err(text) => one_string_of(params@) == Err::<Seq<char>, Seq<char>>(text@),
        },
{
    match serde_json::from_slice::<[String; 1]>(params) {
        Ok([value]) => Ok(value),
        Err(error) => Err(error.to_string()),
    }
}

/// What a byte string reads as text when every ill-formed UTF-8 sequence
/// is replaced by the replacement character.
pub uninterp spec fn lossy_text_of(bytes: Seq<u8>) -> Seq<char>;

/// Reads bytes as text with `String::from_utf8_lossy`.
#[verifier::external_body]
fn lossy_text(bytes: &[u8]) -> (text: String)
    ensures
        text@ == lossy_text_of(bytes@),
{
    String::from_utf8_lossy(bytes).into_owned()
}

/// The diagnostic for parameters that the parser refused.
pub open spec fn invalid_arguments(diagnostic: Seq<char>) -> Seq<char> {
    "Invalid JSON for the arguments: "@ + diagnostic
}

fn invalid_arguments_text(diagnostic: &String) -> (text: String)
    ensures
        text@ == invalid_arguments(diagnostic@),
{
    let mut text = String::from_str("Invalid JSON for the arguments: ");
    text.append(diagnostic.as_str());
    text
}

/// Work that a call leaves to the host, which then answers the caller.
#[derive(Clone, Copy, Debug, PartialEq, Eq, Structural)]
pub enum HostCall {
    /// Read the temperature and the free memory.
    Health,
    /// Restart the device.
    Restart,
    /// Report how the firmware was built.
    BuildInfo,
    /// Decode, store and apply the network configuration in the parameters.
    SetWifi,
    /// Report the device's addresses.
    Addr,
    /// Store this output range.
    StoreLovenseConfig(LovenseConfig),
}

/// What the host has to do once a call has been handled.
#[derive(Debug)]
pub enum RpcAction {
    /// Nothing beyond sending the reply.
    Nothing,
    /// Drive the actuator at the handler's duty.
    Drive,
    /// Send this light pattern to the companion board.
    Show(Lights),
    /// Put this payload on the request queue as a serial request.
    Inject(Vec<u8>),
    /// Do this work and write the reply; nothing was written yet.
    Host(HostCall),
}

/// `RpcAction` over mathematical values.
pub enum RpcActionView {
    Nothing,
    Drive,
    Show(Lights),
    Inject(Seq<u8>),
    Host(HostCall),
}

impl View for RpcAction {
    type V = RpcActionView;

    open spec fn view(&self) -> RpcActionView {
        match self {
            RpcAction::Nothing => RpcActionView::Nothing,
            RpcAction::Drive => RpcActionView::Drive,
            RpcAction::Show(lights) => RpcActionView::Show(*lights),
            RpcAction::Inject(payload) => RpcActionView::Inject(payload@),
            RpcAction::Host(call) => RpcActionView::Host(*call),
        }
    }
}

/// What handling a call comes to.
pub struct RpcVerdict {
    /// How the call ended, where the handler itself answers it.
    pub outcome: Option<Result<Seq<u8>, Seq<char>>>,
    /// The duty after the call.
    pub percent: int,
    /// What is left to the host.
    pub action: RpcActionView,
}

/// The lights that the four parameters of `uart:send` ask for: bottom,
/// mid-low, mid-high, top.
pub open spec fn lights_of(args: (bool, bool, bool, bool)) -> Lights {
    Lights { mid_low: args.1, mid_high: args.2, top: args.3, bottom: args.0 }
}

/// The line that `sys:fake_uart` feeds into the bus: the text, then
/// carriage return and line feed.
pub open spec fn injected_line(text: Seq<char>) -> Seq<u8> {
    vstd::utf8::encode_utf8(text) + "\r\n".spec_bytes()
}

/// The verdict on parameters that the parser refused.
pub open spec fn refused(percent: int, diagnostic: Seq<char>) -> RpcVerdict {
    RpcVerdict {
        outcome: Some(Err(invalid_arguments(diagnostic))),
        percent,
        action: RpcActionView::Nothing,
    }
}

/// The verdict on a call that the handler answers with `null`.
pub open spec fn done(percent: int, action: RpcActionView) -> RpcVerdict {
    RpcVerdict { outcome: Some(Ok("null".spec_bytes())), percent, action }
}

/// The verdict on a call that is left to the host.
pub open spec fn left_to_host(percent: int, call: HostCall) -> RpcVerdict {
    RpcVerdict { outcome: None, percent, action: RpcActionView::Host(call) }
}

/// What handling the call `method` with `params` comes to, for a handler
/// at duty `percent` whose last serial line was `last`.
pub open spec fn verdict_of(percent: int, last: Seq<u8>, method: Seq<u8>, params: Seq<u8>)
    -> RpcVerdict {
    match method_of(method) {
        Err(fault) => RpcVerdict {
            outcome: Some(Err(fault.text())),
            percent,
            action: RpcActionView::Nothing,
        },
        Ok(RpcMethod::SysFakeUart) => match one_string_of(params) {
            Ok(text) => done(percent, RpcActionView::Inject(injected_line(text))),
            Err(diagnostic) => refused(percent, diagnostic),
        },
        Ok(RpcMethod::SysHealth) => left_to_host(percent, HostCall::Health),
        Ok(RpcMethod::SysRestart) => left_to_host(percent, HostCall::Restart),
        Ok(RpcMethod::SysBuildInfo) => left_to_host(percent, HostCall::BuildInfo),
        Ok(RpcMethod::ConnSetWifi) => left_to_host(percent, HostCall::SetWifi),
        Ok(RpcMethod::ConnAddr) => left_to_host(percent, HostCall::Addr),
        Ok(RpcMethod::WandSetPercent) => match one_i64_of(params) {
            Ok(value) => done(clamp_percent(value as int), RpcActionView::Drive),
            Err(diagnostic) => refused(percent, diagnostic),
        },
        Ok(RpcMethod::WandUpdateLovenseMapping) => match two_i64_of(params) {
            Ok(range) => left_to_host(
                percent,
                HostCall::StoreLovenseConfig(LovenseConfig { start: range.0, end: range.1 }),
            ),
            Err(diagnostic) => refused(percent, diagnostic),
        },
        Ok(RpcMethod::WandGetPercent) => RpcVerdict {
            outcome: Some(Ok(decimal_u8(percent as u8))),
            percent,
            action: RpcActionView::Nothing,
        },
        Ok(RpcMethod::UartSend) => match four_bool_of(params) {
            Ok(args) => done(percent, RpcActionView::Show(lights_of(args))),
            Err(diagnostic) => refused(percent, diagnostic),
        },
        Ok(RpcMethod::UartGetLast) => RpcVerdict {
            outcome: Some(Ok(json_string(lossy_text_of(last)))),
            percent,
            action: RpcActionView::Nothing,
        },
    }
}

/// The bytes that a verdict puts into the reply: the result envelope where
/// the handler answers, nothing where the host will.
pub open spec fn reply_bytes(id: u8, verdict: RpcVerdict) -> Seq<u8> {
    match verdict.outcome {
        Some(outcome) => framed(id, outcome),
        None => Seq::empty(),
    }
}

/// Every call comes to exactly one of two ends. Either the handler answers
/// it, with one result envelope under the caller's identifier, and leaves
/// no work that would answer it again; or it writes nothing and names the
/// work whose result the host hands to `RpcHandler::host_reply`, which
/// writes that one envelope.
pub proof fn lemma_answered_or_left_to_host(
    percent: int,
    last: Seq<u8>,
    method: Seq<u8>,
    params: Seq<u8>,
    id: u8,
)
    ensures
        ({
            let verdict = verdict_of(percent, last, method, params);
            &&& verdict.outcome is None <==> verdict.action is Host
            &&& verdict.outcome matches Some(outcome) ==> reply_bytes(id, verdict) == framed(
                id,
                outcome,
            )
            &&& verdict.outcome is None ==> reply_bytes(id, verdict) == Seq::<u8>::empty()
            &&& verdict.action is Host ==> verdict.percent == percent
        }),
{
}

/// The outcome of host work over mathematical values.
pub open spec fn outcome_of(result: Result<Vec<u8>, String>) -> Result<Seq<u8>, Seq<char>> {
    match result {
        Ok(value) => Ok(value@),
        Err(text) => Err(text@),
    }
}

/// The handler of the `sys` namespace, as far as it needs no hardware.
#[derive(Clone, Copy, Debug, PartialEq, Eq, Structural)]
pub struct SysHandler {}

impl SysHandler {
    /// `sys:fake_uart`: the payload to put on the request queue.
    pub fn fake_uart(&self, text: &String) -> (payload: Vec<u8>)
        ensures
            payload@ == injected_line(text@),
    {
        let mut payload = Vec::new();
        payload.extend_from_slice(text.as_str().as_bytes());
        payload.extend_from_slice("\r\n".as_bytes());
        assert(payload@ =~= injected_line(text@));
        payload
    }
}

/// The handler of the `wand` namespace: it owns the actuator's duty.
#[derive(Clone, Copy, Debug, PartialEq, Eq, Structural)]
pub struct WandHandler {
    pub pwm: PwmController,
}

impl WandHandler {
    /// `wand:get_percent`: the duty as JSON text.
    pub fn get_percent(&self) -> (result: Vec<u8>)
        requires
            self.pwm.wf(),
        ensures
            result@ == decimal_u8(self.pwm.percent as u8),
    {
        let mut result = Vec::new();
        write_u8(self.pwm.get_percent() as u8, &mut result);
        result
    }

    /// `wand:set_percent`: sets the duty to the clamped argument.
    pub fn set_percent(&mut self, args: [i64; 1])
        ensures
            final(self).pwm.percent == clamp_percent(args[0] as int),
            final(self).pwm.wf(),
    {
        self.pwm.set_percent(args[0]);
    }

    /// `wand:update_lovense_mapping`: the output range to store.
    pub fn update_lovense_mapping(&self, args: [i64; 2]) -> (config: LovenseConfig)
        ensures
            config == (LovenseConfig { start: args[0], end: args[1] }),
    {
        LovenseConfig { start: args[0], end: args[1] }
    }
}

/// The handler of the `uart` namespace: it keeps the last line that the
/// companion board sent.
#[derive(Debug)]
pub struct UartHandler {
    pub last_uart_msg: Vec<u8>,
}

impl UartHandler {
    /// `uart:send`: the lights that the arguments ask for.
    pub fn send(&self, args: [bool; 4]) -> (lights: Lights)
        ensures
            lights == lights_of((args[0], args[1], args[2], args[3])),
    {
        Lights { mid_low: args[1], mid_high: args[2], top: args[3], bottom: args[0] }
    }

    /// `uart:get_last`: the last serial line as a JSON string.
    pub fn get_last(&self) -> (result: Vec<u8>)
        ensures
            result@ == json_string(lossy_text_of(self.last_uart_msg@)),
    {
        let text = lossy_text(self.last_uart_msg.as_slice());
        quote(text.as_str())
    }
}

/// The call handlers, one per namespace. The `conn` namespace is all the
/// host's and has no state here.
#[derive(Debug)]
pub struct RpcHandler {
    pub sys: SysHandler,
    pub wand: WandHandler,
    pub uart: UartHandler,
}

impl RpcHandler {
    /// The duty is within its range.
    pub open spec fn wf(&self) -> bool {
        self.wand.pwm.wf()
    }

    /// Handlers for an actuator at rest, with no serial line seen.
    pub fn new() -> (handler: Self)
        ensures
            handler.wf(),
            handler.wand.pwm.percent == 0,
            handler.uart.last_uart_msg@ == Seq::<u8>::empty(),
    {
        RpcHandler {
            sys: SysHandler {  },
            wand: WandHandler { pwm: PwmController::new() },
            uart: UartHandler { last_uart_msg: Vec::new() },
        }
    }

    /// Answers a call that was left to the host: the result envelope for
    /// the host's result, under the caller's identifier, is appended to
    /// `response`.
    pub fn host_reply(&self, call: &RpcCall, result: Result<Vec<u8>, String>, response: &mut Vec<u8>)
        ensures
            final(response)@ == old(response)@ + framed(call.id, outcome_of(result)),
    {
        let reply = RpcResponse::new(call.id, result);
        reply.write_into(response);
    }

    /// Handles one call. Where the handler can answer, the result envelope
    /// is appended to `response`; where only the host can, nothing is
    /// appended and the action names the work.
    pub fn rpc_call(&mut self, call: &RpcCall, response: &mut Vec<u8>) -> (action: RpcAction)
        requires
            old(self).wf(),
        ensures
            final(self).wf(),
            final(self).uart.last_uart_msg@ == old(self).uart.last_uart_msg@,
            final(self).wand.pwm.percent == verdict_of(
                old(self).wand.pwm.percent as int,
                old(self).uart.last_uart_msg@,
                call.method@,
                call.params@,
            ).percent,
            action@ == verdict_of(
                old(self).wand.pwm.percent as int,
                old(self).uart.last_uart_msg@,
                call.method@,
                call.params@,
            ).action,
            final(response)@ == old(response)@ + reply_bytes(
                call.id,
                verdict_of(
                    old(self).wand.pwm.percent as int,
                    old(self).uart.last_uart_msg@,
                    call.method@,
                    call.params@,
                ),
            ),
    {
        let ghost before = response@;
        let ghost verdict = verdict_of(
            self.wand.pwm.percent as int,
            self.uart.last_uart_msg@,
            call.method@,
            call.params@,
        );
        let params = call.params.as_slice();
        let mut action = RpcAction::Nothing;
        let result: Option<Result<Vec<u8>, String>> = match lookup(call.method.as_slice()) {
            Err(fault) => Some(Err(fault.message())),
            Ok(RpcMethod::SysFakeUart) => match parse_one_string(params) {
                Ok(text) => {
                    action = RpcAction::Inject(self.sys.fake_uart(&text));
                    Some(Ok(null()))
                },
                Err(diagnostic) => Some(Err(invalid_arguments_text(&diagnostic))),
            },
            Ok(RpcMethod::SysHealth) => {
                action = RpcAction::Host(HostCall::Health);
                None
            },
            Ok(RpcMethod::SysRestart) => {
                action = RpcAction::Host(HostCall::Restart);
                None
            },
            Ok(RpcMethod::SysBuildInfo) => {
                action = RpcAction::Host(HostCall::BuildInfo);
                None
            },
            Ok(RpcMethod::ConnSetWifi) => {
                action = RpcAction::Host(HostCall::SetWifi);
                None
            },
            Ok(RpcMethod::ConnAddr) => {
                action = RpcAction::Host(HostCall::Addr);
                None
            },
            Ok(RpcMethod::WandSetPercent) => match parse_one_i64(params) {
                Ok(args) => {
                    self.wand.set_percent(args);
                    action = RpcAction::Drive;
                    Some(Ok(null()))
                },
                Err(diagnostic) => Some(Err(invalid_arguments_text(&diagnostic))),
            },
            Ok(RpcMethod::WandUpdateLovenseMapping) => match parse_two_i64(params) {
                Ok(args) => {
                    action = RpcAction::Host(
                        HostCall::StoreLovenseConfig(self.wand.update_lovense_mapping(args)),
                    );
                    None
                },
                Err(diagnostic) => Some(Err(invalid_arguments_text(&diagnostic))),
            },
            Ok(RpcMethod::WandGetPercent) => Some(Ok(self.wand.get_percent())),
            Ok(RpcMethod::UartSend) => match parse_four_bool(params) {
                Ok(args) => {
                    action = RpcAction::Show(self.uart.send(args));
                    Some(Ok(null()))
                },
                Err(diagnostic) => Some(Err(invalid_arguments_text(&diagnostic))),
            },
            Ok(RpcMethod::UartGetLast) => Some(Ok(self.uart.get_last())),
        };
        match result {
            Some(outcome) => {
                let reply = RpcResponse::new(call.id, outcome);
                assert(verdict.outcome == Some(reply.outcome()));
                reply.write_into(response);
            },
            None => {
                assert(response@ =~= before + Seq::<u8>::empty());
            },
        }
        action
    }
}

/// The JSON text `null`.
fn null() -> (text: Vec<u8>)
    ensures
        text@ == "null".spec_bytes(),
{
    vstd::slice::slice_to_vec("null".as_bytes())
}

} // verus!
