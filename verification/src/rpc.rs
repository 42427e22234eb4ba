//! Messages, tags, the buffer-recycling policy and the routing table of the bus.

use vstd::prelude::*;
use vstd::slice::slice_to_vec;
use vstd::string::{StringExecFns, StringSliceAdditionalSpecFns};
use crate::bytes::bytes_eq;
use crate::text::{decimal_u8, write_u8};

verus! {

/// Where a request came from.
#[derive(Clone, Copy, Debug, PartialEq, Eq, Structural)]
pub enum MessageSource {
    /// The radio link's generic call stream.
    BleRpc,
    /// The radio link's peripheral-protocol stream.
    BleLovense,
    /// The local HTTP endpoint.
    HttpRpc,
    /// The serial link to the companion board.
    Uart,
    /// The periodic timer.
    Timer,
}

/// The logical reply stream that a response belongs to.
#[derive(Clone, Copy, Debug, PartialEq, Eq, Structural)]
pub enum ResponseTag {
    /// A plain reply on a transport with a single stream.
    Normal,
    /// A peripheral-protocol reply on the radio link.
    Lovense,
    /// A generic call result on the radio link.
    BleRpc,
    /// Diagnostic text, sent best-effort.
    Log,
    /// Malformed peripheral-protocol input: the transport sends nothing.
    Discard,
}

/// One of the per-transport queues that carry replies.
#[derive(Clone, Copy, Debug, PartialEq, Eq, Structural)]
pub enum ReplyChannel {
    /// The queue drained by the radio link.
    Ble,
    /// The queue drained by the HTTP endpoint.
    Http,
}

/// A request: a byte payload and the transport that produced it.
#[derive(Debug)]
pub struct RequestMessage {
    pub buffer: Vec<u8>,
    pub src: MessageSource,
}

impl RequestMessage {
    /// Fills a request taken from the pool: the bytes are appended to the
    /// payload and the request is stamped with its source. A request as it
    /// lies in the pool is empty, so its payload becomes the bytes given.
    pub fn fill(&mut self, bytes: &[u8], src: MessageSource)
        ensures
            final(self).buffer@ == old(self).buffer@ + bytes@,
            final(self).src == src,
            pooled_request(*old(self)) ==> final(self).buffer@ == bytes@,
    {
        let ghost before = self.buffer@;
        self.buffer.extend_from_slice(bytes);
        self.src = src;
        assert(before.len() == 0 ==> before + bytes@ =~= bytes@);
    }
}

/// A response: a byte payload and the stream it is meant for.
#[derive(Debug)]
pub struct ResponseMessage {
    pub buffer: Vec<u8>,
    pub tag: ResponseTag,
}

/// The routing table: the reply channel and default tag of each source.
/// Serial and timer requests are fire-and-forget and have neither.
pub open spec fn reply_route_of(src: MessageSource) -> Option<(ReplyChannel, ResponseTag)> {
    match src {
        MessageSource::BleRpc => Some((ReplyChannel::Ble, ResponseTag::BleRpc)),
        MessageSource::BleLovense => Some((ReplyChannel::Ble, ResponseTag::Lovense)),
        MessageSource::HttpRpc => Some((ReplyChannel::Http, ResponseTag::Normal)),
        MessageSource::Uart => None,
        MessageSource::Timer => None,
    }
}

/// Looks a source up in the routing table.
pub fn reply_route(src: MessageSource) -> (route: Option<(ReplyChannel, ResponseTag)>)
    ensures
        route == reply_route_of(src),
{
    match src {
        MessageSource::BleRpc => Some((ReplyChannel::Ble, ResponseTag::BleRpc)),
        MessageSource::BleLovense => Some((ReplyChannel::Ble, ResponseTag::Lovense)),
        MessageSource::HttpRpc => Some((ReplyChannel::Http, ResponseTag::Normal)),
        MessageSource::Uart => None,
        MessageSource::Timer => None,
    }
}

/// Cuts a buffer's capacity back with `Vec::shrink_to`, which lowers the
/// capacity towards `limit` and leaves the contents as they are.
#[verifier::external_body]
fn shrink_to(buffer: &mut Vec<u8>, limit: usize)
    ensures
        final(buffer)@ == old(buffer)@,
{
    buffer.shrink_to(limit)
}

/// The capacity policy of one queue: buffers start at `min_size` and are
/// cut back to at most `max_size` whenever a message returns to the pool.
#[derive(Clone, Copy, Debug, PartialEq, Eq, Structural)]
pub struct MessageRecycler {
    pub min_size: usize,
    pub max_size: usize,
}

impl MessageRecycler {
    pub fn new(min_size: usize, max_size: usize) -> (recycler: Self)
        ensures
            recycler.min_size == min_size,
            recycler.max_size == max_size,
    {
        MessageRecycler { min_size, max_size }
    }
}

/// A request as it lies in the pool: empty, with the default source.
pub open spec fn pooled_request(element: RequestMessage) -> bool {
    element.buffer@ == Seq::<u8>::empty() && element.src == MessageSource::BleRpc
}

/// A response as it lies in the pool: empty, with the default tag.
pub open spec fn pooled_response(element: ResponseMessage) -> bool {
    element.buffer@ == Seq::<u8>::empty() && element.tag == ResponseTag::Normal
}

impl thingbuf::Recycle<RequestMessage> for MessageRecycler {
    /// A fresh request for the pool: empty, with the default source.
    fn new_element(&self) -> (element: RequestMessage)
        ensures
            pooled_request(element),
    {
        RequestMessage { buffer: Vec::with_capacity(self.min_size), src: MessageSource::BleRpc }
    }

    /// Returns a request to the pool: the payload is emptied, the buffer is
    /// cut back to at most `max_size` and the source is reset.
    fn recycle(&self, element: &mut RequestMessage)
        ensures
            pooled_request(*final(element)),
    {
        element.buffer.clear();
        shrink_to(&mut element.buffer, self.max_size);
        element.src = MessageSource::BleRpc;
    }
}

impl thingbuf::Recycle<ResponseMessage> for MessageRecycler {
    /// A fresh response for the pool: empty, with the default tag.
    fn new_element(&self) -> (element: ResponseMessage)
        ensures
            pooled_response(element),
    {
        ResponseMessage { buffer: Vec::with_capacity(self.min_size), tag: ResponseTag::Normal }
    }

    /// Returns a response to the pool: the payload is emptied, the buffer
    /// is cut back to at most `max_size` and the tag is reset.
    fn recycle(&self, element: &mut ResponseMessage)
        ensures
            pooled_response(*final(element)),
    {
        element.buffer.clear();
        shrink_to(&mut element.buffer, self.max_size);
        element.tag = ResponseTag::Normal;
    }
}

/// The write side of a queue of the bus.
#[verifier::external_type_specification]
#[verifier::external_body]
#[verifier::reject_recursive_types(T)]
#[verifier::reject_recursive_types(R)]
pub struct ExSender<T, R>(thingbuf::mpsc::blocking::Sender<T, R>);

/// The read side of a queue of the bus.
#[verifier::external_type_specification]
#[verifier::external_body]
#[verifier::reject_recursive_types(T)]
#[verifier::reject_recursive_types(R)]
pub struct ExReceiver<T, R>(thingbuf::mpsc::blocking::Receiver<T, R>);

/// The largest number of messages that a queue is made for here.
pub const MAX_CHANNEL_CAPACITY: usize = 0x7fff_ffff;

/// How one reply channel is sized.
#[derive(Clone, Copy, Debug, PartialEq, Eq, Structural)]
pub struct ChannelOptions {
    pub message_capacity: usize,
    pub min_buffer_size: usize,
    pub max_buffer_size: usize,
}

/// The dispatcher's write side of a response channel.
pub type RpcResponder = thingbuf::mpsc::blocking::Sender<ResponseMessage, MessageRecycler>;

/// A transport's ends of the bus: the write side of the request queue and
/// the read side of the transport's own response channel.
pub struct RpcRequester {
    pub req_tx: thingbuf::mpsc::blocking::Sender<RequestMessage, MessageRecycler>,
    pub res_rx: thingbuf::mpsc::blocking::Receiver<ResponseMessage, MessageRecycler>,
}

/// How the queue behind the write side of a request queue was made: for
/// how many requests, and with which bounds on their buffers.
pub uninterp spec fn request_sender_sizing(
    tx: thingbuf::mpsc::blocking::Sender<RequestMessage, MessageRecycler>,
) -> ChannelOptions;

/// How the queue behind the read side of a request queue was made.
pub uninterp spec fn request_receiver_sizing(
    rx: thingbuf::mpsc::blocking::Receiver<RequestMessage, MessageRecycler>,
) -> ChannelOptions;

/// How the queue behind the write side of a response channel was made: for
/// how many responses, and with which bounds on their buffers.
pub uninterp spec fn response_sender_sizing(
    tx: thingbuf::mpsc::blocking::Sender<ResponseMessage, MessageRecycler>,
) -> ChannelOptions;

/// How the queue behind the read side of a response channel was made.
pub uninterp spec fn response_receiver_sizing(
    rx: thingbuf::mpsc::blocking::Receiver<ResponseMessage, MessageRecycler>,
) -> ChannelOptions;

/// The sizing of a queue made for `capacity` messages that are recycled
/// by `recycler`.
pub open spec fn sizing(capacity: usize, recycler: MessageRecycler) -> ChannelOptions {
    ChannelOptions {
        message_capacity: capacity,
        min_buffer_size: recycler.min_size,
        max_buffer_size: recycler.max_size,
    }
}

/// Makes a bounded queue of requests with
/// `thingbuf::mpsc::blocking::with_recycle` and returns its two sides. The
/// queue keeps the capacity and the recycler that it is made with for its
/// whole life, and both sides report that capacity. The call takes any
/// capacity from 1 up to `usize::MAX` without its top bit; the bound stated
/// here is within that on targets of 32 bits and more. Nothing is claimed
/// of what the queue holds.
#[verifier::external_body]
fn request_channel(capacity: usize, recycler: MessageRecycler) -> (ends: (
    thingbuf::mpsc::blocking::Sender<RequestMessage, MessageRecycler>,
    thingbuf::mpsc::blocking::Receiver<RequestMessage, MessageRecycler>,
))
    requires
        0 < capacity <= MAX_CHANNEL_CAPACITY,
    ensures
        request_sender_sizing(ends.0) == sizing(capacity, recycler),
        request_receiver_sizing(ends.1) == sizing(capacity, recycler),
{
    thingbuf::mpsc::blocking::with_recycle(capacity, recycler)
}

/// Makes a bounded queue of responses with
/// `thingbuf::mpsc::blocking::with_recycle` and returns its two sides,
/// under the same terms as `request_channel`.
#[verifier::external_body]
fn response_channel(capacity: usize, recycler: MessageRecycler) -> (ends: (
    thingbuf::mpsc::blocking::Sender<ResponseMessage, MessageRecycler>,
    thingbuf::mpsc::blocking::Receiver<ResponseMessage, MessageRecycler>,
))
    requires
        0 < capacity <= MAX_CHANNEL_CAPACITY,
    ensures
        response_sender_sizing(ends.0) == sizing(capacity, recycler),
        response_receiver_sizing(ends.1) == sizing(capacity, recycler),
{
    thingbuf::mpsc::blocking::with_recycle(capacity, recycler)
}

/// How many requests the request queue holds.
pub const REQUEST_QUEUE_CAPACITY: usize = 16;

/// The sizing of the request queue: 16 requests, their buffers starting
/// at 32 bytes and cut back to 512 when recycled.
pub open spec fn request_queue_sizing() -> ChannelOptions {
    ChannelOptions {
        message_capacity: REQUEST_QUEUE_CAPACITY,
        min_buffer_size: 32,
        max_buffer_size: 512,
    }
}

/// Makes the one request queue of the bus and returns its write side,
/// which the transports share, and its read side, which is the
/// dispatcher's. The queue is made for 16 requests, their buffers starting
/// at 32 bytes and cut back to 512 when recycled.
pub fn request_queue() -> (ends: (
    thingbuf::mpsc::blocking::Sender<RequestMessage, MessageRecycler>,
    thingbuf::mpsc::blocking::Receiver<RequestMessage, MessageRecycler>,
))
    ensures
        request_sender_sizing(ends.0) == request_queue_sizing(),
        request_receiver_sizing(ends.1) == request_queue_sizing(),
{
    request_channel(REQUEST_QUEUE_CAPACITY, MessageRecycler::new(32, 512))
}

/// Makes the response channel of one transport, sized by `opts`, and
/// pairs its read side with the write side of the request queue. Returns
/// the transport's ends and the dispatcher's write side of the channel.
pub fn make_channel(
    req_tx: thingbuf::mpsc::blocking::Sender<RequestMessage, MessageRecycler>,
    opts: ChannelOptions,
) -> (ends: (RpcRequester, RpcResponder))
    requires
        0 < opts.message_capacity <= MAX_CHANNEL_CAPACITY,
    ensures
        ends.0.req_tx == req_tx,
        response_receiver_sizing(ends.0.res_rx) == opts,
        response_sender_sizing(ends.1) == opts,
{
    let (res_tx, res_rx) = response_channel(opts.message_capacity, opts.recycler());
    (RpcRequester { req_tx, res_rx }, res_tx)
}

impl ChannelOptions {
    /// The capacity policy for the messages of a channel sized like this.
    pub fn recycler(&self) -> (recycler: MessageRecycler)
        ensures
            recycler.min_size == self.min_buffer_size,
            recycler.max_size == self.max_buffer_size,
    {
        MessageRecycler::new(self.min_buffer_size, self.max_buffer_size)
    }
}

/// A decoded call: the method as `namespace:name`, the caller's identifier
/// and the parameters as the JSON text that the caller sent.
#[derive(Debug)]
pub struct RpcCall {
    pub method: Vec<u8>,
    pub id: u8,
    pub params: Vec<u8>,
}

/// `RpcCall` over mathematical values.
pub struct RpcCallView {
    pub method: Seq<u8>,
    pub id: u8,
    pub params: Seq<u8>,
}

impl View for RpcCall {
    type V = RpcCallView;

    open spec fn view(&self) -> RpcCallView {
        RpcCallView { method: self.method@, id: self.id, params: self.params@ }
    }
}

/// The members of the JSON object that a payload holds, each with its name
/// and with its value as the JSON text that stands in the payload, in the
/// order of the names; for a payload that is no JSON object, the parser's
/// diagnostic.
pub uninterp spec fn json_object_of(payload: Seq<u8>) -> Result<Seq<(Seq<u8>, Seq<u8>)>, Seq<char>>;

/// The text that a JSON string literal stands for, or the parser's
/// diagnostic.
pub uninterp spec fn json_text_of(raw: Seq<u8>) -> Result<Seq<char>, Seq<char>>;

/// The number below 256 that a JSON text stands for, or the parser's
/// diagnostic.
pub uninterp spec fn json_u8_of(raw: Seq<u8>) -> Result<u8, Seq<char>>;

/// The members of an object, as verified code holds them.
pub open spec fn members(fields: Seq<(Vec<u8>, Vec<u8>)>) -> Seq<(Seq<u8>, Seq<u8>)> {
    fields.map_values(|field: (Vec<u8>, Vec<u8>)| (field.0@, field.1@))
}

/// Reads a JSON object with `serde_json::from_slice` into an ordered map
/// from names to raw values, and hands the members out in the map's order;
/// the error is handed on as its text.
#[verifier::external_body]
fn parse_object(payload: &[u8]) -> (object: Result<Vec<(Vec<u8>, Vec<u8>)>, String>)
    ensures
        match object {
            Ok(fields) => json_object_of(payload@) == Ok::<Seq<(Seq<u8>, Seq<u8>)>, Seq<char>>(
                members(fields@),
            ),
            Err(text) => json_object_of(payload@) == Err::<Seq<(Seq<u8>, Seq<u8>)>, Seq<char>>(
                text@,
            ),
        },
{
    match serde_json::from_slice::<
        std::collections::BTreeMap<String, Box<serde_json::value::RawValue>>,
    >(payload) {
        Ok(map) => Ok(
            map.into_iter().map(|(k, v)| (k.into_bytes(), v.get().as_bytes().to_vec())).collect(),
        ),
        Err(error) => Err(error.to_string()),
    }
}

/// Reads a JSON string literal with `serde_json::from_slice`; the error is
/// handed on as its text.
#[verifier::external_body]
fn parse_text(raw: &[u8]) -> (text: Result<String, String>)
    ensures
        match text {
            Ok(value) => json_text_of(raw@) == Ok::<Seq<char>, Seq<char>>(value@),
            Err(diagnostic) => json_text_of(raw@) == Err::<Seq<char>, Seq<char>>(diagnostic@),
        },
{
    match serde_json::from_slice::<String>(raw) {
        Ok(value) => Ok(value),
        Err(error) => Err(error.to_string()),
    }
}

/// Reads a number below 256 with `serde_json::from_slice`; the error is
/// handed on as its text.
#[verifier::external_body]
fn parse_u8(raw: &[u8]) -> (number: Result<u8, String>)
    ensures
        match number {
            Ok(value) => json_u8_of(raw@) == Ok::<u8, Seq<char>>(value),
            Err(diagnostic) => json_u8_of(raw@) == Err::<u8, Seq<char>>(diagnostic@),
        },
{
    match serde_json::from_slice::<u8>(raw) {
        Ok(value) => Ok(value),
        Err(error) => Err(error.to_string()),
    }
}

/// The value of the first member named `key`.
pub open spec fn field_of(fields: Seq<(Seq<u8>, Seq<u8>)>, key: Seq<u8>) -> Option<Seq<u8>>
    decreases fields.len(),
{
    if fields.len() == 0 {
        None
    } else if fields[0].0 == key {
        Some(fields[0].1)
    } else {
        field_of(fields.drop_first(), key)
    }
}

fn find_field<'a>(fields: &'a Vec<(Vec<u8>, Vec<u8>)>, key: &[u8]) -> (value: Option<&'a Vec<u8>>)
    ensures
        match value {
            Some(raw) => field_of(members(fields@), key@) == Some(raw@),
            None => field_of(members(fields@), key@) is None,
        },
{
    let mut i: usize = 0;
    assert(members(fields@).skip(0) =~= members(fields@));
    while i < fields.len()
        invariant
            i <= fields@.len(),
            field_of(members(fields@), key@) == field_of(members(fields@).skip(i as int), key@),
        decreases fields@.len() - i,
    {
        let ghost rest = members(fields@).skip(i as int);
        assert(rest[0] == (fields@[i as int].0@, fields@[i as int].1@));
        assert(rest.drop_first() =~= members(fields@).skip(i + 1));
        if bytes_eq(fields[i].0.as_slice(), key) {
            return Some(&fields[i].1);
        }
        i += 1;
    }
    None
}

/// The call that a payload holds: a JSON object with a string `method`, a
/// number `id` below 256 and any JSON value as `params`. Other members are
/// passed over. A payload that holds none is answered with the
/// diagnostic.
pub open spec fn call_of(payload: Seq<u8>) -> Result<RpcCallView, Seq<char>> {
    match json_object_of(payload) {
        Err(diagnostic) => Err(diagnostic),
        Ok(fields) => match field_of(fields, "method".spec_bytes()) {
            None => Err("missing field `method`"@),
            Some(raw_method) => match json_text_of(raw_method) {
                Err(diagnostic) => Err(diagnostic),
                Ok(method) => match field_of(fields, "id".spec_bytes()) {
                    None => Err("missing field `id`"@),
                    Some(raw_id) => match json_u8_of(raw_id) {
                        Err(diagnostic) => Err(diagnostic),
                        Ok(id) => match field_of(fields, "params".spec_bytes()) {
                            None => Err("missing field `params`"@),
                            Some(params) => Ok(
                                RpcCallView { method: vstd::utf8::encode_utf8(method), id, params },
                            ),
                        },
                    },
                },
            },
        },
    }
}

/// Decodes the call envelope of a payload.
pub fn decode_call(payload: &[u8]) -> (decoded: Result<RpcCall, String>)
    ensures
        match decoded {
            Ok(call) => call_of(payload@) == Ok::<RpcCallView, Seq<char>>(call@),
            Err(text) => call_of(payload@) == Err::<RpcCallView, Seq<char>>(text@),
        },
{
    let fields = match parse_object(payload) {
        Ok(fields) => fields,
        Err(diagnostic) => {
            return Err(diagnostic);
        },
    };
    let raw_method = match find_field(&fields, "method".as_bytes()) {
        Some(raw) => raw,
        None => {
            return Err(String::from_str("missing field `method`"));
        },
    };
    let method = match parse_text(raw_method.as_slice()) {
        Ok(text) => text,
        Err(diagnostic) => {
            return Err(diagnostic);
        },
    };
    let raw_id = match find_field(&fields, "id".as_bytes()) {
        Some(raw) => raw,
        None => {
            return Err(String::from_str("missing field `id`"));
        },
    };
    let id = match parse_u8(raw_id.as_slice()) {
        Ok(id) => id,
        Err(diagnostic) => {
            return Err(diagnostic);
        },
    };
    let params = match find_field(&fields, "params".as_bytes()) {
        Some(raw) => raw,
        None => {
            return Err(String::from_str("missing field `params`"));
        },
    };
    Ok(
        RpcCall {
            method: slice_to_vec(method.as_str().as_bytes()),
            id,
            params: slice_to_vec(params.as_slice()),
        },
    )
}

/// The JSON string literal for a text: the text between double quotes,
/// escaped as JSON asks.
pub uninterp spec fn json_string(text: Seq<char>) -> Seq<u8>;

/// Writes a text as a JSON string literal with `serde_json::to_vec`, which
/// cannot fail on a string written into memory.
#[verifier::external_body]
pub(crate) fn quote(text: &str) -> (quoted: Vec<u8>)
    ensures
        quoted@ == json_string(text@),
{
    serde_json::to_vec(text).unwrap_or_default()
}

/// The result envelope: the caller's identifier, then either the result as
/// JSON text or the error as a JSON string, never both.
pub open spec fn framed(id: u8, outcome: Result<Seq<u8>, Seq<char>>) -> Seq<u8> {
    "{\"id\":".spec_bytes() + decimal_u8(id) + match outcome {
        Ok(result) => ",\"result\":".spec_bytes() + result,
        Err(text) => ",\"error\":".spec_bytes() + json_string(text),
    } + "}".spec_bytes()
}

/// The outcome of a call, before it is framed.
#[derive(Debug)]
pub struct RpcResponse {
    pub id: u8,
    /// The result as JSON text; `null` where the call failed.
    pub result: Vec<u8>,
    /// The diagnostic, where the call failed.
    pub error: Option<String>,
}

impl RpcResponse {
    /// The outcome as a result: the error where there is one, else the
    /// result text.
    pub open spec fn outcome(&self) -> Result<Seq<u8>, Seq<char>> {
        match self.error {
            Some(text) => Err(text@),
            None => Ok(self.result@),
        }
    }

    /// The response to the call `id` that ended in `res`.
    pub fn new(id: u8, res: Result<Vec<u8>, String>) -> (response: RpcResponse)
        ensures
            response.id == id,
            match res {
                Ok(value) => response.result@ == value@ && response.error is None,
                Err(text) => response.result@ == "null".spec_bytes() && response.error == Some(
                    text,
                ),
            },
    {
        match res {
            Ok(value) => RpcResponse { id, result: value, error: None },
            Err(text) => RpcResponse {
                id,
                result: slice_to_vec("null".as_bytes()),
                error: Some(text),
            },
        }
    }

    /// Appends the result envelope of this response to `out`.
    pub fn write_into(&self, out: &mut Vec<u8>)
        ensures
            final(out)@ == old(out)@ + framed(self.id, self.outcome()),
    {
        let ghost before = out@;
        out.extend_from_slice("{\"id\":".as_bytes());
        write_u8(self.id, out);
        match &self.error {
            Some(text) => {
                out.extend_from_slice(",\"error\":".as_bytes());
                let quoted = quote(text.as_str());
                out.extend_from_slice(quoted.as_slice());
            },
            None => {
                out.extend_from_slice(",\"result\":".as_bytes());
                out.extend_from_slice(self.result.as_slice());
            },
        }
        out.extend_from_slice("}".as_bytes());
        assert(out@ =~= before + framed(self.id, self.outcome()));
    }
}

} // verus!
