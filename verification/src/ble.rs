//! The radio link's side of the bus: which outgoing stream a response
//! belongs to.

use vstd::prelude::*;
use crate::rpc::{reply_route_of, MessageSource, ReplyChannel, ResponseMessage, ResponseTag};

verus! {

/// An outgoing stream of the radio link.
#[derive(Clone, Copy, Debug, PartialEq, Eq, Structural)]
pub enum BleStream {
    /// The stream of call results.
    RpcResponse,
    /// The stream of peripheral-protocol replies.
    Lovense,
    /// The stream of diagnostic text.
    Log,
}

/// The stream that a tag selects on the radio link; none for a response
/// that is to be suppressed.
pub open spec fn stream_of(tag: ResponseTag) -> Option<BleStream> {
    match tag {
        ResponseTag::BleRpc => Some(BleStream::RpcResponse),
        ResponseTag::Lovense => Some(BleStream::Lovense),
        ResponseTag::Log => Some(BleStream::Log),
        ResponseTag::Discard => None,
        ResponseTag::Normal => None,
    }
}

/// Each stream of the radio link is selected by exactly one tag: the call
/// results by `BleRpc`, the peripheral-protocol replies by `Lovense`, the
/// diagnostic text by `Log`. A discarded response, and one that belongs to
/// another transport, selects none.
pub proof fn lemma_stream_by_tag(tag: ResponseTag)
    ensures
        stream_of(tag) == Some(BleStream::RpcResponse) <==> tag == ResponseTag::BleRpc,
        stream_of(tag) == Some(BleStream::Lovense) <==> tag == ResponseTag::Lovense,
        stream_of(tag) == Some(BleStream::Log) <==> tag == ResponseTag::Log,
        stream_of(tag) is None <==> tag == ResponseTag::Discard || tag == ResponseTag::Normal,
{
}

/// What the routing table sends to the radio link finds its stream there:
/// the replies to the calls of the radio link go out on the stream of call
/// results, the replies to its peripheral protocol on that protocol's
/// stream. The table sends nothing tagged `Normal` to the radio link.
pub proof fn lemma_radio_replies_find_their_stream(src: MessageSource)
    ensures
        match reply_route_of(src) {
            Some((ReplyChannel::Ble, tag)) => {
                &&& tag != ResponseTag::Normal
                &&& src == MessageSource::BleRpc ==> stream_of(tag) == Some(BleStream::RpcResponse)
                &&& src == MessageSource::BleLovense ==> stream_of(tag) == Some(
                    BleStream::Lovense,
                )
                &&& src == MessageSource::BleRpc || src == MessageSource::BleLovense
            },
            Some((ReplyChannel::Http, tag)) => tag == ResponseTag::Normal && src
                == MessageSource::HttpRpc,
            None => src == MessageSource::Uart || src == MessageSource::Timer,
        },
{
}

/// Selects the outgoing stream for a response that arrived on the radio
/// link's channel. A response tagged `Normal` belongs to another transport
/// and must not arrive here.
pub fn stream_for(tag: ResponseTag) -> (stream: Option<BleStream>)
    requires
        tag != ResponseTag::Normal,
    ensures
        stream == stream_of(tag),
        stream == Some(BleStream::RpcResponse) <==> tag == ResponseTag::BleRpc,
        stream == Some(BleStream::Lovense) <==> tag == ResponseTag::Lovense,
        stream == Some(BleStream::Log) <==> tag == ResponseTag::Log,
        stream is None <==> tag == ResponseTag::Discard,
{
    match tag {
        ResponseTag::BleRpc => Some(BleStream::RpcResponse),
        ResponseTag::Lovense => Some(BleStream::Lovense),
        ResponseTag::Log => Some(BleStream::Log),
        _ => None,
    }
}

/// Fills a response with diagnostic text for the log stream.
pub fn fill_log(slot: &mut ResponseMessage, text: &[u8])
    ensures
        final(slot).buffer@ == old(slot).buffer@ + text@,
        final(slot).tag == ResponseTag::Log,
{
    slot.buffer.extend_from_slice(text);
    slot.tag = ResponseTag::Log;
}

} // verus!
