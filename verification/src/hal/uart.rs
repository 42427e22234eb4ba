//! The framing of the serial link: incoming bytes are cut into one request
//! per line, outgoing lines are ended by carriage return and line feed.

use vstd::prelude::*;
use vstd::slice::slice_subrange;
use vstd::string::StringSliceAdditionalSpecFns;
use crate::bytes::{find_byte, first_index};
use crate::rpc::{pooled_request, MessageSource, RequestMessage};

verus! {

/// The byte that ends an incoming line.
pub const LINE_FEED: u8 = 10;

/// The bytes received from the serial link that are not yet handed on.
///
/// A line runs from `cursor` up to the next line feed. The line feed ends
/// the line and belongs to no line: each line becomes one request, and the
/// next line begins behind the line feed.
#[derive(Debug)]
pub struct LineFramer {
    /// The bytes at hand.
    pub buf: Vec<u8>,
    /// Where the next line begins.
    pub cursor: usize,
}

impl LineFramer {
    /// The cursor is within the buffer.
    pub open spec fn wf(&self) -> bool {
        self.cursor <= self.buf@.len()
    }

    /// The bytes that are not yet handed on.
    pub open spec fn pending(&self) -> Seq<u8> {
        self.buf@.skip(self.cursor as int)
    }

    /// Whether a complete line is at hand.
    pub open spec fn has_frame(&self) -> bool {
        first_index(self.pending(), LINE_FEED) < self.pending().len()
    }

    /// The next line, without its line feed, where one is at hand.
    pub open spec fn frame(&self) -> Seq<u8> {
        self.pending().take(first_index(self.pending(), LINE_FEED))
    }

    /// What is left once the next line and its line feed are handed on.
    pub open spec fn rest(&self) -> Seq<u8> {
        self.pending().skip(first_index(self.pending(), LINE_FEED) + 1)
    }

    /// A framer with nothing received.
    pub fn new() -> (framer: Self)
        ensures
            framer.wf(),
            framer.buf@ == Seq::<u8>::empty(),
            framer.cursor == 0,
    {
        LineFramer { buf: Vec::new(), cursor: 0 }
    }

    /// Takes in bytes that were received: what was handed on already is
    /// dropped and the new bytes are added to the rest.
    pub fn feed(&mut self, bytes: &[u8])
        requires
            old(self).wf(),
        ensures
            final(self).wf(),
            final(self).buf@ == old(self).pending() + bytes@,
            final(self).cursor == 0,
            final(self).pending() == old(self).pending() + bytes@,
    {
        let mut rest = self.buf.split_off(self.cursor);
        rest.extend_from_slice(bytes);
        self.buf = rest;
        self.cursor = 0;
        assert(self.buf@.skip(0) =~= self.buf@);
    }

    /// Whether a complete line is at hand.
    pub fn frame_ready(&self) -> (ready: bool)
        requires
            self.wf(),
        ensures
            ready == self.has_frame(),
    {
        let length = self.buf.len();
        let pending = slice_subrange(self.buf.as_slice(), self.cursor, length);
        assert(pending@ =~= self.pending());
        find_byte(pending, LINE_FEED).is_some()
    }

    /// Hands the next line on as a serial request. Where a complete line is
    /// at hand, its bytes, without the line feed, are appended to the
    /// request, the request is stamped as coming from the serial link, and
    /// the next line begins behind the line feed. Where none is at hand,
    /// nothing changes.
    pub fn next_frame(&mut self, slot: &mut RequestMessage) -> (found: bool)
        requires
            old(self).wf(),
        ensures
            final(self).wf(),
            found == old(self).has_frame(),
            final(self).buf@ == old(self).buf@,
            found ==> {
                &&& final(slot).buffer@ == old(slot).buffer@ + old(self).frame()
                &&& final(slot).src == MessageSource::Uart
                &&& final(self).pending() == old(self).rest()
                &&& forall|i: int|
                    0 <= i < old(self).frame().len() ==> old(self).frame()[i] != LINE_FEED
                &&& pooled_request(*old(slot)) ==> final(slot).buffer@ == old(self).frame()
            },
            !found ==> *final(slot) == *old(slot) && *final(self) == *old(self),
    {
        let ghost before = slot.buffer@;
        let length = self.buf.len();
        let pending = slice_subrange(self.buf.as_slice(), self.cursor, length);
        assert(pending@ =~= self.pending());
        match find_byte(pending, LINE_FEED) {
            Some(at) => {
                assert(at < pending@.len());
                proof {
                    crate::bytes::lemma_first_index(pending@, LINE_FEED);
                }
                let frame = slice_subrange(pending, 0, at);
                assert(frame@ =~= pending@.take(at as int));
                slot.buffer.extend_from_slice(frame);
                slot.src = MessageSource::Uart;
                let ghost all = self.buf@;
                let ghost from = self.cursor as int;
                self.cursor = self.cursor + at + 1;
                assert(all.skip(from + at + 1) =~= all.skip(from).skip(at + 1));
                assert(before.len() == 0 ==> before + frame@ =~= frame@);
                true
            },
            None => false,
        }
    }
}

/// What is written to the serial link for an outgoing line: the line, then
/// carriage return and line feed.
pub open spec fn wire_line(line: Seq<u8>) -> Seq<u8> {
    line + "\r\n".spec_bytes()
}

/// Appends an outgoing line and its terminator to `out`.
pub fn write_line(line: &[u8], out: &mut Vec<u8>)
    ensures
        final(out)@ == old(out)@ + wire_line(line@),
{
    let ghost before = out@;
    out.extend_from_slice(line);
    out.extend_from_slice("\r\n".as_bytes());
    assert(out@ =~= before + wire_line(line@));
}

} // verus!
