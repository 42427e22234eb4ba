//! The arguments that a line of the peripheral protocol hands to the
//! scripting layer.

use vstd::prelude::*;
use vstd::slice::{slice_subrange, slice_to_vec};
use crate::bytes::{find_byte, first_index};
use crate::handlers::lovense::{command_body, terminated, COLON, SEMICOLON};

verus! {

/// The tokens of a command: the pieces between its colons. A colon at the
/// very end opens no further token, and an empty command has none.
pub open spec fn tokens_of(body: Seq<u8>) -> Seq<Seq<u8>>
    decreases body.len(),
{
    let at = first_index(body, COLON);
    if body.len() == 0 {
        Seq::empty()
    } else if 0 <= at < body.len() {
        seq![body.take(at)] + tokens_of(body.skip(at + 1))
    } else {
        seq![body]
    }
}

/// The body of a terminated line: what stands before the first semicolon.
#[derive(Clone, Copy, Debug)]
pub struct LovenseArgs<'a>(pub &'a [u8]);

impl<'a> LovenseArgs<'a> {
    /// The body of `val`, where `val` holds a terminator.
    pub fn new(val: &'a [u8]) -> (args: Option<Self>)
        ensures
            args is Some <==> terminated(val@),
            args matches Some(body) ==> body.0@ == command_body(val@),
    {
        match find_byte(val, SEMICOLON) {
            Some(end) => {
                let body = slice_subrange(val, 0, end);
                assert(body@ =~= command_body(val@));
                Some(LovenseArgs(body))
            },
            None => None,
        }
    }

    /// The tokens of the body, in order.
    pub fn tokens(&self) -> (tokens: Vec<Vec<u8>>)
        ensures
            tokens@.map_values(|token: Vec<u8>| token@) == tokens_of(self.0@),
    {
        let body = self.0;
        let length = body.len();
        let mut tokens: Vec<Vec<u8>> = Vec::new();
        let mut from: usize = 0;
        assert(body@.skip(0) =~= body@);
        assert(tokens@.map_values(|token: Vec<u8>| token@) =~= Seq::<Seq<u8>>::empty());
        while from < length
            invariant
                from <= length,
                length == body@.len(),
                tokens@.map_values(|token: Vec<u8>| token@) + tokens_of(body@.skip(from as int))
                    == tokens_of(body@),
            decreases length - from,
        {
            let rest = slice_subrange(body, from, length);
            assert(rest@ =~= body@.skip(from as int));
            let ghost before = tokens@.map_values(|token: Vec<u8>| token@);
            match find_byte(rest, COLON) {
                Some(at) => {
                    assert(at < rest@.len());
                    let token = slice_to_vec(slice_subrange(rest, 0, at));
                    tokens.push(token);
                    assert(rest@.skip(at + 1) =~= body@.skip(from + at + 1));
                    assert(tokens@.map_values(|token: Vec<u8>| token@) =~= before + seq![
                        rest@.take(at as int),
                    ]);
                    from = from + at + 1;
                },
                None => {
                    let token = slice_to_vec(rest);
                    tokens.push(token);
                    assert(tokens@.map_values(|token: Vec<u8>| token@) =~= before + seq![rest@]);
                    assert(body@.skip(length as int) =~= Seq::<u8>::empty());
                    from = length;
                },
            }
        }
        assert(body@.skip(length as int) =~= Seq::<u8>::empty());
        assert(tokens@.map_values(|token: Vec<u8>| token@) + Seq::<Seq<u8>>::empty()
            =~= tokens@.map_values(|token: Vec<u8>| token@));
        tokens
    }
}

} // verus!
