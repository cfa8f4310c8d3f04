//! Drawing values from the unstructured bytes that a fuzzer supplies.
use arbitrary::Unstructured;
use vstd::prelude::*;

use crate::numeric::{be_value, zero_bytes, U256};

verus! {

/// `arbitrary::Unstructured`, a cursor over raw bytes, held without looking inside.
#[verifier::external_type_specification]
#[verifier::external_body]
pub struct ExUnstructured<'a>(arbitrary::Unstructured<'a>);

/// `arbitrary::Error`, held without looking inside.
#[verifier::external_type_specification]
#[verifier::external_body]
pub struct ExArbitraryError(arbitrary::Error);

/// The bytes that an `arbitrary::Unstructured` has not handed out yet.
pub uninterp spec fn remaining_bytes(u: arbitrary::Unstructured<'_>) -> Seq<u8>;

/// The next `n` of `bytes`, with zeros in place of the missing ones.
pub open spec fn drawn(bytes: Seq<u8>, n: nat) -> Seq<u8> {
    Seq::new(
        n,
        |i: int|
            if i < bytes.len() {
                bytes[i]
            } else {
                0u8
            },
    )
}

/// What is left of `bytes` once `n` of them were drawn.
pub open spec fn left_over(bytes: Seq<u8>, n: nat) -> Seq<u8> {
    if n <= bytes.len() {
        bytes.skip(n as int)
    } else {
        Seq::empty()
    }
}

/// The optional number that `bytes` describe: an odd first byte announces 32 more
/// bytes, most significant first.
pub open spec fn drawn_slot(bytes: Seq<u8>) -> Option<nat> {
    if drawn(bytes, 1)[0] % 2 == 1 {
        Some(be_value(drawn(left_over(bytes, 1), 32)))
    } else {
        None
    }
}

/// What is left of `bytes` once an optional number was drawn.
pub open spec fn left_over_slot(bytes: Seq<u8>) -> Seq<u8> {
    if drawn(bytes, 1)[0] % 2 == 1 {
        left_over(left_over(bytes, 1), 32)
    } else {
        left_over(bytes, 1)
    }
}

/// The number inside an optional word.
pub open spec fn slot_value(slot: Option<U256>) -> Option<nat> {
    match slot {
        Some(word) => Some(word@),
        None => None,
    }
}

/// Calls `arbitrary::Unstructured::arbitrary` for `[u8; 32]`. Claimed of it: it
/// takes one byte after the other, puts zeros where the bytes run out, and never
/// fails.
#[verifier::external_body]
pub(crate) fn arbitrary_bytes(u: &mut Unstructured<'_>) -> (bytes: Result<
    [u8; 32],
    arbitrary::Error,
>)
    ensures
        bytes is Ok,
        bytes->Ok_0@ == drawn(remaining_bytes(*old(u)), 32),
        remaining_bytes(*final(u)) == left_over(remaining_bytes(*old(u)), 32),
{
    u.arbitrary::<[u8; 32]>()
}

/// Calls `arbitrary::Unstructured::arbitrary` for an optional
/// `primitive_types::U256`. Claimed of it: the lowest bit of the first byte decides
/// whether there is a number, the number is the next 32 bytes, most significant
/// first, zeros stand in where the bytes run out, and it never fails.
#[verifier::external_body]
pub(crate) fn arbitrary_slot(u: &mut Unstructured<'_>) -> (slot: Result<
    Option<U256>,
    arbitrary::Error,
>)
    ensures
        slot is Ok,
        slot_value(slot->Ok_0) == drawn_slot(remaining_bytes(*old(u))),
        remaining_bytes(*final(u)) == left_over_slot(remaining_bytes(*old(u))),
{
    match u.arbitrary::<Option<primitive_types::U256>>() {
        Ok(Some(n)) => Ok(Some(U256 { w0: n.0[0], w1: n.0[1], w2: n.0[2], w3: n.0[3] })),
        Ok(None) => Ok(None),
        Err(error) => Err(error),
    }
}

/// Drawing takes the bytes in order, and nothing but zeros once they run out; what was
/// not taken stays.
pub proof fn lemma_draw(bytes: Seq<u8>, n: nat)
    ensures
        drawn(bytes, n).len() == n,
        n <= bytes.len() ==> drawn(bytes, n) + left_over(bytes, n) == bytes,
        n > bytes.len() ==> {
            &&& drawn(bytes, n) == bytes + zero_bytes((n - bytes.len()) as nat)
            &&& left_over(bytes, n).len() == 0
        },
{
    if n <= bytes.len() {
        assert(drawn(bytes, n) + left_over(bytes, n) =~= bytes);
    } else {
        assert(drawn(bytes, n) =~= bytes + zero_bytes((n - bytes.len()) as nat));
    }
}

/// An optional number is announced by an odd byte and follows it, most significant byte
/// first, with zeros in place of missing bytes.
pub proof fn lemma_draw_slot(bytes: Seq<u8>)
    ensures
        bytes.len() == 0 ==> drawn_slot(bytes) is None && left_over_slot(bytes).len() == 0,
        bytes.len() > 0 && bytes[0] % 2 == 0 ==> {
            &&& drawn_slot(bytes) is None
            &&& left_over_slot(bytes) == bytes.skip(1)
        },
        bytes.len() >= 33 && bytes[0] % 2 == 1 ==> {
            &&& drawn_slot(bytes) == Some(be_value(bytes.subrange(1, 33)))
            &&& left_over_slot(bytes) == bytes.skip(33)
        },
        0 < bytes.len() < 33 && bytes[0] % 2 == 1 ==> {
            &&& drawn_slot(bytes) == Some(
                be_value(bytes.skip(1) + zero_bytes((33 - bytes.len()) as nat)),
            )
            &&& left_over_slot(bytes).len() == 0
        },
{
    if bytes.len() >= 33 {
        assert(drawn(left_over(bytes, 1), 32) =~= bytes.subrange(1, 33));
        assert(left_over(left_over(bytes, 1), 32) =~= bytes.skip(33));
    } else if bytes.len() > 0 {
        assert(drawn(left_over(bytes, 1), 32) =~= bytes.skip(1) + zero_bytes(
            (33 - bytes.len()) as nat,
        ));
    }
}

/// The number inside an optional word is that word's number.
pub proof fn lemma_slot_value(word: U256)
    ensures
        slot_value(Some(word)) == Some(word@),
        slot_value(None) is None,
{
}

} // verus!
