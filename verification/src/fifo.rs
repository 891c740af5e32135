//! The buffer of bytes from the keyboard, oldest first.

use vstd::prelude::*;

verus! {

/// How many bytes the keyboard buffer holds.
pub const KB_CAPACITY: usize = 16;

/// A `heapless` double-ended queue of fixed capacity.
#[verifier::external_type_specification]
#[verifier::external_body]
#[verifier::reject_recursive_types(T)]
pub struct ExDeque<T, const N: usize>(heapless::Deque<T, N>);

/// What a keyboard buffer holds, front to back.
pub uninterp spec fn kb_contents(deque: heapless::Deque<u8, 16>) -> Seq<u8>;

/// `heapless::Deque::new`.
///
/// Trusted: the new deque is empty.
#[verifier::external_body]
pub(crate) fn kb_new() -> (r: heapless::Deque<u8, 16>)
    ensures
        kb_contents(r) == Seq::<u8>::empty(),
{
    heapless::Deque::new()
}

/// `heapless::Deque::len`.
///
/// Trusted: the number of bytes held, which is never more than the capacity of 16.
#[verifier::external_body]
pub(crate) fn kb_len(deque: &heapless::Deque<u8, 16>) -> (r: usize)
    ensures
        r == kb_contents(*deque).len(),
        r <= 16,
{
    deque.len()
}

/// `heapless::Deque::push_back`.
///
/// Trusted: a deque with room takes the byte at its back; a full one hands it back and is left as
/// it was.
#[verifier::external_body]
pub(crate) fn kb_push_back(deque: &mut heapless::Deque<u8, 16>, byte: u8) -> (r: Result<(), u8>)
    ensures
        match r {
            Ok(_) => kb_contents(*old(deque)).len() < 16 && kb_contents(*final(deque))
                == kb_contents(*old(deque)).push(byte),
            Err(refused) => kb_contents(*old(deque)).len() == 16 && refused == byte && kb_contents(
                *final(deque),
            ) == kb_contents(*old(deque)),
        },
{
    deque.push_back(byte)
}

/// `heapless::Deque::pop_front`.
///
/// Trusted: takes the byte at the front away and returns it; an empty deque stays empty and
/// returns nothing.
#[verifier::external_body]
pub(crate) fn kb_pop_front(deque: &mut heapless::Deque<u8, 16>) -> (r: Option<u8>)
    ensures
        match r {
            Some(byte) => kb_contents(*old(deque)).len() > 0 && byte == kb_contents(*old(deque))[0]
                && kb_contents(*final(deque)) == kb_contents(*old(deque)).drop_first(),
            None => kb_contents(*old(deque)).len() == 0 && kb_contents(*final(deque))
                == kb_contents(*old(deque)),
        },
{
    deque.pop_front()
}

} // verus!
