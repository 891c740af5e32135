//! The messages that interrupts and polled tasks leave for the idle task, and their queue.

use crate::protocol::Request;
use vstd::prelude::*;

verus! {

/// How many messages wait in the queue at most.
pub const QUEUE_CAPACITY: usize = 7;

/// Something that the idle task has to deal with.
#[derive(Debug, Clone, Copy, PartialEq, Eq, Structural)]
pub enum Message {
    /// Word from PS/2 port 0
    Ps2Data0(u16),
    /// Word from PS/2 port 1
    Ps2Data1(u16),
    /// Message from SPI bus
    SpiRequest(Request),
    /// SPI CS went low (active)
    SpiEnable,
    /// SPI CS went high (inactive)
    SpiDisable,
    /// The power button was given a press
    PowerButtonShortPress,
    /// The power button was held down
    PowerButtonLongPress,
    /// The power button was released
    PowerButtonRelease,
    /// The reset button was given a tap
    ResetButtonShortPress,
    /// The UART got some data
    UartByte(u8),
}

/// A `heapless` queue for one producer and one consumer.
#[verifier::external_type_specification]
#[verifier::external_body]
#[verifier::reject_recursive_types(T)]
pub struct ExQueue<T, const N: usize>(heapless::spsc::Queue<T, N>);

/// What a message queue holds, first in first.
pub uninterp spec fn queue_contents(queue: heapless::spsc::Queue<Message, 8>) -> Seq<Message>;

/// `heapless::spsc::Queue::new`.
///
/// Trusted: the new queue is empty.
#[verifier::external_body]
fn queue_new() -> (r: heapless::spsc::Queue<Message, 8>)
    ensures
        queue_contents(r) == Seq::<Message>::empty(),
{
    heapless::spsc::Queue::new()
}

/// `heapless::spsc::Queue::enqueue`.
///
/// Trusted: a queue of size 8 holds at most 7 messages. One with room takes the message at its
/// end; a full one hands it back and is left as it was.
#[verifier::external_body]
fn queue_enqueue(queue: &mut heapless::spsc::Queue<Message, 8>, message: Message) -> (r: Result<
    (),
    Message,
>)
    ensures
        match r {
            Ok(_) => queue_contents(*old(queue)).len() < 7 && queue_contents(*final(queue))
                == queue_contents(*old(queue)).push(message),
            Err(refused) => queue_contents(*old(queue)).len() == 7 && refused == message
                && queue_contents(*final(queue)) == queue_contents(*old(queue)),
        },
{
    queue.enqueue(message)
}

/// `heapless::spsc::Queue::dequeue`.
///
/// Trusted: takes the first message away and returns it; an empty queue stays empty and returns
/// nothing.
#[verifier::external_body]
fn queue_dequeue(queue: &mut heapless::spsc::Queue<Message, 8>) -> (r: Option<Message>)
    ensures
        match r {
            Some(message) => queue_contents(*old(queue)).len() > 0 && message == queue_contents(
                *old(queue),
            )[0] && queue_contents(*final(queue)) == queue_contents(*old(queue)).drop_first(),
            None => queue_contents(*old(queue)).len() == 0 && queue_contents(*final(queue))
                == queue_contents(*old(queue)),
        },
{
    queue.dequeue()
}

/// The queue of messages, shared by the tasks that fill it and the idle task.
pub struct MessageQueue {
    queue: heapless::spsc::Queue<Message, 8>,
}

impl View for MessageQueue {
    type V = Seq<Message>;

    closed spec fn view(&self) -> Seq<Message> {
        queue_contents(self.queue)
    }
}

/// How many more messages a queue that holds `waiting` takes.
pub open spec fn room(waiting: Seq<Message>) -> nat {
    if waiting.len() < QUEUE_CAPACITY {
        (QUEUE_CAPACITY - waiting.len()) as nat
    } else {
        0
    }
}

/// A queue that holds `waiting`, after `messages` were posted one by one: they line up behind,
/// as many as there is room for, and the others are dropped.
pub open spec fn offered(waiting: Seq<Message>, messages: Seq<Message>) -> Seq<Message> {
    if messages.len() <= room(waiting) {
        waiting + messages
    } else {
        waiting + messages.take(room(waiting) as int)
    }
}

impl MessageQueue {
    /// A queue with no messages.
    pub fn new() -> (r: MessageQueue)
        ensures
            r@ == Seq::<Message>::empty(),
    {
        MessageQueue { queue: queue_new() }
    }

    /// Adds `message` at the end, or hands it back when the queue is full.
    pub fn post(&mut self, message: Message) -> (r: Result<(), Message>)
        ensures
            final(self)@ == offered(old(self)@, seq![message]),
            match r {
                Ok(_) => old(self)@.len() < QUEUE_CAPACITY && final(self)@ == old(self)@.push(
                    message,
                ),
                Err(refused) => old(self)@.len() >= QUEUE_CAPACITY && refused == message
                    && final(self)@ == old(self)@,
            },
    {
        let r = queue_enqueue(&mut self.queue, message);
        assert(seq![message].take(0) =~= Seq::<Message>::empty());
        assert(old(self)@ + seq![message] =~= old(self)@.push(message));
        assert(old(self)@ + Seq::<Message>::empty() =~= old(self)@);
        r
    }

    /// Takes the first message out of the queue, if there is one.
    pub fn take(&mut self) -> (r: Option<Message>)
        ensures
            match r {
                Some(message) => old(self)@.len() > 0 && message == old(self)@[0] && final(self)@
                    == old(self)@.drop_first(),
                None => old(self)@.len() == 0 && final(self)@ == old(self)@,
            },
    {
        queue_dequeue(&mut self.queue)
    }
}

} // verus!
