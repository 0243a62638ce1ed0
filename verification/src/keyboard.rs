//! The keyboard device: a bounded queue of bytes that the host has typed and
//! the guest has not yet taken.

use std::collections::VecDeque;
use std::sync::mpsc::Receiver;
use vstd::prelude::*;

verus! {

/// The most bytes that the queue holds.
pub const KEYBOARD_CAPACITY: usize = 64;

/// The queue after a byte from the host arrives: the byte joins the end if
/// there is room, and is dropped if not.
pub open spec fn offered(queue: Seq<u8>, byte: u8) -> Seq<u8> {
    if queue.len() < KEYBOARD_CAPACITY {
        queue.push(byte)
    } else {
        queue
    }
}

/// What the guest reads from the data port: the oldest byte, or zero where
/// the queue is empty.
pub open spec fn data_byte(queue: Seq<u8>) -> u8 {
    if queue.len() > 0 {
        queue[0]
    } else {
        0
    }
}

/// What the guest reads from the status port: one where a byte waits, else
/// zero.
pub open spec fn status_byte(queue: Seq<u8>) -> u8 {
    if queue.len() > 0 {
        1
    } else {
        0
    }
}

/// The queue after the guest acknowledges a byte: the oldest byte is gone.
pub open spec fn acknowledged(queue: Seq<u8>) -> Seq<u8> {
    if queue.len() > 0 {
        queue.drop_first()
    } else {
        queue
    }
}

/// The receiving end of a channel of the standard library.
#[verifier::external_type_specification]
#[verifier::external_body]
#[verifier::reject_recursive_types(T)]
pub struct ExReceiver<T>(Receiver<T>);

/// Calls `Receiver::try_recv`, which does not wait: a byte if the channel
/// holds one, `None` if it is empty or its sender is gone. Which of these
/// comes depends on the sending thread, so nothing is said of the result.
#[verifier::external_body]
fn try_receive(channel: &Receiver<u8>) -> Option<u8> {
    channel.try_recv().ok()
}

/// The bytes that wait for the guest, oldest first.
pub struct KeyboardQueue {
    fifo: VecDeque<u8>,
}

impl View for KeyboardQueue {
    type V = Seq<u8>;

    closed spec fn view(&self) -> Seq<u8> {
        self.fifo@
    }
}

impl KeyboardQueue {
    #[verifier::type_invariant]
    spec fn within_capacity(self) -> bool {
        self.fifo@.len() <= KEYBOARD_CAPACITY
    }

    /// An empty queue.
    pub fn new() -> (queue: Self)
        ensures
            queue@ == Seq::<u8>::empty(),
    {
        KeyboardQueue { fifo: VecDeque::new() }
    }

    /// How many bytes wait: never more than the capacity.
    pub fn len(&self) -> (n: usize)
        ensures
            n == self@.len(),
            n <= KEYBOARD_CAPACITY,
    {
        proof {
            use_type_invariant(self);
        }
        self.fifo.len()
    }

    /// Takes a byte that the host typed. It joins the end of the queue if
    /// there is room; a full queue stays as it is and the byte is dropped.
    /// The answer says whether the byte was taken.
    pub fn offer(&mut self, byte: u8) -> (taken: bool)
        ensures
            taken == (old(self)@.len() < KEYBOARD_CAPACITY),
            final(self)@ == offered(old(self)@, byte),
            final(self)@.len() <= KEYBOARD_CAPACITY,
    {
        proof {
            use_type_invariant(&*self);
        }
        if self.fifo.len() < KEYBOARD_CAPACITY {
            let mut fifo: VecDeque<u8> = VecDeque::new();
            std::mem::swap(&mut fifo, &mut self.fifo);
            fifo.push_back(byte);
            self.fifo = fifo;
            true
        } else {
            false
        }
    }

    /// Answers a read of the data port. The byte stays in the queue.
    pub fn data(&self) -> (byte: u8)
        ensures
            byte == data_byte(self@),
    {
        if self.fifo.len() > 0 {
            self.fifo[0]
        } else {
            0
        }
    }

    /// Answers a read of the status port.
    pub fn status(&self) -> (byte: u8)
        ensures
            byte == status_byte(self@),
    {
        if self.fifo.len() > 0 {
            1
        } else {
            0
        }
    }

    /// Drops the oldest byte: the guest has taken it. An empty queue stays
    /// empty.
    pub fn acknowledge(&mut self)
        ensures
            final(self)@ == acknowledged(old(self)@),
    {
        proof {
            use_type_invariant(&*self);
        }
        let mut fifo: VecDeque<u8> = VecDeque::new();
        std::mem::swap(&mut fifo, &mut self.fifo);
        let _ = fifo.pop_front();
        self.fifo = fifo;
    }

    /// Moves the bytes that wait in the channel into the queue, without
    /// waiting for more, until the channel is empty or a byte finds the queue
    /// full; that byte is dropped and the rest stay in the channel.
    ///
    /// How many bytes the channel holds is the sender's matter. Whatever it
    /// holds, the bytes that were queued before stay where they were, new
    /// bytes only join the end, and the queue stays within its capacity.
    pub fn process_keyboard_input(&mut self, channel: &Receiver<u8>)
        ensures
            old(self)@.is_prefix_of(final(self)@),
            final(self)@.len() <= KEYBOARD_CAPACITY,
    {
        proof {
            use_type_invariant(&*self);
        }
        loop
            invariant
                old(self)@.is_prefix_of(self@),
                self@.len() <= KEYBOARD_CAPACITY,
            decreases KEYBOARD_CAPACITY - self@.len(),
        {
            match try_receive(channel) {
                Some(byte) => {
                    if !self.offer(byte) {
                        break;
                    }
                },
                None => {
                    break;
                },
            }
        }
    }
}

/// Once the queue is full, bytes from the host are dropped and the queue
/// stays as it is, until the guest acknowledges a byte: then the next byte
/// finds room at the end, behind the bytes that were waiting.
pub proof fn lemma_full_queue_drops_until_acknowledged(queue: Seq<u8>, dropped: u8, next: u8)
    requires
        queue.len() == KEYBOARD_CAPACITY,
    ensures
        offered(queue, dropped) == queue,
        offered(acknowledged(queue), next) == queue.drop_first().push(next),
        offered(acknowledged(queue), next).len() == KEYBOARD_CAPACITY,
{
}

/// The queue never grows beyond its capacity, whatever arrives.
pub proof fn lemma_queue_stays_bounded(queue: Seq<u8>, byte: u8)
    requires
        queue.len() <= KEYBOARD_CAPACITY,
    ensures
        offered(queue, byte).len() <= KEYBOARD_CAPACITY,
        acknowledged(queue).len() <= KEYBOARD_CAPACITY,
        queue.is_prefix_of(offered(queue, byte)),
{
}

/// A byte that the host typed before the guest reads the data port is there
/// to be read: it is what the read yields if nothing older waits, and it
/// waits behind the older bytes if some do. The status port says that a byte
/// waits.
pub proof fn lemma_offered_byte_is_visible(queue: Seq<u8>, byte: u8)
    requires
        queue.len() < KEYBOARD_CAPACITY,
    ensures
        status_byte(offered(queue, byte)) == 1,
        queue.len() == 0 ==> data_byte(offered(queue, byte)) == byte,
        queue.len() > 0 ==> data_byte(offered(queue, byte)) == data_byte(queue),
        offered(queue, byte).last() == byte,
{
}

} // verus!
