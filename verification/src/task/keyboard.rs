//! The keyboard input stream: a bounded queue of scancodes that the keyboard
//! interrupt handler fills and one consumer drains, and the decoder that
//! turns scancodes into keys.

use crate::queue::{byte_queue_capacity, new_byte_queue};
use core::task::Waker;
use crossbeam_queue::ArrayQueue;
use futures_util::task::AtomicWaker;
use pc_keyboard::layouts::Us104Key;
use pc_keyboard::{DecodedKey, Error, HandleControl, KeyEvent, Keyboard, ScancodeSet1};
use vstd::prelude::*;

verus! {

/// Number of scancodes that the queue can hold.
pub const SCANCODE_QUEUE_CAPACITY: usize = 100;

/// `core::task::Waker`, carried through as an opaque value.
#[verifier::external_type_specification]
#[verifier::external_body]
pub struct ExWaker(Waker);

/// `futures_util::task::AtomicWaker`: a cell for one waker that can be
/// filled and emptied through a shared reference.
#[verifier::external_type_specification]
#[verifier::external_body]
pub struct ExAtomicWaker(AtomicWaker);

/// `AtomicWaker::new` makes an empty cell. Trusted to return; nothing is
/// claimed of the cell.
pub assume_specification[ AtomicWaker::new ]() -> (cell: AtomicWaker)
;

/// `AtomicWaker::register` stores a copy of the waker in the cell, in place
/// of what was there. Trusted to return; nothing is claimed of the cell.
pub assume_specification[ AtomicWaker::register ](cell: &AtomicWaker, waker: &Waker)
;

/// `AtomicWaker::take` empties the cell and returns the waker that was in
/// it, if any. Trusted to return; nothing is claimed of the result.
pub assume_specification[ AtomicWaker::take ](cell: &AtomicWaker) -> (waker: Option<Waker>)
;

/// `AtomicWaker::wake` empties the cell and invokes the waker that was in
/// it, if any. Trusted to return; nothing is claimed of its effect.
pub assume_specification[ AtomicWaker::wake ](cell: &AtomicWaker)
;

/// `pc_keyboard::KeyEvent`, carried through as an opaque value.
#[verifier::external_type_specification]
#[verifier::external_body]
pub struct ExKeyEvent(KeyEvent);

/// `pc_keyboard::Error`, carried through as an opaque value.
#[verifier::external_type_specification]
#[verifier::external_body]
pub struct ExKeyboardError(Error);

/// `pc_keyboard::DecodedKey`, a Unicode character or a raw key code,
/// carried through as an opaque value.
#[verifier::external_type_specification]
#[verifier::external_body]
pub struct ExDecodedKey(DecodedKey);

/// Turns the scancodes of a US 104-key keyboard, scancode set 1, into keys.
/// Holds a `pc_keyboard::Keyboard`, the state machine that gathers scancodes
/// into key events and key events into keys. Its state is known by what has
/// gone into it: the scancodes fed and the key events processed. A decoder
/// is made by `new` alone and is neither copied nor compared, so that its
/// histories always stand for one keyboard.
#[verifier::external_body]
pub struct KeyDecoder {
    keyboard: Keyboard<Us104Key, ScancodeSet1>,
}

/// The scancodes that have been fed to the decoder's keyboard, oldest first.
pub uninterp spec fn scancodes_fed(decoder: KeyDecoder) -> Seq<u8>;

/// The key events that the decoder's keyboard has processed, oldest first.
pub uninterp spec fn events_processed(decoder: KeyDecoder) -> Seq<KeyEvent>;

/// What `Keyboard::add_byte`, with scancode set 1, answers to `scancode`
/// after the scancodes `fed`.
pub uninterp spec fn keyboard_answer(fed: Seq<u8>, scancode: u8) -> Result<Option<KeyEvent>, Error>;

/// The key that `Keyboard::process_keyevent`, with the US 104-key layout and
/// no special handling of the control key, makes of `event` after the events
/// `processed`.
pub uninterp spec fn key_of_event(processed: Seq<KeyEvent>, event: KeyEvent) -> Option<DecodedKey>;

/// `Keyboard::new` with scancode set 1, the US 104-key layout and no special
/// handling of the control key. Trusted: nothing has gone into the new
/// keyboard yet.
#[verifier::external_body]
fn new_keyboard() -> (decoder: KeyDecoder)
    ensures
        scancodes_fed(decoder) == Seq::<u8>::empty(),
        events_processed(decoder) == Seq::<KeyEvent>::empty(),
{
    KeyDecoder { keyboard: Keyboard::new(ScancodeSet1::new(), Us104Key, HandleControl::Ignore) }
}

/// `Keyboard::add_byte` feeds one scancode to the state machine, which
/// answers with a key event once a scan sequence is complete. Trusted: the
/// answer depends on nothing but the scancodes fed before and this one; the
/// scancode is fed whatever the answer, and no event is processed.
#[verifier::external_body]
fn add_byte(decoder: &mut KeyDecoder, scancode: u8) -> (answer: Result<Option<KeyEvent>, Error>)
    ensures
        answer == keyboard_answer(scancodes_fed(*old(decoder)), scancode),
        scancodes_fed(*final(decoder)) == scancodes_fed(*old(decoder)).push(scancode),
        events_processed(*final(decoder)) == events_processed(*old(decoder)),
{
    decoder.keyboard.add_byte(scancode)
}

/// `Keyboard::process_keyevent` turns a key event into a key, where the
/// event yields one. Trusted: the key depends on nothing but the events
/// processed before and this one; the event is processed whatever the key,
/// and no scancode is fed.
#[verifier::external_body]
fn process_keyevent(decoder: &mut KeyDecoder, event: KeyEvent) -> (key: Option<DecodedKey>)
    ensures
        key == key_of_event(events_processed(*old(decoder)), event),
        events_processed(*final(decoder)) == events_processed(*old(decoder)).push(event),
        scancodes_fed(*final(decoder)) == scancodes_fed(*old(decoder)),
{
    decoder.keyboard.process_keyevent(event)
}

/// What became of a scancode that the interrupt handler brought.
#[derive(Debug, Clone, Copy, PartialEq, Eq, Structural)]
pub enum ScancodeStatus {
    /// The scancode is in the queue and the waiting consumer has been woken.
    Queued,
    /// The queue was full; the scancode that it carries is lost.
    QueueFull(u8),
    /// No stream has been set up yet; the scancode is lost.
    Uninitialized,
}

/// The scancode queue with the cell for the waker of its one consumer.
pub struct ScancodeStream {
    queue: ArrayQueue<u8>,
    waker: AtomicWaker,
}

impl Default for ScancodeStream {
    /// The same as `ScancodeStream::new`.
    fn default() -> (stream: Self)
        ensures
            stream.capacity() == SCANCODE_QUEUE_CAPACITY,
    {
        ScancodeStream::new()
    }
}

impl ScancodeStream {
    /// The number of scancodes that the stream can hold before it drops one.
    pub closed spec fn capacity(&self) -> nat {
        byte_queue_capacity(self.queue)
    }

    /// Creates the stream with an empty queue and no waiting consumer. The
    /// queue holds up to `SCANCODE_QUEUE_CAPACITY` scancodes.
    pub fn new() -> (stream: ScancodeStream)
        ensures
            stream.capacity() == SCANCODE_QUEUE_CAPACITY,
    {
        ScancodeStream {
            queue: new_byte_queue(SCANCODE_QUEUE_CAPACITY),
            waker: AtomicWaker::new(),
        }
    }

    /// Asks for the next queued scancode. Returns it if one is there.
    /// Otherwise leaves the consumer's waker in the cell and returns `None`:
    /// the consumer is to suspend and will be woken by the next scancode. The
    /// queue is looked at once more after the waker is in place, so that a
    /// scancode arriving in between is not missed; the waker is then taken
    /// out of the cell again. What each look at the queue leads to is decided
    /// by `first_look` and `second_look`.
    pub fn poll_next(&self, waker: &Waker) -> (scancode: Option<u8>) {
        match first_look(self.queue.pop()) {
            Look::Take(scancode) => Some(scancode),
            Look::Register => {
                self.waker.register(waker);
                let (scancode, withdraw) = second_look(self.queue.pop());
                if withdraw {
                    let _ = self.waker.take();
                }
                scancode
            },
        }
    }

    /// Puts a scancode on the queue and wakes the waiting consumer, or
    /// reports that the queue was full and which scancode was lost. Neither
    /// blocks nor allocates.
    fn push(&self, scancode: u8) -> (status: ScancodeStatus)
        ensures
            status != ScancodeStatus::Uninitialized,
            status matches ScancodeStatus::QueueFull(dropped) ==> dropped == scancode,
    {
        let status = push_status(self.queue.push(scancode));
        if wakes_consumer(status) {
            self.waker.wake();
        }
        status
    }
}

/// What the consumer does after its first look at the queue.
#[derive(Debug, Clone, Copy, PartialEq, Eq, Structural)]
pub enum Look {
    /// A scancode was there: it is handed on.
    Take(u8),
    /// Nothing was there: the waker goes into the cell before the queue is
    /// looked at again.
    Register,
}

/// The first look at the queue: a scancode that is there is taken, and only
/// an empty queue has the waker put in place.
pub fn first_look(popped: Option<u8>) -> (look: Look)
    ensures
        look == match popped {
            Some(scancode) => Look::Take(scancode),
            None => Look::Register,
        },
{
    match popped {
        Some(scancode) => Look::Take(scancode),
        None => Look::Register,
    }
}

/// The second look at the queue, with the waker in place: what the consumer
/// is told, and whether the waker is to be taken out of the cell again. A
/// scancode that has come meanwhile is handed on and the waker withdrawn;
/// else the consumer is told to wait and the waker stays.
pub fn second_look(popped: Option<u8>) -> (out: (Option<u8>, bool))
    ensures
        out.0 == popped,
        out.1 == popped is Some,
{
    match popped {
        Some(scancode) => (Some(scancode), true),
        None => (None, false),
    }
}

/// What a push onto the scancode queue comes to: the scancode is queued, or
/// the queue was full and handed it back.
pub fn push_status(pushed: Result<(), u8>) -> (status: ScancodeStatus)
    ensures
        status == match pushed {
            Ok(()) => ScancodeStatus::Queued,
            Err(dropped) => ScancodeStatus::QueueFull(dropped),
        },
{
    match pushed {
        Ok(()) => ScancodeStatus::Queued,
        Err(dropped) => ScancodeStatus::QueueFull(dropped),
    }
}

/// Tells whether the waiting consumer is to be woken: only after a scancode
/// has been queued.
pub fn wakes_consumer(status: ScancodeStatus) -> (wake: bool)
    ensures
        wake == (status == ScancodeStatus::Queued),
{
    match status {
        ScancodeStatus::Queued => true,
        _ => false,
    }
}

/// Called by the keyboard interrupt handler with each scancode: hands it to
/// the stream if one has been set up. A scancode that cannot be queued is
/// dropped, which the status tells.
pub fn add_scancode(stream: Option<&ScancodeStream>, scancode: u8) -> (status: ScancodeStatus)
    ensures
        status == ScancodeStatus::Uninitialized <==> stream is None,
        status matches ScancodeStatus::QueueFull(dropped) ==> dropped == scancode,
{
    match stream {
        Some(stream) => stream.push(scancode),
        None => ScancodeStatus::Uninitialized,
    }
}

/// The key event, if any, in what the keyboard state machine answered to a
/// scancode: an error or an unfinished scan sequence yields none.
pub open spec fn event_in(answer: Result<Option<KeyEvent>, Error>) -> Option<KeyEvent> {
    match answer {
        Ok(Some(e)) => Some(e),
        _ => None,
    }
}

/// Returns the key event, if any, in what the keyboard state machine
/// answered to a scancode.
pub fn completed_event(answer: Result<Option<KeyEvent>, Error>) -> (event: Option<KeyEvent>)
    ensures
        event == event_in(answer),
{
    match answer {
        Ok(Some(e)) => Some(e),
        _ => None,
    }
}

impl KeyDecoder {
    /// The scancodes that the decoder has been given, oldest first.
    pub open spec fn fed(&self) -> Seq<u8> {
        scancodes_fed(*self)
    }

    /// The key events that the decoder has completed, oldest first.
    pub open spec fn processed(&self) -> Seq<KeyEvent> {
        events_processed(*self)
    }

    /// Creates a decoder in its initial state: nothing fed, nothing processed.
    pub fn new() -> (decoder: KeyDecoder)
        ensures
            decoder.fed() == Seq::<u8>::empty(),
            decoder.processed() == Seq::<KeyEvent>::empty(),
    {
        new_keyboard()
    }

    /// Feeds one scancode and returns the key that it completes, if any. The
    /// scancode that completes a key event has that event processed: the key
    /// is what the keyboard makes of the event after the events before it.
    /// Any other scancode yields no key and leaves the processed events as
    /// they were.
    pub fn decode(&mut self, scancode: u8) -> (key: Option<DecodedKey>)
        ensures
            final(self).fed() == old(self).fed().push(scancode),
            match event_in(keyboard_answer(old(self).fed(), scancode)) {
                Some(event) => key == key_of_event(old(self).processed(), event)
                    && final(self).processed() == old(self).processed().push(event),
                None => key is None && final(self).processed() == old(self).processed(),
            },
    {
        match completed_event(add_byte(self, scancode)) {
            Some(event) => process_keyevent(self, event),
            None => None,
        }
    }
}

} // verus!
