use pc_keyboard::{DecodedKey, KeyCode};
use rust_os::task::keyboard::{
    add_scancode, first_look, push_status, second_look, wakes_consumer, KeyDecoder, Look,
    ScancodeStatus, ScancodeStream, SCANCODE_QUEUE_CAPACITY,
};
use std::sync::atomic::{AtomicUsize, Ordering};
use std::sync::Arc;
use std::task::{Wake, Waker};

struct CountingWaker {
    wakes: AtomicUsize,
}

impl Wake for CountingWaker {
    fn wake(self: Arc<Self>) {
        self.wakes.fetch_add(1, Ordering::SeqCst);
    }
}

fn counting_waker() -> (Arc<CountingWaker>, Waker) {
    let inner = Arc::new(CountingWaker {
        wakes: AtomicUsize::new(0),
    });
    (inner.clone(), Waker::from(inner))
}

#[test]
fn scancode_without_a_stream_is_dropped() {
    assert_eq!(add_scancode(None, 0x1e), ScancodeStatus::Uninitialized);
}

#[test]
fn scancodes_come_out_in_order() {
    let stream = ScancodeStream::new();
    let (_, waker) = counting_waker();
    assert_eq!(add_scancode(Some(&stream), 0x1e), ScancodeStatus::Queued);
    assert_eq!(add_scancode(Some(&stream), 0x9e), ScancodeStatus::Queued);
    assert_eq!(stream.poll_next(&waker), Some(0x1e));
    assert_eq!(stream.poll_next(&waker), Some(0x9e));
    assert_eq!(stream.poll_next(&waker), None);
}

#[test]
fn pending_consumer_is_woken_by_the_next_scancode() {
    let stream = ScancodeStream::new();
    let (count, waker) = counting_waker();
    assert_eq!(stream.poll_next(&waker), None);
    assert_eq!(count.wakes.load(Ordering::SeqCst), 0);
    assert_eq!(add_scancode(Some(&stream), 0x10), ScancodeStatus::Queued);
    assert_eq!(count.wakes.load(Ordering::SeqCst), 1);
    assert_eq!(add_scancode(Some(&stream), 0x11), ScancodeStatus::Queued);
    assert_eq!(count.wakes.load(Ordering::SeqCst), 1);
    assert_eq!(stream.poll_next(&waker), Some(0x10));
    assert_eq!(stream.poll_next(&waker), Some(0x11));
}

#[test]
fn consumer_that_found_a_scancode_is_not_woken() {
    let stream = ScancodeStream::new();
    let (count, waker) = counting_waker();
    assert_eq!(add_scancode(Some(&stream), 0x20), ScancodeStatus::Queued);
    assert_eq!(stream.poll_next(&waker), Some(0x20));
    assert_eq!(add_scancode(Some(&stream), 0x21), ScancodeStatus::Queued);
    assert_eq!(count.wakes.load(Ordering::SeqCst), 0);
}

#[test]
fn full_queue_drops_the_scancode() {
    let stream = ScancodeStream::new();
    let (_, waker) = counting_waker();
    for i in 0..SCANCODE_QUEUE_CAPACITY {
        assert_eq!(
            add_scancode(Some(&stream), i as u8),
            ScancodeStatus::Queued
        );
    }
    assert_eq!(
        add_scancode(Some(&stream), 0xff),
        ScancodeStatus::QueueFull(0xff)
    );
    for i in 0..SCANCODE_QUEUE_CAPACITY {
        assert_eq!(stream.poll_next(&waker), Some(i as u8));
    }
    assert_eq!(stream.poll_next(&waker), None);
}

#[test]
fn push_status_follows_the_queue() {
    assert_eq!(push_status(Ok(())), ScancodeStatus::Queued);
    assert_eq!(push_status(Err(7)), ScancodeStatus::QueueFull(7));
}

#[test]
fn key_press_decodes_to_its_character() {
    let mut decoder = KeyDecoder::new();
    assert_eq!(decoder.decode(0x1e), Some(DecodedKey::Unicode('a')));
    assert_eq!(decoder.decode(0x9e), None);
    assert_eq!(decoder.decode(0x30), Some(DecodedKey::Unicode('b')));
    assert_eq!(decoder.decode(0xb0), None);
}

#[test]
fn shift_changes_the_character() {
    let mut decoder = KeyDecoder::new();
    assert_eq!(
        decoder.decode(0x2a),
        Some(DecodedKey::RawKey(KeyCode::LShift))
    );
    assert_eq!(decoder.decode(0x1e), Some(DecodedKey::Unicode('A')));
    assert_eq!(decoder.decode(0x9e), None);
    assert_eq!(decoder.decode(0xaa), None);
    assert_eq!(decoder.decode(0x1e), Some(DecodedKey::Unicode('a')));
}

#[test]
fn extended_sequence_completes_on_its_second_byte() {
    let mut decoder = KeyDecoder::new();
    assert_eq!(decoder.decode(0xe0), None);
    assert_eq!(
        decoder.decode(0x48),
        Some(DecodedKey::RawKey(KeyCode::ArrowUp))
    );
}

#[test]
fn decoders_with_the_same_history_agree() {
    let mut first = KeyDecoder::new();
    let mut second = KeyDecoder::new();
    let scancodes: [u8; 8] = [0x2a, 0x1e, 0x9e, 0xaa, 0xe0, 0x48, 0x1e, 0xff];
    for scancode in scancodes {
        assert_eq!(first.decode(scancode), second.decode(scancode));
    }
}

#[test]
fn unknown_scancode_yields_no_key() {
    let mut decoder = KeyDecoder::new();
    assert_eq!(decoder.decode(0x7f), None);
    assert_eq!(decoder.decode(0x1e), Some(DecodedKey::Unicode('a')));
}

#[test]
fn default_stream_holds_as_many_scancodes_as_a_new_one() {
    let stream = ScancodeStream::default();
    for i in 0..SCANCODE_QUEUE_CAPACITY {
        assert_eq!(
            add_scancode(Some(&stream), i as u8),
            ScancodeStatus::Queued
        );
    }
    assert_eq!(add_scancode(Some(&stream), 0x5a), ScancodeStatus::QueueFull(0x5a));
}

#[test]
fn first_look_takes_a_scancode_or_asks_for_the_waker() {
    assert_eq!(first_look(Some(0x1e)), Look::Take(0x1e));
    assert_eq!(first_look(Some(0)), Look::Take(0));
    assert_eq!(first_look(None), Look::Register);
}

#[test]
fn second_look_withdraws_the_waker_only_for_a_scancode() {
    assert_eq!(second_look(Some(0x1e)), (Some(0x1e), true));
    assert_eq!(second_look(Some(0)), (Some(0), true));
    assert_eq!(second_look(None), (None, false));
}

#[test]
fn consumer_is_woken_only_after_a_queued_scancode() {
    assert!(wakes_consumer(ScancodeStatus::Queued));
    assert!(!wakes_consumer(ScancodeStatus::QueueFull(0x1e)));
    assert!(!wakes_consumer(ScancodeStatus::Uninitialized));
}

#[test]
fn dropped_scancode_wakes_nobody() {
    let stream = ScancodeStream::new();
    let (count, waker) = counting_waker();
    for i in 0..SCANCODE_QUEUE_CAPACITY {
        assert_eq!(add_scancode(Some(&stream), i as u8), ScancodeStatus::Queued);
    }
    for i in 0..SCANCODE_QUEUE_CAPACITY {
        assert_eq!(stream.poll_next(&waker), Some(i as u8));
    }
    assert_eq!(stream.poll_next(&waker), None);
    assert_eq!(add_scancode(Some(&stream), 0x77), ScancodeStatus::Queued);
    assert_eq!(count.wakes.load(Ordering::SeqCst), 1);
    assert_eq!(stream.poll_next(&waker), Some(0x77));
    assert_eq!(stream.poll_next(&waker), None);
    for i in 0..SCANCODE_QUEUE_CAPACITY {
        assert_eq!(add_scancode(Some(&stream), i as u8), ScancodeStatus::Queued);
    }
    assert_eq!(count.wakes.load(Ordering::SeqCst), 2);
    assert_eq!(
        add_scancode(Some(&stream), 0x99),
        ScancodeStatus::QueueFull(0x99)
    );
    assert_eq!(count.wakes.load(Ordering::SeqCst), 2);
}
