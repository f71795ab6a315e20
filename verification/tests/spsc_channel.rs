use rmachine::channel::spsc::{channel, unbounded, MAX_BUFFER};
use rmachine::Poll;
use std::sync::atomic::{AtomicUsize, Ordering};
use std::sync::Arc;
use std::task::{Wake, Waker};

struct Counter(AtomicUsize);

impl Wake for Counter {
    fn wake(self: Arc<Self>) {
        self.0.fetch_add(1, Ordering::SeqCst);
    }
}

fn counting_waker() -> (Waker, Arc<Counter>) {
    let c = Arc::new(Counter(AtomicUsize::new(0)));
    (Waker::from(c.clone()), c)
}

#[test]
fn bounded_messages_come_out_in_order() {
    let (mut tx, mut rx, mut inner) = channel::<u32>(4);
    for i in 0..5 {
        assert!(tx.try_send(&mut inner, i).is_ok());
    }
    for i in 0..5 {
        assert_eq!(rx.try_next(&mut inner).ok().unwrap(), Some(i));
    }
    assert!(rx.try_next(&mut inner).is_err());
}

#[test]
fn bounded_sender_parks_one_past_buffer() {
    let (mut tx, mut rx, mut inner) = channel::<u32>(1);
    assert!(tx.try_send(&mut inner, 1).is_ok());
    assert!(tx.try_send(&mut inner, 2).is_ok());
    assert_eq!(inner.num_messages(), 2);
    let e = tx.try_send(&mut inner, 3).unwrap_err();
    assert!(e.is_full());
    assert!(!e.is_disconnected());
    assert_eq!(e.message(), "send failed because channel is full");
    assert_eq!(e.into_inner(), 3);
    assert_eq!(rx.try_next(&mut inner).ok().unwrap(), Some(1));
    assert!(tx.try_send(&mut inner, 3).is_ok());
    assert_eq!(rx.try_next(&mut inner).ok().unwrap(), Some(2));
    assert_eq!(rx.try_next(&mut inner).ok().unwrap(), Some(3));
}

#[test]
fn zero_buffer_takes_one_message() {
    let (mut tx, mut rx, mut inner) = channel::<&str>(0);
    assert!(tx.try_send(&mut inner, "a").is_ok());
    assert!(tx.start_send(&mut inner, "b").unwrap_err().is_full());
    assert_eq!(rx.try_next(&mut inner).ok().unwrap(), Some("a"));
    assert!(tx.start_send(&mut inner, "b").is_ok());
}

#[test]
fn receiver_close_refuses_sends_and_drains() {
    let (mut tx, mut rx, mut inner) = channel::<u32>(8);
    tx.try_send(&mut inner, 10).unwrap();
    tx.try_send(&mut inner, 11).unwrap();
    rx.close(&mut inner);
    assert!(tx.is_closed(&inner));
    let e = tx.try_send(&mut inner, 12).unwrap_err();
    assert!(e.is_disconnected());
    assert_eq!(e.message(), "send failed because receiver is gone");
    assert_eq!(e.into_inner(), 12);
    assert_eq!(rx.try_next(&mut inner).ok().unwrap(), Some(10));
    assert_eq!(rx.try_next(&mut inner).ok().unwrap(), Some(11));
    assert!(!rx.is_terminated());
    assert_eq!(rx.try_next(&mut inner).ok().unwrap(), None);
    assert!(rx.is_terminated());
}

#[test]
fn empty_open_channel_gives_error() {
    let (_tx, mut rx, mut inner) = channel::<u32>(2);
    let e = rx.try_next(&mut inner).unwrap_err();
    assert_eq!(e.message(), "receiver channel is empty");
    assert!(!rx.is_terminated());
}

#[test]
fn disconnect_closes_and_wakes_receiver() {
    let (mut tx, mut rx, mut inner) = channel::<u32>(2);
    let (w, count) = counting_waker();
    assert!(matches!(rx.poll_next(&mut inner, &w), Poll::Pending));
    tx.try_send(&mut inner, 7).unwrap();
    assert_eq!(count.0.load(Ordering::SeqCst), 1);
    tx.disconnect(&mut inner);
    assert!(tx.is_closed(&inner));
    assert!(!inner.is_open());
    assert_eq!(inner.num_senders(), 0);
    assert!(tx.try_send(&mut inner, 8).unwrap_err().is_disconnected());
    assert!(matches!(rx.poll_next(&mut inner, &w), Poll::Ready(Some(7))));
    assert!(matches!(rx.poll_next(&mut inner, &w), Poll::Ready(None)));
    assert!(rx.is_terminated());
}

#[test]
fn close_channel_from_sender() {
    let (mut tx, mut rx, mut inner) = channel::<u32>(2);
    tx.try_send(&mut inner, 1).unwrap();
    tx.close_channel(&mut inner);
    assert!(tx.is_closed(&inner));
    assert!(tx.start_send(&mut inner, 2).unwrap_err().is_disconnected());
    assert_eq!(rx.try_next(&mut inner).ok().unwrap(), Some(1));
    assert_eq!(rx.try_next(&mut inner).ok().unwrap(), None);
}

#[test]
fn parked_sender_poll_ready_and_unpark_wakes() {
    let (mut tx, mut rx, mut inner) = channel::<u32>(0);
    let (w, count) = counting_waker();
    assert!(matches!(tx.poll_ready(&mut inner, &w), Poll::Ready(Ok(()))));
    tx.try_send(&mut inner, 1).unwrap();
    assert!(matches!(tx.poll_ready(&mut inner, &w), Poll::Pending));
    assert_eq!(count.0.load(Ordering::SeqCst), 0);
    assert_eq!(rx.try_next(&mut inner).ok().unwrap(), Some(1));
    assert_eq!(count.0.load(Ordering::SeqCst), 1);
    assert!(matches!(tx.poll_ready(&mut inner, &w), Poll::Ready(Ok(()))));
    rx.close(&mut inner);
    match tx.poll_ready(&mut inner, &w) {
        Poll::Ready(Err(e)) => assert!(e.is_disconnected()),
        _ => panic!("expected a disconnected channel"),
    }
}

#[test]
fn receiver_dispose_drains_everything() {
    let (mut tx, mut rx, mut inner) = channel::<String>(4);
    tx.try_send(&mut inner, "x".to_string()).unwrap();
    tx.try_send(&mut inner, "y".to_string()).unwrap();
    rx.dispose(&mut inner);
    assert!(rx.is_terminated());
    assert!(!inner.is_open());
    assert_eq!(inner.num_messages(), 0);
    assert!(tx.is_closed(&inner));
}

#[test]
fn unbounded_never_full() {
    let (tx, mut rx, mut inner) = unbounded::<u64>();
    for i in 0..1000 {
        assert!(tx.unbounded_send(&mut inner, i).is_ok());
    }
    assert_eq!(inner.num_messages(), 1000);
    for i in 0..1000 {
        assert_eq!(rx.try_next(&mut inner).ok().unwrap(), Some(i));
    }
    assert!(matches!(tx.poll_ready(&inner), Poll::Ready(Ok(()))));
}

#[test]
fn unbounded_duplicate_counts_senders() {
    let (mut tx, mut rx, mut inner) = unbounded::<u8>();
    let mut tx2 = tx.duplicate(&mut inner);
    assert_eq!(inner.num_senders(), 2);
    tx.disconnect(&mut inner);
    assert!(inner.is_open());
    assert!(tx.is_closed(&inner));
    assert!(tx.unbounded_send(&mut inner, 1).unwrap_err().is_disconnected());
    assert!(tx2.unbounded_send(&mut inner, 2).is_ok());
    tx2.disconnect(&mut inner);
    assert!(!inner.is_open());
    assert_eq!(rx.try_next(&mut inner).ok().unwrap(), Some(2));
    assert_eq!(rx.try_next(&mut inner).ok().unwrap(), None);
    assert!(rx.is_terminated());
}

#[test]
fn unbounded_close_refuses_sends() {
    let (mut tx, mut rx, mut inner) = unbounded::<u8>();
    tx.unbounded_send(&mut inner, 1).unwrap();
    rx.close(&mut inner);
    assert!(tx.is_closed(&inner));
    match tx.poll_ready(&inner) {
        Poll::Ready(Err(e)) => assert!(e.is_disconnected() && !e.is_full()),
        _ => panic!("expected a disconnected channel"),
    }
    let e = tx.start_send(&mut inner, 2).unwrap_err();
    assert!(e.is_disconnected());
    tx.close_channel(&mut inner);
    assert_eq!(rx.try_next(&mut inner).ok().unwrap(), Some(1));
    assert_eq!(rx.try_next(&mut inner).ok().unwrap(), None);
    rx.dispose(&mut inner);
    assert!(rx.is_terminated());
}

#[test]
fn max_buffer_is_a_quarter_of_usize() {
    assert_eq!(MAX_BUFFER, usize::MAX >> 2);
}

#[test]
fn try_send_error_converts() {
    let (mut tx, _rx, mut inner) = channel::<u8>(0);
    tx.disconnect(&mut inner);
    let e = tx.try_send(&mut inner, 5).unwrap_err();
    let se = e.into_send_error();
    assert!(se.is_disconnected());
    assert!(!se.is_full());
}

#[test]
fn close_keeps_the_count_of_buffered_messages() {
    let (mut tx, mut rx, mut inner) = channel::<u32>(4);
    tx.try_send(&mut inner, 1).unwrap();
    tx.try_send(&mut inner, 2).unwrap();
    rx.close(&mut inner);
    assert_eq!(inner.num_messages(), 2);
    assert_eq!(rx.try_next(&mut inner).ok().unwrap(), Some(1));
    assert_eq!(inner.num_messages(), 1);
}

#[test]
fn dropping_the_receiver_unparks_the_sender() {
    let (mut tx, mut rx, mut inner) = channel::<u32>(0);
    let (w, count) = counting_waker();
    tx.try_send(&mut inner, 1).unwrap();
    assert!(matches!(tx.poll_ready(&mut inner, &w), Poll::Pending));
    rx.dispose(&mut inner);
    assert_eq!(count.0.load(Ordering::SeqCst), 1);
    let e = tx.try_send(&mut inner, 2).unwrap_err();
    assert!(e.is_disconnected());
    assert!(!e.is_full());
    assert_eq!(e.into_inner(), 2);
}

#[test]
fn capacity_is_buffer_plus_one() {
    let (mut tx, _rx, mut inner) = channel::<u32>(3);
    for i in 0..4 {
        assert!(tx.try_send(&mut inner, i).is_ok());
    }
    let e = tx.try_send(&mut inner, 9).unwrap_err();
    assert!(e.is_full());
    assert_eq!(inner.num_messages(), 4);
}

#[test]
fn closed_channel_stays_closed() {
    let (mut tx, mut rx, mut inner) = channel::<u32>(1);
    tx.try_send(&mut inner, 1).unwrap();
    rx.close(&mut inner);
    assert!(tx.is_closed(&inner));
    assert!(tx.try_send(&mut inner, 2).is_err());
    assert!(tx.is_closed(&inner));
    assert_eq!(rx.try_next(&mut inner).ok().unwrap(), Some(1));
    assert!(tx.is_closed(&inner));
    assert_eq!(rx.try_next(&mut inner).ok().unwrap(), None);
    assert!(tx.is_closed(&inner));
    tx.disconnect(&mut inner);
    assert!(tx.is_closed(&inner));
}

#[test]
fn try_send_error_clones_and_compares() {
    let (mut tx, _rx, mut inner) = channel::<u32>(0);
    tx.disconnect(&mut inner);
    let e = tx.try_send(&mut inner, 5).unwrap_err();
    let f = e.clone();
    assert_eq!(e, f);
    assert_eq!(f.into_inner(), 5);
}
