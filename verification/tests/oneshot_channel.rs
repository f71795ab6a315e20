use rmachine::channel::oneshot::{channel, Canceled};
use rmachine::Poll;
use std::sync::atomic::{AtomicUsize, Ordering};
use std::sync::Arc;
use std::task::{Wake, Waker};

struct Counter(AtomicUsize);

impl Wake for Counter {
    fn wake(self: Arc<Self>) {
        self.0.fetch_add(1, Ordering::SeqCst);
    }
}

fn counting_waker() -> (Waker, Arc<Counter>) {
    let c = Arc::new(Counter(AtomicUsize::new(0)));
    (Waker::from(c.clone()), c)
}

#[test]
fn value_is_received_once() {
    let (tx, mut rx, mut inner) = channel::<u32>();
    let (w, c) = counting_waker();
    assert!(matches!(rx.poll(&mut inner, &w), Poll::Pending));
    assert!(tx.send(&mut inner, 42).is_ok());
    assert_eq!(c.0.load(Ordering::SeqCst), 1);
    assert!(matches!(rx.poll(&mut inner, &w), Poll::Ready(Ok(42))));
    assert!(matches!(rx.poll(&mut inner, &w), Poll::Ready(Err(Canceled))));
}

#[test]
fn dropped_sender_cancels() {
    let (tx, mut rx, mut inner) = channel::<u32>();
    let mut rx2 = rx.duplicate(&mut inner);
    let (w, c) = counting_waker();
    assert!(matches!(rx2.poll(&mut inner, &w), Poll::Pending));
    tx.dispose(&mut inner);
    assert_eq!(c.0.load(Ordering::SeqCst), 1);
    assert!(matches!(rx.poll(&mut inner, &w), Poll::Ready(Err(Canceled))));
    assert!(matches!(rx2.poll(&mut inner, &w), Poll::Ready(Err(Canceled))));
    assert_eq!(Canceled.message(), "oneshot canceled");
}

#[test]
fn value_taken_back_by_sender() {
    let (mut tx, mut rx, mut inner) = channel::<u32>();
    assert!(!tx.is_canceled(&inner));
    assert!(matches!(tx.poll_canceled(&inner), Poll::Ready(())));
    assert_eq!(tx.value(&mut inner), None);
    let w = Waker::noop();
    assert!(matches!(rx.poll(&mut inner, w), Poll::Ready(Err(Canceled))));
}

#[test]
fn closed_receiver_is_not_woken() {
    let (tx, mut rx, mut inner) = channel::<u32>();
    let (w, c) = counting_waker();
    assert!(matches!(rx.poll(&mut inner, &w), Poll::Pending));
    rx.close(&mut inner);
    tx.send(&mut inner, 1).unwrap();
    assert_eq!(c.0.load(Ordering::SeqCst), 0);
    assert!(matches!(rx.poll(&mut inner, &w), Poll::Ready(Ok(1))));
    rx.dispose(&mut inner);
    assert!(!inner.is_exhausted());
}
