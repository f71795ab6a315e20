use rmachine::channel::watch::{channel, Value};
use rmachine::Poll;
use std::sync::atomic::{AtomicUsize, Ordering};
use std::sync::Arc;
use std::task::{Wake, Waker};

struct Counter(AtomicUsize);

impl Wake for Counter {
    fn wake(self: Arc<Self>) {
        self.0.fetch_add(1, Ordering::SeqCst);
    }
}

fn counting_waker() -> (Waker, Arc<Counter>) {
    let c = Arc::new(Counter(AtomicUsize::new(0)));
    (Waker::from(c.clone()), c)
}

#[test]
fn value_versions_count_sends() {
    let v = Value::new(None, "a");
    assert_eq!(v.version, 1);
    let v2 = Value::new(Some(v), "b");
    assert_eq!(v2.version, 2);
    assert_eq!(v2.value, "b");
}

#[test]
fn receiver_sees_latest_value_once() {
    let (mut tx, mut rx, mut inner) = channel::<u32>();
    assert!(rx.try_next(&inner).is_err());
    tx.try_send(&mut inner, 1).unwrap();
    tx.try_send(&mut inner, 2).unwrap();
    assert_eq!(inner.version(), 2);
    assert_eq!(rx.try_next(&inner).ok().unwrap(), Some(2));
    let e = rx.try_next(&inner).unwrap_err();
    assert_eq!(e.message(), "receiver channel is empty");
    tx.start_send(&mut inner, 3).unwrap();
    assert_eq!(rx.try_next(&inner).ok().unwrap(), Some(3));
}

#[test]
fn duplicate_receiver_shares_what_was_seen() {
    let (mut tx, mut rx, mut inner) = channel::<u32>();
    tx.try_send(&mut inner, 5).unwrap();
    assert_eq!(rx.try_next(&inner).ok().unwrap(), Some(5));
    let mut rx2 = rx.duplicate(&mut inner);
    assert!(rx2.try_next(&inner).is_err());
    tx.try_send(&mut inner, 6).unwrap();
    assert_eq!(rx.try_next(&inner).ok().unwrap(), Some(6));
    assert_eq!(rx2.try_next(&inner).ok().unwrap(), Some(6));
}

#[test]
fn send_wakes_registered_receivers_only() {
    let (mut tx, mut rx, mut inner) = channel::<u32>();
    let mut rx2 = rx.duplicate(&mut inner);
    let (w1, c1) = counting_waker();
    let (w2, c2) = counting_waker();
    assert!(matches!(rx.poll_next(&mut inner, &w1), Poll::Pending));
    assert!(matches!(rx2.poll_next(&mut inner, &w2), Poll::Pending));
    rx2.close(&mut inner);
    tx.try_send(&mut inner, 1).unwrap();
    assert_eq!(c1.0.load(Ordering::SeqCst), 1);
    assert_eq!(c2.0.load(Ordering::SeqCst), 0);
    assert!(matches!(rx.poll_next(&mut inner, &w1), Poll::Ready(Some(1))));
    assert!(matches!(rx2.poll_next(&mut inner, &w2), Poll::Ready(Some(1))));
}

#[test]
fn closing_wakes_and_still_takes_values() {
    let (mut tx, mut rx, mut inner) = channel::<u32>();
    let (w, c) = counting_waker();
    assert!(matches!(rx.poll_next(&mut inner, &w), Poll::Pending));
    assert!(matches!(tx.poll_ready(&inner), Poll::Ready(Ok(()))));
    tx.close_channel(&mut inner);
    assert_eq!(c.0.load(Ordering::SeqCst), 1);
    assert!(tx.is_closed(&inner));
    match tx.poll_ready(&inner) {
        Poll::Ready(Err(e)) => {
            assert!(e.is_disconnected());
            assert_eq!(e.message(), "send failed because receiver is gone");
        }
        _ => panic!("expected a closed channel"),
    }
    tx.try_send(&mut inner, 4).unwrap();
    assert_eq!(c.0.load(Ordering::SeqCst), 1);
    assert_eq!(rx.try_next(&inner).ok().unwrap(), Some(4));
}

#[test]
fn disconnected_sender_gives_value_back() {
    let (mut tx, _rx, mut inner) = channel::<String>();
    tx.disconnect(&mut inner);
    assert!(tx.is_closed(&inner));
    let e = tx.try_send(&mut inner, "v".to_string()).unwrap_err();
    assert!(e.is_disconnected());
    assert_eq!(e.message(), "send failed because receiver is gone");
    assert_eq!(e.into_inner(), "v");
    assert!(tx.start_send(&mut inner, "w".to_string()).is_err());
    assert_eq!(inner.version(), 0);
}
