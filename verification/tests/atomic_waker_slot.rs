use rmachine::channel::atomic_waker::AtomicWaker;
use std::sync::atomic::{AtomicUsize, Ordering};
use std::sync::Arc;
use std::task::{Wake, Waker};

struct Counter(AtomicUsize);

impl Wake for Counter {
    fn wake(self: Arc<Self>) {
        self.0.fetch_add(1, Ordering::SeqCst);
    }
}

fn counting_waker() -> (Waker, Arc<Counter>) {
    let c = Arc::new(Counter(AtomicUsize::new(0)));
    (Waker::from(c.clone()), c)
}

#[test]
fn wake_wakes_the_registered_task_once() {
    let mut slot = AtomicWaker::new();
    let (w, c) = counting_waker();
    slot.register(&w);
    slot.wake();
    assert_eq!(c.0.load(Ordering::SeqCst), 1);
    slot.wake();
    assert_eq!(c.0.load(Ordering::SeqCst), 1);
    slot.register(&w);
    slot.wake();
    assert_eq!(c.0.load(Ordering::SeqCst), 2);
}

#[test]
fn take_hands_out_then_wakes_at_once() {
    let mut slot = AtomicWaker::new();
    let (w, c) = counting_waker();
    assert!(slot.take().is_none());
    slot.register(&w);
    slot.wake();
    slot.register(&w);
    let taken = slot.take();
    assert!(taken.is_some());
    assert!(slot.take().is_none());
    slot.register(&w);
    assert_eq!(c.0.load(Ordering::SeqCst), 2);
    taken.unwrap().wake();
    assert_eq!(c.0.load(Ordering::SeqCst), 3);
}
