use rmachine::channel::oneshot;
use rmachine::context::{Acceptor, AcceptorFut, Outputer};
use rmachine::{FutNever, Poll};
use std::task::Waker;

#[test]
fn inputs_wait_in_order_for_an_acceptor() {
    let mut a: Acceptor<u32, &str> = Acceptor::new();
    a.handle_input(None, 1);
    a.handle_input(None, 2);
    assert_eq!(a.len(), 2);
    a.reset(None);
    let w = Waker::noop();

    let (tx, mut rx, mut inner) = oneshot::channel::<u32>();
    a.handle_tx(None, tx, &mut inner, "first");
    assert!(matches!(rx.poll(&mut inner, w), Poll::Ready(Ok(1))));
    assert_eq!(a.len(), 1);
    assert!(a.waiting().is_none());

    let (tx, mut rx, mut inner) = oneshot::channel::<u32>();
    a.handle_tx(None, tx, &mut inner, "second");
    assert!(matches!(rx.poll(&mut inner, w), Poll::Ready(Ok(2))));
    assert_eq!(a.len(), 0);

    let (tx, mut rx, mut inner) = oneshot::channel::<u32>();
    a.handle_tx(None, tx, &mut inner, "third");
    assert_eq!(a.waiting(), Some(&"third"));
    assert!(matches!(rx.poll(&mut inner, w), Poll::Pending));
    a.handle_input(Some(&mut inner), 3);
    assert!(a.waiting().is_none());
    assert!(matches!(rx.poll(&mut inner, w), Poll::Ready(Ok(3))));
    assert_eq!(a.len(), 0);
}

#[test]
fn reset_cancels_the_waiting_state_and_keeps_inputs() {
    let mut a: Acceptor<u32, &str> = Acceptor::new();
    let w = Waker::noop();
    let (tx, mut rx, mut inner) = oneshot::channel::<u32>();
    a.handle_tx(None, tx, &mut inner, "s");
    assert_eq!(a.waiting(), Some(&"s"));
    a.reset(Some(&mut inner));
    assert!(a.waiting().is_none());
    assert!(matches!(rx.poll(&mut inner, w), Poll::Ready(Err(oneshot::Canceled))));
    a.handle_input(None, 9);
    a.handle_input(None, 10);
    let (tx, mut rx, mut inner) = oneshot::channel::<u32>();
    a.handle_tx(None, tx, &mut inner, "t");
    assert!(matches!(rx.poll(&mut inner, w), Poll::Ready(Ok(9))));
    assert_eq!(a.len(), 1);
}

#[test]
fn input_refused_by_a_completed_channel_stays_in_line() {
    let mut a: Acceptor<u32, &str> = Acceptor::new();
    let (tx, _rx, mut inner) = oneshot::channel::<u32>();
    a.handle_tx(None, tx, &mut inner, "s");
    // Complete the waiting channel from the side, as if its sender had gone.
    let (spare_tx, _spare_rx, _spare_inner) = oneshot::channel::<u32>();
    spare_tx.dispose(&mut inner);
    a.handle_input(Some(&mut inner), 4);
    assert!(a.waiting().is_none());
    assert_eq!(a.len(), 1);
    let (tx, mut rx, mut inner2) = oneshot::channel::<u32>();
    a.handle_tx(None, tx, &mut inner2, "u");
    assert!(matches!(rx.poll(&mut inner2, Waker::noop()), Poll::Ready(Ok(4))));
}

#[test]
fn outputer_keeps_latest_and_open_listeners() {
    let mut o: Outputer<u32, char> = Outputer::new();
    assert!(o.latest().is_none());
    let all = o.handle_tx('a');
    assert_eq!(all, vec!['a']);
    o.retain_open(all, &vec![false]);
    let all = o.handle_tx('b');
    assert_eq!(all, vec!['a', 'b']);
    o.retain_open(all, &vec![false, false]);
    let all = o.handle_output(7);
    assert_eq!(all, vec!['a', 'b']);
    assert_eq!(o.latest(), Some(&7));
    o.retain_open(all, &vec![true, false]);
    let all = o.handle_output(8);
    assert_eq!(all, vec!['b']);
    o.retain_open(all, &vec![false]);
    assert_eq!(o.latest(), Some(&8));
}

#[test]
fn accept_future_completes_with_the_input() {
    let (tx, rx, mut inner) = oneshot::channel::<u32>();
    let mut fut = AcceptorFut::new(rx);
    let w = Waker::noop();
    assert!(matches!(fut.poll(&mut inner, w), Poll::Pending));
    tx.send(&mut inner, 5).unwrap();
    assert!(matches!(fut.poll(&mut inner, w), Poll::Ready(5)));
}

#[test]
fn accept_future_of_a_reset_acceptor_never_completes() {
    let (tx, rx, mut inner) = oneshot::channel::<u32>();
    let mut fut = AcceptorFut::new(rx);
    let w = Waker::noop();
    tx.dispose(&mut inner);
    assert!(matches!(fut.poll(&mut inner, w), Poll::Pending));
    assert!(matches!(fut.poll(&mut inner, w), Poll::Pending));
}

#[test]
fn fut_never_is_pending() {
    let mut f = FutNever;
    assert!(!f.poll().is_ready());
    rmachine::spawner::wait();
}
