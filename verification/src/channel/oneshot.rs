//! A channel for a single value. The sender either sends the value or goes
//! away without one; either way the channel is then complete, and its
//! receivers are woken. The first receiver to look after that gets the
//! value; any other finds the channel canceled.
use vstd::prelude::*;
use std::task::Waker;
use crate::Poll;
use crate::channel::registry::{Registry, RegistryView, Slot};

verus! {

/// The error of a receive on a channel that completed without a value for
/// this receiver.
#[derive(Clone, Copy, PartialEq, Eq, Debug, Structural)]
pub struct Canceled;

impl Canceled {
    /// The text that describes this error.
    pub fn message(&self) -> (r: &'static str)
        ensures
            r@ == "oneshot canceled"@,
    {
        "oneshot canceled"
    }
}

/// The state that the sender and the receivers share.
pub struct Inner<T> {
    complete: bool,
    data: Option<T>,
    receivers: Registry,
}

/// What the shared state holds: whether the sender is done, the value sent
/// and not yet received, and the waker slots of the receivers.
pub ghost struct InnerView<T> {
    pub complete: bool,
    pub data: Option<T>,
    pub receivers: RegistryView,
}

impl<T> View for Inner<T> {
    type V = InnerView<T>;

    closed spec fn view(&self) -> InnerView<T> {
        InnerView { complete: self.complete, data: self.data, receivers: self.receivers@ }
    }
}

impl<T> InnerView<T> {
    /// The state is consistent: a value waits only once the sender is done,
    /// and the registry is consistent.
    pub open spec fn wf(self) -> bool {
        &&& !self.complete ==> self.data is None
        &&& self.receivers.wf()
    }

    /// The sender done: the channel complete, every receiver woken and
    /// forgotten.
    pub open spec fn completed(self) -> InnerView<T> {
        InnerView { complete: true, receivers: self.receivers.cleared(), ..self }
    }
}

/// The sending end. It is used up by sending, by giving its value back, or
/// by going away.
#[derive(Debug)]
pub struct Sender {
    _priv: (),
}

/// A receiving end, under its id in the registry.
#[derive(Debug)]
pub struct Receiver {
    id: u64,
}

impl Receiver {
    pub closed spec fn id(&self) -> u64 {
        self.id
    }
}

/// Creates a one-value channel: the sender, a first receiver, and the state
/// they share, with the receiver registered.
pub fn channel<T>() -> (r: (Sender, Receiver, Inner<T>))
    ensures
        r.1.id() == 0,
        !r.2@.complete,
        r.2@.data is None,
        r.2@.receivers.slots == seq![Slot::fresh(0)],
        r.2@.receivers.next_id == 1,
        r.2@.wf(),
{
    let inner = Inner::new();
    let receiver = Receiver { id: 0 };
    (Sender { _priv: () }, receiver, inner)
}

impl<T> Inner<T> {
    fn new() -> (r: Inner<T>)
        ensures
            !r@.complete,
            r@.data is None,
            r@.receivers.slots == seq![Slot::fresh(0)],
            r@.receivers.next_id == 1,
            r@.wf(),
    {
        Inner { complete: false, data: None, receivers: Registry::with_first() }
    }

    /// Whether no further receiver can be registered.
    pub fn is_exhausted(&self) -> (r: bool)
        ensures
            r == (self@.receivers.next_id == u64::MAX),
    {
        self.receivers.is_exhausted()
    }

    /// Stores `t` unless the channel is complete.
    fn send(&mut self, t: T) -> (r: Result<(), T>)
        requires
            old(self)@.wf(),
        ensures
            old(self)@.complete ==> r == Err::<(), T>(t) && final(self)@ == old(self)@,
            !old(self)@.complete ==> r is Ok && final(self)@ == (InnerView {
                data: Some(t),
                ..old(self)@
            }),
    {
        if self.complete {
            return Err(t);
        }
        self.data = Some(t);
        Ok(())
    }

    /// The sender is gone: the channel is complete, and every receiver is
    /// woken and forgotten.
    fn drop_tx(&mut self)
        ensures
            final(self)@ == old(self)@.completed(),
    {
        self.complete = true;
        self.receivers.wake_and_clear();
    }

    /// Once complete, the value if it is still there, else `Canceled`;
    /// before that, nothing yet.
    fn recv(&mut self) -> (r: Poll<Result<T, Canceled>>)
        ensures
            old(self)@.complete && old(self)@.data is Some ==> {
                &&& r == Poll::Ready(Ok::<T, Canceled>(old(self)@.data->0))
                &&& final(self)@ == (InnerView { data: None, ..old(self)@ })
            },
            old(self)@.complete && old(self)@.data is None ==> {
                &&& r == Poll::Ready(Err::<T, Canceled>(Canceled))
                &&& final(self)@ == old(self)@
            },
            !old(self)@.complete ==> r is Pending && final(self)@ == old(self)@,
    {
        if self.complete {
            if let Some(data) = self.data.take() {
                return Poll::Ready(Ok(data));
            }
            Poll::Ready(Err(Canceled))
        } else {
            Poll::Pending
        }
    }
}

impl Sender {
    /// Sends `t` and completes the channel, waking every receiver; on a
    /// channel already complete, `t` comes back.
    pub fn send<T>(self, inner: &mut Inner<T>, t: T) -> (r: Result<(), T>)
        requires
            old(inner)@.wf(),
        ensures
            final(inner)@.wf(),
            old(inner)@.complete ==> r == Err::<(), T>(t) && final(inner)@
                == old(inner)@.completed(),
            !old(inner)@.complete ==> r is Ok && final(inner)@ == (InnerView {
                data: Some(t),
                ..old(inner)@
            }).completed(),
    {
        let r = inner.send(t);
        self.dispose(inner);
        r
    }

    /// Whether the receivers stopped waiting: always ready, since the
    /// sender is never told.
    pub fn poll_canceled<T>(&mut self, inner: &Inner<T>) -> (r: Poll<()>)
        ensures
            r == Poll::Ready(()),
    {
        Poll::Ready(())
    }

    /// Whether the channel is complete.
    pub fn is_canceled<T>(&self, inner: &Inner<T>) -> (r: bool)
        ensures
            r == inner@.complete,
    {
        inner.complete
    }

    /// Takes back the value that waits in the channel, if any, and
    /// completes the channel as going away does.
    pub fn value<T>(self, inner: &mut Inner<T>) -> (r: Option<T>)
        requires
            old(inner)@.wf(),
        ensures
            final(inner)@.wf(),
            r == old(inner)@.data,
            final(inner)@ == (InnerView { data: None, ..old(inner)@ }).completed(),
    {
        let v = inner.data.take();
        self.dispose(inner);
        v
    }

    /// What dropping the sender does: completes the channel and wakes every
    /// receiver.
    pub fn dispose<T>(self, inner: &mut Inner<T>)
        requires
            old(inner)@.receivers.wf(),
        ensures
            final(inner)@ == old(inner)@.completed(),
            final(inner)@.receivers.wf(),
    {
        inner.drop_tx();
    }
}

impl Receiver {
    /// Unregisters this receiver: the sender no longer wakes it.
    pub fn close<T>(&mut self, inner: &mut Inner<T>)
        requires
            old(inner)@.wf(),
        ensures
            final(inner)@.wf(),
            *final(self) == *old(self),
            final(inner)@ == (InnerView {
                receivers: old(inner)@.receivers.without(old(self).id()),
                ..old(inner)@
            }),
            !final(inner)@.receivers.registered(old(self).id()),
    {
        inner.receivers.remove(self.id);
    }

    /// Once the channel is complete, the value if no receiver took it yet,
    /// else `Canceled`; before that nothing yet, and `waker` is left in this
    /// receiver's slot, if it is registered.
    pub fn poll<T>(&mut self, inner: &mut Inner<T>, waker: &Waker) -> (r: Poll<Result<T, Canceled>>)
        requires
            old(inner)@.wf(),
        ensures
            final(inner)@.wf(),
            *final(self) == *old(self),
            old(inner)@.complete && old(inner)@.data is Some ==> {
                &&& r == Poll::Ready(Ok::<T, Canceled>(old(inner)@.data->0))
                &&& final(inner)@ == (InnerView { data: None, ..old(inner)@ })
            },
            old(inner)@.complete && old(inner)@.data is None ==> {
                &&& r == Poll::Ready(Err::<T, Canceled>(Canceled))
                &&& final(inner)@ == old(inner)@
            },
            !old(inner)@.complete ==> {
                &&& r is Pending
                &&& final(inner)@.complete == old(inner)@.complete
                &&& final(inner)@.data == old(inner)@.data
                &&& final(inner)@.receivers.waker_left(old(inner)@.receivers, old(self).id(), *waker)
            },
    {
        match inner.recv() {
            Poll::Ready(msg) => Poll::Ready(msg),
            Poll::Pending => {
                inner.receivers.register(self.id, waker);
                Poll::Pending
            },
        }
    }

    /// Another receiver of the same channel, registered under a new id.
    pub fn duplicate<T>(&self, inner: &mut Inner<T>) -> (r: Receiver)
        requires
            old(inner)@.wf(),
            old(inner)@.receivers.next_id < u64::MAX,
        ensures
            final(inner)@.wf(),
            r.id() == old(inner)@.receivers.next_id,
            final(inner)@ == (InnerView { receivers: old(inner)@.receivers.added(), ..old(inner)@ }),
    {
        let id = inner.receivers.add();
        Receiver { id }
    }

    /// What dropping a receiver does: it unregisters, as
    /// [`Receiver::close`] does.
    pub fn dispose<T>(&mut self, inner: &mut Inner<T>)
        requires
            old(inner)@.wf(),
        ensures
            final(inner)@.wf(),
            final(inner)@ == (InnerView {
                receivers: old(inner)@.receivers.without(old(self).id()),
                ..old(inner)@
            }),
    {
        self.close(inner);
    }
}

/// The state after a value was taken: nothing waits any more.
pub open spec fn taken<T>(v: InnerView<T>) -> InnerView<T> {
    InnerView { data: None, ..v }
}

/// A value sent is received once: after the send the channel is complete
/// and holds the value, which the first receiver to look takes; after that
/// the channel is complete and empty, so every later look finds it
/// canceled. A sender that goes without sending leaves it canceled at once.
pub proof fn lemma_received_once<T>(v: InnerView<T>, t: T)
    requires
        v.wf(),
        !v.complete,
    ensures
        (InnerView { data: Some(t), ..v }).completed().complete,
        (InnerView { data: Some(t), ..v }).completed().data == Some(t),
        taken((InnerView { data: Some(t), ..v }).completed()).complete,
        taken((InnerView { data: Some(t), ..v }).completed()).data is None,
        v.completed().complete && v.completed().data is None,
        v.completed().receivers.slots.len() == 0,
{
}

} // verus!
