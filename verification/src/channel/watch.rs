//! A channel that holds the latest value sent: each receiver sees every
//! value it has not seen yet, or rather the newest of them, once.
//!
//! Values carry a version that counts the sends; a receiver remembers the
//! version it saw last. The shared state is an [`Inner`]; receivers are
//! told apart by an id, under which their waker slot is registered there.
use vstd::prelude::*;
use std::task::Waker;
use crate::Poll;
use crate::channel::registry::{Registry, RegistryView, Slot};

verus! {

/// Why a send failed.
#[derive(Clone, Copy, Debug, PartialEq, Eq, Structural)]
pub enum SendErrorKind {
    Disconnected,
}

/// The error of a send that did not take place.
#[derive(Clone, Copy, Debug, PartialEq, Eq, Structural)]
pub struct SendError {
    kind: SendErrorKind,
}

/// The error of a send that did not take place, with the value that was
/// not sent.
#[derive(Clone, Debug, PartialEq, Eq)]
pub struct TrySendError<T> {
    err: SendError,
    val: T,
}

/// The error of a receive that found nothing new.
#[derive(Debug)]
pub struct TryRecvError {
    _priv: (),
}

impl SendError {
    pub closed spec fn kind(&self) -> SendErrorKind {
        self.kind
    }

    /// A watch channel fails a send only when its sender is gone.
    pub fn is_disconnected(&self) -> (r: bool)
        ensures
            r,
    {
        true
    }

    /// The text that describes this error.
    pub fn message(&self) -> (r: &'static str)
        ensures
            r@ == "send failed because receiver is gone"@,
    {
        "send failed because receiver is gone"
    }
}

impl<T> TrySendError<T> {
    pub closed spec fn val(&self) -> T {
        self.val
    }

    /// A watch channel fails a send only when its sender is gone.
    pub fn is_disconnected(&self) -> (r: bool)
        ensures
            r,
    {
        self.err.is_disconnected()
    }

    /// Returns the value that was attempted to be sent but failed.
    pub fn into_inner(self) -> (r: T)
        ensures
            r == self.val(),
    {
        self.val
    }

    /// Drops the value and converts into a `SendError`.
    pub fn into_send_error(self) -> (r: SendError)
        ensures
            r.kind() == SendErrorKind::Disconnected,
    {
        self.err
    }

    /// The text that describes this error.
    pub fn message(&self) -> (r: &'static str)
        ensures
            r@ == "send failed because receiver is gone"@,
    {
        self.err.message()
    }
}

impl TryRecvError {
    /// The text that describes this error.
    pub fn message(&self) -> (r: &'static str)
        ensures
            r@ == "receiver channel is empty"@,
    {
        "receiver channel is empty"
    }
}

/// A value sent, with the number of sends it closes.
#[derive(Clone, Debug)]
pub struct Value<T> {
    pub version: u32,
    pub value: T,
}

impl<T> Value<T> {
    /// The value that follows `old_value`: version 1 for the first, one
    /// more than the previous one's after that.
    pub fn new(old_value: Option<Value<T>>, value: T) -> (r: Value<T>)
        requires
            old_value matches Some(v) ==> v.version < u32::MAX,
        ensures
            r.value == value,
            r.version == match old_value {
                Some(v) => v.version + 1,
                None => 1,
            },
    {
        let version = match old_value {
            Some(v) => v.version + 1,
            None => 1,
        };
        Value { version, value }
    }
}

/// The state that the sender and the receivers share.
pub struct Inner<T> {
    open: bool,
    message: Option<Value<T>>,
    receivers: Registry,
}

/// What the shared state holds: whether the channel is open, the latest
/// value with its version, and the waker slots of the receivers.
pub ghost struct InnerView<T> {
    pub open: bool,
    pub message: Option<(u32, T)>,
    pub receivers: RegistryView,
}

impl<T> View for Inner<T> {
    type V = InnerView<T>;

    closed spec fn view(&self) -> InnerView<T> {
        InnerView {
            open: self.open,
            message: match self.message {
                Some(v) => Some((v.version, v.value)),
                None => None,
            },
            receivers: self.receivers@,
        }
    }
}

impl<T> InnerView<T> {
    pub open spec fn wf(self) -> bool {
        self.receivers.wf()
    }

    /// The version of the latest value; 0 before any.
    pub open spec fn version(self) -> u32 {
        match self.message {
            Some((v, _)) => v,
            None => 0,
        }
    }

    /// Whether there is a value, of another version than `seen`.
    pub open spec fn fresh_for(self, seen: u32) -> bool {
        self.message is Some && self.version() != seen
    }

    /// The latest value.
    pub open spec fn latest(self) -> T {
        self.message->Some_0.1
    }

    /// Every registered receiver woken.
    pub open spec fn all_woken(self) -> InnerView<T> {
        InnerView { receivers: self.receivers.all_woken(), ..self }
    }
}

/// The sending end; `false` once disconnected.
#[derive(Debug)]
pub struct Sender {
    connected: bool,
}

/// A receiving end: its id, and the version of the value it saw last.
#[derive(Debug)]
pub struct Receiver {
    id: u64,
    version: u32,
}

impl View for Sender {
    /// Whether the sender is still attached.
    type V = bool;

    closed spec fn view(&self) -> bool {
        self.connected
    }
}

impl Receiver {
    pub closed spec fn id(&self) -> u64 {
        self.id
    }

    /// The version of the value this receiver saw last; 0 before any.
    pub closed spec fn version(&self) -> u32 {
        self.version
    }

    /// The receiver and the shared state fit together: the receiver has
    /// seen no version past the channel's latest.
    pub open spec fn linked<T>(&self, inner: &Inner<T>) -> bool {
        self.version() <= inner@.version()
    }
}

/// Creates a watch channel: the sender, a first receiver, and the state
/// they share, with the receiver registered.
pub fn channel<T>() -> (r: (Sender, Receiver, Inner<T>))
    ensures
        r.0@,
        r.1.id() == 0,
        r.1.version() == 0,
        r.2@.open,
        r.2@.message is None,
        r.2@.receivers.slots == seq![Slot::fresh(0)],
        r.2@.receivers.next_id == 1,
        r.2@.wf(),
        r.1.linked(&r.2),
{
    let inner = Inner { open: true, message: None, receivers: Registry::with_first() };
    let rx = Receiver { id: 0, version: 0 };
    (Sender { connected: true }, rx, inner)
}

impl<T> Inner<T> {
    /// The version of the latest value; 0 before any.
    pub fn version(&self) -> (r: u32)
        ensures
            r == self@.version(),
    {
        match &self.message {
            Some(v) => v.version,
            None => 0,
        }
    }

    /// Whether no further receiver can be registered.
    pub fn is_exhausted(&self) -> (r: bool)
        ensures
            r == (self@.receivers.next_id == u64::MAX),
    {
        self.receivers.is_exhausted()
    }

    /// Closes the channel.
    fn set_closed(&mut self)
        ensures
            final(self)@ == (InnerView { open: false, ..old(self)@ }),
    {
        if !self.open {
            return ;
        }
        self.open = false;
    }
}

impl Sender {
    /// Replaces the latest value with `msg`, one version on, and wakes every
    /// registered receiver; a disconnected sender gives `msg` back. A closed
    /// channel still takes the value.
    pub fn try_send<T>(&mut self, inner: &mut Inner<T>, msg: T) -> (r: Result<(), TrySendError<T>>)
        requires
            old(self)@ ==> old(inner)@.version() < u32::MAX,
        ensures
            final(self)@ == old(self)@,
            old(self)@ ==> {
                &&& r is Ok
                &&& final(inner)@ == sent(old(inner)@, msg)
            },
            !old(self)@ ==> {
                &&& r matches Err(e) && e.val() == msg
                &&& final(inner)@ == old(inner)@
            },
    {
        if self.connected {
            let old_v = inner.message.take();
            inner.message = Some(Value::new(old_v, msg));
            inner.receivers.wake_all();
            Ok(())
        } else {
            Err(TrySendError { err: SendError { kind: SendErrorKind::Disconnected }, val: msg })
        }
    }

    /// Sends as [`Sender::try_send`] does, dropping the value on failure.
    pub fn start_send<T>(&mut self, inner: &mut Inner<T>, msg: T) -> (r: Result<(), SendError>)
        requires
            old(self)@ ==> old(inner)@.version() < u32::MAX,
        ensures
            final(self)@ == old(self)@,
            old(self)@ ==> {
                &&& r is Ok
                &&& final(inner)@ == sent(old(inner)@, msg)
            },
            !old(self)@ ==> r is Err && final(inner)@ == old(inner)@,
    {
        match self.try_send(inner, msg) {
            Ok(()) => Ok(()),
            Err(e) => Err(e.into_send_error()),
        }
    }

    /// Whether a value can be sent: the sender is attached and the channel
    /// open.
    pub fn poll_ready<T>(&mut self, inner: &Inner<T>) -> (r: Poll<Result<(), SendError>>)
        ensures
            final(self)@ == old(self)@,
            old(self)@ && inner@.open ==> r == Poll::<Result<(), SendError>>::Ready(Ok(())),
            !(old(self)@ && inner@.open) ==> r matches Poll::Ready(Err(_)),
    {
        if !self.connected || !inner.open {
            return Poll::Ready(Err(SendError { kind: SendErrorKind::Disconnected }));
        }
        Poll::Ready(Ok(()))
    }

    /// Whether the channel is closed, or this sender disconnected.
    pub fn is_closed<T>(&self, inner: &Inner<T>) -> (r: bool)
        ensures
            r == (!self@ || !inner@.open),
    {
        !self.connected || !inner.open
    }

    /// Closes the channel, wakes every registered receiver and forgets them.
    pub fn close_channel<T>(&mut self, inner: &mut Inner<T>)
        ensures
            final(self)@ == old(self)@,
            old(self)@ ==> final(inner)@ == (InnerView {
                open: false,
                receivers: old(inner)@.receivers.cleared(),
                ..old(inner)@
            }),
            !old(self)@ ==> final(inner)@ == old(inner)@,
    {
        if self.connected {
            inner.set_closed();
            inner.receivers.wake_and_clear();
        }
    }

    /// Disconnects the sender, which closes the channel as
    /// [`Sender::close_channel`] does.
    pub fn disconnect<T>(&mut self, inner: &mut Inner<T>)
        ensures
            !final(self)@,
            old(self)@ ==> final(inner)@ == (InnerView {
                open: false,
                receivers: old(inner)@.receivers.cleared(),
                ..old(inner)@
            }),
            !old(self)@ ==> final(inner)@ == old(inner)@,
    {
        self.close_channel(inner);
        self.connected = false;
    }
}

impl Receiver {
    /// A receiver that has seen what this one has, registered under a new
    /// id.
    pub fn duplicate<T>(&self, inner: &mut Inner<T>) -> (r: Receiver)
        requires
            old(inner)@.wf(),
            old(inner)@.receivers.next_id < u64::MAX,
        ensures
            final(inner)@.wf(),
            r.id() == old(inner)@.receivers.next_id,
            r.version() == self.version(),
            self.linked(old(inner)) ==> r.linked(final(inner)) && self.linked(final(inner)),
            final(inner)@ == (InnerView { receivers: old(inner)@.receivers.added(), ..old(inner)@ }),
    {
        let id = inner.receivers.add();
        Receiver { id, version: self.version }
    }

    /// Unregisters this receiver: the sender no longer wakes it.
    pub fn close<T>(&mut self, inner: &mut Inner<T>)
        requires
            old(inner)@.wf(),
        ensures
            final(inner)@.wf(),
            *final(self) == *old(self),
            final(inner)@ == (InnerView {
                receivers: old(inner)@.receivers.without(old(self).id()),
                ..old(inner)@
            }),
            !final(inner)@.receivers.registered(old(self).id()),
    {
        inner.receivers.remove(self.id);
    }

    /// The latest value if this receiver has not seen it yet, which it then
    /// has; else an error.
    pub fn try_next<T: Clone>(&mut self, inner: &Inner<T>) -> (r: Result<Option<T>, TryRecvError>)
        ensures
            final(self).id() == old(self).id(),
            old(self).linked(inner) ==> final(self).linked(inner),
            inner@.fresh_for(old(self).version()) ==> {
                &&& r matches Ok(Some(y)) && cloned(inner@.latest(), y)
                &&& final(self).version() == inner@.version()
            },
            !inner@.fresh_for(old(self).version()) ==> {
                &&& r is Err
                &&& final(self).version() == old(self).version()
            },
    {
        match self.next_message(inner) {
            Poll::Ready(msg) => Ok(msg),
            Poll::Pending => Err(TryRecvError { _priv: () }),
        }
    }

    fn next_message<T: Clone>(&mut self, inner: &Inner<T>) -> (r: Poll<Option<T>>)
        ensures
            final(self).id() == old(self).id(),
            old(self).linked(inner) ==> final(self).linked(inner),
            inner@.fresh_for(old(self).version()) ==> {
                &&& r matches Poll::Ready(Some(y)) && cloned(inner@.latest(), y)
                &&& final(self).version() == inner@.version()
            },
            !inner@.fresh_for(old(self).version()) ==> {
                &&& r is Pending
                &&& final(self).version() == old(self).version()
            },
    {
        match &inner.message {
            Some(msg) => {
                if msg.version != self.version {
                    self.version = msg.version;
                    Poll::Ready(Some(msg.value.clone()))
                } else {
                    Poll::Pending
                }
            },
            None => Poll::Pending,
        }
    }

    /// Polls as [`Receiver::try_next`] does; with nothing new, `waker` is
    /// left in this receiver's slot, if it is registered.
    pub fn poll_next<T: Clone>(&mut self, inner: &mut Inner<T>, waker: &Waker) -> (r: Poll<
        Option<T>,
    >)
        requires
            old(inner)@.wf(),
        ensures
            final(inner)@.wf(),
            final(self).id() == old(self).id(),
            old(self).linked(old(inner)) ==> final(self).linked(final(inner)),
            old(inner)@.fresh_for(old(self).version()) ==> {
                &&& r matches Poll::Ready(Some(y)) && cloned(old(inner)@.latest(), y)
                &&& final(self).version() == old(inner)@.version()
                &&& final(inner)@ == old(inner)@
            },
            !old(inner)@.fresh_for(old(self).version()) ==> {
                &&& r is Pending
                &&& final(self).version() == old(self).version()
                &&& final(inner)@.open == old(inner)@.open
                &&& final(inner)@.message == old(inner)@.message
                &&& final(inner)@.receivers.waker_left(old(inner)@.receivers, old(self).id(), *waker)
            },
    {
        match self.next_message(inner) {
            Poll::Ready(msg) => Poll::Ready(msg),
            Poll::Pending => {
                inner.receivers.register(self.id, waker);
                Poll::Pending
            },
        }
    }
}

/// The state after `msg` was sent: the latest value, one version on, every
/// registered receiver woken.
pub open spec fn sent<T>(v: InnerView<T>, msg: T) -> InnerView<T> {
    (InnerView { message: Some(((v.version() + 1) as u32, msg)), ..v }).all_woken()
}

/// A receiver that has seen the latest value is not given it again, and a
/// send makes the new value fresh for it: the value sent is the one it gets
/// next, however many were sent before it looked.
pub proof fn lemma_latest_once<T>(v: InnerView<T>, msg: T)
    requires
        v.version() < u32::MAX,
    ensures
        !v.fresh_for(v.version()),
        sent(v, msg).fresh_for(v.version()),
        sent(v, msg).latest() == msg,
        sent(v, msg).version() == v.version() + 1,
{
}

/// Two sends in a row leave only the second value, two versions on: a
/// receiver that did not look in between sees the second value only.
pub proof fn lemma_overwrite<T>(v: InnerView<T>, a: T, b: T)
    requires
        v.version() + 2 <= u32::MAX,
    ensures
        sent(sent(v, a), b).latest() == b,
        sent(sent(v, a), b).version() == v.version() + 2,
        sent(sent(v, a), b).fresh_for(v.version()),
{
}

/// Every send is new to every receiver: a receiver that has seen no
/// version past the channel's finds the value sent fresh, and still has
/// seen none past the channel's after it.
pub proof fn lemma_send_is_fresh<T>(v: InnerView<T>, msg: T, seen: u32)
    requires
        seen <= v.version(),
        v.version() < u32::MAX,
    ensures
        sent(v, msg).fresh_for(seen),
        seen <= sent(v, msg).version(),
{
}

} // verus!
