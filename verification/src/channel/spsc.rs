//! A channel from one sender to one receiver, bounded or unbounded.
//!
//! The state that both ends share is an [`Inner`]; each end keeps its own
//! small state in a [`Sender`], [`UnboundedSender`], [`Receiver`] or
//! [`UnboundedReceiver`]. Every operation of an end takes the shared state
//! it works on, so the runtime decides how the two ends reach it.
//!
//! A bounded channel made with buffer `b` accepts messages while it holds at
//! most `b` of them; the message that makes `b + 1` parks the sender, which
//! gets no further slot until the receiver takes a message out.
use vstd::prelude::*;
use std::collections::VecDeque;
use std::task::Waker;
use crate::Poll;
use crate::channel::atomic_waker::{with_wake, AtomicWaker, WakerState};
use crate::waker::{clone_waker, wake};

verus! {

/// The largest buffer a bounded channel accepts, plus one: the capacity that
/// a channel can count is `usize::MAX >> 1`, and each buffer must stay below
/// half of it, which is `usize::MAX >> 2`.
pub const MAX_BUFFER: usize = usize::MAX / 4;

/// Why a send failed.
#[derive(Clone, Copy, Debug, PartialEq, Eq, Structural)]
pub enum SendErrorKind {
    Full,
    Disconnected,
}

/// The error of a send that did not take place.
#[derive(Clone, Copy, Debug, PartialEq, Eq, Structural)]
pub struct SendError {
    kind: SendErrorKind,
}

/// The error of a send that did not take place, with the message that was
/// not sent.
#[derive(Clone, Debug, PartialEq, Eq)]
pub struct TrySendError<T> {
    err: SendError,
    val: T,
}

/// The error of a receive that found the channel empty but open.
#[derive(Debug)]
pub struct TryRecvError {
    _priv: (),
}

impl SendError {
    pub closed spec fn kind(&self) -> SendErrorKind {
        self.kind
    }

    /// Returns true if this error is a result of the channel being full.
    pub fn is_full(&self) -> (r: bool)
        ensures
            r == (self.kind() == SendErrorKind::Full),
    {
        match self.kind {
            SendErrorKind::Full => true,
            _ => false,
        }
    }

    /// Returns true if this error is a result of the receiver being dropped.
    pub fn is_disconnected(&self) -> (r: bool)
        ensures
            r == (self.kind() == SendErrorKind::Disconnected),
    {
        match self.kind {
            SendErrorKind::Disconnected => true,
            _ => false,
        }
    }

    /// The text that describes this error.
    pub fn message(&self) -> (r: &'static str)
        ensures
            self.kind() == SendErrorKind::Full ==> r@ == "send failed because channel is full"@,
            self.kind() == SendErrorKind::Disconnected ==> r@
                == "send failed because receiver is gone"@,
    {
        if self.is_full() {
            "send failed because channel is full"
        } else {
            "send failed because receiver is gone"
        }
    }
}

impl<T> TrySendError<T> {
    pub closed spec fn kind(&self) -> SendErrorKind {
        self.err.kind
    }

    pub closed spec fn val(&self) -> T {
        self.val
    }

    fn new(kind: SendErrorKind, val: T) -> (r: TrySendError<T>)
        ensures
            r.kind() == kind,
            r.val() == val,
    {
        TrySendError { err: SendError { kind }, val }
    }

    /// Returns true if this error is a result of the channel being full.
    pub fn is_full(&self) -> (r: bool)
        ensures
            r == (self.kind() == SendErrorKind::Full),
    {
        self.err.is_full()
    }

    /// Returns true if this error is a result of the receiver being dropped.
    pub fn is_disconnected(&self) -> (r: bool)
        ensures
            r == (self.kind() == SendErrorKind::Disconnected),
    {
        self.err.is_disconnected()
    }

    /// Returns the message that was attempted to be sent but failed.
    pub fn into_inner(self) -> (r: T)
        ensures
            r == self.val(),
    {
        self.val
    }

    /// Drops the message and converts into a `SendError`.
    pub fn into_send_error(self) -> (r: SendError)
        ensures
            r.kind() == self.kind(),
    {
        self.err
    }

    /// The text that describes this error.
    pub fn message(&self) -> (r: &'static str)
        ensures
            self.kind() == SendErrorKind::Full ==> r@ == "send failed because channel is full"@,
            self.kind() == SendErrorKind::Disconnected ==> r@
                == "send failed because receiver is gone"@,
    {
        self.err.message()
    }
}

impl TryRecvError {
    /// The text that describes this error.
    pub fn message(&self) -> (r: &'static str)
        ensures
            r@ == "receiver channel is empty"@,
    {
        "receiver channel is empty"
    }
}

/// Whether the channel is open, and how many messages it counts; closing
/// keeps the count.
#[derive(Debug)]
enum InnerState {
    Init(usize),
    Closed(usize),
}

/// The sender's parking slot: the handle of a parked sender, with the
/// waker it was made from, and, as a record for the proofs, every waker of
/// the sender it has woken.
struct SenderTask {
    task: Option<(Waker, Ghost<Waker>)>,
    is_parked: bool,
    woken: Ghost<Seq<Waker>>,
}

impl SenderTask {
    /// The stored handle, if any.
    spec fn handle(self) -> Option<Waker> {
        match self.task {
            Some(p) => Some(p.0),
            None => None,
        }
    }

    /// The waker that the stored handle was made from, if one is stored.
    spec fn source(self) -> Option<Waker> {
        match self.task {
            Some(p) => Some(p.1@),
            None => None,
        }
    }

    fn new() -> (r: SenderTask)
        ensures
            r.task is None,
            !r.is_parked,
            r.woken@ == Seq::<Waker>::empty(),
    {
        SenderTask { task: None, is_parked: false, woken: Ghost(Seq::empty()) }
    }

    /// Unparks the sender and wakes it if it waits.
    fn notify(&mut self)
        ensures
            final(self).task is None,
            !final(self).is_parked,
            final(self).woken@ == with_wake(old(self).woken@, old(self).handle()),
    {
        self.is_parked = false;
        if let Some((task, _)) = self.task.take() {
            let ghost woken_now = task;
            wake(task);
            self.woken = Ghost(self.woken@.push(woken_now));
        }
    }
}

/// The state that the two ends of a channel share.
pub struct Inner<T> {
    buffer: Option<usize>,
    state: InnerState,
    message_queue: VecDeque<T>,
    sender_task: SenderTask,
    num_senders: usize,
    recv_task: AtomicWaker,
}

/// What the shared state holds: the buffer of a bounded channel; whether
/// the channel is open; how many messages it counts; the messages, oldest
/// first; whether the sender is parked, the handle it left and the waker
/// that handle was made from; how many senders are attached; the receiver's waker
/// slot, with the waker its stored handle was made from; and the wakers
/// woken so far, of the receiver and of the sender, each oldest first.
pub ghost struct InnerView<T> {
    pub buffer: Option<usize>,
    pub open: bool,
    pub count: usize,
    pub queue: Seq<T>,
    pub parked: bool,
    pub sender_task: Option<Waker>,
    pub sender_source: Option<Waker>,
    pub senders: usize,
    pub recv_state: WakerState,
    pub recv_waker: Option<Waker>,
    pub recv_source: Option<Waker>,
    pub recv_wakes: Seq<Waker>,
    pub sender_wakes: Seq<Waker>,
}

impl<T> InnerView<T> {
    /// The state is consistent: the count is the number of queued
    /// messages; a sender leaves a waker only while parked; a bounded
    /// channel holds at most one message more than its buffer, its sender
    /// is parked exactly when it holds that many (while open), and only
    /// then; the sender of an unbounded channel never parks.
    pub open spec fn wf(self) -> bool {
        &&& self.count == self.queue.len()
        &&& self.sender_task is Some ==> self.parked
        &&& match self.buffer {
            Some(b) => {
                &&& b < MAX_BUFFER
                &&& self.count <= b + 1
                &&& self.open && self.count == b + 1 ==> self.parked
                &&& self.parked ==> self.count == b + 1
            },
            None => !self.parked,
        }
    }

    /// The receiver's slot after a wake-up: the waker it held is woken.
    pub open spec fn recv_woken(self) -> InnerView<T> {
        if self.recv_state == WakerState::Waiting {
            InnerView {
                recv_waker: None,
                recv_source: None,
                recv_wakes: with_wake(self.recv_wakes, self.recv_waker),
                ..self
            }
        } else {
            InnerView { recv_state: WakerState::Waiting, ..self }
        }
    }

    /// The sender unparked, the waker it left woken.
    pub open spec fn notified(self) -> InnerView<T> {
        InnerView {
            parked: false,
            sender_task: None,
            sender_source: None,
            sender_wakes: with_wake(self.sender_wakes, self.sender_task),
            ..self
        }
    }

    /// The channel closed: it keeps its messages and their count.
    pub open spec fn closed(self) -> InnerView<T> {
        InnerView { open: false, ..self }
    }

    /// Whether the message that the channel is about to count parks the
    /// sender: it is the one past the buffer of a bounded channel.
    pub open spec fn parks_next(self) -> bool {
        match self.buffer {
            Some(b) => self.count + 1 > b,
            None => false,
        }
    }

    /// The state after `msg` was accepted: counted, queued last, the
    /// sender parked if it went past the buffer, the receiver woken.
    pub open spec fn pushed(self, msg: T) -> InnerView<T> {
        let counted = InnerView {
            count: (self.count + 1) as usize,
            queue: self.queue.push(msg),
            ..self
        };
        let parked = if self.parks_next() {
            InnerView { parked: true, sender_task: None, sender_source: None, ..counted }
        } else {
            counted
        };
        parked.recv_woken()
    }

    /// The state after the oldest message was taken out: the sender
    /// unparked, the message uncounted.
    pub open spec fn popped(self) -> InnerView<T> {
        let taken = InnerView {
            queue: self.queue.drop_first(),
            count: (self.count - 1) as usize,
            ..self
        };
        taken.notified()
    }
}

/// The state of a channel just made: open, empty, one sender attached and
/// not parked, no waker left.
pub open spec fn fresh<T>(buffer: Option<usize>) -> InnerView<T> {
    InnerView {
        buffer,
        open: true,
        count: 0,
        queue: Seq::empty(),
        parked: false,
        sender_task: None,
        sender_source: None,
        senders: 1,
        recv_state: WakerState::Waiting,
        recv_waker: None,
        recv_source: None,
        recv_wakes: Seq::empty(),
        sender_wakes: Seq::empty(),
    }
}

impl<T> View for Inner<T> {
    type V = InnerView<T>;

    closed spec fn view(&self) -> InnerView<T> {
        InnerView {
            buffer: self.buffer,
            open: self.state is Init,
            count: match self.state {
                InnerState::Init(m) => m,
                InnerState::Closed(m) => m,
            },
            queue: self.message_queue@,
            parked: self.sender_task.is_parked,
            sender_task: self.sender_task.handle(),
            sender_source: self.sender_task.source(),
            senders: self.num_senders,
            recv_state: self.recv_task.spec_state(),
            recv_waker: self.recv_task.spec_waker(),
            recv_source: self.recv_task.spec_source(),
            recv_wakes: self.recv_task.spec_woken(),
            sender_wakes: self.sender_task.woken@,
        }
    }
}

impl<T> Inner<T> {
    fn new(buffer: Option<usize>) -> (r: Inner<T>)
        ensures
            r@ == fresh::<T>(buffer),
    {
        Inner {
            buffer,
            state: InnerState::Init(0),
            message_queue: VecDeque::new(),
            sender_task: SenderTask::new(),
            num_senders: 1,
            recv_task: AtomicWaker::new(),
        }
    }

    /// Whether the channel is open.
    pub fn is_open(&self) -> (r: bool)
        ensures
            r == self@.open,
    {
        match self.state {
            InnerState::Init(_) => true,
            InnerState::Closed(_) => false,
        }
    }

    /// How many messages the channel counts.
    pub fn num_messages(&self) -> (r: usize)
        ensures
            r == self@.count,
    {
        match self.state {
            InnerState::Init(m) => m,
            InnerState::Closed(m) => m,
        }
    }

    /// How many senders are attached.
    pub fn num_senders(&self) -> (r: usize)
        ensures
            r == self@.senders,
    {
        self.num_senders
    }

    /// Counts one more message while open, and gives the new count.
    fn inc_num_messages(&mut self) -> (r: Option<usize>)
        requires
            old(self)@.open ==> old(self)@.count < usize::MAX,
        ensures
            old(self)@.open ==> r == Some((old(self)@.count + 1) as usize) && final(self)@ == (
            InnerView { count: (old(self)@.count + 1) as usize, ..old(self)@ }),
            !old(self)@.open ==> r is None && final(self)@ == old(self)@,
    {
        match self.state {
            InnerState::Init(m) => {
                self.state = InnerState::Init(m + 1);
                Some(m + 1)
            },
            InnerState::Closed(_) => None,
        }
    }

    /// Counts one message less, open or closed.
    fn dec_num_messages(&mut self)
        requires
            old(self)@.count > 0,
        ensures
            final(self)@ == (InnerView { count: (old(self)@.count - 1) as usize, ..old(self)@ }),
    {
        match self.state {
            InnerState::Init(m) => {
                self.state = InnerState::Init(m - 1);
            },
            InnerState::Closed(m) => {
                self.state = InnerState::Closed(m - 1);
            },
        }
    }

    /// Closes the channel, keeping the count; the messages stay for the
    /// receiver to drain.
    fn set_closed(&mut self)
        ensures
            final(self)@ == old(self)@.closed(),
    {
        if !self.is_open() {
            return ;
        }
        self.state = InnerState::Closed(self.num_messages());
    }

    fn wake_receiver(&mut self)
        ensures
            final(self)@ == old(self)@.recv_woken(),
    {
        self.recv_task.wake();
    }

    fn notify_sender(&mut self)
        ensures
            final(self)@ == old(self)@.notified(),
    {
        self.sender_task.notify();
    }

    /// Queues `msg` last and wakes the receiver.
    fn queue_push_and_signal(&mut self, msg: T)
        ensures
            final(self)@ == (InnerView { queue: old(self)@.queue.push(msg), ..old(self)@ }).recv_woken(),
    {
        self.message_queue.push_back(msg);
        self.wake_receiver();
    }

    /// Parks the sender: its old waker is dropped.
    fn park(&mut self)
        ensures
            final(self)@ == (InnerView {
                parked: true,
                sender_task: None,
                sender_source: None,
                ..old(self)@
            }),
    {
        self.sender_task.task = None;
        self.sender_task.is_parked = true;
    }
}

/// The sending end's own state: whether a send of its may have parked it.
#[derive(Debug)]
struct SenderInner {
    maybe_parked: bool,
}

/// The sending end of a bounded channel; `None` once disconnected.
#[derive(Debug)]
pub struct Sender(Option<SenderInner>);

/// The sending end of an unbounded channel; `None` once disconnected.
#[derive(Debug)]
pub struct UnboundedSender(Option<SenderInner>);

/// The receiving end of a bounded channel: whether it may still yield
/// messages.
#[derive(Debug)]
pub struct Receiver {
    live: bool,
}

/// The receiving end of an unbounded channel.
#[derive(Debug)]
pub struct UnboundedReceiver(Receiver);

/// Creates a bounded channel: the sending end, the receiving end, and the
/// state they share. A buffer of `MAX_BUFFER` or more is refused.
pub fn channel<T>(buffer: usize) -> (r: (Sender, Receiver, Inner<T>))
    requires
        buffer < MAX_BUFFER,
    ensures
        r.0@ == Some(false),
        r.1@,
        r.2@ == fresh::<T>(Some(buffer)),
        r.0.linked(&r.2),
        r.1.linked(&r.2),
{
    let (tx, rx, inner) = channel2(Some(buffer));
    (Sender(Some(tx)), rx, inner)
}

/// Creates an unbounded channel: the sending end, the receiving end, and the
/// state they share.
pub fn unbounded<T>() -> (r: (UnboundedSender, UnboundedReceiver, Inner<T>))
    ensures
        r.0@ == Some(false),
        r.1@,
        r.2@ == fresh::<T>(None),
        r.0.linked(&r.2),
        r.1.linked(&r.2),
{
    let (tx, rx, inner) = channel2(None);
    (UnboundedSender(Some(tx)), UnboundedReceiver(rx), inner)
}

fn channel2<T>(buffer: Option<usize>) -> (r: (SenderInner, Receiver, Inner<T>))
    ensures
        !r.0.maybe_parked,
        r.1@,
        r.2@ == fresh::<T>(buffer),
{
    let inner = Inner::new(buffer);
    let tx = SenderInner { maybe_parked: false };
    let rx = Receiver { live: true };
    (tx, rx, inner)
}

impl View for Sender {
    /// `None` once disconnected; else whether the sender may be parked.
    type V = Option<bool>;

    closed spec fn view(&self) -> Option<bool> {
        match self.0 {
            Some(s) => Some(s.maybe_parked),
            None => None,
        }
    }
}

impl View for UnboundedSender {
    /// `None` once disconnected; else whether the sender may be parked.
    type V = Option<bool>;

    closed spec fn view(&self) -> Option<bool> {
        match self.0 {
            Some(s) => Some(s.maybe_parked),
            None => None,
        }
    }
}

impl View for Receiver {
    /// Whether the receiver may still yield messages.
    type V = bool;

    closed spec fn view(&self) -> bool {
        self.live
    }
}

impl View for UnboundedReceiver {
    /// Whether the receiver may still yield messages.
    type V = bool;

    closed spec fn view(&self) -> bool {
        self.0.live
    }
}

impl SenderInner {
    /// Whether the sender may go on: not parked, or unparked by the
    /// receiver since. While parked, the waker given is left to be woken
    /// (none given drops the one left before).
    fn poll_unparked<T>(&mut self, inner: &mut Inner<T>, waker: Option<&Waker>) -> (r: Poll<()>)
        ensures
            (old(self).maybe_parked && old(inner)@.parked) ==> {
                &&& r is Pending
                &&& final(self).maybe_parked
                &&& waker is None ==> final(inner)@ == (InnerView {
                    sender_task: None,
                    sender_source: None,
                    ..old(inner)@
                })
                &&& waker is Some ==> final(inner)@ == (InnerView {
                    sender_task: final(inner)@.sender_task,
                    sender_source: final(inner)@.sender_source,
                    ..old(inner)@
                }) && final(inner)@.sender_task is Some
                    && final(inner)@.sender_source == Some(*waker->0)
            },
            !(old(self).maybe_parked && old(inner)@.parked) ==> {
                &&& r is Ready
                &&& !final(self).maybe_parked
                &&& final(inner)@ == old(inner)@
            },
    {
        if self.maybe_parked {
            if !inner.sender_task.is_parked {
                self.maybe_parked = false;
                return Poll::Ready(());
            }
            inner.sender_task.task = match waker {
                Some(w) => Some((clone_waker(w), Ghost(*w))),
                None => None,
            };
            Poll::Pending
        } else {
            Poll::Ready(())
        }
    }

    /// Counts and queues `msg`, parking the sender when it goes past the
    /// buffer; refused once the channel is closed.
    fn do_send_b<T>(&mut self, inner: &mut Inner<T>, msg: T) -> (r: Result<(), TrySendError<T>>)
        requires
            old(inner)@.wf(),
            old(inner)@.buffer is Some,
            old(inner)@.open && old(inner)@.count == old(inner)@.buffer->0 + 1 ==> false,
        ensures
            final(inner)@.wf(),
            old(inner)@.open ==> {
                &&& r is Ok
                &&& final(inner)@ == old(inner)@.pushed(msg)
                &&& final(self).maybe_parked == (old(self).maybe_parked || old(inner)@.parks_next())
            },
            !old(inner)@.open ==> {
                &&& r matches Err(e) && e.kind() == SendErrorKind::Disconnected && e.val() == msg
                &&& final(inner)@ == old(inner)@
                &&& final(self).maybe_parked == old(self).maybe_parked
            },
    {
        let ghost v = inner@;
        let park_self = match inner.inc_num_messages() {
            Some(num_messages) => num_messages > unwrap_buffer(inner.buffer),
            None => {
                return Err(TrySendError::new(SendErrorKind::Disconnected, msg));
            },
        };
        if park_self {
            inner.park();
            self.maybe_parked = true;
        }
        inner.queue_push_and_signal(msg);
        assert(inner@ == v.pushed(msg));
        Ok(())
    }

    /// Whether the channel still takes messages, for a sender that never
    /// parks.
    fn poll_ready_nb<T>(&self, inner: &Inner<T>) -> (r: Poll<Result<(), SendError>>)
        ensures
            inner@.open ==> r == Poll::<Result<(), SendError>>::Ready(Ok(())),
            !inner@.open ==> (r matches Poll::Ready(Err(e)) && e.kind()
                == SendErrorKind::Disconnected),
    {
        if inner.is_open() {
            Poll::Ready(Ok(()))
        } else {
            Poll::Ready(Err(SendError { kind: SendErrorKind::Disconnected }))
        }
    }

    /// Closes the channel and wakes the receiver.
    fn close_channel<T>(&self, inner: &mut Inner<T>)
        ensures
            final(inner)@ == old(inner)@.closed().recv_woken(),
    {
        inner.set_closed();
        inner.wake_receiver();
    }

    /// Detaches this sender; the last one to go closes the channel.
    fn release<T>(self, inner: &mut Inner<T>)
        requires
            old(inner)@.senders >= 1,
        ensures
            old(inner)@.senders == 1 ==> final(inner)@ == (InnerView {
                senders: 0,
                ..old(inner)@
            }).closed().recv_woken(),
            old(inner)@.senders > 1 ==> final(inner)@ == (InnerView {
                senders: (old(inner)@.senders - 1) as usize,
                ..old(inner)@
            }),
    {
        let prev = inner.num_senders;
        inner.num_senders = prev - 1;
        if prev == 1 {
            self.close_channel(inner);
        }
    }
}

fn unwrap_buffer(buffer: Option<usize>) -> (r: usize)
    requires
        buffer is Some,
    ensures
        r == buffer->0,
{
    match buffer {
        Some(b) => b,
        None => 0,
    }
}

impl Sender {
    /// The sender and the shared state fit together: the state is
    /// consistent, a parked sender knows it may be parked, and an attached
    /// sender is counted.
    pub open spec fn linked<T>(&self, inner: &Inner<T>) -> bool {
        &&& inner@.wf()
        &&& inner@.buffer is Some
        &&& self@ matches Some(maybe_parked) ==> {
            &&& inner@.parked ==> maybe_parked
            &&& inner@.senders >= 1
        }
    }

    /// Whether the sender is still attached to its channel.
    pub fn is_connected(&self) -> (r: bool)
        ensures
            r == self@ is Some,
    {
        self.0.is_some()
    }

    /// Sends `msg` if the sender is attached, not parked and the channel
    /// open; else gives `msg` back with the reason. A parked sender drops
    /// the waker it left.
    pub fn try_send<T>(&mut self, inner: &mut Inner<T>, msg: T) -> (r: Result<(), TrySendError<T>>)
        requires
            old(self).linked(old(inner)),
        ensures
            final(self).linked(final(inner)),
            old(self)@ is None ==> {
                &&& r matches Err(e) && e.kind() == SendErrorKind::Disconnected && e.val() == msg
                &&& final(self)@ == old(self)@
                &&& final(inner)@ == old(inner)@
            },
            old(self)@ == Some(true) && old(inner)@.parked ==> {
                &&& r matches Err(e) && e.kind() == SendErrorKind::Full && e.val() == msg
                &&& final(self)@ == old(self)@
                &&& final(inner)@ == (InnerView {
                    sender_task: None,
                    sender_source: None,
                    ..old(inner)@
                })
            },
            old(self)@ is Some && !(old(self)@ == Some(true) && old(inner)@.parked)
                && !old(inner)@.open ==> {
                &&& r matches Err(e) && e.kind() == SendErrorKind::Disconnected && e.val() == msg
                &&& final(self)@ == Some(false)
                &&& final(inner)@ == old(inner)@
            },
            old(self)@ is Some && !(old(self)@ == Some(true) && old(inner)@.parked)
                && old(inner)@.open ==> {
                &&& r is Ok
                &&& final(self)@ == Some(old(inner)@.parks_next())
                &&& final(inner)@ == old(inner)@.pushed(msg)
            },
    {
        match &mut self.0 {
            Some(s) => {
                if !s.poll_unparked(inner, None).is_ready() {
                    return Err(TrySendError::new(SendErrorKind::Full, msg));
                }
                s.do_send_b(inner, msg)
            },
            None => Err(TrySendError::new(SendErrorKind::Disconnected, msg)),
        }
    }

    /// Sends `msg` as [`Sender::try_send`] does, dropping it on failure.
    pub fn start_send<T>(&mut self, inner: &mut Inner<T>, msg: T) -> (r: Result<(), SendError>)
        requires
            old(self).linked(old(inner)),
        ensures
            final(self).linked(final(inner)),
            old(self)@ is None ==> {
                &&& r matches Err(e) && e.kind() == SendErrorKind::Disconnected
                &&& final(self)@ == old(self)@
                &&& final(inner)@ == old(inner)@
            },
            old(self)@ == Some(true) && old(inner)@.parked ==> {
                &&& r matches Err(e) && e.kind() == SendErrorKind::Full
                &&& final(self)@ == old(self)@
                &&& final(inner)@ == (InnerView {
                    sender_task: None,
                    sender_source: None,
                    ..old(inner)@
                })
            },
            old(self)@ is Some && !(old(self)@ == Some(true) && old(inner)@.parked)
                && !old(inner)@.open ==> {
                &&& r matches Err(e) && e.kind() == SendErrorKind::Disconnected
                &&& final(self)@ == Some(false)
                &&& final(inner)@ == old(inner)@
            },
            old(self)@ is Some && !(old(self)@ == Some(true) && old(inner)@.parked)
                && old(inner)@.open ==> {
                &&& r is Ok
                &&& final(self)@ == Some(old(inner)@.parks_next())
                &&& final(inner)@ == old(inner)@.pushed(msg)
            },
    {
        match self.try_send(inner, msg) {
            Ok(()) => Ok(()),
            Err(e) => Err(e.into_send_error()),
        }
    }

    /// Whether a message can be sent now. A parked sender leaves `waker`
    /// to be woken when the receiver takes a message.
    pub fn poll_ready<T>(&mut self, inner: &mut Inner<T>, waker: &Waker) -> (r: Poll<
        Result<(), SendError>,
    >)
        requires
            old(self).linked(old(inner)),
        ensures
            final(self).linked(final(inner)),
            old(self)@ is None || !old(inner)@.open ==> {
                &&& r matches Poll::Ready(Err(e)) && e.kind() == SendErrorKind::Disconnected
                &&& final(self)@ == old(self)@
                &&& final(inner)@ == old(inner)@
            },
            old(self)@ == Some(true) && old(inner)@.parked && old(inner)@.open ==> {
                &&& r is Pending
                &&& final(self)@ == old(self)@
                &&& final(inner)@.sender_task is Some
                &&& final(inner)@.sender_source == Some(*waker)
                &&& final(inner)@ == (InnerView {
                    sender_task: final(inner)@.sender_task,
                    sender_source: final(inner)@.sender_source,
                    ..old(inner)@
                })
            },
            old(self)@ is Some && !(old(self)@ == Some(true) && old(inner)@.parked)
                && old(inner)@.open ==> {
                &&& r == Poll::<Result<(), SendError>>::Ready(Ok(()))
                &&& final(self)@ == Some(false)
                &&& final(inner)@ == old(inner)@
            },
    {
        match &mut self.0 {
            Some(s) => {
                if !inner.is_open() {
                    return Poll::Ready(Err(SendError { kind: SendErrorKind::Disconnected }));
                }
                match s.poll_unparked(inner, Some(waker)) {
                    Poll::Ready(()) => Poll::Ready(Ok(())),
                    Poll::Pending => Poll::Pending,
                }
            },
            None => Poll::Ready(Err(SendError { kind: SendErrorKind::Disconnected })),
        }
    }

    /// Whether the channel is closed, or this sender disconnected.
    pub fn is_closed<T>(&self, inner: &Inner<T>) -> (r: bool)
        ensures
            r == (self@ is None || !inner@.open),
    {
        match &self.0 {
            Some(_) => !inner.is_open(),
            None => true,
        }
    }

    /// Closes the channel from the sending side and wakes the receiver.
    pub fn close_channel<T>(&mut self, inner: &mut Inner<T>)
        requires
            old(self).linked(old(inner)),
        ensures
            final(self).linked(final(inner)),
            final(self)@ == old(self)@,
            old(self)@ is Some ==> final(inner)@ == old(inner)@.closed().recv_woken(),
            old(self)@ is None ==> final(inner)@ == old(inner)@,
    {
        if let Some(s) = &self.0 {
            s.close_channel(inner);
        }
    }

    /// Disconnects this sender; as the channel's only sender, this closes
    /// the channel and wakes the receiver.
    pub fn disconnect<T>(&mut self, inner: &mut Inner<T>)
        requires
            old(self).linked(old(inner)),
        ensures
            final(self).linked(final(inner)),
            final(self)@ is None,
            old(self)@ is Some && old(inner)@.senders == 1 ==> final(inner)@ == (InnerView {
                senders: 0,
                ..old(inner)@
            }).closed().recv_woken(),
            old(self)@ is Some && old(inner)@.senders > 1 ==> final(inner)@ == (InnerView {
                senders: (old(inner)@.senders - 1) as usize,
                ..old(inner)@
            }),
            old(self)@ is None ==> final(inner)@ == old(inner)@,
    {
        let s = self.0.take();
        if let Some(s) = s {
            s.release(inner);
        }
    }
}

impl UnboundedSender {
    /// The sender and the shared state fit together: the state is that of
    /// a consistent unbounded channel, and an attached sender is counted.
    pub open spec fn linked<T>(&self, inner: &Inner<T>) -> bool {
        &&& inner@.wf()
        &&& inner@.buffer is None
        &&& self@ is Some ==> inner@.senders >= 1
    }

    /// Whether the sender is still attached to its channel.
    pub fn is_connected(&self) -> (r: bool)
        ensures
            r == self@ is Some,
    {
        self.0.is_some()
    }

    /// Whether the channel still takes messages.
    pub fn poll_ready<T>(&self, inner: &Inner<T>) -> (r: Poll<Result<(), SendError>>)
        ensures
            self@ is Some && inner@.open ==> r == Poll::<Result<(), SendError>>::Ready(Ok(())),
            self@ is None || !inner@.open ==> (r matches Poll::Ready(Err(e)) && e.kind()
                == SendErrorKind::Disconnected),
    {
        match &self.0 {
            Some(s) => s.poll_ready_nb(inner),
            None => Poll::Ready(Err(SendError { kind: SendErrorKind::Disconnected })),
        }
    }

    /// Returns whether this channel is closed, or this sender disconnected.
    pub fn is_closed<T>(&self, inner: &Inner<T>) -> (r: bool)
        ensures
            r == (self@ is None || !inner@.open),
    {
        match &self.0 {
            Some(_) => !inner.is_open(),
            None => true,
        }
    }

    /// Closes this channel from the sender side, preventing any new messages.
    pub fn close_channel<T>(&self, inner: &mut Inner<T>)
        requires
            self.linked(old(inner)),
        ensures
            self.linked(final(inner)),
            self@ is Some ==> final(inner)@ == old(inner)@.closed().recv_woken(),
            self@ is None ==> final(inner)@ == old(inner)@,
    {
        if let Some(s) = &self.0 {
            s.close_channel(inner);
        }
    }

    /// Disconnects this sender from the channel, closing it if there are no
    /// more senders left.
    pub fn disconnect<T>(&mut self, inner: &mut Inner<T>)
        requires
            old(self).linked(old(inner)),
        ensures
            final(self).linked(final(inner)),
            final(self)@ is None,
            old(self)@ is Some && old(inner)@.senders == 1 ==> final(inner)@ == (InnerView {
                senders: 0,
                ..old(inner)@
            }).closed().recv_woken(),
            old(self)@ is Some && old(inner)@.senders > 1 ==> final(inner)@ == (InnerView {
                senders: (old(inner)@.senders - 1) as usize,
                ..old(inner)@
            }),
            old(self)@ is None ==> final(inner)@ == old(inner)@,
    {
        let s = self.0.take();
        if let Some(s) = s {
            s.release(inner);
        }
    }

    /// Another sender on the same channel, counted among its senders; a
    /// disconnected sender gives a disconnected one.
    pub fn duplicate<T>(&self, inner: &mut Inner<T>) -> (r: UnboundedSender)
        requires
            self.linked(old(inner)),
            old(inner)@.senders < usize::MAX,
        ensures
            self.linked(final(inner)),
            r.linked(final(inner)),
            self@ is Some ==> r@ == Some(false) && final(inner)@ == (InnerView {
                senders: (old(inner)@.senders + 1) as usize,
                ..old(inner)@
            }),
            self@ is None ==> r@ is None && final(inner)@ == old(inner)@,
    {
        match &self.0 {
            Some(_) => {
                inner.num_senders = inner.num_senders + 1;
                UnboundedSender(Some(SenderInner { maybe_parked: false }))
            },
            None => UnboundedSender(None),
        }
    }

    // Does the send without parking the current task.
    fn do_send_nb<T>(&self, inner: &mut Inner<T>, msg: T) -> (r: Result<(), TrySendError<T>>)
        requires
            self.linked(old(inner)),
            old(inner)@.open ==> old(inner)@.count < usize::MAX,
        ensures
            self.linked(final(inner)),
            self@ is Some && old(inner)@.open ==> {
                &&& r is Ok
                &&& final(inner)@ == old(inner)@.pushed(msg)
            },
            !(self@ is Some && old(inner)@.open) ==> {
                &&& r matches Err(e) && e.kind() == SendErrorKind::Disconnected && e.val() == msg
                &&& final(inner)@ == old(inner)@
            },
    {
        if let Some(_) = &self.0 {
            let ghost v = inner@;
            if inner.inc_num_messages().is_some() {
                inner.queue_push_and_signal(msg);
                assert(inner@ == v.pushed(msg));
                return Ok(());
            }
        }
        Err(TrySendError::new(SendErrorKind::Disconnected, msg))
    }

    /// Sends a message on the channel, dropping it on failure.
    ///
    /// This method should only be called after `poll_ready` has been used to
    /// verify that the channel is ready to receive a message.
    pub fn start_send<T>(&mut self, inner: &mut Inner<T>, msg: T) -> (r: Result<(), SendError>)
        requires
            old(self).linked(old(inner)),
            old(inner)@.open ==> old(inner)@.count < usize::MAX,
        ensures
            final(self)@ == old(self)@,
            final(self).linked(final(inner)),
            old(self)@ is Some && old(inner)@.open ==> {
                &&& r is Ok
                &&& final(inner)@ == old(inner)@.pushed(msg)
            },
            !(old(self)@ is Some && old(inner)@.open) ==> {
                &&& r matches Err(e) && e.kind() == SendErrorKind::Disconnected
                &&& final(inner)@ == old(inner)@
            },
    {
        match self.do_send_nb(inner, msg) {
            Ok(()) => Ok(()),
            Err(e) => Err(e.into_send_error()),
        }
    }

    /// Sends a message along this channel; it is never full.
    pub fn unbounded_send<T>(&self, inner: &mut Inner<T>, msg: T) -> (r: Result<
        (),
        TrySendError<T>,
    >)
        requires
            self.linked(old(inner)),
            old(inner)@.open ==> old(inner)@.count < usize::MAX,
        ensures
            self.linked(final(inner)),
            self@ is Some && old(inner)@.open ==> {
                &&& r is Ok
                &&& final(inner)@ == old(inner)@.pushed(msg)
            },
            !(self@ is Some && old(inner)@.open) ==> {
                &&& r matches Err(e) && e.kind() == SendErrorKind::Disconnected && e.val() == msg
                &&& final(inner)@ == old(inner)@
            },
    {
        self.do_send_nb(inner, msg)
    }
}

impl Receiver {
    /// The receiver and the shared state fit together: a receiver that has
    /// yielded its last message belongs to a closed, drained channel.
    pub open spec fn linked<T>(&self, inner: &Inner<T>) -> bool {
        !self@ ==> !inner@.open && inner@.queue.len() == 0
    }

    /// Closes the receiving half of a channel, without dropping it.
    ///
    /// This prevents any further messages from being sent on the channel while
    /// still enabling the receiver to drain messages that are buffered.
    pub fn close<T>(&mut self, inner: &mut Inner<T>)
        requires
            old(inner)@.wf(),
        ensures
            final(inner)@.wf(),
            final(self)@ == old(self)@,
            old(self).linked(old(inner)) ==> final(self).linked(final(inner)),
            old(self)@ ==> final(inner)@ == old(inner)@.closed().notified(),
            !old(self)@ ==> final(inner)@ == old(inner)@,
    {
        if self.live {
            inner.set_closed();
            inner.notify_sender();
        }
    }

    /// Tries to receive the next message without leaving a waker if empty:
    /// the oldest message; `None` once the channel is closed and drained,
    /// which ends the receiver; an error while it is open and empty.
    pub fn try_next<T>(&mut self, inner: &mut Inner<T>) -> (r: Result<Option<T>, TryRecvError>)
        requires
            old(self)@,
            old(inner)@.wf(),
        ensures
            final(inner)@.wf(),
            final(self).linked(final(inner)),
            old(inner)@.queue.len() > 0 ==> {
                &&& r == Ok::<Option<T>, TryRecvError>(Some(old(inner)@.queue[0]))
                &&& final(self)@
                &&& final(inner)@ == old(inner)@.popped()
            },
            old(inner)@.queue.len() == 0 && old(inner)@.open ==> {
                &&& r is Err
                &&& final(self)@
                &&& final(inner)@ == old(inner)@
            },
            old(inner)@.queue.len() == 0 && !old(inner)@.open ==> {
                &&& r == Ok::<Option<T>, TryRecvError>(None)
                &&& !final(self)@
                &&& final(inner)@ == old(inner)@
            },
    {
        match self.next_message(inner) {
            Poll::Ready(msg) => Ok(msg),
            Poll::Pending => Err(TryRecvError { _priv: () }),
        }
    }

    fn next_message<T>(&mut self, inner: &mut Inner<T>) -> (r: Poll<Option<T>>)
        requires
            old(self)@,
            old(inner)@.wf(),
        ensures
            final(inner)@.wf(),
            final(self).linked(final(inner)),
            old(inner)@.queue.len() > 0 ==> {
                &&& r == Poll::Ready(Some(old(inner)@.queue[0]))
                &&& final(self)@
                &&& final(inner)@ == old(inner)@.popped()
            },
            old(inner)@.queue.len() == 0 && old(inner)@.open ==> {
                &&& r is Pending
                &&& final(self)@
                &&& final(inner)@ == old(inner)@
            },
            old(inner)@.queue.len() == 0 && !old(inner)@.open ==> {
                &&& r == Poll::<Option<T>>::Ready(None)
                &&& !final(self)@
                &&& final(inner)@ == old(inner)@
            },
    {
        let ghost v = inner@;
        let pop = inner.message_queue.pop_front();
        match pop {
            Some(msg) => {
                self.unpark_one(inner);
                inner.dec_num_messages();
                assert(inner@ =~= v.popped());
                Poll::Ready(Some(msg))
            },
            None => {
                if inner.is_open() || inner.num_messages() != 0 {
                    return Poll::Pending;
                }
                self.live = false;
                Poll::Ready(None)
            },
        }
    }

    // Unparks the sender, if it is parked.
    fn unpark_one<T>(&mut self, inner: &mut Inner<T>)
        ensures
            final(self)@ == old(self)@,
            old(self)@ ==> final(inner)@ == old(inner)@.notified(),
            !old(self)@ ==> final(inner)@ == old(inner)@,
    {
        if self.live {
            inner.notify_sender();
        }
    }

    /// Whether the receiver has yielded its last message.
    pub fn is_terminated(&self) -> (r: bool)
        ensures
            r == !self@,
    {
        !self.live
    }

    /// Polls for the next message as [`Receiver::try_next`] does; while the
    /// channel is open and empty, `waker` is left to be woken by the next
    /// send, and the queue is looked at once more.
    pub fn poll_next<T>(&mut self, inner: &mut Inner<T>, waker: &Waker) -> (r: Poll<Option<T>>)
        requires
            old(self)@,
            old(inner)@.wf(),
        ensures
            final(inner)@.wf(),
            final(self).linked(final(inner)),
            old(inner)@.queue.len() > 0 ==> {
                &&& r == Poll::Ready(Some(old(inner)@.queue[0]))
                &&& final(self)@
                &&& final(inner)@ == old(inner)@.popped()
            },
            old(inner)@.queue.len() == 0 && old(inner)@.open ==> {
                &&& r is Pending
                &&& final(self)@
                &&& final(inner)@ == (InnerView {
                    recv_waker: final(inner)@.recv_waker,
                    recv_source: final(inner)@.recv_source,
                    recv_wakes: final(inner)@.recv_wakes,
                    ..old(inner)@
                })
                &&& old(inner)@.recv_state == WakerState::Waiting ==> final(inner)@.recv_waker is Some
                    && final(inner)@.recv_source == Some(*waker)
                    && final(inner)@.recv_wakes == old(inner)@.recv_wakes
                &&& old(inner)@.recv_state == WakerState::Waking ==> final(inner)@.recv_waker
                    == old(inner)@.recv_waker && final(inner)@.recv_source
                    == old(inner)@.recv_source && final(inner)@.recv_wakes
                    == old(inner)@.recv_wakes.push(*waker)
            },
            old(inner)@.queue.len() == 0 && !old(inner)@.open ==> {
                &&& r == Poll::<Option<T>>::Ready(None)
                &&& !final(self)@
                &&& final(inner)@ == old(inner)@
            },
    {
        match self.next_message(inner) {
            Poll::Ready(msg) => {
                if msg.is_none() {
                    self.live = false;
                }
                Poll::Ready(msg)
            },
            Poll::Pending => {
                inner.recv_task.register(waker);
                self.next_message(inner)
            },
        }
    }

    /// What dropping the receiver does: closes the channel and drains the
    /// messages left, which ends the receiver.
    pub fn dispose<T>(&mut self, inner: &mut Inner<T>)
        requires
            old(inner)@.wf(),
        ensures
            final(inner)@.wf(),
            !final(self)@,
            final(self).linked(final(inner)) <== old(self)@ || old(self).linked(old(inner)),
            old(self)@ ==> final(inner)@ == (InnerView {
                queue: Seq::empty(),
                count: 0,
                ..old(inner)@.closed().notified()
            }),
            !old(self)@ ==> final(inner)@ == old(inner)@,
    {
        self.close(inner);
        let ghost was_live = self@;
        let ghost base = inner@;
        while self.live
            invariant
                inner@.wf(),
                was_live ==> !base.open && !base.parked && base.sender_task is None,
                was_live ==> {
                    &&& inner@.buffer == base.buffer
                    &&& inner@.open == base.open
                    &&& inner@.parked == base.parked
                    &&& inner@.sender_task == base.sender_task
                    &&& inner@.sender_source == base.sender_source
                    &&& inner@.senders == base.senders
                    &&& inner@.recv_state == base.recv_state
                    &&& inner@.recv_waker == base.recv_waker
                    &&& inner@.recv_source == base.recv_source
                    &&& inner@.recv_wakes == base.recv_wakes
                    &&& inner@.sender_wakes == base.sender_wakes
                },
                was_live && !self@ ==> inner@.queue.len() == 0,
                !was_live ==> inner@ == base && !self@,
            decreases inner@.queue.len() + (if self@ { 1int } else { 0int }),
        {
            let _msg = self.next_message(inner);
        }
        assert(was_live ==> inner@.queue =~= Seq::<T>::empty());
        assert(was_live ==> inner@ == (InnerView {
            queue: Seq::<T>::empty(),
            count: 0,
            ..base
        }));
    }
}

impl UnboundedReceiver {
    /// The receiver and the shared state fit together, as
    /// [`Receiver::linked`] says.
    pub open spec fn linked<T>(&self, inner: &Inner<T>) -> bool {
        !self@ ==> !inner@.open && inner@.queue.len() == 0
    }

    /// Closes the receiving half of the channel, without dropping it.
    ///
    /// This prevents any further messages from being sent on the channel while
    /// still enabling the receiver to drain messages that are buffered.
    pub fn close<T>(&mut self, inner: &mut Inner<T>)
        requires
            old(inner)@.wf(),
        ensures
            final(inner)@.wf(),
            final(self)@ == old(self)@,
            old(self).linked(old(inner)) ==> final(self).linked(final(inner)),
            old(self)@ ==> final(inner)@ == old(inner)@.closed().notified(),
            !old(self)@ ==> final(inner)@ == old(inner)@,
    {
        self.0.close(inner);
    }

    /// Tries to receive the next message without leaving a waker if empty,
    /// as [`Receiver::try_next`] does.
    pub fn try_next<T>(&mut self, inner: &mut Inner<T>) -> (r: Result<Option<T>, TryRecvError>)
        requires
            old(self)@,
            old(inner)@.wf(),
        ensures
            final(inner)@.wf(),
            final(self).linked(final(inner)),
            old(inner)@.queue.len() > 0 ==> {
                &&& r == Ok::<Option<T>, TryRecvError>(Some(old(inner)@.queue[0]))
                &&& final(self)@
                &&& final(inner)@ == old(inner)@.popped()
            },
            old(inner)@.queue.len() == 0 && old(inner)@.open ==> {
                &&& r is Err
                &&& final(self)@
                &&& final(inner)@ == old(inner)@
            },
            old(inner)@.queue.len() == 0 && !old(inner)@.open ==> {
                &&& r == Ok::<Option<T>, TryRecvError>(None)
                &&& !final(self)@
                &&& final(inner)@ == old(inner)@
            },
    {
        self.0.try_next(inner)
    }

    /// Whether the receiver has yielded its last message.
    pub fn is_terminated(&self) -> (r: bool)
        ensures
            r == !self@,
    {
        self.0.is_terminated()
    }

    /// Polls for the next message as [`Receiver::poll_next`] does.
    pub fn poll_next<T>(&mut self, inner: &mut Inner<T>, waker: &Waker) -> (r: Poll<Option<T>>)
        requires
            old(self)@,
            old(inner)@.wf(),
        ensures
            final(inner)@.wf(),
            final(self).linked(final(inner)),
            old(inner)@.queue.len() > 0 ==> {
                &&& r == Poll::Ready(Some(old(inner)@.queue[0]))
                &&& final(self)@
                &&& final(inner)@ == old(inner)@.popped()
            },
            old(inner)@.queue.len() == 0 && old(inner)@.open ==> {
                &&& r is Pending
                &&& final(self)@
                &&& final(inner)@ == (InnerView {
                    recv_waker: final(inner)@.recv_waker,
                    recv_source: final(inner)@.recv_source,
                    recv_wakes: final(inner)@.recv_wakes,
                    ..old(inner)@
                })
                &&& old(inner)@.recv_state == WakerState::Waiting ==> final(inner)@.recv_waker is Some
                    && final(inner)@.recv_source == Some(*waker)
                    && final(inner)@.recv_wakes == old(inner)@.recv_wakes
                &&& old(inner)@.recv_state == WakerState::Waking ==> final(inner)@.recv_waker
                    == old(inner)@.recv_waker && final(inner)@.recv_source
                    == old(inner)@.recv_source && final(inner)@.recv_wakes
                    == old(inner)@.recv_wakes.push(*waker)
            },
            old(inner)@.queue.len() == 0 && !old(inner)@.open ==> {
                &&& r == Poll::<Option<T>>::Ready(None)
                &&& !final(self)@
                &&& final(inner)@ == old(inner)@
            },
    {
        self.0.poll_next(inner, waker)
    }

    /// What dropping the receiver does, as [`Receiver::dispose`].
    pub fn dispose<T>(&mut self, inner: &mut Inner<T>)
        requires
            old(inner)@.wf(),
        ensures
            final(inner)@.wf(),
            !final(self)@,
            final(self).linked(final(inner)) <== old(self)@ || old(self).linked(old(inner)),
            old(self)@ ==> final(inner)@ == (InnerView {
                queue: Seq::empty(),
                count: 0,
                ..old(inner)@.closed().notified()
            }),
            !old(self)@ ==> final(inner)@ == old(inner)@,
    {
        self.0.dispose(inner)
    }
}

/// The state after each message of `msgs` was accepted, in order.
pub open spec fn pushed_all<T>(v: InnerView<T>, msgs: Seq<T>) -> InnerView<T>
    decreases msgs.len(),
{
    if msgs.len() == 0 {
        v
    } else {
        pushed_all(v, msgs.drop_last()).pushed(msgs.last())
    }
}

/// Messages come out in the order they went in: after accepting `msgs`, a
/// channel holds what it held before, followed by `msgs` in order; the
/// receiver takes from the front.
pub proof fn lemma_fifo<T>(v: InnerView<T>, msgs: Seq<T>)
    ensures
        pushed_all(v, msgs).queue == v.queue + msgs,
        v.queue.len() + msgs.len() > 0 ==> pushed_all(v, msgs).popped().queue == (v.queue
            + msgs).drop_first(),
    decreases msgs.len(),
{
    if msgs.len() > 0 {
        lemma_fifo(v, msgs.drop_last());
        assert(v.queue + msgs =~= (v.queue + msgs.drop_last()).push(msgs.last()));
    } else {
        assert(v.queue + msgs =~= v.queue);
    }
}

/// What is sent to an empty channel is what the receiver gets next, and
/// taking it leaves the channel empty again.
pub proof fn lemma_send_then_receive<T>(v: InnerView<T>, msg: T)
    requires
        v.wf(),
        v.open,
        v.queue.len() == 0,
    ensures
        v.pushed(msg).queue[0] == msg,
        v.pushed(msg).popped().queue == v.queue,
        v.pushed(msg).popped().count == v.count,
{
    assert(v.pushed(msg).popped().queue =~= v.queue);
}

/// A bounded channel never holds more than one message past its buffer:
/// each sender has one guaranteed slot beyond it.
pub proof fn lemma_bounded<T>(v: InnerView<T>)
    requires
        v.wf(),
        v.buffer is Some,
    ensures
        v.queue.len() <= v.buffer->0 + 1,
{
}

/// Closing is for good, and keeps what was buffered: a closed channel stays
/// closed whatever the receiver takes out or whoever is woken, and taking a
/// message out of it takes the oldest.
pub proof fn lemma_closed_drains<T>(v: InnerView<T>)
    requires
        v.wf(),
    ensures
        v.closed().queue == v.queue,
        v.closed().wf(),
        !v.closed().popped().open,
        !v.closed().notified().open,
        !v.closed().recv_woken().open,
        v.closed().popped().queue == v.queue.drop_first(),
{
}

/// A bounded channel takes one message past its buffer from a sender that
/// nobody receives from: after `k` accepted sends with `k <= b` the sender
/// is not parked, so its next send is accepted; the send that makes `b + 1`
/// parks it, so the next one is refused as full.
pub proof fn lemma_capacity<T>(b: usize, msgs: Seq<T>)
    requires
        b < MAX_BUFFER,
        msgs.len() <= b + 1,
    ensures
        pushed_all(fresh::<T>(Some(b)), msgs).wf(),
        pushed_all(fresh::<T>(Some(b)), msgs).open,
        pushed_all(fresh::<T>(Some(b)), msgs).queue == msgs,
        pushed_all(fresh::<T>(Some(b)), msgs).count == msgs.len(),
        pushed_all(fresh::<T>(Some(b)), msgs).buffer == Some(b),
        pushed_all(fresh::<T>(Some(b)), msgs).parked == (msgs.len() == b + 1),
    decreases msgs.len(),
{
    if msgs.len() > 0 {
        lemma_capacity(b, msgs.drop_last());
        assert(msgs.drop_last().push(msgs.last()) =~= msgs);
    } else {
        assert(pushed_all(fresh::<T>(Some(b)), msgs).queue =~= msgs);
    }
}

/// Once closed, a channel stays closed, so `is_closed` stays true: every
/// change that an operation's contract makes to the shared state (taking a
/// message out, closing, unparking or waking, counting the senders, leaving
/// or dropping a waker, draining on drop, and even counting in a message)
/// keeps a closed channel closed. A disconnected end stays disconnected, as
/// no contract reattaches one.
pub proof fn lemma_closed_stays_closed<T>(
    v: InnerView<T>,
    msg: T,
    task: Option<Waker>,
    senders: usize,
    recv_waker: Option<Waker>,
)
    requires
        !v.open,
    ensures
        !v.closed().open,
        !v.popped().open,
        !v.notified().open,
        !v.recv_woken().open,
        !v.pushed(msg).open,
        !(InnerView { sender_task: task, ..v }).open,
        !(InnerView { senders, ..v }).open,
        !(InnerView { recv_waker, ..v }).open,
        !(InnerView { queue: Seq::empty(), count: 0, ..v.closed().notified() }).open,
{
}

/// A send that the channel takes wakes the receiver: the waker that a
/// waiting receiver left is woken, once, and its slot is emptied; with no
/// waker left, nothing is woken. The sender's wakers are not touched.
pub proof fn lemma_send_wakes_receiver<T>(v: InnerView<T>, msg: T, w: Waker)
    ensures
        v.recv_state == WakerState::Waiting && v.recv_waker == Some(w) ==> {
            &&& v.pushed(msg).recv_wakes == v.recv_wakes.push(w)
            &&& v.pushed(msg).recv_wakes.len() == v.recv_wakes.len() + 1
            &&& v.pushed(msg).recv_waker is None
        },
        v.recv_state == WakerState::Waiting && v.recv_waker is None ==> v.pushed(msg).recv_wakes
            == v.recv_wakes,
        v.pushed(msg).sender_wakes == v.sender_wakes,
{
}

/// Closing from the sending side, by `close_channel` or by the last sender
/// going away, wakes the receiver: the waker a waiting receiver left is
/// woken, once, so that it comes back to find the channel closed.
pub proof fn lemma_sender_close_wakes_receiver<T>(v: InnerView<T>, w: Waker)
    requires
        v.recv_state == WakerState::Waiting,
        v.recv_waker == Some(w),
    ensures
        v.closed().recv_woken().recv_wakes == v.recv_wakes.push(w),
        (InnerView { senders: 0, ..v }).closed().recv_woken().recv_wakes == v.recv_wakes.push(w),
        !v.closed().recv_woken().open,
        v.closed().recv_woken().recv_waker is None,
{
}

/// Closing from the receiving side, by `close` or by dropping the
/// receiver, wakes the sender: the waker a parked sender left is woken,
/// once, so that it comes back to find the channel closed and itself
/// unparked.
pub proof fn lemma_receiver_close_wakes_sender<T>(v: InnerView<T>, w: Waker)
    requires
        v.sender_task == Some(w),
    ensures
        v.closed().notified().sender_wakes == v.sender_wakes.push(w),
        (InnerView { queue: Seq::empty(), count: 0, ..v.closed().notified() }).sender_wakes
            == v.sender_wakes.push(w),
        !v.closed().notified().parked,
        v.closed().notified().sender_task is None,
        v.closed().notified().recv_wakes == v.recv_wakes,
{
}

/// Taking a message out wakes the sender: the waker a parked sender left is
/// woken, once, and the sender is unparked; the receiver's wakers are not
/// touched.
pub proof fn lemma_receive_wakes_sender<T>(v: InnerView<T>, w: Waker)
    requires
        v.queue.len() > 0,
        v.sender_task == Some(w),
    ensures
        v.popped().sender_wakes == v.sender_wakes.push(w),
        v.popped().sender_task is None,
        !v.popped().parked,
        v.popped().recv_wakes == v.recv_wakes,
        v.popped().queue == v.queue.drop_first(),
{
}

} // verus!
