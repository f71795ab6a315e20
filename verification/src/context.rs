//! The bookkeeping of a running machine: for each input type, an acceptor
//! that matches inputs with the states waiting to accept one; for each
//! output type, an outputer that remembers the latest output and the
//! listeners to tell.
//!
//! A state accepts an input by handing over the sending end of a one-value
//! channel. The acceptor sends each input into the channel of the state
//! waiting for one, or keeps it in line. Each channel is shared with the
//! state that waits on it, so the caller hands in the shared state of the
//! waiting channel, which it reaches through the handle kept with the
//! sender.
use vstd::prelude::*;
use std::collections::VecDeque;
use std::task::Waker;
use crate::Poll;
use crate::channel::oneshot;

verus! {

/// The inputs of one type: the sender of the state waiting to accept one,
/// with the handle to its channel, if any; and the inputs nobody accepted
/// yet, oldest first.
pub struct Acceptor<I, H> {
    sender: Option<(oneshot::Sender, H)>,
    inputs: VecDeque<I>,
}

/// What an acceptor holds: the handle to the channel of the waiting state,
/// and the inputs in line.
pub ghost struct AcceptorView<I, H> {
    pub waiting: Option<H>,
    pub inputs: Seq<I>,
}

impl<I, H> AcceptorView<I, H> {
    /// An input waits in line only while no state waits for one.
    pub open spec fn wf(self) -> bool {
        self.waiting is Some ==> self.inputs.len() == 0
    }
}

impl<I, H> View for Acceptor<I, H> {
    type V = AcceptorView<I, H>;

    closed spec fn view(&self) -> AcceptorView<I, H> {
        AcceptorView {
            waiting: match self.sender {
                Some((_, h)) => Some(h),
                None => None,
            },
            inputs: self.inputs@,
        }
    }
}

/// What a channel whose state left still holds: the value it never took,
/// if any.
pub open spec fn recovered<I>(w: oneshot::InnerView<I>) -> Seq<I> {
    match w.data {
        Some(v) => seq![v],
        None => Seq::empty(),
    }
}

impl<I, H> Acceptor<I, H> {
    /// No state waits, no input in line.
    pub fn new() -> (r: Acceptor<I, H>)
        ensures
            r@.waiting is None,
            r@.inputs == Seq::<I>::empty(),
            r@.wf(),
    {
        Acceptor { sender: None, inputs: VecDeque::new() }
    }

    /// The handle to the channel of the waiting state, if any.
    pub fn waiting(&self) -> (r: Option<&H>)
        ensures
            r == match self@.waiting {
                Some(h) => Some(&h),
                None => None,
            },
    {
        match &self.sender {
            Some((_, h)) => Some(h),
            None => None,
        }
    }

    /// The waiting state left (`waiting` is its channel): its sender goes
    /// away, which completes the channel, and a value the state never took
    /// goes back first in line. The inputs in line stay, in order.
    pub fn reset(&mut self, waiting: Option<&mut oneshot::Inner<I>>)
        requires
            old(self)@.wf(),
            old(self)@.waiting is Some <==> waiting is Some,
            waiting matches Some(w) ==> w@.wf(),
        ensures
            final(self)@.wf(),
            final(self)@.waiting is None,
            waiting matches Some(w) ==> {
                &&& final(w)@ == oneshot::taken(w@).completed()
                &&& final(w)@.wf()
                &&& final(self)@.inputs == recovered(w@) + old(self)@.inputs
            },
            waiting is None ==> final(self)@ == old(self)@,
    {
        if let Some((tx, _handle)) = self.sender.take() {
            if let Some(w) = waiting {
                if let Some(value) = tx.value(w) {
                    self.inputs.push_front(value);
                }
            }
        }
    }

    /// A state is ready to accept through `tx`, whose channel is `inner`,
    /// reached through `handle`; `waiting` is the channel of the state that
    /// waited before, which is reset first. The oldest input in line is sent
    /// into `inner`; refused there, it stays first in line. With none in
    /// line, `tx` waits for the next input.
    pub fn handle_tx(
        &mut self,
        waiting: Option<&mut oneshot::Inner<I>>,
        tx: oneshot::Sender,
        inner: &mut oneshot::Inner<I>,
        handle: H,
    )
        requires
            old(self)@.wf(),
            old(self)@.waiting is Some <==> waiting is Some,
            waiting matches Some(w) ==> w@.wf(),
            old(inner)@.wf(),
        ensures
            final(self)@.wf(),
            final(inner)@.wf(),
            waiting matches Some(w) ==> {
                &&& final(w)@ == oneshot::taken(w@).completed()
                &&& final(w)@.wf()
            },
            ({
                let line = match waiting {
                    Some(w) => recovered(w@),
                    None => Seq::<I>::empty(),
                } + old(self)@.inputs;
                &&& line.len() > 0 && !old(inner)@.complete ==> {
                    &&& final(inner)@ == (oneshot::InnerView {
                        data: Some(line[0]),
                        ..old(inner)@
                    }).completed()
                    &&& final(self)@ == (AcceptorView::<I, H> {
                        waiting: None,
                        inputs: line.drop_first(),
                    })
                }
                &&& line.len() > 0 && old(inner)@.complete ==> {
                    &&& final(inner)@ == old(inner)@.completed()
                    &&& final(self)@ == (AcceptorView::<I, H> { waiting: None, inputs: line })
                }
                &&& line.len() == 0 ==> {
                    &&& final(inner)@ == old(inner)@
                    &&& final(self)@ == (AcceptorView::<I, H> {
                        waiting: Some(handle),
                        inputs: Seq::empty(),
                    })
                }
            }),
    {
        let ghost line = if waiting is Some {
            recovered(waiting->Some_0@)
        } else {
            Seq::<I>::empty()
        } + old(self)@.inputs;
        let ghost was_none = waiting is None;
        self.reset(waiting);
        assert(was_none ==> line =~= old(self)@.inputs);
        assert(self@.inputs == line);
        match self.inputs.pop_front() {
            Some(input) => {
                match tx.send(inner, input) {
                    Ok(()) => {},
                    Err(value) => {
                        self.inputs.push_front(value);
                        assert(self.inputs@ =~= line);
                    },
                }
            },
            None => {
                assert(self.inputs@ =~= Seq::<I>::empty());
                self.sender = Some((tx, handle));
            },
        }
    }

    /// An input arrived. With a state waiting (`waiting` is its channel),
    /// the input is sent into that channel and the state waits no more; a
    /// channel that refuses it leaves it last in line. With none waiting,
    /// it goes last in line.
    pub fn handle_input(&mut self, waiting: Option<&mut oneshot::Inner<I>>, input: I)
        requires
            old(self)@.wf(),
            old(self)@.waiting is Some <==> waiting is Some,
            waiting matches Some(w) ==> w@.wf(),
        ensures
            final(self)@.wf(),
            final(self)@.waiting is None,
            waiting matches Some(w) ==> {
                &&& !w@.complete ==> final(w)@ == (oneshot::InnerView {
                    data: Some(input),
                    ..w@
                }).completed() && final(self)@.inputs == old(self)@.inputs
                &&& w@.complete ==> final(w)@ == w@.completed()
                    && final(self)@.inputs == old(self)@.inputs.push(input)
                &&& final(w)@.wf()
            },
            waiting is None ==> final(self)@.inputs == old(self)@.inputs.push(input),
    {
        match self.sender.take() {
            Some((tx, _handle)) => {
                match waiting {
                    Some(w) => {
                        match tx.send(w, input) {
                            Ok(()) => {},
                            Err(value) => {
                                self.inputs.push_back(value);
                            },
                        }
                    },
                    None => {
                        self.inputs.push_back(input);
                    },
                }
            },
            None => {
                self.inputs.push_back(input);
            },
        }
    }

    /// How many inputs wait in line.
    pub fn len(&self) -> (r: usize)
        ensures
            r == self@.inputs.len(),
    {
        self.inputs.len()
    }
}

/// The outputs of one type: the latest one, and the listeners to tell.
pub struct Outputer<O, S> {
    output: Option<O>,
    senders: Vec<S>,
}

/// What an outputer holds: the latest output, and the listeners.
pub ghost struct OutputerView<O, S> {
    pub output: Option<O>,
    pub senders: Seq<S>,
}

impl<O, S> View for Outputer<O, S> {
    type V = OutputerView<O, S>;

    closed spec fn view(&self) -> OutputerView<O, S> {
        OutputerView { output: self.output, senders: self.senders@ }
    }
}

/// The listeners of `senders` whose flag in `closed` is down, in order.
pub open spec fn still_open<S>(senders: Seq<S>, closed: Seq<bool>) -> Seq<S>
    decreases senders.len(),
{
    if senders.len() == 0 {
        Seq::empty()
    } else {
        let rest = still_open(senders.drop_last(), closed.drop_last());
        if closed.last() {
            rest
        } else {
            rest.push(senders.last())
        }
    }
}

impl<O, S> Outputer<O, S> {
    /// No output yet, nobody listening.
    pub fn new() -> (r: Outputer<O, S>)
        ensures
            r@.output is None,
            r@.senders == Seq::<S>::empty(),
    {
        Outputer { output: None, senders: Vec::new() }
    }

    /// The latest output, which a new listener is told first.
    pub fn latest(&self) -> (r: Option<&O>)
        ensures
            r == match self@.output {
                Some(o) => Some(&o),
                None => None,
            },
    {
        self.output.as_ref()
    }

    /// Records `o` as the latest output, and hands out every listener for
    /// the caller to tell, and then to give back with
    /// [`Outputer::retain_open`].
    pub fn handle_output(&mut self, o: O) -> (r: Vec<S>)
        ensures
            r@ == old(self)@.senders,
            final(self)@ == (OutputerView::<O, S> { output: Some(o), senders: Seq::empty() }),
    {
        self.output = Some(o);
        let mut all: Vec<S> = Vec::new();
        std::mem::swap(&mut all, &mut self.senders);
        all
    }

    /// Adds a listener, which the caller has told the latest output; hands
    /// out every listener, as [`Outputer::handle_output`] does.
    pub fn handle_tx(&mut self, tx: S) -> (r: Vec<S>)
        ensures
            r@ == old(self)@.senders.push(tx),
            final(self)@ == (OutputerView { senders: Seq::<S>::empty(), ..old(self)@ }),
    {
        let mut all: Vec<S> = Vec::new();
        std::mem::swap(&mut all, &mut self.senders);
        all.push(tx);
        all
    }

    /// Takes the listeners back, keeping, in order, those whose flag in
    /// `closed` is down; they join the ones already held.
    pub fn retain_open(&mut self, senders: Vec<S>, closed: &Vec<bool>)
        requires
            senders.len() == closed.len(),
        ensures
            final(self)@ == (OutputerView {
                senders: old(self)@.senders + still_open(senders@, closed@),
                ..old(self)@
            }),
    {
        let ghost all = senders@;
        let ghost base = self.senders@;
        let mut senders = senders;
        let n = senders.len();
        let mut i: usize = 0;
        while i < n
            invariant
                i <= n,
                n == all.len(),
                n == closed@.len(),
                senders@ == all.skip(i as int),
                self@.senders == base + still_open(all.take(i as int), closed@.take(i as int)),
                self@.output == old(self)@.output,
            decreases n - i,
        {
            let s = senders.remove(0);
            proof {
                assert(all.take(i + 1).drop_last() =~= all.take(i as int));
                assert(closed@.take(i + 1).drop_last() =~= closed@.take(i as int));
                assert(senders@ =~= all.skip(i + 1));
            }
            if !closed[i] {
                self.senders.push(s);
            }
            i = i + 1;
        }
        assert(all.take(n as int) =~= all);
        assert(closed@.take(n as int) =~= closed@);
    }
}

/// A state's wait for one input: the receiving end of the one-value channel
/// whose sender went to the acceptor, until the input came.
pub struct AcceptorFut {
    response: Option<oneshot::Receiver>,
}

impl AcceptorFut {
    /// `None` once the input came; else the id of the receiving end.
    pub closed spec fn response(&self) -> Option<u64> {
        match self.response {
            Some(r) => Some(r.id()),
            None => None,
        }
    }

    /// Waits on `rx`.
    pub fn new(rx: oneshot::Receiver) -> (r: AcceptorFut)
        ensures
            r.response() == Some(rx.id()),
    {
        AcceptorFut { response: Some(rx) }
    }

    /// Gives up the wait, handing back the receiving end, if the input did
    /// not come yet.
    pub fn release(self) -> (r: Option<oneshot::Receiver>)
        ensures
            r matches Some(rx) ==> self.response() == Some(rx.id()),
            r is None ==> self.response() is None,
    {
        self.response
    }

    /// The input, once it was sent; until then nothing, with `waker` left in
    /// the receiver's slot. An accept whose sender went away without an
    /// input never completes. Polling after the input came is refused.
    pub fn poll<I>(&mut self, inner: &mut oneshot::Inner<I>, waker: &Waker) -> (r: Poll<I>)
        requires
            old(self).response() is Some,
            old(inner)@.wf(),
        ensures
            final(inner)@.wf(),
            old(inner)@.complete && old(inner)@.data is Some ==> {
                &&& r == Poll::Ready(old(inner)@.data->0)
                &&& final(self).response() is None
                &&& final(inner)@ == oneshot::taken(old(inner)@)
            },
            old(inner)@.complete && old(inner)@.data is None ==> {
                &&& r is Pending
                &&& final(self).response() == old(self).response()
                &&& final(inner)@ == old(inner)@
            },
            !old(inner)@.complete ==> {
                &&& r is Pending
                &&& final(self).response() == old(self).response()
                &&& final(inner)@.complete == old(inner)@.complete
                &&& final(inner)@.data == old(inner)@.data
                &&& final(inner)@.receivers.waker_left(
                    old(inner)@.receivers,
                    old(self).response()->0,
                    *waker,
                )
            },
    {
        let mut recv = match self.response.take() {
            Some(recv) => recv,
            None => {
                return Poll::Pending;
            },
        };
        match recv.poll(inner, waker) {
            Poll::Ready(Ok(res)) => Poll::Ready(res),
            _ => {
                self.response = Some(recv);
                Poll::Pending
            },
        }
    }
}

/// The acceptor after each of `inputs` arrived, in order, with no state
/// waiting.
pub open spec fn queued_all<I, H>(v: AcceptorView<I, H>, inputs: Seq<I>) -> AcceptorView<I, H>
    decreases inputs.len(),
{
    if inputs.len() == 0 {
        v
    } else {
        let w = queued_all(v, inputs.drop_last());
        AcceptorView { inputs: w.inputs.push(inputs.last()), ..w }
    }
}

/// Inputs are accepted in the order they arrived: those that find no state
/// waiting line up behind the ones already there, and the next state to
/// accept takes the oldest.
pub proof fn lemma_inputs_in_order<I, H>(v: AcceptorView<I, H>, inputs: Seq<I>)
    requires
        v.wf(),
        v.waiting is None,
    ensures
        queued_all(v, inputs).inputs == v.inputs + inputs,
        queued_all(v, inputs).waiting is None,
        queued_all(v, inputs).wf(),
        v.inputs.len() + inputs.len() > 0 ==> queued_all(v, inputs).inputs[0] == (v.inputs
            + inputs)[0],
    decreases inputs.len(),
{
    if inputs.len() > 0 {
        lemma_inputs_in_order(v, inputs.drop_last());
        assert(v.inputs + inputs =~= (v.inputs + inputs.drop_last()).push(inputs.last()));
    } else {
        assert(v.inputs + inputs =~= v.inputs);
    }
}

/// No input is lost when a state leaves: the line after the reset holds
/// every input it held, in order, behind the value the leaving state never
/// took, if any; as a collection it is exactly those.
pub proof fn lemma_nothing_lost_on_reset<I, H>(v: AcceptorView<I, H>, w: oneshot::InnerView<I>)
    ensures
        (recovered(w) + v.inputs).skip(recovered(w).len() as int) == v.inputs,
        (recovered(w) + v.inputs).to_multiset() == recovered(w).to_multiset().add(
            v.inputs.to_multiset(),
        ),
        w.data matches Some(x) ==> (recovered(w) + v.inputs)[0] == x,
{
    vstd::seq_lib::lemma_multiset_commutative(recovered(w), v.inputs);
    assert((recovered(w) + v.inputs).skip(recovered(w).len() as int) =~= v.inputs);
}

} // verus!
