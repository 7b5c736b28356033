//! A bounded point-to-point channel: a fixed-capacity FIFO buffer connecting
//! one sender-side handle and one receiver-side handle, with backpressure
//! and closed-channel signaling.
//!
//! The scheduling model is cooperative and single-threaded, so the buffer is
//! mutated through an exclusive borrow held only for the duration of a
//! single enqueue or dequeue — never across a suspension point.  An
//! operation that cannot proceed does not block: it reports why it could not
//! (`Full`, `Empty`) and the calling task is expected to suspend and retry
//! on its next advance.  Handle drops are explicit: `close_sender` and
//! `close_receiver` record that the corresponding side is gone.

use vstd::prelude::*;

use std::collections::VecDeque;

verus! {

/// The outcome of one send attempt.  `Full` and `Closed` hand the message
/// back to the caller: a suspended sender retries with it, a closed channel
/// never accepts it.
pub enum SendStatus<T> {
    /// The message was enqueued.
    Sent,
    /// The buffer already holds `capacity` messages: suspend and retry.
    Full(T),
    /// The receiver handle is gone; no message will ever be delivered.
    Closed(T),
}

/// The outcome of one receive attempt.
pub enum RecvStatus<T> {
    /// The oldest buffered message.
    Received(T),
    /// The buffer is empty but a sender is still alive: suspend and retry.
    Empty,
    /// The buffer is empty and no sender remains: the stream has ended.
    /// This is a normal terminal signal, not an error.
    EndOfStream,
}

/// A bounded FIFO channel.  The capacity is fixed at creation and the
/// buffer never exceeds it.
pub struct Channel<T> {
    buffer: VecDeque<T>,
    capacity: usize,
    sender_live: bool,
    receiver_live: bool,
}

impl<T> Channel<T> {
    /// The buffered messages, oldest first.
    pub closed spec fn queue(&self) -> Seq<T> {
        self.buffer@
    }

    /// The fixed capacity the channel was created with.
    pub closed spec fn cap(&self) -> nat {
        self.capacity as nat
    }

    /// Whether the sender handle still exists.
    pub closed spec fn sender_live(&self) -> bool {
        self.sender_live
    }

    /// Whether the receiver handle still exists.
    pub closed spec fn receiver_live(&self) -> bool {
        self.receiver_live
    }

    /// The channel invariant: the buffer never holds more than `cap`
    /// messages.  Established by `new`, preserved by every operation.
    pub open spec fn wf(&self) -> bool {
        self.queue().len() <= self.cap()
    }

    /// Whether a send attempted now would be accepted.
    pub open spec fn send_accepts(&self) -> bool {
        self.receiver_live() && self.queue().len() < self.cap()
    }

    /// Create a channel of the given capacity, with both handles live and
    /// nothing buffered.
    pub fn new(capacity: usize) -> (c: Channel<T>)
        ensures
            c.wf(),
            c.queue() == Seq::<T>::empty(),
            c.cap() == capacity,
            c.sender_live(),
            c.receiver_live(),
    {
        Channel { buffer: VecDeque::new(), capacity, sender_live: true, receiver_live: true }
    }

    /// Attempt to enqueue `msg`: refused with `Closed` if the receiver is
    /// gone, deferred with `Full` if the buffer is at capacity, otherwise
    /// appended at the back of the buffer.
    pub fn send(&mut self, msg: T) -> (r: SendStatus<T>)
        requires
            old(self).wf(),
            old(self).sender_live(),
        ensures
            final(self).wf(),
            send_transition(*old(self), *final(self), msg, r),
    {
        if !self.receiver_live {
            SendStatus::Closed(msg)
        } else if self.buffer.len() < self.capacity {
            self.buffer.push_back(msg);
            SendStatus::Sent
        } else {
            SendStatus::Full(msg)
        }
    }

    /// Attempt to dequeue the oldest buffered message: `Received` while the
    /// buffer is non-empty, `Empty` when it is empty but a sender might
    /// still deliver, `EndOfStream` once it is empty and no sender remains.
    /// Remaining buffered messages are thus drained before closure is ever
    /// reported.
    pub fn receive(&mut self) -> (r: RecvStatus<T>)
        requires
            old(self).wf(),
            old(self).receiver_live(),
        ensures
            final(self).wf(),
            recv_transition(*old(self), *final(self), r),
    {
        match self.buffer.pop_front() {
            Some(msg) => RecvStatus::Received(msg),
            None => {
                if self.sender_live {
                    RecvStatus::Empty
                } else {
                    RecvStatus::EndOfStream
                }
            },
        }
    }

    /// Drop the sender handle.  Once the buffer is also drained the channel
    /// reports end of stream to the receiver.
    pub fn close_sender(&mut self)
        requires
            old(self).sender_live(),
        ensures
            !final(self).sender_live(),
            final(self).queue() == old(self).queue(),
            final(self).cap() == old(self).cap(),
            final(self).receiver_live() == old(self).receiver_live(),
    {
        self.sender_live = false;
    }

    /// Drop the receiver handle.  Every later send fails with `Closed`.
    pub fn close_receiver(&mut self)
        requires
            old(self).receiver_live(),
        ensures
            !final(self).receiver_live(),
            final(self).queue() == old(self).queue(),
            final(self).cap() == old(self).cap(),
            final(self).sender_live() == old(self).sender_live(),
    {
        self.receiver_live = false;
    }
}

/// How one send attempt relates the channel state before (`pre`) and after
/// (`post`), the message offered and the reported outcome.
pub open spec fn send_transition<T>(pre: Channel<T>, post: Channel<T>, msg: T, r: SendStatus<
    T,
>) -> bool {
    &&& post.cap() == pre.cap()
    &&& post.sender_live() == pre.sender_live()
    &&& post.receiver_live() == pre.receiver_live()
    &&& if !pre.receiver_live() {
        r == SendStatus::Closed(msg) && post.queue() == pre.queue()
    } else if pre.queue().len() < pre.cap() {
        r == SendStatus::<T>::Sent && post.queue() == pre.queue().push(msg)
    } else {
        r == SendStatus::Full(msg) && post.queue() == pre.queue()
    }
}

/// How one receive attempt relates the channel state before and after and
/// the reported outcome.
pub open spec fn recv_transition<T>(pre: Channel<T>, post: Channel<T>, r: RecvStatus<T>) -> bool {
    &&& post.cap() == pre.cap()
    &&& post.sender_live() == pre.sender_live()
    &&& post.receiver_live() == pre.receiver_live()
    &&& if pre.queue().len() > 0 {
        r == RecvStatus::Received(pre.queue()[0]) && post.queue() == pre.queue().drop_first()
    } else if pre.sender_live() {
        r == RecvStatus::<T>::Empty && post.queue() == pre.queue()
    } else {
        r == RecvStatus::<T>::EndOfStream && post.queue() == pre.queue()
    }
}

/// `cs` is a run of consecutive channel states in which the messages of
/// `msgs` were sent one after another, every send accepted.
pub open spec fn send_run<T>(cs: Seq<Channel<T>>, msgs: Seq<T>) -> bool {
    &&& cs.len() == msgs.len() + 1
    &&& forall|i: int|
        0 <= i < msgs.len() ==> send_transition(cs[i], cs[i + 1], msgs[i], SendStatus::<T>::Sent)
}

/// `cs` is a run of consecutive channel states in which the messages of
/// `outs` were received one after another.
pub open spec fn recv_run<T>(cs: Seq<Channel<T>>, outs: Seq<T>) -> bool {
    &&& cs.len() == outs.len() + 1
    &&& forall|i: int|
        0 <= i < outs.len() ==> recv_transition(cs[i], cs[i + 1], RecvStatus::Received(outs[i]))
}

/// A run of accepted sends appends exactly the sent messages, in order, to
/// the back of the buffer, and touches nothing else of the channel.
pub proof fn lemma_send_run_queue<T>(cs: Seq<Channel<T>>, msgs: Seq<T>)
    requires
        send_run(cs, msgs),
    ensures
        cs[cs.len() - 1].queue() =~= cs[0].queue() + msgs,
        cs[cs.len() - 1].cap() == cs[0].cap(),
        cs[cs.len() - 1].sender_live() == cs[0].sender_live(),
        cs[cs.len() - 1].receiver_live() == cs[0].receiver_live(),
    decreases msgs.len(),
{
    if msgs.len() == 0 {
        assert(cs[0].queue() + msgs =~= cs[0].queue());
    } else {
        let n = msgs.len() as int;
        assert forall|i: int| 0 <= i < msgs.drop_last().len() implies send_transition(
            cs.drop_last()[i],
            cs.drop_last()[i + 1],
            msgs.drop_last()[i],
            SendStatus::<T>::Sent,
        ) by {
            assert(send_transition(cs[i], cs[i + 1], msgs[i], SendStatus::<T>::Sent));
        }
        lemma_send_run_queue(cs.drop_last(), msgs.drop_last());
        assert(send_transition(cs[n - 1], cs[n], msgs[n - 1], SendStatus::<T>::Sent));
        assert(cs[cs.len() - 1].queue() =~= cs[0].queue() + msgs);
    }
}

/// A run of receives yields a prefix of the buffer, in buffer order, and
/// leaves exactly the rest of the buffer behind.
pub proof fn lemma_recv_run_queue<T>(cs: Seq<Channel<T>>, outs: Seq<T>)
    requires
        recv_run(cs, outs),
    ensures
        outs.len() <= cs[0].queue().len(),
        outs =~= cs[0].queue().take(outs.len() as int),
        cs[cs.len() - 1].queue() =~= cs[0].queue().skip(outs.len() as int),
    decreases outs.len(),
{
    if outs.len() == 0 {
        assert(outs =~= cs[0].queue().take(0));
        assert(cs[cs.len() - 1].queue() =~= cs[0].queue().skip(0));
    } else {
        let q = cs[0].queue();
        let n = outs.len() as int;
        assert(recv_transition(cs[0], cs[1], RecvStatus::Received(outs[0])));
        assert forall|i: int| 0 <= i < outs.drop_first().len() implies recv_transition(
            cs.drop_first()[i],
            cs.drop_first()[i + 1],
            RecvStatus::Received(outs.drop_first()[i]),
        ) by {
            assert(recv_transition(cs[i + 1], cs[i + 2], RecvStatus::Received(outs[i + 1])));
        }
        lemma_recv_run_queue(cs.drop_first(), outs.drop_first());
        assert forall|j: int| 0 <= j < n implies outs[j] == q[j] by {
            if j > 0 {
                assert(outs.drop_first()[j - 1] == cs[1].queue().take(n - 1)[j - 1]);
            }
        }
        assert(outs =~= q.take(n));
        assert(cs[cs.len() - 1].queue() =~= q.skip(n));
    }
}

/// Law: messages are received in exactly the order sent — no reordering,
/// duplication, or loss.  Filling an initially empty channel with `msgs`,
/// every send accepted, and then performing as many successful receives
/// yields exactly `msgs` again and leaves the buffer empty.
pub proof fn lemma_fifo_order<T>(
    scs: Seq<Channel<T>>,
    msgs: Seq<T>,
    rcs: Seq<Channel<T>>,
    outs: Seq<T>,
)
    requires
        send_run(scs, msgs),
        scs[0].queue().len() == 0,
        recv_run(rcs, outs),
        rcs[0] == scs[scs.len() - 1],
        outs.len() == msgs.len(),
    ensures
        outs =~= msgs,
        rcs[rcs.len() - 1].queue().len() == 0,
{
    lemma_send_run_queue(scs, msgs);
    lemma_recv_run_queue(rcs, outs);
    assert(rcs[0].queue() =~= msgs);
}

/// Law: backpressure.  With the buffer at capacity, a send attempt is
/// deferred with nothing enqueued — so the sender stays suspended however
/// often it retries — and once a single receive has freed a slot the
/// retried send is accepted.
pub proof fn lemma_backpressure<T>(
    c0: Channel<T>,
    c1: Channel<T>,
    c2: Channel<T>,
    msg: T,
    s: SendStatus<T>,
    r: RecvStatus<T>,
)
    requires
        c0.wf(),
        c0.receiver_live(),
        c0.cap() >= 1,
        c0.queue().len() == c0.cap(),
        send_transition(c0, c1, msg, s),
        recv_transition(c1, c2, r),
    ensures
        s == SendStatus::Full(msg),
        c1.queue() == c0.queue(),
        r == RecvStatus::<T>::Received(c0.queue()[0]),
        c2.send_accepts(),
{
}

/// Law: a sender that performs more than `cap` sends before any receive is
/// suspended on the send after the `cap`-th.  Starting from an empty buffer
/// with both handles live, `cap` sends are all accepted and fill the
/// buffer, the next send is deferred with nothing enqueued, and one receive
/// then frees a slot so that the deferred send is accepted on retry.
pub proof fn lemma_capacity_backpressure<T>(
    cs: Seq<Channel<T>>,
    msgs: Seq<T>,
    c1: Channel<T>,
    c2: Channel<T>,
    msg: T,
    s: SendStatus<T>,
    r: RecvStatus<T>,
)
    requires
        send_run(cs, msgs),
        cs[0].queue().len() == 0,
        cs[0].receiver_live(),
        cs[0].cap() >= 1,
        msgs.len() == cs[0].cap(),
        send_transition(cs[cs.len() - 1], c1, msg, s),
        recv_transition(c1, c2, r),
    ensures
        s == SendStatus::Full(msg),
        c1.queue() =~= msgs,
        r == RecvStatus::<T>::Received(msgs[0]),
        c2.send_accepts(),
{
    lemma_send_run_queue(cs, msgs);
}

/// Law: once the sole sender handle is gone and the buffer is drained, a
/// receive reports `EndOfStream` — not a suspension and not an error — and
/// leaves the channel unchanged, so every further receive reports
/// `EndOfStream` as well.
pub proof fn lemma_end_of_stream<T>(pre: Channel<T>, post: Channel<T>, r: RecvStatus<T>)
    requires
        !pre.sender_live(),
        pre.queue().len() == 0,
        recv_transition(pre, post, r),
    ensures
        r == RecvStatus::<T>::EndOfStream,
        !post.sender_live(),
        post.queue().len() == 0,
{
}

} // verus!
