use std::collections::VecDeque;
use vstd::prelude::*;

use crate::message::Message;

verus! {

/// What a non-blocking receive found.
pub enum TryRecv {
    /// The oldest pending entry, now taken off the queue.
    Ready(Message),
    /// Nothing is pending but a sender remains: the receiver should wait.
    Empty,
    /// Nothing is pending and no sender remains: the stream has ended.
    Disconnected,
}

/// An unbounded first-in first-out queue from many senders to one receiver.
///
/// The queue counts its live sender handles. It records, as ghost state,
/// every entry ever sent and every entry ever received; what is pending is
/// always what was sent and not yet received.
pub struct MessageQueue {
    pending: VecDeque<Message>,
    senders: usize,
    receiver_open: bool,
    sent: Ghost<Seq<Message>>,
    received: Ghost<Seq<Message>>,
}

impl MessageQueue {
    /// The entries waiting to be received, oldest first.
    pub closed spec fn pending(&self) -> Seq<Message> {
        self.pending@
    }

    /// How many sender handles are alive.
    pub closed spec fn senders(&self) -> nat {
        self.senders as nat
    }

    /// Whether the receiving side is still there.
    pub closed spec fn receiver_open(&self) -> bool {
        self.receiver_open
    }

    /// Every entry accepted by `send`, in the order of acceptance.
    pub closed spec fn sent(&self) -> Seq<Message> {
        self.sent@
    }

    /// Every entry handed out by `try_recv`, in the order handed out.
    pub closed spec fn received(&self) -> Seq<Message> {
        self.received@
    }

    /// The stream has ended: no sender remains and nothing is pending.
    pub open spec fn drained(&self) -> bool {
        self.senders() == 0 && self.pending().len() == 0
    }

    /// What was sent is exactly what was received followed by what is pending.
    pub closed spec fn wf(&self) -> bool {
        self.sent@ == self.received@ + self.pending@
    }

    /// A queue with one sender handle, one receiver and nothing in it.
    pub fn new() -> (q: MessageQueue)
        ensures
            q.wf(),
            q.senders() == 1,
            q.receiver_open(),
            q.pending() == Seq::<Message>::empty(),
            q.sent() == Seq::<Message>::empty(),
            q.received() == Seq::<Message>::empty(),
    {
        MessageQueue {
            pending: VecDeque::new(),
            senders: 1,
            receiver_open: true,
            sent: Ghost(Seq::empty()),
            received: Ghost(Seq::empty()),
        }
    }

    /// Registers one more sender handle, as cloning a live one does.
    pub fn add_sender(&mut self)
        requires
            old(self).wf(),
            old(self).senders() > 0,
            old(self).senders() < usize::MAX,
        ensures
            final(self).wf(),
            final(self).senders() == old(self).senders() + 1,
            final(self).receiver_open() == old(self).receiver_open(),
            final(self).pending() == old(self).pending(),
            final(self).sent() == old(self).sent(),
            final(self).received() == old(self).received(),
    {
        self.senders = self.senders + 1;
    }

    /// Retires one sender handle. When the last one goes, the stream ends
    /// once the pending entries are received.
    pub fn remove_sender(&mut self)
        requires
            old(self).wf(),
            old(self).senders() > 0,
        ensures
            final(self).wf(),
            final(self).senders() == old(self).senders() - 1,
            final(self).receiver_open() == old(self).receiver_open(),
            final(self).pending() == old(self).pending(),
            final(self).sent() == old(self).sent(),
            final(self).received() == old(self).received(),
    {
        self.senders = self.senders - 1;
    }

    /// Whether no sender handle remains.
    pub fn is_closed(&self) -> (r: bool)
        ensures
            r == (self.senders() == 0),
    {
        self.senders == 0
    }

    /// How many sender handles are alive.
    pub fn sender_count(&self) -> (r: usize)
        ensures
            r == self.senders(),
    {
        self.senders
    }

    /// Retires the receiver. Later sends fail; entries still pending are
    /// dropped with the queue.
    pub fn disconnect_receiver(&mut self)
        requires
            old(self).wf(),
        ensures
            final(self).wf(),
            !final(self).receiver_open(),
            final(self).senders() == old(self).senders(),
            final(self).pending() == old(self).pending(),
            final(self).sent() == old(self).sent(),
            final(self).received() == old(self).received(),
    {
        self.receiver_open = false;
    }

    /// Appends an entry at the back. Never waits. Fails, handing the entry
    /// back, exactly when the receiver is gone.
    pub fn send(&mut self, m: Message) -> (r: Result<(), Message>)
        requires
            old(self).wf(),
        ensures
            final(self).wf(),
            final(self).senders() == old(self).senders(),
            final(self).receiver_open() == old(self).receiver_open(),
            final(self).received() == old(self).received(),
            old(self).receiver_open() ==> {
                &&& r is Ok
                &&& final(self).pending() == old(self).pending().push(m)
                &&& final(self).sent() == old(self).sent().push(m)
            },
            !old(self).receiver_open() ==> {
                &&& r == Err::<(), Message>(m)
                &&& final(self).pending() == old(self).pending()
                &&& final(self).sent() == old(self).sent()
            },
    {
        if self.receiver_open {
            proof {
                self.sent@ = self.sent@.push(m);
            }
            self.pending.push_back(m);
            proof {
                assert(self.sent@ =~= self.received@ + self.pending@);
            }
            Ok(())
        } else {
            Err(m)
        }
    }

    /// Takes the oldest pending entry, if there is one; otherwise says
    /// whether the stream has ended.
    pub fn try_recv(&mut self) -> (r: TryRecv)
        requires
            old(self).wf(),
        ensures
            final(self).wf(),
            final(self).senders() == old(self).senders(),
            final(self).receiver_open() == old(self).receiver_open(),
            final(self).sent() == old(self).sent(),
            old(self).pending().len() > 0 ==> {
                &&& r == TryRecv::Ready(old(self).pending()[0])
                &&& final(self).pending() == old(self).pending().drop_first()
                &&& final(self).received() == old(self).received().push(old(self).pending()[0])
            },
            old(self).pending().len() == 0 ==> {
                &&& final(self).pending() == old(self).pending()
                &&& final(self).received() == old(self).received()
                &&& (r is Empty <==> old(self).senders() > 0)
                &&& (r is Disconnected <==> old(self).senders() == 0)
            },
    {
        match self.pending.pop_front() {
            Some(m) => {
                proof {
                    self.received@ = self.received@.push(m);
                    assert(self.sent@ =~= self.received@ + self.pending@);
                }
                TryRecv::Ready(m)
            },
            None => {
                if self.senders == 0 {
                    TryRecv::Disconnected
                } else {
                    TryRecv::Empty
                }
            },
        }
    }
}

/// Entries are received in the order in which they were sent: what has been
/// received is always a prefix of what has been sent. In particular the
/// entries of any one producer come out in the order of its calls.
pub proof fn lemma_received_in_send_order(q: &MessageQueue)
    requires
        q.wf(),
    ensures
        q.received().len() <= q.sent().len(),
        q.received() == q.sent().subrange(0, q.received().len() as int),
{
    assert(q.received() =~= q.sent().subrange(0, q.received().len() as int));
}

/// Once the stream has ended, every entry sent through any sender handle has
/// been received exactly once: nothing is lost and nothing is duplicated.
pub proof fn lemma_drained_received_everything(q: &MessageQueue)
    requires
        q.wf(),
        q.drained(),
    ensures
        q.received() == q.sent(),
{
    assert(q.received() =~= q.sent());
}

} // verus!
