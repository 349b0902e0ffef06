//! The streaming token channel: an ordered single-producer, single-consumer
//! queue of reply fragments, terminated by closing the producer end.
//!
//! The channel keeps a ghost record of everything already delivered, so its
//! contracts state the whole delivery discipline: messages come out exactly
//! in the order they were pushed, with no duplication and no loss.

use vstd::prelude::*;

use crate::errors::Error;

verus! {

/// The view of one channel message: a reply fragment or a terminal error.
pub open spec fn msg_view(m: Result<String, Error>) -> Result<Seq<char>, Error> {
    match m {
        Ok(s) => Ok(s@),
        Err(e) => Err(e),
    }
}

/// What a consumer poll observes: the next message, or that nothing is
/// available yet, or that the producer closed with nothing left.
pub enum PollStep {
    /// The next message, in push order.
    Item(Result<String, Error>),
    /// No message yet, but the producer has not closed: a real consumer
    /// suspends here and polls again.
    NotReady,
    /// The producer closed and every message has been delivered.
    Finished,
}

/// An ordered queue of reply fragments from one producing decode task to
/// one consumer.
pub struct TokenChannel {
    queue: Vec<Result<String, Error>>,
    taken: Ghost<Seq<Result<Seq<char>, Error>>>,
    closed: bool,
}

impl TokenChannel {
    /// Everything the consumer has already received, in order.
    pub closed spec fn delivered(&self) -> Seq<Result<Seq<char>, Error>> {
        self.taken@
    }

    /// Everything pushed but not yet delivered, in order.
    pub closed spec fn pending(&self) -> Seq<Result<Seq<char>, Error>> {
        self.queue@.map(|i: int, m: Result<String, Error>| msg_view(m))
    }

    /// Everything the producer ever pushed, in order.
    pub open spec fn pushed(&self) -> Seq<Result<Seq<char>, Error>> {
        self.delivered() + self.pending()
    }

    /// Whether the producer end has closed.
    pub closed spec fn is_closed(&self) -> bool {
        self.closed
    }

    /// A fresh, open, empty channel.
    pub fn new() -> (r: TokenChannel)
        ensures
            r.delivered() == Seq::<Result<Seq<char>, Error>>::empty(),
            r.pending() == Seq::<Result<Seq<char>, Error>>::empty(),
            r.pushed() == Seq::<Result<Seq<char>, Error>>::empty(),
            !r.is_closed(),
    {
        let r = TokenChannel { queue: Vec::new(), taken: Ghost(Seq::empty()), closed: false };
        proof {
            assert(r.pending() =~= Seq::<Result<Seq<char>, Error>>::empty());
            assert(r.pushed() =~= Seq::<Result<Seq<char>, Error>>::empty());
        }
        r
    }

    /// The producer appends one reply fragment.
    pub fn push_token(&mut self, t: String)
        requires
            !old(self).is_closed(),
        ensures
            final(self).delivered() == old(self).delivered(),
            final(self).pending() == old(self).pending().push(Ok(t@)),
            final(self).pushed() == old(self).pushed().push(Ok(t@)),
            !final(self).is_closed(),
    {
        let ghost tv = t@;
        self.queue.push(Ok(t));
        proof {
            assert(self.pending() =~= old(self).pending().push(Ok(tv)));
            assert(self.pushed() =~= old(self).pushed().push(Ok(tv)));
        }
    }

    /// The producer reports a terminal failure as the last message.
    pub fn push_failure(&mut self, e: Error)
        requires
            !old(self).is_closed(),
        ensures
            final(self).delivered() == old(self).delivered(),
            final(self).pending() == old(self).pending().push(Err(e)),
            final(self).pushed() == old(self).pushed().push(Err(e)),
            !final(self).is_closed(),
    {
        self.queue.push(Err(e));
        proof {
            assert(self.pending() =~= old(self).pending().push(Err(e)));
            assert(self.pushed() =~= old(self).pushed().push(Err(e)));
        }
    }

    /// The producer closes the channel; nothing more will be pushed.
    pub fn close(&mut self)
        ensures
            final(self).delivered() == old(self).delivered(),
            final(self).pending() == old(self).pending(),
            final(self).pushed() == old(self).pushed(),
            final(self).is_closed(),
    {
        self.closed = true;
    }

    /// The consumer pulls the next message. Delivery is exactly first-in,
    /// first-out: the message returned is the oldest undelivered one.
    pub fn poll_next(&mut self) -> (r: PollStep)
        ensures
            final(self).pushed() == old(self).pushed(),
            final(self).is_closed() == old(self).is_closed(),
            old(self).pending().len() > 0 ==> {
                &&& r matches PollStep::Item(m) && msg_view(m) == old(self).pending()[0]
                &&& final(self).delivered() == old(self).delivered().push(old(self).pending()[0])
                &&& final(self).pending() == old(self).pending().drop_first()
            },
            old(self).pending().len() == 0 && old(self).is_closed() ==> {
                &&& r is Finished
                &&& final(self).delivered() == old(self).delivered()
                &&& final(self).pending() == old(self).pending()
            },
            old(self).pending().len() == 0 && !old(self).is_closed() ==> {
                &&& r is NotReady
                &&& final(self).delivered() == old(self).delivered()
                &&& final(self).pending() == old(self).pending()
            },
    {
        if self.queue.len() > 0 {
            let m = self.queue.remove(0);
            let ghost mv = msg_view(m);
            proof {
                self.taken@ = self.taken@.push(mv);
                assert(self.pending() =~= old(self).pending().drop_first());
            }
            PollStep::Item(m)
        } else {
            proof {
                assert(self.pending() =~= old(self).pending());
            }
            if self.closed {
                PollStep::Finished
            } else {
                PollStep::NotReady
            }
        }
    }
}

/// The delivery-order law: at every moment the messages already delivered
/// are exactly the first `delivered().len()` messages ever pushed, in push
/// order, and together with the pending ones they make up every push — so
/// the channel neither reorders, nor duplicates, nor loses a message.
pub proof fn lemma_delivery_order(ch: &TokenChannel)
    ensures
        ch.pushed() == ch.delivered() + ch.pending(),
        ch.delivered() == ch.pushed().take(ch.delivered().len() as int),
        ch.pending() == ch.pushed().skip(ch.delivered().len() as int),
{
    assert(ch.delivered() =~= ch.pushed().take(ch.delivered().len() as int));
    assert(ch.pending() =~= ch.pushed().skip(ch.delivered().len() as int));
}

} // verus!
