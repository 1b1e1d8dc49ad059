//! Sending every item to every one of several sinks, at the pace of the slowest.
//!
//! The sinks themselves are driven from outside. What is kept here is what the
//! protocol has to know of them: for each one, whether an item is still waiting to be
//! taken by it.

use vstd::prelude::*;

verus! {

/// The answer of a sink to an item: it has taken it, or it is not ready and the item
/// waits.
#[derive(Clone, Debug, PartialEq, Eq)]
pub enum AsyncSink<T> {
    Ready,
    NotReady(T),
}

impl<T> AsyncSink<T> {
    pub open spec fn spec_is_ready(&self) -> bool {
        *self is Ready
    }

    #[verifier::when_used_as_spec(spec_is_ready)]
    pub fn is_ready(&self) -> (r: bool)
        ensures
            r == self.spec_is_ready(),
    {
        match self {
            AsyncSink::Ready => true,
            AsyncSink::NotReady(_) => false,
        }
    }
}

/// One sink, as the protocol sees it.
pub struct Downstream<T> {
    /// The copy of an item that waits for the sink, if one does.
    pub state: AsyncSink<T>,
    /// The items that the sink has taken, in their order.
    pub taken: Ghost<Seq<T>>,
    /// The item that waits for the sink, if one does.
    pub held: Ghost<Option<T>>,
}

/// The items of an optional item.
pub open spec fn one_or_none<T>(item: Option<T>) -> Seq<T> {
    match item {
        Some(x) => seq![x],
        None => Seq::empty(),
    }
}

impl<T: Clone> Downstream<T> {
    /// The copy that waits is a copy of the item that waits.
    pub open spec fn wf(&self) -> bool {
        match self.state {
            AsyncSink::Ready => self.held@ is None,
            AsyncSink::NotReady(copy) => self.held@ is Some && cloned(self.held@.unwrap(), copy),
        }
    }

    /// The items that were sent to the sink: those it has taken, and after them the
    /// one that waits for it.
    pub open spec fn sent(&self) -> Seq<T> {
        self.taken@ + one_or_none(self.held@)
    }

    pub fn new() -> (d: Downstream<T>)
        ensures
            d.wf(),
            d.state is Ready,
            d.taken@ == Seq::<T>::empty(),
    {
        Downstream { state: AsyncSink::Ready, taken: Ghost(Seq::empty()), held: Ghost(None) }
    }

    /// Whether no item waits for the sink.
    pub fn is_ready(&self) -> (r: bool)
        ensures
            r == (self.state is Ready),
    {
        self.state.is_ready()
    }

    /// The copy that waits for the sink and has to be offered to it again.
    pub fn pending(&self) -> (item: Option<&T>)
        ensures
            match self.state {
                AsyncSink::Ready => item is None,
                AsyncSink::NotReady(copy) => item == Some(&copy),
            },
    {
        match &self.state {
            AsyncSink::Ready => None,
            AsyncSink::NotReady(copy) => Some(copy),
        }
    }

    /// The sink has taken the item that waited for it.
    pub fn flushed(&mut self)
        requires
            old(self).wf(),
            !(old(self).state is Ready),
        ensures
            final(self).wf(),
            final(self).state is Ready,
            final(self).taken@ == old(self).taken@.push(old(self).held@.unwrap()),
            final(self).sent() == old(self).sent(),
    {
        self.state = AsyncSink::Ready;
        proof {
            self.taken@ = self.taken@.push(self.held@.unwrap());
            self.held@ = None;
            assert(self.sent() =~= old(self).sent());
        }
    }

    /// An item was offered to the sink, which took it or not.
    pub fn offered(&mut self, item: &T, took: bool)
        requires
            old(self).wf(),
            old(self).state is Ready,
        ensures
            final(self).wf(),
            (final(self).state is Ready) == took,
            final(self).sent() == old(self).sent().push(*item),
            final(self).taken@ == if took {
                old(self).taken@.push(*item)
            } else {
                old(self).taken@
            },
    {
        if took {
            proof {
                self.taken@ = self.taken@.push(*item);
                assert(self.sent() =~= old(self).sent().push(*item));
            }
        } else {
            self.state = AsyncSink::NotReady(item.clone());
            proof {
                self.held@ = Some(*item);
                assert(self.sent() =~= old(self).sent().push(*item));
            }
        }
    }

    /// Whether the sink is done with all it was sent: no item waits for it, and it has
    /// flushed what it took.
    pub fn poll_complete(&self, sink_flushed: bool) -> (complete: bool)
        ensures
            complete == (self.state is Ready && sink_flushed),
    {
        self.state.is_ready() && sink_flushed
    }

    /// Whether the sink may be closed: only when no item waits for it.
    pub fn may_close(&self) -> (r: bool)
        ensures
            r == (self.state is Ready),
    {
        self.state.is_ready()
    }
}

/// The protocol that sends the items of one source to several sinks.
pub struct Fanout<T> {
    pub downstreams: Vec<Downstream<T>>,
    /// The items that were accepted from the source, in their order.
    pub accepted: Ghost<Seq<T>>,
}

impl<T: Clone> Fanout<T> {
    /// Every sink was sent exactly the items that were accepted, in their order.
    pub open spec fn wf(&self) -> bool {
        forall|i: int|
            0 <= i < self.downstreams@.len() ==> (#[trigger] self.downstreams@[i]).wf()
                && self.downstreams@[i].sent() == self.accepted@
    }

    /// Whether no item waits for any sink.
    pub open spec fn all_ready(&self) -> bool {
        forall|i: int|
            0 <= i < self.downstreams@.len() ==> (#[trigger] self.downstreams@[i]).state is Ready
    }

    /// The protocol for `sinks` sinks, none of which has been sent anything.
    pub fn new(sinks: usize) -> (fanout: Fanout<T>)
        ensures
            fanout.wf(),
            fanout.downstreams@.len() == sinks,
            fanout.all_ready(),
            fanout.accepted@ == Seq::<T>::empty(),
    {
        let mut downstreams: Vec<Downstream<T>> = Vec::new();
        let mut i: usize = 0;
        while i < sinks
            invariant
                i <= sinks,
                downstreams@.len() == i,
                forall|k: int|
                    0 <= k < i ==> (#[trigger] downstreams@[k]).wf() && downstreams@[k].state is Ready
                        && downstreams@[k].taken@ == Seq::<T>::empty(),
            decreases sinks - i,
        {
            downstreams.push(Downstream::new());
            i += 1;
        }
        let fanout = Fanout { downstreams, accepted: Ghost(Seq::empty()) };
        proof {
            assert forall|k: int| 0 <= k < fanout.downstreams@.len() implies (
            #[trigger] fanout.downstreams@[k]).sent() == fanout.accepted@ by {
                assert(fanout.downstreams@[k].sent() =~= Seq::<T>::empty());
            }
        }
        fanout
    }

    /// The number of sinks.
    pub fn len(&self) -> (n: usize)
        ensures
            n == self.downstreams@.len(),
    {
        self.downstreams.len()
    }

    /// The copy that waits for a sink and has to be offered to it again before
    /// anything else is sent.
    pub fn pending(&self, sink: usize) -> (item: Option<&T>)
        requires
            sink < self.downstreams@.len(),
        ensures
            match self.downstreams@[sink as int].state {
                AsyncSink::Ready => item is None,
                AsyncSink::NotReady(copy) => item == Some(&copy),
            },
    {
        self.downstreams[sink].pending()
    }

    /// A sink has taken the item that waited for it.
    pub fn flushed(&mut self, sink: usize)
        requires
            old(self).wf(),
            sink < old(self).downstreams@.len(),
            !(old(self).downstreams@[sink as int].state is Ready),
        ensures
            final(self).wf(),
            final(self).accepted@ == old(self).accepted@,
            final(self).downstreams@.len() == old(self).downstreams@.len(),
            final(self).downstreams@[sink as int].state is Ready,
            final(self).downstreams@[sink as int].taken@ == old(self).downstreams@[sink as int].sent(),
            forall|i: int|
                0 <= i < final(self).downstreams@.len() && i != sink
                    ==> final(self).downstreams@[i] == old(self).downstreams@[i],
    {
        self.downstreams[sink].flushed();
        proof {
            let d = old(self).downstreams@[sink as int];
            assert(d.held@ is Some);
            assert(d.taken@.push(d.held@.unwrap()) =~= d.sent());
        }
    }

    /// Whether the next item can be accepted: only when no item waits for any sink.
    /// The source is told to wait otherwise.
    pub fn is_ready(&self) -> (ready: bool)
        ensures
            ready == self.all_ready(),
    {
        let mut i: usize = 0;
        while i < self.downstreams.len()
            invariant
                i <= self.downstreams@.len(),
                forall|k: int| 0 <= k < i ==> (#[trigger] self.downstreams@[k]).state is Ready,
            decreases self.downstreams@.len() - i,
        {
            if !self.downstreams[i].is_ready() {
                return false;
            }
            i += 1;
        }
        true
    }

    /// An item was accepted and offered to every sink; `took` tells for each sink
    /// whether it took the item. For a sink that did not, a copy of the item waits.
    pub fn start_send(&mut self, item: T, took: &Vec<bool>)
        requires
            old(self).wf(),
            old(self).all_ready(),
            took@.len() == old(self).downstreams@.len(),
        ensures
            final(self).wf(),
            final(self).accepted@ == old(self).accepted@.push(item),
            final(self).downstreams@.len() == old(self).downstreams@.len(),
            forall|i: int|
                0 <= i < took@.len() ==> (#[trigger] final(self).downstreams@[i]).state is Ready
                    == took@[i],
            forall|i: int|
                0 <= i < took@.len() ==> (#[trigger] final(self).downstreams@[i]).taken@
                    == if took@[i] {
                    old(self).downstreams@[i].taken@.push(item)
                } else {
                    old(self).downstreams@[i].taken@
                },
    {
        let n = self.downstreams.len();
        let ghost before = self.accepted@;
        let mut i: usize = 0;
        while i < n
            invariant
                i <= n,
                n == self.downstreams@.len(),
                n == old(self).downstreams@.len(),
                n == took@.len(),
                old(self).wf(),
                old(self).all_ready(),
                before == old(self).accepted@,
                self.accepted@ == before,
                forall|k: int|
                    0 <= k < i ==> (#[trigger] self.downstreams@[k]).wf()
                        && self.downstreams@[k].sent() == before.push(item)
                        && self.downstreams@[k].state is Ready == took@[k]
                        && self.downstreams@[k].taken@ == if took@[k] {
                        old(self).downstreams@[k].taken@.push(item)
                    } else {
                        old(self).downstreams@[k].taken@
                    },
                forall|k: int| i <= k < n ==> self.downstreams@[k] == old(self).downstreams@[k],
            decreases n - i,
        {
            proof {
                assert(old(self).downstreams@[i as int].wf());
            }
            self.downstreams[i].offered(&item, took[i]);
            i += 1;
        }
        proof {
            self.accepted@ = before.push(item);
        }
    }

    /// Whether all that was accepted has reached the sinks: no item waits for any
    /// sink, and every sink has flushed what it took.
    pub fn poll_complete(&self, flushed: &Vec<bool>) -> (complete: bool)
        requires
            flushed@.len() == self.downstreams@.len(),
        ensures
            complete == (self.all_ready() && forall|i: int|
                0 <= i < flushed@.len() ==> flushed@[i]),
    {
        let mut i: usize = 0;
        while i < self.downstreams.len()
            invariant
                i <= self.downstreams@.len(),
                flushed@.len() == self.downstreams@.len(),
                forall|k: int| 0 <= k < i ==> (#[trigger] self.downstreams@[k]).state is Ready,
                forall|k: int| 0 <= k < i ==> #[trigger] flushed@[k],
            decreases self.downstreams@.len() - i,
        {
            if !self.downstreams[i].poll_complete(flushed[i]) {
                return false;
            }
            i += 1;
        }
        true
    }
}

/// If no sink fails, every sink gets every accepted item exactly once and in the order
/// in which the items were accepted: what a sink has taken, followed by the one item
/// that may still wait for it, is what was accepted.
pub proof fn lemma_sinks_get_what_was_accepted<T: Clone>(fanout: Fanout<T>, sink: int)
    requires
        fanout.wf(),
        0 <= sink < fanout.downstreams@.len(),
    ensures
        fanout.downstreams@[sink].taken@ + one_or_none(fanout.downstreams@[sink].held@)
            == fanout.accepted@,
        fanout.downstreams@[sink].state is Ready ==> fanout.downstreams@[sink].taken@
            == fanout.accepted@,
        !(fanout.downstreams@[sink].state is Ready) ==> fanout.accepted@.len() > 0
            && fanout.downstreams@[sink].taken@ == fanout.accepted@.drop_last()
            && fanout.downstreams@[sink].held@ == Some(fanout.accepted@.last()),
{
    let d = fanout.downstreams@[sink];
    assert(d.wf());
    assert(d.sent() == fanout.accepted@);
    if d.state is Ready {
        assert(d.taken@ + Seq::<T>::empty() =~= d.taken@);
    } else {
        assert(d.sent().drop_last() =~= d.taken@);
        assert(d.sent().last() == d.held@.unwrap());
    }
}

} // verus!
