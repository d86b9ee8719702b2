use vstd::prelude::*;

use std::collections::VecDeque;

verus! {

/// The messages waiting in a message queue. New messages enter at the front
/// and are taken from the back, so messages leave in the order they came.
#[derive(Debug)]
pub struct MessageBuffer<M> {
    base: VecDeque<M>,
}

/// The waiting messages, oldest first.
pub open spec fn oldest_first<M>(stored: Seq<M>) -> Seq<M> {
    stored.reverse()
}

impl<M> MessageBuffer<M> {
    /// The stored messages, newest first (front to back).
    pub closed spec fn stored(self) -> Seq<M> {
        self.base@
    }

    /// The waiting messages in the order they will be taken: oldest first.
    pub open spec fn waiting(self) -> Seq<M> {
        oldest_first(self.stored())
    }

    pub fn new() -> (r: Self)
        ensures
            r.waiting() == Seq::<M>::empty(),
    {
        let r = MessageBuffer { base: VecDeque::new() };
        assert(r.waiting() =~= Seq::<M>::empty());
        r
    }

    pub fn len(&self) -> (r: usize)
        ensures
            r == self.waiting().len(),
    {
        self.base.len()
    }

    /// Adds a message after all waiting ones.
    pub fn push(&mut self, message: M)
        ensures
            final(self).waiting() == old(self).waiting().push(message),
    {
        self.base.push_front(message);
        assert(final(self).waiting() =~= old(self).waiting().push(message)) by {
            assert(self.stored() == seq![message] + old(self).stored());
        }
    }

    /// Takes the oldest waiting message, if any.
    pub fn pop(&mut self) -> (r: Option<M>)
        ensures
            old(self).waiting().len() == 0 ==> r is None && final(self).waiting() == old(self).waiting(),
            old(self).waiting().len() > 0 ==> r == Some(old(self).waiting()[0])
                && final(self).waiting() == old(self).waiting().drop_first(),
    {
        let r = self.base.pop_back();
        proof {
            if old(self).stored().len() > 0 {
                assert(final(self).waiting() =~= old(self).waiting().drop_first());
            }
        }
        r
    }
}

/// The queue is first in, first out: a message pushed behind waiting ones is
/// taken only after them, and the oldest message is taken first.
pub proof fn lemma_first_in_first_out<M>(waiting: Seq<M>, message: M)
    ensures
        waiting.len() > 0 ==> waiting.push(message)[0] == waiting[0],
        waiting.len() > 0 ==> waiting.push(message).drop_first() == waiting.drop_first().push(message),
        waiting.len() == 0 ==> waiting.push(message)[0] == message,
{
    if waiting.len() > 0 {
        assert(waiting.push(message).drop_first() =~= waiting.drop_first().push(message));
    }
}

/// The waiting messages after `messages` were pushed in order onto `waiting`
/// (each push as [`MessageBuffer::push`] states it).
pub open spec fn push_all<M>(waiting: Seq<M>, messages: Seq<M>) -> Seq<M>
    decreases messages.len(),
{
    if messages.len() == 0 {
        waiting
    } else {
        push_all(waiting, messages.drop_last()).push(messages.last())
    }
}

/// The messages `n` successive pops take from `waiting`, in the order taken
/// (each pop as [`MessageBuffer::pop`] states it), and what is left.
pub open spec fn pop_n<M>(waiting: Seq<M>, n: nat) -> (Seq<M>, Seq<M>)
    decreases n,
{
    if n == 0 || waiting.len() == 0 {
        (Seq::empty(), waiting)
    } else {
        let (taken, rest) = pop_n(waiting.drop_first(), (n - 1) as nat);
        (seq![waiting[0]] + taken, rest)
    }
}

proof fn lemma_push_all_appends<M>(waiting: Seq<M>, messages: Seq<M>)
    ensures
        push_all(waiting, messages) == waiting + messages,
    decreases messages.len(),
{
    if messages.len() > 0 {
        lemma_push_all_appends(waiting, messages.drop_last());
        assert(waiting + messages.drop_last() + seq![messages.last()] =~= waiting + messages);
    }
}

proof fn lemma_pop_n_takes_prefix<M>(waiting: Seq<M>, n: nat)
    requires
        n <= waiting.len(),
    ensures
        pop_n(waiting, n).0 == waiting.subrange(0, n as int),
        pop_n(waiting, n).1 == waiting.subrange(n as int, waiting.len() as int),
    decreases n,
{
    if n > 0 {
        lemma_pop_n_takes_prefix(waiting.drop_first(), (n - 1) as nat);
        assert(seq![waiting[0]] + waiting.drop_first().subrange(0, n - 1) =~= waiting.subrange(0, n as int));
        assert(waiting.drop_first().subrange(n - 1, waiting.len() - 1) =~= waiting.subrange(n as int, waiting.len() as int));
    }
}

/// Messages pushed one after another onto an empty queue are taken, by as many
/// pops, each exactly once and in the order they were pushed, and the queue is
/// empty afterwards.
pub proof fn lemma_queue_delivers_in_order<M>(messages: Seq<M>)
    ensures
        pop_n(push_all(Seq::empty(), messages), messages.len()).0 == messages,
        pop_n(push_all(Seq::empty(), messages), messages.len()).1 == Seq::<M>::empty(),
{
    lemma_push_all_appends(Seq::<M>::empty(), messages);
    assert(Seq::<M>::empty() + messages =~= messages);
    lemma_pop_n_takes_prefix(messages, messages.len());
    assert(messages.subrange(0, messages.len() as int) =~= messages);
    assert(messages.subrange(messages.len() as int, messages.len() as int) =~= Seq::<M>::empty());
}

} // verus!
