//! A first-in, first-out queue of prompts, for asking questions in turn.
use vstd::prelude::*;
use std::collections::VecDeque;
use crate::prompt::Prompt;

verus! {

/// What one call of `next` on a queue holding `q` returns, and what the queue
/// holds after it.
pub open spec fn next_of<T>(q: Seq<T>) -> (Option<T>, Seq<T>) {
    if q.len() > 0 {
        (Some(q[0]), q.drop_first())
    } else {
        (None, q)
    }
}

/// What a queue holding `q` holds after `add` of each of `ps`, in order.
pub open spec fn added_all<T>(q: Seq<T>, ps: Seq<T>) -> Seq<T>
    decreases ps.len(),
{
    if ps.len() == 0 {
        q
    } else {
        added_all(q.push(ps[0]), ps.drop_first())
    }
}

/// What `k` calls of `next` on a queue holding `q` return, in order.
pub open spec fn taken<T>(q: Seq<T>, k: nat) -> Seq<Option<T>>
    decreases k,
{
    if k == 0 {
        Seq::empty()
    } else {
        seq![next_of(q).0] + taken(next_of(q).1, (k - 1) as nat)
    }
}

proof fn lemma_added_all<T>(q: Seq<T>, ps: Seq<T>)
    ensures
        added_all(q, ps) == q + ps,
    decreases ps.len(),
{
    if ps.len() > 0 {
        lemma_added_all(q.push(ps[0]), ps.drop_first());
        assert(q.push(ps[0]) + ps.drop_first() =~= q + ps);
    } else {
        assert(q + ps =~= q);
    }
}

proof fn lemma_taken_all<T>(q: Seq<T>)
    ensures
        taken(q, q.len() + 1) == q.map_values(|p: T| Some(p)).push(None),
    decreases q.len(),
{
    if q.len() > 0 {
        lemma_taken_all(q.drop_first());
        assert(seq![Some(q[0])] + q.drop_first().map_values(|p: T| Some(p)).push(None)
            =~= q.map_values(|p: T| Some(p)).push(None));
    } else {
        assert(taken(q, 0) =~= Seq::<Option<T>>::empty());
        assert(q.map_values(|p: T| Some(p)).push(None) =~= seq![None]);
    }
}

/// Prompts leave a queue in the order in which they were added: after adding
/// `ps` to an empty queue, `ps.len()` calls of `next` return them one by one,
/// and one call more returns nothing.
pub proof fn lemma_fifo<T>(ps: Seq<T>)
    ensures
        taken(added_all(Seq::empty(), ps), ps.len() + 1) == ps.map_values(|p: T| Some(p)).push(
            None,
        ),
{
    lemma_added_all(Seq::empty(), ps);
    assert(Seq::<T>::empty() + ps =~= ps);
    lemma_taken_all(ps);
}

/// Prompts waiting to be asked, first in, first out.
pub struct PromptList<V> {
    prompts: VecDeque<Prompt<V>>,
}

impl<V> View for PromptList<V> {
    type V = Seq<Prompt<V>>;

    /// The waiting prompts, the next one first.
    closed spec fn view(&self) -> Seq<Prompt<V>> {
        self.prompts@
    }
}

impl<V> PromptList<V> {
    /// An empty queue.
    pub fn new() -> (r: Self)
        ensures
            r@ == Seq::<Prompt<V>>::empty(),
    {
        PromptList { prompts: VecDeque::new() }
    }

    /// Adds `prompt` at the back.
    pub fn add(self, prompt: Prompt<V>) -> (r: Self)
        ensures
            r@ == self@.push(prompt),
    {
        let mut l = self;
        l.prompts.push_back(prompt);
        l
    }

    /// Removes and returns the prompt at the front, if there is one.
    pub fn next(&mut self) -> (r: Option<Prompt<V>>)
        ensures
            (r, final(self)@) == next_of(old(self)@),
    {
        self.prompts.pop_front()
    }

    /// How many prompts are waiting.
    pub fn len(&self) -> (r: usize)
        ensures
            r == self@.len(),
    {
        self.prompts.len()
    }
}

} // verus!
