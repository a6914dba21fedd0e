//! The command queue: commands wait here, first in, first out, until the
//! handler drains them.

use std::collections::VecDeque;
use vstd::prelude::*;
use crate::command::{Command, Target};

verus! {

/// Commands with their targets, in the order in which they were enqueued.
/// There is no priority, no merging of equal commands and no bound.
pub struct CommandQueue {
    items: VecDeque<(Target, Command)>,
}

impl View for CommandQueue {
    type V = Seq<(Target, Command)>;

    /// The waiting commands, the oldest first.
    closed spec fn view(&self) -> Seq<(Target, Command)> {
        self.items@
    }
}

impl CommandQueue {
    pub fn new() -> (queue: CommandQueue)
        ensures
            queue@ == Seq::<(Target, Command)>::empty(),
    {
        CommandQueue { items: VecDeque::new() }
    }

    /// Adds a command behind all that wait.
    pub fn enqueue(&mut self, target: Target, command: Command)
        ensures
            final(self)@ == old(self)@.push((target, command)),
    {
        self.items.push_back((target, command));
    }

    /// Takes the oldest command out, or says that none waits.
    pub fn dequeue(&mut self) -> (front: Option<(Target, Command)>)
        ensures
            old(self)@.len() == 0 ==> front is None && final(self)@ == old(self)@,
            old(self)@.len() > 0 ==> front == Some(old(self)@[0]) && final(self)@ == old(
                self,
            )@.drop_first(),
    {
        self.items.pop_front()
    }

    pub fn len(&self) -> (n: usize)
        ensures
            n == self@.len(),
    {
        self.items.len()
    }

    pub fn is_empty(&self) -> (empty: bool)
        ensures
            empty == (self@.len() == 0),
    {
        self.items.len() == 0
    }

    /// Moves every command of `other` behind those that wait here, in their
    /// order, and leaves `other` empty.
    pub fn append(&mut self, other: &mut CommandQueue)
        ensures
            final(self)@ == old(self)@ + old(other)@,
            final(other)@ == Seq::<(Target, Command)>::empty(),
    {
        self.items.append(&mut other.items);
    }
}

/// The queue after each of `items` was enqueued in turn.
pub open spec fn enqueue_all(queue: Seq<(Target, Command)>, items: Seq<(Target, Command)>) -> Seq<
    (Target, Command),
>
    decreases items.len(),
{
    if items.len() == 0 {
        queue
    } else {
        enqueue_all(queue.push(items[0]), items.drop_first())
    }
}

/// What comes out when a queue is dequeued until it is empty, in the order in
/// which it comes out.
pub open spec fn dequeue_all(queue: Seq<(Target, Command)>) -> Seq<(Target, Command)>
    decreases queue.len(),
{
    if queue.len() == 0 {
        Seq::empty()
    } else {
        seq![queue[0]] + dequeue_all(queue.drop_first())
    }
}

/// Dequeuing a queue until it is empty gives what waited, the oldest first.
pub proof fn lemma_dequeue_all(queue: Seq<(Target, Command)>)
    ensures
        dequeue_all(queue) == queue,
    decreases queue.len(),
{
    if queue.len() > 0 {
        lemma_dequeue_all(queue.drop_first());
        assert(seq![queue[0]] + queue.drop_first() =~= queue);
    }
}

/// Enqueuing items one by one puts them behind what waited, in their order.
pub proof fn lemma_enqueue_all(queue: Seq<(Target, Command)>, items: Seq<(Target, Command)>)
    ensures
        enqueue_all(queue, items) == queue + items,
    decreases items.len(),
{
    if items.len() == 0 {
        assert(queue + items =~= queue);
    } else {
        lemma_enqueue_all(queue.push(items[0]), items.drop_first());
        assert(queue.push(items[0]) + items.drop_first() =~= queue + items);
    }
}

/// First in, first out: whatever is enqueued on an empty queue, in whatever
/// number, comes out in the order in which it went in.
pub proof fn lemma_fifo(items: Seq<(Target, Command)>)
    ensures
        dequeue_all(enqueue_all(Seq::empty(), items)) == items,
{
    lemma_enqueue_all(Seq::empty(), items);
    assert(Seq::<(Target, Command)>::empty() + items =~= items);
    lemma_dequeue_all(items);
}

} // verus!
