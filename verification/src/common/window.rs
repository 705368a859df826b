//! A rolling window: the most recent samples of a stream, oldest first, up
//! to a fixed number.

use vstd::prelude::*;

verus! {

/// The last `capacity` items of a stream, oldest first; all of them while
/// the stream is shorter.
pub open spec fn recent<T>(stream: Seq<T>, capacity: nat) -> Seq<T> {
    if stream.len() > capacity {
        stream.skip(stream.len() - capacity)
    } else {
        stream
    }
}

/// A window of at most `capacity` samples. A sample pushed into a full
/// window evicts the oldest one.
#[derive(Debug, Clone)]
pub struct RollingWindow<T> {
    items: Vec<T>,
    capacity: usize,
}

impl<T> View for RollingWindow<T> {
    type V = Seq<T>;

    /// The samples held, oldest first.
    closed spec fn view(&self) -> Seq<T> {
        self.items@
    }
}

impl<T> RollingWindow<T> {
    /// The most samples the window holds.
    pub closed spec fn capacity_spec(&self) -> nat {
        self.capacity as nat
    }

    /// The window holds no more than its capacity.
    pub open spec fn wf(&self) -> bool {
        self@.len() <= self.capacity_spec()
    }

    /// An empty window for `capacity` samples.
    pub fn new(capacity: usize) -> (window: Self)
        ensures
            window.wf(),
            window@ == Seq::<T>::empty(),
            window.capacity_spec() == capacity,
    {
        RollingWindow { items: Vec::new(), capacity }
    }

    /// The most samples the window holds.
    pub fn capacity(&self) -> (capacity: usize)
        ensures
            capacity == self.capacity_spec(),
    {
        self.capacity
    }

    /// The number of samples held.
    pub fn len(&self) -> (len: usize)
        ensures
            len == self@.len(),
    {
        self.items.len()
    }

    /// Whether no sample is held.
    pub fn is_empty(&self) -> (empty: bool)
        ensures
            empty == (self@.len() == 0),
    {
        self.items.len() == 0
    }

    /// Whether the window holds as many samples as it can: only then are
    /// statistics over the whole window available.
    pub fn is_full(&self) -> (full: bool)
        ensures
            full == (self@.len() == self.capacity_spec()),
    {
        self.items.len() == self.capacity
    }

    /// The samples held, oldest first.
    pub fn items(&self) -> (items: &Vec<T>)
        ensures
            items@ == self@,
    {
        &self.items
    }

    /// The newest sample, if any.
    pub fn last(&self) -> (newest: Option<&T>)
        ensures
            match newest {
                Some(item) => self@.len() > 0 && *item == self@.last(),
                None => self@.len() == 0,
            },
    {
        if self.items.len() == 0 {
            None
        } else {
            Some(&self.items[self.items.len() - 1])
        }
    }

    /// Appends a sample. Where that takes the window over its capacity the
    /// oldest sample leaves and is returned.
    pub fn push(&mut self, item: T) -> (evicted: Option<T>)
        requires
            old(self).wf(),
        ensures
            final(self).wf(),
            final(self).capacity_spec() == old(self).capacity_spec(),
            final(self)@ == recent(old(self)@.push(item), old(self).capacity_spec()),
            match evicted {
                Some(oldest) => old(self)@.len() == old(self).capacity_spec() && oldest == old(
                    self,
                )@.push(item)[0],
                None => old(self)@.len() < old(self).capacity_spec(),
            },
    {
        self.items.push(item);
        if self.items.len() > self.capacity {
            let oldest = self.items.remove(0);
            assert(self.items@ =~= old(self)@.push(item).skip(1));
            Some(oldest)
        } else {
            None
        }
    }
}

/// A window that was fed a stream holds the most recent samples of it: to
/// push a sample into the recent part of a stream gives the recent part of
/// the stream with the sample appended.
pub proof fn lemma_window_holds_recent<T>(stream: Seq<T>, item: T, capacity: nat)
    ensures
        recent(recent(stream, capacity).push(item), capacity) == recent(
            stream.push(item),
            capacity,
        ),
        recent(stream, capacity).len() <= capacity,
        stream.len() >= capacity ==> recent(stream, capacity).len() == capacity,
{
    assert(recent(recent(stream, capacity).push(item), capacity) =~= recent(
        stream.push(item),
        capacity,
    ));
}

} // verus!
