//! A pair of buffers handed from one producer to one consumer a whole batch at a time.
use vstd::prelude::*;
use crate::async_flag::AsyncFlag;
use crate::raw::Poll;

verus! {

/// Abstract state of a [`DoubleVec`].
pub struct DoubleVecState<T> {
    pub pending: Seq<T>,
    pub current: Seq<T>,
    pub ready: bool,
    pub writing: bool,
}

/// Appending one element in an open session.
pub open spec fn push_step<T>(s: DoubleVecState<T>, value: T) -> DoubleVecState<T> {
    DoubleVecState { pending: s.pending.push(value), ..s }
}

/// Appending several elements in an open session, in order.
pub open spec fn push_all<T>(s: DoubleVecState<T>, values: Seq<T>) -> DoubleVecState<T>
    decreases values.len(),
{
    if values.len() == 0 {
        s
    } else {
        push_step(push_all(s, values.drop_last()), values.last())
    }
}

/// Ending a session and marking the batch ready.
pub open spec fn release_step<T>(s: DoubleVecState<T>) -> DoubleVecState<T> {
    DoubleVecState { writing: false, ready: true, ..s }
}

/// Taking the ready batch, if any; the flag says whether a batch was taken.
pub open spec fn swap_step<T>(s: DoubleVecState<T>) -> (bool, DoubleVecState<T>) {
    if s.ready {
        (true, DoubleVecState { pending: Seq::empty(), current: s.pending, ready: false, ..s })
    } else {
        (false, s)
    }
}

/// Double buffer: the producer fills one vector while the consumer reads the other.
///
/// A producer session runs from [`DoubleVec::write`] to [`DoubleVec::release`]
/// (or [`DoubleVec::discard`]); the consumer can only swap between sessions.
pub struct DoubleVec<T> {
    write_buf: Vec<T>,
    read_buf: Vec<T>,
    ready: AsyncFlag,
    writing: bool,
}

impl<T> DoubleVec<T> {
    pub open spec fn state(&self) -> DoubleVecState<T> {
        DoubleVecState {
            pending: self.pending(),
            current: self.current(),
            ready: self.is_ready(),
            writing: self.is_writing(),
        }
    }

    /// The producer's buffer.
    pub closed spec fn pending(&self) -> Seq<T> {
        self.write_buf@
    }

    /// The consumer's buffer.
    pub closed spec fn current(&self) -> Seq<T> {
        self.read_buf@
    }

    /// A released batch waits for the consumer.
    pub closed spec fn is_ready(&self) -> bool {
        self.ready.spec_value()
    }

    /// A producer session is open.
    pub closed spec fn is_writing(&self) -> bool {
        self.writing
    }

    pub fn new(capacity: usize) -> (r: DoubleVec<T>)
        ensures
            r.pending() == Seq::<T>::empty(),
            r.current() == Seq::<T>::empty(),
            !r.is_ready(),
            !r.is_writing(),
    {
        DoubleVec {
            write_buf: Vec::with_capacity(capacity),
            read_buf: Vec::with_capacity(capacity),
            ready: AsyncFlag::new(false),
            writing: false,
        }
    }

    /// Opens a producer session.
    pub fn write(&mut self)
        requires
            !old(self).is_writing(),
        ensures
            final(self).state() == write_step(old(self).state()),
    {
        self.writing = true;
    }

    /// Appends an element to the producer's buffer.
    pub fn push(&mut self, value: T)
        requires
            old(self).is_writing(),
        ensures
            final(self).state() == push_step(old(self).state(), value),
    {
        self.write_buf.push(value);
    }

    /// The producer's buffer as it stands.
    pub fn pending_buffer(&self) -> (r: &Vec<T>)
        ensures
            r@ == self.pending(),
    {
        &self.write_buf
    }

    /// Ends the producer session and marks the batch ready.
    pub fn release(&mut self)
        requires
            old(self).is_writing(),
        ensures
            final(self).state() == release_step(old(self).state()),
    {
        self.writing = false;
        let _ = self.ready.try_give();
    }

    /// Ends the producer session, dropping what it wrote, without marking anything ready.
    pub fn discard(&mut self)
        requires
            old(self).is_writing(),
        ensures
            !final(self).is_writing(),
            final(self).pending() == Seq::<T>::empty(),
            final(self).current() == old(self).current(),
            final(self).is_ready() == old(self).is_ready(),
    {
        self.write_buf.clear();
        self.writing = false;
    }

    pub fn ready(&self) -> (r: bool)
        ensures
            r == self.is_ready(),
    {
        self.ready.value()
    }

    /// Waits until a batch is ready.
    pub fn wait_ready(&mut self) -> (r: Poll<()>)
        ensures
            (r is Ready) == old(self).is_ready(),
            final(self).pending() == old(self).pending(),
            final(self).current() == old(self).current(),
            final(self).is_ready() == old(self).is_ready(),
            final(self).is_writing() == old(self).is_writing(),
    {
        let w = self.ready.wait(true);
        w.poll(&mut self.ready)
    }

    /// Takes the ready batch, if any: it becomes the consumer's buffer, and the
    /// producer continues on an empty one.
    pub fn try_swap(&mut self) -> (r: bool)
        requires
            !old(self).is_writing(),
        ensures
            (r, final(self).state()) == swap_step(old(self).state()),
    {
        if self.ready.try_take() {
            self.read_buf.clear();
            core::mem::swap(&mut self.write_buf, &mut self.read_buf);
            true
        } else {
            false
        }
    }

    /// The consumer's buffer.
    pub fn current_buffer(&self) -> (r: &Vec<T>)
        ensures
            r@ == self.current(),
    {
        &self.read_buf
    }
}

/// A producer session that pushes `values` and releases hands the consumer, at the
/// next swap, everything the producer's buffer held followed by `values` in order,
/// and a second swap without another release takes nothing.
pub proof fn lemma_session_delivered_whole<T>(s: DoubleVecState<T>, values: Seq<T>)
    requires
        s.writing,
    ensures
        swap_step(release_step(push_all(s, values))).0,
        swap_step(release_step(push_all(s, values))).1.current == s.pending + values,
        !swap_step(swap_step(release_step(push_all(s, values))).1).0,
    decreases values.len(),
{
    lemma_push_all(s, values);
}

/// Pushing appends in order and touches nothing else.
pub proof fn lemma_push_all<T>(s: DoubleVecState<T>, values: Seq<T>)
    ensures
        push_all(s, values) == (DoubleVecState { pending: s.pending + values, ..s }),
    decreases values.len(),
{
    if values.len() == 0 {
        assert(s.pending + values =~= s.pending);
    } else {
        lemma_push_all(s, values.drop_last());
        assert(s.pending + values.drop_last() + seq![values.last()] =~= s.pending + values);
        assert((s.pending + values.drop_last()).push(values.last()) =~= s.pending + values);
    }
}

/// Opening a session.
pub open spec fn write_step<T>(s: DoubleVecState<T>) -> DoubleVecState<T> {
    DoubleVecState { writing: true, ..s }
}

/// A run of complete producer sessions, each pushing one batch and releasing it.
pub open spec fn sessions<T>(s: DoubleVecState<T>, batches: Seq<Seq<T>>) -> DoubleVecState<T>
    decreases batches.len(),
{
    if batches.len() == 0 {
        s
    } else {
        release_step(push_all(write_step(sessions(s, batches.drop_last())), batches.last()))
    }
}

/// The batches of a run, joined in order.
pub open spec fn joined<T>(batches: Seq<Seq<T>>) -> Seq<T>
    decreases batches.len(),
{
    if batches.len() == 0 {
        Seq::empty()
    } else {
        joined(batches.drop_last()) + batches.last()
    }
}

/// After any number of complete sessions since the last swap, the next swap succeeds
/// exactly when there was at least one, and hands over all their elements in push order;
/// the producer then starts from an empty buffer.
pub proof fn lemma_sessions_delivered<T>(s: DoubleVecState<T>, batches: Seq<Seq<T>>)
    requires
        !s.writing,
        !s.ready,
    ensures
        swap_step(sessions(s, batches)).0 == (batches.len() > 0),
        batches.len() > 0 ==> swap_step(sessions(s, batches)).1.current == s.pending + joined(
            batches,
        ),
        swap_step(sessions(s, batches)).1.pending == (if batches.len() > 0 {
            Seq::<T>::empty()
        } else {
            s.pending
        }),
    decreases batches.len(),
{
    lemma_sessions_state(s, batches);
}

/// What a run of sessions leaves behind.
pub proof fn lemma_sessions_state<T>(s: DoubleVecState<T>, batches: Seq<Seq<T>>)
    requires
        !s.writing,
        !s.ready,
    ensures
        sessions(s, batches) == (DoubleVecState {
            pending: s.pending + joined(batches),
            ready: batches.len() > 0,
            ..s
        }),
    decreases batches.len(),
{
    if batches.len() == 0 {
        assert(s.pending + joined(batches) =~= s.pending);
    } else {
        lemma_sessions_state(s, batches.drop_last());
        let mid = sessions(s, batches.drop_last());
        lemma_push_all(write_step(mid), batches.last());
        assert(s.pending + joined(batches.drop_last()) + batches.last() =~= s.pending + joined(
            batches,
        ));
    }
}

/// Only a release marks a batch ready: opening a session and pushing leave the flag
/// alone, and a swap clears it. A swap is not possible while a session is open, so the
/// consumer never sees part of a session.
pub proof fn lemma_ready_only_on_release<T>(s: DoubleVecState<T>, values: Seq<T>)
    ensures
        write_step(s).ready == s.ready,
        push_all(s, values).ready == s.ready,
        release_step(s).ready,
        !swap_step(s).1.ready,
{
    lemma_push_all(s, values);
}

/// Consumer-side cursor that yields the elements of a double buffer one by one,
/// taking the next batch when the current one is exhausted.
pub struct Stream {
    pos: usize,
    cyclic: bool,
}

impl Stream {
    pub closed spec fn position(&self) -> usize {
        self.pos
    }

    /// Whether an exhausted batch with no successor starts over.
    pub closed spec fn is_cyclic(&self) -> bool {
        self.cyclic
    }

    pub fn new(cyclic: bool) -> (r: Stream)
        ensures
            r.position() == 0,
            r.is_cyclic() == cyclic,
    {
        Stream { pos: 0, cyclic }
    }

    /// The next element, or `None` when the current batch is exhausted and nothing follows.
    pub fn next<T: Copy>(&mut self, buffers: &mut DoubleVec<T>) -> (r: Option<T>)
        requires
            !old(buffers).is_writing(),
        ensures
            final(self).is_cyclic() == old(self).is_cyclic(),
            !final(buffers).is_writing(),
            old(self).position() < old(buffers).current().len() ==> {
                &&& r == Some(old(buffers).current()[old(self).position() as int])
                &&& final(self).position() == old(self).position() + 1
                &&& final(buffers).state() == old(buffers).state()
            },
            old(self).position() >= old(buffers).current().len() ==> {
                let (swapped, next) = swap_step(old(buffers).state());
                &&& final(buffers).state() == next
                &&& if next.current.len() > 0 && (swapped || old(self).is_cyclic()) {
                    r == Some(next.current[0]) && final(self).position() == 1
                } else {
                    r is None && final(self).position() == old(self).position()
                }
            },
    {
        if self.pos < self.read_len(buffers) {
            let x = buffers.read_buf[self.pos];
            self.pos = self.pos + 1;
            return Some(x);
        }
        let swapped = buffers.try_swap();
        if buffers.read_buf.len() > 0 && (swapped || self.cyclic) {
            self.pos = 1;
            Some(buffers.read_buf[0])
        } else {
            None
        }
    }

    fn read_len<T>(&self, buffers: &DoubleVec<T>) -> (r: usize)
        ensures
            r == buffers.current().len(),
    {
        buffers.read_buf.len()
    }
}

} // verus!
