use vstd::prelude::*;

verus! {

/// What one completed read reports, once its raw payload is interpreted.
#[derive(Debug)]
pub enum ReadOutcome<T, E> {
    /// The read delivered a value; more may follow.
    Chunk(T),
    /// The resource is exhausted.
    Done,
    /// The read failed.
    Failed(E),
}

impl<T, E> ReadOutcome<T, E> {
    /// The item a poll reports for this outcome; `None` is end-of-sequence.
    pub open spec fn item(self) -> Option<Result<T, E>> {
        match self {
            ReadOutcome::Chunk(v) => Some(Ok(v)),
            ReadOutcome::Done => None,
            ReadOutcome::Failed(e) => Some(Err(e)),
        }
    }

    /// Whether this outcome ends the sequence.
    pub open spec fn is_final(self) -> bool {
        !(self is Chunk)
    }
}

/// The result of polling the adapter once.
#[derive(Debug)]
pub enum Polled<T, E> {
    /// The read in flight has not resolved yet.
    Pending,
    /// The next item of the sequence.
    Item(Result<T, E>),
    /// The sequence has ended.
    End,
}

/// Turns the item a completed read yields into a poll result.
pub open spec fn polled_of<T, E>(item: Option<Result<T, E>>) -> Polled<T, E> {
    match item {
        Some(x) => Polled::Item(x),
        None => Polled::End,
    }
}

/// The abstract state of an adapter: the reader it still owns, the read
/// that is in flight, and whether teardown cancels the reader.
pub struct StreamState<R, F> {
    pub reader: Option<R>,
    pub pending: Option<F>,
    pub cancel_on_drop: bool,
}

impl<R, F> StreamState<R, F> {
    /// The state right after construction.
    pub open spec fn fresh(reader: R, cancel_on_drop: bool) -> Self {
        StreamState { reader: Some(reader), pending: None, cancel_on_drop }
    }

    /// A read is in flight only while a reader is held.
    pub open spec fn wf(self) -> bool {
        self.pending.is_some() ==> self.reader.is_some()
    }

    /// A reader is held and no read is in flight: the next poll issues one.
    pub open spec fn is_idle(self) -> bool {
        self.reader.is_some() && self.pending.is_none()
    }

    /// A read is in flight.
    pub open spec fn is_reading(self) -> bool {
        self.pending.is_some()
    }

    /// The sequence is over: no reader and no read in flight.
    pub open spec fn is_terminated(self) -> bool {
        self.reader.is_none() && self.pending.is_none()
    }

    /// The same state with `op` as the read in flight.
    pub open spec fn with_pending(self, op: F) -> Self {
        StreamState { pending: Some(op), ..self }
    }

    /// The state after the read in flight resolved with `o`: the read is
    /// cleared, and the reader is released when `o` ends the sequence.
    pub open spec fn completed<T, E>(self, o: ReadOutcome<T, E>) -> Self {
        StreamState {
            reader: if o.is_final() { None } else { self.reader },
            pending: None,
            cancel_on_drop: self.cancel_on_drop,
        }
    }

    /// The reader that teardown sends a best-effort cancellation to.
    pub open spec fn teardown_target(self) -> Option<R> {
        if self.cancel_on_drop { self.reader } else { None }
    }

    /// The state after teardown took its cancellation target, and with it
    /// abandoned the read in flight.
    pub open spec fn torn_down(self) -> Self {
        if self.cancel_on_drop { StreamState { reader: None, pending: None, ..self } } else { self }
    }

    /// One poll of the adapter. `op` is the read in flight once the poll has
    /// issued or resumed it, and `ev` is what that read showed: `None` when
    /// it has not resolved yet.
    pub open spec fn poll<T, E>(self, op: F, ev: Option<ReadOutcome<T, E>>) -> (Self, Polled<T, E>) {
        if self.is_terminated() {
            (self, Polled::End)
        } else {
            match ev {
                None => (self.with_pending(op), Polled::Pending),
                Some(o) => (self.with_pending(op).completed(o), polled_of(o.item())),
            }
        }
    }

    /// Polls once per entry of `outs`, each read resolving at once with that
    /// entry; `ops` are the reads in flight. Gives the last state and what
    /// each poll reported.
    pub open spec fn run<T, E>(self, ops: Seq<F>, outs: Seq<ReadOutcome<T, E>>) -> (Self, Seq<Polled<T, E>>)
        decreases outs.len(),
    {
        if outs.len() == 0 {
            (self, Seq::empty())
        } else {
            let (s, items) = self.run(ops.drop_last(), outs.drop_last());
            let (t, item) = s.poll(ops.last(), Some(outs.last()));
            (t, items.push(item))
        }
    }
}

/// Borrows the value held in `slot`, if any, for mutation in place.
fn slot_mut<T>(slot: &mut Option<T>) -> (r: Option<&mut T>)
    ensures
        r.is_some() == old(slot).is_some(),
        r.is_some() ==> *r.unwrap() == old(slot).unwrap(),
        r.is_some() ==> *final(slot) == Some(*final(r.unwrap())),
        r.is_none() ==> *final(slot) == *old(slot),
    no_unwind
{
    match slot {
        Some(v) => Some(v),
        None => None,
    }
}

/// Moves the value out of `slot`, leaving it empty.
fn slot_take<T>(slot: &mut Option<T>) -> (r: Option<T>)
    ensures
        r == *old(slot),
        final(slot).is_none(),
    no_unwind
{
    let mut out = None;
    std::mem::swap(&mut out, slot);
    out
}

/// Adapts a reader into a sequence of items, one per completed read.
///
/// The adapter owns the reader handle `R` and at most one in-flight read
/// `F`. Whoever drives it calls [`IntoStream::begin_poll`], waits on the read
/// it hands back, and reports how that read resolved through
/// [`IntoStream::complete_read`].
#[derive(Debug)]
pub struct IntoStream<R, F> {
    reader: Option<R>,
    fut: Option<F>,
    cancel_on_drop: bool,
}

impl<R, F> View for IntoStream<R, F> {
    type V = StreamState<R, F>;

    closed spec fn view(&self) -> StreamState<R, F> {
        StreamState { reader: self.reader, pending: self.fut, cancel_on_drop: self.cancel_on_drop }
    }
}

impl<R, F> IntoStream<R, F> {
    #[verifier::type_invariant]
    closed spec fn inv(self) -> bool {
        self@.wf()
    }

    /// Takes ownership of `reader`; no read is issued until the first poll.
    pub fn new(reader: R, cancel_on_drop: bool) -> (s: Self)
        ensures
            s@ == StreamState::<R, F>::fresh(reader, cancel_on_drop),
            !s@.is_terminated(),
    {
        IntoStream { reader: Some(reader), fut: None, cancel_on_drop }
    }

    /// Whether the sequence is over: no reader is held and no read is in flight.
    pub fn is_terminated(&self) -> (r: bool)
        ensures
            r == self@.is_terminated(),
    {
        self.reader.is_none() && self.fut.is_none()
    }

    /// Whether dropping the adapter cancels the reader it still holds.
    pub fn cancel_on_drop(&self) -> (r: bool)
        ensures
            r == self@.cancel_on_drop,
    {
        self.cancel_on_drop
    }

    /// The first half of a poll. With no read in flight and a reader held,
    /// issues the next read by calling `start` on the reader. Then hands back
    /// the read in flight to wait on, or `None` once the sequence is over (the
    /// poll then reports end-of-sequence, and no read is issued).
    pub fn begin_poll<S: FnOnce(&R) -> F>(&mut self, start: S) -> (r: Option<&mut F>)
        requires
            old(self)@.is_idle() ==> call_requires(start, (&old(self)@.reader.unwrap(),)),
        ensures
            r.is_some() == !old(self)@.is_terminated(),
            old(self)@.is_idle() ==> call_ensures(start, (&old(self)@.reader.unwrap(),), *r.unwrap()),
            old(self)@.is_reading() ==> *r.unwrap() == old(self)@.pending.unwrap(),
            r.is_some() ==> final(self)@ == old(self)@.with_pending(*final(r.unwrap())),
            r.is_none() ==> final(self)@ == old(self)@,
    {
        proof {
            use_type_invariant(&*self);
        }
        if self.fut.is_none() {
            match &self.reader {
                Some(reader) => {
                    let fut = start(reader);
                    self.fut = Some(fut);
                },
                None => {
                    return None;
                },
            }
        }
        slot_mut(&mut self.fut)
    }

    /// The second half of a poll: the read in flight resolved with `outcome`.
    /// Clears it, releases the reader when `outcome` ends the sequence, and
    /// returns the item to report (`None`: end-of-sequence).
    pub fn complete_read<T, E>(&mut self, outcome: ReadOutcome<T, E>) -> (r: Option<Result<T, E>>)
        requires
            old(self)@.is_reading(),
        ensures
            r == outcome.item(),
            final(self)@ == old(self)@.completed(outcome),
    {
        self.fut = None;
        match outcome {
            ReadOutcome::Chunk(v) => Some(Ok(v)),
            ReadOutcome::Done => {
                self.reader = None;
                None
            },
            ReadOutcome::Failed(e) => {
                self.reader = None;
                Some(Err(e))
            },
        }
    }

    /// Cancels the sequence, consuming the adapter. Returns the reader that
    /// must now be cancelled, the outcome of which is the outcome of this
    /// call; `None` when none is held any more, and the cancellation then
    /// succeeds at once without touching any reader.
    pub fn cancel(self) -> (r: Option<R>)
        ensures
            r == self@.reader,
            self@.is_terminated() ==> r.is_none(),
    {
        self.reader
    }

    /// As [`IntoStream::cancel`], with `reason` handed on to the reader's
    /// cancellation together with the reader.
    pub fn cancel_with_reason<Q>(self, reason: Q) -> (r: Option<(R, Q)>)
        ensures
            r == (match self@.reader {
                Some(reader) => Some((reader, reason)),
                None => None,
            }),
            self@.is_terminated() ==> r.is_none(),
    {
        match self.reader {
            Some(reader) => Some((reader, reason)),
            None => None,
        }
    }

    /// Teardown without an explicit cancel. When the adapter was made with
    /// `cancel_on_drop` and still holds its reader, gives that reader up, to
    /// receive one best-effort cancellation whose outcome nobody waits for.
    /// Otherwise gives nothing and changes nothing.
    pub fn teardown(&mut self) -> (r: Option<R>)
        ensures
            r == old(self)@.teardown_target(),
            final(self)@ == old(self)@.torn_down(),
    {
        if self.cancel_on_drop {
            proof {
                use_type_invariant(&*self);
            }
            self.fut = None;
            slot_take(&mut self.reader)
        } else {
            None
        }
    }
}

} // verus!
