use vstd::prelude::*;

use crate::into_stream::{Polled, ReadOutcome, StreamState};

verus! {

/// The outcomes of reads that each deliver one of `vals`.
pub open spec fn chunks<T, E>(vals: Seq<T>) -> Seq<ReadOutcome<T, E>> {
    vals.map_values(|v: T| ReadOutcome::Chunk(v))
}

/// The poll results that report each of `vals` as an item.
pub open spec fn items_of<T, E>(vals: Seq<T>) -> Seq<Polled<T, E>> {
    vals.map_values(|v: T| Polled::Item(Ok(v)))
}

/// A freshly made adapter is not terminated: it holds its reader, and its
/// first poll issues a read.
pub proof fn lemma_fresh_not_terminated<R, F>(reader: R, cancel_on_drop: bool)
    ensures
        !StreamState::<R, F>::fresh(reader, cancel_on_drop).is_terminated(),
        StreamState::<R, F>::fresh(reader, cancel_on_drop).is_idle(),
{
}

/// Every poll keeps the adapter well formed: a read is in flight only while
/// a reader is held.
pub proof fn lemma_poll_preserves_wf<R, F, T, E>(s: StreamState<R, F>, op: F, ev: Option<ReadOutcome<T, E>>)
    requires
        s.wf(),
    ensures
        s.poll(op, ev).0.wf(),
        s.poll(op, ev).0.cancel_on_drop == s.cancel_on_drop,
{
}

/// Once terminated, an adapter stays terminated: every later poll reports
/// end-of-sequence, changes nothing and issues no read.
pub proof fn lemma_terminated_absorbing<R, F, T, E>(s: StreamState<R, F>, op: F, ev: Option<ReadOutcome<T, E>>)
    requires
        s.is_terminated(),
    ensures
        s.poll(op, ev) == (s, Polled::<T, E>::End),
        !s.is_idle(),
{
}

/// Any run of polls on a terminated adapter reports end-of-sequence each time
/// and leaves the adapter as it was.
pub proof fn lemma_terminated_run<R, F, T, E>(s: StreamState<R, F>, ops: Seq<F>, outs: Seq<ReadOutcome<T, E>>)
    requires
        s.is_terminated(),
    ensures
        s.run(ops, outs).0 == s,
        s.run(ops, outs).1 == Seq::new(outs.len(), |i: int| Polled::<T, E>::End),
    decreases outs.len(),
{
    if outs.len() > 0 {
        lemma_terminated_run(s, ops.drop_last(), outs.drop_last());
        assert(s.run(ops, outs).1 =~= Seq::new(outs.len(), |i: int| Polled::<T, E>::End));
    }
}

/// Reads that each deliver a value report those values, in order, and keep
/// the reader: the adapter is not terminated after them.
pub proof fn lemma_chunks_run<R, F, T, E>(s: StreamState<R, F>, ops: Seq<F>, vals: Seq<T>)
    requires
        s.wf(),
        !s.is_terminated(),
    ensures
        s.run(ops, chunks::<T, E>(vals)).1 == items_of::<T, E>(vals),
        s.run(ops, chunks::<T, E>(vals)).0.wf(),
        s.run(ops, chunks::<T, E>(vals)).0.reader == s.reader,
        !s.run(ops, chunks::<T, E>(vals)).0.is_terminated(),
        s.run(ops, chunks::<T, E>(vals)).0.cancel_on_drop == s.cancel_on_drop,
    decreases vals.len(),
{
    if vals.len() > 0 {
        assert(chunks::<T, E>(vals).drop_last() =~= chunks::<T, E>(vals.drop_last()));
        lemma_chunks_run::<R, F, T, E>(s, ops.drop_last(), vals.drop_last());
        assert(items_of::<T, E>(vals) =~= items_of::<T, E>(vals.drop_last()).push(Polled::Item(Ok(vals.last()))));
    } else {
        assert(chunks::<T, E>(vals) =~= Seq::empty());
        assert(items_of::<T, E>(vals) =~= Seq::empty());
    }
}

/// Reads that deliver `vals` and then report the end of the resource make
/// the adapter report exactly `vals`, in order, then one end-of-sequence;
/// the adapter is then terminated.
pub proof fn lemma_done_ends_sequence<R, F, T, E>(s: StreamState<R, F>, ops: Seq<F>, vals: Seq<T>)
    requires
        s.wf(),
        !s.is_terminated(),
    ensures
        s.run(ops, chunks::<T, E>(vals).push(ReadOutcome::Done)).1 == items_of::<T, E>(vals).push(Polled::End),
        s.run(ops, chunks::<T, E>(vals).push(ReadOutcome::Done)).0.is_terminated(),
{
    let outs = chunks::<T, E>(vals).push(ReadOutcome::Done);
    assert(outs.drop_last() =~= chunks::<T, E>(vals));
    lemma_chunks_run::<R, F, T, E>(s, ops.drop_last(), vals);
}

/// Reads that deliver `vals` and then fail with `e` make the adapter report
/// exactly `vals`, in order, then the one error `e`; the adapter is then
/// terminated, so it reports end-of-sequence from then on and issues no
/// further read.
pub proof fn lemma_error_ends_sequence<R, F, T, E>(s: StreamState<R, F>, ops: Seq<F>, vals: Seq<T>, e: E)
    requires
        s.wf(),
        !s.is_terminated(),
    ensures
        s.run(ops, chunks::<T, E>(vals).push(ReadOutcome::Failed(e))).1 == items_of::<T, E>(vals).push(Polled::Item(Err(e))),
        s.run(ops, chunks::<T, E>(vals).push(ReadOutcome::Failed(e))).0.is_terminated(),
{
    let outs = chunks::<T, E>(vals).push(ReadOutcome::Failed(e));
    assert(outs.drop_last() =~= chunks::<T, E>(vals));
    lemma_chunks_run::<R, F, T, E>(s, ops.drop_last(), vals);
}

/// Teardown cancels at most once: with `cancel_on_drop` and a reader held it
/// gives up exactly that reader, without `cancel_on_drop` it gives up none,
/// and after it a second teardown gives up nothing.
pub proof fn lemma_teardown_once<R, F>(s: StreamState<R, F>)
    requires
        s.wf(),
    ensures
        s.cancel_on_drop ==> s.teardown_target() == s.reader,
        !s.cancel_on_drop ==> s.teardown_target().is_none(),
        s.torn_down().teardown_target().is_none(),
        s.torn_down().wf(),
{
}

} // verus!
