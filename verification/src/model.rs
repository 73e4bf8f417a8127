use vstd::prelude::*;

use crate::error::CallError;

verus! {

/// The progress of the read phase of one call: everything accumulated so
/// far, and how many non-productive iterations have been spent.
pub struct ReadState {
    /// The response bytes accumulated so far, in arrival order.
    pub buf: Seq<u8>,
    /// The non-productive iterations spent so far.
    pub count: int,
}

/// What one resumption step asks of the surrounding scheduler.
pub enum StepView {
    /// Issue one more read against the stream.
    Read,
    /// The call is complete, with exactly these response bytes.
    Done(Seq<u8>),
    /// The call failed; the error is final.
    Failed(CallError),
}

/// One observed read: the bytes the stream yielded (possibly none), and what
/// the handler answers when asked to parse the buffer extended with them.
pub struct ReadEvent {
    /// The bytes this read yielded.
    pub data: Seq<u8>,
    /// The handler's answer on the buffer extended with `data`; irrelevant
    /// when `data` is empty, since the handler is not consulted then.
    pub parse: Result<Option<int>, CallError>,
}

/// The read-phase transition: from state `s`, one read yielding `data` (with
/// `parse` the handler's answer on the extended buffer) moves to the next
/// state and the next step.
///
/// An empty read spends one unit of the stall budget and retries, unless the
/// budget is already spent. A non-empty read grows the buffer; a completed
/// frame of `n` bytes finishes the call with exactly the first `n` bytes of
/// the accumulation, an incomplete frame fails on the capacity ceiling or
/// spends one unit of the stall budget, and a handler error is final.
pub open spec fn read_transition(
    s: ReadState,
    data: Seq<u8>,
    parse: Result<Option<int>, CallError>,
    max_buf: int,
    max_count: int,
) -> (ReadState, StepView) {
    if data.len() == 0 {
        if s.count >= max_count {
            (s, StepView::Failed(CallError::ReachMaxParseResponseBytesCount))
        } else {
            (ReadState { buf: s.buf, count: s.count + 1 }, StepView::Read)
        }
    } else {
        let grown = s.buf + data;
        match parse {
            Err(e) => (ReadState { buf: grown, count: s.count }, StepView::Failed(e)),
            Ok(Some(n)) => (
                ReadState { buf: grown, count: s.count },
                StepView::Done(grown.subrange(0, n)),
            ),
            Ok(None) => if grown.len() >= max_buf {
                (
                    ReadState { buf: grown, count: s.count },
                    StepView::Failed(CallError::ReachMaxBufferSize),
                )
            } else if s.count >= max_count {
                (
                    ReadState { buf: grown, count: s.count },
                    StepView::Failed(CallError::ReachMaxParseResponseBytesCount),
                )
            } else {
                (ReadState { buf: grown, count: s.count + 1 }, StepView::Read)
            },
        }
    }
}

/// Drive the read phase through a sequence of reads, stopping at the first
/// terminal step; with the events exhausted and no terminal step reached,
/// the call is still asking for another read.
pub open spec fn drive_reads(
    s: ReadState,
    events: Seq<ReadEvent>,
    max_buf: int,
    max_count: int,
) -> (ReadState, StepView)
    decreases events.len(),
{
    if events.len() == 0 {
        (s, StepView::Read)
    } else {
        let r = read_transition(s, events[0].data, events[0].parse, max_buf, max_count);
        if r.1 is Read {
            drive_reads(r.0, events.drop_first(), max_buf, max_count)
        } else {
            r
        }
    }
}

/// The concatenation, in arrival order, of the bytes a sequence of reads
/// yielded.
pub open spec fn events_data(events: Seq<ReadEvent>) -> Seq<u8>
    decreases events.len(),
{
    if events.len() == 0 {
        Seq::empty()
    } else {
        events[0].data + events_data(events.drop_first())
    }
}

/// Stall budget: a stream that yields nothing on read after read makes the
/// call fail with the stall-budget error as soon as the budget is spent —
/// after `max_count - s.count + 1` consecutive empty reads — with the buffer
/// untouched; the call never keeps reading forever.
pub proof fn lemma_stall_budget_exhaustion(
    s: ReadState,
    events: Seq<ReadEvent>,
    max_buf: int,
    max_count: int,
)
    requires
        0 <= s.count <= max_count,
        events.len() == max_count - s.count + 1,
        forall|i: int| 0 <= i < events.len() ==> (#[trigger] events[i]).data.len() == 0,
    ensures
        drive_reads(s, events, max_buf, max_count).1 == StepView::Failed(
            CallError::ReachMaxParseResponseBytesCount,
        ),
        drive_reads(s, events, max_buf, max_count).0.buf == s.buf,
    decreases events.len(),
{
    if s.count < max_count {
        let r = read_transition(s, events[0].data, events[0].parse, max_buf, max_count);
        let rest = events.drop_first();
        assert(forall|i: int| 0 <= i < rest.len() ==> (#[trigger] rest[i]).data.len() == 0);
        lemma_stall_budget_exhaustion(r.0, rest, max_buf, max_count);
    }
}

/// Small-chunk reassembly: a response that arrives in several non-empty
/// pieces, each but the last leaving the frame incomplete, completes with
/// exactly the same bytes as if the whole concatenation had arrived in one
/// read — provided the pieces stay under the capacity ceiling and the stall
/// budget covers the incomplete parses.
pub proof fn lemma_chunked_reassembly(
    s: ReadState,
    events: Seq<ReadEvent>,
    n: int,
    max_buf: int,
    max_count: int,
)
    requires
        events.len() >= 1,
        forall|i: int| 0 <= i < events.len() ==> (#[trigger] events[i]).data.len() > 0,
        forall|i: int|
            0 <= i < events.len() - 1 ==> (#[trigger] events[i]).parse == Ok::<
                Option<int>,
                CallError,
            >(None),
        events[events.len() - 1].parse == Ok::<Option<int>, CallError>(Some(n)),
        forall|i: int|
            1 <= i < events.len() ==> s.buf.len() + events_data(
                #[trigger] events.take(i),
            ).len() < max_buf,
        s.count + events.len() - 1 <= max_count,
    ensures
        drive_reads(s, events, max_buf, max_count).1 == StepView::Done(
            (s.buf + events_data(events)).subrange(0, n),
        ),
        drive_reads(s, events, max_buf, max_count).1 == read_transition(
            s,
            events_data(events),
            Ok(Some(n)),
            max_buf,
            max_count,
        ).1,
    decreases events.len(),
{
    let all = events_data(events);
    let rest = events.drop_first();
    assert(all == events[0].data + events_data(rest));
    assert(all.len() > 0);
    if events.len() == 1 {
        assert(events_data(rest) == Seq::<u8>::empty());
        assert(all =~= events[0].data);
        assert(events[0].parse == Ok::<Option<int>, CallError>(Some(n)));
    } else {
        let grown = s.buf + events[0].data;
        // the first piece leaves the frame incomplete and stays under the caps
        assert(events[0].parse == Ok::<Option<int>, CallError>(None));
        assert(events_data(events.take(1)) =~= events[0].data) by {
            let first = events.take(1);
            assert(first.len() == 1);
            assert(first[0] == events[0]);
            assert(first.drop_first() =~= Seq::<ReadEvent>::empty());
            assert(events_data(first.drop_first()) == Seq::<u8>::empty());
            assert(events_data(first) == first[0].data + events_data(first.drop_first()));
        }
        assert(grown.len() < max_buf);
        let s2 = ReadState { buf: grown, count: s.count + 1 };
        assert(read_transition(s, events[0].data, events[0].parse, max_buf, max_count) == (
            s2,
            StepView::Read,
        ));
        // the remaining pieces satisfy the same premises from s2
        assert(rest[rest.len() - 1].parse == Ok::<Option<int>, CallError>(Some(n)));
        assert forall|i: int|
            1 <= i < rest.len() implies s2.buf.len() + events_data(
            #[trigger] rest.take(i),
        ).len() < max_buf by {
            assert(events.take(i + 1).drop_first() =~= rest.take(i));
            assert(events_data(events.take(i + 1)) == events.take(i + 1)[0].data + events_data(
                rest.take(i),
            ));
            assert(events.take(i + 1)[0] == events[0]);
            assert(s.buf.len() + events_data(events.take(i + 1)).len() < max_buf);
        }
        lemma_chunked_reassembly(s2, rest, n, max_buf, max_count);
        assert(s2.buf + events_data(rest) =~= s.buf + all);
    }
}

} // verus!
