use vstd::prelude::*;
use crate::reply::staging_of;
use crate::upload::{Action, Event, Phase, UploadError, UploadSession};

verus! {

/// The state reached and the actions asked for when `s` takes in `es` in order.
pub open spec fn run(s: UploadSession, es: Seq<Event>) -> (UploadSession, Seq<Action>)
    decreases es.len(),
{
    if es.len() == 0 {
        (s, Seq::empty())
    } else {
        let first = s.next(es[0]);
        let rest = run(first.0, es.drop_first());
        (rest.0, seq![first.1] + rest.1)
    }
}

/// The events of a body that arrives as chunks of the lengths in `lens`.
pub open spec fn chunk_events(lens: Seq<u64>) -> Seq<Event> {
    lens.map_values(|n: u64| Event::Chunk(n))
}

/// The number of bytes in chunks of the lengths in `lens`.
pub open spec fn total(lens: Seq<u64>) -> int
    decreases lens.len(),
{
    if lens.len() == 0 {
        0
    } else {
        lens[0] + total(lens.drop_first())
    }
}

/// `n` requests to append a chunk.
pub open spec fn writes(n: nat) -> Seq<Action> {
    Seq::new(n, |i: int| Action::WriteChunk)
}

/// The events of an upload whose staging file, writes, flush and rename all
/// succeed, with a body of chunks of the lengths in `lens`.
pub open spec fn clean_upload(lens: Seq<u64>) -> Seq<Event> {
    seq![Event::StagingCreated] + chunk_events(lens) + seq![
        Event::EndOfBody,
        Event::Flushed,
        Event::Published,
    ]
}

proof fn lemma_total_nonneg(lens: Seq<u64>)
    ensures
        total(lens) >= 0,
    decreases lens.len(),
{
    if lens.len() > 0 {
        lemma_total_nonneg(lens.drop_first());
    }
}

proof fn lemma_chunk_events_split(lens: Seq<u64>, rest: Seq<Event>)
    requires
        lens.len() > 0,
    ensures
        (chunk_events(lens) + rest)[0] == Event::Chunk(lens[0]),
        (chunk_events(lens) + rest).drop_first() == chunk_events(lens.drop_first()) + rest,
{
    assert((chunk_events(lens) + rest).drop_first() =~= chunk_events(lens.drop_first()) + rest);
}

proof fn lemma_finished_run(s: UploadSession, es: Seq<Event>)
    requires
        s.phase == Phase::Finished,
    ensures
        run(s, es).0.phase == Phase::Finished,
        run(s, es).1 == Seq::new(es.len(), |i: int| Action::Fail(UploadError::Internal)),
    decreases es.len(),
{
    if es.len() > 0 {
        lemma_finished_run(s.next(es[0]).0, es.drop_first());
        assert(run(s, es).1 =~= Seq::new(es.len(), |i: int| Action::Fail(UploadError::Internal)));
    }
}

proof fn lemma_stream_within(s: UploadSession, lens: Seq<u64>, rest: Seq<Event>)
    requires
        s.phase == Phase::Streaming,
        s.written + total(lens) <= s.max_bytes,
    ensures
        ({
            let after = UploadSession {
                phase: Phase::Streaming,
                written: (s.written + total(lens)) as u64,
                max_bytes: s.max_bytes,
            };
            run(s, chunk_events(lens) + rest) == (run(after, rest).0, writes(lens.len())
                + run(after, rest).1)
        }),
    decreases lens.len(),
{
    if lens.len() == 0 {
        assert(chunk_events(lens) + rest =~= rest);
        assert(writes(0) + run(s, rest).1 =~= run(s, rest).1);
        assert(s == UploadSession { phase: Phase::Streaming, written: s.written, max_bytes: s.max_bytes });
    } else {
        lemma_chunk_events_split(lens, rest);
        lemma_total_nonneg(lens.drop_first());
        let s1 = s.next(Event::Chunk(lens[0])).0;
        lemma_stream_within(s1, lens.drop_first(), rest);
        let after = UploadSession {
            phase: Phase::Streaming,
            written: (s.written + total(lens)) as u64,
            max_bytes: s.max_bytes,
        };
        assert(writes(lens.len()) + run(after, rest).1 =~= seq![Action::WriteChunk] + (writes(
            lens.drop_first().len(),
        ) + run(after, rest).1));
    }
}

proof fn lemma_stream_over(s: UploadSession, lens: Seq<u64>, rest: Seq<Event>) -> (k: int)
    requires
        s.phase == Phase::Streaming,
        s.written <= s.max_bytes,
        s.written + total(lens) > s.max_bytes,
    ensures
        ({
            let acts = run(s, chunk_events(lens) + rest).1;
            &&& 0 <= k < acts.len()
            &&& acts[k] == Action::Discard(UploadError::TooLarge)
            &&& forall|j: int| 0 <= j < k ==> acts[j] == Action::WriteChunk
            &&& forall|j: int| k < j < acts.len() ==> acts[j] == Action::Fail(UploadError::Internal)
        }),
    decreases lens.len(),
{
    lemma_chunk_events_split(lens, rest);
    let es = chunk_events(lens) + rest;
    let s1 = s.next(Event::Chunk(lens[0])).0;
    let acts = run(s, es).1;
    if s.written + lens[0] > s.max_bytes {
        lemma_finished_run(s1, es.drop_first());
        0
    } else {
        let k1 = lemma_stream_over(s1, lens.drop_first(), rest);
        assert(acts == seq![Action::WriteChunk] + run(s1, es.drop_first()).1);
        k1 + 1
    }
}

/// A body within the ceiling is published whole: once the staging file is
/// created, every chunk is appended in the order it came, then the staging
/// file is flushed and renamed, and the reply reports the body's length.
pub proof fn lemma_within_ceiling_publishes_all(max_bytes: u64, lens: Seq<u64>)
    requires
        total(lens) <= max_bytes,
    ensures
        run(UploadSession::fresh(max_bytes), clean_upload(lens)).1 == seq![Action::ReadChunk]
            + writes(lens.len()) + seq![
            Action::Flush,
            Action::Publish,
            Action::Created(total(lens) as u64),
        ],
        run(UploadSession::fresh(max_bytes), clean_upload(lens)).0.phase == Phase::Finished,
{
    lemma_total_nonneg(lens);
    let s0 = UploadSession::fresh(max_bytes);
    let tail = seq![Event::EndOfBody, Event::Flushed, Event::Published];
    let es = clean_upload(lens);
    assert(es[0] == Event::StagingCreated);
    assert(es.drop_first() =~= chunk_events(lens) + tail);
    let s1 = s0.next(Event::StagingCreated).0;
    lemma_stream_within(s1, lens, tail);
    let n = total(lens) as u64;
    let after = UploadSession { phase: Phase::Streaming, written: n, max_bytes };
    let a1 = after.next(Event::EndOfBody).0;
    let a2 = a1.next(Event::Flushed).0;
    let a3 = a2.next(Event::Published).0;
    let t2 = seq![Event::Flushed, Event::Published];
    let t3 = seq![Event::Published];
    let t4 = Seq::<Event>::empty();
    assert(tail[0] == Event::EndOfBody && tail.drop_first() =~= t2);
    assert(t2[0] == Event::Flushed && t2.drop_first() =~= t3);
    assert(t3[0] == Event::Published && t3.drop_first() =~= t4);
    assert(run(a3, t4) == (a3, Seq::<Action>::empty()));
    assert(run(a2, t3) == (a3, seq![Action::Created(n)] + Seq::<Action>::empty()));
    assert(run(a2, t3).1 =~= seq![Action::Created(n)]);
    assert(run(a1, t2).1 =~= seq![Action::Publish, Action::Created(n)]);
    assert(run(after, tail).1 =~= seq![Action::Flush, Action::Publish, Action::Created(n)]);
    assert(run(after, tail).0 == a3);
    assert(run(s0, es).1 =~= seq![Action::ReadChunk] + writes(lens.len()) + seq![
        Action::Flush,
        Action::Publish,
        Action::Created(total(lens) as u64),
    ]);
}

/// A body over the ceiling is never published: whatever the server reports
/// afterwards, the session appends the chunks up to the one that crosses the
/// ceiling, then asks for the staging file to be removed with `TooLarge`,
/// and asks for nothing more (every later event only meets an error).
pub proof fn lemma_over_ceiling_discards(max_bytes: u64, lens: Seq<u64>, rest: Seq<Event>)
    requires
        total(lens) > max_bytes,
    ensures
        ({
            let acts = run(
                UploadSession::fresh(max_bytes),
                seq![Event::StagingCreated] + chunk_events(lens) + rest,
            ).1;
            &&& acts[0] == Action::ReadChunk
            &&& exists|k: int|
                0 < k < acts.len() && #[trigger] acts[k] == Action::Discard(UploadError::TooLarge)
                    && (forall|j: int| 0 < j < k ==> acts[j] == Action::WriteChunk) && (forall|
                    j: int,
                | k < j < acts.len() ==> acts[j] == Action::Fail(UploadError::Internal))
            &&& forall|j: int|
                0 <= j < acts.len() ==> #[trigger] acts[j] != Action::Publish && !(
                acts[j] is Created)
        }),
{
    let s0 = UploadSession::fresh(max_bytes);
    let es = seq![Event::StagingCreated] + chunk_events(lens) + rest;
    assert(es[0] == Event::StagingCreated);
    assert(es.drop_first() =~= chunk_events(lens) + rest);
    let s1 = s0.next(Event::StagingCreated).0;
    let k1 = lemma_stream_over(s1, lens, rest);
    let acts = run(s0, es).1;
    let inner = run(s1, chunk_events(lens) + rest).1;
    assert(acts == seq![Action::ReadChunk] + inner);
    assert(acts[k1 + 1] == Action::Discard(UploadError::TooLarge));
    assert forall|j: int| 0 <= j < acts.len() implies #[trigger] acts[j] != Action::Publish && !(
    acts[j] is Created) by {
        if j > 0 {
            assert(acts[j] == inner[j - 1]);
        }
    }
}

/// The byte count of a session never passes its ceiling.
pub proof fn lemma_ceiling_kept(s: UploadSession, e: Event)
    requires
        s.written <= s.max_bytes,
    ensures
        s.next(e).0.written <= s.next(e).0.max_bytes,
        s.next(e).0.max_bytes == s.max_bytes,
{
}

/// The rename to the public name is asked for only once the body has ended
/// and the staging file has been flushed.
pub proof fn lemma_publish_only_after_flush(s: UploadSession, e: Event)
    ensures
        s.next(e).1 == Action::Publish <==> s.phase == Phase::Flushing && e == Event::Flushed,
{
}

/// Once the body has ended, no further chunk is ever appended and the
/// session does not go back to streaming.
pub proof fn lemma_no_write_after_end(s: UploadSession, e: Event)
    requires
        s.phase == Phase::Flushing || s.phase == Phase::Publishing || s.phase == Phase::Finished,
    ensures
        s.next(e).1 != Action::WriteChunk,
        s.next(e).1 != Action::ReadChunk,
        s.next(e).0.phase == Phase::Publishing || s.next(e).0.phase == Phase::Finished,
{
}

/// Bytes in flight go to a file other than the public one: the staging name
/// of an upload never equals its public name.
pub proof fn lemma_staging_differs(name: Seq<char>)
    ensures
        staging_of(name) != name,
{
    reveal_strlit(".part");
    assert(staging_of(name).len() == name.len() + 6);
}

} // verus!
