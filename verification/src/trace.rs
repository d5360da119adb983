//! Whole update attempts: what holds of every sequence of events that a
//! driver can report, and of the sequences that a faithful transfer
//! produces.

use vstd::prelude::*;
use crate::advert::{
    declared,
    lemma_announcement_round_trip,
    response_for,
    UpdateAdvertisement,
};
use crate::checksum::crc32;
use crate::header::announced_crc;
use crate::session::{chunk_limit, AbortCause, Action, Event, Phase, SessionModel, Stage};

verus! {

/// The state of session `m` after it took `events` in order.
pub open spec fn run(m: SessionModel, events: Seq<Event>) -> SessionModel
    decreases events.len(),
{
    if events.len() == 0 {
        m
    } else {
        run(m, events.drop_last()).advance(events.last()).0
    }
}

/// The actions that session `m` asked for while it took `events`, one for
/// each event.
pub open spec fn emitted(m: SessionModel, events: Seq<Event>) -> Seq<Action>
    decreases events.len(),
{
    if events.len() == 0 {
        Seq::empty()
    } else {
        emitted(m, events.drop_last()).push(
            run(m, events.drop_last()).advance(events.last()).1,
        )
    }
}

/// How far a phase is along the way from `Idle` to `Rebooting`.
pub open spec fn phase_progress(phase: Phase) -> int {
    match phase {
        Phase::Idle => 0,
        Phase::Requesting => 1,
        Phase::Receiving => 3,
        Phase::Verifying => 4,
        Phase::Committing => 5,
        Phase::Rebooting => 6,
        Phase::Aborted => 0,
    }
}

/// How far a session got: an aborted one as far as the phase it was in.
pub open spec fn progress(stage: Stage) -> int {
    match stage {
        Stage::Idle => 0,
        Stage::Requesting => 1,
        Stage::Beginning => 2,
        Stage::Reading { .. } => 3,
        Stage::Writing { .. } => 3,
        Stage::Flushing => 4,
        Stage::Resetting => 5,
        Stage::Rebooting => 6,
        Stage::Aborted { during, .. } => phase_progress(during),
    }
}

/// How far a session must have got to ask for an action.
pub open spec fn needed_progress(action: Action) -> int {
    match action {
        Action::SendRequest => 1,
        Action::BeginWrite { .. } => 2,
        Action::ReadChunk { .. } => 3,
        Action::WriteChunk { .. } => 3,
        Action::Flush { .. } => 4,
        Action::Reboot => 5,
        Action::Abandon { .. } => 0,
        Action::Halt => 0,
    }
}

/// Taking one more event extends the run by one step.
pub proof fn lemma_run_push(m: SessionModel, events: Seq<Event>, event: Event)
    ensures
        run(m, events.push(event)) == run(m, events).advance(event).0,
        emitted(m, events.push(event)) == emitted(m, events).push(
            run(m, events).advance(event).1,
        ),
        emitted(m, events).len() == events.len(),
    decreases events.len(),
{
    assert(events.push(event).drop_last() =~= events);
    if events.len() > 0 {
        lemma_run_push(m, events.drop_last(), events.last());
        assert(events.drop_last().push(events.last()) =~= events);
    }
}

/// A run over two sequences in a row is the run over the second from where
/// the first ended.
pub proof fn lemma_run_concat(m: SessionModel, first: Seq<Event>, second: Seq<Event>)
    ensures
        run(m, first + second) == run(run(m, first), second),
        emitted(m, first + second) == emitted(m, first) + emitted(run(m, first), second),
        emitted(m, first).len() == first.len(),
        emitted(run(m, first), second).len() == second.len(),
    decreases second.len(),
{
    lemma_run_push(m, first, arbitrary());
    lemma_run_push(run(m, first), second, arbitrary());
    if second.len() == 0 {
        assert(first + second =~= first);
        assert(emitted(m, first) + emitted(run(m, first), second) =~= emitted(m, first));
    } else {
        lemma_run_concat(m, first, second.drop_last());
        assert((first + second).drop_last() =~= first + second.drop_last());
        assert((first + second).last() == second.last());
        assert(emitted(m, first + second) =~= emitted(m, first) + emitted(
            run(m, first),
            second,
        ));
    }
}

/// A step keeps a session well formed. It never changes the buffer size,
/// never lowers the count of bytes written, and changes the announced size
/// and checksum only when the response arrives.
pub proof fn lemma_advance_keeps_wf(m: SessionModel, event: Event)
    requires
        m.wf(),
    ensures
        m.advance(event).0.wf(),
        m.advance(event).0.capacity == m.capacity,
        m.advance(event).0.bytes_written >= m.bytes_written,
        m.stage != Stage::Requesting ==> m.advance(event).0.expected_size == m.expected_size
            && m.advance(event).0.target_checksum == m.target_checksum,
{
}

/// Every state that a fresh session reaches is well formed: the count of
/// bytes written never exceeds the announced size.
pub proof fn lemma_run_keeps_wf(capacity: usize, events: Seq<Event>)
    ensures
        run(SessionModel::fresh(capacity), events).wf(),
        run(SessionModel::fresh(capacity), events).bytes_written <= run(
            SessionModel::fresh(capacity),
            events,
        ).expected_size,
    decreases events.len(),
{
    if events.len() > 0 {
        lemma_run_keeps_wf(capacity, events.drop_last());
        lemma_advance_keeps_wf(
            run(SessionModel::fresh(capacity), events.drop_last()),
            events.last(),
        );
    }
}

/// The session never hands the storage more bytes than are still to come,
/// nor more than the buffer holds, nor none at all.
pub proof fn lemma_write_within_remaining(m: SessionModel, event: Event)
    requires
        m.wf(),
    ensures
        m.advance(event).1 matches Action::WriteChunk { len } ==> 0 < len <= m.remaining() && len
            <= m.capacity && m.advance(event).0.bytes_written == m.bytes_written,
        m.advance(event).1 matches Action::ReadChunk { max_len } ==> max_len == chunk_limit(
            m.capacity,
            m.advance(event).0.remaining(),
        ) && m.advance(event).0.remaining() > 0,
{
}

/// On every step of every run of a fresh session, a chunk handed to the
/// storage is no longer than what was still to come before that step.
pub proof fn lemma_every_write_within_remaining(capacity: usize, events: Seq<Event>, i: int)
    requires
        0 <= i < events.len(),
    ensures
        emitted(SessionModel::fresh(capacity), events)[i] matches Action::WriteChunk { len } ==> 0
            < len <= run(SessionModel::fresh(capacity), events.take(i)).remaining(),
    decreases events.len(),
{
    let fresh = SessionModel::fresh(capacity);
    let shorter = events.drop_last();
    lemma_run_push(fresh, shorter, events.last());
    assert(shorter.push(events.last()) =~= events);
    if i == events.len() - 1 {
        assert(events.take(i) =~= shorter);
        lemma_run_keeps_wf(capacity, shorter);
        lemma_write_within_remaining(run(fresh, shorter), events.last());
    } else {
        lemma_every_write_within_remaining(capacity, shorter, i);
        assert(shorter.take(i) =~= events.take(i));
    }
}

/// The storage is asked to open the staging area only for an announced image
/// of at least one byte, and with the announced size and checksum.
pub proof fn lemma_begin_needs_bytes(m: SessionModel, event: Event)
    ensures
        m.advance(event).1 matches Action::BeginWrite { size, checksum } ==> size > 0
            && m.stage == Stage::Requesting && event == Event::Response(
            UpdateAdvertisement { content_length: size, target_checksum: checksum },
        ),
{
}

/// A flush always asks for validation and for the switch of the boot target,
/// and a reboot is asked for only when the storage has reported that the
/// image was validated and committed.
pub proof fn lemma_reboot_only_after_commit(m: SessionModel, event: Event)
    ensures
        m.advance(event).1 matches Action::Flush { validate, apply } ==> validate && apply
            && m.stage is Writing,
        m.advance(event).1 == Action::Reboot <==> m.stage == Stage::Flushing && event
            == Event::ImageCommitted,
{
}

/// A finished session stays as it is and asks for nothing more.
pub proof fn lemma_finished_is_final(m: SessionModel, events: Seq<Event>)
    requires
        m.finished(),
    ensures
        run(m, events) == m,
        forall|i: int| 0 <= i < events.len() ==> emitted(m, events)[i] == Action::Halt,
    decreases events.len(),
{
    if events.len() > 0 {
        lemma_finished_is_final(m, events.drop_last());
        lemma_run_push(m, events.drop_last(), events.last());
        assert(events.drop_last().push(events.last()) =~= events);
    }
}

/// A step never takes a session back, and asks only for what the session
/// has got far enough for.
pub proof fn lemma_advance_progress(m: SessionModel, event: Event)
    ensures
        progress(m.stage) <= progress(m.advance(event).0.stage),
        needed_progress(m.advance(event).1) <= progress(m.advance(event).0.stage),
{
}

/// Whatever a session asked for during a run, it ended at least as far along
/// as that action needs.
pub proof fn lemma_actions_bounded_by_progress(m: SessionModel, events: Seq<Event>, i: int)
    requires
        0 <= i < events.len(),
    ensures
        needed_progress(emitted(m, events)[i]) <= progress(run(m, events).stage),
        progress(m.stage) <= progress(run(m, events).stage),
    decreases events.len(),
{
    let shorter = events.drop_last();
    lemma_run_push(m, shorter, events.last());
    assert(shorter.push(events.last()) =~= events);
    lemma_advance_progress(run(m, shorter), events.last());
    if i < events.len() - 1 {
        lemma_actions_bounded_by_progress(m, shorter, i);
    } else if shorter.len() > 0 {
        lemma_actions_bounded_by_progress(m, shorter, 0);
    }
}

/// How far a session can be at most when it asks for an action.
pub open spec fn prior_progress(action: Action) -> int {
    match action {
        Action::SendRequest => 0,
        Action::BeginWrite { .. } => 1,
        Action::ReadChunk { .. } => 3,
        Action::WriteChunk { .. } => 3,
        Action::Flush { .. } => 3,
        Action::Reboot => 4,
        Action::Abandon { .. } => 5,
        Action::Halt => 6,
    }
}

/// A session asks for an action only from where that action belongs: for
/// the request when idle, for the begin while requesting, for reads, writes
/// and the flush while receiving, for the reboot while verifying.
pub proof fn lemma_advance_order(m: SessionModel, event: Event)
    ensures
        progress(m.stage) <= prior_progress(m.advance(event).1),
{
}

/// The action that a run asked for at step `i` is the one that the state
/// after the first `i` events answers to event `i`.
pub proof fn lemma_emitted_at(m: SessionModel, events: Seq<Event>, i: int)
    requires
        0 <= i < events.len(),
    ensures
        emitted(m, events).len() == events.len(),
        emitted(m, events)[i] == run(m, events.take(i)).advance(events[i]).1,
        run(m, events.take(i + 1)) == run(m, events.take(i)).advance(events[i]).0,
    decreases events.len(),
{
    let shorter = events.drop_last();
    lemma_run_push(m, shorter, events.last());
    assert(shorter.push(events.last()) =~= events);
    if i == events.len() - 1 {
        assert(events.take(i) =~= shorter);
        assert(events.take(i + 1) =~= events);
    } else {
        lemma_emitted_at(m, shorter, i);
        assert(shorter.take(i) =~= events.take(i));
        assert(shorter.take(i + 1) =~= events.take(i + 1));
    }
}

/// A longer run never ends less far along than a shorter one.
pub proof fn lemma_run_progress_grows(m: SessionModel, events: Seq<Event>, i: int, j: int)
    requires
        0 <= i <= j <= events.len(),
    ensures
        progress(run(m, events.take(i)).stage) <= progress(run(m, events.take(j)).stage),
{
    let between = events.subrange(i, j);
    assert(events.take(j) =~= events.take(i) + between);
    lemma_run_concat(m, events.take(i), between);
    if between.len() > 0 {
        lemma_actions_bounded_by_progress(run(m, events.take(i)), between, 0);
    }
}

/// The actions of a run come in the order of the protocol. Whatever a fresh
/// session asked for at one step had taken it at least as far as it could be
/// at most when it asked for anything later. So in every run the request,
/// the begin, the flush and the reboot are each asked for at most once, no
/// chunk is written before the begin or after the flush, and nothing is
/// asked of the storage after the flush.
pub proof fn lemma_actions_in_order(capacity: usize, events: Seq<Event>, i: int, j: int)
    requires
        0 <= i < j < events.len(),
    ensures
        needed_progress(emitted(SessionModel::fresh(capacity), events)[i]) <= prior_progress(
            emitted(SessionModel::fresh(capacity), events)[j],
        ),
{
    let fresh = SessionModel::fresh(capacity);
    lemma_emitted_at(fresh, events, i);
    lemma_emitted_at(fresh, events, j);
    let before_j = run(fresh, events.take(j));
    lemma_advance_progress(run(fresh, events.take(i)), events[i]);
    lemma_run_progress_grows(fresh, events, i + 1, j);
    lemma_advance_order(before_j, events[j]);
}

/// In every run of a fresh session the staging area is opened at most once
/// and flushed at most once, and every chunk is written in between.
pub proof fn lemma_storage_protocol(capacity: usize, events: Seq<Event>, i: int, j: int)
    requires
        0 <= i < j < events.len(),
    ensures
        ({
            let first = emitted(SessionModel::fresh(capacity), events)[i];
            let second = emitted(SessionModel::fresh(capacity), events)[j];
            &&& !(first is BeginWrite && second is BeginWrite)
            &&& !(first is Flush && second is Flush)
            &&& !(first is WriteChunk && second is BeginWrite)
            &&& !(first is Flush && second is WriteChunk)
            &&& !(first is Flush && second is BeginWrite)
            &&& !(first == Action::Reboot && (second is BeginWrite || second is WriteChunk
                || second is Flush || second == Action::Reboot))
        }),
{
    lemma_actions_in_order(capacity, events, i, j);
}

/// An announced size of zero ends the attempt at once: the session is given
/// up as having nothing to update, and in the whole run the storage is not
/// asked to open the staging area.
pub proof fn lemma_empty_image_never_begins(
    capacity: usize,
    before: Seq<Event>,
    advert: UpdateAdvertisement,
    after: Seq<Event>,
)
    requires
        run(SessionModel::fresh(capacity), before).stage == Stage::Requesting,
        advert.content_length == 0,
    ensures
        run(
            SessionModel::fresh(capacity),
            before.push(Event::Response(advert)) + after,
        ).stage == (Stage::Aborted {
            cause: AbortCause::NothingToUpdate,
            during: Phase::Requesting,
        }),
        forall|i: int|
            0 <= i < before.len() + 1 + after.len() ==> !(#[trigger] emitted(
                SessionModel::fresh(capacity),
                before.push(Event::Response(advert)) + after,
            )[i] is BeginWrite),
{
    let fresh = SessionModel::fresh(capacity);
    let head = before.push(Event::Response(advert));
    let events = head + after;
    lemma_run_push(fresh, before, Event::Response(advert));
    lemma_run_concat(fresh, head, after);
    lemma_finished_is_final(run(fresh, head), after);
    assert forall|i: int| 0 <= i < events.len() implies !(#[trigger] emitted(fresh, events)[i]
        is BeginWrite) by {
        lemma_actions_bounded_by_progress(fresh, events, i);
    }
}

/// A body that ends early ends the attempt: when a read returns no bytes
/// while bytes are still to come, the session is given up as ended
/// prematurely, and in the whole run neither a flush nor a reboot is asked
/// for.
pub proof fn lemma_premature_end_never_flushes(
    capacity: usize,
    before: Seq<Event>,
    after: Seq<Event>,
)
    requires
        run(SessionModel::fresh(capacity), before).stage is Reading,
    ensures
        run(SessionModel::fresh(capacity), before).bytes_written < run(
            SessionModel::fresh(capacity),
            before,
        ).expected_size,
        run(
            SessionModel::fresh(capacity),
            before.push(Event::ChunkRead { len: 0 }) + after,
        ).stage == (Stage::Aborted { cause: AbortCause::PrematureEnd, during: Phase::Receiving }),
        forall|i: int|
            0 <= i < before.len() + 1 + after.len() ==> {
                let action = #[trigger] emitted(
                    SessionModel::fresh(capacity),
                    before.push(Event::ChunkRead { len: 0 }) + after,
                )[i];
                !(action is Flush) && action != Action::Reboot
            },
{
    let fresh = SessionModel::fresh(capacity);
    let end = Event::ChunkRead { len: 0 };
    let head = before.push(end);
    let events = head + after;
    lemma_run_keeps_wf(capacity, before);
    lemma_run_push(fresh, before, end);
    lemma_run_concat(fresh, head, after);
    lemma_finished_is_final(run(fresh, head), after);
    assert forall|i: int| 0 <= i < events.len() implies {
        let action = #[trigger] emitted(fresh, events)[i];
        !(action is Flush) && action != Action::Reboot
    } by {
        lemma_actions_bounded_by_progress(fresh, events, i);
    }
}

/// True when `reads`, the byte counts of successive reads, deliver what is
/// still missing after `done` bytes of an image of `expected` bytes: each
/// read returns at least one byte and no more than was asked for, and
/// together they bring the count to exactly `expected`.
pub open spec fn well_cut(capacity: usize, expected: u32, reads: Seq<usize>, done: int) -> bool
    decreases reads.len(),
{
    if reads.len() == 0 {
        done == expected
    } else {
        &&& done < expected
        &&& 0 < reads.first() <= chunk_limit(capacity, (expected - done) as u32)
        &&& well_cut(capacity, expected, reads.drop_first(), done + reads.first())
    }
}

/// What a driver reports while the body arrives in `reads` and a storage
/// that keeps count takes each chunk: it calls the image complete with the
/// chunk that brings the count to `expected`.
pub open spec fn transfer_events(expected: u32, reads: Seq<usize>, done: int) -> Seq<Event>
    decreases reads.len(),
{
    if reads.len() == 0 {
        Seq::empty()
    } else {
        seq![
            Event::ChunkRead { len: reads.first() },
            Event::ChunkStored { complete: done + reads.first() == expected },
        ] + transfer_events(expected, reads.drop_first(), done + reads.first())
    }
}

/// What a validating storage reports of a flush: success when the staged
/// bytes have the announced checksum, a rejection when they do not.
pub open spec fn flush_verdict(staged: Seq<u8>, target_checksum: u32) -> Event {
    if crc32(staged) == target_checksum {
        Event::ImageCommitted
    } else {
        Event::ChecksumRejected
    }
}

/// What a driver reports over an attempt in which nothing fails but,
/// possibly, the validation: the response with `advert`, the staging area
/// opened, the body `staged` delivered in `reads`, and the storage's verdict.
pub open spec fn update_events(advert: UpdateAdvertisement, reads: Seq<usize>, staged: Seq<u8>)
    -> Seq<Event> {
    seq![Event::Start, Event::Response(advert), Event::StorageReady] + transfer_events(
        advert.content_length,
        reads,
        0,
    ).push(flush_verdict(staged, advert.target_checksum))
}

/// A session that waits for a read, and then receives all that is missing,
/// ends up waiting for the flush with every announced byte written.
proof fn lemma_transfer(m: SessionModel, reads: Seq<usize>)
    requires
        m.wf(),
        m.stage is Reading,
        well_cut(m.capacity, m.expected_size, reads, m.bytes_written as int),
    ensures
        run(m, transfer_events(m.expected_size, reads, m.bytes_written as int)) == (SessionModel {
            stage: Stage::Flushing,
            bytes_written: m.expected_size,
            ..m
        }),
    decreases reads.len(),
{
    let events = transfer_events(m.expected_size, reads, m.bytes_written as int);
    let len = reads.first();
    let read = Event::ChunkRead { len };
    let stored = Event::ChunkStored { complete: m.bytes_written + len == m.expected_size };
    let pair = seq![read, stored];
    let rest = reads.drop_first();
    let tail = transfer_events(m.expected_size, rest, m.bytes_written + len);
    assert(events == pair + tail);
    let m1 = m.advance(read).0;
    let m2 = m1.advance(stored).0;
    lemma_run_push(m, Seq::empty(), read);
    lemma_run_push(m, seq![read], stored);
    assert(seq![read].push(stored) =~= pair);
    assert(Seq::<Event>::empty().push(read) =~= seq![read]);
    assert(run(m, pair) == m2);
    lemma_run_concat(m, pair, tail);
    lemma_advance_keeps_wf(m, read);
    lemma_advance_keeps_wf(m1, stored);
    if m.bytes_written + len == m.expected_size {
        assert(rest.len() == 0) by {
            if rest.len() > 0 {
                assert(!well_cut(m.capacity, m.expected_size, rest, m.bytes_written + len));
            }
        }
        assert(tail =~= Seq::<Event>::empty());
        assert(pair + tail =~= pair);
    } else {
        lemma_transfer(m2, rest);
    }
}

/// An image that arrives whole is validated, and then alone is the device
/// reset. Take an announced image of at least one byte, a transfer in which
/// every read returns some bytes and all reads together exactly the
/// announced count, and a storage that validates what it staged. If the
/// staged bytes have the announced checksum, the session reaches
/// `Committing` with the reboot as the last thing asked for, and `Rebooting`
/// once the reset was requested. If they have another checksum, the session
/// is given up for a checksum mismatch and never asks for a reboot.
pub proof fn lemma_update_commits_iff_checksum_matches(
    capacity: usize,
    advert: UpdateAdvertisement,
    reads: Seq<usize>,
    staged: Seq<u8>,
)
    requires
        advert.content_length > 0,
        staged.len() == advert.content_length,
        well_cut(capacity, advert.content_length, reads, 0),
    ensures
        ({
            let events = update_events(advert, reads, staged);
            let end = run(SessionModel::fresh(capacity), events);
            let asked = emitted(SessionModel::fresh(capacity), events);
            &&& asked.len() == events.len()
            &&& end.bytes_written == advert.content_length
            &&& end.expected_size == advert.content_length
            &&& end.target_checksum == advert.target_checksum
            &&& asked[asked.len() - 2] == (Action::Flush { validate: true, apply: true })
            &&& crc32(staged) == advert.target_checksum ==> {
                &&& end.phase() == Phase::Committing
                &&& asked.last() == Action::Reboot
                &&& end.advance(Event::ResetRequested).0.phase() == Phase::Rebooting
            }
            &&& crc32(staged) != advert.target_checksum ==> {
                &&& end.stage == (Stage::Aborted {
                    cause: AbortCause::ChecksumMismatch,
                    during: Phase::Verifying,
                })
                &&& forall|i: int| 0 <= i < asked.len() ==> #[trigger] asked[i] != Action::Reboot
            }
        }),
{
    let fresh = SessionModel::fresh(capacity);
    let opening = seq![Event::Start, Event::Response(advert), Event::StorageReady];
    let transfer = transfer_events(advert.content_length, reads, 0);
    let verdict = flush_verdict(staged, advert.target_checksum);
    let events = update_events(advert, reads, staged);
    assert(events == opening + transfer.push(verdict));
    assert(events =~= (opening + transfer).push(verdict));

    lemma_run_push(fresh, Seq::empty(), Event::Start);
    assert(Seq::<Event>::empty().push(Event::Start) =~= seq![Event::Start]);
    lemma_run_push(fresh, seq![Event::Start], Event::Response(advert));
    assert(seq![Event::Start].push(Event::Response(advert)) =~= seq![
        Event::Start,
        Event::Response(advert),
    ]);
    lemma_run_push(fresh, seq![Event::Start, Event::Response(advert)], Event::StorageReady);
    assert(seq![Event::Start, Event::Response(advert)].push(Event::StorageReady) =~= opening);
    let reading = run(fresh, opening);
    assert(reading.stage is Reading);

    lemma_transfer(reading, reads);
    lemma_run_concat(fresh, opening, transfer);
    lemma_run_push(fresh, opening + transfer, verdict);
    let asked = emitted(fresh, events);

    assert(asked[asked.len() - 2] == (Action::Flush { validate: true, apply: true })) by {
        // the step into the flush is the one before the verdict
        let received = opening + transfer;
        lemma_emitted_at(fresh, received, received.len() - 1);
        assert(received.take(received.len() as int) =~= received);
    }
    if crc32(staged) != advert.target_checksum {
        assert forall|i: int| 0 <= i < asked.len() implies #[trigger] asked[i]
            != Action::Reboot by {
            lemma_actions_bounded_by_progress(fresh, events, i);
        }
    }
}

/// What an agent reads from the response that serves `firmware`.
pub open spec fn advert_read_from(firmware: Seq<u8>) -> UpdateAdvertisement {
    UpdateAdvertisement {
        content_length: declared(Some(response_for(firmware).content_length as usize)),
        target_checksum: announced_crc(response_for(firmware).headers),
    }
}

/// A published image that arrives whole is installed. Take an image of at
/// least one byte, the response with which the publisher serves it, a
/// transfer that delivers its bytes unchanged, and a storage that validates
/// what it staged: the session reaches `Committing` with all bytes written,
/// and the reboot is the last thing it asks for.
pub proof fn lemma_published_image_is_installed(
    capacity: usize,
    firmware: Seq<u8>,
    reads: Seq<usize>,
)
    requires
        0 < firmware.len() <= u32::MAX,
        well_cut(capacity, firmware.len() as u32, reads, 0),
    ensures
        ({
            let events = update_events(advert_read_from(firmware), reads, firmware);
            let end = run(SessionModel::fresh(capacity), events);
            &&& end.phase() == Phase::Committing
            &&& end.bytes_written == firmware.len()
            &&& emitted(SessionModel::fresh(capacity), events).last() == Action::Reboot
        }),
{
    lemma_announcement_round_trip(firmware);
    lemma_update_commits_iff_checksum_matches(
        capacity,
        advert_read_from(firmware),
        reads,
        firmware,
    );
}

} // verus!
