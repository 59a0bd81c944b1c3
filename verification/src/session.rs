//! A scan seen together with its host: the worker reports to the task, the
//! host acknowledges the records that it was handed, and the two take turns
//! in any order. What holds of every such run is stated and proved here.

use crate::barrier::after_done;
use crate::range::{out_of_range, RangeSpec};
use crate::scan::{created, step, ActionView, KV, Phase, ScanEvent, TaskState};
use vstd::multiset::Multiset;
use vstd::prelude::*;
use vstd::seq_lib::to_multiset_build;

verus! {

/// A scan and its host at one moment.
pub struct Session {
    /// The task.
    pub task: TaskState,
    /// The count of the barrier.
    pub outstanding: nat,
    /// The records that the cursor produced while the task was running.
    pub reported: Seq<KV>,
    /// The records that were handed to the host, in the order of handing.
    pub delivered: Seq<KV>,
    /// The records that the host holds and has not acknowledged.
    pub pending: Multiset<KV>,
    /// The records that the host has acknowledged, in the order of its
    /// acknowledgements.
    pub acknowledged: Seq<KV>,
}

/// One turn: a report of the worker, or the host's acknowledgement of a
/// record.
pub enum Move {
    Worker(ScanEvent),
    Acknowledge(KV),
}

/// The session of a scan that was just set up.
pub open spec fn opening(options: RangeSpec) -> Session {
    Session {
        task: created(options),
        outstanding: 0,
        reported: Seq::empty(),
        delivered: Seq::empty(),
        pending: Multiset::empty(),
        acknowledged: Seq::empty(),
    }
}

/// The host acknowledges only what it was handed, and each record once:
/// the record must be one that it holds unacknowledged. Which of them it
/// picks, and when, is up to the host.
pub open spec fn possible(session: Session, turn: Move) -> bool {
    turn matches Move::Acknowledge(record) ==> session.pending.contains(record)
}

/// The session after one turn. A report goes through the task's step; an
/// acknowledgement takes one off the barrier.
pub open spec fn advance(session: Session, turn: Move) -> Session {
    match turn {
        Move::Worker(event) => {
            let outcome = step(session.task, session.outstanding, event);
            Session {
                task: outcome.task,
                outstanding: outcome.outstanding,
                reported: match event {
                    ScanEvent::Entry(record) if session.task.phase == Phase::Running =>
                        session.reported.push(record),
                    _ => session.reported,
                },
                delivered: match outcome.action {
                    ActionView::Dispatch(record) => session.delivered.push(record),
                    _ => session.delivered,
                },
                pending: match outcome.action {
                    ActionView::Dispatch(record) => session.pending.insert(record),
                    _ => session.pending,
                },
                acknowledged: session.acknowledged,
            }
        },
        Move::Acknowledge(record) => Session {
            outstanding: after_done(session.outstanding),
            pending: session.pending.remove(record),
            acknowledged: session.acknowledged.push(record),
            ..session
        },
    }
}

/// The session of a scan with the given options after a run of turns,
/// the scan being fresh at the start.
pub open spec fn play(options: RangeSpec, turns: Seq<Move>) -> Session
    decreases turns.len(),
{
    if turns.len() == 0 {
        opening(options)
    } else {
        advance(play(options, turns.drop_last()), turns.last())
    }
}

/// Every turn of the run is possible when it is taken.
pub open spec fn playable(options: RangeSpec, turns: Seq<Move>) -> bool
    decreases turns.len(),
{
    turns.len() == 0 || (playable(options, turns.drop_last()) && possible(
        play(options, turns.drop_last()),
        turns.last(),
    ))
}

/// The position of the record that follows `count` others, as the task
/// counts it.
pub open spec fn position(count: nat) -> i64 {
    if count < i64::MAX {
        count as i64
    } else {
        i64::MAX
    }
}

/// The barrier counts exactly the records that the host holds
/// unacknowledged, every record that was handed out is either acknowledged
/// or still held, and a completed scan has none that is still held.
pub open spec fn drained_when_complete(session: Session) -> bool {
    &&& session.outstanding == session.pending.len()
    &&& session.delivered.to_multiset() == session.acknowledged.to_multiset().add(
        session.pending,
    )
    &&& session.task.phase == Phase::Completed ==> session.pending.len() == 0
}

/// The host was handed the records of the cursor in the cursor's order, up
/// to the first one that was out of range, and that one ended the scan.
pub open spec fn delivered_in_order(session: Session) -> bool {
    let taken = session.delivered.len();
    &&& session.task.emitted == position(taken)
    &&& taken <= session.reported.len() <= taken + 1
    &&& session.delivered == session.reported.take(taken as int)
    &&& forall|i: int|
        0 <= i < taken ==> !out_of_range(
            session.task.options,
            #[trigger] session.delivered[i].key@,
            position(i as nat),
        )
    &&& session.reported.len() > taken ==> {
        &&& session.task.phase != Phase::Running
        &&& out_of_range(session.task.options, session.reported.last().key@, position(taken))
    }
    &&& session.task.phase == Phase::Created ==> session.reported.len() == 0
}

/// A scan with a limit hands out no more records than its limit, and one
/// whose limit is below `-1` hands out none.
pub open spec fn within_limit(session: Session) -> bool {
    let limit = session.task.options.limit;
    &&& limit >= 0 ==> session.delivered.len() <= limit
    &&& limit < -1 ==> session.delivered.len() == 0
}

/// What holds of a session at every moment.
pub open spec fn consistent(session: Session) -> bool {
    &&& drained_when_complete(session)
    &&& delivered_in_order(session)
    &&& within_limit(session)
}

/// One possible turn keeps a session consistent, and leaves the options of
/// the scan alone.
pub proof fn lemma_turn_keeps_consistent(session: Session, turn: Move)
    requires
        consistent(session),
        possible(session, turn),
    ensures
        consistent(advance(session, turn)),
        advance(session, turn).task.options == session.task.options,
{
    broadcast use vstd::multiset::group_multiset_axioms;

    let next = advance(session, turn);
    let taken = session.delivered.len();
    match turn {
        Move::Worker(ScanEvent::Entry(record)) => {
            if session.task.phase == Phase::Running {
                if out_of_range(session.task.options, record.key@, session.task.emitted) {
                    assert(next.reported.take(taken as int) =~= session.delivered);
                } else {
                    assert(next.delivered =~= next.reported);
                    assert(next.reported.take(taken as int + 1) =~= next.reported);
                    to_multiset_build(session.delivered, record);
                    assert(next.delivered.to_multiset() =~= next.acknowledged.to_multiset().add(
                        next.pending,
                    ));
                }
            }
        },
        Move::Acknowledge(record) => {
            to_multiset_build(session.acknowledged, record);
            assert(next.delivered.to_multiset() =~= next.acknowledged.to_multiset().add(
                next.pending,
            ));
        },
        _ => {},
    }
}

/// Whatever the worker reports and whenever the host acknowledges, every
/// possible run of a fresh scan ends in a consistent session: the barrier
/// counts the unacknowledged records, the records went out in the order of
/// the cursor, and the limit was kept.
pub proof fn lemma_every_run_is_consistent(options: RangeSpec, turns: Seq<Move>)
    requires
        playable(options, turns),
    ensures
        consistent(play(options, turns)),
        play(options, turns).task.options == options,
    decreases turns.len(),
{
    if turns.len() == 0 {
        broadcast use vstd::multiset::group_multiset_axioms;

        let start = opening(options);
        assert(start.delivered =~= start.reported.take(0));
        assert(start.delivered.to_multiset() =~= start.acknowledged.to_multiset().add(
            start.pending,
        ));
    } else {
        lemma_every_run_is_consistent(options, turns.drop_last());
        lemma_turn_keeps_consistent(play(options, turns.drop_last()), turns.last());
    }
}

/// A scan does not complete before the host has acknowledged every record
/// that it was handed, in whatever order and after whatever delay the
/// acknowledgements arrive: in a completed scan the host holds no record
/// unacknowledged, and the acknowledged records are the delivered ones,
/// each as often as it was delivered.
pub proof fn lemma_completion_waits_for_acknowledgements(options: RangeSpec, turns: Seq<Move>)
    requires
        playable(options, turns),
        play(options, turns).task.phase == Phase::Completed,
    ensures
        play(options, turns).pending.len() == 0,
        play(options, turns).acknowledged.to_multiset() == play(
            options,
            turns,
        ).delivered.to_multiset(),
{
    lemma_every_run_is_consistent(options, turns);
}

/// A draining scan does not wait longer than it must: once the host holds
/// no record unacknowledged, the next look at the barrier completes the
/// scan.
pub proof fn lemma_acknowledged_scan_completes(options: RangeSpec, turns: Seq<Move>)
    requires
        playable(options, turns),
        play(options, turns).task.phase == Phase::Draining,
        play(options, turns).pending.len() == 0,
    ensures
        advance(play(options, turns), Move::Worker(ScanEvent::Poll)).task.phase
            == Phase::Completed,
{
    lemma_every_run_is_consistent(options, turns);
}

/// A scan with a limit of `n >= 0` hands the host at most `n` records.
pub proof fn lemma_limit_is_enforced(options: RangeSpec, turns: Seq<Move>)
    requires
        playable(options, turns),
        options.limit >= 0,
    ensures
        play(options, turns).delivered.len() <= options.limit,
{
    lemma_every_run_is_consistent(options, turns);
}

/// The records that the host was handed are the first of those that the
/// cursor produced, in the cursor's order.
pub proof fn lemma_delivery_follows_cursor(options: RangeSpec, turns: Seq<Move>)
    requires
        playable(options, turns),
    ensures
        play(options, turns).delivered.is_prefix_of(play(options, turns).reported),
        play(options, turns).reported.len() <= play(options, turns).delivered.len() + 1,
{
    lemma_every_run_is_consistent(options, turns);
}

} // verus!
