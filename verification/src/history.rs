//! The cell over time.
//!
//! The lock lets every access to the cell take effect at one instant between
//! its call and its return, so the accesses of all threads stand in one
//! order. `crate::cell` says what one access gives in one state. This module
//! says what a sequence of writers leaves, and proves what every read, write
//! and health check then gives. Reads and health checks leave the cell as it
//! is, so a history lists the writers only.

use crate::cell::after_write;
use crate::cell::created;
use crate::cell::health_outcome;
use crate::cell::read_outcome;
use crate::cell::write_outcome;
use crate::cell::CellState;
use crate::cell::HealthStatus;
use crate::cell::Unavailable;
use crate::handlers::acknowledge_outcome;
use crate::handlers::greet_outcome;
use crate::handlers::readiness_outcome;
use crate::handlers::Reply;
use crate::printer::greeting;
use vstd::prelude::*;

verus! {

/// What one writer did to the cell.
pub enum Writer {
    /// It tried to write this prefix. Where the cell could be used, the
    /// write ran to its end; where it could not, the write was refused.
    Write(Seq<char>),
    /// It was lost while it held exclusive access.
    Lost,
}

/// The state one writer leaves. A lost writer leaves a cell that cannot be
/// used, whatever it held before.
pub open spec fn after(state: CellState, writer: Writer) -> CellState {
    match writer {
        Writer::Write(new_value) => after_write(state, new_value),
        Writer::Lost => CellState::Unavailable,
    }
}

/// The state a sequence of writers leaves, the first of them first.
pub open spec fn replay(state: CellState, writers: Seq<Writer>) -> CellState
    decreases writers.len(),
{
    if writers.len() == 0 {
        state
    } else {
        after(replay(state, writers.drop_last()), writers.last())
    }
}

/// A write that runs to its end is what the next read gives, and the
/// greeting answered from that read starts with the new prefix and a space.
pub proof fn lemma_write_is_visible(
    state: CellState,
    new_value: Seq<char>,
    name: Option<Seq<char>>,
)
    requires
        write_outcome(state) is Ok,
    ensures
        read_outcome(after_write(state, new_value)) == Ok::<Seq<char>, Unavailable>(new_value),
        greet_outcome(read_outcome(after_write(state, new_value)), name) == Reply::Success(
            greeting(new_value, name),
        ),
        (new_value + seq![' ']).is_prefix_of(greeting(new_value, name)),
{
}

/// A cell that cannot be used stays so, whatever writers come.
pub proof fn lemma_unavailable_is_final(writers: Seq<Writer>)
    ensures
        replay(CellState::Unavailable, writers) == CellState::Unavailable,
    decreases writers.len(),
{
    if writers.len() > 0 {
        lemma_unavailable_is_final(writers.drop_last());
    }
}

/// Once a writer is lost, every later read, write and health check fails,
/// and every handler answers with a server error, whatever writers come
/// after the lost one.
pub proof fn lemma_lost_writer_is_final(
    state: CellState,
    later: Seq<Writer>,
    name: Option<Seq<char>>,
)
    ensures
        ({
            let end = replay(after(state, Writer::Lost), later);
            &&& read_outcome(end) == Err::<Seq<char>, Unavailable>(Unavailable)
            &&& write_outcome(end) == Err::<(), Unavailable>(Unavailable)
            &&& health_outcome(end) == HealthStatus::Unavailable
            &&& greet_outcome(read_outcome(end), name) == Reply::<Seq<char>>::ServerError
            &&& acknowledge_outcome(write_outcome(end)) == Reply::<()>::ServerError
            &&& readiness_outcome(health_outcome(end)) == Reply::<()>::ServerError
        }),
{
    lemma_unavailable_is_final(later);
}

/// A cell is unusable after a sequence of writers exactly when it was so
/// before them, or one of them was lost: nothing else breaks it, and nothing
/// mends it.
pub proof fn lemma_only_a_lost_writer_breaks(state: CellState, writers: Seq<Writer>)
    ensures
        replay(state, writers) is Unavailable <==> (state is Unavailable || exists|i: int|
            0 <= i < writers.len() && #[trigger] writers[i] is Lost),
    decreases writers.len(),
{
    if writers.len() > 0 {
        let earlier = writers.drop_last();
        lemma_only_a_lost_writer_breaks(state, earlier);
        if replay(state, writers) is Unavailable && !(state is Unavailable) {
            if replay(state, earlier) is Unavailable {
                let i = choose|i: int| 0 <= i < earlier.len() && #[trigger] earlier[i] is Lost;
                assert(writers[i] is Lost);
            } else {
                assert(writers[writers.len() - 1] is Lost);
            }
        }
        if exists|i: int| 0 <= i < writers.len() && #[trigger] writers[i] is Lost {
            let i = choose|i: int| 0 <= i < writers.len() && #[trigger] writers[i] is Lost;
            if i < earlier.len() {
                assert(earlier[i] is Lost);
            }
        }
    }
}

/// A read that follows a write gives what that write left, or what a later
/// write left: never anything older. It gives what the latest write left.
pub proof fn lemma_read_is_not_older_than_write(
    state: CellState,
    writers: Seq<Writer>,
    i: int,
    value: Seq<char>,
)
    requires
        0 <= i < writers.len(),
        writers[i] is Write,
        read_outcome(replay(state, writers)) == Ok::<Seq<char>, Unavailable>(value),
    ensures
        exists|j: int|
            {
                &&& i <= j < writers.len()
                &&& #[trigger] writers[j] == Writer::Write(value)
                &&& forall|k: int| j < k < writers.len() ==> !(#[trigger] writers[k] is Write)
            },
{
    lemma_only_a_lost_writer_breaks(state, writers.drop_last());
    assert(writers[writers.len() - 1] == Writer::Write(value));
}

/// At every instant of every history, what a read gives is whole: the
/// prefix the cell was created with, where nobody wrote before, or else the
/// prefix of the write just before. So a read beside a write gives what was
/// there before the write or what the write left, never a mix of the two.
pub proof fn lemma_read_is_whole(
    initial: Seq<char>,
    writers: Seq<Writer>,
    instant: int,
    value: Seq<char>,
)
    requires
        0 <= instant <= writers.len(),
        read_outcome(replay(created(initial), writers.take(instant))) == Ok::<
            Seq<char>,
            Unavailable,
        >(value),
    ensures
        instant == 0 ==> value == initial,
        instant > 0 ==> writers[instant - 1] == Writer::Write(value),
{
    let before = writers.take(instant);
    if instant > 0 {
        lemma_only_a_lost_writer_breaks(created(initial), before.drop_last());
        assert(before.last() == writers[instant - 1]);
    }
}

/// The health check answers with success exactly when the cell is healthy,
/// which is exactly when a read succeeds and when a write succeeds.
pub proof fn lemma_readiness_mirrors_health(state: CellState)
    ensures
        readiness_outcome(health_outcome(state)) is Success <==> health_outcome(state) is Healthy,
        health_outcome(state) is Healthy <==> read_outcome(state) is Ok,
        health_outcome(state) is Healthy <==> write_outcome(state) is Ok,
{
}

} // verus!
