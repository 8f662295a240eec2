//! What holds of every run of an upload session, whatever the caller
//! reports and in whatever order.

use crate::event::{ChunkedUploadProgress, SessionError, UploadEvent};
use crate::part::total_bytes;
use crate::plan::{lemma_planned_fits, planned};
use crate::session::{
    initial_state, lemma_transition_keeps_wf, opening_commands, transition, SessionCommand,
    SessionInput, SessionPhase, SessionState,
};
use vstd::prelude::*;

verus! {

/// The state reached, and the commands issued, when a session in `state` is
/// fed `inputs` one after another.
pub open spec fn run(state: SessionState, inputs: Seq<SessionInput>) -> (
    SessionState,
    Seq<SessionCommand>,
)
    decreases inputs.len(),
{
    if inputs.len() == 0 {
        (state, Seq::empty())
    } else {
        let before = run(state, inputs.drop_last());
        let step = transition(before.0, inputs.last());
        (step.0, before.1 + step.1)
    }
}

/// Everything that a session for a file of `file_size` bytes asks of its
/// caller, from the start, when it is fed `inputs`.
pub open spec fn session_trace(file_size: u64, inputs: Seq<SessionInput>) -> Seq<SessionCommand> {
    opening_commands(file_size) + run(initial_state(file_size), inputs).1
}

/// Whether a command emits a progress event.
pub open spec fn emits_progress(command: SessionCommand) -> bool {
    command matches SessionCommand::Emit(UploadEvent::Progress(_))
}

/// Whether a command emits the completion event.
pub open spec fn emits_complete(command: SessionCommand) -> bool {
    command matches SessionCommand::Emit(UploadEvent::Complete(_))
}

/// The bytes that a progress event reports as uploaded (0 for any other
/// command).
pub open spec fn reported_bytes(command: SessionCommand) -> int {
    match command {
        SessionCommand::Emit(UploadEvent::Progress(progress)) => progress.bytes_uploaded as int,
        _ => 0,
    }
}

/// The file size that a progress event reports (0 for any other command).
pub open spec fn reported_total(command: SessionCommand) -> int {
    match command {
        SessionCommand::Emit(UploadEvent::Progress(progress)) => progress.total_bytes as int,
        _ => 0,
    }
}

/// Whether a command ends the consumer's sequence: the completion event, or
/// a terminal error.
pub open spec fn ends_sequence(command: SessionCommand) -> bool {
    emits_complete(command) || command is Fail
}

/// How many of the commands abort the remote session.
pub open spec fn count_aborts(commands: Seq<SessionCommand>) -> nat
    decreases commands.len(),
{
    if commands.len() == 0 {
        0
    } else {
        count_aborts(commands.drop_last()) + if commands.last() is Abort {
            1nat
        } else {
            0nat
        }
    }
}

/// Aborts are counted piece by piece.
pub proof fn lemma_count_aborts_add(first: Seq<SessionCommand>, second: Seq<SessionCommand>)
    ensures
        count_aborts(first + second) == count_aborts(first) + count_aborts(second),
    decreases second.len(),
{
    if second.len() == 0 {
        assert(first + second =~= first);
    } else {
        assert((first + second).drop_last() =~= first + second.drop_last());
        lemma_count_aborts_add(first, second.drop_last());
    }
}

/// A run over two stretches of inputs is the run over the first followed by
/// the run over the second from where the first ended.
pub proof fn lemma_run_append(
    state: SessionState,
    first: Seq<SessionInput>,
    second: Seq<SessionInput>,
)
    ensures
        run(state, first + second).0 == run(run(state, first).0, second).0,
        run(state, first + second).1 == run(state, first).1 + run(run(state, first).0, second).1,
    decreases second.len(),
{
    let middle = run(state, first);
    if second.len() == 0 {
        assert(first + second =~= first);
        assert(middle.1 + Seq::<SessionCommand>::empty() =~= middle.1);
    } else {
        assert((first + second).drop_last() =~= first + second.drop_last());
        lemma_run_append(state, first, second.drop_last());
        let rest = run(middle.0, second.drop_last());
        let step = transition(rest.0, second.last());
        assert((middle.1 + rest.1) + step.1 =~= middle.1 + (rest.1 + step.1));
    }
}

/// Once a session has ended, no input changes it or draws a command.
pub proof fn lemma_run_after_end(state: SessionState, inputs: Seq<SessionInput>)
    requires
        state.wf(),
        state.is_terminal(),
    ensures
        run(state, inputs) == (state, Seq::<SessionCommand>::empty()),
    decreases inputs.len(),
{
    if inputs.len() > 0 {
        lemma_run_after_end(state, inputs.drop_last());
        lemma_transition_keeps_wf(state, inputs.last());
        assert(Seq::<SessionCommand>::empty() + Seq::<SessionCommand>::empty()
            =~= Seq::<SessionCommand>::empty());
    }
}

/// What holds between the state of a session and the commands it has issued
/// since it was opened.
///
/// - Every progress event names the file's size and reports no more than the
///   session has counted; later events never report less than earlier ones.
/// - A command that ends the sequence is the last one, and the session has
///   then ended.
/// - A completed session's last command is the completion event, and it has
///   aborted nothing.
/// - An aborted session's last command is the terminal error, and it has
///   aborted at most once.
/// - A session that has not ended has aborted nothing.
pub open spec fn run_inv(state: SessionState, issued: Seq<SessionCommand>) -> bool {
    &&& state.wf()
    &&& forall|i: int|
        0 <= i < issued.len() && emits_progress(#[trigger] issued[i]) ==> reported_bytes(issued[i])
            <= state.bytes_uploaded && reported_total(issued[i]) == state.file_size
    &&& forall|i: int, j: int|
        0 <= i <= j < issued.len() && emits_progress(#[trigger] issued[i]) && emits_progress(
            #[trigger] issued[j],
        ) ==> reported_bytes(issued[i]) <= reported_bytes(issued[j])
    &&& forall|i: int|
        0 <= i < issued.len() && ends_sequence(#[trigger] issued[i]) ==> i == issued.len() - 1
            && state.is_terminal()
    &&& state.phase is Completed ==> issued.len() > 0 && emits_complete(issued.last())
        && count_aborts(issued) == 0
    &&& state.phase is Aborted ==> issued.len() > 0 && issued.last() is Fail && count_aborts(issued)
        <= 1
    &&& !state.is_terminal() ==> count_aborts(issued) == 0
}

/// One step keeps the relation between a session and what it has issued.
pub proof fn lemma_step_keeps_run_inv(
    state: SessionState,
    issued: Seq<SessionCommand>,
    input: SessionInput,
)
    requires
        run_inv(state, issued),
    ensures
        run_inv(transition(state, input).0, issued + transition(state, input).1),
{
    let next = transition(state, input).0;
    let fresh = transition(state, input).1;
    let all = issued + fresh;
    lemma_transition_keeps_wf(state, input);
    lemma_count_aborts_add(issued, fresh);
    if fresh.len() == 0 {
        assert(all =~= issued);
        assert(next == state);
    } else {
        assert(!state.is_terminal());
        assert(fresh.len() <= 2);
        assert(count_aborts(Seq::<SessionCommand>::empty()) == 0);
        assert(fresh.drop_last().len() == 0 ==> count_aborts(fresh.drop_last()) == 0);
        if fresh.len() == 2 {
            assert(fresh.drop_last().drop_last().len() == 0);
            assert(count_aborts(fresh.drop_last().drop_last()) == 0);
            assert(fresh.drop_last().last() == fresh[0]);
            assert(count_aborts(fresh.drop_last()) == if fresh[0] is Abort {
                1nat
            } else {
                0nat
            });
        }
        assert forall|i: int| 0 <= i < issued.len() implies !ends_sequence(
            #[trigger] issued[i],
        ) by {}
        assert forall|i: int| 0 <= i < all.len() && emits_progress(#[trigger] all[i]) implies {
            &&& reported_bytes(all[i]) <= next.bytes_uploaded
            &&& reported_total(all[i]) == next.file_size
        } by {
            if i < issued.len() {
                assert(all[i] == issued[i]);
            } else {
                assert(all[i] == fresh[i - issued.len()]);
            }
        }
        assert forall|i: int, j: int|
            0 <= i <= j < all.len() && emits_progress(#[trigger] all[i]) && emits_progress(
                #[trigger] all[j],
            ) implies reported_bytes(all[i]) <= reported_bytes(all[j]) by {
            if j < issued.len() {
                assert(all[i] == issued[i]);
                assert(all[j] == issued[j]);
            } else if i < issued.len() {
                assert(all[i] == issued[i]);
                assert(all[j] == fresh[j - issued.len()]);
            } else {
                assert(all[i] == fresh[i - issued.len()]);
                assert(all[j] == fresh[j - issued.len()]);
            }
        }
        assert forall|i: int| 0 <= i < all.len() && ends_sequence(#[trigger] all[i]) implies i
            == all.len() - 1 && next.is_terminal() by {
            if i < issued.len() {
                assert(all[i] == issued[i]);
            } else {
                assert(all[i] == fresh[i - issued.len()]);
            }
        }
        assert(all.last() == fresh.last());
    }
}

/// The relation [`run_inv`] holds after every run of a session from its
/// start.
pub proof fn lemma_run_keeps_inv(file_size: u64, inputs: Seq<SessionInput>)
    requires
        planned(file_size) is Ok,
    ensures
        run_inv(run(initial_state(file_size), inputs).0, run(initial_state(file_size), inputs).1),
        run(initial_state(file_size), inputs).0.file_size == file_size,
    decreases inputs.len(),
{
    if inputs.len() == 0 {
        lemma_planned_fits(file_size);
    } else {
        lemma_run_keeps_inv(file_size, inputs.drop_last());
        let before = run(initial_state(file_size), inputs.drop_last());
        lemma_step_keeps_run_inv(before.0, before.1, inputs.last());
        lemma_transition_keeps_wf(before.0, inputs.last());
    }
}

/// Progress never goes back. In everything a session issues, from its start
/// and whatever it is fed: the first command emits progress at zero; every
/// progress event names the file's size and reports no more than it; and a
/// later progress event never reports fewer bytes than an earlier one.
pub proof fn lemma_progress_never_goes_back(file_size: u64, inputs: Seq<SessionInput>)
    requires
        planned(file_size) is Ok,
    ensures
        ({
            let trace = session_trace(file_size, inputs);
            &&& emits_progress(trace[0]) && reported_bytes(trace[0]) == 0
            &&& forall|i: int|
                0 <= i < trace.len() && emits_progress(#[trigger] trace[i]) ==> 0 <= reported_bytes(
                    trace[i],
                ) <= file_size && reported_total(trace[i]) == file_size
            &&& forall|i: int, j: int|
                0 <= i <= j < trace.len() && emits_progress(#[trigger] trace[i]) && emits_progress(
                    #[trigger] trace[j],
                ) ==> reported_bytes(trace[i]) <= reported_bytes(trace[j])
        }),
{
    lemma_run_keeps_inv(file_size, inputs);
    let opening = opening_commands(file_size);
    let issued = run(initial_state(file_size), inputs).1;
    let trace = session_trace(file_size, inputs);
    assert(opening.len() == 2 && emits_progress(opening[0]) && !emits_progress(opening[1]));
    assert(trace[0] == opening[0]);
    assert forall|i: int| 2 <= i < trace.len() implies #[trigger] trace[i] == issued[i - 2] by {}
    assert(trace[1] == opening[1]);
    assert forall|i: int| 0 <= i < trace.len() && emits_progress(#[trigger] trace[i]) implies 0
        <= reported_bytes(trace[i]) <= file_size && reported_total(trace[i]) == file_size by {
        if i >= 2 {
            assert(trace[i] == issued[i - 2]);
        }
    }
    assert forall|i: int, j: int|
        0 <= i <= j < trace.len() && emits_progress(#[trigger] trace[i]) && emits_progress(
            #[trigger] trace[j],
        ) implies reported_bytes(trace[i]) <= reported_bytes(trace[j]) by {
        if j >= 2 {
            assert(trace[j] == issued[j - 2]);
        }
        if i >= 2 {
            assert(trace[i] == issued[i - 2]);
        }
    }
}

/// Nothing follows the end. In everything a session issues, the completion
/// event or a terminal error can only be the very last command, so there is
/// at most one of them; it is there exactly when the session has ended, the
/// completion event when it has completed and the error when it was aborted;
/// and the remote session is aborted at most once, and never by a session
/// that completes.
pub proof fn lemma_nothing_follows_the_end(file_size: u64, inputs: Seq<SessionInput>)
    requires
        planned(file_size) is Ok,
    ensures
        ({
            let trace = session_trace(file_size, inputs);
            let end = run(initial_state(file_size), inputs).0;
            &&& forall|i: int|
                0 <= i < trace.len() && ends_sequence(#[trigger] trace[i]) ==> i == trace.len() - 1
            &&& end.phase is Completed <==> emits_complete(trace.last())
            &&& end.phase is Aborted <==> trace.last() is Fail
            &&& count_aborts(trace) <= 1
            &&& end.phase is Completed ==> count_aborts(trace) == 0
        }),
{
    lemma_run_keeps_inv(file_size, inputs);
    let opening = opening_commands(file_size);
    let issued = run(initial_state(file_size), inputs).1;
    let trace = session_trace(file_size, inputs);
    lemma_count_aborts_add(opening, issued);
    lemma_no_abort_in_opening(file_size);
    assert(!ends_sequence(opening[0]) && !ends_sequence(opening[1]));
    assert(trace[0] == opening[0] && trace[1] == opening[1]);
    assert forall|i: int| 0 <= i < trace.len() && ends_sequence(#[trigger] trace[i]) implies i
        == trace.len() - 1 by {
        if i >= 2 {
            assert(trace[i] == issued[i - 2]);
        }
    }
    if issued.len() > 0 {
        assert(trace.last() == issued.last());
    } else {
        assert(trace.last() == opening[1]);
    }
}

/// The opening commands abort nothing.
pub proof fn lemma_no_abort_in_opening(file_size: u64)
    ensures
        count_aborts(opening_commands(file_size)) == 0,
{
    let opening = opening_commands(file_size);
    assert(opening.drop_last().drop_last().len() == 0);
    assert(count_aborts(opening.drop_last().drop_last()) == 0);
    assert(count_aborts(opening.drop_last()) == 0);
}

/// A failed part aborts the session once and for all. If a part is in flight
/// after `before` and is then reported as failed with `error`, then whatever
/// is reported `after` that: the remote session is aborted exactly once, by
/// its identifier; the last command ends the sequence with that very error;
/// the completion event is never emitted; and no command at all follows the
/// error, so no further part is attempted.
pub proof fn lemma_part_failure_aborts_once(
    file_size: u64,
    before: Seq<SessionInput>,
    error: SessionError,
    after: Seq<SessionInput>,
)
    requires
        planned(file_size) is Ok,
        run(initial_state(file_size), before).0.phase is UploadingParts,
    ensures
        ({
            let inputs = before + seq![SessionInput::PartFailed { error }] + after;
            let trace = session_trace(file_size, inputs);
            let in_flight = run(initial_state(file_size), before).0.phase;
            &&& run(initial_state(file_size), inputs).0.phase is Aborted
            &&& count_aborts(trace) == 1
            &&& trace[trace.len() - 2] == (SessionCommand::Abort {
                session_id: in_flight->UploadingParts_session_id,
            })
            &&& trace.last() == SessionCommand::Fail(error)
            &&& forall|i: int| 0 <= i < trace.len() ==> !emits_complete(#[trigger] trace[i])
            &&& trace == session_trace(file_size, before + seq![SessionInput::PartFailed { error }])
        }),
{
    let start = initial_state(file_size);
    let failure = seq![SessionInput::PartFailed { error }];
    let until = run(start, before);
    lemma_run_keeps_inv(file_size, before);
    lemma_run_keeps_inv(file_size, before + failure);
    lemma_run_keeps_inv(file_size, before + failure + after);
    assert((before + failure).drop_last() =~= before);
    let failed = run(start, before + failure);
    assert(failed.0.phase is Aborted);
    assert(failed.1 == until.1 + transition(until.0, failure[0]).1);
    lemma_run_append(start, before + failure, after);
    lemma_run_after_end(failed.0, after);
    let ended = run(start, before + failure + after);
    assert(ended.1 =~= failed.1);
    let fresh = transition(until.0, failure[0]).1;
    assert(fresh.len() == 2);
    lemma_count_aborts_add(until.1, fresh);
    assert(fresh.drop_last().drop_last().len() == 0);
    assert(count_aborts(fresh.drop_last().drop_last()) == 0);
    assert(fresh.drop_last().last() == fresh[0]);
    assert(count_aborts(fresh.drop_last()) == 1);
    assert(count_aborts(fresh) == 1);
    let opening = opening_commands(file_size);
    lemma_no_abort_in_opening(file_size);
    lemma_count_aborts_add(opening, ended.1);
    let trace = session_trace(file_size, before + failure + after);
    assert(trace =~= opening + (until.1 + fresh));
    assert(trace[trace.len() - 2] == fresh[0]);
    assert(trace.last() == fresh[1]);
    lemma_nothing_follows_the_end(file_size, before + failure + after);
    assert forall|i: int| 0 <= i < trace.len() implies !emits_complete(#[trigger] trace[i]) by {
        if emits_complete(trace[i]) {
            assert(ends_sequence(trace[i]));
        }
    }
}

/// The inputs that report a sequence of progress notifications.
pub open spec fn notifications(sizes: Seq<u64>) -> Seq<SessionInput> {
    Seq::new(sizes.len(), |index: int| SessionInput::BytesSent { bytes: sizes[index] })
}

/// Notifications add up. While a part is in flight and no more is notified
/// than was handed over, the session counts exactly what it is notified of:
/// after the notifications `sizes` it has counted their sum more, it has
/// emitted one progress event for each, and the last of them reports the
/// new count. A consumer that misses notifications therefore counts less
/// than was sent, never more.
pub proof fn lemma_notifications_add_up(state: SessionState, sizes: Seq<u64>)
    requires
        state.wf(),
        state.phase is UploadingParts,
        state.bytes_uploaded + total_bytes(sizes) <= state.bytes_handed_over(),
    ensures
        run(state, notifications(sizes)).0 == (SessionState {
            bytes_uploaded: (state.bytes_uploaded + total_bytes(sizes)) as u64,
            ..state
        }),
        run(state, notifications(sizes)).1.len() == sizes.len(),
        sizes.len() > 0 ==> run(state, notifications(sizes)).1.last() == SessionCommand::Emit(
            UploadEvent::Progress(
                ChunkedUploadProgress {
                    bytes_uploaded: (state.bytes_uploaded + total_bytes(sizes)) as u64,
                    total_bytes: state.file_size,
                },
            ),
        ),
    decreases sizes.len(),
{
    if sizes.len() > 0 {
        lemma_total_bytes_bounds(sizes.drop_last());
        lemma_notifications_add_up(state, sizes.drop_last());
        assert(notifications(sizes).drop_last() =~= notifications(sizes.drop_last()));
        assert(notifications(sizes).last() == SessionInput::BytesSent { bytes: sizes.last() });
    }
}

/// A sum of byte counts is not negative.
pub proof fn lemma_total_bytes_bounds(sizes: Seq<u64>)
    ensures
        total_bytes(sizes) >= 0,
    decreases sizes.len(),
{
    if sizes.len() > 0 {
        lemma_total_bytes_bounds(sizes.drop_last());
    }
}

} // verus!
