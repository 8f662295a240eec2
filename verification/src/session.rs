//! The upload session: a state machine from what the caller reports of the
//! remote service to what the caller is to do next.
//!
//! The caller owns the I/O. It opens a session with [`UploadSession::begin`],
//! carries out the commands it is handed in order, and reports the outcome
//! of each remote call, and each progress notification it drains, through
//! [`UploadSession::step`]. Parts are uploaded strictly one after another.

use crate::event::{ArtifactRef, ChunkedUploadProgress, SessionError, UploadEvent};
use crate::part::{lemma_parts_tile_file, min_int, part_end, part_start};
use crate::plan::{calculate_upload_parts, planned, PlanningError, UploadPlan};
use vstd::prelude::*;

verus! {

/// Where a session stands.
#[derive(Clone, Debug, PartialEq, Eq)]
pub enum SessionPhase {
    /// The request that opens the remote session is under way.
    Initiating,
    /// Part `part_number` (1-based) is being uploaded.
    UploadingParts { session_id: String, part_number: u64 },
    /// All parts are uploaded; the request that creates the artifact is
    /// under way.
    Finalizing { session_id: String },
    /// The artifact exists. Terminal.
    Completed,
    /// The session ended with an error. Terminal, whatever became of the
    /// remote abort.
    Aborted,
}

/// What the caller reports to the session.
#[derive(Clone, Debug, PartialEq, Eq)]
pub enum SessionInput {
    /// The remote session was opened.
    InitSucceeded { session_id: String },
    /// The remote session could not be opened.
    InitFailed { error: SessionError },
    /// A progress notification: `bytes` more bytes went out.
    BytesSent { bytes: u64 },
    /// The part in flight was accepted.
    PartSucceeded,
    /// The part in flight could not be read or was not accepted.
    PartFailed { error: SessionError },
    /// The artifact was created.
    FinalizeSucceeded { artifact: ArtifactRef },
    /// The artifact could not be created; `detail` says why.
    FinalizeFailed { detail: String },
}

/// What the session asks of the caller.
#[derive(Clone, Debug, PartialEq, Eq)]
pub enum SessionCommand {
    /// Hand this event to the consumer.
    Emit(UploadEvent),
    /// Open a remote session for this many parts, and report the outcome.
    Init { total_parts: u64 },
    /// Read `length` bytes at `offset`, upload them as part `part_number`,
    /// and report notifications and the outcome.
    UploadPart { session_id: String, part_number: u64, offset: u64, length: u64 },
    /// Create the artifact from the uploaded parts, and report the outcome.
    Finalize { session_id: String },
    /// Abort the remote session. Best effort: the outcome is not reported.
    Abort { session_id: String },
    /// End the consumer's sequence with this error.
    Fail(SessionError),
}

/// The whole state of a session.
pub struct SessionState {
    pub file_size: u64,
    pub plan: UploadPlan,
    pub phase: SessionPhase,
    pub bytes_uploaded: u64,
}

impl SessionState {
    /// Bytes of the file that were handed to the transport so far: up to the
    /// end of the part in flight. Progress never counts beyond it.
    pub open spec fn bytes_handed_over(self) -> int {
        match self.phase {
            SessionPhase::Initiating => 0,
            SessionPhase::UploadingParts { part_number, .. } => part_end(
                self.plan,
                self.file_size,
                part_number as int,
            ),
            _ => self.file_size as int,
        }
    }

    /// The invariant of a session: its plan fits its file, the part in
    /// flight is one of the plan's, and no more bytes are counted than were
    /// handed over.
    pub open spec fn wf(self) -> bool {
        &&& self.plan.fits(self.file_size)
        &&& self.phase matches SessionPhase::UploadingParts { part_number, .. } ==> 1
            <= part_number <= self.plan.total_parts
        &&& self.bytes_uploaded <= self.bytes_handed_over() <= self.file_size
    }

    /// Whether the session has ended.
    pub open spec fn is_terminal(self) -> bool {
        self.phase is Completed || self.phase is Aborted
    }

    /// The progress that the session reports at this point.
    pub open spec fn progress(self) -> ChunkedUploadProgress {
        ChunkedUploadProgress { bytes_uploaded: self.bytes_uploaded, total_bytes: self.file_size }
    }
}

/// The command that starts the upload of part `part_number`.
pub open spec fn upload_part_command(
    plan: UploadPlan,
    file_size: u64,
    session_id: String,
    part_number: u64,
) -> SessionCommand {
    SessionCommand::UploadPart {
        session_id,
        part_number,
        offset: part_start(plan, part_number as int) as u64,
        length: (part_end(plan, file_size, part_number as int) - part_start(
            plan,
            part_number as int,
        )) as u64,
    }
}

/// The state in which a session for a file of `file_size` bytes starts.
pub open spec fn initial_state(file_size: u64) -> SessionState
    recommends
        planned(file_size) is Ok,
{
    SessionState {
        file_size,
        plan: UploadPlan {
            total_parts: planned(file_size)->Ok_0.0,
            chunk_size_bytes: planned(file_size)->Ok_0.1,
        },
        phase: SessionPhase::Initiating,
        bytes_uploaded: 0,
    }
}

/// The commands with which a session starts: the first progress event, at
/// zero, then the request that opens the remote session.
pub open spec fn opening_commands(file_size: u64) -> Seq<SessionCommand>
    recommends
        planned(file_size) is Ok,
{
    seq![
        SessionCommand::Emit(
            UploadEvent::Progress(
                ChunkedUploadProgress { bytes_uploaded: 0, total_bytes: file_size },
            ),
        ),
        SessionCommand::Init { total_parts: planned(file_size)->Ok_0.0 },
    ]
}

/// The bytes counted after a notification of `bytes` more: the sum, held at
/// what was handed over.
pub open spec fn counted_after(state: SessionState, bytes: u64) -> u64 {
    min_int(state.bytes_uploaded + bytes, state.bytes_handed_over()) as u64
}

/// One step of a session: the state and the commands that follow from a
/// state and an input.
///
/// - Opening succeeded: part 1 is started.
/// - Opening failed: the sequence ends with the error; there is nothing to
///   abort.
/// - A notification while a part is in flight: the count grows, and one
///   progress event is emitted.
/// - The part in flight succeeded: the next part is started, or after the
///   last one the artifact is requested.
/// - The part in flight failed: the remote session is aborted and the
///   sequence ends with the error. No further part is attempted.
/// - Finalizing succeeded: the completion event is emitted.
/// - Finalizing failed: the remote session is aborted and the sequence ends
///   with the error.
/// - Any other input, and every input after the session has ended, changes
///   nothing and asks for nothing.
pub open spec fn transition(state: SessionState, input: SessionInput) -> (
    SessionState,
    Seq<SessionCommand>,
) {
    match (state.phase, input) {
        (SessionPhase::Initiating, SessionInput::InitSucceeded { session_id }) => (
            SessionState {
                phase: SessionPhase::UploadingParts { session_id, part_number: 1 },
                ..state
            },
            seq![upload_part_command(state.plan, state.file_size, session_id, 1)],
        ),
        (SessionPhase::Initiating, SessionInput::InitFailed { error }) => (
            SessionState { phase: SessionPhase::Aborted, ..state },
            seq![SessionCommand::Fail(error)],
        ),
        (SessionPhase::UploadingParts { .. }, SessionInput::BytesSent { bytes }) => (
            SessionState { bytes_uploaded: counted_after(state, bytes), ..state },
            seq![
                SessionCommand::Emit(
                    UploadEvent::Progress(
                        ChunkedUploadProgress {
                            bytes_uploaded: counted_after(state, bytes),
                            total_bytes: state.file_size,
                        },
                    ),
                ),
            ],
        ),
        (SessionPhase::UploadingParts { session_id, part_number }, SessionInput::PartSucceeded) => {
            if part_number < state.plan.total_parts {
                (
                    SessionState {
                        phase: SessionPhase::UploadingParts {
                            session_id,
                            part_number: (part_number + 1) as u64,
                        },
                        ..state
                    },
                    seq![
                        upload_part_command(
                            state.plan,
                            state.file_size,
                            session_id,
                            (part_number + 1) as u64,
                        ),
                    ],
                )
            } else {
                (
                    SessionState { phase: SessionPhase::Finalizing { session_id }, ..state },
                    seq![SessionCommand::Finalize { session_id }],
                )
            }
        },
        (SessionPhase::UploadingParts { session_id, .. }, SessionInput::PartFailed { error }) => (
            SessionState { phase: SessionPhase::Aborted, ..state },
            seq![SessionCommand::Abort { session_id }, SessionCommand::Fail(error)],
        ),
        (SessionPhase::Finalizing { .. }, SessionInput::FinalizeSucceeded { artifact }) => (
            SessionState { phase: SessionPhase::Completed, ..state },
            seq![SessionCommand::Emit(UploadEvent::Complete(artifact))],
        ),
        (SessionPhase::Finalizing { session_id }, SessionInput::FinalizeFailed { detail }) => (
            SessionState { phase: SessionPhase::Aborted, ..state },
            seq![
                SessionCommand::Abort { session_id },
                SessionCommand::Fail(SessionError::FinalizeFailed { detail }),
            ],
        ),
        _ => (state, Seq::empty()),
    }
}

/// A step keeps the invariant, never takes counted bytes back, and never
/// leaves a terminal phase.
pub proof fn lemma_transition_keeps_wf(state: SessionState, input: SessionInput)
    requires
        state.wf(),
    ensures
        transition(state, input).0.wf(),
        transition(state, input).0.file_size == state.file_size,
        transition(state, input).0.plan == state.plan,
        transition(state, input).0.bytes_uploaded >= state.bytes_uploaded,
        state.is_terminal() ==> transition(state, input) == (state, Seq::<SessionCommand>::empty()),
{
    match state.phase {
        SessionPhase::Initiating => {
            lemma_parts_tile_file(state.plan, state.file_size, 1);
        },
        SessionPhase::UploadingParts { part_number, .. } => {
            lemma_parts_tile_file(state.plan, state.file_size, part_number as int);
            if part_number < state.plan.total_parts {
                lemma_parts_tile_file(state.plan, state.file_size, part_number + 1);
            }
        },
        _ => {},
    }
}

/// An upload session. Its state can be read but is changed only by
/// [`UploadSession::step`], so that it always meets its invariant.
pub struct UploadSession {
    state: SessionState,
}

impl View for UploadSession {
    type V = SessionState;

    closed spec fn view(&self) -> SessionState {
        self.state
    }
}

impl UploadSession {
    #[verifier::type_invariant]
    spec fn inv(self) -> bool {
        self.state.wf()
    }

    /// Plans the upload of a file of `file_size` bytes and starts a session
    /// for it. No session is made for a file that cannot be planned.
    pub fn begin(file_size: u64) -> (r: Result<(UploadSession, Vec<SessionCommand>), PlanningError>)
        ensures
            match r {
                Ok((session, commands)) => {
                    &&& planned(file_size) is Ok
                    &&& session@ == initial_state(file_size)
                    &&& session@.wf()
                    &&& commands@ == opening_commands(file_size)
                },
                Err(error) => planned(file_size) == Err::<(u64, u64), PlanningError>(error),
            },
    {
        match calculate_upload_parts(file_size) {
            Err(error) => Err(error),
            Ok((total_parts, chunk_size)) => {
                let state = SessionState {
                    file_size,
                    plan: UploadPlan { total_parts, chunk_size_bytes: chunk_size },
                    phase: SessionPhase::Initiating,
                    bytes_uploaded: 0,
                };
                let mut commands: Vec<SessionCommand> = Vec::new();
                commands.push(
                    SessionCommand::Emit(
                        UploadEvent::Progress(
                            ChunkedUploadProgress { bytes_uploaded: 0, total_bytes: file_size },
                        ),
                    ),
                );
                commands.push(SessionCommand::Init { total_parts });
                assert(commands@ =~= opening_commands(file_size));
                Ok((UploadSession { state }, commands))
            },
        }
    }

    /// Takes one input: the session moves on and says what to do next, as
    /// [`transition`] defines it.
    pub fn step(self, input: SessionInput) -> (r: (UploadSession, Vec<SessionCommand>))
        ensures
            self@.wf(),
            r.0@ == transition(self@, input).0,
            r.1@ == transition(self@, input).1,
            r.0@.wf(),
    {
        proof {
            use_type_invariant(&self);
            lemma_transition_keeps_wf(self.state, input);
        }
        let ghost before = self.state;
        let SessionState { file_size, plan, phase, bytes_uploaded } = self.state;
        let mut commands: Vec<SessionCommand> = Vec::new();
        let next_phase: SessionPhase;
        let mut counted: u64 = bytes_uploaded;
        match (phase, input) {
            (SessionPhase::Initiating, SessionInput::InitSucceeded { session_id }) => {
                proof {
                    lemma_parts_tile_file(plan, file_size, 1);
                }
                let range = plan.part_range(file_size, 1);
                commands.push(
                    SessionCommand::UploadPart {
                        session_id: session_id.clone(),
                        part_number: 1,
                        offset: range.offset,
                        length: range.length,
                    },
                );
                next_phase = SessionPhase::UploadingParts { session_id, part_number: 1 };
            },
            (SessionPhase::Initiating, SessionInput::InitFailed { error }) => {
                commands.push(SessionCommand::Fail(error));
                next_phase = SessionPhase::Aborted;
            },
            (
                SessionPhase::UploadingParts { session_id, part_number },
                SessionInput::BytesSent { bytes },
            ) => {
                proof {
                    lemma_parts_tile_file(plan, file_size, part_number as int);
                }
                let range = plan.part_range(file_size, part_number);
                let handed_over: u64 = range.offset + range.length;
                counted =
                if bytes <= handed_over - bytes_uploaded {
                    bytes_uploaded + bytes
                } else {
                    handed_over
                };
                commands.push(
                    SessionCommand::Emit(
                        UploadEvent::Progress(
                            ChunkedUploadProgress { bytes_uploaded: counted, total_bytes: file_size },
                        ),
                    ),
                );
                next_phase = SessionPhase::UploadingParts { session_id, part_number };
            },
            (
                SessionPhase::UploadingParts { session_id, part_number },
                SessionInput::PartSucceeded,
            ) => {
                if part_number < plan.total_parts {
                    proof {
                        lemma_parts_tile_file(plan, file_size, part_number + 1);
                    }
                    let range = plan.part_range(file_size, part_number + 1);
                    commands.push(
                        SessionCommand::UploadPart {
                            session_id: session_id.clone(),
                            part_number: part_number + 1,
                            offset: range.offset,
                            length: range.length,
                        },
                    );
                    next_phase =
                    SessionPhase::UploadingParts { session_id, part_number: part_number + 1 };
                } else {
                    commands.push(SessionCommand::Finalize { session_id: session_id.clone() });
                    next_phase = SessionPhase::Finalizing { session_id };
                }
            },
            (
                SessionPhase::UploadingParts { session_id, part_number: _ },
                SessionInput::PartFailed { error },
            ) => {
                commands.push(SessionCommand::Abort { session_id });
                commands.push(SessionCommand::Fail(error));
                next_phase = SessionPhase::Aborted;
            },
            (
                SessionPhase::Finalizing { session_id: _ },
                SessionInput::FinalizeSucceeded { artifact },
            ) => {
                commands.push(SessionCommand::Emit(UploadEvent::Complete(artifact)));
                next_phase = SessionPhase::Completed;
            },
            (SessionPhase::Finalizing { session_id }, SessionInput::FinalizeFailed { detail }) => {
                commands.push(SessionCommand::Abort { session_id });
                commands.push(SessionCommand::Fail(SessionError::FinalizeFailed { detail }));
                next_phase = SessionPhase::Aborted;
            },
            (unchanged, _) => {
                next_phase = unchanged;
            },
        }
        let state = SessionState { file_size, plan, phase: next_phase, bytes_uploaded: counted };
        assert(state == transition(before, input).0);
        assert(commands@ =~= transition(before, input).1);
        (UploadSession { state }, commands)
    }

    /// The phase the session is in.
    pub fn phase(&self) -> (phase: &SessionPhase)
        ensures
            *phase == self@.phase,
    {
        &self.state.phase
    }

    /// The plan the session follows.
    pub fn plan(&self) -> (plan: UploadPlan)
        ensures
            plan == self@.plan,
            plan.fits(self@.file_size),
    {
        proof {
            use_type_invariant(self);
        }
        self.state.plan
    }

    /// The progress the session reports at this point: never more than the
    /// size of the file.
    pub fn progress(&self) -> (progress: ChunkedUploadProgress)
        ensures
            progress == self@.progress(),
            progress.bytes_uploaded <= progress.total_bytes,
    {
        proof {
            use_type_invariant(self);
        }
        ChunkedUploadProgress {
            bytes_uploaded: self.state.bytes_uploaded,
            total_bytes: self.state.file_size,
        }
    }

    /// Whether the session has ended, with the artifact or with an error.
    pub fn is_terminal(&self) -> (ended: bool)
        ensures
            ended == self@.is_terminal(),
    {
        match &self.state.phase {
            SessionPhase::Completed => true,
            SessionPhase::Aborted => true,
            _ => false,
        }
    }
}

} // verus!
