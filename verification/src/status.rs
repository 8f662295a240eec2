//! Status values as the remote service reports them, and how they are
//! shown. Every status type has a variant for a value this client does not
//! know, so that every match is exhaustive.

use crate::text::same_text;
use vstd::prelude::*;
use vstd::string::StringExecFns;

verus! {

/// The colour in which a status is shown.
#[derive(Clone, Copy, Debug, PartialEq, Eq, Structural)]
pub enum Tone {
    Plain,
    Yellow,
    Green,
    Red,
}

/// The status of a job.
#[derive(Debug, Clone, PartialEq, Eq)]
pub enum JobStatus {
    Pending,
    Running,
    Completed,
    Failed,
    Canceled,
    /// A status this client does not know, as it was received.
    Other(String),
}

/// The status of one stage of a job.
#[derive(Debug, Clone, PartialEq, Eq)]
pub enum StageStatus {
    Pending,
    Running,
    Done,
    Cancelled,
    Error,
    /// A status this client does not know, as it was received.
    Other(String),
}

/// The status of a model service within a use case.
#[derive(Debug, Clone, PartialEq, Eq)]
pub enum ModelServiceStatus {
    Pending,
    Online,
    Offline,
    TurnedOff,
    Error,
    /// A status this client does not know, as it was received.
    Other(String),
}

/// Whether a model of the registry is being served.
#[derive(Debug, Clone, PartialEq, Eq)]
pub enum ModelOnline {
    Online,
    Offline,
    Pending,
    Error,
    /// A value this client does not know, as it was received.
    Other(String),
}

/// What is drawn for a stage: a fixed glyph, or the animated spinner.
#[derive(Clone, Copy, Debug, PartialEq, Eq)]
pub enum StageMark {
    Glyph { glyph: &'static str, tone: Tone },
    Spinner,
}

impl JobStatus {
    /// Whether `wire` names a status that this client knows.
    pub open spec fn is_known(wire: Seq<char>) -> bool {
        wire == "PENDING"@ || wire == "RUNNING"@ || wire == "COMPLETED"@ || wire == "FAILED"@
            || wire == "CANCELED"@
    }

    /// Reads a status as the remote service writes it. A value that is
    /// none of the known ones is kept as `Other`.
    pub fn from_wire(wire: &str) -> (status: JobStatus)
        ensures
            wire@ == "PENDING"@ <==> status is Pending,
            wire@ == "RUNNING"@ <==> status is Running,
            wire@ == "COMPLETED"@ <==> status is Completed,
            wire@ == "FAILED"@ <==> status is Failed,
            wire@ == "CANCELED"@ <==> status is Canceled,
            !Self::is_known(wire@) <==> status is Other,
            status matches JobStatus::Other(text) ==> text@ == wire@,
    {
        proof {
            reveal_strlit("PENDING");
            reveal_strlit("RUNNING");
            reveal_strlit("COMPLETED");
            reveal_strlit("FAILED");
            reveal_strlit("CANCELED");
            assert("PENDING"@[0] == 'P' && "RUNNING"@[0] == 'R' && "COMPLETED"@[0] == 'C'
                && "FAILED"@[0] == 'F' && "CANCELED"@[0] == 'C');
            assert("COMPLETED"@.len() == 9 && "CANCELED"@.len() == 8);
        }
        if same_text(wire, "PENDING") {
            JobStatus::Pending
        } else if same_text(wire, "RUNNING") {
            JobStatus::Running
        } else if same_text(wire, "COMPLETED") {
            JobStatus::Completed
        } else if same_text(wire, "FAILED") {
            JobStatus::Failed
        } else if same_text(wire, "CANCELED") {
            JobStatus::Canceled
        } else {
            JobStatus::Other(String::from_str(wire))
        }
    }

    /// The word shown for a status; `Unknown` for one this client does not
    /// know.
    pub open spec fn spec_label(self) -> Seq<char> {
        match self {
            JobStatus::Pending => "Pending"@,
            JobStatus::Running => "Running"@,
            JobStatus::Completed => "Completed"@,
            JobStatus::Failed => "Failed"@,
            JobStatus::Canceled => "Canceled"@,
            JobStatus::Other(_) => "Unknown"@,
        }
    }

    /// The word shown for a status.
    pub fn label(&self) -> (label: &'static str)
        ensures
            label@ == self.spec_label(),
    {
        match self {
            JobStatus::Pending => "Pending",
            JobStatus::Running => "Running",
            JobStatus::Completed => "Completed",
            JobStatus::Failed => "Failed",
            JobStatus::Canceled => "Canceled",
            JobStatus::Other(_) => "Unknown",
        }
    }

    /// Whether the job is still under way: pending or running. A follower
    /// of the job stops when this is false.
    pub fn is_active(&self) -> (active: bool)
        ensures
            active == (self is Pending || self is Running),
    {
        match self {
            JobStatus::Pending => true,
            JobStatus::Running => true,
            _ => false,
        }
    }

    /// The glyph shown for a status in a list of jobs.
    pub open spec fn spec_icon(self) -> Seq<char> {
        match self {
            JobStatus::Pending => "⏳"@,
            JobStatus::Running => "▶️"@,
            JobStatus::Completed => "✅"@,
            JobStatus::Failed => "❌"@,
            JobStatus::Canceled => "🚫"@,
            JobStatus::Other(_) => "❓"@,
        }
    }

    /// The colour of the glyph: green for a completed job, red for a failed
    /// one, yellow for every other.
    pub open spec fn spec_tone(self) -> Tone {
        match self {
            JobStatus::Completed => Tone::Green,
            JobStatus::Failed => Tone::Red,
            _ => Tone::Yellow,
        }
    }

    /// The glyph shown for a status in a list of jobs, and its colour.
    pub fn icon(&self) -> (icon: (&'static str, Tone))
        ensures
            icon.0@ == self.spec_icon(),
            icon.1 == self.spec_tone(),
    {
        match self {
            JobStatus::Pending => ("⏳", Tone::Yellow),
            JobStatus::Running => ("▶️", Tone::Yellow),
            JobStatus::Completed => ("✅", Tone::Green),
            JobStatus::Failed => ("❌", Tone::Red),
            JobStatus::Canceled => ("🚫", Tone::Yellow),
            JobStatus::Other(_) => ("❓", Tone::Yellow),
        }
    }
}

impl StageStatus {
    /// Whether `wire` names a status that this client knows.
    pub open spec fn is_known(wire: Seq<char>) -> bool {
        wire == "PENDING"@ || wire == "RUNNING"@ || wire == "DONE"@ || wire == "CANCELLED"@
            || wire == "ERROR"@
    }

    /// Reads a stage status as the remote service writes it. A value that is
    /// none of the known ones is kept as `Other`.
    pub fn from_wire(wire: &str) -> (status: StageStatus)
        ensures
            wire@ == "PENDING"@ <==> status is Pending,
            wire@ == "RUNNING"@ <==> status is Running,
            wire@ == "DONE"@ <==> status is Done,
            wire@ == "CANCELLED"@ <==> status is Cancelled,
            wire@ == "ERROR"@ <==> status is Error,
            !Self::is_known(wire@) <==> status is Other,
            status matches StageStatus::Other(text) ==> text@ == wire@,
    {
        proof {
            reveal_strlit("PENDING");
            reveal_strlit("RUNNING");
            reveal_strlit("DONE");
            reveal_strlit("CANCELLED");
            reveal_strlit("ERROR");
            assert("PENDING"@[0] == 'P' && "RUNNING"@[0] == 'R' && "DONE"@[0] == 'D'
                && "CANCELLED"@[0] == 'C' && "ERROR"@[0] == 'E');
        }
        if same_text(wire, "PENDING") {
            StageStatus::Pending
        } else if same_text(wire, "RUNNING") {
            StageStatus::Running
        } else if same_text(wire, "DONE") {
            StageStatus::Done
        } else if same_text(wire, "CANCELLED") {
            StageStatus::Cancelled
        } else if same_text(wire, "ERROR") {
            StageStatus::Error
        } else {
            StageStatus::Other(String::from_str(wire))
        }
    }
}

/// What is drawn for a stage of a job: a hollow diamond while it waits, the
/// spinner while it runs, a green diamond when done, a red square when
/// cancelled, a red triangle on error, and a yellow question mark when the
/// stage has no status or one this client does not know.
pub open spec fn stage_mark_of(status: Option<StageStatus>) -> StageMark {
    match status {
        Some(StageStatus::Pending) => StageMark::Glyph { glyph: "◇", tone: Tone::Plain },
        Some(StageStatus::Running) => StageMark::Spinner,
        Some(StageStatus::Done) => StageMark::Glyph { glyph: "◆", tone: Tone::Green },
        Some(StageStatus::Cancelled) => StageMark::Glyph { glyph: "■", tone: Tone::Red },
        Some(StageStatus::Error) => StageMark::Glyph { glyph: "▲", tone: Tone::Red },
        _ => StageMark::Glyph { glyph: "❓", tone: Tone::Yellow },
    }
}

/// What is drawn for a stage of a job.
pub fn stage_mark(status: &Option<StageStatus>) -> (mark: StageMark)
    ensures
        mark == stage_mark_of(*status),
{
    match status {
        Some(StageStatus::Pending) => StageMark::Glyph { glyph: "◇", tone: Tone::Plain },
        Some(StageStatus::Running) => StageMark::Spinner,
        Some(StageStatus::Done) => StageMark::Glyph { glyph: "◆", tone: Tone::Green },
        Some(StageStatus::Cancelled) => StageMark::Glyph { glyph: "■", tone: Tone::Red },
        Some(StageStatus::Error) => StageMark::Glyph { glyph: "▲", tone: Tone::Red },
        _ => StageMark::Glyph { glyph: "❓", tone: Tone::Yellow },
    }
}

impl ModelServiceStatus {
    /// Whether `wire` names a status that this client knows.
    pub open spec fn is_known(wire: Seq<char>) -> bool {
        wire == "PENDING"@ || wire == "ONLINE"@ || wire == "OFFLINE"@ || wire == "TURNED_OFF"@
            || wire == "ERROR"@
    }

    /// Reads the status of a model service as the remote service writes it.
    /// A value that is none of the known ones is kept as `Other`.
    pub fn from_wire(wire: &str) -> (status: ModelServiceStatus)
        ensures
            wire@ == "PENDING"@ <==> status is Pending,
            wire@ == "ONLINE"@ <==> status is Online,
            wire@ == "OFFLINE"@ <==> status is Offline,
            wire@ == "TURNED_OFF"@ <==> status is TurnedOff,
            wire@ == "ERROR"@ <==> status is Error,
            !Self::is_known(wire@) <==> status is Other,
            status matches ModelServiceStatus::Other(text) ==> text@ == wire@,
    {
        proof {
            reveal_strlit("PENDING");
            reveal_strlit("ONLINE");
            reveal_strlit("OFFLINE");
            reveal_strlit("TURNED_OFF");
            reveal_strlit("ERROR");
            assert("PENDING"@[0] == 'P' && "ONLINE"@[0] == 'O' && "OFFLINE"@[0] == 'O'
                && "TURNED_OFF"@[0] == 'T' && "ERROR"@[0] == 'E');
            assert("ONLINE"@.len() == 6 && "OFFLINE"@.len() == 7);
        }
        if same_text(wire, "PENDING") {
            ModelServiceStatus::Pending
        } else if same_text(wire, "ONLINE") {
            ModelServiceStatus::Online
        } else if same_text(wire, "OFFLINE") {
            ModelServiceStatus::Offline
        } else if same_text(wire, "TURNED_OFF") {
            ModelServiceStatus::TurnedOff
        } else if same_text(wire, "ERROR") {
            ModelServiceStatus::Error
        } else {
            ModelServiceStatus::Other(String::from_str(wire))
        }
    }

    /// The words shown for the status of a model service; a status this
    /// client does not know is shown as it was received.
    pub open spec fn spec_label(self) -> Seq<char> {
        match self {
            ModelServiceStatus::Pending => "Pending"@,
            ModelServiceStatus::Online => "Online"@,
            ModelServiceStatus::Offline => "Offline"@,
            ModelServiceStatus::TurnedOff => "Turned Off"@,
            ModelServiceStatus::Error => "Error"@,
            ModelServiceStatus::Other(text) => text@,
        }
    }

    /// The words shown for the status of a model service.
    pub fn label(&self) -> (label: String)
        ensures
            label@ == self.spec_label(),
    {
        match self {
            ModelServiceStatus::Pending => String::from_str("Pending"),
            ModelServiceStatus::Online => String::from_str("Online"),
            ModelServiceStatus::Offline => String::from_str("Offline"),
            ModelServiceStatus::TurnedOff => String::from_str("Turned Off"),
            ModelServiceStatus::Error => String::from_str("Error"),
            ModelServiceStatus::Other(text) => text.clone(),
        }
    }
}

impl ModelOnline {
    /// Whether `wire` names a value that this client knows.
    pub open spec fn is_known(wire: Seq<char>) -> bool {
        wire == "ONLINE"@ || wire == "OFFLINE"@ || wire == "PENDING"@ || wire == "ERROR"@
    }

    /// Reads whether a model is served as the remote service writes it. A
    /// value that is none of the known ones is kept as `Other`.
    pub fn from_wire(wire: &str) -> (online: ModelOnline)
        ensures
            wire@ == "ONLINE"@ <==> online is Online,
            wire@ == "OFFLINE"@ <==> online is Offline,
            wire@ == "PENDING"@ <==> online is Pending,
            wire@ == "ERROR"@ <==> online is Error,
            !Self::is_known(wire@) <==> online is Other,
            online matches ModelOnline::Other(text) ==> text@ == wire@,
    {
        proof {
            reveal_strlit("ONLINE");
            reveal_strlit("OFFLINE");
            reveal_strlit("PENDING");
            reveal_strlit("ERROR");
            assert("PENDING"@[0] == 'P' && "ONLINE"@[0] == 'O' && "OFFLINE"@[0] == 'O'
                && "ERROR"@[0] == 'E');
            assert("ONLINE"@.len() == 6 && "OFFLINE"@.len() == 7);
        }
        if same_text(wire, "ONLINE") {
            ModelOnline::Online
        } else if same_text(wire, "OFFLINE") {
            ModelOnline::Offline
        } else if same_text(wire, "PENDING") {
            ModelOnline::Pending
        } else if same_text(wire, "ERROR") {
            ModelOnline::Error
        } else {
            ModelOnline::Other(String::from_str(wire))
        }
    }
}

/// The word shown for a model of the registry: `Error` when it has an
/// error, else `Training` while it is trained, else by whether it is served.
pub open spec fn model_status_text(has_error: bool, is_training: bool, online: ModelOnline) -> Seq<
    char,
> {
    if has_error {
        "Error"@
    } else if is_training {
        "Training"@
    } else {
        match online {
            ModelOnline::Online => "Online"@,
            ModelOnline::Offline => "Offline"@,
            ModelOnline::Pending => "Pending"@,
            ModelOnline::Error => "Error"@,
            ModelOnline::Other(text) => text@,
        }
    }
}

/// The word shown for a model of the registry.
pub fn model_status(has_error: bool, is_training: bool, online: &ModelOnline) -> (label: String)
    ensures
        label@ == model_status_text(has_error, is_training, *online),
{
    if has_error {
        String::from_str("Error")
    } else if is_training {
        String::from_str("Training")
    } else {
        match online {
            ModelOnline::Online => String::from_str("Online"),
            ModelOnline::Offline => String::from_str("Offline"),
            ModelOnline::Pending => String::from_str("Pending"),
            ModelOnline::Error => String::from_str("Error"),
            ModelOnline::Other(text) => text.clone(),
        }
    }
}

/// The key shown for a model of the registry: `N/A` for an empty one.
pub fn model_key(key: &str) -> (shown: &str)
    ensures
        shown@ == if key@.len() == 0 {
            "N/A"@
        } else {
            key@
        },
{
    if key.is_empty() {
        "N/A"
    } else {
        key
    }
}

/// Number of frames of the spinner.
pub const SPINNER_FRAMES: usize = 4;

/// The frame that follows `frame` in the spinner's cycle.
pub fn next_spinner_frame(frame: usize) -> (next: usize)
    ensures
        next == (frame + 1) % (SPINNER_FRAMES as int),
        next < SPINNER_FRAMES,
{
    (frame % SPINNER_FRAMES + 1) % SPINNER_FRAMES
}

/// The glyph of a spinner frame.
pub open spec fn spinner_glyph_of(frame: int) -> Seq<char> {
    if frame == 0 {
        "◐"@
    } else if frame == 1 {
        "◓"@
    } else if frame == 2 {
        "◑"@
    } else {
        "◒"@
    }
}

/// The glyph of a spinner frame.
pub fn spinner_glyph(frame: usize) -> (glyph: &'static str)
    requires
        frame < SPINNER_FRAMES,
    ensures
        glyph@ == spinner_glyph_of(frame as int),
{
    if frame == 0 {
        "◐"
    } else if frame == 1 {
        "◓"
    } else if frame == 2 {
        "◑"
    } else {
        "◒"
    }
}

} // verus!
