//! Plain values of the API client: timestamps, the file placeholder of a
//! multipart request, and the paging of the job list.

use crate::status::JobStatus;
use crate::text::decimal;
use crate::text::decimal_text;
use vstd::prelude::*;
use vstd::string::StringExecFns;

verus! {

/// Number of jobs asked for in one page.
pub const PAGE_SIZE: usize = 20;

/// A point in time, as the remote service writes it: milliseconds since the
/// Unix epoch. Timestamps are ordered by time.
#[derive(Clone, Copy, Debug, PartialEq, Eq, Structural, PartialOrd, Ord)]
pub struct Timestamp(pub u64);

impl Timestamp {
    /// The point in time `millis` milliseconds after the Unix epoch.
    pub fn from_millis(millis: u64) -> (timestamp: Timestamp)
        ensures
            timestamp.0 == millis,
    {
        Timestamp(millis)
    }

    /// Whole seconds since the Unix epoch.
    pub fn as_secs(&self) -> (secs: u64)
        ensures
            secs == self.0 / 1000,
    {
        self.0 / 1000
    }

    /// The milliseconds beyond the whole seconds.
    pub fn subsec_millis(&self) -> (millis: u32)
        ensures
            millis == self.0 % 1000,
    {
        (self.0 % 1000) as u32
    }

    /// Whether this point in time is later than `other`.
    pub fn is_after(&self, other: &Timestamp) -> (later: bool)
        ensures
            later == (self.0 > other.0),
    {
        self.0 > other.0
    }
}

/// The place of a file among the parts of a multipart request: the variable
/// of the operation holds this number, and the part of that name holds the
/// file.
#[derive(Clone, Copy, Debug, PartialEq, Eq, Structural)]
pub struct Upload(pub usize);

/// The map of a multipart request with one file, which stands at place 0
/// and fills the variable `file`.
pub const SINGLE_FILE_MAP: &'static str = "{ \"0\": [\"variables.file\"] }";

impl Upload {
    /// The placeholder of the only file of a request: place 0.
    pub fn single() -> (upload: Upload)
        ensures
            upload.0 == 0,
    {
        Upload(0)
    }

    /// The name of the part that holds the file: its place in decimal.
    pub fn part_name(&self) -> (name: String)
        ensures
            name@ == decimal_text(self.0 as nat),
    {
        decimal(self.0 as u64)
    }
}

/// What the remote service says of a page of a list: whether another page
/// follows, and where this one ended.
#[derive(Debug, Clone, PartialEq, Eq)]
pub struct PageInfo {
    pub has_next_page: bool,
    pub end_cursor: Option<String>,
}

/// The kinds of job that the remote service knows of, as far as this client
/// asks for them.
#[derive(Clone, Copy, Debug, PartialEq, Eq, Structural)]
pub enum JobKind {
    Custom,
}

/// The request for one page of the job list.
#[derive(Debug, Clone, PartialEq, Eq)]
pub struct JobsPageRequest {
    pub use_case: Option<String>,
    pub kinds: Vec<JobKind>,
    pub statuses: Vec<JobStatus>,
    pub first: i64,
    pub after: Option<String>,
}

impl JobsPageRequest {
    /// The request for the page of jobs that follows the cursor `after`
    /// (the first page without one): custom jobs that are running or
    /// pending, `PAGE_SIZE` of them, of one use case or of all.
    pub fn new(use_case: Option<String>, after: Option<String>) -> (request: Self)
        ensures
            request.use_case == use_case,
            request.after == after,
            request.first == PAGE_SIZE,
            request.kinds@ == seq![JobKind::Custom],
            request.statuses@ == seq![JobStatus::Running, JobStatus::Pending],
    {
        let mut kinds: Vec<JobKind> = Vec::new();
        kinds.push(JobKind::Custom);
        let mut statuses: Vec<JobStatus> = Vec::new();
        statuses.push(JobStatus::Running);
        statuses.push(JobStatus::Pending);
        assert(kinds@ =~= seq![JobKind::Custom]);
        assert(statuses@ =~= seq![JobStatus::Running, JobStatus::Pending]);
        JobsPageRequest { use_case, kinds, statuses, first: PAGE_SIZE as i64, after }
    }
}

/// What to do after a page of a list has come.
#[derive(Debug, Clone, PartialEq, Eq)]
pub enum NextPage {
    /// Ask for the page after this cursor.
    Fetch { after: Option<String> },
    /// The list is complete.
    Done,
}

/// Decides after a page whether to ask for another: the page after this
/// one's end where the service says that one follows, none otherwise.
pub fn next_page(info: PageInfo) -> (next: NextPage)
    ensures
        next == if info.has_next_page {
            NextPage::Fetch { after: info.end_cursor }
        } else {
            NextPage::Done
        },
{
    if info.has_next_page {
        NextPage::Fetch { after: info.end_cursor }
    } else {
        NextPage::Done
    }
}

/// The number of GPUs of a job as the remote service takes it.
pub fn gpu_count(num_gpus: Option<u32>) -> (count: i64)
    ensures
        count == match num_gpus {
            Some(n) => n as int,
            None => 1,
        },
{
    match num_gpus {
        Some(n) => n as i64,
        None => 1,
    }
}

/// Why a GraphQL request gave no data.
#[derive(Debug, Clone, PartialEq, Eq)]
pub enum QueryError {
    /// The service answered with errors; `errors` is their text.
    Graphql { errors: String },
    /// The service answered with neither data nor errors.
    NoData,
}

/// What a GraphQL answer comes to: its data where it has data, whatever
/// else it holds; else its errors; else `NoData`.
pub fn query_outcome<T>(data: Option<T>, errors: Option<String>) -> (r: Result<T, QueryError>)
    ensures
        r == match data {
            Some(value) => Ok::<T, QueryError>(value),
            None => match errors {
                Some(text) => Err::<T, QueryError>(QueryError::Graphql { errors: text }),
                None => Err::<T, QueryError>(QueryError::NoData),
            },
        },
{
    match data {
        Some(value) => Ok(value),
        None => match errors {
            Some(text) => Err(QueryError::Graphql { errors: text }),
            None => Err(QueryError::NoData),
        },
    }
}

/// The query parameters of the request that uploads a part: the session's
/// identifier under `session_id`, and the part's number, in decimal, under
/// `part_number`.
pub fn part_query(session_id: &str, part_number: u64) -> (query: Vec<(String, String)>)
    ensures
        query@.len() == 2,
        query@[0].0@ == "session_id"@,
        query@[0].1@ == session_id@,
        query@[1].0@ == "part_number"@,
        query@[1].1@ == decimal_text(part_number as nat),
{
    let mut query: Vec<(String, String)> = Vec::new();
    query.push((String::from_str("session_id"), String::from_str(session_id)));
    query.push((String::from_str("part_number"), decimal(part_number)));
    query
}

} // verus!
