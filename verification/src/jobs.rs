//! What a list of jobs and the view of one job show: the order of the rows,
//! and the texts of their cells.

use crate::client::Timestamp;
use crate::text::{signed_decimal, signed_decimal_text};
use fancy_duration::AsFancyDuration;
use std::time::Duration;
use vstd::prelude::*;
use vstd::string::StringExecFns;

verus! {

/// Number of units to which the duration of a job is cut down.
pub const DURATION_UNITS: usize = 2;

/// The text that the `fancy-duration` crate writes for a duration of
/// `millis` milliseconds cut down to its `limit` most significant
/// consecutive units. It is a function of the two numbers alone.
pub uninterp spec fn fancy_duration_text(millis: u64, limit: usize) -> Seq<char>;

/// Calls `fancy_duration::FancyDuration::truncate` on a duration of
/// `millis` milliseconds and writes the outcome with the crate's standard
/// format. The contract names the result [`fancy_duration_text`] of the two
/// arguments.
#[verifier::external_body]
fn fancy_duration(millis: u64, limit: usize) -> (text: String)
    ensures
        text@ == fancy_duration_text(millis, limit),
{
    Duration::from_millis(millis).fancy_duration().truncate(limit).to_string()
}

/// The milliseconds that a job is taken to have run: 0 where the service
/// gives no duration, and a negative duration read as the unsigned number
/// of the same 64 bits.
pub open spec fn duration_millis_of(duration_ms: Option<i64>) -> u64 {
    match duration_ms {
        None => 0,
        Some(ms) => if ms >= 0 {
            ms as u64
        } else {
            (ms + 0x1_0000_0000_0000_0000) as u64
        },
    }
}

/// The milliseconds that a job is taken to have run.
pub fn duration_millis(duration_ms: Option<i64>) -> (millis: u64)
    ensures
        millis == duration_millis_of(duration_ms),
{
    match duration_ms {
        None => 0,
        Some(ms) => {
            if ms >= 0 {
                ms as u64
            } else {
                let below: u64 = (-(ms + 1)) as u64;
                u64::MAX - below
            }
        },
    }
}

/// The duration shown for a job: its milliseconds written by the
/// `fancy-duration` crate, cut down to `DURATION_UNITS` units.
pub fn job_duration(duration_ms: Option<i64>) -> (text: String)
    ensures
        text@ == fancy_duration_text(duration_millis_of(duration_ms), DURATION_UNITS),
{
    fancy_duration(duration_millis(duration_ms), DURATION_UNITS)
}

/// Who started a job, as it is shown: the name and, in angle brackets, the
/// address; `Unknown` where the service names nobody.
pub open spec fn job_owner_text(user: Option<(Seq<char>, Seq<char>)>) -> Seq<char> {
    match user {
        Some((name, email)) => name + seq![' ', '<'] + email + seq!['>'],
        None => "Unknown"@,
    }
}

/// Who started a job, as it is shown.
pub fn job_owner(user: Option<(&str, &str)>) -> (text: String)
    ensures
        text@ == job_owner_text(
            match user {
                Some((name, email)) => Some((name@, email@)),
                None => None,
            },
        ),
{
    match user {
        Some((name, email)) => {
            proof {
                reveal_strlit(" <");
                reveal_strlit(">");
            }
            let mut text: String = String::from_str(name);
            text.append(" <");
            text.append(email);
            text.append(">");
            assert(text@ =~= name@ + seq![' ', '<'] + email@ + seq!['>']);
            text
        },
        None => String::from_str("Unknown"),
    }
}

/// Whether row `row` of a table (0-based) is shaded: every second row is,
/// starting with the second.
pub fn is_shaded_row(row: usize) -> (shaded: bool)
    ensures
        shaded == (row % 2 != 0),
{
    row % 2 != 0
}

/// Whether `order` lists each of the rows `0..count` once.
pub open spec fn is_row_order(order: Seq<usize>, count: int) -> bool {
    &&& order.len() == count
    &&& forall|place: int| 0 <= place < order.len() ==> (#[trigger] order[place]) < count
    &&& forall|first: int, second: int|
        0 <= first < second < order.len() ==> #[trigger] order[first] != #[trigger] order[second]
}

/// Whether `order` shows the jobs created at `created` newest first, and
/// jobs of the same time in the order in which they came.
pub open spec fn is_newest_first(order: Seq<usize>, created: Seq<Timestamp>) -> bool {
    &&& is_row_order(order, created.len() as int)
    &&& forall|first: int, second: int|
        0 <= first < second < order.len() ==> {
            let earlier = created[#[trigger] order[first] as int].0;
            let later = created[#[trigger] order[second] as int].0;
            earlier > later || (earlier == later && order[first] < order[second])
        }
}

/// The order in which jobs are listed: newest first, and jobs of the same
/// time in the order in which they came. Place `i` of the result holds the
/// index of the job shown in row `i`.
pub fn newest_first(created: &Vec<Timestamp>) -> (order: Vec<usize>)
    ensures
        is_newest_first(order@, created@),
{
    let mut order: Vec<usize> = Vec::new();
    let mut next: usize = 0;
    while next < created.len()
        invariant
            next <= created@.len(),
            is_newest_first(order@, created@.take(next as int)),
        decreases created@.len() - next,
    {
        let time: u64 = created[next].0;
        let mut place: usize = 0;
        while place < order.len() && created[order[place]].0 >= time
            invariant
                next < created@.len(),
                time == created@[next as int].0,
                place <= order@.len(),
                is_newest_first(order@, created@.take(next as int)),
                forall|before: int|
                    0 <= before < place ==> created@[(#[trigger] order@[before]) as int].0 >= time,
            decreases order@.len() - place,
        {
            place += 1;
        }
        let ghost old_order = order@;
        order.insert(place, next);
        proof {
            let new_order = order@;
            let shown = created@.take(next as int + 1);
            assert(new_order == old_order.insert(place as int, next));
            assert forall|at: int| 0 <= at < new_order.len() implies (#[trigger] new_order[at])
                <= next && (at != place ==> new_order[at] < next) && (at < place ==> new_order[at]
                == old_order[at]) && (at > place ==> new_order[at] == old_order[at - 1]) by {}
            assert forall|after: int| place <= after < old_order.len() implies created@[(
            #[trigger] old_order[after]) as int].0 < time by {
                if after > place {
                    assert(created@.take(next as int)[old_order[place as int] as int]
                        == created@[old_order[place as int] as int]);
                    assert(created@.take(next as int)[old_order[after] as int]
                        == created@[old_order[after] as int]);
                }
            }
            assert forall|first: int, second: int|
                0 <= first < second < new_order.len() implies {
                let earlier = shown[#[trigger] new_order[first] as int].0;
                let later = shown[#[trigger] new_order[second] as int].0;
                earlier > later || (earlier == later && new_order[first] < new_order[second])
            } by {
                let a = if first < place {
                    first
                } else {
                    first - 1
                };
                let b = if second < place {
                    second
                } else {
                    second - 1
                };
                if first != place && second != place {
                    assert(new_order[first] == old_order[a]);
                    assert(new_order[second] == old_order[b]);
                    assert(created@.take(next as int)[old_order[a] as int]
                        == shown[old_order[a] as int]);
                    assert(created@.take(next as int)[old_order[b] as int]
                        == shown[old_order[b] as int]);
                } else if first == place {
                    assert(new_order[second] == old_order[b]);
                } else {
                    assert(new_order[first] == old_order[a]);
                }
            }
            assert forall|first: int, second: int|
                0 <= first < second < new_order.len() implies #[trigger] new_order[first]
                != #[trigger] new_order[second] by {
                let a = if first < place {
                    first
                } else {
                    first - 1
                };
                let b = if second < place {
                    second
                } else {
                    second - 1
                };
                if first != place && second != place {
                    assert(new_order[first] == old_order[a]);
                    assert(new_order[second] == old_order[b]);
                }
            }
        }
        next += 1;
    }
    assert(created@.take(created@.len() as int) =~= created@);
    order
}

/// What a stage of a job says of its samples, whatever kind of stage it is.
#[derive(Clone, Copy, Debug, PartialEq, Eq, Structural)]
pub struct CommonJobFields {
    pub processed_num_samples: Option<i64>,
    pub total_num_samples: Option<i64>,
}

/// What a stage of a job reports, by the kind of the stage.
#[derive(Clone, Copy, Debug, PartialEq, Eq, Structural)]
pub enum StageInfo {
    Training { processed_num_samples: Option<i64>, total_num_samples: Option<i64> },
    Eval { processed_num_samples: Option<i64>, total_num_samples: Option<i64> },
    BatchInference { processed_num_samples: Option<i64>, total_num_samples: Option<i64> },
}

/// The sample counts of a stage, whatever its kind.
pub fn get_common_stage_info(stage: &StageInfo) -> (fields: CommonJobFields)
    ensures
        fields == match *stage {
            StageInfo::Training { processed_num_samples, total_num_samples } => CommonJobFields {
                processed_num_samples,
                total_num_samples,
            },
            StageInfo::Eval { processed_num_samples, total_num_samples } => CommonJobFields {
                processed_num_samples,
                total_num_samples,
            },
            StageInfo::BatchInference {
                processed_num_samples,
                total_num_samples,
            } => CommonJobFields { processed_num_samples, total_num_samples },
        },
{
    match stage {
        StageInfo::Training { processed_num_samples, total_num_samples } => CommonJobFields {
            processed_num_samples: *processed_num_samples,
            total_num_samples: *total_num_samples,
        },
        StageInfo::Eval { processed_num_samples, total_num_samples } => CommonJobFields {
            processed_num_samples: *processed_num_samples,
            total_num_samples: *total_num_samples,
        },
        StageInfo::BatchInference { processed_num_samples, total_num_samples } => CommonJobFields {
            processed_num_samples: *processed_num_samples,
            total_num_samples: *total_num_samples,
        },
    }
}

/// How far a stage has come, as it is shown: the processed and the total
/// number of samples with a slash between them, or `Unknown` where either
/// is missing.
pub open spec fn stage_progress_text(fields: CommonJobFields) -> Seq<char> {
    match (fields.processed_num_samples, fields.total_num_samples) {
        (Some(processed), Some(total)) => signed_decimal_text(processed as int) + seq!['/']
            + signed_decimal_text(total as int),
        _ => "Unknown"@,
    }
}

/// How far a stage has come, as it is shown.
pub fn stage_progress(fields: CommonJobFields) -> (text: String)
    ensures
        text@ == stage_progress_text(fields),
{
    match (fields.processed_num_samples, fields.total_num_samples) {
        (Some(processed), Some(total)) => {
            proof {
                reveal_strlit("/");
            }
            let mut text: String = signed_decimal(processed);
            text.append("/");
            let total_text: String = signed_decimal(total);
            text.append(total_text.as_str());
            assert(text@ =~= stage_progress_text(fields));
            text
        },
        _ => String::from_str("Unknown"),
    }
}

} // verus!
