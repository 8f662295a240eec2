//! Part planning: from a file size to the number and size of upload parts.

use crate::text::{decimal, decimal_text};
use vstd::prelude::*;
use vstd::string::StringExecFns;

verus! {

pub const MEGABYTE: u64 = 1024 * 1024;

/// Smallest part the remote protocol accepts, and the smallest file the
/// chunked engine takes.
pub const MIN_CHUNK_SIZE_BYTES: u64 = 5 * MEGABYTE;

/// Largest part the remote protocol accepts.
pub const MAX_CHUNK_SIZE_BYTES: u64 = 100 * MEGABYTE;

/// Largest number of parts in one upload session.
pub const MAX_PARTS_COUNT: u64 = 10000;

pub const SIZE_500MB: u64 = 500 * MEGABYTE;

pub const SIZE_10GB: u64 = 10 * 1024 * MEGABYTE;

pub const SIZE_50GB: u64 = 50 * 1024 * MEGABYTE;

/// Largest file that fits in one session: every part at its largest.
pub const MAX_UPLOAD_SIZE_BYTES: u64 = MAX_CHUNK_SIZE_BYTES * MAX_PARTS_COUNT;

/// Why a file cannot be uploaded in parts. Raised before any remote call.
#[derive(Clone, Copy, Debug, PartialEq, Eq, Structural)]
pub enum PlanningError {
    /// The file is smaller than one minimum-size part.
    TooSmall { file_size: u64 },
    /// The file does not fit in `MAX_PARTS_COUNT` parts of the largest size.
    TooLarge { file_size: u64 },
}

/// The part size and count chosen for one file.
#[derive(Clone, Copy, Debug, PartialEq, Eq, Structural)]
pub struct UploadPlan {
    pub total_parts: u64,
    pub chunk_size_bytes: u64,
}

/// `n / d` rounded up, for a positive `d`.
pub open spec fn ceil_div(n: int, d: int) -> int {
    if n % d == 0 {
        n / d
    } else {
        n / d + 1
    }
}

/// The part size that a file of `file_size` bytes gets from its size tier.
pub open spec fn tier_chunk_size(file_size: int) -> int {
    if file_size < SIZE_500MB {
        5 * MEGABYTE
    } else if file_size < SIZE_10GB {
        10 * MEGABYTE
    } else if file_size < SIZE_50GB {
        50 * MEGABYTE
    } else {
        100 * MEGABYTE
    }
}

/// What planning yields for every file size: a rejection outside
/// `[MIN_CHUNK_SIZE_BYTES, MAX_UPLOAD_SIZE_BYTES]`, and inside it the tier's
/// part size with as many parts as it takes to cover the file.
pub open spec fn planned(file_size: u64) -> Result<(u64, u64), PlanningError> {
    if file_size < MIN_CHUNK_SIZE_BYTES {
        Err(PlanningError::TooSmall { file_size })
    } else if file_size > MAX_UPLOAD_SIZE_BYTES {
        Err(PlanningError::TooLarge { file_size })
    } else {
        Ok(
            (
                ceil_div(file_size as int, tier_chunk_size(file_size as int)) as u64,
                tier_chunk_size(file_size as int) as u64,
            ),
        )
    }
}

impl UploadPlan {
    /// The plan's invariant with respect to the file it was made for: the
    /// part size is within the protocol's limits, the part count is positive
    /// and within the limit, and the parts cover the file with no part to
    /// spare.
    pub open spec fn fits(&self, file_size: u64) -> bool {
        &&& MIN_CHUNK_SIZE_BYTES <= self.chunk_size_bytes <= MAX_CHUNK_SIZE_BYTES
        &&& 1 <= self.total_parts <= MAX_PARTS_COUNT
        &&& self.total_parts * self.chunk_size_bytes >= file_size
        &&& (self.total_parts - 1) * self.chunk_size_bytes < file_size
    }
}

/// `n / d` rounded up.
pub fn div_ceil(n: u64, d: u64) -> (q: u64)
    requires
        d > 0,
    ensures
        q == ceil_div(n as int, d as int),
        q * d >= n,
        n > 0 ==> (q - 1) * d < n,
        n == 0 ==> q == 0,
{
    let quotient: u64 = n / d;
    let remainder: u64 = n % d;
    proof {
        lemma_ceil_div_bounds(n as int, d as int);
    }
    if remainder > 0 {
        quotient + 1
    } else {
        quotient
    }
}

/// The rounded-up quotient is the least multiple count that covers `n`.
pub proof fn lemma_ceil_div_bounds(n: int, d: int)
    requires
        n >= 0,
        d > 0,
    ensures
        ceil_div(n, d) * d >= n,
        n > 0 ==> (ceil_div(n, d) - 1) * d < n,
        n == 0 ==> ceil_div(n, d) == 0,
        0 <= ceil_div(n, d) <= n,
        n / d <= ceil_div(n, d) <= n / d + 1,
{
    assert(n == d * (n / d) + n % d && 0 <= n % d < d && 0 <= n / d <= n) by (nonlinear_arith)
        requires
            n >= 0,
            d > 0,
    ;
    let q = n / d;
    assert((q + 1) * d == q * d + d && (q - 1) * d == q * d - d && q * d == d * q)
        by (nonlinear_arith);
    if n % d != 0 {
        assert(q + 1 <= n) by (nonlinear_arith)
            requires
                n == d * q + n % d,
                0 < n % d < d,
                q >= 0,
                d > 0,
        ;
    }
}

/// Plans the upload of a file of `file_size` bytes: how many parts, and how
/// large each is (the last may be shorter).
///
/// The result depends on `file_size` alone. A file under
/// `MIN_CHUNK_SIZE_BYTES` is `TooSmall`, one over `MAX_UPLOAD_SIZE_BYTES` is
/// `TooLarge`; every size in between gets the part size of its tier.
pub fn calculate_upload_parts(file_size: u64) -> (r: Result<(u64, u64), PlanningError>)
    ensures
        r == planned(file_size),
        file_size < MIN_CHUNK_SIZE_BYTES <==> r == Err::<(u64, u64), PlanningError>(
            PlanningError::TooSmall { file_size },
        ),
        file_size > MAX_UPLOAD_SIZE_BYTES <==> r == Err::<(u64, u64), PlanningError>(
            PlanningError::TooLarge { file_size },
        ),
        MIN_CHUNK_SIZE_BYTES <= file_size <= MAX_UPLOAD_SIZE_BYTES <==> r is Ok,
        r matches Ok((total_parts, chunk_size)) ==> {
            &&& chunk_size == tier_chunk_size(file_size as int)
            &&& (UploadPlan { total_parts, chunk_size_bytes: chunk_size }).fits(file_size)
        },
{
    if file_size < MIN_CHUNK_SIZE_BYTES {
        return Err(PlanningError::TooSmall { file_size });
    }
    let mut chunk_size: u64 = if file_size < SIZE_500MB {
        5 * MEGABYTE
    } else if file_size < SIZE_10GB {
        10 * MEGABYTE
    } else if file_size < SIZE_50GB {
        50 * MEGABYTE
    } else {
        100 * MEGABYTE
    };
    let mut total_parts: u64 = div_ceil(file_size, chunk_size);
    proof {
        lemma_tier_part_count(file_size);
    }
    if total_parts > MAX_PARTS_COUNT {
        chunk_size = div_ceil(file_size, MAX_PARTS_COUNT);
        if chunk_size > MAX_CHUNK_SIZE_BYTES {
            return Err(PlanningError::TooLarge { file_size });
        }
        total_parts = div_ceil(file_size, chunk_size);
    }
    Ok((total_parts, chunk_size))
}

/// With the tier's part size, a file needs more than `MAX_PARTS_COUNT` parts
/// exactly when it is over `MAX_UPLOAD_SIZE_BYTES`; the part size then
/// recomputed for `MAX_PARTS_COUNT` parts is over the limit too.
pub proof fn lemma_tier_part_count(file_size: u64)
    requires
        file_size >= MIN_CHUNK_SIZE_BYTES,
    ensures
        ceil_div(file_size as int, tier_chunk_size(file_size as int)) > MAX_PARTS_COUNT
            <==> file_size > MAX_UPLOAD_SIZE_BYTES,
        file_size > MAX_UPLOAD_SIZE_BYTES ==> ceil_div(file_size as int, MAX_PARTS_COUNT as int)
            > MAX_CHUNK_SIZE_BYTES,
        ceil_div(file_size as int, tier_chunk_size(file_size as int)) >= 1,
{
    let n = file_size as int;
    lemma_ceil_div_bounds(n, MAX_PARTS_COUNT as int);
    if n < SIZE_500MB {
        lemma_ceil_div_bounds(n, 5 * MEGABYTE);
    } else if n < SIZE_10GB {
        lemma_ceil_div_bounds(n, 10 * MEGABYTE);
    } else if n < SIZE_50GB {
        lemma_ceil_div_bounds(n, 50 * MEGABYTE);
    } else {
        lemma_ceil_div_bounds(n, 100 * MEGABYTE);
    }
}

/// Whatever is planned fits the file it was planned for, with the part size
/// of the file's tier.
pub proof fn lemma_planned_fits(file_size: u64)
    requires
        planned(file_size) is Ok,
    ensures
        MIN_CHUNK_SIZE_BYTES <= file_size <= MAX_UPLOAD_SIZE_BYTES,
        planned(file_size)->Ok_0.1 == tier_chunk_size(file_size as int),
        planned(file_size)->Ok_0.0 == ceil_div(
            file_size as int,
            tier_chunk_size(file_size as int),
        ),
        (UploadPlan {
            total_parts: planned(file_size)->Ok_0.0,
            chunk_size_bytes: planned(file_size)->Ok_0.1,
        }).fits(file_size),
{
    lemma_tier_part_count(file_size);
    lemma_ceil_div_bounds(file_size as int, tier_chunk_size(file_size as int));
}

impl PlanningError {
    /// The message of an error, as it is shown to the user. It names the
    /// size of the file, and for a file that is too large also the largest
    /// size that can be uploaded and how it comes about.
    pub open spec fn spec_message(self) -> Seq<char> {
        match self {
            PlanningError::TooSmall { file_size } => "File size ("@ + decimal_text(
                file_size as nat,
            ) + " bytes) is too small for chunked upload"@,
            PlanningError::TooLarge { file_size } => "File size ("@ + decimal_text(
                file_size as nat,
            ) + " bytes) exceeds maximum uploadable size ("@ + decimal_text(
                MAX_UPLOAD_SIZE_BYTES as nat,
            ) + " bytes = "@ + decimal_text(MAX_PARTS_COUNT as nat) + " parts * "@ + decimal_text(
                MAX_CHUNK_SIZE_BYTES as nat,
            ) + " bytes)"@,
        }
    }

    /// The message of an error, as it is shown to the user.
    pub fn message(&self) -> (message: String)
        ensures
            message@ == self.spec_message(),
    {
        match self {
            PlanningError::TooSmall { file_size } => {
                let mut message: String = String::from_str("File size (");
                let size: String = decimal(*file_size);
                message.append(size.as_str());
                message.append(" bytes) is too small for chunked upload");
                message
            },
            PlanningError::TooLarge { file_size } => {
                let mut message: String = String::from_str("File size (");
                let size: String = decimal(*file_size);
                message.append(size.as_str());
                message.append(" bytes) exceeds maximum uploadable size (");
                let largest: String = decimal(MAX_UPLOAD_SIZE_BYTES);
                message.append(largest.as_str());
                message.append(" bytes = ");
                let parts: String = decimal(MAX_PARTS_COUNT);
                message.append(parts.as_str());
                message.append(" parts * ");
                let chunk: String = decimal(MAX_CHUNK_SIZE_BYTES);
                message.append(chunk.as_str());
                message.append(" bytes)");
                message
            },
        }
    }
}

} // verus!
