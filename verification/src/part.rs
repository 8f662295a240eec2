//! Parts and sub-chunks: which bytes of the file a part holds, and how one
//! part's buffer is cut up for transfer.

use crate::plan::{ceil_div, lemma_ceil_div_bounds, UploadPlan};
use vstd::prelude::*;
use vstd::slice::{slice_subrange, slice_to_vec};

verus! {

/// Size of the slices in which a part's bytes are handed to the transport.
/// One progress notification is attempted per slice.
pub const SUB_CHUNK_SIZE: usize = 64 * 1024;

/// The smaller of two integers.
pub open spec fn min_int(a: int, b: int) -> int {
    if a <= b {
        a
    } else {
        b
    }
}

/// Offset in the file at which part `part_number` (1-based) starts.
pub open spec fn part_start(plan: UploadPlan, part_number: int) -> int {
    (part_number - 1) * plan.chunk_size_bytes
}

/// Offset in the file just past part `part_number` (1-based): parts are
/// `chunk_size_bytes` long, and the file's end cuts the last one short.
pub open spec fn part_end(plan: UploadPlan, file_size: u64, part_number: int) -> int {
    min_int(part_number * plan.chunk_size_bytes, file_size as int)
}

/// Where a part lies in the file and how long it is.
#[derive(Clone, Copy, Debug, PartialEq, Eq, Structural)]
pub struct PartRange {
    pub offset: u64,
    pub length: u64,
}

/// The parts of a fitting plan tile the file: each is non-empty and at most
/// one chunk long, each starts where the one before ended, the first starts
/// at 0 and the last ends at the end of the file.
pub proof fn lemma_parts_tile_file(plan: UploadPlan, file_size: u64, part_number: int)
    requires
        plan.fits(file_size),
        1 <= part_number <= plan.total_parts,
    ensures
        0 <= part_start(plan, part_number) < part_end(plan, file_size, part_number) <= file_size,
        part_end(plan, file_size, part_number) - part_start(plan, part_number)
            <= plan.chunk_size_bytes,
        part_number < plan.total_parts ==> part_end(plan, file_size, part_number) - part_start(
            plan,
            part_number,
        ) == plan.chunk_size_bytes,
        part_start(plan, 1) == 0,
        part_number > 1 ==> part_start(plan, part_number) == part_end(
            plan,
            file_size,
            part_number - 1,
        ),
        part_end(plan, file_size, plan.total_parts as int) == file_size,
{
    let c = plan.chunk_size_bytes as int;
    let n = plan.total_parts as int;
    let k = part_number;
    assert((k - 1) * c <= (n - 1) * c && (k - 1) * c >= 0 && k * c == (k - 1) * c + c && (k
        < n ==> k * c <= (n - 1) * c)) by (nonlinear_arith)
        requires
            1 <= k <= n,
            c > 0,
    ;
}

impl UploadPlan {
    /// The byte range of part `part_number` (1-based) in a file of
    /// `file_size` bytes.
    pub fn part_range(&self, file_size: u64, part_number: u64) -> (r: PartRange)
        requires
            self.fits(file_size),
            1 <= part_number <= self.total_parts,
        ensures
            r.offset == part_start(*self, part_number as int),
            r.offset + r.length == part_end(*self, file_size, part_number as int),
            1 <= r.length <= self.chunk_size_bytes,
    {
        proof {
            lemma_parts_tile_file(*self, file_size, part_number as int);
        }
        let offset: u64 = (part_number - 1) * self.chunk_size_bytes;
        let rest: u64 = file_size - offset;
        let length: u64 = if rest < self.chunk_size_bytes {
            rest
        } else {
            self.chunk_size_bytes
        };
        PartRange { offset, length }
    }
}

/// Number of sub-chunks that a part of `len` bytes is cut into.
pub open spec fn sub_chunk_count(len: int) -> int {
    ceil_div(len, SUB_CHUNK_SIZE as int)
}

/// The `index`-th sub-chunk (0-based) of a part's bytes.
pub open spec fn sub_chunk(data: Seq<u8>, index: int) -> Seq<u8> {
    data.subrange(
        index * SUB_CHUNK_SIZE,
        min_int((index + 1) * SUB_CHUNK_SIZE, data.len() as int),
    )
}

/// The sub-chunks of a part's bytes, in order: consecutive slices of
/// `SUB_CHUNK_SIZE` bytes, the last one shorter when the length is no
/// multiple of it, none at all for an empty part.
pub open spec fn sub_chunks(data: Seq<u8>) -> Seq<Seq<u8>> {
    Seq::new(sub_chunk_count(data.len() as int) as nat, |index: int| sub_chunk(data, index))
}

/// The sizes of the sub-chunks of a part, which are the progress
/// notifications that its transfer attempts.
pub open spec fn sub_chunk_sizes(data: Seq<u8>) -> Seq<u64> {
    Seq::new(
        sub_chunk_count(data.len() as int) as nat,
        |index: int| sub_chunk(data, index).len() as u64,
    )
}

/// Sum of a sequence of byte counts.
pub open spec fn total_bytes(sizes: Seq<u64>) -> int
    decreases sizes.len(),
{
    if sizes.len() == 0 {
        0
    } else {
        total_bytes(sizes.drop_last()) + sizes.last()
    }
}

/// Concatenation of a sequence of byte slices.
pub open spec fn concat_all(chunks: Seq<Seq<u8>>) -> Seq<u8>
    decreases chunks.len(),
{
    if chunks.len() == 0 {
        Seq::empty()
    } else {
        concat_all(chunks.drop_last()) + chunks.last()
    }
}

/// Every sub-chunk is non-empty and at most `SUB_CHUNK_SIZE` long, and all
/// but the last are exactly that long.
pub proof fn lemma_sub_chunk_len(data: Seq<u8>, index: int)
    requires
        0 <= index < sub_chunk_count(data.len() as int),
    ensures
        1 <= sub_chunk(data, index).len() <= SUB_CHUNK_SIZE,
        index + 1 < sub_chunk_count(data.len() as int) ==> sub_chunk(data, index).len()
            == SUB_CHUNK_SIZE,
        index * SUB_CHUNK_SIZE < data.len(),
{
    lemma_ceil_div_bounds(data.len() as int, SUB_CHUNK_SIZE as int);
}

/// Cuts a part's bytes into the sub-chunks in which they are transferred.
pub fn split_sub_chunks(data: &Vec<u8>) -> (chunks: Vec<Vec<u8>>)
    ensures
        chunks@.len() == sub_chunks(data@).len(),
        forall|index: int|
            0 <= index < chunks@.len() ==> (#[trigger] chunks@[index])@ == sub_chunks(
                data@,
            )[index],
{
    let bytes = data.as_slice();
    let len: usize = bytes.len();
    let mut chunks: Vec<Vec<u8>> = Vec::new();
    let mut start: usize = 0;
    proof {
        lemma_ceil_div_bounds(len as int, SUB_CHUNK_SIZE as int);
    }
    while start < len
        invariant
            bytes@ == data@,
            len == data@.len(),
            start <= len,
            start < len ==> start % SUB_CHUNK_SIZE == 0,
            chunks@.len() == ceil_div(start as int, SUB_CHUNK_SIZE as int),
            forall|index: int|
                0 <= index < chunks@.len() ==> (#[trigger] chunks@[index])@ == sub_chunk(
                    data@,
                    index,
                ),
        decreases len - start,
    {
        let end: usize = if len - start > SUB_CHUNK_SIZE {
            start + SUB_CHUNK_SIZE
        } else {
            len
        };
        let chunk: Vec<u8> = slice_to_vec(slice_subrange(bytes, start, end));
        proof {
            let index = chunks@.len() as int;
            assert(start == index * SUB_CHUNK_SIZE);
            assert(end == min_int((index + 1) * SUB_CHUNK_SIZE, len as int));
            assert(chunk@ == sub_chunk(data@, index));
        }
        chunks.push(chunk);
        start = end;
    }
    chunks
}

/// The first `count` sub-chunks of a part, put together, are the part's
/// first bytes, and their sizes add up to as many.
proof fn lemma_sub_chunks_prefix(data: Seq<u8>, count: int)
    requires
        0 <= count <= sub_chunk_count(data.len() as int),
    ensures
        concat_all(sub_chunks(data).take(count)) == data.subrange(
            0,
            min_int(count * SUB_CHUNK_SIZE, data.len() as int),
        ),
        total_bytes(sub_chunk_sizes(data).take(count)) == min_int(
            count * SUB_CHUNK_SIZE,
            data.len() as int,
        ),
    decreases count,
{
    lemma_ceil_div_bounds(data.len() as int, SUB_CHUNK_SIZE as int);
    let chunks = sub_chunks(data).take(count);
    let sizes = sub_chunk_sizes(data).take(count);
    if count == 0 {
        assert(concat_all(chunks) =~= data.subrange(0, 0));
    } else {
        lemma_sub_chunks_prefix(data, count - 1);
        lemma_sub_chunk_len(data, count - 1);
        assert(chunks.drop_last() =~= sub_chunks(data).take(count - 1));
        assert(sizes.drop_last() =~= sub_chunk_sizes(data).take(count - 1));
        assert(chunks.last() == sub_chunk(data, count - 1));
        assert(sizes.last() == sub_chunk(data, count - 1).len());
        let cut = (count - 1) * SUB_CHUNK_SIZE;
        let end = min_int(count * SUB_CHUNK_SIZE, data.len() as int);
        assert(data.subrange(0, cut) + data.subrange(cut, end) =~= data.subrange(0, end));
    }
}

/// Nothing is lost and nothing is added in the cutting: the sub-chunks of a
/// part, put together in order, are the part.
pub proof fn lemma_sub_chunks_rebuild_part(data: Seq<u8>)
    ensures
        concat_all(sub_chunks(data)) == data,
{
    let count = sub_chunk_count(data.len() as int);
    lemma_ceil_div_bounds(data.len() as int, SUB_CHUNK_SIZE as int);
    lemma_sub_chunks_prefix(data, count);
    assert(sub_chunks(data).take(count) =~= sub_chunks(data));
    assert(data.subrange(0, data.len() as int) =~= data);
}

/// The notifications of a part add up to the part's length: a consumer that
/// receives all of them counts the part exactly, and one that misses some
/// counts less, never more.
pub proof fn lemma_sub_chunk_sizes_total(data: Seq<u8>)
    ensures
        total_bytes(sub_chunk_sizes(data)) == data.len(),
{
    let count = sub_chunk_count(data.len() as int);
    lemma_ceil_div_bounds(data.len() as int, SUB_CHUNK_SIZE as int);
    lemma_sub_chunks_prefix(data, count);
    assert(sub_chunk_sizes(data).take(count) =~= sub_chunk_sizes(data));
}

} // verus!
