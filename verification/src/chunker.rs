//! Cutting a file of known size into consecutive byte ranges.

use vstd::prelude::*;

verus! {

/// The block size used for every transfer: 64 MiB.
pub const BLOCK_SIZE: u64 = 0x400_0000;

/// A contiguous slice of a file: `length` bytes starting at `offset`.
#[derive(Clone, Copy, Debug, PartialEq, Eq, Structural)]
pub struct ByteRange {
    pub offset: u64,
    pub length: u64,
}

impl ByteRange {
    /// The position just past the last byte of the range.
    pub open spec fn end(self) -> int {
        self.offset + self.length
    }
}

/// Number of blocks of a file: `file_size / block_size`, rounded up.
pub open spec fn block_count(file_size: int, block_size: int) -> int {
    if file_size <= 0 {
        0
    } else {
        (file_size - 1) / block_size + 1
    }
}

/// Offset of block `index` within the file.
pub open spec fn block_offset(block_size: int, index: int) -> int {
    index * block_size
}

/// Length of block `index`: a whole block, or what is left of the file.
pub open spec fn block_length(file_size: int, block_size: int, index: int) -> int {
    let rest = file_size - index * block_size;
    if rest < block_size {
        rest
    } else {
        block_size
    }
}

/// The range of block `index` of a file.
pub open spec fn range_of_block(file_size: u64, block_size: u64, index: int) -> ByteRange {
    ByteRange {
        offset: block_offset(block_size as int, index) as u64,
        length: block_length(file_size as int, block_size as int, index) as u64,
    }
}

/// All ranges of a file, in order.
pub open spec fn file_ranges(file_size: u64, block_size: u64) -> Seq<ByteRange> {
    Seq::new(
        block_count(file_size as int, block_size as int) as nat,
        |index: int| range_of_block(file_size, block_size, index),
    )
}

/// Sum of the lengths of a sequence of ranges.
pub open spec fn total_length(ranges: Seq<ByteRange>) -> int
    decreases ranges.len(),
{
    if ranges.len() == 0 {
        0
    } else {
        total_length(ranges.drop_last()) + ranges.last().length
    }
}

/// Every block of a file lies inside the file, is not empty and is no longer
/// than the block size; the blocks before the last one are full.
pub proof fn lemma_block_bounds(file_size: int, block_size: int, index: int)
    requires
        0 < block_size,
        0 <= index < block_count(file_size, block_size),
    ensures
        0 <= block_offset(block_size, index) < file_size,
        0 < block_length(file_size, block_size, index) <= block_size,
        block_offset(block_size, index) + block_length(file_size, block_size, index) <= file_size,
        index + 1 < block_count(file_size, block_size) ==> block_length(
            file_size,
            block_size,
            index,
        ) == block_size,
        index + 1 == block_count(file_size, block_size) ==> block_offset(block_size, index)
            + block_length(file_size, block_size, index) == file_size,
        block_offset(block_size, index + 1) == block_offset(block_size, index) + block_size,
{
    let last = (file_size - 1) / block_size;
    assert(file_size - 1 == block_size * last + (file_size - 1) % block_size) by {
        vstd::arithmetic::div_mod::lemma_fundamental_div_mod(file_size - 1, block_size);
    }
    assert(0 <= (file_size - 1) % block_size < block_size) by {
        vstd::arithmetic::div_mod::lemma_mod_bound(file_size - 1, block_size);
    }
    assert(index * block_size <= last * block_size) by {
        vstd::arithmetic::mul::lemma_mul_inequality(index, last, block_size);
    }
    assert(block_size * last == last * block_size) by {
        vstd::arithmetic::mul::lemma_mul_is_commutative(block_size, last);
    }
    assert(0 <= index * block_size) by {
        vstd::arithmetic::mul::lemma_mul_nonnegative(index, block_size);
    }
    assert((index + 1) * block_size == index * block_size + block_size) by {
        vstd::arithmetic::mul::lemma_mul_is_distributive_add_other_way(block_size, index, 1);
    }
    if index + 1 <= last {
        assert((index + 1) * block_size <= last * block_size) by {
            vstd::arithmetic::mul::lemma_mul_inequality(index + 1, last, block_size);
        }
    }
}

/// The number of blocks is the only count whose full blocks fall short of the
/// file and whose last block reaches its end.
pub proof fn lemma_block_count_bounds(file_size: int, block_size: int)
    requires
        0 <= file_size,
        0 < block_size,
    ensures
        0 <= block_count(file_size, block_size) <= file_size,
        file_size <= block_count(file_size, block_size) * block_size < file_size + block_size,
{
    if file_size > 0 {
        let last = (file_size - 1) / block_size;
        vstd::arithmetic::div_mod::lemma_fundamental_div_mod(file_size - 1, block_size);
        vstd::arithmetic::div_mod::lemma_mod_bound(file_size - 1, block_size);
        vstd::arithmetic::mul::lemma_mul_is_commutative(block_size, last);
        vstd::arithmetic::mul::lemma_mul_is_distributive_add_other_way(block_size, last, 1);
        assert(0 <= last) by {
            vstd::arithmetic::div_mod::lemma_div_pos_is_pos(file_size - 1, block_size);
        }
        assert(last <= file_size - 1) by {
            vstd::arithmetic::div_mod::lemma_div_is_ordered_by_denominator(
                file_size - 1,
                1,
                block_size,
            );
        }
    } else {
        assert(0 * block_size == 0);
    }
}

/// Number of blocks of a file of `file_size` bytes.
pub fn num_blocks(file_size: u64, block_size: u64) -> (count: u64)
    requires
        block_size > 0,
    ensures
        count == block_count(file_size as int, block_size as int),
{
    if file_size == 0 {
        0
    } else {
        proof {
            lemma_block_count_bounds(file_size as int, block_size as int);
        }
        (file_size - 1) / block_size + 1
    }
}

/// The range of block `index` of a file that has such a block.
pub fn block_range(file_size: u64, block_size: u64, index: u64) -> (range: ByteRange)
    requires
        block_size > 0,
        index < block_count(file_size as int, block_size as int),
    ensures
        range == range_of_block(file_size, block_size, index as int),
        range.offset == block_offset(block_size as int, index as int),
        range.length == block_length(file_size as int, block_size as int, index as int),
{
    proof {
        lemma_block_bounds(file_size as int, block_size as int, index as int);
    }
    let offset = index * block_size;
    let rest = file_size - offset;
    let length = if rest < block_size {
        rest
    } else {
        block_size
    };
    ByteRange { offset, length }
}

/// The range of block `index`, or `None` when the file has no such block.
pub fn nth_range(file_size: u64, block_size: u64, index: u64) -> (range: Option<ByteRange>)
    requires
        block_size > 0,
    ensures
        range == if index < block_count(file_size as int, block_size as int) {
            Some(range_of_block(file_size, block_size, index as int))
        } else {
            None
        },
        range matches Some(r) ==> {
            &&& r.offset == block_offset(block_size as int, index as int)
            &&& r.length == block_length(file_size as int, block_size as int, index as int)
        },
{
    if index < num_blocks(file_size, block_size) {
        Some(block_range(file_size, block_size, index))
    } else {
        None
    }
}

/// Cuts a file of `file_size` bytes into its ranges, in order.
///
/// An empty file has no ranges. The count has to fit in `usize`, as the
/// ranges are handed back in a vector.
pub fn chunk_ranges(file_size: u64, block_size: u64) -> (ranges: Vec<ByteRange>)
    requires
        block_size > 0,
        block_count(file_size as int, block_size as int) <= usize::MAX,
    ensures
        ranges@ == file_ranges(file_size, block_size),
        ranges@.len() == block_count(file_size as int, block_size as int),
        total_length(ranges@) == file_size,
        forall|i: int|
            0 <= i < ranges@.len() ==> {
                &&& (#[trigger] ranges@[i]).offset == block_offset(block_size as int, i)
                &&& ranges@[i].length == block_length(file_size as int, block_size as int, i)
                &&& 0 < ranges@[i].length <= block_size
            },
        forall|i: int|
            0 <= i < ranges@.len() - 1 ==> (#[trigger] ranges@[i]).end() == ranges@[i + 1].offset,
{
    let count = num_blocks(file_size, block_size);
    let mut ranges: Vec<ByteRange> = Vec::new();
    let mut index: u64 = 0;
    while index < count
        invariant
            block_size > 0,
            count == block_count(file_size as int, block_size as int),
            count <= usize::MAX,
            index <= count,
            ranges@.len() == index,
            forall|i: int|
                0 <= i < index ==> #[trigger] ranges@[i] == range_of_block(
                    file_size,
                    block_size,
                    i,
                ),
        decreases count - index,
    {
        ranges.push(block_range(file_size, block_size, index));
        index = index + 1;
    }
    proof {
        assert(ranges@ =~= file_ranges(file_size, block_size));
        lemma_chunking_exact(file_size, block_size);
    }
    ranges
}

/// Chunking is exact: the ranges of a file start at offset zero, each begins
/// where the one before it ends, none is empty or longer than a block, and
/// their lengths add up to the size of the file.
pub proof fn lemma_chunking_exact(file_size: u64, block_size: u64)
    requires
        block_size > 0,
    ensures
        file_ranges(file_size, block_size).len() == block_count(
            file_size as int,
            block_size as int,
        ),
        total_length(file_ranges(file_size, block_size)) == file_size,
        file_size > 0 ==> file_ranges(file_size, block_size)[0].offset == 0,
        forall|i: int|
            #![trigger file_ranges(file_size, block_size)[i]]
            0 <= i < file_ranges(file_size, block_size).len() ==> {
                let range = file_ranges(file_size, block_size)[i];
                &&& range.offset == block_offset(block_size as int, i)
                &&& range.length == block_length(file_size as int, block_size as int, i)
                &&& 0 < range.length <= block_size
                &&& range.end() <= file_size
            },
        forall|i: int|
            #![trigger file_ranges(file_size, block_size)[i]]
            0 <= i < file_ranges(file_size, block_size).len() - 1 ==> {
                &&& file_ranges(file_size, block_size)[i].length == block_size
                &&& file_ranges(file_size, block_size)[i].end() == file_ranges(
                    file_size,
                    block_size,
                )[i + 1].offset
            },
{
    let ranges = file_ranges(file_size, block_size);
    let count = block_count(file_size as int, block_size as int);
    lemma_block_count_bounds(file_size as int, block_size as int);
    assert forall|i: int| 0 <= i < ranges.len() implies {
        let range = #[trigger] ranges[i];
        &&& range.offset == block_offset(block_size as int, i)
        &&& range.length == block_length(file_size as int, block_size as int, i)
        &&& 0 < range.length <= block_size
        &&& range.end() <= file_size
    } by {
        lemma_block_bounds(file_size as int, block_size as int, i);
    }
    assert forall|i: int| 0 <= i < ranges.len() - 1 implies {
        &&& (#[trigger] ranges[i]).length == block_size
        &&& ranges[i].end() == ranges[i + 1].offset
    } by {
        lemma_block_bounds(file_size as int, block_size as int, i);
        lemma_block_bounds(file_size as int, block_size as int, i + 1);
    }
    if file_size > 0 {
        lemma_block_bounds(file_size as int, block_size as int, 0);
    }
    lemma_prefix_length(file_size, block_size, count);
    assert(ranges.take(count) =~= ranges);
}

/// The first `upto` ranges of a file cover it from its start to where block
/// `upto` begins, or to its end when `upto` is the number of blocks.
pub proof fn lemma_prefix_length(file_size: u64, block_size: u64, upto: int)
    requires
        block_size > 0,
        0 <= upto <= block_count(file_size as int, block_size as int),
    ensures
        total_length(file_ranges(file_size, block_size).take(upto)) == if upto == block_count(
            file_size as int,
            block_size as int,
        ) {
            file_size as int
        } else {
            block_offset(block_size as int, upto)
        },
    decreases upto,
{
    let ranges = file_ranges(file_size, block_size);
    if upto == 0 {
        assert(ranges.take(0).len() == 0);
        assert(0 * (block_size as int) == 0);
    } else {
        lemma_prefix_length(file_size, block_size, upto - 1);
        lemma_block_bounds(file_size as int, block_size as int, upto - 1);
        assert(ranges.take(upto).drop_last() =~= ranges.take(upto - 1));
        assert(ranges.take(upto).last() == ranges[upto - 1]);
    }
}

} // verus!
