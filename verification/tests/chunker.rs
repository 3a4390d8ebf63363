use hdfs_cli::chunker::{
    block_range, chunk_ranges, nth_range, num_blocks, ByteRange, BLOCK_SIZE,
};

const MIB: u64 = 1024 * 1024;

fn assert_exact(file_size: u64, block_size: u64) {
    let ranges = chunk_ranges(file_size, block_size);
    assert_eq!(ranges.len() as u64, num_blocks(file_size, block_size));
    let mut expected_offset = 0u64;
    for (i, range) in ranges.iter().enumerate() {
        assert_eq!(range.offset, expected_offset);
        assert!(range.length > 0);
        assert!(range.length <= block_size);
        if i + 1 < ranges.len() {
            assert_eq!(range.length, block_size);
        }
        assert_eq!(nth_range(file_size, block_size, i as u64), Some(*range));
        assert_eq!(block_range(file_size, block_size, i as u64), *range);
        expected_offset += range.length;
    }
    assert_eq!(expected_offset, file_size);
    assert_eq!(nth_range(file_size, block_size, ranges.len() as u64), None);
}

#[test]
fn block_size_is_64_mib() {
    assert_eq!(BLOCK_SIZE, 64 * MIB);
}

#[test]
fn file_of_150_mib_has_three_blocks() {
    let ranges = chunk_ranges(150 * MIB, BLOCK_SIZE);
    assert_eq!(
        ranges,
        vec![
            ByteRange { offset: 0, length: 64 * MIB },
            ByteRange { offset: 64 * MIB, length: 64 * MIB },
            ByteRange { offset: 128 * MIB, length: 22 * MIB },
        ]
    );
    assert_eq!(num_blocks(150 * MIB, BLOCK_SIZE), 3);
}

#[test]
fn empty_file_has_no_blocks() {
    assert_eq!(num_blocks(0, BLOCK_SIZE), 0);
    assert_eq!(chunk_ranges(0, BLOCK_SIZE), Vec::<ByteRange>::new());
    assert_eq!(nth_range(0, BLOCK_SIZE, 0), None);
}

#[test]
fn file_smaller_than_a_block_is_one_short_block() {
    assert_eq!(chunk_ranges(5, 8), vec![ByteRange { offset: 0, length: 5 }]);
    assert_eq!(chunk_ranges(1, BLOCK_SIZE), vec![ByteRange { offset: 0, length: 1 }]);
}

#[test]
fn file_of_whole_blocks_has_no_short_block() {
    assert_eq!(
        chunk_ranges(12, 4),
        vec![
            ByteRange { offset: 0, length: 4 },
            ByteRange { offset: 4, length: 4 },
            ByteRange { offset: 8, length: 4 },
        ]
    );
    assert_eq!(num_blocks(128 * MIB, BLOCK_SIZE), 2);
    assert_eq!(
        nth_range(128 * MIB, BLOCK_SIZE, 1),
        Some(ByteRange { offset: 64 * MIB, length: 64 * MIB })
    );
}

#[test]
fn block_count_rounds_up() {
    assert_eq!(num_blocks(1, 1), 1);
    assert_eq!(num_blocks(9, 4), 3);
    assert_eq!(num_blocks(8, 4), 2);
    assert_eq!(num_blocks(7, 4), 2);
    assert_eq!(num_blocks(64 * MIB + 1, BLOCK_SIZE), 2);
}

#[test]
fn largest_file_does_not_overflow() {
    assert_eq!(num_blocks(u64::MAX, 1), u64::MAX);
    assert_eq!(num_blocks(u64::MAX, u64::MAX), 1);
    assert_eq!(num_blocks(u64::MAX, BLOCK_SIZE), (1u64 << 38));
    assert_eq!(
        nth_range(u64::MAX, BLOCK_SIZE, (1u64 << 38) - 1),
        Some(ByteRange { offset: u64::MAX - (BLOCK_SIZE - 1), length: BLOCK_SIZE - 1 })
    );
    assert_eq!(nth_range(u64::MAX, BLOCK_SIZE, 1u64 << 38), None);
    assert_eq!(
        nth_range(u64::MAX, u64::MAX, 0),
        Some(ByteRange { offset: 0, length: u64::MAX })
    );
}

#[test]
fn nth_range_past_the_end_is_none() {
    assert_eq!(nth_range(10, 4, 2), Some(ByteRange { offset: 8, length: 2 }));
    assert_eq!(nth_range(10, 4, 3), None);
    assert_eq!(nth_range(10, 4, u64::MAX), None);
}

#[test]
fn chunking_is_exact_for_many_sizes() {
    for block_size in [1u64, 2, 3, 7, 64] {
        for file_size in 0u64..200 {
            assert_exact(file_size, block_size);
        }
    }
    assert_exact(150 * MIB, BLOCK_SIZE);
    assert_exact(64 * MIB, BLOCK_SIZE);
    assert_exact(64 * MIB - 1, BLOCK_SIZE);
}

#[test]
fn block_range_of_the_last_block_is_what_is_left() {
    assert_eq!(block_range(150 * MIB, BLOCK_SIZE, 2), ByteRange { offset: 128 * MIB, length: 22 * MIB });
    assert_eq!(block_range(150 * MIB, BLOCK_SIZE, 0), ByteRange { offset: 0, length: 64 * MIB });
    assert_eq!(block_range(1, 1, 0), ByteRange { offset: 0, length: 1 });
}
