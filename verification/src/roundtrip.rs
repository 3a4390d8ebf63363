//! What upload and download guarantee together.
//!
//! The laws here follow a file through both flows: it is cut into blocks,
//! every block is stored under its identifier, and a later read fetches the
//! blocks and joins them. Storage nodes are taken to be stores from block
//! identifier to bytes that give back what was put in.

use vstd::prelude::*;
use crate::chunker::{block_count, block_length, block_offset, lemma_block_bounds};
use crate::datanode::{base64_len, reply_outcome, NodeReply};
use crate::download::{
    block_replies,
    download_start,
    failures_from,
    joined_from,
    lemma_download_outcome,
    planned_action,
    DownloadEvent,
};
use crate::errors::{BlockFailureModel, TransferError};
use crate::models::{
    all_blocks_placed,
    unique_block_ids,
    well_formed_plan,
    AllocationResponse,
    BlockDescriptor,
};
use crate::upload::{
    lemma_upload_completes,
    planned_upload_action,
    upload_reports,
    upload_start,
};

verus! {

/// The bytes of block `index` of `file`.
pub open spec fn chunk(file: Seq<u8>, block_size: u64, index: int) -> Seq<u8> {
    let offset = block_offset(block_size as int, index);
    file.subrange(offset, offset + block_length(file.len() as int, block_size as int, index))
}

/// What the storage nodes hold once the first `upto` blocks of `file` are
/// stored, each under the identifier that the plan gives it.
pub open spec fn stored_blocks(
    plan: Seq<BlockDescriptor>,
    file: Seq<u8>,
    block_size: u64,
    upto: int,
) -> Map<Seq<char>, Seq<u8>>
    decreases upto,
{
    if upto <= 0 {
        Map::empty()
    } else {
        stored_blocks(plan, file, block_size, upto - 1).insert(
            plan[upto - 1].block_id,
            chunk(file, block_size, upto - 1),
        )
    }
}

/// Under identifiers that are all different, every block that was stored is
/// still held as it was stored: no later block took its place.
pub proof fn lemma_stored_blocks(
    plan: Seq<BlockDescriptor>,
    file: Seq<u8>,
    block_size: u64,
    upto: int,
    index: int,
)
    requires
        unique_block_ids(plan),
        0 <= index < upto <= plan.len(),
    ensures
        stored_blocks(plan, file, block_size, upto).contains_key(plan[index].block_id),
        stored_blocks(plan, file, block_size, upto)[plan[index].block_id] == chunk(
            file,
            block_size,
            index,
        ),
    decreases upto,
{
    if index < upto - 1 {
        lemma_stored_blocks(plan, file, block_size, upto - 1, index);
        assert(plan[index].block_id != plan[upto - 1].block_id);
    }
}

/// Blocks that arrive whole join up to the file. When every reply from
/// block `from` on carries the bytes of its block, what is joined from
/// there on is the rest of the file, and no failure is recorded.
pub proof fn lemma_joined_rest(
    file: Seq<u8>,
    block_size: u64,
    plan: Seq<BlockDescriptor>,
    replies: Seq<NodeReply>,
    from: int,
)
    requires
        block_size > 0,
        replies.len() == block_count(file.len() as int, block_size as int),
        0 <= from <= replies.len(),
        forall|i: int|
            from <= i < replies.len() ==> reply_outcome(#[trigger] replies[i]) == Ok::<
                Seq<u8>,
                TransferError,
            >(chunk(file, block_size, i)),
    ensures
        joined_from(replies, from) == if from < replies.len() {
            file.subrange(block_offset(block_size as int, from), file.len() as int)
        } else {
            Seq::<u8>::empty()
        },
        failures_from(plan, replies, from) == Seq::<BlockFailureModel>::empty(),
    decreases replies.len() - from,
{
    if from < replies.len() {
        lemma_joined_rest(file, block_size, plan, replies, from + 1);
        lemma_block_bounds(file.len() as int, block_size as int, from);
        assert(reply_outcome(replies[from]) == Ok::<Seq<u8>, TransferError>(
            chunk(file, block_size, from),
        ));
        assert(joined_from(replies, from) =~= file.subrange(
            block_offset(block_size as int, from),
            file.len() as int,
        ));
    }
}

/// Blocks that arrive whole, but for block `missing`, join up to the file
/// without the bytes of that block, and the one failure is recorded.
pub proof fn lemma_joined_gap(
    file: Seq<u8>,
    block_size: u64,
    plan: Seq<BlockDescriptor>,
    replies: Seq<NodeReply>,
    from: int,
    missing: int,
)
    requires
        block_size > 0,
        replies.len() == block_count(file.len() as int, block_size as int),
        0 <= from <= missing < replies.len(),
        reply_outcome(replies[missing]) is Err,
        forall|i: int|
            from <= i < replies.len() && i != missing ==> reply_outcome(#[trigger] replies[i])
                == Ok::<Seq<u8>, TransferError>(chunk(file, block_size, i)),
    ensures
        joined_from(replies, from) == file.subrange(
            block_offset(block_size as int, from),
            block_offset(block_size as int, missing),
        ) + file.subrange(
            block_offset(block_size as int, missing) + block_length(
                file.len() as int,
                block_size as int,
                missing,
            ),
            file.len() as int,
        ),
        failures_from(plan, replies, from) == seq![
            BlockFailureModel {
                index: missing,
                block_id: plan[missing].block_id,
                address: plan[missing].target(),
                kind: reply_outcome(replies[missing])->Err_0,
            },
        ],
    decreases missing - from,
{
    lemma_block_bounds(file.len() as int, block_size as int, from);
    lemma_block_bounds(file.len() as int, block_size as int, missing);
    if from < missing {
        lemma_joined_gap(file, block_size, plan, replies, from + 1, missing);
        assert(reply_outcome(replies[from]) == Ok::<Seq<u8>, TransferError>(
            chunk(file, block_size, from),
        ));
        lemma_offsets_ordered(block_size as int, from + 1, missing);
        assert(joined_from(replies, from) =~= file.subrange(
            block_offset(block_size as int, from),
            block_offset(block_size as int, missing),
        ) + file.subrange(
            block_offset(block_size as int, missing) + block_length(
                file.len() as int,
                block_size as int,
                missing,
            ),
            file.len() as int,
        ));
    } else {
        lemma_joined_rest(file, block_size, plan, replies, missing + 1);
        if missing + 1 < replies.len() {
            lemma_block_bounds(file.len() as int, block_size as int, missing + 1);
        }
        assert(joined_from(replies, from) =~= file.subrange(
            block_offset(block_size as int, from),
            block_offset(block_size as int, missing),
        ) + file.subrange(
            block_offset(block_size as int, missing) + block_length(
                file.len() as int,
                block_size as int,
                missing,
            ),
            file.len() as int,
        ));
        assert(failures_from(plan, replies, from) =~= seq![
            BlockFailureModel {
                index: missing,
                block_id: plan[missing].block_id,
                address: plan[missing].target(),
                kind: reply_outcome(replies[missing])->Err_0,
            },
        ]);
    }
}

/// Later blocks begin later.
pub proof fn lemma_offsets_ordered(block_size: int, first: int, second: int)
    requires
        0 < block_size,
        first <= second,
    ensures
        block_offset(block_size, first) <= block_offset(block_size, second),
{
    vstd::arithmetic::mul::lemma_mul_inequality(first, second, block_size);
}

/// Round trip: a file that is uploaded and then downloaded, with no failure
/// on either way, comes back byte for byte, whether its size is a multiple
/// of the block size, less than one block, or zero.
///
/// The plan has a block for every range of the file, every block has a
/// storage node, and no identifier occurs twice. On the way up every read
/// gives the bytes of its range and every storage node stores its block;
/// then the upload sends every block once, in plan order, with the bytes of
/// its range, and completes. On the way down the plan is the same and every
/// storage node returns what is held under the identifier; then every block
/// is fetched, in plan order, no failure is recorded, and the bytes that are
/// to be written are the file.
pub proof fn lemma_round_trip(
    file: Seq<u8>,
    block_size: u64,
    plan: AllocationResponse,
    reads: Seq<Vec<u8>>,
    stored: Seq<NodeReply>,
    fetched: Seq<NodeReply>,
    base: Seq<char>,
    path: Seq<char>,
)
    requires
        block_size > 0,
        base64_len(block_size as int) <= usize::MAX,
        file.len() <= u64::MAX,
        well_formed_plan(plan@),
        plan@.len() == block_count(file.len() as int, block_size as int),
        reads.len() == plan@.len(),
        stored.len() == plan@.len(),
        fetched.len() == plan@.len(),
        forall|i: int|
            0 <= i < plan@.len() ==> (#[trigger] reads[i])@ == chunk(file, block_size, i),
        forall|i: int| 0 <= i < plan@.len() ==> reply_outcome(#[trigger] stored[i]) is Ok,
        forall|i: int|
            0 <= i < plan@.len() ==> reply_outcome(#[trigger] fetched[i]) == Ok::<
                Seq<u8>,
                TransferError,
            >(
                stored_blocks(plan@, file, block_size, plan@.len() as int)[plan@[i].block_id],
            ),
    ensures
        ({
            let (up, first) = upload_start(plan@, file.len() as u64, block_size);
            let (uploaded, sent) = up.run(upload_reports(reads, stored, 0));
            let down = download_start(base, path).0;
            let (downloaded, asked) = down.run(
                seq![DownloadEvent::PlanFetched { plan }] + block_replies(fetched, 0),
            );
            &&& up.total() == plan@.len()
            &&& uploaded.state is Complete
            &&& uploaded.error is None
            &&& sent.len() == 2 * plan@.len()
            &&& forall|j: int|
                0 <= j < sent.len() ==> #[trigger] sent[j] == planned_upload_action(up, reads, j)
            &&& downloaded.state is Concatenated
            &&& downloaded.error is None
            &&& downloaded.failures.len() == 0
            &&& downloaded.data == file
            &&& asked.len() == plan@.len() + 1
            &&& forall|j: int|
                0 <= j <= plan@.len() ==> #[trigger] asked[j] == planned_action(plan@, path, j)
        }),
{
    let size = file.len() as u64;
    let total = plan@.len() as int;
    assert(plan.block_assignments.len() <= usize::MAX);
    assert forall|k: int| 0 <= k < reads.len() implies (#[trigger] reads[k])@.len()
        == block_length(size as int, block_size as int, k) by {
        lemma_block_bounds(file.len() as int, block_size as int, k);
        assert(reads[k]@ == chunk(file, block_size, k));
    }
    lemma_upload_completes(plan@, size, block_size, reads, stored);
    assert forall|i: int| 0 <= i < fetched.len() implies reply_outcome(#[trigger] fetched[i])
        == Ok::<Seq<u8>, TransferError>(chunk(file, block_size, i)) by {
        lemma_stored_blocks(plan@, file, block_size, total, i);
    }
    lemma_joined_rest(file, block_size, plan@, fetched, 0);
    lemma_download_outcome(base, path, plan, fetched);
    if total > 0 {
        assert(0 * (block_size as int) == 0);
        assert(file.subrange(0, file.len() as int) =~= file);
    } else {
        assert(file =~= Seq::<u8>::empty());
    }
}

/// A download that loses one block gives the file without that block.
/// When block `missing` cannot be fetched and every other block arrives
/// whole, every block is still asked for, in plan order; the download goes
/// on to have its bytes written; they are the file without the bytes of
/// block `missing`, as many as the file has less the length of that
/// block; and that one failure is recorded.
pub proof fn lemma_download_degrades(
    file: Seq<u8>,
    block_size: u64,
    plan: AllocationResponse,
    replies: Seq<NodeReply>,
    missing: int,
    base: Seq<char>,
    path: Seq<char>,
)
    requires
        block_size > 0,
        all_blocks_placed(plan@),
        plan@.len() == block_count(file.len() as int, block_size as int),
        replies.len() == plan@.len(),
        0 <= missing < plan@.len(),
        reply_outcome(replies[missing]) is Err,
        forall|i: int|
            0 <= i < plan@.len() && i != missing ==> reply_outcome(#[trigger] replies[i]) == Ok::<
                Seq<u8>,
                TransferError,
            >(chunk(file, block_size, i)),
    ensures
        ({
            let down = download_start(base, path).0;
            let (end, asked) = down.run(
                seq![DownloadEvent::PlanFetched { plan }] + block_replies(replies, 0),
            );
            let gap = block_offset(block_size as int, missing);
            let length = block_length(file.len() as int, block_size as int, missing);
            &&& end.state is Concatenated
            &&& end.error is None
            &&& end.data == file.subrange(0, gap) + file.subrange(gap + length, file.len() as int)
            &&& end.data.len() == file.len() - length
            &&& end.failures == seq![
                BlockFailureModel {
                    index: missing,
                    block_id: plan@[missing].block_id,
                    address: plan@[missing].target(),
                    kind: reply_outcome(replies[missing])->Err_0,
                },
            ]
            &&& asked.len() == plan@.len() + 1
            &&& forall|j: int|
                0 <= j <= plan@.len() ==> #[trigger] asked[j] == planned_action(plan@, path, j)
        }),
{
    lemma_download_outcome(base, path, plan, replies);
    lemma_joined_gap(file, block_size, plan@, replies, 0, missing);
    lemma_block_bounds(file.len() as int, block_size as int, missing);
    assert(0 * (block_size as int) == 0);
}

} // verus!
