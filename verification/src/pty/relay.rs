//! The output relay: what becomes of each read from a session's terminal.
//!
//! One relay runs per session. It reads the terminal in chunks of at most
//! [`READ_CHUNK_SIZE`] bytes and hands each chunk on unchanged; the first
//! read that gives nothing, or fails, ends it with a single exit notice. The
//! relay never looks at the session table.

use vstd::prelude::*;
use crate::pty::session::{TerminalExit, TerminalExitModel, TerminalOutput, TerminalOutputModel};

verus! {

/// How many bytes the relay asks for in one read.
pub const READ_CHUNK_SIZE: usize = 4096;

/// What the relay does after a read.
#[derive(Clone, Debug, PartialEq, Eq)]
pub enum RelayStep {
    /// Hand the chunk on, then read again.
    Forward(TerminalOutput),
    /// Give notice that the output has ended, then stop.
    Finish(TerminalExit),
}

/// What a [`RelayStep`] holds.
pub enum RelayStepModel {
    Forward(TerminalOutputModel),
    Finish(TerminalExitModel),
}

impl DeepView for RelayStep {
    type V = RelayStepModel;

    open spec fn deep_view(&self) -> RelayStepModel {
        match self {
            RelayStep::Forward(output) => RelayStepModel::Forward(output.deep_view()),
            RelayStep::Finish(exit) => RelayStepModel::Finish(exit.deep_view()),
        }
    }
}

/// What the relay of the session `id` does after `read`: a read that gave
/// bytes hands them on; one that gave none, or failed, ends the relay. The
/// exit code is not known to the relay.
pub open spec fn relay_step(id: Seq<char>, read: Option<Seq<u8>>) -> RelayStepModel {
    match read {
        Some(bytes) => if bytes.len() > 0 {
            RelayStepModel::Forward(TerminalOutputModel { session_id: id, data: bytes })
        } else {
            RelayStepModel::Finish(TerminalExitModel { session_id: id, exit_code: None })
        },
        None => RelayStepModel::Finish(TerminalExitModel { session_id: id, exit_code: None }),
    }
}

/// Everything the relay of the session `id` does over `reads`, in order: it
/// stops at the first read that ends it.
pub open spec fn relay_steps(id: Seq<char>, reads: Seq<Option<Seq<u8>>>) -> Seq<RelayStepModel>
    decreases reads.len(),
{
    if reads.len() == 0 {
        Seq::empty()
    } else if relay_step(id, reads[0]) is Finish {
        seq![relay_step(id, reads[0])]
    } else {
        seq![relay_step(id, reads[0])] + relay_steps(id, reads.drop_first())
    }
}

/// The bytes that `steps` hand on, in order.
pub open spec fn forwarded(steps: Seq<RelayStepModel>) -> Seq<u8>
    decreases steps.len(),
{
    if steps.len() == 0 {
        Seq::empty()
    } else {
        (match steps[0] {
            RelayStepModel::Forward(output) => output.data,
            RelayStepModel::Finish(_) => Seq::empty(),
        }) + forwarded(steps.drop_first())
    }
}

/// How many exit notices `steps` give.
pub open spec fn exit_notices(steps: Seq<RelayStepModel>) -> nat
    decreases steps.len(),
{
    if steps.len() == 0 {
        0
    } else {
        (if steps[0] is Finish {
            1nat
        } else {
            0nat
        }) + exit_notices(steps.drop_first())
    }
}

/// `chunks` put end to end.
pub open spec fn joined(chunks: Seq<Seq<u8>>) -> Seq<u8>
    decreases chunks.len(),
{
    if chunks.len() == 0 {
        Seq::empty()
    } else {
        chunks[0] + joined(chunks.drop_first())
    }
}

/// The read with which a terminal ends: one that fails, or one that gives
/// no bytes.
pub open spec fn last_read(failed: bool) -> Option<Seq<u8>> {
    if failed {
        None
    } else {
        Some(Seq::<u8>::empty())
    }
}

/// The reads of a terminal that gives `chunks` one after the other and then
/// ends, with a read that fails (`failed`) or with one that gives no bytes.
pub open spec fn reads_of(chunks: Seq<Seq<u8>>, failed: bool) -> Seq<Option<Seq<u8>>> {
    Seq::new(
        chunks.len() + 1,
        |i: int|
            if i < chunks.len() {
                Some(chunks[i])
            } else {
                last_read(failed)
            },
    )
}

/// `data` cut into chunks of `size` bytes, the last one shorter where
/// `size` does not divide the length.
pub open spec fn chunked(data: Seq<u8>, size: nat) -> Seq<Seq<u8>>
    decreases data.len(),
{
    if data.len() == 0 || size == 0 {
        Seq::empty()
    } else if data.len() <= size {
        seq![data]
    } else {
        seq![data.take(size as int)] + chunked(data.skip(size as int), size)
    }
}

/// Whatever chunks a terminal gives before it ends, provided none is empty,
/// and however it ends, with a read that gives nothing or with one that
/// fails, the relay hands on exactly their bytes, in order and unchanged,
/// and gives exactly one exit notice, as its last step.
pub proof fn lemma_relay_keeps_bytes(id: Seq<char>, chunks: Seq<Seq<u8>>, failed: bool)
    requires
        forall|i: int| 0 <= i < chunks.len() ==> (#[trigger] chunks[i]).len() > 0,
    ensures
        forwarded(relay_steps(id, reads_of(chunks, failed))) == joined(chunks),
        exit_notices(relay_steps(id, reads_of(chunks, failed))) == 1,
        relay_steps(id, reads_of(chunks, failed)).len() == chunks.len() + 1,
        relay_steps(id, reads_of(chunks, failed)).last() is Finish,
    decreases chunks.len(),
{
    let reads = reads_of(chunks, failed);
    let steps = relay_steps(id, reads);
    if chunks.len() == 0 {
        assert(reads[0] == last_read(failed));
        assert(relay_step(id, reads[0]) is Finish);
        assert(steps =~= seq![relay_step(id, reads[0])]);
        assert(steps.drop_first() =~= Seq::<RelayStepModel>::empty());
        assert(forwarded(steps.drop_first()) =~= Seq::<u8>::empty());
        assert(forwarded(steps) =~= Seq::<u8>::empty());
        assert(exit_notices(steps.drop_first()) == 0);
    } else {
        let rest = chunks.drop_first();
        assert forall|i: int| 0 <= i < rest.len() implies (#[trigger] rest[i]).len() > 0 by {
            assert(rest[i] == chunks[i + 1]);
        }
        lemma_relay_keeps_bytes(id, rest, failed);
        assert(reads[0] == Some(chunks[0]));
        assert(reads.drop_first() =~= reads_of(rest, failed));
        let tail = relay_steps(id, reads_of(rest, failed));
        assert(steps == seq![relay_step(id, reads[0])] + tail);
        assert(steps.drop_first() =~= tail);
        assert(steps.last() == tail.last());
    }
}

/// Cutting `data` into chunks of a positive `size` loses nothing: no chunk
/// is empty, none is longer than `size`, and end to end they are `data`.
pub proof fn lemma_chunks_rejoin(data: Seq<u8>, size: nat)
    requires
        size > 0,
    ensures
        joined(chunked(data, size)) == data,
        forall|i: int|
            0 <= i < chunked(data, size).len() ==> 0 < (#[trigger] chunked(data, size)[i]).len()
                <= size,
    decreases data.len(),
{
    let chunks = chunked(data, size);
    if data.len() == 0 {
        assert(joined(chunks) =~= data);
    } else if data.len() <= size {
        assert(chunks[0] == data);
        assert(chunks.drop_first() =~= Seq::<Seq<u8>>::empty());
        assert(joined(chunks.drop_first()) =~= Seq::<u8>::empty());
        assert(joined(chunks) =~= data);
    } else {
        let rest = data.skip(size as int);
        lemma_chunks_rejoin(rest, size);
        assert(chunks.drop_first() =~= chunked(rest, size));
        assert(joined(chunks) =~= data.take(size as int) + rest);
        assert(data.take(size as int) + rest =~= data);
        assert forall|i: int| 0 <= i < chunks.len() implies 0 < (#[trigger] chunks[i]).len()
            <= size by {
            if i > 0 {
                assert(chunks[i] == chunked(rest, size)[i - 1]);
            }
        }
    }
}

/// Bytes that reach the relay in chunks of [`READ_CHUNK_SIZE`] leave it as
/// they came: the same bytes in the same order, whatever their number and
/// however the terminal ends, and one exit notice after them.
pub proof fn lemma_relay_across_chunk_boundaries(id: Seq<char>, data: Seq<u8>, failed: bool)
    ensures
        forwarded(relay_steps(id, reads_of(chunked(data, READ_CHUNK_SIZE as nat), failed)))
            == data,
        exit_notices(relay_steps(id, reads_of(chunked(data, READ_CHUNK_SIZE as nat), failed)))
            == 1,
{
    lemma_chunks_rejoin(data, READ_CHUNK_SIZE as nat);
    lemma_relay_keeps_bytes(id, chunked(data, READ_CHUNK_SIZE as nat), failed);
}

/// A copy of `bytes`.
fn copy_bytes(bytes: &[u8]) -> (copy: Vec<u8>)
    ensures
        copy@ == bytes@,
{
    let mut copy: Vec<u8> = Vec::new();
    let mut i: usize = 0;
    while i < bytes.len()
        invariant
            i <= bytes.len(),
            copy@ == bytes@.take(i as int),
        decreases bytes.len() - i,
    {
        copy.push(bytes[i]);
        assert(bytes@.take(i + 1) =~= bytes@.take(i as int).push(bytes@[i as int]));
        i += 1;
    }
    assert(bytes@.take(bytes.len() as int) =~= bytes@);
    copy
}

/// Says what the relay of the session `session_id` does after one read of
/// its terminal. `read` holds the bytes that the read gave, or nothing where
/// the read failed.
pub fn read_output(session_id: &str, read: Option<&[u8]>) -> (step: RelayStep)
    ensures
        step.deep_view() == relay_step(
            session_id@,
            match read {
                Some(bytes) => Some(bytes@),
                None => None,
            },
        ),
{
    match read {
        Some(bytes) => {
            if bytes.len() > 0 {
                RelayStep::Forward(
                    TerminalOutput { session_id: session_id.to_owned(), data: copy_bytes(bytes) },
                )
            } else {
                RelayStep::Finish(
                    TerminalExit { session_id: session_id.to_owned(), exit_code: None },
                )
            }
        },
        None => RelayStep::Finish(
            TerminalExit { session_id: session_id.to_owned(), exit_code: None },
        ),
    }
}

} // verus!
