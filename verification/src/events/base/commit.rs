use crate::utils::StaticSizeEvent;
use crate::wire::{
    be_i64, byte_i8, i64_be_bytes, lemma_be_i64_bytes, lemma_byte_i8, read_i64, read_i8,
};
use vstd::prelude::*;

verus! {

/// The end of a transaction.
#[derive(Debug, Clone, Copy, PartialEq, Eq)]
pub struct Commit {
    pub flags: i8,
    pub lsn: i64,
    pub end_lsn: i64,
    pub timestamp: i64,
}

impl View for Commit {
    type V = Commit;

    open spec fn view(&self) -> Commit {
        *self
    }
}

impl StaticSizeEvent for Commit {
    const BUFFER_SIZE: usize = 1 + 8 * 3;

    const EVENT_NAME: &'static str = "pgoutput::events::base::commit::Commit";

    open spec fn spec_buffer_size() -> usize {
        25
    }

    open spec fn spec_event_name() -> Seq<char> {
        "pgoutput::events::base::commit::Commit"@
    }

    proof fn lemma_constants() {
    }

    open spec fn spec_decodable(buffer: Seq<u8>) -> bool {
        buffer.len() >= 25
    }

    fn is_decodable(buffer: &[u8]) -> (r: bool) {
        buffer.len() >= 25
    }

    open spec fn spec_from_buffer(buffer: Seq<u8>) -> Commit {
        Commit {
            flags: byte_i8(buffer, 0),
            lsn: be_i64(buffer, 1),
            end_lsn: be_i64(buffer, 9),
            timestamp: be_i64(buffer, 17),
        }
    }

    fn from_buffer(buffer: &[u8]) -> (r: Self) {
        Commit {
            flags: read_i8(buffer, 0),
            lsn: read_i64(buffer, 1),
            end_lsn: read_i64(buffer, 9),
            timestamp: read_i64(buffer, 17),
        }
    }
}

/// A commit body made of the flags byte, the commit LSN, the end LSN and
/// the commit timestamp, each big-endian, has the size of the message and
/// decodes to those four fields, each in its place.
pub proof fn lemma_commit_round_trip(flags: i8, lsn: i64, end_lsn: i64, timestamp: i64)
    ensures
        ({
            let b = seq![flags as u8] + i64_be_bytes(lsn) + i64_be_bytes(end_lsn) + i64_be_bytes(
                timestamp,
            );
            &&& b.len() == Commit::spec_buffer_size()
            &&& Commit::spec_decodable(b)
            &&& Commit::spec_from_buffer(b) == Commit { flags, lsn, end_lsn, timestamp }
        }),
{
    let b = seq![flags as u8] + i64_be_bytes(lsn) + i64_be_bytes(end_lsn) + i64_be_bytes(
        timestamp,
    );
    assert(b[0] == flags as u8);
    lemma_byte_i8(b, 0, flags);
    assert(b.subrange(1, 9) =~= i64_be_bytes(lsn));
    assert(b.subrange(9, 17) =~= i64_be_bytes(end_lsn));
    assert(b.subrange(17, 25) =~= i64_be_bytes(timestamp));
    lemma_be_i64_bytes(b, 1, lsn);
    lemma_be_i64_bytes(b, 9, end_lsn);
    lemma_be_i64_bytes(b, 17, timestamp);
}

} // verus!
