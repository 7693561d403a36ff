use crate::utils::StaticSizeEvent;
use crate::wire::{
    be_i32, be_i64, i32_be_bytes, i64_be_bytes, lemma_be_i32_bytes, lemma_be_i64_bytes, read_i32,
    read_i64,
};
use vstd::prelude::*;

verus! {

/// The start of a transaction.
#[derive(Debug, Clone, Copy, PartialEq, Eq)]
pub struct Begin {
    pub final_transaction_lsn: i64,
    pub commit_timestamp: i64,
    pub transaction_id: i32,
}

impl View for Begin {
    type V = Begin;

    open spec fn view(&self) -> Begin {
        *self
    }
}

impl StaticSizeEvent for Begin {
    const BUFFER_SIZE: usize = 8 * 2 + 4;

    const EVENT_NAME: &'static str = "pgoutput::events::base::begin::Begin";

    open spec fn spec_buffer_size() -> usize {
        20
    }

    open spec fn spec_event_name() -> Seq<char> {
        "pgoutput::events::base::begin::Begin"@
    }

    proof fn lemma_constants() {
    }

    open spec fn spec_decodable(buffer: Seq<u8>) -> bool {
        buffer.len() >= 20
    }

    fn is_decodable(buffer: &[u8]) -> (r: bool) {
        buffer.len() >= 20
    }

    open spec fn spec_from_buffer(buffer: Seq<u8>) -> Begin {
        Begin {
            final_transaction_lsn: be_i64(buffer, 0),
            commit_timestamp: be_i64(buffer, 8),
            transaction_id: be_i32(buffer, 16),
        }
    }

    fn from_buffer(buffer: &[u8]) -> (r: Self) {
        Begin {
            final_transaction_lsn: read_i64(buffer, 0),
            commit_timestamp: read_i64(buffer, 8),
            transaction_id: read_i32(buffer, 16),
        }
    }
}

/// A begin body made of the final LSN, the commit timestamp and the
/// transaction id, each big-endian, has the size of the message and
/// decodes to those three fields, each in its place.
pub proof fn lemma_begin_round_trip(
    final_transaction_lsn: i64,
    commit_timestamp: i64,
    transaction_id: i32,
)
    ensures
        ({
            let b = i64_be_bytes(final_transaction_lsn) + i64_be_bytes(commit_timestamp)
                + i32_be_bytes(transaction_id);
            &&& b.len() == Begin::spec_buffer_size()
            &&& Begin::spec_decodable(b)
            &&& Begin::spec_from_buffer(b) == Begin {
                final_transaction_lsn,
                commit_timestamp,
                transaction_id,
            }
        }),
{
    let b = i64_be_bytes(final_transaction_lsn) + i64_be_bytes(commit_timestamp) + i32_be_bytes(
        transaction_id,
    );
    assert(b.subrange(0, 8) =~= i64_be_bytes(final_transaction_lsn));
    assert(b.subrange(8, 16) =~= i64_be_bytes(commit_timestamp));
    assert(b.subrange(16, 20) =~= i32_be_bytes(transaction_id));
    lemma_be_i64_bytes(b, 0, final_transaction_lsn);
    lemma_be_i64_bytes(b, 8, commit_timestamp);
    lemma_be_i32_bytes(b, 16, transaction_id);
}

} // verus!
