//! The prepare of a streamed two-phase transaction.
use crate::utils::DynamicSizeEvent;
use crate::events::twophase::{lemma_prepare_round_trip, prepared_transaction_encoding};
use crate::wire::{
    be_i32, be_i64, byte_i8, c_string_text, lossy_text, read_c_string, read_i32, read_i64,
    read_i8,
};
use vstd::prelude::*;

verus! {

/// The prepare of a streamed transaction for two-phase commit.
#[derive(Debug)]
pub struct StreamPrepare {
    pub flags: i8,
    pub lsn: i64,
    pub end_lsn: i64,
    pub timestamp: i64,
    pub transaction_id: i32,
    pub gid: String,
}

/// The byte that announces a stream prepare (`'p'`).
pub const TYPE_DESCRIMINATOR: u8 = 0x70;

/// The view of a `StreamPrepare`.
pub struct StreamPrepareView {
    pub flags: i8,
    pub lsn: i64,
    pub end_lsn: i64,
    pub timestamp: i64,
    pub transaction_id: i32,
    pub gid: Seq<char>,
}

impl View for StreamPrepare {
    type V = StreamPrepareView;

    open spec fn view(&self) -> StreamPrepareView {
        StreamPrepareView {
            flags: self.flags,
            lsn: self.lsn,
            end_lsn: self.end_lsn,
            timestamp: self.timestamp,
            transaction_id: self.transaction_id,
            gid: self.gid@,
        }
    }
}

impl DynamicSizeEvent for StreamPrepare {
    const MIN_BUFFER_SIZE: usize = 1 + 8 * 3 + 4 + 1;

    const EVENT_NAME: &'static str = "pgoutput::events::stream_and_two_phase::StreamPrepare";

    open spec fn spec_min_buffer_size() -> usize {
        30
    }

    open spec fn spec_event_name() -> Seq<char> {
        "pgoutput::events::stream_and_two_phase::StreamPrepare"@
    }

    proof fn lemma_constants() {
    }

    open spec fn spec_decodable(buffer: Seq<u8>) -> bool {
        buffer.len() >= 29
    }

    fn is_decodable(buffer: &[u8]) -> (r: bool) {
        buffer.len() >= 29
    }

    open spec fn spec_from_buffer(buffer: Seq<u8>) -> StreamPrepareView {
        StreamPrepareView {
            flags: byte_i8(buffer, 0),
            lsn: be_i64(buffer, 1),
            end_lsn: be_i64(buffer, 9),
            timestamp: be_i64(buffer, 17),
            transaction_id: be_i32(buffer, 25),
            gid: c_string_text(buffer.skip(29)),
        }
    }

    fn from_buffer(buffer: &[u8]) -> (r: Self) {
        let flags = read_i8(buffer, 0);
        let lsn = read_i64(buffer, 1);
        let end_lsn = read_i64(buffer, 9);
        let timestamp = read_i64(buffer, 17);
        let transaction_id = read_i32(buffer, 25);
        let gid = read_c_string(buffer, 29);
        Self { flags, lsn, end_lsn, timestamp, transaction_id, gid }
    }
}

/// A stream prepare body built from the flags, the prepare LSN, the end
/// LSN, the prepare timestamp, the transaction id and the gid (laid out as
/// in a prepare) decodes to those fields, each in its place, the gid up to
/// its NUL, whatever follows.
pub proof fn lemma_stream_prepare_round_trip(
    flags: i8,
    lsn: i64,
    end_lsn: i64,
    timestamp: i64,
    transaction_id: i32,
    gid: Seq<u8>,
    rest: Seq<u8>,
)
    requires
        forall|j: int| 0 <= j < gid.len() ==> gid[j] != 0,
    ensures
        ({
            let b = prepared_transaction_encoding(
                flags,
                lsn,
                end_lsn,
                timestamp,
                transaction_id,
                gid,
                rest,
            );
            &&& b.len() >= StreamPrepare::spec_min_buffer_size()
            &&& StreamPrepare::spec_decodable(b)
            &&& StreamPrepare::spec_from_buffer(b) == StreamPrepareView {
                flags,
                lsn,
                end_lsn,
                timestamp,
                transaction_id,
                gid: lossy_text(gid),
            }
        }),
{
    lemma_prepare_round_trip(flags, lsn, end_lsn, timestamp, transaction_id, gid, rest);
}

} // verus!
