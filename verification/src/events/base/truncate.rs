//! The truncation of relations.
use crate::options::{
    StreamingValueTrait, StreamingValueTraitOff, StreamingValueTraitOn,
    StreamingValueTraitParallel,
};
use crate::utils::DynamicSizeEvent;
use crate::wire::{
    be_i32, byte_i8, i32_be_bytes, lemma_be_i32_bytes, lemma_byte_i8, read_i32, read_i8,
};
use vstd::prelude::*;

verus! {

/// Chooses the truncate message of a configuration.
pub trait TruncateTrait: StreamingValueTrait {
    type Type: DynamicSizeEvent + std::fmt::Debug;
}

/// The relation ids that follow `start`: as many whole four-byte ids as `s`
/// holds there, but no more than `count`.
pub open spec fn truncate_oids(s: Seq<u8>, start: int, count: usize) -> Seq<i32> {
    let chunks = (s.len() - start) / 4;
    let n = if (count as int) < chunks {
        count as int
    } else {
        chunks
    };
    Seq::new(n as nat, |k: int| be_i32(s, start + 4 * k))
}

/// Decodes the relation ids at `buffer[start..]`, at most `count` of them.
fn parse_oids(buffer: &[u8], start: usize, count: usize) -> (r: Vec<i32>)
    requires
        start <= buffer@.len(),
    ensures
        r@ == truncate_oids(buffer@, start as int, count),
{
    let chunks = (buffer.len() - start) / 4;
    let n = if count < chunks {
        count
    } else {
        chunks
    };
    let mut oids: Vec<i32> = Vec::new();
    let mut k: usize = 0;
    while k < n
        invariant
            k <= n,
            n <= chunks,
            chunks == (buffer@.len() - start) / 4,
            start <= buffer@.len(),
            buffer@.len() == buffer.len(),
            oids@ =~= Seq::new(k as nat, |j: int| be_i32(buffer@, start + 4 * j)),
        decreases n - k,
    {
        assert(start + 4 * k + 4 <= buffer@.len());
        let oid = read_i32(buffer, start + 4 * k);
        oids.push(oid);
        k = k + 1;
    }
    oids
}

/// A truncation, sent inside a streamed transaction.
#[derive(Debug)]
pub struct TruncateWithStreamingEnabled {
    pub transaction_id: i32,
    pub flags: i8,
    pub oids: Vec<i32>,
}

/// The view of a `TruncateWithStreamingEnabled`.
pub struct TruncateWithStreamingEnabledView {
    pub transaction_id: i32,
    pub flags: i8,
    pub oids: Seq<i32>,
}

impl View for TruncateWithStreamingEnabled {
    type V = TruncateWithStreamingEnabledView;

    open spec fn view(&self) -> TruncateWithStreamingEnabledView {
        TruncateWithStreamingEnabledView {
            transaction_id: self.transaction_id,
            flags: self.flags,
            oids: self.oids@,
        }
    }
}

impl DynamicSizeEvent for TruncateWithStreamingEnabled {
    const MIN_BUFFER_SIZE: usize = 4 + 1 + 4;

    const EVENT_NAME: &'static str = "pgoutput::events::base::truncate::TruncateWithStreamingEnabled";

    open spec fn spec_min_buffer_size() -> usize {
        9
    }

    open spec fn spec_event_name() -> Seq<char> {
        "pgoutput::events::base::truncate::TruncateWithStreamingEnabled"@
    }

    proof fn lemma_constants() {
    }

    open spec fn spec_decodable(buffer: Seq<u8>) -> bool {
        buffer.len() >= 9
    }

    fn is_decodable(buffer: &[u8]) -> (r: bool) {
        buffer.len() >= 9
    }

    open spec fn spec_from_buffer(buffer: Seq<u8>) -> TruncateWithStreamingEnabledView {
        TruncateWithStreamingEnabledView {
            transaction_id: be_i32(buffer, 0),
            flags: byte_i8(buffer, 8),
            oids: truncate_oids(buffer, 9, be_i32(buffer, 4) as usize),
        }
    }

    fn from_buffer(buffer: &[u8]) -> (r: TruncateWithStreamingEnabled) {
        let relations_count = read_i32(buffer, 4) as usize;
        Self {
            transaction_id: read_i32(buffer, 0),
            flags: read_i8(buffer, 8),
            oids: parse_oids(buffer, 9, relations_count),
        }
    }
}

/// A truncation.
#[derive(Debug)]
pub struct TruncateWithoutStreamingEnabled {
    pub flags: i8,
    pub oids: Vec<i32>,
}

/// The view of a `TruncateWithoutStreamingEnabled`.
pub struct TruncateWithoutStreamingEnabledView {
    pub flags: i8,
    pub oids: Seq<i32>,
}

impl View for TruncateWithoutStreamingEnabled {
    type V = TruncateWithoutStreamingEnabledView;

    open spec fn view(&self) -> TruncateWithoutStreamingEnabledView {
        TruncateWithoutStreamingEnabledView { flags: self.flags, oids: self.oids@ }
    }
}

impl DynamicSizeEvent for TruncateWithoutStreamingEnabled {
    const MIN_BUFFER_SIZE: usize = 1 * 4;

    const EVENT_NAME: &'static str = "pgoutput::events::base::truncate::TruncateWithoutStreamingEnabled";

    open spec fn spec_min_buffer_size() -> usize {
        4
    }

    open spec fn spec_event_name() -> Seq<char> {
        "pgoutput::events::base::truncate::TruncateWithoutStreamingEnabled"@
    }

    proof fn lemma_constants() {
    }

    /// The flags byte follows the four bytes of the count, so a buffer of
    /// exactly `MIN_BUFFER_SIZE` bytes is one short.
    open spec fn spec_decodable(buffer: Seq<u8>) -> bool {
        buffer.len() >= 5
    }

    fn is_decodable(buffer: &[u8]) -> (r: bool) {
        buffer.len() >= 5
    }

    open spec fn spec_from_buffer(buffer: Seq<u8>) -> TruncateWithoutStreamingEnabledView {
        TruncateWithoutStreamingEnabledView {
            flags: byte_i8(buffer, 4),
            oids: truncate_oids(buffer, 5, be_i32(buffer, 0) as usize),
        }
    }

    fn from_buffer(buffer: &[u8]) -> (r: Self) {
        let relations_count = read_i32(buffer, 0) as usize;
        Self { flags: read_i8(buffer, 4), oids: parse_oids(buffer, 5, relations_count) }
    }
}

impl TruncateTrait for StreamingValueTraitOn {
    type Type = TruncateWithStreamingEnabled;
}

impl TruncateTrait for StreamingValueTraitParallel {
    type Type = TruncateWithStreamingEnabled;
}

impl TruncateTrait for StreamingValueTraitOff {
    type Type = TruncateWithoutStreamingEnabled;
}

/// A truncation sent inside a streamed transaction is the transaction id
/// followed by the truncation as it is sent outside one.
pub proof fn lemma_truncate_streaming_layout(buffer: Seq<u8>)
    requires
        buffer.len() >= TruncateWithStreamingEnabled::spec_min_buffer_size(),
    ensures
        TruncateWithStreamingEnabled::spec_decodable(buffer)
            == TruncateWithoutStreamingEnabled::spec_decodable(buffer.skip(4)),
        TruncateWithStreamingEnabled::spec_from_buffer(buffer).transaction_id == be_i32(buffer, 0),
        TruncateWithStreamingEnabled::spec_from_buffer(buffer).flags
            == TruncateWithoutStreamingEnabled::spec_from_buffer(buffer.skip(4)).flags,
        TruncateWithStreamingEnabled::spec_from_buffer(buffer).oids
            == TruncateWithoutStreamingEnabled::spec_from_buffer(buffer.skip(4)).oids,
{
    let t = buffer.skip(4);
    assert(be_i32(t, 0) == be_i32(buffer, 4));
    assert(truncate_oids(t, 5, be_i32(t, 0) as usize) =~= truncate_oids(
        buffer,
        9,
        be_i32(buffer, 4) as usize,
    )) by {
        let count = be_i32(buffer, 4) as usize;
        assert forall|k: int| 0 <= k < truncate_oids(t, 5, count).len() implies #[trigger] truncate_oids(
            t,
            5,
            count,
        )[k] == be_i32(buffer, 9 + 4 * k) by {
            assert(be_i32(t, 5 + 4 * k) == be_i32(buffer, 9 + 4 * k));
        }
    }
}

/// The relation ids `oids`, four big-endian bytes each, one after another.
pub open spec fn oids_be_bytes(oids: Seq<i32>) -> Seq<u8>
    decreases oids.len(),
{
    if oids.len() == 0 {
        Seq::empty()
    } else {
        oids_be_bytes(oids.drop_last()) + i32_be_bytes(oids.last())
    }
}

/// Where each id of `oids_be_bytes` stands.
proof fn lemma_oids_be_bytes(oids: Seq<i32>)
    ensures
        oids_be_bytes(oids).len() == 4 * oids.len(),
        forall|k: int|
            0 <= k < oids.len() ==> #[trigger] oids_be_bytes(oids).subrange(4 * k, 4 * k + 4)
                == i32_be_bytes(oids[k]),
    decreases oids.len(),
{
    if oids.len() > 0 {
        let init = oids.drop_last();
        lemma_oids_be_bytes(init);
        let a = oids_be_bytes(init);
        let b = i32_be_bytes(oids.last());
        assert forall|k: int| 0 <= k < oids.len() implies #[trigger] oids_be_bytes(oids).subrange(
            4 * k,
            4 * k + 4,
        ) == i32_be_bytes(oids[k]) by {
            if k < oids.len() - 1 {
                assert((a + b).subrange(4 * k, 4 * k + 4) =~= a.subrange(4 * k, 4 * k + 4));
                assert(init[k] == oids[k]);
            } else {
                assert((a + b).subrange(4 * k, 4 * k + 4) =~= b);
            }
        }
    }
}

/// Reading the ids of `oids_be_bytes(oids)` at `start`, with their count.
proof fn lemma_truncate_oids_encoding(head: Seq<u8>, oids: Seq<i32>, rest: Seq<u8>)
    requires
        oids.len() <= i32::MAX,
    ensures
        truncate_oids(head + oids_be_bytes(oids) + rest, head.len() as int, oids.len() as usize)
            == oids,
{
    let b = head + oids_be_bytes(oids) + rest;
    let h = head.len() as int;
    lemma_oids_be_bytes(oids);
    let n = oids.len() as int;
    assert((b.len() - h) / 4 >= n) by {
        assert(b.len() - h == 4 * n + rest.len());
    }
    let r = truncate_oids(b, h, oids.len() as usize);
    assert(r.len() == n);
    assert forall|k: int| 0 <= k < n implies r[k] == oids[k] by {
        assert(b.subrange(h + 4 * k, h + 4 * k + 4) =~= oids_be_bytes(oids).subrange(
            4 * k,
            4 * k + 4,
        ));
        lemma_be_i32_bytes(b, h + 4 * k, oids[k]);
    }
    assert(r =~= oids);
}

/// A truncate body made of the number of relations, the flags byte and the
/// relation ids decodes to the flags and to those ids, in order, whatever
/// follows them.
pub proof fn lemma_truncate_round_trip(flags: i8, oids: Seq<i32>, rest: Seq<u8>)
    requires
        oids.len() <= i32::MAX,
    ensures
        ({
            let b = i32_be_bytes(oids.len() as i32) + seq![flags as u8] + oids_be_bytes(oids)
                + rest;
            &&& TruncateWithoutStreamingEnabled::spec_decodable(b)
            &&& TruncateWithoutStreamingEnabled::spec_from_buffer(b)
                == TruncateWithoutStreamingEnabledView { flags, oids }
        }),
{
    let head = i32_be_bytes(oids.len() as i32) + seq![flags as u8];
    let b = i32_be_bytes(oids.len() as i32) + seq![flags as u8] + oids_be_bytes(oids) + rest;
    assert(b =~= head + oids_be_bytes(oids) + rest);
    assert(b.subrange(0, 4) =~= i32_be_bytes(oids.len() as i32));
    lemma_be_i32_bytes(b, 0, oids.len() as i32);
    assert(b[4] == flags as u8);
    lemma_byte_i8(b, 4, flags);
    lemma_truncate_oids_encoding(head, oids, rest);
}

/// The same inside a streamed transaction, after the transaction id.
pub proof fn lemma_streamed_truncate_round_trip(
    transaction_id: i32,
    flags: i8,
    oids: Seq<i32>,
    rest: Seq<u8>,
)
    requires
        oids.len() <= i32::MAX,
    ensures
        ({
            let b = i32_be_bytes(transaction_id) + i32_be_bytes(oids.len() as i32) + seq![
                flags as u8,
            ] + oids_be_bytes(oids) + rest;
            &&& TruncateWithStreamingEnabled::spec_decodable(b)
            &&& TruncateWithStreamingEnabled::spec_from_buffer(b)
                == TruncateWithStreamingEnabledView { transaction_id, flags, oids }
        }),
{
    let head = i32_be_bytes(transaction_id) + i32_be_bytes(oids.len() as i32) + seq![flags as u8];
    let b = i32_be_bytes(transaction_id) + i32_be_bytes(oids.len() as i32) + seq![flags as u8]
        + oids_be_bytes(oids) + rest;
    assert(b =~= head + oids_be_bytes(oids) + rest);
    assert(b.subrange(0, 4) =~= i32_be_bytes(transaction_id));
    assert(b.subrange(4, 8) =~= i32_be_bytes(oids.len() as i32));
    lemma_be_i32_bytes(b, 0, transaction_id);
    lemma_be_i32_bytes(b, 4, oids.len() as i32);
    assert(b[8] == flags as u8);
    lemma_byte_i8(b, 8, flags);
    lemma_truncate_oids_encoding(head, oids, rest);
}

} // verus!
