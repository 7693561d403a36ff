//! The deletion of a row.
use crate::options::{StreamingValueTraitOff, StreamingValueTraitOn, StreamingValueTraitParallel};
use crate::utils::DynamicSizeEvent;
use crate::wire::{be_i32, i32_be_bytes, lemma_be_i32_bytes, read_i32};
use super::tuple_data::{
    lemma_tuple_data_prefix, old_data_or_primary_key_decodable,
    old_data_or_primary_key_is_decodable, old_data_view, parse_old_data_or_primary_key,
    spec_tuple_data, OldDataOrPrimaryKeyTupleData, OldDataOrPrimaryKeyView, PGValue, ValueView,
};
use super::update::old_data;
use vstd::prelude::*;

verus! {

/// Chooses the delete message of a configuration.
pub trait DeleteTrait<Binary> {
    type Type: DynamicSizeEvent + std::fmt::Debug;
}

/// Decodes the optional old row or key at `buffer[start..]`.
fn parse_delete_body<Binary: PGValue>(buffer: &[u8], start: usize) -> (r: Option<
    OldDataOrPrimaryKeyTupleData<Binary>,
>)
    requires
        start <= buffer@.len(),
        old_data_or_primary_key_decodable::<Binary>(buffer@.skip(start as int)),
    ensures
        old_data_view(r) == old_data::<Binary>(buffer@.skip(start as int)),
{
    let body = &buffer[start..buffer.len()];
    assert(body@ =~= buffer@.skip(start as int));
    match parse_old_data_or_primary_key::<Binary>(body) {
        Some((value, _)) => Some(value),
        None => None,
    }
}

/// A deletion, sent inside a streamed transaction.
#[derive(Debug)]
pub struct DeleteWithStreamingEnabled<Binary: PGValue> {
    pub transaction_id: i32,
    pub oid: i32,
    pub old_data_or_primary_key: Option<OldDataOrPrimaryKeyTupleData<Binary>>,
}

/// The view of a `DeleteWithStreamingEnabled`.
pub struct DeleteWithStreamingEnabledView<B: PGValue> {
    pub transaction_id: i32,
    pub oid: i32,
    pub old_data_or_primary_key: Option<OldDataOrPrimaryKeyView<ValueView<B>>>,
}

impl<B: PGValue> View for DeleteWithStreamingEnabled<B> {
    type V = DeleteWithStreamingEnabledView<B>;

    open spec fn view(&self) -> DeleteWithStreamingEnabledView<B> {
        DeleteWithStreamingEnabledView {
            transaction_id: self.transaction_id,
            oid: self.oid,
            old_data_or_primary_key: old_data_view(self.old_data_or_primary_key),
        }
    }
}

impl<Binary: PGValue> DynamicSizeEvent for DeleteWithStreamingEnabled<Binary> {
    const MIN_BUFFER_SIZE: usize = 4 * 2;

    const EVENT_NAME: &'static str = "pgoutput::events::base::delete::DeleteWithStreamingEnabled";

    open spec fn spec_min_buffer_size() -> usize {
        8
    }

    open spec fn spec_event_name() -> Seq<char> {
        "pgoutput::events::base::delete::DeleteWithStreamingEnabled"@
    }

    proof fn lemma_constants() {
    }

    open spec fn spec_decodable(buffer: Seq<u8>) -> bool {
        buffer.len() >= 8 && old_data_or_primary_key_decodable::<Binary>(buffer.skip(8))
    }

    fn is_decodable(buffer: &[u8]) -> (r: bool) {
        if buffer.len() < 8 {
            return false;
        }
        let rest = &buffer[8..buffer.len()];
        assert(rest@ =~= buffer@.skip(8));
        old_data_or_primary_key_is_decodable::<Binary>(rest)
    }

    open spec fn spec_from_buffer(buffer: Seq<u8>) -> DeleteWithStreamingEnabledView<Binary> {
        DeleteWithStreamingEnabledView {
            transaction_id: be_i32(buffer, 0),
            oid: be_i32(buffer, 4),
            old_data_or_primary_key: old_data::<Binary>(buffer.skip(8)),
        }
    }

    fn from_buffer(buffer: &[u8]) -> (r: DeleteWithStreamingEnabled<Binary>) {
        let transaction_id = read_i32(buffer, 0);
        let oid = read_i32(buffer, 4);
        DeleteWithStreamingEnabled {
            transaction_id: transaction_id,
            oid: oid,
            old_data_or_primary_key: parse_delete_body::<Binary>(buffer, 8),
        }
    }
}

/// A deletion.
#[derive(Debug)]
pub struct DeleteWithoutStreamingEnabled<Binary: PGValue> {
    pub oid: i32,
    pub old_data_or_primary_key: Option<OldDataOrPrimaryKeyTupleData<Binary>>,
}

/// The view of a `DeleteWithoutStreamingEnabled`.
pub struct DeleteWithoutStreamingEnabledView<B: PGValue> {
    pub oid: i32,
    pub old_data_or_primary_key: Option<OldDataOrPrimaryKeyView<ValueView<B>>>,
}

impl<B: PGValue> View for DeleteWithoutStreamingEnabled<B> {
    type V = DeleteWithoutStreamingEnabledView<B>;

    open spec fn view(&self) -> DeleteWithoutStreamingEnabledView<B> {
        DeleteWithoutStreamingEnabledView {
            oid: self.oid,
            old_data_or_primary_key: old_data_view(self.old_data_or_primary_key),
        }
    }
}

impl<Binary: PGValue> DynamicSizeEvent for DeleteWithoutStreamingEnabled<Binary> {
    const MIN_BUFFER_SIZE: usize = 4;

    const EVENT_NAME: &'static str = "pgoutput::events::base::delete::DeleteWithoutStreamingEnabled";

    open spec fn spec_min_buffer_size() -> usize {
        4
    }

    open spec fn spec_event_name() -> Seq<char> {
        "pgoutput::events::base::delete::DeleteWithoutStreamingEnabled"@
    }

    proof fn lemma_constants() {
    }

    open spec fn spec_decodable(buffer: Seq<u8>) -> bool {
        buffer.len() >= 4 && old_data_or_primary_key_decodable::<Binary>(buffer.skip(4))
    }

    fn is_decodable(buffer: &[u8]) -> (r: bool) {
        if buffer.len() < 4 {
            return false;
        }
        let rest = &buffer[4..buffer.len()];
        assert(rest@ =~= buffer@.skip(4));
        old_data_or_primary_key_is_decodable::<Binary>(rest)
    }

    open spec fn spec_from_buffer(buffer: Seq<u8>) -> DeleteWithoutStreamingEnabledView<Binary> {
        DeleteWithoutStreamingEnabledView {
            oid: be_i32(buffer, 0),
            old_data_or_primary_key: old_data::<Binary>(buffer.skip(4)),
        }
    }

    fn from_buffer(buffer: &[u8]) -> (r: DeleteWithoutStreamingEnabled<Binary>) {
        DeleteWithoutStreamingEnabled {
            oid: read_i32(buffer, 0),
            old_data_or_primary_key: parse_delete_body::<Binary>(buffer, 4),
        }
    }
}

impl<Binary: PGValue> DeleteTrait<Binary> for StreamingValueTraitOn {
    type Type = DeleteWithStreamingEnabled<Binary>;
}

impl<Binary: PGValue> DeleteTrait<Binary> for StreamingValueTraitParallel {
    type Type = DeleteWithStreamingEnabled<Binary>;
}

impl<Binary: PGValue> DeleteTrait<Binary> for StreamingValueTraitOff {
    type Type = DeleteWithoutStreamingEnabled<Binary>;
}

/// A deletion sent inside a streamed transaction is the transaction id
/// followed by the deletion as it is sent outside one.
pub proof fn lemma_delete_streaming_layout<B: PGValue>(buffer: Seq<u8>)
    requires
        buffer.len() >= DeleteWithStreamingEnabled::<B>::spec_min_buffer_size(),
    ensures
        DeleteWithStreamingEnabled::<B>::spec_decodable(buffer)
            == DeleteWithoutStreamingEnabled::<B>::spec_decodable(buffer.skip(4)),
        DeleteWithStreamingEnabled::<B>::spec_from_buffer(buffer).transaction_id == be_i32(
            buffer,
            0,
        ),
        DeleteWithStreamingEnabled::<B>::spec_from_buffer(buffer).oid
            == DeleteWithoutStreamingEnabled::<B>::spec_from_buffer(buffer.skip(4)).oid,
        DeleteWithStreamingEnabled::<B>::spec_from_buffer(buffer).old_data_or_primary_key
            == DeleteWithoutStreamingEnabled::<B>::spec_from_buffer(
            buffer.skip(4),
        ).old_data_or_primary_key,
{
    assert(buffer.skip(4).skip(4) =~= buffer.skip(8));
    assert(be_i32(buffer.skip(4), 0) == be_i32(buffer, 4));
}

/// A deletion from relation `oid` whose body goes on with `K` and a row
/// decodes to that row as the old key; one that goes on with `O` and a row
/// decodes to that row as the old values of the deleted row.
pub proof fn lemma_delete_old_row_round_trip<B: PGValue>(
    oid: i32,
    kind: u8,
    row: Seq<u8>,
    rest: Seq<u8>,
)
    requires
        kind == 0x4b || kind == 0x4f,
        spec_tuple_data::<B>(row) is Some,
    ensures
        ({
            let b = i32_be_bytes(oid) + seq![kind] + row + rest;
            let old = spec_tuple_data::<B>(row).unwrap().0;
            let d = DeleteWithoutStreamingEnabled::<B>::spec_from_buffer(b);
            &&& b.len() >= DeleteWithoutStreamingEnabled::<B>::spec_min_buffer_size()
            &&& DeleteWithoutStreamingEnabled::<B>::spec_decodable(b)
            &&& d.oid == oid
            &&& kind == 0x4b ==> d.old_data_or_primary_key == Some(
                OldDataOrPrimaryKeyView::PrimaryKeyTupleData(old),
            )
            &&& kind == 0x4f ==> d.old_data_or_primary_key == Some(
                OldDataOrPrimaryKeyView::OldTupleData(old),
            )
        }),
{
    let b = i32_be_bytes(oid) + seq![kind] + row + rest;
    assert(b.subrange(0, 4) =~= i32_be_bytes(oid));
    lemma_be_i32_bytes(b, 0, oid);
    assert(b.skip(4).skip(1) =~= row + rest);
    lemma_tuple_data_prefix::<B>(row, rest);
}

/// A deletion from relation `oid` whose body ends after the oid, or goes on
/// with a byte other than `K` and `O`, carries no old row or key.
pub proof fn lemma_delete_without_old_row<B: PGValue>(oid: i32, body: Seq<u8>)
    requires
        body.len() > 0 ==> body[0] != 0x4b && body[0] != 0x4f,
    ensures
        ({
            let b = i32_be_bytes(oid) + body;
            let d = DeleteWithoutStreamingEnabled::<B>::spec_from_buffer(b);
            &&& b.len() >= DeleteWithoutStreamingEnabled::<B>::spec_min_buffer_size()
            &&& DeleteWithoutStreamingEnabled::<B>::spec_decodable(b)
            &&& d.oid == oid
            &&& d.old_data_or_primary_key is None
        }),
{
    let b = i32_be_bytes(oid) + body;
    assert(b.subrange(0, 4) =~= i32_be_bytes(oid));
    lemma_be_i32_bytes(b, 0, oid);
    assert(b.skip(4) =~= body);
}

/// The same inside a streamed transaction: after the transaction id and
/// the oid, `K` and a row decode to the old key and `O` and a row to the
/// old values.
pub proof fn lemma_streamed_delete_old_row_round_trip<B: PGValue>(
    transaction_id: i32,
    oid: i32,
    kind: u8,
    row: Seq<u8>,
    rest: Seq<u8>,
)
    requires
        kind == 0x4b || kind == 0x4f,
        spec_tuple_data::<B>(row) is Some,
    ensures
        ({
            let b = i32_be_bytes(transaction_id) + i32_be_bytes(oid) + seq![kind] + row + rest;
            let old = spec_tuple_data::<B>(row).unwrap().0;
            let d = DeleteWithStreamingEnabled::<B>::spec_from_buffer(b);
            &&& b.len() >= DeleteWithStreamingEnabled::<B>::spec_min_buffer_size()
            &&& DeleteWithStreamingEnabled::<B>::spec_decodable(b)
            &&& d.transaction_id == transaction_id
            &&& d.oid == oid
            &&& kind == 0x4b ==> d.old_data_or_primary_key == Some(
                OldDataOrPrimaryKeyView::PrimaryKeyTupleData(old),
            )
            &&& kind == 0x4f ==> d.old_data_or_primary_key == Some(
                OldDataOrPrimaryKeyView::OldTupleData(old),
            )
        }),
{
    let body = i32_be_bytes(oid) + seq![kind] + row + rest;
    let b = i32_be_bytes(transaction_id) + i32_be_bytes(oid) + seq![kind] + row + rest;
    lemma_delete_old_row_round_trip::<B>(oid, kind, row, rest);
    assert(b.subrange(0, 4) =~= i32_be_bytes(transaction_id));
    lemma_be_i32_bytes(b, 0, transaction_id);
    assert(b.skip(4) =~= body);
    lemma_delete_streaming_layout::<B>(b);
}

/// The same inside a streamed transaction, without an old row or key.
pub proof fn lemma_streamed_delete_without_old_row<B: PGValue>(
    transaction_id: i32,
    oid: i32,
    body: Seq<u8>,
)
    requires
        body.len() > 0 ==> body[0] != 0x4b && body[0] != 0x4f,
    ensures
        ({
            let b = i32_be_bytes(transaction_id) + i32_be_bytes(oid) + body;
            let d = DeleteWithStreamingEnabled::<B>::spec_from_buffer(b);
            &&& b.len() >= DeleteWithStreamingEnabled::<B>::spec_min_buffer_size()
            &&& DeleteWithStreamingEnabled::<B>::spec_decodable(b)
            &&& d.transaction_id == transaction_id
            &&& d.oid == oid
            &&& d.old_data_or_primary_key is None
        }),
{
    let b = i32_be_bytes(transaction_id) + i32_be_bytes(oid) + body;
    lemma_delete_without_old_row::<B>(oid, body);
    assert(b.subrange(0, 4) =~= i32_be_bytes(transaction_id));
    lemma_be_i32_bytes(b, 0, transaction_id);
    assert(b.skip(4) =~= i32_be_bytes(oid) + body);
    lemma_delete_streaming_layout::<B>(b);
}

} // verus!
