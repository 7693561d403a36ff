//! The insertion of a row.
use crate::options::{StreamingValueTraitOff, StreamingValueTraitOn, StreamingValueTraitParallel};
use crate::utils::DynamicSizeEvent;
use crate::wire::{be_i32, i32_be_bytes, lemma_be_i32_bytes, read_i32};
use super::tuple_data::{
    lemma_tuple_data_prefix, lemma_tuple_data_size, parse_tuple_data, spec_tuple_data,
    tuple_data_size, tuple_data_view, ColumnView, PGValue,
    TupleData,
};
use vstd::prelude::*;

verus! {

/// Chooses the insert message of a configuration.
pub trait InsertTrait<Binary> {
    type Type: DynamicSizeEvent + std::fmt::Debug;
}

/// An insertion, sent inside a streamed transaction.
#[derive(Debug)]
pub struct InsertWithStreamingEnabled<Binary: PGValue> {
    pub transaction_id: i32,
    pub oid: i32,
    pub data: TupleData<Binary>,
}

/// The view of an `InsertWithStreamingEnabled`.
pub struct InsertWithStreamingEnabledView<B: PGValue> {
    pub transaction_id: i32,
    pub oid: i32,
    pub data: Seq<ColumnView<B>>,
}

impl<B: PGValue> View for InsertWithStreamingEnabled<B> {
    type V = InsertWithStreamingEnabledView<B>;

    open spec fn view(&self) -> InsertWithStreamingEnabledView<B> {
        InsertWithStreamingEnabledView {
            transaction_id: self.transaction_id,
            oid: self.oid,
            data: tuple_data_view(self.data@),
        }
    }
}

impl<Binary: PGValue> DynamicSizeEvent for InsertWithStreamingEnabled<Binary> {
    const MIN_BUFFER_SIZE: usize = 4 * 2 + 2;

    const EVENT_NAME: &'static str = "pgoutput::events::base::insert::InsertWithStreamingEnabled";

    open spec fn spec_min_buffer_size() -> usize {
        10
    }

    open spec fn spec_event_name() -> Seq<char> {
        "pgoutput::events::base::insert::InsertWithStreamingEnabled"@
    }

    proof fn lemma_constants() {
    }

    open spec fn spec_decodable(buffer: Seq<u8>) -> bool {
        buffer.len() >= 9 && spec_tuple_data::<Binary>(buffer.skip(9)) is Some
    }

    fn is_decodable(buffer: &[u8]) -> (r: bool) {
        if buffer.len() < 9 {
            return false;
        }
        let rest = &buffer[9..buffer.len()];
        assert(rest@ =~= buffer@.skip(9));
        tuple_data_size::<Binary>(rest).is_some()
    }

    open spec fn spec_from_buffer(buffer: Seq<u8>) -> InsertWithStreamingEnabledView<Binary> {
        InsertWithStreamingEnabledView {
            transaction_id: be_i32(buffer, 0),
            oid: be_i32(buffer, 4),
            data: spec_tuple_data::<Binary>(buffer.skip(9)).unwrap().0,
        }
    }

    fn from_buffer(buffer: &[u8]) -> (r: InsertWithStreamingEnabled<Binary>) {
        let rest = &buffer[9..buffer.len()];
        assert(rest@ =~= buffer@.skip(9));
        InsertWithStreamingEnabled {
            transaction_id: read_i32(buffer, 0),
            oid: read_i32(buffer, 4),
            data: parse_tuple_data::<Binary>(rest).0,
        }
    }
}

/// An insertion.
#[derive(Debug)]
pub struct InsertWithoutStreamingEnabled<Binary: PGValue> {
    pub oid: i32,
    pub data: TupleData<Binary>,
}

/// The view of an `InsertWithoutStreamingEnabled`.
pub struct InsertWithoutStreamingEnabledView<B: PGValue> {
    pub oid: i32,
    pub data: Seq<ColumnView<B>>,
}

impl<B: PGValue> View for InsertWithoutStreamingEnabled<B> {
    type V = InsertWithoutStreamingEnabledView<B>;

    open spec fn view(&self) -> InsertWithoutStreamingEnabledView<B> {
        InsertWithoutStreamingEnabledView { oid: self.oid, data: tuple_data_view(self.data@) }
    }
}

impl<Binary: PGValue> DynamicSizeEvent for InsertWithoutStreamingEnabled<Binary> {
    const MIN_BUFFER_SIZE: usize = 4 + 2;

    const EVENT_NAME: &'static str = "pgoutput::events::base::insert::InsertWithoutStreamingEnabled";

    open spec fn spec_min_buffer_size() -> usize {
        6
    }

    open spec fn spec_event_name() -> Seq<char> {
        "pgoutput::events::base::insert::InsertWithoutStreamingEnabled"@
    }

    proof fn lemma_constants() {
    }

    open spec fn spec_decodable(buffer: Seq<u8>) -> bool {
        buffer.len() >= 5 && spec_tuple_data::<Binary>(buffer.skip(5)) is Some
    }

    fn is_decodable(buffer: &[u8]) -> (r: bool) {
        if buffer.len() < 5 {
            return false;
        }
        let rest = &buffer[5..buffer.len()];
        assert(rest@ =~= buffer@.skip(5));
        tuple_data_size::<Binary>(rest).is_some()
    }

    open spec fn spec_from_buffer(buffer: Seq<u8>) -> InsertWithoutStreamingEnabledView<Binary> {
        InsertWithoutStreamingEnabledView {
            oid: be_i32(buffer, 0),
            data: spec_tuple_data::<Binary>(buffer.skip(5)).unwrap().0,
        }
    }

    fn from_buffer(buffer: &[u8]) -> (r: InsertWithoutStreamingEnabled<Binary>) {
        let rest = &buffer[5..buffer.len()];
        assert(rest@ =~= buffer@.skip(5));
        InsertWithoutStreamingEnabled {
            oid: read_i32(buffer, 0),
            data: parse_tuple_data::<Binary>(rest).0,
        }
    }
}

impl<Binary: PGValue> InsertTrait<Binary> for StreamingValueTraitOn {
    type Type = InsertWithStreamingEnabled<Binary>;
}

impl<Binary: PGValue> InsertTrait<Binary> for StreamingValueTraitParallel {
    type Type = InsertWithStreamingEnabled<Binary>;
}

impl<Binary: PGValue> InsertTrait<Binary> for StreamingValueTraitOff {
    type Type = InsertWithoutStreamingEnabled<Binary>;
}

/// An insertion sent inside a streamed transaction is the transaction id
/// followed by the insertion as it is sent outside one.
pub proof fn lemma_insert_streaming_layout<B: PGValue>(buffer: Seq<u8>)
    requires
        buffer.len() >= InsertWithStreamingEnabled::<B>::spec_min_buffer_size(),
    ensures
        InsertWithStreamingEnabled::<B>::spec_decodable(buffer)
            == InsertWithoutStreamingEnabled::<B>::spec_decodable(buffer.skip(4)),
        InsertWithStreamingEnabled::<B>::spec_from_buffer(buffer).transaction_id == be_i32(
            buffer,
            0,
        ),
        InsertWithStreamingEnabled::<B>::spec_from_buffer(buffer).oid
            == InsertWithoutStreamingEnabled::<B>::spec_from_buffer(buffer.skip(4)).oid,
        InsertWithStreamingEnabled::<B>::spec_from_buffer(buffer).data
            == InsertWithoutStreamingEnabled::<B>::spec_from_buffer(buffer.skip(4)).data,
{
    assert(buffer.skip(4).skip(5) =~= buffer.skip(9));
    assert(be_i32(buffer.skip(4), 0) == be_i32(buffer, 4));
}

/// An insertion into relation `oid` whose body goes on with a byte (`N` in
/// the protocol) and a row decodes to that row as its data, whatever
/// follows the row.
pub proof fn lemma_insert_round_trip<B: PGValue>(oid: i32, tag: u8, row: Seq<u8>, rest: Seq<u8>)
    requires
        spec_tuple_data::<B>(row) is Some,
    ensures
        ({
            let b = i32_be_bytes(oid) + seq![tag] + row + rest;
            let i = InsertWithoutStreamingEnabled::<B>::spec_from_buffer(b);
            &&& b.len() >= InsertWithoutStreamingEnabled::<B>::spec_min_buffer_size()
            &&& InsertWithoutStreamingEnabled::<B>::spec_decodable(b)
            &&& i.oid == oid
            &&& i.data == spec_tuple_data::<B>(row).unwrap().0
        }),
{
    let b = i32_be_bytes(oid) + seq![tag] + row + rest;
    lemma_tuple_data_size::<B>(row);
    assert(b.subrange(0, 4) =~= i32_be_bytes(oid));
    lemma_be_i32_bytes(b, 0, oid);
    assert(b.skip(5) =~= row + rest);
    lemma_tuple_data_prefix::<B>(row, rest);
}

/// The same inside a streamed transaction, after the transaction id.
pub proof fn lemma_streamed_insert_round_trip<B: PGValue>(
    transaction_id: i32,
    oid: i32,
    tag: u8,
    row: Seq<u8>,
    rest: Seq<u8>,
)
    requires
        spec_tuple_data::<B>(row) is Some,
    ensures
        ({
            let b = i32_be_bytes(transaction_id) + i32_be_bytes(oid) + seq![tag] + row + rest;
            let i = InsertWithStreamingEnabled::<B>::spec_from_buffer(b);
            &&& b.len() >= InsertWithStreamingEnabled::<B>::spec_min_buffer_size()
            &&& InsertWithStreamingEnabled::<B>::spec_decodable(b)
            &&& i.transaction_id == transaction_id
            &&& i.oid == oid
            &&& i.data == spec_tuple_data::<B>(row).unwrap().0
        }),
{
    let b = i32_be_bytes(transaction_id) + i32_be_bytes(oid) + seq![tag] + row + rest;
    lemma_insert_round_trip::<B>(oid, tag, row, rest);
    assert(b.subrange(0, 4) =~= i32_be_bytes(transaction_id));
    lemma_be_i32_bytes(b, 0, transaction_id);
    assert(b.skip(4) =~= i32_be_bytes(oid) + seq![tag] + row + rest);
    lemma_insert_streaming_layout::<B>(b);
}

} // verus!
