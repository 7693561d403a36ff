//! The update of a row.
use crate::options::{
    StreamingValueTrait, StreamingValueTraitOff, StreamingValueTraitOn,
    StreamingValueTraitParallel,
};
use crate::utils::DynamicSizeEvent;
use crate::wire::{be_i32, i32_be_bytes, lemma_be_i32_bytes, read_i32};
use super::tuple_data::{
    lemma_tuple_data_prefix, lemma_tuple_data_size, old_data_or_primary_key_decodable,
    old_data_view, parse_old_data_or_primary_key, parse_tuple_data, spec_old_data_or_primary_key,
    spec_tuple_data, tuple_data_size, tuple_data_view, ColumnView, OldDataOrPrimaryKeyTupleData,
    OldDataOrPrimaryKeyView, PGValue, TupleData, ValueView,
};
use vstd::prelude::*;

verus! {

/// Chooses the update message of a configuration.
pub trait UpdateTrait<Binary: PGValue>: StreamingValueTrait {
    type Type: DynamicSizeEvent + std::fmt::Debug;
}

/// How many bytes the optional old row or key at the start of `s` takes.
pub open spec fn old_data_size<B: PGValue>(s: Seq<u8>) -> int {
    match spec_old_data_or_primary_key::<B>(s) {
        Some((_, size)) => size,
        None => 0,
    }
}

/// The old row or key at the start of `s`, if any.
pub open spec fn old_data<B: PGValue>(s: Seq<u8>) -> Option<OldDataOrPrimaryKeyView<ValueView<B>>> {
    match spec_old_data_or_primary_key::<B>(s) {
        Some((v, _)) => Some(v),
        None => None,
    }
}

/// `s` holds an optional old row or key, one more byte, and a whole new row.
pub open spec fn update_body_decodable<B: PGValue>(s: Seq<u8>) -> bool {
    &&& old_data_or_primary_key_decodable::<B>(s)
    &&& 1 + old_data_size::<B>(s) <= s.len()
    &&& spec_tuple_data::<B>(s.skip(1 + old_data_size::<B>(s))) is Some
}

/// Whether `buffer` holds an optional old row or key, one more byte, and a
/// whole new row.
pub fn update_body_is_decodable<Binary: PGValue>(buffer: &[u8]) -> (r: bool)
    ensures
        r == update_body_decodable::<Binary>(buffer@),
{
    let old_size: usize = if buffer.len() > 0 && (buffer[0] == 0x4b || buffer[0] == 0x4f) {
        let rest = &buffer[1..buffer.len()];
        assert(rest@ =~= buffer@.skip(1));
        match tuple_data_size::<Binary>(rest) {
            Some(k) => {
                proof {
                    lemma_tuple_data_size::<Binary>(rest@);
                }
                k + 1
            },
            None => {
                return false;
            },
        }
    } else {
        0
    };
    assert(old_data_size::<Binary>(buffer@) == old_size);
    if old_size >= buffer.len() {
        return false;
    }
    let rest = &buffer[old_size + 1..buffer.len()];
    assert(rest@ =~= buffer@.skip(1 + old_size));
    tuple_data_size::<Binary>(rest).is_some()
}

/// The new row of an update whose body `s` is.
pub open spec fn update_new_data<B: PGValue>(s: Seq<u8>) -> Seq<ColumnView<B>> {
    spec_tuple_data::<B>(s.skip(1 + old_data_size::<B>(s))).unwrap().0
}

/// Decodes the optional old row or key at `buffer[start..]`, and the new row
/// after it and the byte that announces it.
fn parse_update_body<Binary: PGValue>(buffer: &[u8], start: usize) -> (r: (
    Option<OldDataOrPrimaryKeyTupleData<Binary>>,
    TupleData<Binary>,
))
    requires
        start <= buffer@.len(),
        update_body_decodable::<Binary>(buffer@.skip(start as int)),
    ensures
        old_data_view(r.0) == old_data::<Binary>(buffer@.skip(start as int)),
        tuple_data_view(r.1@) == update_new_data::<Binary>(buffer@.skip(start as int)),
{
    let ghost s = buffer@.skip(start as int);
    let body = &buffer[start..buffer.len()];
    assert(body@ =~= s);
    let (old_data_or_primary_key, read_bytes) = match parse_old_data_or_primary_key::<Binary>(
        body,
    ) {
        Some((value, r)) => (Some(value), r),
        None => (None, 0),
    };
    let data_start = start + 1 + read_bytes;
    let rest = &buffer[data_start..buffer.len()];
    assert(rest@ =~= s.skip(1 + old_data_size::<Binary>(s)));
    (old_data_or_primary_key, parse_tuple_data::<Binary>(rest).0)
}

/// An update, sent inside a streamed transaction.
#[derive(Debug)]
pub struct UpdateWithStreamingEnabled<Binary: PGValue> {
    pub transaction_id: i32,
    pub oid: i32,
    pub old_data_or_primary_key: Option<OldDataOrPrimaryKeyTupleData<Binary>>,
    pub data: TupleData<Binary>,
}

/// The view of an `UpdateWithStreamingEnabled`.
pub struct UpdateWithStreamingEnabledView<B: PGValue> {
    pub transaction_id: i32,
    pub oid: i32,
    pub old_data_or_primary_key: Option<OldDataOrPrimaryKeyView<ValueView<B>>>,
    pub data: Seq<ColumnView<B>>,
}

impl<B: PGValue> View for UpdateWithStreamingEnabled<B> {
    type V = UpdateWithStreamingEnabledView<B>;

    open spec fn view(&self) -> UpdateWithStreamingEnabledView<B> {
        UpdateWithStreamingEnabledView {
            transaction_id: self.transaction_id,
            oid: self.oid,
            old_data_or_primary_key: old_data_view(self.old_data_or_primary_key),
            data: tuple_data_view(self.data@),
        }
    }
}

impl<Binary: PGValue> DynamicSizeEvent for UpdateWithStreamingEnabled<Binary> {
    const MIN_BUFFER_SIZE: usize = 4 * 2 + 2;

    const EVENT_NAME: &'static str = "pgoutput::events::base::update::UpdateWithStreamingEnabled";

    open spec fn spec_min_buffer_size() -> usize {
        10
    }

    open spec fn spec_event_name() -> Seq<char> {
        "pgoutput::events::base::update::UpdateWithStreamingEnabled"@
    }

    proof fn lemma_constants() {
    }

    open spec fn spec_decodable(buffer: Seq<u8>) -> bool {
        buffer.len() >= 8 && update_body_decodable::<Binary>(buffer.skip(8))
    }

    fn is_decodable(buffer: &[u8]) -> (r: bool) {
        if buffer.len() < 8 {
            return false;
        }
        let rest = &buffer[8..buffer.len()];
        assert(rest@ =~= buffer@.skip(8));
        update_body_is_decodable::<Binary>(rest)
    }

    open spec fn spec_from_buffer(buffer: Seq<u8>) -> UpdateWithStreamingEnabledView<Binary> {
        UpdateWithStreamingEnabledView {
            transaction_id: be_i32(buffer, 0),
            oid: be_i32(buffer, 4),
            old_data_or_primary_key: old_data::<Binary>(buffer.skip(8)),
            data: update_new_data::<Binary>(buffer.skip(8)),
        }
    }

    fn from_buffer(buffer: &[u8]) -> (r: Self) {
        let transaction_id = read_i32(buffer, 0);
        let oid = read_i32(buffer, 4);
        let (old_data_or_primary_key, data) = parse_update_body::<Binary>(buffer, 8);
        UpdateWithStreamingEnabled { transaction_id, oid, old_data_or_primary_key, data }
    }
}

/// An update.
#[derive(Debug)]
pub struct UpdateWithoutStreamingEnabled<Binary: PGValue> {
    pub oid: i32,
    pub old_data_or_primary_key: Option<OldDataOrPrimaryKeyTupleData<Binary>>,
    pub data: TupleData<Binary>,
}

/// The view of an `UpdateWithoutStreamingEnabled`.
pub struct UpdateWithoutStreamingEnabledView<B: PGValue> {
    pub oid: i32,
    pub old_data_or_primary_key: Option<OldDataOrPrimaryKeyView<ValueView<B>>>,
    pub data: Seq<ColumnView<B>>,
}

impl<B: PGValue> View for UpdateWithoutStreamingEnabled<B> {
    type V = UpdateWithoutStreamingEnabledView<B>;

    open spec fn view(&self) -> UpdateWithoutStreamingEnabledView<B> {
        UpdateWithoutStreamingEnabledView {
            oid: self.oid,
            old_data_or_primary_key: old_data_view(self.old_data_or_primary_key),
            data: tuple_data_view(self.data@),
        }
    }
}

impl<Binary: PGValue> DynamicSizeEvent for UpdateWithoutStreamingEnabled<Binary> {
    const MIN_BUFFER_SIZE: usize = 4 + 2;

    const EVENT_NAME: &'static str = "pgoutput::events::base::update::UpdateWithoutStreamingEnabled";

    open spec fn spec_min_buffer_size() -> usize {
        6
    }

    open spec fn spec_event_name() -> Seq<char> {
        "pgoutput::events::base::update::UpdateWithoutStreamingEnabled"@
    }

    proof fn lemma_constants() {
    }

    open spec fn spec_decodable(buffer: Seq<u8>) -> bool {
        buffer.len() >= 4 && update_body_decodable::<Binary>(buffer.skip(4))
    }

    fn is_decodable(buffer: &[u8]) -> (r: bool) {
        if buffer.len() < 4 {
            return false;
        }
        let rest = &buffer[4..buffer.len()];
        assert(rest@ =~= buffer@.skip(4));
        update_body_is_decodable::<Binary>(rest)
    }

    open spec fn spec_from_buffer(buffer: Seq<u8>) -> UpdateWithoutStreamingEnabledView<Binary> {
        UpdateWithoutStreamingEnabledView {
            oid: be_i32(buffer, 0),
            old_data_or_primary_key: old_data::<Binary>(buffer.skip(4)),
            data: update_new_data::<Binary>(buffer.skip(4)),
        }
    }

    fn from_buffer(buffer: &[u8]) -> (r: Self) {
        let oid = read_i32(buffer, 0);
        let (old_data_or_primary_key, data) = parse_update_body::<Binary>(buffer, 4);
        UpdateWithoutStreamingEnabled { oid, old_data_or_primary_key, data }
    }
}

impl<Binary: PGValue> UpdateTrait<Binary> for StreamingValueTraitOn {
    type Type = UpdateWithStreamingEnabled<Binary>;
}

impl<Binary: PGValue> UpdateTrait<Binary> for StreamingValueTraitParallel {
    type Type = UpdateWithStreamingEnabled<Binary>;
}

impl<Binary: PGValue> UpdateTrait<Binary> for StreamingValueTraitOff {
    type Type = UpdateWithoutStreamingEnabled<Binary>;
}

/// An update sent inside a streamed transaction is the transaction id
/// followed by the update as it is sent outside one.
pub proof fn lemma_update_streaming_layout<B: PGValue>(buffer: Seq<u8>)
    requires
        buffer.len() >= UpdateWithStreamingEnabled::<B>::spec_min_buffer_size(),
    ensures
        UpdateWithStreamingEnabled::<B>::spec_decodable(buffer)
            == UpdateWithoutStreamingEnabled::<B>::spec_decodable(buffer.skip(4)),
        UpdateWithStreamingEnabled::<B>::spec_from_buffer(buffer).transaction_id == be_i32(
            buffer,
            0,
        ),
        UpdateWithStreamingEnabled::<B>::spec_from_buffer(buffer).oid
            == UpdateWithoutStreamingEnabled::<B>::spec_from_buffer(buffer.skip(4)).oid,
        UpdateWithStreamingEnabled::<B>::spec_from_buffer(buffer).old_data_or_primary_key
            == UpdateWithoutStreamingEnabled::<B>::spec_from_buffer(
            buffer.skip(4),
        ).old_data_or_primary_key,
        UpdateWithStreamingEnabled::<B>::spec_from_buffer(buffer).data
            == UpdateWithoutStreamingEnabled::<B>::spec_from_buffer(buffer.skip(4)).data,
{
    assert(buffer.skip(4).skip(4) =~= buffer.skip(8));
    assert(be_i32(buffer.skip(4), 0) == be_i32(buffer, 4));
}

/// Reading an update body made of a `K` or `O`, a whole row, a byte and a
/// new row.
proof fn lemma_update_body_with_old_row<B: PGValue>(
    kind: u8,
    old_row: Seq<u8>,
    tag: u8,
    new_row: Seq<u8>,
    rest: Seq<u8>,
)
    requires
        kind == 0x4b || kind == 0x4f,
        spec_tuple_data::<B>(old_row) matches Some((_, k)) && k == old_row.len(),
        spec_tuple_data::<B>(new_row) is Some,
    ensures
        ({
            let s = seq![kind] + old_row + seq![tag] + new_row + rest;
            &&& update_body_decodable::<B>(s)
            &&& kind == 0x4b ==> old_data::<B>(s) == Some(
                OldDataOrPrimaryKeyView::PrimaryKeyTupleData(
                    spec_tuple_data::<B>(old_row).unwrap().0,
                ),
            )
            &&& kind == 0x4f ==> old_data::<B>(s) == Some(
                OldDataOrPrimaryKeyView::OldTupleData(spec_tuple_data::<B>(old_row).unwrap().0),
            )
            &&& update_new_data::<B>(s) == spec_tuple_data::<B>(new_row).unwrap().0
        }),
{
    let s = seq![kind] + old_row + seq![tag] + new_row + rest;
    assert(s.skip(1) =~= old_row + (seq![tag] + new_row + rest));
    lemma_tuple_data_prefix::<B>(old_row, seq![tag] + new_row + rest);
    assert(old_data_size::<B>(s) == old_row.len() + 1);
    assert(s.skip(1 + old_data_size::<B>(s)) =~= new_row + rest);
    lemma_tuple_data_prefix::<B>(new_row, rest);
}

/// Reading an update body whose first byte is neither `K` nor `O`.
proof fn lemma_update_body_without_old_row<B: PGValue>(tag: u8, new_row: Seq<u8>, rest: Seq<u8>)
    requires
        tag != 0x4b && tag != 0x4f,
        spec_tuple_data::<B>(new_row) is Some,
    ensures
        ({
            let s = seq![tag] + new_row + rest;
            &&& update_body_decodable::<B>(s)
            &&& old_data::<B>(s) is None
            &&& update_new_data::<B>(s) == spec_tuple_data::<B>(new_row).unwrap().0
        }),
{
    let s = seq![tag] + new_row + rest;
    assert(s.skip(1) =~= new_row + rest);
    lemma_tuple_data_prefix::<B>(new_row, rest);
}

/// An update of relation `oid` whose body goes on with `K` and a row, or
/// `O` and a row, then `N` and the new row, decodes to that row as the old
/// key (`K`) or as the old values (`O`), and to the new row as its data.
pub proof fn lemma_update_old_row_round_trip<B: PGValue>(
    oid: i32,
    kind: u8,
    old_row: Seq<u8>,
    new_row: Seq<u8>,
    rest: Seq<u8>,
)
    requires
        kind == 0x4b || kind == 0x4f,
        spec_tuple_data::<B>(old_row) matches Some((_, k)) && k == old_row.len(),
        spec_tuple_data::<B>(new_row) is Some,
    ensures
        ({
            let b = i32_be_bytes(oid) + seq![kind] + old_row + seq![0x4eu8] + new_row + rest;
            let old = spec_tuple_data::<B>(old_row).unwrap().0;
            let u = UpdateWithoutStreamingEnabled::<B>::spec_from_buffer(b);
            &&& b.len() >= UpdateWithoutStreamingEnabled::<B>::spec_min_buffer_size()
            &&& UpdateWithoutStreamingEnabled::<B>::spec_decodable(b)
            &&& u.oid == oid
            &&& kind == 0x4b ==> u.old_data_or_primary_key == Some(
                OldDataOrPrimaryKeyView::PrimaryKeyTupleData(old),
            )
            &&& kind == 0x4f ==> u.old_data_or_primary_key == Some(
                OldDataOrPrimaryKeyView::OldTupleData(old),
            )
            &&& u.data == spec_tuple_data::<B>(new_row).unwrap().0
        }),
{
    let b = i32_be_bytes(oid) + seq![kind] + old_row + seq![0x4eu8] + new_row + rest;
    lemma_tuple_data_size::<B>(old_row);
    lemma_tuple_data_size::<B>(new_row);
    assert(b.subrange(0, 4) =~= i32_be_bytes(oid));
    lemma_be_i32_bytes(b, 0, oid);
    assert(b.skip(4) =~= seq![kind] + old_row + seq![0x4eu8] + new_row + rest);
    lemma_update_body_with_old_row::<B>(kind, old_row, 0x4e, new_row, rest);
}

/// An update of relation `oid` whose body goes on with a byte other than
/// `K` and `O` (`N` in the protocol) and the new row decodes to no old row
/// or key, and to the new row as its data.
pub proof fn lemma_update_new_row_round_trip<B: PGValue>(
    oid: i32,
    tag: u8,
    new_row: Seq<u8>,
    rest: Seq<u8>,
)
    requires
        tag != 0x4b && tag != 0x4f,
        spec_tuple_data::<B>(new_row) is Some,
    ensures
        ({
            let b = i32_be_bytes(oid) + seq![tag] + new_row + rest;
            let u = UpdateWithoutStreamingEnabled::<B>::spec_from_buffer(b);
            &&& b.len() >= UpdateWithoutStreamingEnabled::<B>::spec_min_buffer_size()
            &&& UpdateWithoutStreamingEnabled::<B>::spec_decodable(b)
            &&& u.oid == oid
            &&& u.old_data_or_primary_key is None
            &&& u.data == spec_tuple_data::<B>(new_row).unwrap().0
        }),
{
    let b = i32_be_bytes(oid) + seq![tag] + new_row + rest;
    lemma_tuple_data_size::<B>(new_row);
    assert(b.subrange(0, 4) =~= i32_be_bytes(oid));
    lemma_be_i32_bytes(b, 0, oid);
    assert(b.skip(4) =~= seq![tag] + new_row + rest);
    lemma_update_body_without_old_row::<B>(tag, new_row, rest);
}

/// The same inside a streamed transaction: after the transaction id
/// `transaction_id` and the oid, `K` and a row decode to the old key, `O`
/// and a row to the old values, and the row after `N` to the new data.
pub proof fn lemma_streamed_update_old_row_round_trip<B: PGValue>(
    transaction_id: i32,
    oid: i32,
    kind: u8,
    old_row: Seq<u8>,
    new_row: Seq<u8>,
    rest: Seq<u8>,
)
    requires
        kind == 0x4b || kind == 0x4f,
        spec_tuple_data::<B>(old_row) matches Some((_, k)) && k == old_row.len(),
        spec_tuple_data::<B>(new_row) is Some,
    ensures
        ({
            let b = i32_be_bytes(transaction_id) + i32_be_bytes(oid) + seq![kind] + old_row
                + seq![0x4eu8] + new_row + rest;
            let old = spec_tuple_data::<B>(old_row).unwrap().0;
            let u = UpdateWithStreamingEnabled::<B>::spec_from_buffer(b);
            &&& b.len() >= UpdateWithStreamingEnabled::<B>::spec_min_buffer_size()
            &&& UpdateWithStreamingEnabled::<B>::spec_decodable(b)
            &&& u.transaction_id == transaction_id
            &&& u.oid == oid
            &&& kind == 0x4b ==> u.old_data_or_primary_key == Some(
                OldDataOrPrimaryKeyView::PrimaryKeyTupleData(old),
            )
            &&& kind == 0x4f ==> u.old_data_or_primary_key == Some(
                OldDataOrPrimaryKeyView::OldTupleData(old),
            )
            &&& u.data == spec_tuple_data::<B>(new_row).unwrap().0
        }),
{
    let body = i32_be_bytes(oid) + seq![kind] + old_row + seq![0x4eu8] + new_row + rest;
    let b = i32_be_bytes(transaction_id) + i32_be_bytes(oid) + seq![kind] + old_row
        + seq![0x4eu8] + new_row + rest;
    lemma_update_old_row_round_trip::<B>(oid, kind, old_row, new_row, rest);
    assert(b.subrange(0, 4) =~= i32_be_bytes(transaction_id));
    lemma_be_i32_bytes(b, 0, transaction_id);
    assert(b.skip(4) =~= body);
    lemma_update_streaming_layout::<B>(b);
}

/// The same inside a streamed transaction, without an old row or key.
pub proof fn lemma_streamed_update_new_row_round_trip<B: PGValue>(
    transaction_id: i32,
    oid: i32,
    tag: u8,
    new_row: Seq<u8>,
    rest: Seq<u8>,
)
    requires
        tag != 0x4b && tag != 0x4f,
        spec_tuple_data::<B>(new_row) is Some,
    ensures
        ({
            let b = i32_be_bytes(transaction_id) + i32_be_bytes(oid) + seq![tag] + new_row + rest;
            let u = UpdateWithStreamingEnabled::<B>::spec_from_buffer(b);
            &&& b.len() >= UpdateWithStreamingEnabled::<B>::spec_min_buffer_size()
            &&& UpdateWithStreamingEnabled::<B>::spec_decodable(b)
            &&& u.transaction_id == transaction_id
            &&& u.oid == oid
            &&& u.old_data_or_primary_key is None
            &&& u.data == spec_tuple_data::<B>(new_row).unwrap().0
        }),
{
    let body = i32_be_bytes(oid) + seq![tag] + new_row + rest;
    let b = i32_be_bytes(transaction_id) + i32_be_bytes(oid) + seq![tag] + new_row + rest;
    lemma_update_new_row_round_trip::<B>(oid, tag, new_row, rest);
    assert(b.subrange(0, 4) =~= i32_be_bytes(transaction_id));
    lemma_be_i32_bytes(b, 0, transaction_id);
    assert(b.skip(4) =~= body);
    lemma_update_streaming_layout::<B>(b);
}

} // verus!
