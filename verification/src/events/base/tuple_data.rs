//! The values of a row: `TupleData` and its columns.
use crate::options::{BinaryValueTrait, BinaryValueTraitOff, BinaryValueTraitOn};
use crate::wire::{
    be_i16, be_i32, i16_be_bytes, i32_be_bytes, lemma_be_i16_bytes, lemma_be_i32_bytes, lossy_text,
    lossy_utf8_string, read_i16, read_i32,
};
use vstd::prelude::*;
use vstd::utf8::{decode_utf8, valid_utf8};

verus! {

/// A column whose value is NULL.
#[derive(Debug, Clone, Copy, PartialEq, Eq)]
pub struct PGNull;

/// A TOASTed column whose value did not change and is not sent.
#[derive(Debug, Clone, Copy, PartialEq, Eq)]
pub struct PGUnchangedToastedValue;

/// How the value of a column is decoded, given the `binary` option.
pub trait PGValue: BinaryValueTrait {
    type Type: View + std::fmt::Debug;

    /// The column kind byte that announces a value in this format.
    spec fn spec_accepts(c: u8) -> bool;

    /// The value that `bytes` encode.
    spec fn spec_value(bytes: Seq<u8>) -> <Self::Type as View>::V;

    /// Whether `c` announces a value in this format.
    fn accepts(c: u8) -> (r: bool)
        ensures
            r == Self::spec_accepts(c),
    ;

    /// Decodes the value of a column of kind `c`; the second part of the
    /// result counts the bytes of the column, its five header bytes included.
    fn parse(c: u8, value_buffer: &[u8]) -> (r: (Self::Type, usize))
        requires
            Self::spec_accepts(c),
            value_buffer@.len() + 5 <= usize::MAX,
        ensures
            r.0@ == Self::spec_value(value_buffer@),
            r.1 == value_buffer@.len() + 5,
    ;
}

impl PGValue for BinaryValueTraitOn {
    type Type = Vec<u8>;

    open spec fn spec_accepts(c: u8) -> bool {
        c == 0x62 /* 'b' */
    }

    open spec fn spec_value(bytes: Seq<u8>) -> Seq<u8> {
        bytes
    }

    fn accepts(c: u8) -> (r: bool) {
        c == 0x62
    }

    fn parse(c: u8, value_buffer: &[u8]) -> (r: (Self::Type, usize)) {
        (vstd::slice::slice_to_vec(value_buffer), 5 + value_buffer.len())
    }
}

impl PGValue for BinaryValueTraitOff {
    type Type = String;

    open spec fn spec_accepts(c: u8) -> bool {
        c == 0x74 /* 't' */
    }

    open spec fn spec_value(bytes: Seq<u8>) -> Seq<char> {
        lossy_text(bytes)
    }

    fn accepts(c: u8) -> (r: bool) {
        c == 0x74
    }

    fn parse(c: u8, value_buffer: &[u8]) -> (r: (Self::Type, usize)) {
        assert(value_buffer@.subrange(0, value_buffer@.len() as int) =~= value_buffer@);
        (lossy_utf8_string(value_buffer, 0, value_buffer.len()), 5 + value_buffer.len())
    }
}

/// What the view of a value decoded in the format `B` is.
pub type ValueView<B> = <<B as PGValue>::Type as View>::V;

/// One column of a row.
#[derive(Debug)]
pub enum TupleDataColumn<T: PGValue> {
    PGNull(PGNull),
    PGUnchangedToastedValue(PGUnchangedToastedValue),
    Value(T::Type),
}

/// The view of a `TupleDataColumn`.
pub enum TupleDataColumnView<V> {
    PGNull,
    PGUnchangedToastedValue,
    Value(V),
}

/// The view of a column whose values are decoded in the format `B`.
pub type ColumnView<B> = TupleDataColumnView<ValueView<B>>;

impl<T: PGValue> View for TupleDataColumn<T> {
    type V = ColumnView<T>;

    open spec fn view(&self) -> ColumnView<T> {
        match self {
            TupleDataColumn::PGNull(_) => TupleDataColumnView::PGNull,
            TupleDataColumn::PGUnchangedToastedValue(_) => TupleDataColumnView::PGUnchangedToastedValue,
            TupleDataColumn::Value(v) => TupleDataColumnView::Value(v@),
        }
    }
}

/// The columns of a row.
pub type TupleData<Binary> = Vec<TupleDataColumn<Binary>>;

/// The views of the columns of a row.
pub open spec fn tuple_data_view<B: PGValue>(data: Seq<TupleDataColumn<B>>) -> Seq<ColumnView<B>> {
    data.map_values(|c: TupleDataColumn<B>| c@)
}

/// The column that `s` starts with, and how many bytes it takes; `None`
/// where `s` does not hold a whole column of a kind that `B` decodes.
pub open spec fn spec_tuple_column<B: PGValue>(s: Seq<u8>) -> Option<(ColumnView<B>, int)> {
    if s.len() == 0 {
        None
    } else if s[0] == 0x6e /* 'n' */ {
        Some((TupleDataColumnView::PGNull, 1))
    } else if s[0] == 0x75 /* 'u' */ {
        Some((TupleDataColumnView::PGUnchangedToastedValue, 1))
    } else if s.len() < 5 {
        None
    } else {
        let n = be_i32(s, 1) as int;
        if n < 0 || 5 + n > s.len() || 5 + n > usize::MAX || !B::spec_accepts(s[0]) {
            None
        } else {
            Some((TupleDataColumnView::Value(B::spec_value(s.subrange(5, 5 + n))), 5 + n))
        }
    }
}

/// A column whose kind byte `c` announces a value in the format `B`, then
/// the big-endian length of `v`, then the bytes of `v`, decodes to the value
/// of `v` and takes `5 + v.len()` bytes, for every length, zero included;
/// what follows the column does not change it.
pub proof fn lemma_tuple_column_value_encoding<B: PGValue>(c: u8, v: Seq<u8>, rest: Seq<u8>)
    requires
        B::spec_accepts(c),
        c != 0x6e,
        c != 0x75,
        v.len() <= i32::MAX,
    ensures
        spec_tuple_column::<B>(seq![c] + i32_be_bytes(v.len() as i32) + v + rest) == Some(
            (TupleDataColumnView::Value(B::spec_value(v)), 5 + v.len() as int),
        ),
{
    let s = seq![c] + i32_be_bytes(v.len() as i32) + v + rest;
    assert(s.subrange(1, 5) =~= i32_be_bytes(v.len() as i32));
    lemma_be_i32_bytes(s, 1, v.len() as i32);
    assert(s.subrange(5, 5 + v.len() as int) =~= v);
}

/// In text format (`t`), a value of well-formed UTF-8 decodes to the text
/// that it encodes, and the empty value to the empty text; in binary format
/// (`b`), a value decodes to its bytes.
pub proof fn lemma_tuple_column_formats(v: Seq<u8>, rest: Seq<u8>)
    requires
        v.len() <= i32::MAX,
    ensures
        valid_utf8(v) ==> spec_tuple_column::<BinaryValueTraitOff>(
            seq![0x74u8] + i32_be_bytes(v.len() as i32) + v + rest,
        ) == Some((TupleDataColumnView::Value(decode_utf8(v)), 5 + v.len() as int)),
        v.len() == 0 ==> spec_tuple_column::<BinaryValueTraitOff>(
            seq![0x74u8] + i32_be_bytes(0) + v + rest,
        ) == Some((TupleDataColumnView::Value(Seq::<char>::empty()), 5int)),
        spec_tuple_column::<BinaryValueTraitOn>(
            seq![0x62u8] + i32_be_bytes(v.len() as i32) + v + rest,
        ) == Some((TupleDataColumnView::Value(v), 5 + v.len() as int)),
{
    lemma_tuple_column_value_encoding::<BinaryValueTraitOff>(0x74, v, rest);
    lemma_tuple_column_value_encoding::<BinaryValueTraitOn>(0x62, v, rest);
    if v.len() == 0 {
        assert(valid_utf8(v));
        assert(decode_utf8(v) =~= Seq::<char>::empty());
    }
}

/// A column of kind `n` is NULL and one of kind `u` an unchanged TOASTed
/// value, each one byte long; no other kind byte gives either, and a value
/// comes only from a kind byte that announces one in the format `B`.
pub proof fn lemma_tuple_column_kinds<B: PGValue>(s: Seq<u8>)
    ensures
        s.len() > 0 && s[0] == 0x6e ==> spec_tuple_column::<B>(s) == Some(
            (TupleDataColumnView::<ValueView<B>>::PGNull, 1int),
        ),
        s.len() > 0 && s[0] == 0x75 ==> spec_tuple_column::<B>(s) == Some(
            (TupleDataColumnView::<ValueView<B>>::PGUnchangedToastedValue, 1int),
        ),
        spec_tuple_column::<B>(s) matches Some((TupleDataColumnView::PGNull, _)) ==> s[0] == 0x6e,
        spec_tuple_column::<B>(s) matches Some((TupleDataColumnView::PGUnchangedToastedValue, _))
            ==> s[0] == 0x75,
        spec_tuple_column::<B>(s) matches Some((TupleDataColumnView::Value(_), _)) ==> s[0]
            != 0x6e && s[0] != 0x75 && B::spec_accepts(s[0]),
{
}

/// The first `n` columns of the row whose column count `s` starts with, and
/// the position after them.
pub open spec fn spec_tuple_columns<B: PGValue>(s: Seq<u8>, n: nat) -> Option<
    (Seq<ColumnView<B>>, int),
>
    decreases n,
{
    if n == 0 {
        Some((Seq::empty(), 2))
    } else {
        match spec_tuple_columns::<B>(s, (n - 1) as nat) {
            Some((columns, pos)) => match spec_tuple_column::<B>(s.skip(pos)) {
                Some((column, size)) => Some((columns.push(column), pos + size)),
                None => None,
            },
            None => None,
        }
    }
}

/// The row that `s` starts with (a 16-bit column count, then the columns),
/// and how many bytes it takes; `None` where `s` does not hold it whole.
pub open spec fn spec_tuple_data<B: PGValue>(s: Seq<u8>) -> Option<(Seq<ColumnView<B>>, int)> {
    if s.len() < 2 {
        None
    } else if be_i16(s, 0) <= 0 {
        Some((Seq::empty(), 2))
    } else {
        spec_tuple_columns::<B>(s, be_i16(s, 0) as nat)
    }
}

/// A column takes at least one byte and no more than `s` holds.
pub proof fn lemma_tuple_column_size<B: PGValue>(s: Seq<u8>)
    ensures
        spec_tuple_column::<B>(s) matches Some((_, k)) ==> 1 <= k <= s.len(),
{
}

/// The columns read so far end between the column count and the end of `s`;
/// where `n` columns are read, so are fewer.
pub proof fn lemma_tuple_columns_bounds<B: PGValue>(s: Seq<u8>, n: nat, m: nat)
    requires
        s.len() >= 2,
        m <= n,
        spec_tuple_columns::<B>(s, n) is Some,
    ensures
        spec_tuple_columns::<B>(s, m) is Some,
        spec_tuple_columns::<B>(s, n) matches Some((cols, pos)) ==> 2 <= pos <= s.len()
            && cols.len() == n,
    decreases n,
{
    if n > 0 {
        lemma_tuple_columns_bounds::<B>(s, (n - 1) as nat, if m < n {
            m
        } else {
            (n - 1) as nat
        });
        let (cols, pos) = spec_tuple_columns::<B>(s, (n - 1) as nat).unwrap();
        lemma_tuple_column_size::<B>(s.skip(pos));
    }
}

/// Where the column after the first `i` columns of the row at the start of
/// `s` starts.
pub open spec fn tuple_column_position<B: PGValue>(s: Seq<u8>, i: nat) -> int {
    spec_tuple_columns::<B>(s, i).unwrap().1
}

/// The first `m` columns are the first `m` of the first `n`.
pub proof fn lemma_tuple_columns_take<B: PGValue>(s: Seq<u8>, n: nat, m: nat)
    requires
        s.len() >= 2,
        m <= n,
        spec_tuple_columns::<B>(s, n) is Some,
    ensures
        spec_tuple_columns::<B>(s, m).unwrap().0 == spec_tuple_columns::<B>(s, n).unwrap().0.take(
            m as int,
        ),
    decreases n,
{
    lemma_tuple_columns_bounds::<B>(s, n, m);
    if m < n {
        lemma_tuple_columns_bounds::<B>(s, n, (n - 1) as nat);
        lemma_tuple_columns_take::<B>(s, (n - 1) as nat, m);
        lemma_tuple_columns_bounds::<B>(s, (n - 1) as nat, m);
        let prev = spec_tuple_columns::<B>(s, (n - 1) as nat).unwrap().0;
        let all = spec_tuple_columns::<B>(s, n).unwrap().0;
        assert(all.take(m as int) =~= prev.take(m as int));
    } else {
        let all = spec_tuple_columns::<B>(s, n).unwrap().0;
        assert(all.take(m as int) =~= all);
    }
}

/// A row is its columns one after the other: with `k` the column count,
/// the row has `k` columns, the first starts right after the count, each
/// is the column decoded where the one before ended, and the row ends where
/// the last column ends, within `s`.
pub proof fn lemma_tuple_data_columns<B: PGValue>(s: Seq<u8>)
    requires
        spec_tuple_data::<B>(s) is Some,
        be_i16(s, 0) > 0,
    ensures
        ({
            let (columns, size) = spec_tuple_data::<B>(s).unwrap();
            let k = be_i16(s, 0) as nat;
            &&& columns.len() == k
            &&& tuple_column_position::<B>(s, 0) == 2
            &&& tuple_column_position::<B>(s, k) == size
            &&& size <= s.len()
            &&& forall|i: nat|
                i < k ==> spec_tuple_column::<B>(s.skip(#[trigger] tuple_column_position::<B>(s, i)))
                    == Some(
                    (
                        columns[i as int],
                        tuple_column_position::<B>(s, i + 1) - tuple_column_position::<B>(s, i),
                    ),
                )
        }),
{
    let k = be_i16(s, 0) as nat;
    lemma_tuple_columns_bounds::<B>(s, k, 0);
    let columns = spec_tuple_columns::<B>(s, k).unwrap().0;
    assert forall|i: nat| i < k implies spec_tuple_column::<B>(
        s.skip(#[trigger] tuple_column_position::<B>(s, i)),
    ) == Some(
        (columns[i as int], tuple_column_position::<B>(s, i + 1) - tuple_column_position::<B>(s, i)),
    ) by {
        lemma_tuple_columns_bounds::<B>(s, k, i + 1);
        lemma_tuple_columns_bounds::<B>(s, k, i);
        lemma_tuple_columns_take::<B>(s, k, i + 1);
        let next = spec_tuple_columns::<B>(s, i + 1).unwrap().0;
        assert(next[i as int] == columns.take((i + 1) as int)[i as int]);
        let (before, pos) = spec_tuple_columns::<B>(s, i).unwrap();
        assert(((i + 1) - 1) as nat == i);
        let (c, size) = spec_tuple_column::<B>(s.skip(pos)).unwrap();
        assert(spec_tuple_columns::<B>(s, i + 1) == Some((before.push(c), pos + size)));
        lemma_tuple_columns_bounds::<B>(s, i, i);
        assert(before.len() == i);
        assert(next[i as int] == c);
    }
}

/// How many bytes the column that `buffer` starts with takes; `None` where
/// `buffer` does not hold it whole.
pub fn tuple_column_size<Binary: PGValue>(buffer: &[u8]) -> (r: Option<usize>)
    ensures
        match r {
            Some(k) => spec_tuple_column::<Binary>(buffer@) matches Some((_, size)) && size == k,
            None => spec_tuple_column::<Binary>(buffer@) is None,
        },
{
    if buffer.len() == 0 {
        return None;
    }
    let c = buffer[0];
    if c == 0x6e || c == 0x75 {
        return Some(1);
    }
    if buffer.len() < 5 {
        return None;
    }
    let value_size = read_i32(buffer, 1);
    if value_size < 0 || value_size as usize > buffer.len() - 5 || !Binary::accepts(c) {
        return None;
    }
    Some(5 + value_size as usize)
}

/// How many bytes the row that `buffer` starts with takes; `None` where
/// `buffer` does not hold it whole.
pub fn tuple_data_size<Binary: PGValue>(buffer: &[u8]) -> (r: Option<usize>)
    ensures
        match r {
            Some(k) => spec_tuple_data::<Binary>(buffer@) matches Some((_, size)) && size == k,
            None => spec_tuple_data::<Binary>(buffer@) is None,
        },
{
    if buffer.len() < 2 {
        return None;
    }
    let column_size = read_i16(buffer, 0);
    if column_size <= 0 {
        return Some(2);
    }
    let mut buffer_position: usize = 2;
    let mut i: i16 = 0;
    while i < column_size
        invariant
            column_size == be_i16(buffer@, 0),
            column_size > 0,
            buffer@.len() >= 2,
            0 <= i <= column_size,
            spec_tuple_columns::<Binary>(buffer@, i as nat) matches Some((_, pos)) && pos
                == buffer_position,
            buffer_position <= buffer@.len(),
        decreases column_size - i,
    {
        let rest = &buffer[buffer_position..buffer.len()];
        assert(rest@ =~= buffer@.skip(buffer_position as int));
        match tuple_column_size::<Binary>(rest) {
            Some(read_bytes) => {
                proof {
                    lemma_tuple_column_size::<Binary>(rest@);
                }
                buffer_position = buffer_position + read_bytes;
            },
            None => {
                proof {
                    if spec_tuple_columns::<Binary>(buffer@, column_size as nat) is Some {
                        lemma_tuple_columns_bounds::<Binary>(
                            buffer@,
                            column_size as nat,
                            (i + 1) as nat,
                        );
                    }
                }
                return None;
            },
        }
        i = i + 1;
    }
    Some(buffer_position)
}

/// Decodes the column that `buffer` starts with; the second part of the
/// result counts its bytes.
pub fn parse_tuple_column<Binary: PGValue>(buffer: &[u8]) -> (r: (TupleDataColumn<Binary>, usize))
    requires
        spec_tuple_column::<Binary>(buffer@) is Some,
    ensures
        spec_tuple_column::<Binary>(buffer@) == Some((r.0@, r.1 as int)),
{
    let c = buffer[0];
    if c == 0x6e /* 'n' */ {
        return (TupleDataColumn::PGNull(PGNull), 1);
    }
    if c == 0x75 /* 'u' */ {
        return (TupleDataColumn::PGUnchangedToastedValue(PGUnchangedToastedValue), 1);
    }
    let value_size = read_i32(buffer, 1);
    let end = 5 + value_size as usize;
    let value_buffer = &buffer[5..end];
    let (value, read_bytes) = Binary::parse(c, value_buffer);
    (TupleDataColumn::Value(value), read_bytes)
}

/// Decodes the row that `buffer` starts with; the second part of the result
/// counts its bytes.
pub fn parse_tuple_data<Binary: PGValue>(buffer: &[u8]) -> (r: (TupleData<Binary>, usize))
    requires
        spec_tuple_data::<Binary>(buffer@) is Some,
    ensures
        spec_tuple_data::<Binary>(buffer@) == Some((tuple_data_view(r.0@), r.1 as int)),
{
    let mut data: TupleData<Binary> = Vec::new();
    let column_size = read_i16(buffer, 0);
    let mut buffer_position: usize = 2;
    let mut i: i16 = 0;
    proof {
        if column_size > 0 {
            lemma_tuple_columns_bounds::<Binary>(buffer@, column_size as nat, 0);
        }
    }
    while i < column_size
        invariant
            column_size == be_i16(buffer@, 0),
            buffer@.len() >= 2,
            0 <= i,
            column_size > 0 ==> i <= column_size,
            column_size <= 0 ==> i == 0,
            column_size > 0 ==> spec_tuple_columns::<Binary>(buffer@, column_size as nat) is Some,
            spec_tuple_columns::<Binary>(buffer@, i as nat) == Some(
                (tuple_data_view(data@), buffer_position as int),
            ),
            buffer_position <= buffer@.len(),
        decreases column_size - i,
    {
        proof {
            lemma_tuple_columns_bounds::<Binary>(buffer@, column_size as nat, (i + 1) as nat);
        }
        let rest = &buffer[buffer_position..buffer.len()];
        assert(rest@ =~= buffer@.skip(buffer_position as int));
        let (column, read_bytes) = parse_tuple_column::<Binary>(rest);
        proof {
            lemma_tuple_column_size::<Binary>(rest@);
        }
        let ghost old_data = data@;
        data.push(column);
        assert(tuple_data_view(data@) =~= tuple_data_view(old_data).push(column@));
        buffer_position = buffer_position + read_bytes;
        i = i + 1;
    }
    (data, buffer_position)
}

/// The old values of a row, or of its key columns.
#[derive(Debug)]
pub enum OldDataOrPrimaryKeyTupleData<Binary: PGValue> {
    OldTupleData(OldTupleData<Binary>),
    PrimaryKeyTupleData(PrimaryKeyTupleData<Binary>),
}

/// The old values of a row.
pub type OldTupleData<Binary> = TupleData<Binary>;

/// The values of the key columns of a row.
pub type PrimaryKeyTupleData<Binary> = TupleData<Binary>;

/// The view of an `OldDataOrPrimaryKeyTupleData`.
pub enum OldDataOrPrimaryKeyView<V> {
    OldTupleData(Seq<TupleDataColumnView<V>>),
    PrimaryKeyTupleData(Seq<TupleDataColumnView<V>>),
}

impl<B: PGValue> View for OldDataOrPrimaryKeyTupleData<B> {
    type V = OldDataOrPrimaryKeyView<ValueView<B>>;

    open spec fn view(&self) -> OldDataOrPrimaryKeyView<ValueView<B>> {
        match self {
            OldDataOrPrimaryKeyTupleData::OldTupleData(d) => OldDataOrPrimaryKeyView::OldTupleData(
                tuple_data_view(d@),
            ),
            OldDataOrPrimaryKeyTupleData::PrimaryKeyTupleData(
                d,
            ) => OldDataOrPrimaryKeyView::PrimaryKeyTupleData(tuple_data_view(d@)),
        }
    }
}

/// The view of an optional old row or key.
pub open spec fn old_data_view<B: PGValue>(o: Option<OldDataOrPrimaryKeyTupleData<B>>) -> Option<
    OldDataOrPrimaryKeyView<ValueView<B>>,
> {
    match o {
        Some(v) => Some(v@),
        None => None,
    }
}

/// `s` holds the whole row that a leading `K` or `O` announces.
pub open spec fn old_data_or_primary_key_decodable<B: PGValue>(s: Seq<u8>) -> bool {
    s.len() > 0 && (s[0] == 0x4b /* 'K' */ || s[0] == 0x4f /* 'O' */) ==> spec_tuple_data::<B>(s.skip(1)) is Some
}

/// The old row (`O`) or key (`K`) that `s` starts with, and how many bytes
/// it takes; `None` where `s` is empty or starts with another byte.
pub open spec fn spec_old_data_or_primary_key<B: PGValue>(s: Seq<u8>) -> Option<
    (OldDataOrPrimaryKeyView<ValueView<B>>, int),
> {
    if s.len() == 0 {
        None
    } else if s[0] == 0x4b /* 'K' */ || s[0] == 0x4f /* 'O' */ {
        match spec_tuple_data::<B>(s.skip(1)) {
            Some((data, size)) => Some(
                (
                    if s[0] == 0x4b /* 'K' */ {
                        OldDataOrPrimaryKeyView::PrimaryKeyTupleData(data)
                    } else {
                        OldDataOrPrimaryKeyView::OldTupleData(data)
                    },
                    size + 1,
                ),
            ),
            None => None,
        }
    } else {
        None
    }
}

/// A row takes at least its column count and no more than `s` holds.
pub proof fn lemma_tuple_data_size<B: PGValue>(s: Seq<u8>)
    ensures
        spec_tuple_data::<B>(s) matches Some((cols, k)) ==> 2 <= k <= s.len(),
{
    if s.len() >= 2 && be_i16(s, 0) > 0 && spec_tuple_data::<B>(s) is Some {
        lemma_tuple_columns_bounds::<B>(s, be_i16(s, 0) as nat, 0);
    }
}

/// Bytes after a column do not change how it decodes.
pub proof fn lemma_tuple_column_prefix<B: PGValue>(s: Seq<u8>, t: Seq<u8>)
    requires
        spec_tuple_column::<B>(s) is Some,
    ensures
        spec_tuple_column::<B>(s + t) == spec_tuple_column::<B>(s),
{
    let u = s + t;
    if s[0] != 0x6e && s[0] != 0x75 {
        assert(be_i32(u, 1) == be_i32(s, 1));
        let n = be_i32(s, 1) as int;
        assert(u.subrange(5, 5 + n) =~= s.subrange(5, 5 + n));
    }
}

/// Bytes after the first `n` columns do not change how they decode.
pub proof fn lemma_tuple_columns_prefix<B: PGValue>(s: Seq<u8>, t: Seq<u8>, n: nat)
    requires
        s.len() >= 2,
        spec_tuple_columns::<B>(s, n) is Some,
    ensures
        spec_tuple_columns::<B>(s + t, n) == spec_tuple_columns::<B>(s, n),
    decreases n,
{
    if n > 0 {
        lemma_tuple_columns_bounds::<B>(s, n, (n - 1) as nat);
        lemma_tuple_columns_prefix::<B>(s, t, (n - 1) as nat);
        let (cols, pos) = spec_tuple_columns::<B>(s, (n - 1) as nat).unwrap();
        lemma_tuple_columns_bounds::<B>(s, (n - 1) as nat, (n - 1) as nat);
        assert((s + t).skip(pos) =~= s.skip(pos) + t);
        lemma_tuple_column_prefix::<B>(s.skip(pos), t);
    }
}

/// Bytes after a row do not change how it decodes, nor how many bytes it
/// takes.
pub proof fn lemma_tuple_data_prefix<B: PGValue>(s: Seq<u8>, t: Seq<u8>)
    requires
        spec_tuple_data::<B>(s) is Some,
    ensures
        spec_tuple_data::<B>(s + t) == spec_tuple_data::<B>(s),
{
    let u = s + t;
    assert(be_i16(u, 0) == be_i16(s, 0));
    if be_i16(s, 0) > 0 {
        lemma_tuple_columns_prefix::<B>(s, t, be_i16(s, 0) as nat);
    }
}

/// A row whose column count is zero or negative has no columns and takes
/// the two bytes of its count, whatever follows.
pub proof fn lemma_tuple_data_no_columns<B: PGValue>(count: i16, rest: Seq<u8>)
    requires
        count <= 0,
    ensures
        spec_tuple_data::<B>(i16_be_bytes(count) + rest) == Some(
            (Seq::<ColumnView<B>>::empty(), 2int),
        ),
{
    let s = i16_be_bytes(count) + rest;
    assert(s.subrange(0, 2) =~= i16_be_bytes(count));
    lemma_be_i16_bytes(s, 0, count);
}

/// A row whose column count is one, followed by one column, decodes to
/// that column alone and ends where the column ends.
pub proof fn lemma_tuple_data_one_column<B: PGValue>(column: Seq<u8>, rest: Seq<u8>)
    requires
        spec_tuple_column::<B>(column) matches Some((_, k)) && k == column.len(),
    ensures
        spec_tuple_data::<B>(i16_be_bytes(1) + column + rest) == Some(
            (seq![spec_tuple_column::<B>(column).unwrap().0], 2 + column.len() as int),
        ),
{
    let s = i16_be_bytes(1) + column + rest;
    assert(s.subrange(0, 2) =~= i16_be_bytes(1));
    lemma_be_i16_bytes(s, 0, 1);
    assert(s.skip(2) =~= column + rest);
    lemma_tuple_column_prefix::<B>(column, rest);
    assert(spec_tuple_columns::<B>(s, 0) == Some((Seq::<ColumnView<B>>::empty(), 2int)));
    assert(((1 - 1) as nat) == 0);
    assert(Seq::<ColumnView<B>>::empty().push(spec_tuple_column::<B>(column).unwrap().0) =~= seq![
        spec_tuple_column::<B>(column).unwrap().0,
    ]);
}

/// Bytes after an old row or key do not change how it decodes.
pub proof fn lemma_old_data_or_primary_key_prefix<B: PGValue>(s: Seq<u8>, t: Seq<u8>)
    requires
        spec_old_data_or_primary_key::<B>(s) is Some,
    ensures
        spec_old_data_or_primary_key::<B>(s + t) == spec_old_data_or_primary_key::<B>(s),
{
    assert((s + t).skip(1) =~= s.skip(1) + t);
    lemma_tuple_data_prefix::<B>(s.skip(1), t);
}

/// Whether `buffer` holds the whole row that a leading `K` or `O`
/// announces.
pub fn old_data_or_primary_key_is_decodable<Binary: PGValue>(buffer: &[u8]) -> (r: bool)
    ensures
        r == old_data_or_primary_key_decodable::<Binary>(buffer@),
{
    if buffer.len() > 0 && (buffer[0] == 0x4b || buffer[0] == 0x4f) {
        let rest = &buffer[1..buffer.len()];
        assert(rest@ =~= buffer@.skip(1));
        tuple_data_size::<Binary>(rest).is_some()
    } else {
        true
    }
}

/// Decodes the old row or key that `buffer` starts with, if it starts with
/// `O` or `K`; the second part counts the bytes, the kind byte included.
pub fn parse_old_data_or_primary_key<Binary: PGValue>(buffer: &[u8]) -> (r: Option<
    (OldDataOrPrimaryKeyTupleData<Binary>, usize),
>)
    requires
        old_data_or_primary_key_decodable::<Binary>(buffer@),
    ensures
        match r {
            Some((v, k)) => spec_old_data_or_primary_key::<Binary>(buffer@) == Some(
                (v@, k as int),
            ),
            None => spec_old_data_or_primary_key::<Binary>(buffer@) is None,
        },
{
    if buffer.len() == 0 {
        return None;
    }
    let c = buffer[0];
    if c == 0x4b /* 'K' */ || c == 0x4f /* 'O' */ {
        let rest = &buffer[1..buffer.len()];
        assert(rest@ =~= buffer@.skip(1));
        let (tuple_data, read_bytes) = parse_tuple_data::<Binary>(rest);
        proof {
            lemma_tuple_data_size::<Binary>(rest@);
        }
        if c == 0x4b /* 'K' */ {
            return Some(
                (OldDataOrPrimaryKeyTupleData::PrimaryKeyTupleData(tuple_data), read_bytes + 1),
            );
        } else {
            return Some((OldDataOrPrimaryKeyTupleData::OldTupleData(tuple_data), read_bytes + 1));
        }
    }
    None
}

} // verus!
