//! The columns of a relation, as a relation message describes them.
use crate::wire::{
    be_i32, byte_i8, c_string_text, i32_be_bytes, lemma_be_i32_bytes, lemma_c_string_of,
    lemma_lossy_text_len, read_c_string, read_i32, read_i8, string_byte_len, text_byte_len,
};
use vstd::utf8::{decode_utf8, valid_utf8};
use vstd::prelude::*;

verus! {

/// A column of a relation.
#[derive(Debug)]
pub struct RelationColumn {
    pub flags: i8,
    pub name: String,
    pub oid: i32,
    pub type_modifier: i32,
}

/// The view of a `RelationColumn`.
pub struct RelationColumnView {
    pub flags: i8,
    pub name: Seq<char>,
    pub oid: i32,
    pub type_modifier: i32,
}

impl View for RelationColumn {
    type V = RelationColumnView;

    open spec fn view(&self) -> RelationColumnView {
        RelationColumnView {
            flags: self.flags,
            name: self.name@,
            oid: self.oid,
            type_modifier: self.type_modifier,
        }
    }
}

/// The views of a sequence of columns.
pub open spec fn relation_columns_view(columns: Seq<RelationColumn>) -> Seq<RelationColumnView> {
    columns.map_values(|c: RelationColumn| c@)
}

/// The name of the column that `s` describes.
pub open spec fn relation_column_name(s: Seq<u8>) -> Seq<char> {
    c_string_text(s.skip(1))
}

/// Where the type of the column that `s` describes starts: after the flags
/// byte, the name, and one byte for the name's NUL.
pub open spec fn relation_column_type_start(s: Seq<u8>) -> int {
    1 + text_byte_len(relation_column_name(s)) + 1
}

/// `s` holds every byte that decoding the column at its start reads.
pub open spec fn relation_column_decodable(s: Seq<u8>) -> bool {
    s.len() >= 1 && relation_column_type_start(s) + 8 <= s.len()
}

/// The column that `s` describes.
pub open spec fn spec_relation_column(s: Seq<u8>) -> RelationColumnView {
    RelationColumnView {
        flags: byte_i8(s, 0),
        name: relation_column_name(s),
        oid: be_i32(s, relation_column_type_start(s)),
        type_modifier: be_i32(s, relation_column_type_start(s) + 4),
    }
}

/// How far the cursor moves past a column whose name has `name_len` bytes.
pub open spec fn relation_column_step(name_len: int) -> int {
    (1 + 1 + 4 * 2) + name_len + 1
}

/// The description of a column with these fields, its name's bytes and
/// their NUL, followed by `rest`.
pub open spec fn relation_column_encoding(
    flags: i8,
    name: Seq<u8>,
    oid: i32,
    type_modifier: i32,
    rest: Seq<u8>,
) -> Seq<u8> {
    seq![flags as u8] + name + seq![0u8] + i32_be_bytes(oid) + i32_be_bytes(type_modifier) + rest
}

/// A column described from fields, with a name in well-formed UTF-8 and no
/// NUL, decodes to those fields, whatever follows; the cursor then moves
/// one byte past the description.
pub proof fn lemma_relation_column_round_trip(
    flags: i8,
    name: Seq<u8>,
    oid: i32,
    type_modifier: i32,
    rest: Seq<u8>,
)
    requires
        forall|j: int| 0 <= j < name.len() ==> name[j] != 0,
        valid_utf8(name),
        name.len() <= usize::MAX,
    ensures
        ({
            let b = relation_column_encoding(flags, name, oid, type_modifier, rest);
            &&& relation_column_decodable(b)
            &&& spec_relation_column(b) == RelationColumnView {
                flags,
                name: decode_utf8(name),
                oid,
                type_modifier,
            }
            &&& relation_column_step(text_byte_len(relation_column_name(b)) as int) == name.len()
                + 11
        }),
{
    let b = relation_column_encoding(flags, name, oid, type_modifier, rest);
    let n = name.len() as int;
    let after = i32_be_bytes(oid) + i32_be_bytes(type_modifier) + rest;
    assert((flags as u8) as i8 == flags) by (bit_vector);
    assert(b[0] == flags as u8);
    assert(b.skip(1) =~= name + seq![0u8] + after);
    lemma_c_string_of(name, after);
    lemma_lossy_text_len(name);
    assert(b.subrange(n + 2, n + 6) =~= i32_be_bytes(oid));
    assert(b.subrange(n + 6, n + 10) =~= i32_be_bytes(type_modifier));
    lemma_be_i32_bytes(b, n + 2, oid);
    lemma_be_i32_bytes(b, n + 6, type_modifier);
}

impl RelationColumn {
    const MIN_BUFFER_SIZE: usize = 1 + 1 + 4 * 2;

    fn get_buffer_size(self: &Self) -> (r: usize)
        requires
            relation_column_step(text_byte_len(self.name@) as int) <= usize::MAX,
        ensures
            r == relation_column_step(text_byte_len(self.name@) as int),
    {
        Self::MIN_BUFFER_SIZE + string_byte_len(&self.name) + 1
    }

    fn from_buffer(buffer: &[u8]) -> (r: RelationColumn)
        requires
            relation_column_decodable(buffer@),
        ensures
            r@ == spec_relation_column(buffer@),
    {
        assert(buffer@.len() == buffer.len());
        let flags = read_i8(buffer, 0);
        let name = read_c_string(buffer, 1);
        let offset = 1 + string_byte_len(&name) + 1;
        let oid = read_i32(buffer, offset);
        let type_modifier = read_i32(buffer, offset + 4);
        RelationColumn { flags, name, oid, type_modifier }
    }
}

/// The first `n` columns that `s` describes one after the other, each
/// started where the cursor moved after the one before, and the cursor
/// after them; `None` where one of them is not whole in `s`.
pub open spec fn spec_relation_columns(s: Seq<u8>, n: nat) -> Option<
    (Seq<RelationColumnView>, int),
>
    decreases n,
{
    if n == 0 {
        Some((Seq::empty(), 0))
    } else {
        match spec_relation_columns(s, (n - 1) as nat) {
            Some((columns, cursor)) => {
                let rest = s.skip(cursor);
                let next = cursor + relation_column_step(
                    text_byte_len(relation_column_name(rest)) as int,
                );
                if cursor <= s.len() && relation_column_decodable(rest) && next <= usize::MAX {
                    Some((columns.push(spec_relation_column(rest)), next))
                } else {
                    None
                }
            },
            None => None,
        }
    }
}

/// Decoding `column_count` columns from `s` neither panics nor overflows.
pub open spec fn relation_columns_decodable(column_count: i16, s: Seq<u8>) -> bool {
    &&& column_count >= 0
    &&& s.len() > 0 ==> spec_relation_columns(s, column_count as nat) is Some
}

/// The columns that `parse_relation_columns` decodes from `s`.
pub open spec fn spec_parse_relation_columns(column_count: i16, s: Seq<u8>) -> Seq<
    RelationColumnView,
> {
    if s.len() == 0 || column_count <= 0 {
        Seq::empty()
    } else {
        spec_relation_columns(s, column_count as nat).unwrap().0
    }
}

/// Where `n` columns decode, so do fewer, and the cursor never goes back.
pub proof fn lemma_relation_columns_prefix(s: Seq<u8>, n: nat, m: nat)
    requires
        m <= n,
        spec_relation_columns(s, n) is Some,
    ensures
        spec_relation_columns(s, m) is Some,
        spec_relation_columns(s, n).unwrap().0.len() == n,
        0 <= spec_relation_columns(s, n).unwrap().1 <= usize::MAX,
    decreases n,
{
    if n > 0 {
        lemma_relation_columns_prefix(s, (n - 1) as nat, if m < n {
            m
        } else {
            (n - 1) as nat
        });
    }
}

/// The columns of a relation are read one after the other: none are read
/// before the first, which starts at the first byte; where `n` columns
/// have been read and the cursor is at the description of a column (with a
/// name of well-formed UTF-8 and no NUL), the next column read is that one,
/// and the cursor moves `name.len() + 11` bytes, one byte past the
/// description's `name.len() + 10`.
pub proof fn lemma_relation_columns_step(
    s: Seq<u8>,
    n: nat,
    columns: Seq<RelationColumnView>,
    cursor: int,
    flags: i8,
    name: Seq<u8>,
    oid: i32,
    type_modifier: i32,
    rest: Seq<u8>,
)
    requires
        spec_relation_columns(s, n) == Some((columns, cursor)),
        0 <= cursor <= s.len(),
        s.skip(cursor) == relation_column_encoding(flags, name, oid, type_modifier, rest),
        forall|j: int| 0 <= j < name.len() ==> name[j] != 0,
        valid_utf8(name),
        cursor + name.len() + 11 <= usize::MAX,
    ensures
        spec_relation_columns(s, 0) == Some((Seq::<RelationColumnView>::empty(), 0int)),
        spec_relation_columns(s, n + 1) == Some(
            (
                columns.push(
                    RelationColumnView { flags, name: decode_utf8(name), oid, type_modifier },
                ),
                cursor + name.len() + 11,
            ),
        ),
{
    lemma_relation_column_round_trip(flags, name, oid, type_modifier, rest);
    assert(((n + 1) - 1) as nat == n);
}

/// Whether decoding `column_count` columns from `buffer` neither panics nor
/// overflows.
pub fn relation_columns_are_decodable(column_count: i16, buffer: &[u8]) -> (r: bool)
    ensures
        r == relation_columns_decodable(column_count, buffer@),
{
    if column_count < 0 {
        return false;
    }
    if buffer.len() == 0 {
        return true;
    }
    let mut cursor: usize = 0;
    let mut i: i16 = 0;
    while i < column_count
        invariant
            0 <= i <= column_count,
            buffer@.len() > 0,
            buffer@.len() == buffer.len(),
            spec_relation_columns(buffer@, i as nat) matches Some((_, c)) && c == cursor,
        decreases column_count - i,
    {
        let ghost fails = spec_relation_columns(buffer@, (i + 1) as nat) is None;
        proof {
            if spec_relation_columns(buffer@, column_count as nat) is Some {
                lemma_relation_columns_prefix(buffer@, column_count as nat, (i + 1) as nat);
            }
        }
        if cursor > buffer.len() {
            assert(fails);
            return false;
        }
        let rest = &buffer[cursor..buffer.len()];
        assert(rest@ =~= buffer@.skip(cursor as int));
        if rest.len() < 10 {
            assert(fails);
            return false;
        }
        let name = read_c_string(rest, 1);
        let name_len = string_byte_len(&name);
        if name_len > rest.len() - 10 {
            assert(fails);
            return false;
        }
        if cursor > usize::MAX - 11 || name_len > usize::MAX - 11 - cursor {
            assert(fails);
            return false;
        }
        cursor = cursor + 11 + name_len;
        i = i + 1;
    }
    true
}

/// Decodes `column_count` columns from `buffer`, or none if it is empty.
pub fn parse_relation_columns(column_count: i16, buffer: &[u8]) -> (r: Vec<RelationColumn>)
    requires
        relation_columns_decodable(column_count, buffer@),
    ensures
        relation_columns_view(r@) == spec_parse_relation_columns(column_count, buffer@),
{
    let mut columns: Vec<RelationColumn> = Vec::with_capacity(column_count as usize);
    let mut cursor: usize = 0;
    let mut i: i16 = 0;
    if !buffer.is_empty() {
        if column_count > 0 {
            proof {
                lemma_relation_columns_prefix(buffer@, column_count as nat, 0);
            }
        }
        while i < column_count
            invariant
                0 <= i <= column_count,
                buffer@.len() > 0,
                relation_columns_decodable(column_count, buffer@),
                spec_relation_columns(buffer@, i as nat) == Some(
                    (relation_columns_view(columns@), cursor as int),
                ),
            decreases column_count - i,
        {
            proof {
                lemma_relation_columns_prefix(buffer@, column_count as nat, (i + 1) as nat);
            }
            let rest = &buffer[cursor..buffer.len()];
            assert(rest@ =~= buffer@.skip(cursor as int));
            let column = RelationColumn::from_buffer(rest);
            cursor = cursor + column.get_buffer_size();
            let ghost old_columns = columns@;
            columns.push(column);
            assert(relation_columns_view(columns@) =~= relation_columns_view(old_columns).push(
                column@,
            ));
            i = i + 1;
        }
    }
    proof {
        if buffer@.len() == 0 || column_count <= 0 {
            assert(relation_columns_view(columns@) =~= Seq::<RelationColumnView>::empty());
        }
    }
    columns
}

} // verus!
