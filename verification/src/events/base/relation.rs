//! The description of a relation: its name and its columns.
use crate::options::{StreamingValueTraitOff, StreamingValueTraitOn, StreamingValueTraitParallel};
use crate::utils::DynamicSizeEvent;
use crate::wire::{
    be_i16, be_i32, byte_i8, c_string_text, i16_be_bytes, i32_be_bytes, lemma_be_i16_bytes,
    lemma_be_i32_bytes, lemma_byte_i8, lemma_c_string_of, lemma_lossy_text_len, lemma_skip_skip,
    read_c_string, read_i16, read_i32, read_i8, string_byte_len, text_byte_len,
};
use super::relation_column::{
    parse_relation_columns, relation_columns_are_decodable, relation_columns_decodable,
    relation_columns_view,
    spec_parse_relation_columns, RelationColumn, RelationColumnView,
};
use vstd::prelude::*;
use vstd::utf8::{decode_utf8, valid_utf8};

verus! {

/// Chooses the relation message of a configuration.
pub trait RelationTrait {
    type Type: DynamicSizeEvent + std::fmt::Debug;
}

/// The namespace of a relation whose body starts at `start`.
pub open spec fn relation_namespace(s: Seq<u8>, start: int) -> Seq<char> {
    c_string_text(s.skip(start))
}

/// Where the name of that relation starts: after the namespace and one byte
/// for its NUL.
pub open spec fn relation_name_start(s: Seq<u8>, start: int) -> int {
    start + 1 + text_byte_len(relation_namespace(s, start))
}

/// The name of that relation.
pub open spec fn relation_name(s: Seq<u8>, start: int) -> Seq<char> {
    c_string_text(s.skip(relation_name_start(s, start)))
}

/// Where its replica identity byte is: after the name and one byte for its
/// NUL.
pub open spec fn relation_identity_at(s: Seq<u8>, start: int) -> int {
    relation_name_start(s, start) + 1 + text_byte_len(relation_name(s, start))
}

/// The column count that follows the replica identity.
pub open spec fn relation_column_count(s: Seq<u8>, start: int) -> i16 {
    be_i16(s, relation_identity_at(s, start) + 1)
}

/// The bytes that the columns are decoded from: they start one byte after
/// the replica identity, on the second byte of the column count.
pub open spec fn relation_columns_bytes(s: Seq<u8>, start: int) -> Seq<u8> {
    s.skip(relation_identity_at(s, start) + 2)
}

/// `s` holds every byte that decoding the body at `start` reads.
pub open spec fn relation_body_decodable(s: Seq<u8>, start: int) -> bool {
    &&& 0 <= start <= s.len()
    &&& relation_name_start(s, start) <= s.len()
    &&& relation_identity_at(s, start) + 3 <= s.len()
    &&& relation_columns_decodable(
        relation_column_count(s, start),
        relation_columns_bytes(s, start),
    )
}

/// Whether `buffer` holds every byte that decoding the body at `start`
/// reads.
pub fn relation_body_is_decodable(buffer: &[u8], start: usize) -> (r: bool)
    requires
        start <= buffer@.len(),
    ensures
        r == relation_body_decodable(buffer@, start as int),
{
    assert(buffer@.len() == buffer.len());
    let relation_namespace = read_c_string(buffer, start);
    let namespace_len = string_byte_len(&relation_namespace);
    if namespace_len >= buffer.len() - start {
        return false;
    }
    let after_namespace_index = start + 1 + namespace_len;
    let name = read_c_string(buffer, after_namespace_index);
    let name_len = string_byte_len(&name);
    if buffer.len() - after_namespace_index < 4 || name_len > buffer.len()
        - after_namespace_index - 4 {
        return false;
    }
    let after_name_index = after_namespace_index + 1 + name_len;
    let column_count = read_i16(buffer, after_name_index + 1);
    let rest = &buffer[after_name_index + 2..buffer.len()];
    assert(rest@ =~= relation_columns_bytes(buffer@, start as int));
    relation_columns_are_decodable(column_count, rest)
}

/// The columns of that relation.
pub open spec fn relation_columns(s: Seq<u8>, start: int) -> Seq<RelationColumnView> {
    spec_parse_relation_columns(relation_column_count(s, start), relation_columns_bytes(s, start))
}

/// Decodes the namespace, name, replica identity and columns of the
/// relation whose body starts at `start`.
fn parse_relation_body(buffer: &[u8], start: usize) -> (r: (String, String, i8, Vec<RelationColumn>))
    requires
        relation_body_decodable(buffer@, start as int),
    ensures
        r.0@ == relation_namespace(buffer@, start as int),
        r.1@ == relation_name(buffer@, start as int),
        r.2 == byte_i8(buffer@, relation_identity_at(buffer@, start as int)),
        relation_columns_view(r.3@) == relation_columns(buffer@, start as int),
{
    assert(buffer@.len() == buffer.len());
    let relation_namespace = read_c_string(buffer, start);
    let after_namespace_index = start + 1 + string_byte_len(&relation_namespace);
    let name = read_c_string(buffer, after_namespace_index);
    let after_name_index = after_namespace_index + 1 + string_byte_len(&name);
    let replica_identity = read_i8(buffer, after_name_index);
    let column_count = read_i16(buffer, after_name_index + 1);
    let rest = &buffer[after_name_index + 2..buffer.len()];
    assert(rest@ =~= relation_columns_bytes(buffer@, start as int));
    let columns = parse_relation_columns(column_count, rest);
    (relation_namespace, name, replica_identity, columns)
}

/// A relation, described inside a streamed transaction.
#[derive(Debug)]
pub struct RelationWithStreamingEnabled {
    pub transaction_id: i32,
    pub oid: i32,
    pub relation_namespace: String,
    pub name: String,
    pub replica_identity: i8,
    pub columns: Vec<RelationColumn>,
}

/// The view of a `RelationWithStreamingEnabled`.
pub struct RelationWithStreamingEnabledView {
    pub transaction_id: i32,
    pub oid: i32,
    pub relation_namespace: Seq<char>,
    pub name: Seq<char>,
    pub replica_identity: i8,
    pub columns: Seq<RelationColumnView>,
}

impl View for RelationWithStreamingEnabled {
    type V = RelationWithStreamingEnabledView;

    open spec fn view(&self) -> RelationWithStreamingEnabledView {
        RelationWithStreamingEnabledView {
            transaction_id: self.transaction_id,
            oid: self.oid,
            relation_namespace: self.relation_namespace@,
            name: self.name@,
            replica_identity: self.replica_identity,
            columns: relation_columns_view(self.columns@),
        }
    }
}

impl DynamicSizeEvent for RelationWithStreamingEnabled {
    const MIN_BUFFER_SIZE: usize = 4 * 2 + 1 + 1 + 1 + 2;

    const EVENT_NAME: &'static str = "pgoutput::events::base::relation::RelationWithStreamingEnabled";

    open spec fn spec_min_buffer_size() -> usize {
        13
    }

    open spec fn spec_event_name() -> Seq<char> {
        "pgoutput::events::base::relation::RelationWithStreamingEnabled"@
    }

    proof fn lemma_constants() {
    }

    open spec fn spec_decodable(buffer: Seq<u8>) -> bool {
        relation_body_decodable(buffer, 8)
    }

    fn is_decodable(buffer: &[u8]) -> (r: bool) {
        buffer.len() >= 8 && relation_body_is_decodable(buffer, 8)
    }

    open spec fn spec_from_buffer(buffer: Seq<u8>) -> RelationWithStreamingEnabledView {
        RelationWithStreamingEnabledView {
            transaction_id: be_i32(buffer, 0),
            oid: be_i32(buffer, 4),
            relation_namespace: relation_namespace(buffer, 8),
            name: relation_name(buffer, 8),
            replica_identity: byte_i8(buffer, relation_identity_at(buffer, 8)),
            columns: relation_columns(buffer, 8),
        }
    }

    fn from_buffer(buffer: &[u8]) -> (r: RelationWithStreamingEnabled) {
        let transaction_id = read_i32(buffer, 0);
        let oid = read_i32(buffer, 4);
        let (relation_namespace, name, replica_identity, columns) = parse_relation_body(buffer, 8);
        Self { transaction_id, oid, relation_namespace, name, replica_identity, columns }
    }
}

/// A relation.
#[derive(Debug)]
pub struct RelationWithoutStreamingEnabled {
    pub oid: i32,
    pub relation_namespace: String,
    pub name: String,
    pub replica_identity: i8,
    pub columns: Vec<RelationColumn>,
}

/// The view of a `RelationWithoutStreamingEnabled`.
pub struct RelationWithoutStreamingEnabledView {
    pub oid: i32,
    pub relation_namespace: Seq<char>,
    pub name: Seq<char>,
    pub replica_identity: i8,
    pub columns: Seq<RelationColumnView>,
}

impl View for RelationWithoutStreamingEnabled {
    type V = RelationWithoutStreamingEnabledView;

    open spec fn view(&self) -> RelationWithoutStreamingEnabledView {
        RelationWithoutStreamingEnabledView {
            oid: self.oid,
            relation_namespace: self.relation_namespace@,
            name: self.name@,
            replica_identity: self.replica_identity,
            columns: relation_columns_view(self.columns@),
        }
    }
}

impl DynamicSizeEvent for RelationWithoutStreamingEnabled {
    const MIN_BUFFER_SIZE: usize = 4 + 1 + 1 + 1 + 2;

    const EVENT_NAME: &'static str = "pgoutput::events::base::relation::RelationWithoutStreamingEnabled";

    open spec fn spec_min_buffer_size() -> usize {
        9
    }

    open spec fn spec_event_name() -> Seq<char> {
        "pgoutput::events::base::relation::RelationWithoutStreamingEnabled"@
    }

    proof fn lemma_constants() {
    }

    open spec fn spec_decodable(buffer: Seq<u8>) -> bool {
        relation_body_decodable(buffer, 4)
    }

    fn is_decodable(buffer: &[u8]) -> (r: bool) {
        buffer.len() >= 4 && relation_body_is_decodable(buffer, 4)
    }

    open spec fn spec_from_buffer(buffer: Seq<u8>) -> RelationWithoutStreamingEnabledView {
        RelationWithoutStreamingEnabledView {
            oid: be_i32(buffer, 0),
            relation_namespace: relation_namespace(buffer, 4),
            name: relation_name(buffer, 4),
            replica_identity: byte_i8(buffer, relation_identity_at(buffer, 4)),
            columns: relation_columns(buffer, 4),
        }
    }

    fn from_buffer(buffer: &[u8]) -> (r: RelationWithoutStreamingEnabled) {
        let oid = read_i32(buffer, 0);
        let (relation_namespace, name, replica_identity, columns) = parse_relation_body(buffer, 4);
        Self { oid, relation_namespace, name, replica_identity, columns }
    }
}

impl RelationTrait for StreamingValueTraitOn {
    type Type = RelationWithStreamingEnabled;
}

impl RelationTrait for StreamingValueTraitParallel {
    type Type = RelationWithStreamingEnabled;
}

impl RelationTrait for StreamingValueTraitOff {
    type Type = RelationWithoutStreamingEnabled;
}

/// A relation described inside a streamed transaction is the transaction
/// id followed by the relation as it is described outside one.
pub proof fn lemma_relation_streaming_layout(buffer: Seq<u8>)
    requires
        buffer.len() >= RelationWithStreamingEnabled::spec_min_buffer_size(),
    ensures
        RelationWithStreamingEnabled::spec_decodable(buffer)
            == RelationWithoutStreamingEnabled::spec_decodable(buffer.skip(4)),
        RelationWithStreamingEnabled::spec_from_buffer(buffer).transaction_id == be_i32(buffer, 0),
        RelationWithStreamingEnabled::spec_from_buffer(buffer).oid
            == RelationWithoutStreamingEnabled::spec_from_buffer(buffer.skip(4)).oid,
        RelationWithStreamingEnabled::spec_from_buffer(buffer).relation_namespace
            == RelationWithoutStreamingEnabled::spec_from_buffer(
            buffer.skip(4),
        ).relation_namespace,
        RelationWithStreamingEnabled::spec_decodable(buffer) ==> {
            let with = RelationWithStreamingEnabled::spec_from_buffer(buffer);
            let without = RelationWithoutStreamingEnabled::spec_from_buffer(buffer.skip(4));
            &&& with.name == without.name
            &&& with.replica_identity == without.replica_identity
            &&& with.columns == without.columns
        },
{
    let t = buffer.skip(4);
    lemma_skip_skip(buffer, 4, 4);
    assert(be_i32(t, 0) == be_i32(buffer, 4));
    let a = relation_name_start(buffer, 8);
    assert(relation_name_start(t, 4) == a - 4);
    if a <= buffer.len() {
        lemma_skip_skip(buffer, 4, a - 4);
        let b = relation_identity_at(buffer, 8);
        assert(relation_identity_at(t, 4) == b - 4);
        if b + 3 <= buffer.len() {
            assert(be_i16(t, b - 3) == be_i16(buffer, b + 1));
            assert(byte_i8(t, b - 4) == byte_i8(buffer, b));
            lemma_skip_skip(buffer, 4, b - 2);
        }
    }
}

/// Reading the namespace, the name, the replica identity and the column
/// count after `head`.
proof fn lemma_relation_body_encoding(
    head: Seq<u8>,
    namespace: Seq<u8>,
    name: Seq<u8>,
    replica_identity: i8,
    column_count: i16,
    rest: Seq<u8>,
)
    requires
        forall|j: int| 0 <= j < namespace.len() ==> namespace[j] != 0,
        forall|j: int| 0 <= j < name.len() ==> name[j] != 0,
        valid_utf8(namespace),
        valid_utf8(name),
        namespace.len() <= usize::MAX,
        name.len() <= usize::MAX,
    ensures
        ({
            let b = head + namespace + seq![0u8] + name + seq![0u8] + seq![replica_identity as u8]
                + i16_be_bytes(column_count) + rest;
            let h = head.len() as int;
            &&& relation_name_start(b, h) <= b.len()
            &&& relation_identity_at(b, h) + 3 <= b.len()
            &&& relation_namespace(b, h) == decode_utf8(namespace)
            &&& relation_name(b, h) == decode_utf8(name)
            &&& byte_i8(b, relation_identity_at(b, h)) == replica_identity
            &&& relation_column_count(b, h) == column_count
            &&& relation_columns_bytes(b, h) == i16_be_bytes(column_count).subrange(1, 2) + rest
        }),
{
    let tail = seq![replica_identity as u8] + i16_be_bytes(column_count) + rest;
    let b = head + namespace + seq![0u8] + name + seq![0u8] + seq![replica_identity as u8]
        + i16_be_bytes(column_count) + rest;
    let h = head.len() as int;
    assert(b.skip(h) =~= namespace + seq![0u8] + (name + seq![0u8] + tail));
    lemma_c_string_of(namespace, name + seq![0u8] + tail);
    lemma_lossy_text_len(namespace);
    let a = h + 1 + namespace.len();
    assert(relation_name_start(b, h) == a);
    assert(b.skip(a) =~= name + seq![0u8] + tail);
    lemma_c_string_of(name, tail);
    lemma_lossy_text_len(name);
    let i = a + 1 + name.len();
    assert(relation_identity_at(b, h) == i);
    assert(b[i] == replica_identity as u8);
    lemma_byte_i8(b, i, replica_identity);
    assert(b.subrange(i + 1, i + 3) =~= i16_be_bytes(column_count));
    lemma_be_i16_bytes(b, i + 1, column_count);
    assert(b.skip(i + 2) =~= i16_be_bytes(column_count).subrange(1, 2) + rest);
}

/// A relation body made of the relation's oid, its namespace and its name
/// (well-formed UTF-8, each with its NUL), the replica identity byte and
/// the column count decodes to those fields; its columns are the ones
/// decoded from the bytes that start at the second byte of the column
/// count.
pub proof fn lemma_relation_round_trip(
    oid: i32,
    namespace: Seq<u8>,
    name: Seq<u8>,
    replica_identity: i8,
    column_count: i16,
    rest: Seq<u8>,
)
    requires
        forall|j: int| 0 <= j < namespace.len() ==> namespace[j] != 0,
        forall|j: int| 0 <= j < name.len() ==> name[j] != 0,
        valid_utf8(namespace),
        valid_utf8(name),
        namespace.len() <= usize::MAX,
        name.len() <= usize::MAX,
        relation_columns_decodable(
            column_count,
            i16_be_bytes(column_count).subrange(1, 2) + rest,
        ),
    ensures
        ({
            let b = i32_be_bytes(oid) + namespace + seq![0u8] + name + seq![0u8] + seq![
                replica_identity as u8,
            ] + i16_be_bytes(column_count) + rest;
            &&& b.len() >= RelationWithoutStreamingEnabled::spec_min_buffer_size()
            &&& RelationWithoutStreamingEnabled::spec_decodable(b)
            &&& RelationWithoutStreamingEnabled::spec_from_buffer(b)
                == RelationWithoutStreamingEnabledView {
                oid,
                relation_namespace: decode_utf8(namespace),
                name: decode_utf8(name),
                replica_identity,
                columns: spec_parse_relation_columns(
                    column_count,
                    i16_be_bytes(column_count).subrange(1, 2) + rest,
                ),
            }
        }),
{
    let b = i32_be_bytes(oid) + namespace + seq![0u8] + name + seq![0u8] + seq![
        replica_identity as u8,
    ] + i16_be_bytes(column_count) + rest;
    lemma_relation_body_encoding(
        i32_be_bytes(oid),
        namespace,
        name,
        replica_identity,
        column_count,
        rest,
    );
    assert(b.subrange(0, 4) =~= i32_be_bytes(oid));
    lemma_be_i32_bytes(b, 0, oid);
}

/// The same inside a streamed transaction, after the transaction id.
pub proof fn lemma_streamed_relation_round_trip(
    transaction_id: i32,
    oid: i32,
    namespace: Seq<u8>,
    name: Seq<u8>,
    replica_identity: i8,
    column_count: i16,
    rest: Seq<u8>,
)
    requires
        forall|j: int| 0 <= j < namespace.len() ==> namespace[j] != 0,
        forall|j: int| 0 <= j < name.len() ==> name[j] != 0,
        valid_utf8(namespace),
        valid_utf8(name),
        namespace.len() <= usize::MAX,
        name.len() <= usize::MAX,
        relation_columns_decodable(
            column_count,
            i16_be_bytes(column_count).subrange(1, 2) + rest,
        ),
    ensures
        ({
            let b = i32_be_bytes(transaction_id) + i32_be_bytes(oid) + namespace + seq![0u8] + name
                + seq![0u8] + seq![replica_identity as u8] + i16_be_bytes(column_count) + rest;
            &&& b.len() >= RelationWithStreamingEnabled::spec_min_buffer_size()
            &&& RelationWithStreamingEnabled::spec_decodable(b)
            &&& RelationWithStreamingEnabled::spec_from_buffer(b)
                == RelationWithStreamingEnabledView {
                transaction_id,
                oid,
                relation_namespace: decode_utf8(namespace),
                name: decode_utf8(name),
                replica_identity,
                columns: spec_parse_relation_columns(
                    column_count,
                    i16_be_bytes(column_count).subrange(1, 2) + rest,
                ),
            }
        }),
{
    let head = i32_be_bytes(transaction_id) + i32_be_bytes(oid);
    let b = i32_be_bytes(transaction_id) + i32_be_bytes(oid) + namespace + seq![0u8] + name
        + seq![0u8] + seq![replica_identity as u8] + i16_be_bytes(column_count) + rest;
    lemma_relation_body_encoding(head, namespace, name, replica_identity, column_count, rest);
    assert(b =~= head + namespace + seq![0u8] + name + seq![0u8] + seq![replica_identity as u8]
        + i16_be_bytes(column_count) + rest);
    assert(b.subrange(0, 4) =~= i32_be_bytes(transaction_id));
    assert(b.subrange(4, 8) =~= i32_be_bytes(oid));
    lemma_be_i32_bytes(b, 0, transaction_id);
    lemma_be_i32_bytes(b, 4, oid);
}

} // verus!
