//! The description of a data type.
use crate::options::{
    StreamingValueTrait, StreamingValueTraitOff, StreamingValueTraitOn,
    StreamingValueTraitParallel,
};
use crate::utils::DynamicSizeEvent;
use crate::wire::{
    be_i32, c_string_text, i32_be_bytes, lemma_be_i32_bytes, lemma_c_string_of,
    lemma_lossy_text_len, lemma_skip_skip, lossy_text, read_c_string, read_i32, string_byte_len,
    text_byte_len,
};
use vstd::prelude::*;
use vstd::utf8::{decode_utf8, valid_utf8};

verus! {

/// Chooses the type message of a configuration.
pub trait TypeTrait: StreamingValueTrait {
    type Type: DynamicSizeEvent + std::fmt::Debug;
}

/// The namespace of the type whose body starts at `start`.
pub open spec fn type_namespace(s: Seq<u8>, start: int) -> Seq<char> {
    c_string_text(s.skip(start))
}

/// Where the name of that type starts: after the namespace and one byte for
/// its NUL.
pub open spec fn type_name_start(s: Seq<u8>, start: int) -> int {
    start + text_byte_len(type_namespace(s, start)) + 1
}

/// The name of that type.
pub open spec fn data_type_name(s: Seq<u8>, start: int) -> Seq<char> {
    c_string_text(s.skip(type_name_start(s, start)))
}

/// `s` holds every byte that decoding the body at `start` reads.
pub open spec fn type_body_decodable(s: Seq<u8>, start: int) -> bool {
    0 <= start <= s.len() && type_name_start(s, start) <= s.len()
}

/// Whether `buffer` holds every byte that decoding the body at `start`
/// reads.
pub fn type_body_is_decodable(buffer: &[u8], start: usize) -> (r: bool)
    requires
        start <= buffer@.len(),
    ensures
        r == type_body_decodable(buffer@, start as int),
{
    let type_namespace = read_c_string(buffer, start);
    string_byte_len(&type_namespace) < buffer.len() - start
}

/// Decodes the namespace and name of the type whose body starts at `start`.
fn parse_type_body(buffer: &[u8], start: usize) -> (r: (String, String))
    requires
        type_body_decodable(buffer@, start as int),
    ensures
        r.0@ == type_namespace(buffer@, start as int),
        r.1@ == data_type_name(buffer@, start as int),
{
    assert(buffer@.len() == buffer.len());
    let type_namespace = read_c_string(buffer, start);
    let name_start = start + (string_byte_len(&type_namespace) + 1);
    let name = read_c_string(buffer, name_start);
    (type_namespace, name)
}

/// A data type, described inside a streamed transaction.
#[derive(Debug)]
pub struct TypeWithStreamingEnabled {
    pub transaction_id: i32,
    pub oid: i32,
    pub type_namespace: String,
    pub name: String,
}

/// The view of a `TypeWithStreamingEnabled`.
pub struct TypeWithStreamingEnabledView {
    pub transaction_id: i32,
    pub oid: i32,
    pub type_namespace: Seq<char>,
    pub name: Seq<char>,
}

impl View for TypeWithStreamingEnabled {
    type V = TypeWithStreamingEnabledView;

    open spec fn view(&self) -> TypeWithStreamingEnabledView {
        TypeWithStreamingEnabledView {
            transaction_id: self.transaction_id,
            oid: self.oid,
            type_namespace: self.type_namespace@,
            name: self.name@,
        }
    }
}

impl DynamicSizeEvent for TypeWithStreamingEnabled {
    const MIN_BUFFER_SIZE: usize = 4 * 2 + 1 + 1;

    const EVENT_NAME: &'static str = "pgoutput::events::base::type_::TypeWithStreamingEnabled";

    open spec fn spec_min_buffer_size() -> usize {
        10
    }

    open spec fn spec_event_name() -> Seq<char> {
        "pgoutput::events::base::type_::TypeWithStreamingEnabled"@
    }

    proof fn lemma_constants() {
    }

    open spec fn spec_decodable(buffer: Seq<u8>) -> bool {
        type_body_decodable(buffer, 8)
    }

    fn is_decodable(buffer: &[u8]) -> (r: bool) {
        buffer.len() >= 8 && type_body_is_decodable(buffer, 8)
    }

    open spec fn spec_from_buffer(buffer: Seq<u8>) -> TypeWithStreamingEnabledView {
        TypeWithStreamingEnabledView {
            transaction_id: be_i32(buffer, 0),
            oid: be_i32(buffer, 4),
            type_namespace: type_namespace(buffer, 8),
            name: data_type_name(buffer, 8),
        }
    }

    fn from_buffer(buffer: &[u8]) -> (r: TypeWithStreamingEnabled) {
        let transaction_id = read_i32(buffer, 0);
        let oid = read_i32(buffer, 4);
        let (type_namespace, name) = parse_type_body(buffer, 8);
        Self { transaction_id: transaction_id, oid, type_namespace, name }
    }
}

impl TypeTrait for StreamingValueTraitOn {
    type Type = TypeWithStreamingEnabled;
}

impl TypeTrait for StreamingValueTraitParallel {
    type Type = TypeWithStreamingEnabled;
}

/// A data type.
#[derive(Debug)]
pub struct TypeWithoutStreamingEnabled {
    pub oid: i32,
    pub type_namespace: String,
    pub name: String,
}

/// The view of a `TypeWithoutStreamingEnabled`.
pub struct TypeWithoutStreamingEnabledView {
    pub oid: i32,
    pub type_namespace: Seq<char>,
    pub name: Seq<char>,
}

impl View for TypeWithoutStreamingEnabled {
    type V = TypeWithoutStreamingEnabledView;

    open spec fn view(&self) -> TypeWithoutStreamingEnabledView {
        TypeWithoutStreamingEnabledView {
            oid: self.oid,
            type_namespace: self.type_namespace@,
            name: self.name@,
        }
    }
}

impl DynamicSizeEvent for TypeWithoutStreamingEnabled {
    const MIN_BUFFER_SIZE: usize = 4 + 1 + 1;

    const EVENT_NAME: &'static str = "pgoutput::events::base::type_::TypeWithoutStreamingEnabled";

    open spec fn spec_min_buffer_size() -> usize {
        6
    }

    open spec fn spec_event_name() -> Seq<char> {
        "pgoutput::events::base::type_::TypeWithoutStreamingEnabled"@
    }

    proof fn lemma_constants() {
    }

    open spec fn spec_decodable(buffer: Seq<u8>) -> bool {
        type_body_decodable(buffer, 4)
    }

    fn is_decodable(buffer: &[u8]) -> (r: bool) {
        buffer.len() >= 4 && type_body_is_decodable(buffer, 4)
    }

    open spec fn spec_from_buffer(buffer: Seq<u8>) -> TypeWithoutStreamingEnabledView {
        TypeWithoutStreamingEnabledView {
            oid: be_i32(buffer, 0),
            type_namespace: type_namespace(buffer, 4),
            name: data_type_name(buffer, 4),
        }
    }

    fn from_buffer(buffer: &[u8]) -> (r: TypeWithoutStreamingEnabled) {
        let oid = read_i32(buffer, 0);
        let (type_namespace, name) = parse_type_body(buffer, 4);
        Self { oid, type_namespace, name }
    }
}

impl TypeTrait for StreamingValueTraitOff {
    type Type = TypeWithoutStreamingEnabled;
}

/// A data type described inside a streamed transaction is the transaction
/// id followed by the type as it is described outside one.
pub proof fn lemma_type_streaming_layout(buffer: Seq<u8>)
    requires
        buffer.len() >= TypeWithStreamingEnabled::spec_min_buffer_size(),
    ensures
        TypeWithStreamingEnabled::spec_decodable(buffer)
            == TypeWithoutStreamingEnabled::spec_decodable(buffer.skip(4)),
        TypeWithStreamingEnabled::spec_from_buffer(buffer).transaction_id == be_i32(buffer, 0),
        TypeWithStreamingEnabled::spec_from_buffer(buffer).oid
            == TypeWithoutStreamingEnabled::spec_from_buffer(buffer.skip(4)).oid,
        TypeWithStreamingEnabled::spec_from_buffer(buffer).type_namespace
            == TypeWithoutStreamingEnabled::spec_from_buffer(buffer.skip(4)).type_namespace,
        TypeWithStreamingEnabled::spec_decodable(buffer)
            ==> TypeWithStreamingEnabled::spec_from_buffer(buffer).name
            == TypeWithoutStreamingEnabled::spec_from_buffer(buffer.skip(4)).name,
{
    let t = buffer.skip(4);
    lemma_skip_skip(buffer, 4, 4);
    assert(be_i32(t, 0) == be_i32(buffer, 4));
    let a = type_name_start(buffer, 8);
    assert(type_name_start(t, 4) == a - 4);
    if a <= buffer.len() {
        lemma_skip_skip(buffer, 4, a - 4);
    }
}

/// Reading a namespace of well-formed UTF-8 and a name, each with its NUL,
/// after `head`.
proof fn lemma_type_body_encoding(head: Seq<u8>, namespace: Seq<u8>, name: Seq<u8>, rest: Seq<u8>)
    requires
        forall|j: int| 0 <= j < namespace.len() ==> namespace[j] != 0,
        forall|j: int| 0 <= j < name.len() ==> name[j] != 0,
        valid_utf8(namespace),
        namespace.len() <= usize::MAX,
    ensures
        ({
            let b = head + namespace + seq![0u8] + name + seq![0u8] + rest;
            &&& type_body_decodable(b, head.len() as int)
            &&& type_namespace(b, head.len() as int) == decode_utf8(namespace)
            &&& data_type_name(b, head.len() as int) == lossy_text(name)
        }),
{
    let b = head + namespace + seq![0u8] + name + seq![0u8] + rest;
    let h = head.len() as int;
    assert(b.skip(h) =~= namespace + seq![0u8] + (name + seq![0u8] + rest));
    lemma_c_string_of(namespace, name + seq![0u8] + rest);
    lemma_lossy_text_len(namespace);
    assert(type_name_start(b, h) == h + namespace.len() + 1);
    assert(b.skip(h + namespace.len() + 1) =~= name + seq![0u8] + rest);
    lemma_c_string_of(name, rest);
}

/// A type body made of the type's oid, its namespace (well-formed UTF-8)
/// and its name, each with its NUL, decodes to the oid, the namespace's
/// text and the name's text, whatever follows.
pub proof fn lemma_type_round_trip(oid: i32, namespace: Seq<u8>, name: Seq<u8>, rest: Seq<u8>)
    requires
        forall|j: int| 0 <= j < namespace.len() ==> namespace[j] != 0,
        forall|j: int| 0 <= j < name.len() ==> name[j] != 0,
        valid_utf8(namespace),
        namespace.len() <= usize::MAX,
    ensures
        ({
            let b = i32_be_bytes(oid) + namespace + seq![0u8] + name + seq![0u8] + rest;
            &&& b.len() >= TypeWithoutStreamingEnabled::spec_min_buffer_size()
            &&& TypeWithoutStreamingEnabled::spec_decodable(b)
            &&& TypeWithoutStreamingEnabled::spec_from_buffer(b)
                == TypeWithoutStreamingEnabledView {
                oid,
                type_namespace: decode_utf8(namespace),
                name: lossy_text(name),
            }
        }),
{
    let b = i32_be_bytes(oid) + namespace + seq![0u8] + name + seq![0u8] + rest;
    lemma_type_body_encoding(i32_be_bytes(oid), namespace, name, rest);
    assert(b.subrange(0, 4) =~= i32_be_bytes(oid));
    lemma_be_i32_bytes(b, 0, oid);
}

/// The same inside a streamed transaction, after the transaction id.
pub proof fn lemma_streamed_type_round_trip(
    transaction_id: i32,
    oid: i32,
    namespace: Seq<u8>,
    name: Seq<u8>,
    rest: Seq<u8>,
)
    requires
        forall|j: int| 0 <= j < namespace.len() ==> namespace[j] != 0,
        forall|j: int| 0 <= j < name.len() ==> name[j] != 0,
        valid_utf8(namespace),
        namespace.len() <= usize::MAX,
    ensures
        ({
            let b = i32_be_bytes(transaction_id) + i32_be_bytes(oid) + namespace + seq![0u8] + name
                + seq![0u8] + rest;
            &&& b.len() >= TypeWithStreamingEnabled::spec_min_buffer_size()
            &&& TypeWithStreamingEnabled::spec_decodable(b)
            &&& TypeWithStreamingEnabled::spec_from_buffer(b) == TypeWithStreamingEnabledView {
                transaction_id,
                oid,
                type_namespace: decode_utf8(namespace),
                name: lossy_text(name),
            }
        }),
{
    let head = i32_be_bytes(transaction_id) + i32_be_bytes(oid);
    let b = i32_be_bytes(transaction_id) + i32_be_bytes(oid) + namespace + seq![0u8] + name
        + seq![0u8] + rest;
    lemma_type_body_encoding(head, namespace, name, rest);
    assert(b =~= head + namespace + seq![0u8] + name + seq![0u8] + rest);
    assert(b.subrange(0, 4) =~= i32_be_bytes(transaction_id));
    assert(b.subrange(4, 8) =~= i32_be_bytes(oid));
    lemma_be_i32_bytes(b, 0, transaction_id);
    lemma_be_i32_bytes(b, 4, oid);
}

} // verus!
