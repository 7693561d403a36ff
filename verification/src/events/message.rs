//! Logical decoding messages, written by `pg_logical_emit_message`.
use crate::options::{StreamingValueTraitOff, StreamingValueTraitOn, StreamingValueTraitParallel};
use crate::utils::DynamicSizeEvent;
use crate::wire::{
    be_i32, be_i64, byte_i8, c_string_text, i32_be_bytes, i64_be_bytes, lemma_be_i32_bytes,
    lemma_be_i64_bytes, lemma_byte_i8, lemma_c_string_of, lemma_lossy_text_len, lemma_skip_skip,
    read_c_string, read_i32, read_i64, read_i8, string_byte_len, text_byte_len,
};
use vstd::prelude::*;
use vstd::utf8::{decode_utf8, valid_utf8};

verus! {

/// The byte that announces a message (`'M'`).
pub const TYPE_DESCRIMINATOR: u8 = 0x4d;

/// Chooses the logical decoding message of a configuration.
pub trait MessageTrait {
    type Type: DynamicSizeEvent + std::fmt::Debug;
}

/// The prefix of the message whose prefix starts at `start`.
pub open spec fn message_prefix(s: Seq<u8>, start: int) -> Seq<char> {
    c_string_text(s.skip(start))
}

/// Where the content length of that message is: after the prefix and one
/// byte for its NUL.
pub open spec fn message_length_at(s: Seq<u8>, start: int) -> int {
    start + text_byte_len(message_prefix(s, start)) + 1
}

/// The end of the content of that message.
pub open spec fn message_content_end(s: Seq<u8>, start: int) -> int {
    message_length_at(s, start) + 4 + (be_i32(s, message_length_at(s, start)) as usize) as int
}

/// `s` holds every byte that decoding the message whose prefix starts at
/// `start` reads.
pub open spec fn message_body_decodable(s: Seq<u8>, start: int) -> bool {
    &&& 0 <= start <= s.len()
    &&& message_length_at(s, start) + 4 <= s.len()
    &&& message_content_end(s, start) <= s.len()
}

/// Whether `buffer` holds every byte that decoding the message whose prefix
/// starts at `start` reads.
pub fn message_body_is_decodable(buffer: &[u8], start: usize) -> (r: bool)
    requires
        start <= buffer@.len(),
    ensures
        r == message_body_decodable(buffer@, start as int),
{
    assert(buffer@.len() == buffer.len());
    let prefix = read_c_string(buffer, start);
    let prefix_len = string_byte_len(&prefix);
    if buffer.len() - start < 5 || prefix_len > buffer.len() - start - 5 {
        return false;
    }
    let after_prefix_position = start + prefix_len + 1;
    let content_length = read_i32(buffer, after_prefix_position);
    content_length as usize <= buffer.len() - after_prefix_position - 4
}

/// The content of that message.
pub open spec fn message_content(s: Seq<u8>, start: int) -> Seq<u8> {
    s.subrange(message_length_at(s, start) + 4, message_content_end(s, start))
}

/// Decodes the prefix and content of the message whose prefix starts at
/// `start`.
fn parse_message_body(buffer: &[u8], start: usize) -> (r: (String, Vec<u8>))
    requires
        message_body_decodable(buffer@, start as int),
    ensures
        r.0@ == message_prefix(buffer@, start as int),
        r.1@ == message_content(buffer@, start as int),
{
    assert(buffer@.len() == buffer.len());
    let prefix = read_c_string(buffer, start);
    let after_prefix_position = start + string_byte_len(&prefix) + 1;
    let content_length = read_i32(buffer, after_prefix_position);
    let after_content_length_position = after_prefix_position + 4;
    let content = vstd::slice::slice_to_vec(
        &buffer[after_content_length_position..after_content_length_position
            + content_length as usize],
    );
    (prefix, content)
}

/// A message, sent inside a streamed transaction.
#[derive(Debug)]
pub struct MessageWithStreamingEnabled {
    pub transaction_id: i32,
    pub flags: i8,
    pub lsn: i64,
    pub prefix: String,
    pub content: Vec<u8>,
}

/// The view of a `MessageWithStreamingEnabled`.
pub struct MessageWithStreamingEnabledView {
    pub transaction_id: i32,
    pub flags: i8,
    pub lsn: i64,
    pub prefix: Seq<char>,
    pub content: Seq<u8>,
}

impl View for MessageWithStreamingEnabled {
    type V = MessageWithStreamingEnabledView;

    open spec fn view(&self) -> MessageWithStreamingEnabledView {
        MessageWithStreamingEnabledView {
            transaction_id: self.transaction_id,
            flags: self.flags,
            lsn: self.lsn,
            prefix: self.prefix@,
            content: self.content@,
        }
    }
}

impl DynamicSizeEvent for MessageWithStreamingEnabled {
    /// The id, the flags, the LSN, the size of a `String` value and the
    /// content length. The size of a `String` is taken as 24 bytes, its size
    /// on 64-bit targets: on 32-bit targets it is 12, and this minimum is 12
    /// bytes larger than the size that `String` has there.
    const MIN_BUFFER_SIZE: usize = 4 + 1 + 8 + 24 + 4;

    const EVENT_NAME: &'static str = "pgoutput::events::message::MessageWithStreamingEnabled";

    open spec fn spec_min_buffer_size() -> usize {
        41
    }

    open spec fn spec_event_name() -> Seq<char> {
        "pgoutput::events::message::MessageWithStreamingEnabled"@
    }

    proof fn lemma_constants() {
    }

    open spec fn spec_decodable(buffer: Seq<u8>) -> bool {
        message_body_decodable(buffer, 13)
    }

    fn is_decodable(buffer: &[u8]) -> (r: bool) {
        buffer.len() >= 13 && message_body_is_decodable(buffer, 13)
    }

    open spec fn spec_from_buffer(buffer: Seq<u8>) -> MessageWithStreamingEnabledView {
        MessageWithStreamingEnabledView {
            transaction_id: be_i32(buffer, 0),
            flags: byte_i8(buffer, 4),
            lsn: be_i64(buffer, 5),
            prefix: message_prefix(buffer, 13),
            content: message_content(buffer, 13),
        }
    }

    fn from_buffer(buffer: &[u8]) -> (r: MessageWithStreamingEnabled) {
        let (prefix, content) = parse_message_body(buffer, 13);
        MessageWithStreamingEnabled {
            transaction_id: read_i32(buffer, 0),
            flags: read_i8(buffer, 4),
            lsn: read_i64(buffer, 5),
            prefix,
            content,
        }
    }
}

/// A message.
#[derive(Debug)]
pub struct MessageWithoutStreamingEnabled {
    pub flags: i8,
    pub lsn: i64,
    pub prefix: String,
    pub content: Vec<u8>,
}

/// The view of a `MessageWithoutStreamingEnabled`.
pub struct MessageWithoutStreamingEnabledView {
    pub flags: i8,
    pub lsn: i64,
    pub prefix: Seq<char>,
    pub content: Seq<u8>,
}

impl View for MessageWithoutStreamingEnabled {
    type V = MessageWithoutStreamingEnabledView;

    open spec fn view(&self) -> MessageWithoutStreamingEnabledView {
        MessageWithoutStreamingEnabledView {
            flags: self.flags,
            lsn: self.lsn,
            prefix: self.prefix@,
            content: self.content@,
        }
    }
}

impl DynamicSizeEvent for MessageWithoutStreamingEnabled {
    /// The flags, the LSN, the size of a `String` value and the content
    /// length. The size of a `String` is taken as 24 bytes, its size on
    /// 64-bit targets: on 32-bit targets it is 12, and this minimum is 12
    /// bytes larger than the size that `String` has there.
    const MIN_BUFFER_SIZE: usize = 1 + 8 + 24 + 4;

    const EVENT_NAME: &'static str = "pgoutput::events::message::MessageWithoutStreamingEnabled";

    open spec fn spec_min_buffer_size() -> usize {
        37
    }

    open spec fn spec_event_name() -> Seq<char> {
        "pgoutput::events::message::MessageWithoutStreamingEnabled"@
    }

    proof fn lemma_constants() {
    }

    open spec fn spec_decodable(buffer: Seq<u8>) -> bool {
        message_body_decodable(buffer, 9)
    }

    fn is_decodable(buffer: &[u8]) -> (r: bool) {
        buffer.len() >= 9 && message_body_is_decodable(buffer, 9)
    }

    open spec fn spec_from_buffer(buffer: Seq<u8>) -> MessageWithoutStreamingEnabledView {
        MessageWithoutStreamingEnabledView {
            flags: byte_i8(buffer, 0),
            lsn: be_i64(buffer, 1),
            prefix: message_prefix(buffer, 9),
            content: message_content(buffer, 9),
        }
    }

    fn from_buffer(buffer: &[u8]) -> (r: Self) {
        let (prefix, content) = parse_message_body(buffer, 9);
        Self { flags: read_i8(buffer, 0), lsn: read_i64(buffer, 1), prefix, content }
    }
}

impl MessageTrait for StreamingValueTraitOn {
    type Type = MessageWithStreamingEnabled;
}

impl MessageTrait for StreamingValueTraitParallel {
    type Type = MessageWithStreamingEnabled;
}

impl MessageTrait for StreamingValueTraitOff {
    type Type = MessageWithoutStreamingEnabled;
}

/// A message sent inside a streamed transaction is the transaction id
/// followed by the message as it is sent outside one.
pub proof fn lemma_message_streaming_layout(buffer: Seq<u8>)
    requires
        buffer.len() >= MessageWithStreamingEnabled::spec_min_buffer_size(),
    ensures
        MessageWithStreamingEnabled::spec_decodable(buffer)
            == MessageWithoutStreamingEnabled::spec_decodable(buffer.skip(4)),
        MessageWithStreamingEnabled::spec_from_buffer(buffer).transaction_id == be_i32(buffer, 0),
        MessageWithStreamingEnabled::spec_from_buffer(buffer).flags
            == MessageWithoutStreamingEnabled::spec_from_buffer(buffer.skip(4)).flags,
        MessageWithStreamingEnabled::spec_from_buffer(buffer).lsn
            == MessageWithoutStreamingEnabled::spec_from_buffer(buffer.skip(4)).lsn,
        MessageWithStreamingEnabled::spec_from_buffer(buffer).prefix
            == MessageWithoutStreamingEnabled::spec_from_buffer(buffer.skip(4)).prefix,
        MessageWithStreamingEnabled::spec_decodable(buffer)
            ==> MessageWithStreamingEnabled::spec_from_buffer(buffer).content
            == MessageWithoutStreamingEnabled::spec_from_buffer(buffer.skip(4)).content,
{
    let t = buffer.skip(4);
    lemma_skip_skip(buffer, 4, 9);
    assert(byte_i8(t, 0) == byte_i8(buffer, 4));
    assert(be_i64(t, 1) == be_i64(buffer, 5));
    let a = message_length_at(buffer, 13);
    assert(message_length_at(t, 9) == a - 4);
    if a + 4 <= buffer.len() {
        assert(be_i32(t, a - 4) == be_i32(buffer, a));
        if message_content_end(buffer, 13) <= buffer.len() {
            assert(message_content(t, 9) =~= message_content(buffer, 13));
        }
    }
}

/// Reading a prefix of well-formed UTF-8, its NUL, the content length and
/// the content, after `head`.
proof fn lemma_message_body_encoding(
    head: Seq<u8>,
    prefix: Seq<u8>,
    content: Seq<u8>,
    rest: Seq<u8>,
)
    requires
        forall|j: int| 0 <= j < prefix.len() ==> prefix[j] != 0,
        valid_utf8(prefix),
        prefix.len() <= usize::MAX,
        content.len() <= i32::MAX,
    ensures
        ({
            let b = head + prefix + seq![0u8] + i32_be_bytes(content.len() as i32) + content
                + rest;
            &&& message_body_decodable(b, head.len() as int)
            &&& message_prefix(b, head.len() as int) == decode_utf8(prefix)
            &&& message_content(b, head.len() as int) == content
        }),
{
    let n = content.len() as i32;
    let b = head + prefix + seq![0u8] + i32_be_bytes(n) + content + rest;
    let h = head.len() as int;
    let tail = i32_be_bytes(n) + content + rest;
    assert(b.skip(h) =~= prefix + seq![0u8] + tail);
    lemma_c_string_of(prefix, tail);
    lemma_lossy_text_len(prefix);
    let a = h + prefix.len() + 1;
    assert(message_length_at(b, h) == a);
    assert(b.subrange(a, a + 4) =~= i32_be_bytes(n));
    lemma_be_i32_bytes(b, a, n);
    assert(message_content(b, h) =~= content);
}

/// A message body made of the flags byte, the LSN, the prefix's bytes
/// (well-formed UTF-8), its NUL, the content's length and the content
/// decodes to those fields: the prefix to the text that it encodes, the
/// content to its bytes, whatever follows.
pub proof fn lemma_message_round_trip(
    flags: i8,
    lsn: i64,
    prefix: Seq<u8>,
    content: Seq<u8>,
    rest: Seq<u8>,
)
    requires
        forall|j: int| 0 <= j < prefix.len() ==> prefix[j] != 0,
        valid_utf8(prefix),
        prefix.len() <= usize::MAX,
        content.len() <= i32::MAX,
    ensures
        ({
            let b = seq![flags as u8] + i64_be_bytes(lsn) + prefix + seq![0u8] + i32_be_bytes(
                content.len() as i32,
            ) + content + rest;
            &&& MessageWithoutStreamingEnabled::spec_decodable(b)
            &&& MessageWithoutStreamingEnabled::spec_from_buffer(b)
                == MessageWithoutStreamingEnabledView {
                flags,
                lsn,
                prefix: decode_utf8(prefix),
                content,
            }
        }),
{
    let head = seq![flags as u8] + i64_be_bytes(lsn);
    let b = seq![flags as u8] + i64_be_bytes(lsn) + prefix + seq![0u8] + i32_be_bytes(
        content.len() as i32,
    ) + content + rest;
    lemma_message_body_encoding(head, prefix, content, rest);
    assert(b =~= head + prefix + seq![0u8] + i32_be_bytes(content.len() as i32) + content + rest);
    assert(b[0] == flags as u8);
    lemma_byte_i8(b, 0, flags);
    assert(b.subrange(1, 9) =~= i64_be_bytes(lsn));
    lemma_be_i64_bytes(b, 1, lsn);
}

/// The same inside a streamed transaction, after the transaction id.
pub proof fn lemma_streamed_message_round_trip(
    transaction_id: i32,
    flags: i8,
    lsn: i64,
    prefix: Seq<u8>,
    content: Seq<u8>,
    rest: Seq<u8>,
)
    requires
        forall|j: int| 0 <= j < prefix.len() ==> prefix[j] != 0,
        valid_utf8(prefix),
        prefix.len() <= usize::MAX,
        content.len() <= i32::MAX,
    ensures
        ({
            let b = i32_be_bytes(transaction_id) + seq![flags as u8] + i64_be_bytes(lsn) + prefix
                + seq![0u8] + i32_be_bytes(content.len() as i32) + content + rest;
            &&& MessageWithStreamingEnabled::spec_decodable(b)
            &&& MessageWithStreamingEnabled::spec_from_buffer(b)
                == MessageWithStreamingEnabledView {
                transaction_id,
                flags,
                lsn,
                prefix: decode_utf8(prefix),
                content,
            }
        }),
{
    let head = i32_be_bytes(transaction_id) + seq![flags as u8] + i64_be_bytes(lsn);
    let b = i32_be_bytes(transaction_id) + seq![flags as u8] + i64_be_bytes(lsn) + prefix
        + seq![0u8] + i32_be_bytes(content.len() as i32) + content + rest;
    lemma_message_body_encoding(head, prefix, content, rest);
    assert(b =~= head + prefix + seq![0u8] + i32_be_bytes(content.len() as i32) + content + rest);
    assert(b.subrange(0, 4) =~= i32_be_bytes(transaction_id));
    lemma_be_i32_bytes(b, 0, transaction_id);
    assert(b[4] == flags as u8);
    lemma_byte_i8(b, 4, flags);
    assert(b.subrange(5, 13) =~= i64_be_bytes(lsn));
    lemma_be_i64_bytes(b, 5, lsn);
}

} // verus!
