//! The messages that frame the streaming of transactions in progress.
use crate::options::{StreamingValueTraitOff, StreamingValueTraitOn, StreamingValueTraitParallel};
use crate::utils::{
    parse_static_size_event, static_size_accepts, static_size_error, static_size_parse_defined,
    static_size_parse_is_defined, StaticSizeEvent,
};
use crate::wire::{
    be_i32, be_i64, byte_i8, i32_be_bytes, i64_be_bytes, lemma_be_i32_bytes, lemma_be_i64_bytes,
    lemma_byte_i8, read_i32, read_i64, read_i8,
};
use vstd::prelude::*;

verus! {

/// The kinds of the messages that frame a streamed transaction.
#[derive(Debug, Clone, Copy, PartialEq, Eq)]
pub enum StreamEventType {
    StreamStart,
    StreamStop,
    StreamCommit,
    StreamAbort,
}

/// The byte that announces a message of kind `t`.
pub open spec fn stream_event_char(t: StreamEventType) -> u8 {
    match t {
        StreamEventType::StreamStart => 0x53,  // 'S'
        StreamEventType::StreamStop => 0x45,  // 'E'
        StreamEventType::StreamCommit => 0x63,  // 'c'
        StreamEventType::StreamAbort => 0x41,  // 'A'
    }
}

/// The kind of message that `c` announces, if it announces one of these.
pub open spec fn spec_stream_event_type_from_char(c: u8) -> Option<StreamEventType> {
    if c == 0x53 {
        Some(StreamEventType::StreamStart)
    } else if c == 0x45 {
        Some(StreamEventType::StreamStop)
    } else if c == 0x63 {
        Some(StreamEventType::StreamCommit)
    } else if c == 0x41 {
        Some(StreamEventType::StreamAbort)
    } else {
        None
    }
}

impl StreamEventType {
    /// The byte that announces a message of this kind.
    pub fn to_char(&self) -> (r: u8)
        ensures
            r == stream_event_char(*self),
    {
        match self {
            StreamEventType::StreamStart => 0x53,
            StreamEventType::StreamStop => 0x45,
            StreamEventType::StreamCommit => 0x63,
            StreamEventType::StreamAbort => 0x41,
        }
    }

    /// The kind of message that `c` announces.
    pub fn from_char(c: u8) -> (r: Option<Self>)
        ensures
            r == spec_stream_event_type_from_char(c),
    {
        match c {
            0x53 => Some(Self::StreamStart),
            0x45 => Some(Self::StreamStop),
            0x63 => Some(Self::StreamCommit),
            0x41 => Some(Self::StreamAbort),
            _ => None,
        }
    }
}

/// Each kind is read back from its byte, and a byte is read as a kind only
/// if it is that kind's byte.
pub proof fn lemma_stream_event_type_char_roundtrip(t: StreamEventType, c: u8)
    ensures
        spec_stream_event_type_from_char(stream_event_char(t)) == Some(t),
        spec_stream_event_type_from_char(c) == Some(t) ==> stream_event_char(t) == c,
{
}

/// The start of a block of streamed changes.
#[derive(Debug, Clone, Copy, PartialEq, Eq)]
pub struct StreamStart {
    pub transaction_id: i32,
    pub flags: i8,
}

impl View for StreamStart {
    type V = StreamStart;

    open spec fn view(&self) -> StreamStart {
        *self
    }
}

impl StaticSizeEvent for StreamStart {
    const BUFFER_SIZE: usize = 4 + 1;

    const EVENT_NAME: &'static str = "pgoutput::events::stream::StreamStart";

    open spec fn spec_buffer_size() -> usize {
        5
    }

    open spec fn spec_event_name() -> Seq<char> {
        "pgoutput::events::stream::StreamStart"@
    }

    proof fn lemma_constants() {
    }

    open spec fn spec_decodable(buffer: Seq<u8>) -> bool {
        buffer.len() >= 5
    }

    fn is_decodable(buffer: &[u8]) -> (r: bool) {
        buffer.len() >= 5
    }

    open spec fn spec_from_buffer(buffer: Seq<u8>) -> StreamStart {
        StreamStart { transaction_id: be_i32(buffer, 0), flags: byte_i8(buffer, 4) }
    }

    fn from_buffer(buffer: &[u8]) -> (r: Self) {
        Self { transaction_id: read_i32(buffer, 0), flags: read_i8(buffer, 4) }
    }
}

/// The end of a block of streamed changes.
#[derive(Debug, Clone, Copy, PartialEq, Eq)]
pub struct StreamStop;

/// The commit of a streamed transaction.
#[derive(Debug, Clone, Copy, PartialEq, Eq)]
pub struct StreamCommit {
    pub transaction_id: i32,
    pub flags: i8,
    pub lsn: i64,
    pub end_lsn: i64,
    pub timestamp: i64,
}

impl View for StreamCommit {
    type V = StreamCommit;

    open spec fn view(&self) -> StreamCommit {
        *self
    }
}

impl StaticSizeEvent for StreamCommit {
    const BUFFER_SIZE: usize = 4 + 1 + 8 + 8 + 8;

    const EVENT_NAME: &'static str = "pgoutput::events::stream::StreamCommit";

    open spec fn spec_buffer_size() -> usize {
        29
    }

    open spec fn spec_event_name() -> Seq<char> {
        "pgoutput::events::stream::StreamCommit"@
    }

    proof fn lemma_constants() {
    }

    open spec fn spec_decodable(buffer: Seq<u8>) -> bool {
        buffer.len() >= 29
    }

    fn is_decodable(buffer: &[u8]) -> (r: bool) {
        buffer.len() >= 29
    }

    open spec fn spec_from_buffer(buffer: Seq<u8>) -> StreamCommit {
        StreamCommit {
            transaction_id: be_i32(buffer, 0),
            flags: byte_i8(buffer, 4),
            lsn: be_i64(buffer, 5),
            end_lsn: be_i64(buffer, 13),
            timestamp: be_i64(buffer, 21),
        }
    }

    fn from_buffer(buffer: &[u8]) -> (r: Self) {
        Self {
            transaction_id: read_i32(buffer, 0),
            flags: read_i8(buffer, 4),
            lsn: read_i64(buffer, 5),
            end_lsn: read_i64(buffer, 13),
            timestamp: read_i64(buffer, 21),
        }
    }
}

/// Chooses the stream abort message of a configuration.
pub trait StreamAbortTrait {
    type Type: StaticSizeEvent + std::fmt::Debug;
}

/// The abort of a streamed transaction.
#[derive(Debug, Clone, Copy, PartialEq, Eq)]
pub struct StreamAbortWithoutParallel {
    pub transaction_id: i32,
    pub sub_transaction_id: i32,
}

impl View for StreamAbortWithoutParallel {
    type V = StreamAbortWithoutParallel;

    open spec fn view(&self) -> StreamAbortWithoutParallel {
        *self
    }
}

impl StaticSizeEvent for StreamAbortWithoutParallel {
    const BUFFER_SIZE: usize = 4 * 2;

    const EVENT_NAME: &'static str = "pgoutput::events::stream::StreamAbortWithoutParallel";

    open spec fn spec_buffer_size() -> usize {
        8
    }

    open spec fn spec_event_name() -> Seq<char> {
        "pgoutput::events::stream::StreamAbortWithoutParallel"@
    }

    proof fn lemma_constants() {
    }

    open spec fn spec_decodable(buffer: Seq<u8>) -> bool {
        buffer.len() >= 8
    }

    fn is_decodable(buffer: &[u8]) -> (r: bool) {
        buffer.len() >= 8
    }

    open spec fn spec_from_buffer(buffer: Seq<u8>) -> StreamAbortWithoutParallel {
        StreamAbortWithoutParallel {
            transaction_id: be_i32(buffer, 0),
            sub_transaction_id: be_i32(buffer, 4),
        }
    }

    fn from_buffer(buffer: &[u8]) -> (r: Self) {
        Self { transaction_id: read_i32(buffer, 0), sub_transaction_id: read_i32(buffer, 4) }
    }
}

/// The abort of a streamed transaction, when changes are applied in
/// parallel.
#[derive(Debug, Clone, Copy, PartialEq, Eq)]
pub struct StreamAbortWithParallel {
    pub transaction_id: i32,
    pub sub_transaction_id: i32,
    pub lsn: i64,
    pub timestamp: i64,
}

impl View for StreamAbortWithParallel {
    type V = StreamAbortWithParallel;

    open spec fn view(&self) -> StreamAbortWithParallel {
        *self
    }
}

impl StaticSizeEvent for StreamAbortWithParallel {
    /// The two ids and one 64-bit field: the timestamp that `from_buffer`
    /// reads after the LSN is not counted.
    const BUFFER_SIZE: usize = 4 * 2 + 8;

    const EVENT_NAME: &'static str = "pgoutput::events::stream::StreamAbortWithParallel";

    open spec fn spec_buffer_size() -> usize {
        16
    }

    open spec fn spec_event_name() -> Seq<char> {
        "pgoutput::events::stream::StreamAbortWithParallel"@
    }

    proof fn lemma_constants() {
    }

    /// The fields end at byte 24, past `BUFFER_SIZE`: a buffer that passes
    /// the size check of `parse_static_size_event` does not hold them.
    open spec fn spec_decodable(buffer: Seq<u8>) -> bool {
        buffer.len() >= 24
    }

    fn is_decodable(buffer: &[u8]) -> (r: bool) {
        buffer.len() >= 24
    }

    open spec fn spec_from_buffer(buffer: Seq<u8>) -> StreamAbortWithParallel {
        StreamAbortWithParallel {
            transaction_id: be_i32(buffer, 0),
            sub_transaction_id: be_i32(buffer, 4),
            lsn: be_i64(buffer, 8),
            timestamp: be_i64(buffer, 16),
        }
    }

    fn from_buffer(buffer: &[u8]) -> (r: Self) {
        Self {
            transaction_id: read_i32(buffer, 0),
            sub_transaction_id: read_i32(buffer, 4),
            lsn: read_i64(buffer, 8),
            timestamp: read_i64(buffer, 16),
        }
    }
}

impl StreamAbortTrait for StreamingValueTraitOn {
    type Type = StreamAbortWithoutParallel;
}

impl StreamAbortTrait for StreamingValueTraitParallel {
    type Type = StreamAbortWithParallel;
}

impl StreamAbortTrait for StreamingValueTraitOff {
    type Type = StreamAbortWithoutParallel;
}

/// A message that frames a streamed transaction.
#[derive(Debug)]
pub enum StreamEvent<Streaming: StreamAbortTrait> {
    Start(StreamStart),
    Stop(StreamStop),
    Commit(StreamCommit),
    Abort(Streaming::Type),
}

/// `parse_streaming_event` does not panic on a message of kind `t` whose
/// body is `buffer`.
pub open spec fn stream_parse_defined<S: StreamAbortTrait>(t: StreamEventType, buffer: Seq<u8>) -> bool {
    match t {
        StreamEventType::StreamStart => static_size_parse_defined::<StreamStart>(buffer),
        StreamEventType::StreamStop => true,
        StreamEventType::StreamCommit => static_size_parse_defined::<StreamCommit>(buffer),
        StreamEventType::StreamAbort => static_size_parse_defined::<S::Type>(buffer),
    }
}

/// Whether `parse_streaming_event` decodes the body `buffer` of a message of
/// kind `t` without panicking.
pub fn stream_parse_is_defined<S: StreamAbortTrait>(t: &StreamEventType, buffer: &[u8]) -> (r: bool)
    ensures
        r == stream_parse_defined::<S>(*t, buffer@),
{
    match t {
        StreamEventType::StreamStart => static_size_parse_is_defined::<StreamStart>(buffer),
        StreamEventType::StreamStop => true,
        StreamEventType::StreamCommit => static_size_parse_is_defined::<StreamCommit>(buffer),
        StreamEventType::StreamAbort => static_size_parse_is_defined::<S::Type>(buffer),
    }
}

/// A body of `len` bytes passes the size check of messages of kind `t`.
pub open spec fn stream_accepts<S: StreamAbortTrait>(t: StreamEventType, len: nat) -> bool {
    match t {
        StreamEventType::StreamStart => static_size_accepts::<StreamStart>(len),
        StreamEventType::StreamStop => true,
        StreamEventType::StreamCommit => static_size_accepts::<StreamCommit>(len),
        StreamEventType::StreamAbort => static_size_accepts::<S::Type>(len),
    }
}

/// The error for a body of kind `t` that fails the size check.
pub open spec fn stream_size_error<S: StreamAbortTrait>(t: StreamEventType) -> Seq<char> {
    match t {
        StreamEventType::StreamStart => static_size_error::<StreamStart>(),
        StreamEventType::StreamStop => Seq::empty(),
        StreamEventType::StreamCommit => static_size_error::<StreamCommit>(),
        StreamEventType::StreamAbort => static_size_error::<S::Type>(),
    }
}

/// `e` is the message of kind `t` that `buffer` encodes.
pub open spec fn stream_event_decodes<S: StreamAbortTrait>(
    e: StreamEvent<S>,
    t: StreamEventType,
    buffer: Seq<u8>,
) -> bool {
    match t {
        StreamEventType::StreamStart => e matches StreamEvent::Start(v) && v@
            == StreamStart::spec_from_buffer(buffer),
        StreamEventType::StreamStop => e matches StreamEvent::Stop(_),
        StreamEventType::StreamCommit => e matches StreamEvent::Commit(v) && v@
            == StreamCommit::spec_from_buffer(buffer),
        StreamEventType::StreamAbort => e matches StreamEvent::Abort(v) && v@
            == S::Type::spec_from_buffer(buffer),
    }
}

/// Decodes the body `buffer` of a message of kind `event_type`; a stream
/// stop has no body and ignores `buffer`.
pub fn parse_streaming_event<Streaming: StreamAbortTrait>(
    event_type: &StreamEventType,
    buffer: &[u8],
) -> (r: Result<StreamEvent<Streaming>, String>)
    requires
        stream_parse_defined::<Streaming>(*event_type, buffer@),
    ensures
        r is Ok <==> stream_accepts::<Streaming>(*event_type, buffer@.len()),
        r matches Ok(e) ==> stream_event_decodes(e, *event_type, buffer@),
        r matches Err(m) ==> m@ == stream_size_error::<Streaming>(*event_type),
{
    match event_type {
        StreamEventType::StreamStart => match parse_static_size_event::<StreamStart>(buffer) {
            Ok(value) => Ok(StreamEvent::Start(value)),
            Err(e) => Err(e),
        },
        StreamEventType::StreamStop => Ok(StreamEvent::Stop(StreamStop)),
        StreamEventType::StreamCommit => match parse_static_size_event::<StreamCommit>(buffer) {
            Ok(value) => Ok(StreamEvent::Commit(value)),
            Err(e) => Err(e),
        },
        StreamEventType::StreamAbort => match parse_static_size_event::<Streaming::Type>(buffer) {
            Ok(value) => Ok(StreamEvent::Abort(value)),
            Err(e) => Err(e),
        },
    }
}

/// A stream start body made of the transaction id and the flags byte
/// decodes to those two fields.
pub proof fn lemma_stream_start_round_trip(transaction_id: i32, flags: i8)
    ensures
        ({
            let b = i32_be_bytes(transaction_id) + seq![flags as u8];
            &&& b.len() == StreamStart::spec_buffer_size()
            &&& StreamStart::spec_decodable(b)
            &&& StreamStart::spec_from_buffer(b) == StreamStart { transaction_id, flags }
        }),
{
    let b = i32_be_bytes(transaction_id) + seq![flags as u8];
    assert(b.subrange(0, 4) =~= i32_be_bytes(transaction_id));
    lemma_be_i32_bytes(b, 0, transaction_id);
    assert(b[4] == flags as u8);
    lemma_byte_i8(b, 4, flags);
}

/// A stream commit body made of the transaction id, the flags byte, the
/// commit LSN, the end LSN and the commit timestamp decodes to those five
/// fields, each in its place.
pub proof fn lemma_stream_commit_round_trip(
    transaction_id: i32,
    flags: i8,
    lsn: i64,
    end_lsn: i64,
    timestamp: i64,
)
    ensures
        ({
            let b = i32_be_bytes(transaction_id) + seq![flags as u8] + i64_be_bytes(lsn)
                + i64_be_bytes(end_lsn) + i64_be_bytes(timestamp);
            &&& b.len() == StreamCommit::spec_buffer_size()
            &&& StreamCommit::spec_decodable(b)
            &&& StreamCommit::spec_from_buffer(b) == StreamCommit {
                transaction_id,
                flags,
                lsn,
                end_lsn,
                timestamp,
            }
        }),
{
    let b = i32_be_bytes(transaction_id) + seq![flags as u8] + i64_be_bytes(lsn) + i64_be_bytes(
        end_lsn,
    ) + i64_be_bytes(timestamp);
    assert(b.subrange(0, 4) =~= i32_be_bytes(transaction_id));
    lemma_be_i32_bytes(b, 0, transaction_id);
    assert(b[4] == flags as u8);
    lemma_byte_i8(b, 4, flags);
    assert(b.subrange(5, 13) =~= i64_be_bytes(lsn));
    assert(b.subrange(13, 21) =~= i64_be_bytes(end_lsn));
    assert(b.subrange(21, 29) =~= i64_be_bytes(timestamp));
    lemma_be_i64_bytes(b, 5, lsn);
    lemma_be_i64_bytes(b, 13, end_lsn);
    lemma_be_i64_bytes(b, 21, timestamp);
}

/// A stream abort body made of the transaction id and the subtransaction
/// id decodes to those two ids; with the abort LSN and the abort timestamp
/// after them, as sent when changes are applied in parallel, it decodes to
/// all four.
pub proof fn lemma_stream_abort_round_trip(
    transaction_id: i32,
    sub_transaction_id: i32,
    lsn: i64,
    timestamp: i64,
)
    ensures
        ({
            let b = i32_be_bytes(transaction_id) + i32_be_bytes(sub_transaction_id);
            &&& b.len() == StreamAbortWithoutParallel::spec_buffer_size()
            &&& StreamAbortWithoutParallel::spec_decodable(b)
            &&& StreamAbortWithoutParallel::spec_from_buffer(b) == StreamAbortWithoutParallel {
                transaction_id,
                sub_transaction_id,
            }
        }),
        ({
            let b = i32_be_bytes(transaction_id) + i32_be_bytes(sub_transaction_id) + i64_be_bytes(
                lsn,
            ) + i64_be_bytes(timestamp);
            &&& StreamAbortWithParallel::spec_decodable(b)
            &&& StreamAbortWithParallel::spec_from_buffer(b) == StreamAbortWithParallel {
                transaction_id,
                sub_transaction_id,
                lsn,
                timestamp,
            }
        }),
{
    let b = i32_be_bytes(transaction_id) + i32_be_bytes(sub_transaction_id);
    assert(b.subrange(0, 4) =~= i32_be_bytes(transaction_id));
    assert(b.subrange(4, 8) =~= i32_be_bytes(sub_transaction_id));
    lemma_be_i32_bytes(b, 0, transaction_id);
    lemma_be_i32_bytes(b, 4, sub_transaction_id);
    let c = b + i64_be_bytes(lsn) + i64_be_bytes(timestamp);
    assert(c.subrange(0, 4) =~= i32_be_bytes(transaction_id));
    assert(c.subrange(4, 8) =~= i32_be_bytes(sub_transaction_id));
    assert(c.subrange(8, 16) =~= i64_be_bytes(lsn));
    assert(c.subrange(16, 24) =~= i64_be_bytes(timestamp));
    lemma_be_i32_bytes(c, 0, transaction_id);
    lemma_be_i32_bytes(c, 4, sub_transaction_id);
    lemma_be_i64_bytes(c, 8, lsn);
    lemma_be_i64_bytes(c, 16, timestamp);
}

} // verus!
