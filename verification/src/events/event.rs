//! Every message of the protocol, and the byte that announces its kind.
use crate::options::{BinaryValueTrait, StreamingValueTrait};
use crate::utils::{
    dynamic_size_accepts, dynamic_size_error, dynamic_size_parse_defined,
    dynamic_size_parse_is_defined, parse_dynamic_size_event, DynamicSizeEvent,
};
use super::base::delete::DeleteTrait;
use super::base::event::{
    base_event_char, lemma_base_event_type_char_roundtrip, spec_base_event_type_from_char,
    BaseEvent, BaseEventType,
};
use super::base::insert::InsertTrait;
use super::base::relation::RelationTrait;
use super::base::truncate::TruncateTrait;
use super::base::tuple_data::PGValue;
use super::base::type_::TypeTrait;
use super::base::update::UpdateTrait;
use super::message::MessageTrait;
use super::origin::Origin;
use super::stream::{
    lemma_stream_event_type_char_roundtrip, parse_streaming_event, spec_stream_event_type_from_char,
    stream_accepts, stream_event_char, stream_event_decodes, stream_parse_defined,
    stream_parse_is_defined, stream_size_error, StreamAbortTrait, StreamEvent, StreamEventType,
};
use super::stream_and_two_phase::StreamPrepare;
use super::twophase::{
    lemma_two_phase_event_type_char_roundtrip, parse_two_phase_commit_event,
    spec_two_phase_event_type_from_char, two_phase_accepts, two_phase_event_char,
    two_phase_event_decodes, two_phase_size_error, TwoPhaseCommitEvent, TwoPhaseCommitEventType,
};
use vstd::prelude::*;

verus! {

/// A message of the protocol.
#[derive(Debug)]
pub enum Event<
    Binary: BinaryValueTrait + PGValue + std::fmt::Debug,
    Streaming: StreamingValueTrait + MessageTrait + RelationTrait + TypeTrait + InsertTrait<
        Binary,
    > + UpdateTrait<Binary> + DeleteTrait<Binary> + TruncateTrait + StreamAbortTrait,
> {
    Base(BaseEvent<Binary, Streaming>),
    /// Sent when the `messages` option is on.
    Message(<Streaming as MessageTrait>::Type),
    /// Sent when the `origin` option is `any`.
    Origin(Origin),
    /// Sent when the `streaming` option is on.
    Stream(StreamEvent<Streaming>),
    /// Sent when the `two_phase` option is on.
    TwoPhase(TwoPhaseCommitEvent),
    /// Sent when both the `two_phase` and the `streaming` options are on.
    StreamPrepare(StreamPrepare),
}

impl<
    Binary: BinaryValueTrait + PGValue + std::fmt::Debug,
    Streaming: StreamingValueTrait + MessageTrait + RelationTrait + TypeTrait + InsertTrait<
        Binary,
    > + UpdateTrait<Binary> + DeleteTrait<Binary> + TruncateTrait + StreamAbortTrait,
> Event<Binary, Streaming> {
    /// `parse` does not panic on a message of kind `event_type` whose body
    /// is `buffer`.
    pub open spec fn spec_parse_defined(event_type: EventType, buffer: Seq<u8>) -> bool {
        match event_type {
            EventType::Base(t) => BaseEvent::<Binary, Streaming>::spec_parse_defined(t, buffer),
            EventType::Message => dynamic_size_parse_defined::<<Streaming as MessageTrait>::Type>(
                buffer,
            ),
            EventType::Origin => dynamic_size_parse_defined::<Origin>(buffer),
            EventType::Stream(t) => stream_parse_defined::<Streaming>(t, buffer),
            EventType::TwoPhase(t) => true,
            EventType::StreamPrepare => dynamic_size_parse_defined::<StreamPrepare>(buffer),
        }
    }

    /// A body of `len` bytes passes the size check of messages of kind
    /// `event_type`.
    pub open spec fn spec_accepts(event_type: EventType, len: nat) -> bool {
        match event_type {
            EventType::Base(t) => BaseEvent::<Binary, Streaming>::spec_accepts(t, len),
            EventType::Message => dynamic_size_accepts::<<Streaming as MessageTrait>::Type>(len),
            EventType::Origin => dynamic_size_accepts::<Origin>(len),
            EventType::Stream(t) => stream_accepts::<Streaming>(t, len),
            EventType::TwoPhase(t) => two_phase_accepts(t, len),
            EventType::StreamPrepare => dynamic_size_accepts::<StreamPrepare>(len),
        }
    }

    /// The error for a body of kind `event_type` that fails the size check.
    pub open spec fn spec_size_error(event_type: EventType) -> Seq<char> {
        match event_type {
            EventType::Base(t) => BaseEvent::<Binary, Streaming>::spec_size_error(t),
            EventType::Message => dynamic_size_error::<<Streaming as MessageTrait>::Type>(),
            EventType::Origin => dynamic_size_error::<Origin>(),
            EventType::Stream(t) => stream_size_error::<Streaming>(t),
            EventType::TwoPhase(t) => two_phase_size_error(t),
            EventType::StreamPrepare => dynamic_size_error::<StreamPrepare>(),
        }
    }

    /// `self` is the message of kind `event_type` that `buffer` encodes.
    pub open spec fn spec_decodes(self, event_type: EventType, buffer: Seq<u8>) -> bool {
        match event_type {
            EventType::Base(t) => self matches Event::Base(e) && e.spec_decodes(t, buffer),
            EventType::Message => self matches Event::Message(v) && v@
                == <Streaming as MessageTrait>::Type::spec_from_buffer(buffer),
            EventType::Origin => self matches Event::Origin(v) && v@ == Origin::spec_from_buffer(
                buffer,
            ),
            EventType::Stream(t) => self matches Event::Stream(e) && stream_event_decodes(
                e,
                t,
                buffer,
            ),
            EventType::TwoPhase(t) => self matches Event::TwoPhase(e) && two_phase_event_decodes(
                e,
                t,
                buffer,
            ),
            EventType::StreamPrepare => self matches Event::StreamPrepare(v) && v@
                == StreamPrepare::spec_from_buffer(buffer),
        }
    }

    /// Whether `parse` decodes the body `buffer` of a message of kind
    /// `event_type` without panicking.
    pub fn is_parse_defined(event_type: &EventType, buffer: &[u8]) -> (r: bool)
        ensures
            r == Self::spec_parse_defined(*event_type, buffer@),
    {
        match event_type {
            EventType::Base(t) => BaseEvent::<Binary, Streaming>::is_parse_defined(t, buffer),
            EventType::Message => dynamic_size_parse_is_defined::<
                <Streaming as MessageTrait>::Type,
            >(buffer),
            EventType::Origin => dynamic_size_parse_is_defined::<Origin>(buffer),
            EventType::Stream(t) => stream_parse_is_defined::<Streaming>(t, buffer),
            EventType::TwoPhase(_) => true,
            EventType::StreamPrepare => dynamic_size_parse_is_defined::<StreamPrepare>(buffer),
        }
    }

    /// `parse`, on every body: `None` where it would read past the end of
    /// `buffer`.
    pub fn parse_checked(event_type: &EventType, buffer: &[u8]) -> (r: Option<
        Result<Event<Binary, Streaming>, String>,
    >)
        ensures
            r is Some <==> Self::spec_parse_defined(*event_type, buffer@),
            r matches Some(res) ==> {
                &&& res is Ok <==> Self::spec_accepts(*event_type, buffer@.len())
                &&& res matches Ok(e) ==> e.spec_decodes(*event_type, buffer@)
                &&& res matches Err(m) ==> m@ == Self::spec_size_error(*event_type)
            },
    {
        if Self::is_parse_defined(event_type, buffer) {
            Some(Self::parse(event_type, buffer))
        } else {
            None
        }
    }

    /// Decodes the body `buffer` of a message of kind `event_type`.
    pub fn parse(event_type: &EventType, buffer: &[u8]) -> (r: Result<
        Event<Binary, Streaming>,
        String,
    >)
        requires
            Self::spec_parse_defined(*event_type, buffer@),
        ensures
            r is Ok <==> Self::spec_accepts(*event_type, buffer@.len()),
            r matches Ok(e) ==> e.spec_decodes(*event_type, buffer@),
            r matches Err(m) ==> m@ == Self::spec_size_error(*event_type),
    {
        match event_type {
            EventType::Base(base_event_type) => match BaseEvent::parse(base_event_type, buffer) {
                Ok(event) => Ok(Event::Base(event)),
                Err(e) => Err(e),
            },
            EventType::Message => match parse_dynamic_size_event::<
                <Streaming as MessageTrait>::Type,
            >(buffer) {
                Ok(event) => Ok(Event::Message(event)),
                Err(e) => Err(e),
            },
            EventType::Origin => match parse_dynamic_size_event::<Origin>(buffer) {
                Ok(event) => Ok(Event::Origin(event)),
                Err(e) => Err(e),
            },
            EventType::Stream(stream_event_type) => match parse_streaming_event(
                stream_event_type,
                buffer,
            ) {
                Ok(event) => Ok(Event::Stream(event)),
                Err(e) => Err(e),
            },
            EventType::TwoPhase(twophase_event_type) => match parse_two_phase_commit_event(
                twophase_event_type,
                buffer,
            ) {
                Ok(event) => Ok(Event::TwoPhase(event)),
                Err(e) => Err(e),
            },
            EventType::StreamPrepare => match parse_dynamic_size_event::<StreamPrepare>(buffer) {
                Ok(event) => Ok(Event::StreamPrepare(event)),
                Err(e) => Err(e),
            },
        }
    }
}

/// `Event::parse` of a base, stream or two-phase kind is the sub-parser of
/// that family: it is defined on the same bodies, accepts the same sizes,
/// fails with the same text, and its `Ok` is the sub-parser's message in the
/// matching variant.
pub proof fn lemma_event_parse_passes_through<
    Binary: BinaryValueTrait + PGValue + std::fmt::Debug,
    Streaming: StreamingValueTrait + MessageTrait + RelationTrait + TypeTrait + InsertTrait<
        Binary,
    > + UpdateTrait<Binary> + DeleteTrait<Binary> + TruncateTrait + StreamAbortTrait,
>(event_type: EventType, buffer: Seq<u8>, e: Event<Binary, Streaming>)
    ensures
        event_type matches EventType::Base(t) ==> {
            &&& Event::<Binary, Streaming>::spec_parse_defined(event_type, buffer)
                == BaseEvent::<Binary, Streaming>::spec_parse_defined(t, buffer)
            &&& Event::<Binary, Streaming>::spec_accepts(event_type, buffer.len())
                == BaseEvent::<Binary, Streaming>::spec_accepts(t, buffer.len())
            &&& Event::<Binary, Streaming>::spec_size_error(event_type)
                == BaseEvent::<Binary, Streaming>::spec_size_error(t)
            &&& e.spec_decodes(event_type, buffer) <==> (e matches Event::Base(b)
                && b.spec_decodes(t, buffer))
        },
        event_type matches EventType::Stream(t) ==> {
            &&& Event::<Binary, Streaming>::spec_parse_defined(event_type, buffer)
                == stream_parse_defined::<Streaming>(t, buffer)
            &&& Event::<Binary, Streaming>::spec_accepts(event_type, buffer.len())
                == stream_accepts::<Streaming>(t, buffer.len())
            &&& Event::<Binary, Streaming>::spec_size_error(event_type)
                == stream_size_error::<Streaming>(t)
            &&& e.spec_decodes(event_type, buffer) <==> (e matches Event::Stream(s)
                && stream_event_decodes(s, t, buffer))
        },
        event_type matches EventType::TwoPhase(t) ==> {
            &&& Event::<Binary, Streaming>::spec_parse_defined(event_type, buffer)
            &&& Event::<Binary, Streaming>::spec_accepts(event_type, buffer.len())
                == two_phase_accepts(t, buffer.len())
            &&& Event::<Binary, Streaming>::spec_size_error(event_type) == two_phase_size_error(t)
            &&& e.spec_decodes(event_type, buffer) <==> (e matches Event::TwoPhase(p)
                && two_phase_event_decodes(p, t, buffer))
        },
{
}

/// The kind of a message of the protocol.
#[derive(Debug, Clone, Copy, PartialEq, Eq)]
pub enum EventType {
    Base(BaseEventType),
    /// Sent when the `messages` option is on.
    Message,
    /// Sent when the `origin` option is `any`.
    Origin,
    /// Sent when the `streaming` option is on.
    Stream(StreamEventType),
    /// Sent when the `two_phase` option is on.
    TwoPhase(TwoPhaseCommitEventType),
    /// Sent when both the `two_phase` and the `streaming` options are on.
    StreamPrepare,
}

/// The byte that announces a message of kind `t`.
pub open spec fn event_char(t: EventType) -> u8 {
    match t {
        EventType::Base(b) => base_event_char(b),
        EventType::Message => super::message::TYPE_DESCRIMINATOR,
        EventType::Origin => super::origin::TYPE_DESCRIMINATOR,
        EventType::Stream(s) => stream_event_char(s),
        EventType::TwoPhase(p) => two_phase_event_char(p),
        EventType::StreamPrepare => super::stream_and_two_phase::TYPE_DESCRIMINATOR,
    }
}

/// The kind of message that `c` announces, if it announces one.
pub open spec fn spec_event_type_from_char(c: u8) -> Option<EventType> {
    match spec_base_event_type_from_char(c) {
        Some(b) => Some(EventType::Base(b)),
        None => if c == super::message::TYPE_DESCRIMINATOR {
            Some(EventType::Message)
        } else if c == super::origin::TYPE_DESCRIMINATOR {
            Some(EventType::Origin)
        } else {
            match spec_stream_event_type_from_char(c) {
                Some(s) => Some(EventType::Stream(s)),
                None => match spec_two_phase_event_type_from_char(c) {
                    Some(p) => Some(EventType::TwoPhase(p)),
                    None => if c == super::stream_and_two_phase::TYPE_DESCRIMINATOR {
                        Some(EventType::StreamPrepare)
                    } else {
                        None
                    },
                },
            }
        },
    }
}

impl EventType {
    /// The kind of message that `c` announces.
    pub fn from_char(c: u8) -> (r: Option<Self>)
        ensures
            r == spec_event_type_from_char(c),
    {
        match BaseEventType::from_char(c) {
            Some(e) => Some(EventType::Base(e)),
            None => {
                if c == super::message::TYPE_DESCRIMINATOR {
                    Some(EventType::Message)
                } else if c == super::origin::TYPE_DESCRIMINATOR {
                    Some(EventType::Origin)
                } else {
                    match StreamEventType::from_char(c) {
                        Some(e) => Some(EventType::Stream(e)),
                        None => match TwoPhaseCommitEventType::from_char(c) {
                            Some(e) => Some(EventType::TwoPhase(e)),
                            None => {
                                if c == super::stream_and_two_phase::TYPE_DESCRIMINATOR {
                                    Some(EventType::StreamPrepare)
                                } else {
                                    None
                                }
                            },
                        },
                    }
                }
            },
        }
    }
}

/// Each kind of message has its own byte: every kind is read back from its
/// byte, and a byte is read as a kind only if it is that kind's byte.
pub proof fn lemma_event_type_char_roundtrip(t: EventType, c: u8)
    ensures
        spec_event_type_from_char(event_char(t)) == Some(t),
        spec_event_type_from_char(c) == Some(t) ==> event_char(t) == c,
{
    match t {
        EventType::Base(b) => lemma_base_event_type_char_roundtrip(b, c),
        EventType::Stream(s) => lemma_stream_event_type_char_roundtrip(s, c),
        EventType::TwoPhase(p) => lemma_two_phase_event_type_char_roundtrip(p, c),
        _ => {},
    }
}

/// The byte of each kind of message, as the protocol assigns them: `B`
/// begin, `C` commit, `R` relation, `Y` type, `I` insert, `U` update, `D`
/// delete, `T` truncate, `M` message, `O` origin, `S` stream start, `E`
/// stream stop, `c` stream commit, `A` stream abort, `b` begin prepare, `P`
/// prepare, `K` commit prepared, `r` rollback prepared, `p` stream prepare;
/// each kind is announced by its byte, and every other byte announces no
/// message.
pub proof fn lemma_event_type_char_table(c: u8)
    ensures
        spec_event_type_from_char(0x42) == Some(EventType::Base(BaseEventType::BEGIN)),
        spec_event_type_from_char(0x43) == Some(EventType::Base(BaseEventType::COMMIT)),
        spec_event_type_from_char(0x52) == Some(EventType::Base(BaseEventType::RELATION)),
        spec_event_type_from_char(0x59) == Some(EventType::Base(BaseEventType::TYPE)),
        spec_event_type_from_char(0x49) == Some(EventType::Base(BaseEventType::INSERT)),
        spec_event_type_from_char(0x55) == Some(EventType::Base(BaseEventType::UPDATE)),
        spec_event_type_from_char(0x44) == Some(EventType::Base(BaseEventType::DELETE)),
        spec_event_type_from_char(0x54) == Some(EventType::Base(BaseEventType::TRUNCATE)),
        spec_event_type_from_char(0x4d) == Some(EventType::Message),
        spec_event_type_from_char(0x4f) == Some(EventType::Origin),
        spec_event_type_from_char(0x53) == Some(EventType::Stream(StreamEventType::StreamStart)),
        spec_event_type_from_char(0x45) == Some(EventType::Stream(StreamEventType::StreamStop)),
        spec_event_type_from_char(0x63) == Some(EventType::Stream(StreamEventType::StreamCommit)),
        spec_event_type_from_char(0x41) == Some(EventType::Stream(StreamEventType::StreamAbort)),
        spec_event_type_from_char(0x62) == Some(
            EventType::TwoPhase(TwoPhaseCommitEventType::BeginPrepare),
        ),
        spec_event_type_from_char(0x50) == Some(
            EventType::TwoPhase(TwoPhaseCommitEventType::Prepare),
        ),
        spec_event_type_from_char(0x4b) == Some(
            EventType::TwoPhase(TwoPhaseCommitEventType::CommitPrepared),
        ),
        spec_event_type_from_char(0x72) == Some(
            EventType::TwoPhase(TwoPhaseCommitEventType::RollbackPrepared),
        ),
        spec_event_type_from_char(0x70) == Some(EventType::StreamPrepare),
        event_char(EventType::Base(BaseEventType::BEGIN)) == 0x42,
        event_char(EventType::Base(BaseEventType::COMMIT)) == 0x43,
        event_char(EventType::Base(BaseEventType::RELATION)) == 0x52,
        event_char(EventType::Base(BaseEventType::TYPE)) == 0x59,
        event_char(EventType::Base(BaseEventType::INSERT)) == 0x49,
        event_char(EventType::Base(BaseEventType::UPDATE)) == 0x55,
        event_char(EventType::Base(BaseEventType::DELETE)) == 0x44,
        event_char(EventType::Base(BaseEventType::TRUNCATE)) == 0x54,
        event_char(EventType::Message) == 0x4d,
        event_char(EventType::Origin) == 0x4f,
        event_char(EventType::Stream(StreamEventType::StreamStart)) == 0x53,
        event_char(EventType::Stream(StreamEventType::StreamStop)) == 0x45,
        event_char(EventType::Stream(StreamEventType::StreamCommit)) == 0x63,
        event_char(EventType::Stream(StreamEventType::StreamAbort)) == 0x41,
        event_char(EventType::TwoPhase(TwoPhaseCommitEventType::BeginPrepare))
            == 0x62,
        event_char(EventType::TwoPhase(TwoPhaseCommitEventType::Prepare))
            == 0x50,
        event_char(EventType::TwoPhase(TwoPhaseCommitEventType::CommitPrepared))
            == 0x4b,
        event_char(EventType::TwoPhase(TwoPhaseCommitEventType::RollbackPrepared))
            == 0x72,
        event_char(EventType::StreamPrepare) == 0x70,
        spec_event_type_from_char(c) is Some ==> {
            ||| c == 0x42
            ||| c == 0x43
            ||| c == 0x52
            ||| c == 0x59
            ||| c == 0x49
            ||| c == 0x55
            ||| c == 0x44
            ||| c == 0x54
            ||| c == 0x4d
            ||| c == 0x4f
            ||| c == 0x53
            ||| c == 0x45
            ||| c == 0x63
            ||| c == 0x41
            ||| c == 0x62
            ||| c == 0x50
            ||| c == 0x4b
            ||| c == 0x72
            ||| c == 0x70
        },
{
}

} // verus!
