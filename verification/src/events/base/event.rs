//! The messages that every configuration sends, and their kind bytes.
use crate::options::StreamingValueTrait;
use crate::utils::{
    dynamic_size_accepts, dynamic_size_error, dynamic_size_parse_defined,
    dynamic_size_parse_is_defined, static_size_parse_is_defined,
    parse_dynamic_size_event, parse_static_size_event, static_size_accepts, static_size_error,
    static_size_parse_defined, DynamicSizeEvent, StaticSizeEvent,
};
use super::begin::Begin;
use super::commit::Commit;
use super::delete::DeleteTrait;
use super::insert::InsertTrait;
use super::relation::RelationTrait;
use super::truncate::TruncateTrait;
use super::tuple_data::PGValue;
use super::type_::TypeTrait;
use super::update::UpdateTrait;
use vstd::prelude::*;

verus! {

/// The kinds of the messages that every configuration sends.
#[allow(non_camel_case_types)]
#[derive(Debug, Clone, Copy, PartialEq, Eq)]
pub enum BaseEventType {
    BEGIN,
    COMMIT,
    RELATION,
    TYPE,
    INSERT,
    UPDATE,
    DELETE,
    TRUNCATE,
}

/// The byte that announces a message of kind `t`.
pub open spec fn base_event_char(t: BaseEventType) -> u8 {
    match t {
        BaseEventType::BEGIN => 0x42,  // 'B'
        BaseEventType::COMMIT => 0x43,  // 'C'
        BaseEventType::RELATION => 0x52,  // 'R'
        BaseEventType::TYPE => 0x59,  // 'Y'
        BaseEventType::INSERT => 0x49,  // 'I'
        BaseEventType::UPDATE => 0x55,  // 'U'
        BaseEventType::DELETE => 0x44,  // 'D'
        BaseEventType::TRUNCATE => 0x54,  // 'T'
    }
}

/// The kind of message that `c` announces, if it announces one of these.
pub open spec fn spec_base_event_type_from_char(c: u8) -> Option<BaseEventType> {
    if c == 0x42 {
        Some(BaseEventType::BEGIN)
    } else if c == 0x43 {
        Some(BaseEventType::COMMIT)
    } else if c == 0x52 {
        Some(BaseEventType::RELATION)
    } else if c == 0x59 {
        Some(BaseEventType::TYPE)
    } else if c == 0x49 {
        Some(BaseEventType::INSERT)
    } else if c == 0x55 {
        Some(BaseEventType::UPDATE)
    } else if c == 0x44 {
        Some(BaseEventType::DELETE)
    } else if c == 0x54 {
        Some(BaseEventType::TRUNCATE)
    } else {
        None
    }
}

impl BaseEventType {
    /// The byte that announces a message of this kind.
    pub fn to_char(&self) -> (r: u8)
        ensures
            r == base_event_char(*self),
    {
        match self {
            BaseEventType::BEGIN => 0x42,
            BaseEventType::COMMIT => 0x43,
            BaseEventType::RELATION => 0x52,
            BaseEventType::TYPE => 0x59,
            BaseEventType::INSERT => 0x49,
            BaseEventType::UPDATE => 0x55,
            BaseEventType::DELETE => 0x44,
            BaseEventType::TRUNCATE => 0x54,
        }
    }

    /// The kind of message that `c` announces.
    pub fn from_char(c: u8) -> (r: Option<BaseEventType>)
        ensures
            r == spec_base_event_type_from_char(c),
    {
        if c == BaseEventType::BEGIN.to_char() {
            Some(BaseEventType::BEGIN)
        } else if c == BaseEventType::COMMIT.to_char() {
            Some(BaseEventType::COMMIT)
        } else if c == BaseEventType::RELATION.to_char() {
            Some(BaseEventType::RELATION)
        } else if c == BaseEventType::TYPE.to_char() {
            Some(BaseEventType::TYPE)
        } else if c == BaseEventType::INSERT.to_char() {
            Some(BaseEventType::INSERT)
        } else if c == BaseEventType::UPDATE.to_char() {
            Some(BaseEventType::UPDATE)
        } else if c == BaseEventType::DELETE.to_char() {
            Some(BaseEventType::DELETE)
        } else if c == BaseEventType::TRUNCATE.to_char() {
            Some(BaseEventType::TRUNCATE)
        } else {
            None
        }
    }
}

/// Each kind is read back from its byte, and a byte is read as a kind only
/// if it is that kind's byte.
pub proof fn lemma_base_event_type_char_roundtrip(t: BaseEventType, c: u8)
    ensures
        spec_base_event_type_from_char(base_event_char(t)) == Some(t),
        spec_base_event_type_from_char(c) == Some(t) ==> base_event_char(t) == c,
{
}

/// A message that every configuration sends.
#[derive(Debug)]
pub enum BaseEvent<
    Binary: PGValue,
    Streaming: StreamingValueTrait + RelationTrait + TruncateTrait + TypeTrait + InsertTrait<
        Binary,
    > + UpdateTrait<Binary> + DeleteTrait<Binary>,
> {
    Begin(Begin),
    Commit(Commit),
    Relation(<Streaming as RelationTrait>::Type),
    Type(<Streaming as TypeTrait>::Type),
    Insert(<Streaming as InsertTrait<Binary>>::Type),
    Update(<Streaming as UpdateTrait<Binary>>::Type),
    Delete(<Streaming as DeleteTrait<Binary>>::Type),
    Truncate(<Streaming as TruncateTrait>::Type),
}

impl<
    Binary: PGValue,
    Streaming: StreamingValueTrait + RelationTrait + TruncateTrait + TypeTrait + InsertTrait<
        Binary,
    > + UpdateTrait<Binary> + DeleteTrait<Binary>,
> BaseEvent<Binary, Streaming> {
    /// `parse` does not panic on a message of kind `event_type` whose body
    /// is `buffer`.
    pub open spec fn spec_parse_defined(event_type: BaseEventType, buffer: Seq<u8>) -> bool {
        match event_type {
            BaseEventType::BEGIN => static_size_parse_defined::<Begin>(buffer),
            BaseEventType::COMMIT => static_size_parse_defined::<Commit>(buffer),
            BaseEventType::RELATION => dynamic_size_parse_defined::<
                <Streaming as RelationTrait>::Type,
            >(buffer),
            BaseEventType::TYPE => dynamic_size_parse_defined::<<Streaming as TypeTrait>::Type>(
                buffer,
            ),
            BaseEventType::INSERT => dynamic_size_parse_defined::<
                <Streaming as InsertTrait<Binary>>::Type,
            >(buffer),
            BaseEventType::UPDATE => dynamic_size_parse_defined::<
                <Streaming as UpdateTrait<Binary>>::Type,
            >(buffer),
            BaseEventType::DELETE => dynamic_size_parse_defined::<
                <Streaming as DeleteTrait<Binary>>::Type,
            >(buffer),
            BaseEventType::TRUNCATE => dynamic_size_parse_defined::<
                <Streaming as TruncateTrait>::Type,
            >(buffer),
        }
    }

    /// A body of `len` bytes passes the size check of messages of kind
    /// `event_type`.
    pub open spec fn spec_accepts(event_type: BaseEventType, len: nat) -> bool {
        match event_type {
            BaseEventType::BEGIN => static_size_accepts::<Begin>(len),
            BaseEventType::COMMIT => static_size_accepts::<Commit>(len),
            BaseEventType::RELATION => dynamic_size_accepts::<<Streaming as RelationTrait>::Type>(
                len,
            ),
            BaseEventType::TYPE => dynamic_size_accepts::<<Streaming as TypeTrait>::Type>(len),
            BaseEventType::INSERT => dynamic_size_accepts::<
                <Streaming as InsertTrait<Binary>>::Type,
            >(len),
            BaseEventType::UPDATE => dynamic_size_accepts::<
                <Streaming as UpdateTrait<Binary>>::Type,
            >(len),
            BaseEventType::DELETE => dynamic_size_accepts::<
                <Streaming as DeleteTrait<Binary>>::Type,
            >(len),
            BaseEventType::TRUNCATE => dynamic_size_accepts::<<Streaming as TruncateTrait>::Type>(
                len,
            ),
        }
    }

    /// The error for a body of kind `event_type` that fails the size check.
    pub open spec fn spec_size_error(event_type: BaseEventType) -> Seq<char> {
        match event_type {
            BaseEventType::BEGIN => static_size_error::<Begin>(),
            BaseEventType::COMMIT => static_size_error::<Commit>(),
            BaseEventType::RELATION => dynamic_size_error::<<Streaming as RelationTrait>::Type>(),
            BaseEventType::TYPE => dynamic_size_error::<<Streaming as TypeTrait>::Type>(),
            BaseEventType::INSERT => dynamic_size_error::<
                <Streaming as InsertTrait<Binary>>::Type,
            >(),
            BaseEventType::UPDATE => dynamic_size_error::<
                <Streaming as UpdateTrait<Binary>>::Type,
            >(),
            BaseEventType::DELETE => dynamic_size_error::<
                <Streaming as DeleteTrait<Binary>>::Type,
            >(),
            BaseEventType::TRUNCATE => dynamic_size_error::<<Streaming as TruncateTrait>::Type>(),
        }
    }

    /// `self` is the message of kind `event_type` that `buffer` encodes.
    pub open spec fn spec_decodes(self, event_type: BaseEventType, buffer: Seq<u8>) -> bool {
        match event_type {
            BaseEventType::BEGIN => self matches BaseEvent::Begin(v) && v@
                == Begin::spec_from_buffer(buffer),
            BaseEventType::COMMIT => self matches BaseEvent::Commit(v) && v@
                == Commit::spec_from_buffer(buffer),
            BaseEventType::RELATION => self matches BaseEvent::Relation(v) && v@
                == <Streaming as RelationTrait>::Type::spec_from_buffer(buffer),
            BaseEventType::TYPE => self matches BaseEvent::Type(v) && v@
                == <Streaming as TypeTrait>::Type::spec_from_buffer(buffer),
            BaseEventType::INSERT => self matches BaseEvent::Insert(v) && v@
                == <Streaming as InsertTrait<Binary>>::Type::spec_from_buffer(buffer),
            BaseEventType::UPDATE => self matches BaseEvent::Update(v) && v@
                == <Streaming as UpdateTrait<Binary>>::Type::spec_from_buffer(buffer),
            BaseEventType::DELETE => self matches BaseEvent::Delete(v) && v@
                == <Streaming as DeleteTrait<Binary>>::Type::spec_from_buffer(buffer),
            BaseEventType::TRUNCATE => self matches BaseEvent::Truncate(v) && v@
                == <Streaming as TruncateTrait>::Type::spec_from_buffer(buffer),
        }
    }

    /// Whether `parse` decodes the body `buffer` of a message of kind
    /// `event_type` without panicking.
    pub fn is_parse_defined(event_type: &BaseEventType, buffer: &[u8]) -> (r: bool)
        ensures
            r == Self::spec_parse_defined(*event_type, buffer@),
    {
        match event_type {
            BaseEventType::BEGIN => static_size_parse_is_defined::<Begin>(buffer),
            BaseEventType::COMMIT => static_size_parse_is_defined::<Commit>(buffer),
            BaseEventType::RELATION => dynamic_size_parse_is_defined::<
                <Streaming as RelationTrait>::Type,
            >(buffer),
            BaseEventType::TYPE => dynamic_size_parse_is_defined::<<Streaming as TypeTrait>::Type>(
                buffer,
            ),
            BaseEventType::INSERT => dynamic_size_parse_is_defined::<
                <Streaming as InsertTrait<Binary>>::Type,
            >(buffer),
            BaseEventType::UPDATE => dynamic_size_parse_is_defined::<
                <Streaming as UpdateTrait<Binary>>::Type,
            >(buffer),
            BaseEventType::DELETE => dynamic_size_parse_is_defined::<
                <Streaming as DeleteTrait<Binary>>::Type,
            >(buffer),
            BaseEventType::TRUNCATE => dynamic_size_parse_is_defined::<
                <Streaming as TruncateTrait>::Type,
            >(buffer),
        }
    }

    /// `parse`, on every body: `None` where it would read past the end of
    /// `buffer`.
    pub fn parse_checked(event_type: &BaseEventType, buffer: &[u8]) -> (r: Option<
        Result<BaseEvent<Binary, Streaming>, String>,
    >)
        ensures
            r is Some <==> Self::spec_parse_defined(*event_type, buffer@),
            r matches Some(res) ==> {
                &&& res is Ok <==> Self::spec_accepts(*event_type, buffer@.len())
                &&& res matches Ok(e) ==> e.spec_decodes(*event_type, buffer@)
                &&& res matches Err(m) ==> m@ == Self::spec_size_error(*event_type)
            },
    {
        if Self::is_parse_defined(event_type, buffer) {
            Some(Self::parse(event_type, buffer))
        } else {
            None
        }
    }

    /// Decodes the body `buffer` of a message of kind `event_type`.
    pub fn parse(event_type: &BaseEventType, buffer: &[u8]) -> (r: Result<
        BaseEvent<Binary, Streaming>,
        String,
    >)
        requires
            Self::spec_parse_defined(*event_type, buffer@),
        ensures
            r is Ok <==> Self::spec_accepts(*event_type, buffer@.len()),
            r matches Ok(e) ==> e.spec_decodes(*event_type, buffer@),
            r matches Err(m) ==> m@ == Self::spec_size_error(*event_type),
    {
        match event_type {
            BaseEventType::BEGIN => match parse_static_size_event::<Begin>(buffer) {
                Ok(value) => Ok(BaseEvent::Begin(value)),
                Err(e) => Err(e),
            },
            BaseEventType::COMMIT => match parse_static_size_event::<Commit>(buffer) {
                Ok(value) => Ok(BaseEvent::Commit(value)),
                Err(e) => Err(e),
            },
            BaseEventType::RELATION => match parse_dynamic_size_event::<
                <Streaming as RelationTrait>::Type,
            >(buffer) {
                Ok(value) => Ok(BaseEvent::Relation(value)),
                Err(e) => Err(e),
            },
            BaseEventType::TYPE => match parse_dynamic_size_event::<
                <Streaming as TypeTrait>::Type,
            >(buffer) {
                Ok(value) => Ok(BaseEvent::Type(value)),
                Err(e) => Err(e),
            },
            BaseEventType::INSERT => match parse_dynamic_size_event::<
                <Streaming as InsertTrait<Binary>>::Type,
            >(buffer) {
                Ok(value) => Ok(BaseEvent::Insert(value)),
                Err(e) => Err(e),
            },
            BaseEventType::UPDATE => match parse_dynamic_size_event::<
                <Streaming as UpdateTrait<Binary>>::Type,
            >(buffer) {
                Ok(value) => Ok(BaseEvent::Update(value)),
                Err(e) => Err(e),
            },
            BaseEventType::DELETE => match parse_dynamic_size_event::<
                <Streaming as DeleteTrait<Binary>>::Type,
            >(buffer) {
                Ok(value) => Ok(BaseEvent::Delete(value)),
                Err(e) => Err(e),
            },
            BaseEventType::TRUNCATE => match parse_dynamic_size_event::<
                <Streaming as TruncateTrait>::Type,
            >(buffer) {
                Ok(value) => Ok(BaseEvent::Truncate(value)),
                Err(e) => Err(e),
            },
        }
    }
}

} // verus!
