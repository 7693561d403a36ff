//! The options of the `pgoutput` plugin, chosen at the type level: each
//! option is a trait, and each of its values a type that implements it.
use vstd::prelude::*;

verus! {

/// The `streaming` option.
pub trait StreamingValueTrait {
    /// Whether changes of transactions in progress are streamed.
    const ENABLED: bool;

    /// The option's value as it is written in the options string.
    spec fn spec_to_str() -> Seq<char>;

    fn to_str() -> (r: &'static str)
        ensures
            r@ == Self::spec_to_str(),
    ;
}

#[derive(Debug)]
pub struct StreamingValueTraitOn {}

impl StreamingValueTrait for StreamingValueTraitOn {
    const ENABLED: bool = true;

    open spec fn spec_to_str() -> Seq<char> {
        "on"@
    }

    fn to_str() -> (r: &'static str) {
        "on"
    }
}

#[derive(Debug)]
pub struct StreamingValueTraitParallel {}

impl StreamingValueTrait for StreamingValueTraitParallel {
    const ENABLED: bool = true;

    open spec fn spec_to_str() -> Seq<char> {
        "parallel"@
    }

    fn to_str() -> (r: &'static str) {
        "parallel"
    }
}

#[derive(Debug)]
pub struct StreamingValueTraitOff {}

impl StreamingValueTrait for StreamingValueTraitOff {
    const ENABLED: bool = false;

    open spec fn spec_to_str() -> Seq<char> {
        "off"@
    }

    fn to_str() -> (r: &'static str) {
        "off"
    }
}

/// The `binary` option: whether column values come in binary form.
pub trait BinaryValueTrait: std::fmt::Debug {
    const BINARY: bool;

    spec fn spec_to_str() -> Seq<char>;

    fn to_str() -> (r: &'static str)
        ensures
            r@ == Self::spec_to_str(),
    ;
}

#[derive(Debug)]
pub struct BinaryValueTraitOn {}

#[derive(Debug)]
pub struct BinaryValueTraitOff {}

impl BinaryValueTrait for BinaryValueTraitOn {
    const BINARY: bool = true;

    open spec fn spec_to_str() -> Seq<char> {
        "true"@
    }

    fn to_str() -> (r: &'static str) {
        "true"
    }
}

impl BinaryValueTrait for BinaryValueTraitOff {
    const BINARY: bool = false;

    open spec fn spec_to_str() -> Seq<char> {
        "false"@
    }

    fn to_str() -> (r: &'static str) {
        "false"
    }
}

/// The `messages` option.
pub trait MessagesValueTrait {
    spec fn spec_to_str() -> Seq<char>;

    fn to_str() -> (r: &'static str)
        ensures
            r@ == Self::spec_to_str(),
    ;
}

#[derive(Debug)]
pub struct MessagesValueTraitOn {}

impl MessagesValueTrait for MessagesValueTraitOn {
    open spec fn spec_to_str() -> Seq<char> {
        "true"@
    }

    fn to_str() -> (r: &'static str) {
        "true"
    }
}

#[derive(Debug)]
pub struct MessagesValueTraitOff {}

impl MessagesValueTrait for MessagesValueTraitOff {
    open spec fn spec_to_str() -> Seq<char> {
        "false"@
    }

    fn to_str() -> (r: &'static str) {
        "false"
    }
}

/// The `two_phase` option.
pub trait TwoPhaseValueTrait {
    spec fn spec_to_str() -> Seq<char>;

    fn to_str() -> (r: &'static str)
        ensures
            r@ == Self::spec_to_str(),
    ;
}

#[derive(Debug)]
pub struct TwoPhaseValueTraitOn {}

impl TwoPhaseValueTrait for TwoPhaseValueTraitOn {
    open spec fn spec_to_str() -> Seq<char> {
        "true"@
    }

    fn to_str() -> (r: &'static str) {
        "true"
    }
}

#[derive(Debug)]
pub struct TwoPhaseValueTraitOff {}

impl TwoPhaseValueTrait for TwoPhaseValueTraitOff {
    open spec fn spec_to_str() -> Seq<char> {
        "false"@
    }

    fn to_str() -> (r: &'static str) {
        "false"
    }
}

/// The `origin` option.
pub trait OriginValueTrait {
    spec fn spec_to_str() -> Seq<char>;

    fn to_str() -> (r: &'static str)
        ensures
            r@ == Self::spec_to_str(),
    ;
}

#[derive(Debug)]
pub struct OriginValueTraitAny {}

impl OriginValueTrait for OriginValueTraitAny {
    open spec fn spec_to_str() -> Seq<char> {
        "any"@
    }

    fn to_str() -> (r: &'static str) {
        "any"
    }
}

#[derive(Debug)]
pub struct OriginValueTraitNone {}

impl OriginValueTrait for OriginValueTraitNone {
    open spec fn spec_to_str() -> Seq<char> {
        "none"@
    }

    fn to_str() -> (r: &'static str) {
        "none"
    }
}

/// The options string with the given values of `binary`, `messages`,
/// `streaming`, `two_phase` and `origin`.
pub open spec fn options_string(
    binary: Seq<char>,
    messages: Seq<char>,
    streaming: Seq<char>,
    two_phase: Seq<char>,
    origin: Seq<char>,
) -> Seq<char> {
    "proto_version '4', binary '"@ + binary + "', messages: '"@ + messages + "', streaming: '"@
        + streaming + "', two_phase: '"@ + two_phase + "', origin: '"@ + origin + "'"@
}

/// The options string that selects protocol version 4 and the option values
/// given by the type parameters.
pub fn build_pgoutput_static_options_string_parts<
    Binary: BinaryValueTrait,
    Streaming: StreamingValueTrait,
    Messages: MessagesValueTrait,
    TwoPhase: TwoPhaseValueTrait,
    Origin: OriginValueTrait,
>() -> (r: String)
    ensures
        r@ == options_string(
            Binary::spec_to_str(),
            Messages::spec_to_str(),
            Streaming::spec_to_str(),
            TwoPhase::spec_to_str(),
            Origin::spec_to_str(),
        ),
{
    let mut s = String::from_str("proto_version '4', binary '");
    s.append(Binary::to_str());
    s.append("', messages: '");
    s.append(<Messages as MessagesValueTrait>::to_str());
    s.append("', streaming: '");
    s.append(Streaming::to_str());
    s.append("', two_phase: '");
    s.append(<TwoPhase as TwoPhaseValueTrait>::to_str());
    s.append("', origin: '");
    s.append(<Origin as OriginValueTrait>::to_str());
    s.append("'");
    s
}

/// The options string is the label of each option followed by the value
/// given for it, verbatim, in the order `binary`, `messages`, `streaming`,
/// `two_phase`, `origin`, and a closing quote, and nothing else.
pub proof fn lemma_options_string_values(
    binary: Seq<char>,
    messages: Seq<char>,
    streaming: Seq<char>,
    two_phase: Seq<char>,
    origin: Seq<char>,
)
    ensures
        ({
            let r = options_string(binary, messages, streaming, two_phase, origin);
            let l_binary = "proto_version '4', binary '"@;
            let l_messages = "', messages: '"@;
            let l_streaming = "', streaming: '"@;
            let l_two_phase = "', two_phase: '"@;
            let l_origin = "', origin: '"@;
            let p_binary = l_binary.len() as int;
            let p_messages = p_binary + binary.len() + l_messages.len();
            let p_streaming = p_messages + messages.len() + l_streaming.len();
            let p_two_phase = p_streaming + streaming.len() + l_two_phase.len();
            let p_origin = p_two_phase + two_phase.len() + l_origin.len();
            &&& r.len() == p_origin + origin.len() + 1
            &&& r.subrange(0, p_binary) == l_binary
            &&& r.subrange(p_binary, p_binary + binary.len()) == binary
            &&& r.subrange(p_binary + binary.len(), p_messages) == l_messages
            &&& r.subrange(p_messages, p_messages + messages.len()) == messages
            &&& r.subrange(p_messages + messages.len(), p_streaming) == l_streaming
            &&& r.subrange(p_streaming, p_streaming + streaming.len()) == streaming
            &&& r.subrange(p_streaming + streaming.len(), p_two_phase) == l_two_phase
            &&& r.subrange(p_two_phase, p_two_phase + two_phase.len()) == two_phase
            &&& r.subrange(p_two_phase + two_phase.len(), p_origin) == l_origin
            &&& r.subrange(p_origin, p_origin + origin.len()) == origin
            &&& r.subrange(p_origin + origin.len(), r.len() as int) == "'"@
        }),
{
    let r = options_string(binary, messages, streaming, two_phase, origin);
    let l_binary = "proto_version '4', binary '"@;
    let l_messages = "', messages: '"@;
    let l_streaming = "', streaming: '"@;
    let l_two_phase = "', two_phase: '"@;
    let l_origin = "', origin: '"@;
    let p_binary = l_binary.len() as int;
    let p_messages = p_binary + binary.len() + l_messages.len();
    let p_streaming = p_messages + messages.len() + l_streaming.len();
    let p_two_phase = p_streaming + streaming.len() + l_two_phase.len();
    let p_origin = p_two_phase + two_phase.len() + l_origin.len();
    assert(r.subrange(0, p_binary) =~= l_binary);
    assert(r.subrange(p_binary, p_binary + binary.len()) =~= binary);
    assert(r.subrange(p_binary + binary.len(), p_messages) =~= l_messages);
    assert(r.subrange(p_messages, p_messages + messages.len()) =~= messages);
    assert(r.subrange(p_messages + messages.len(), p_streaming) =~= l_streaming);
    assert(r.subrange(p_streaming, p_streaming + streaming.len()) =~= streaming);
    assert(r.subrange(p_streaming + streaming.len(), p_two_phase) =~= l_two_phase);
    assert(r.subrange(p_two_phase, p_two_phase + two_phase.len()) =~= two_phase);
    assert(r.subrange(p_two_phase + two_phase.len(), p_origin) =~= l_origin);
    assert(r.subrange(p_origin, p_origin + origin.len()) =~= origin);
    assert(r.subrange(p_origin + origin.len(), r.len() as int) =~= "'"@);
    reveal_strlit("'");
}

/// Each value of each option is written as PostgreSQL spells it.
pub proof fn lemma_option_value_texts()
    ensures
        BinaryValueTraitOn::spec_to_str() == "true"@,
        BinaryValueTraitOff::spec_to_str() == "false"@,
        MessagesValueTraitOn::spec_to_str() == "true"@,
        MessagesValueTraitOff::spec_to_str() == "false"@,
        StreamingValueTraitOn::spec_to_str() == "on"@,
        StreamingValueTraitParallel::spec_to_str() == "parallel"@,
        StreamingValueTraitOff::spec_to_str() == "off"@,
        TwoPhaseValueTraitOn::spec_to_str() == "true"@,
        TwoPhaseValueTraitOff::spec_to_str() == "false"@,
        OriginValueTraitAny::spec_to_str() == "any"@,
        OriginValueTraitNone::spec_to_str() == "none"@,
{
}

} // verus!
