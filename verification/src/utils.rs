//! What every event decoder shares: the size check in front of decoding.
use vstd::prelude::*;

verus! {

/// An event whose encoding has one fixed size.
pub trait StaticSizeEvent: Sized + View {
    const BUFFER_SIZE: usize;

    /// The path of the event's type, which size errors name.
    const EVENT_NAME: &'static str;

    /// The value of `BUFFER_SIZE`.
    spec fn spec_buffer_size() -> usize;

    /// The text of `EVENT_NAME`.
    spec fn spec_event_name() -> Seq<char>;

    /// The constants are what `spec_buffer_size` and `spec_event_name` say.
    proof fn lemma_constants()
        ensures
            Self::BUFFER_SIZE == Self::spec_buffer_size(),
            Self::EVENT_NAME@ == Self::spec_event_name(),
    ;

    /// `buffer` holds every byte that `from_buffer` reads.
    spec fn spec_decodable(buffer: Seq<u8>) -> bool;

    /// The event that `buffer` encodes.
    spec fn spec_from_buffer(buffer: Seq<u8>) -> Self::V;

    /// Whether `buffer` holds every byte that `from_buffer` reads.
    fn is_decodable(buffer: &[u8]) -> (r: bool)
        ensures
            r == Self::spec_decodable(buffer@),
    ;

    fn from_buffer(buffer: &[u8]) -> (r: Self)
        requires
            Self::spec_decodable(buffer@),
        ensures
            r@ == Self::spec_from_buffer(buffer@),
    ;
}

/// An event whose encoding has a lower bound on its size.
pub trait DynamicSizeEvent: Sized + View {
    const MIN_BUFFER_SIZE: usize;

    /// The path of the event's type, which size errors name.
    const EVENT_NAME: &'static str;

    /// The value of `MIN_BUFFER_SIZE`.
    spec fn spec_min_buffer_size() -> usize;

    /// The text of `EVENT_NAME`.
    spec fn spec_event_name() -> Seq<char>;

    /// The constants are what `spec_min_buffer_size` and `spec_event_name`
    /// say.
    proof fn lemma_constants()
        ensures
            Self::MIN_BUFFER_SIZE == Self::spec_min_buffer_size(),
            Self::EVENT_NAME@ == Self::spec_event_name(),
    ;

    /// `buffer` holds every byte that `from_buffer` reads.
    spec fn spec_decodable(buffer: Seq<u8>) -> bool;

    /// The event that `buffer` encodes.
    spec fn spec_from_buffer(buffer: Seq<u8>) -> Self::V;

    /// Whether `buffer` holds every byte that `from_buffer` reads.
    fn is_decodable(buffer: &[u8]) -> (r: bool)
        ensures
            r == Self::spec_decodable(buffer@),
    ;

    fn from_buffer(buffer: &[u8]) -> (r: Self)
        requires
            Self::spec_decodable(buffer@),
        ensures
            r@ == Self::spec_from_buffer(buffer@),
    ;
}

/// `parse_static_size_event::<T>` does not panic on `buffer`.
pub open spec fn static_size_parse_defined<T: StaticSizeEvent>(buffer: Seq<u8>) -> bool {
    buffer.len() == T::spec_buffer_size() ==> T::spec_decodable(buffer)
}

/// `parse_static_size_event::<T>` decodes a buffer of `len` bytes.
pub open spec fn static_size_accepts<T: StaticSizeEvent>(len: nat) -> bool {
    len == T::spec_buffer_size()
}

/// The error of `parse_static_size_event::<T>`.
pub open spec fn static_size_error<T: StaticSizeEvent>() -> Seq<char> {
    size_error_text(T::spec_event_name(), T::spec_buffer_size(), false)
}

/// `parse_dynamic_size_event::<T>` does not panic on `buffer`.
pub open spec fn dynamic_size_parse_defined<T: DynamicSizeEvent>(buffer: Seq<u8>) -> bool {
    buffer.len() >= T::spec_min_buffer_size() ==> T::spec_decodable(buffer)
}

/// `parse_dynamic_size_event::<T>` decodes a buffer of `len` bytes.
pub open spec fn dynamic_size_accepts<T: DynamicSizeEvent>(len: nat) -> bool {
    len >= T::spec_min_buffer_size()
}

/// The error of `parse_dynamic_size_event::<T>`.
pub open spec fn dynamic_size_error<T: DynamicSizeEvent>() -> Seq<char> {
    size_error_text(T::spec_event_name(), T::spec_min_buffer_size(), true)
}

/// The decimal digit of `d`.
pub open spec fn digit_char(d: nat) -> char {
    if d == 0 {
        '0'
    } else if d == 1 {
        '1'
    } else if d == 2 {
        '2'
    } else if d == 3 {
        '3'
    } else if d == 4 {
        '4'
    } else if d == 5 {
        '5'
    } else if d == 6 {
        '6'
    } else if d == 7 {
        '7'
    } else if d == 8 {
        '8'
    } else {
        '9'
    }
}

/// `n` written in decimal, as `Display` writes an unsigned integer.
pub open spec fn decimal(n: nat) -> Seq<char>
    decreases n,
{
    if n < 10 {
        seq![digit_char(n)]
    } else {
        decimal(n / 10).push(digit_char(n % 10))
    }
}

/// The number that the decimal digits `s` write, most significant first.
pub open spec fn decimal_value(s: Seq<char>) -> int
    decreases s.len(),
{
    if s.len() == 0 {
        0
    } else {
        decimal_value(s.drop_last()) * 10 + (s.last() as int - '0' as int)
    }
}

/// The digit of `d` is the character `d` places after `0`.
proof fn lemma_digit_char_value(d: nat)
    requires
        d < 10,
    ensures
        digit_char(d) as int == '0' as int + d,
{
    assert('0' as int == 48);
    assert('9' as int == 57);
}

/// `decimal(n)` writes `n`: its characters are the digits `0` to `9`, it
/// reads back as `n`, and it starts with `0` only where `n` is zero (then
/// it is that one digit).
pub proof fn lemma_decimal_reads_back(n: nat)
    ensures
        decimal(n).len() >= 1,
        forall|i: int|
            0 <= i < decimal(n).len() ==> '0' as int <= #[trigger] decimal(n)[i] as int
                <= '9' as int,
        decimal_value(decimal(n)) == n,
        decimal(n)[0] == '0' ==> n == 0 && decimal(n).len() == 1,
    decreases n,
{
    lemma_digit_char_value(n % 10);
    if n < 10 {
        assert(decimal(n).drop_last() =~= Seq::<char>::empty());
        assert(decimal_value(decimal(n)) == decimal_value(Seq::<char>::empty()) * 10 + (
        digit_char(n) as int - '0' as int));
    } else {
        let q = n / 10;
        lemma_decimal_reads_back(q);
        let d = decimal(n);
        assert(d.drop_last() =~= decimal(q));
        assert(d.last() == digit_char(n % 10));
        assert(n == q * 10 + n % 10);
        assert(decimal_value(d) == decimal_value(decimal(q)) * 10 + (digit_char(n % 10) as int
            - '0' as int));
        assert(d[0] == decimal(q)[0]);
        assert forall|i: int| 0 <= i < d.len() implies '0' as int <= #[trigger] d[i] as int
            <= '9' as int by {
            if i < d.len() - 1 {
                assert(d[i] == decimal(q)[i]);
            }
        }
    }
}

/// The message that names a type whose event buffer does not have `size`
/// bytes (`at_least` false) or at least `size` bytes (`at_least` true).
pub open spec fn size_error_text(event_name: Seq<char>, size: usize, at_least: bool) -> Seq<
    char,
> {
    if at_least {
        event_name + " event buffer size must be gte "@ + decimal(size as nat)
    } else {
        event_name + " event buffer size must be "@ + decimal(size as nat)
    }
}

/// The decimal digit `d` as a string.
fn digit_str(d: usize) -> (r: &'static str)
    requires
        d < 10,
    ensures
        r@ == seq![digit_char(d as nat)],
{
    if d == 0 {
        proof {
            reveal_strlit("0");
        }
        "0"
    } else if d == 1 {
        proof {
            reveal_strlit("1");
        }
        "1"
    } else if d == 2 {
        proof {
            reveal_strlit("2");
        }
        "2"
    } else if d == 3 {
        proof {
            reveal_strlit("3");
        }
        "3"
    } else if d == 4 {
        proof {
            reveal_strlit("4");
        }
        "4"
    } else if d == 5 {
        proof {
            reveal_strlit("5");
        }
        "5"
    } else if d == 6 {
        proof {
            reveal_strlit("6");
        }
        "6"
    } else if d == 7 {
        proof {
            reveal_strlit("7");
        }
        "7"
    } else if d == 8 {
        proof {
            reveal_strlit("8");
        }
        "8"
    } else {
        proof {
            reveal_strlit("9");
        }
        "9"
    }
}

/// Appends `n` written in decimal to `s`.
fn append_decimal(s: &mut String, n: usize)
    ensures
        final(s)@ == old(s)@ + decimal(n as nat),
    decreases n,
{
    if n >= 10 {
        append_decimal(s, n / 10);
    }
    s.append(digit_str(n % 10));
    assert(s@ =~= old(s)@ + decimal(n as nat));
}

/// The message that `size_error_text` states.
fn size_error(event_name: &str, size: usize, at_least: bool) -> (r: String)
    ensures
        r@ == size_error_text(event_name@, size, at_least),
{
    let mut s = String::from_str(event_name);
    if at_least {
        s.append(" event buffer size must be gte ");
    } else {
        s.append(" event buffer size must be ");
    }
    append_decimal(&mut s, size);
    s
}

/// Whether `parse_static_size_event::<T>` decodes `buffer` without
/// panicking.
pub fn static_size_parse_is_defined<T: StaticSizeEvent>(buffer: &[u8]) -> (r: bool)
    ensures
        r == static_size_parse_defined::<T>(buffer@),
{
    proof {
        T::lemma_constants();
    }
    buffer.len() != T::BUFFER_SIZE || T::is_decodable(buffer)
}

/// Whether `parse_dynamic_size_event::<T>` decodes `buffer` without
/// panicking.
pub fn dynamic_size_parse_is_defined<T: DynamicSizeEvent>(buffer: &[u8]) -> (r: bool)
    ensures
        r == dynamic_size_parse_defined::<T>(buffer@),
{
    proof {
        T::lemma_constants();
    }
    buffer.len() < T::MIN_BUFFER_SIZE || T::is_decodable(buffer)
}

/// Decodes a `T` from a buffer that must have exactly `T::BUFFER_SIZE` bytes.
pub fn parse_static_size_event<T: StaticSizeEvent>(buffer: &[u8]) -> (r: Result<T, String>)
    requires
        static_size_parse_defined::<T>(buffer@),
    ensures
        r is Ok <==> static_size_accepts::<T>(buffer@.len()),
        r matches Ok(v) ==> v@ == T::spec_from_buffer(buffer@),
        r matches Err(m) ==> m@ == static_size_error::<T>(),
{
    proof {
        T::lemma_constants();
    }
    if buffer.len() != T::BUFFER_SIZE {
        return Err(size_error(T::EVENT_NAME, T::BUFFER_SIZE, false));
    }
    Ok(T::from_buffer(buffer))
}

/// Decodes a `T` from a buffer that must have at least `T::MIN_BUFFER_SIZE`
/// bytes.
pub fn parse_dynamic_size_event<T: DynamicSizeEvent>(buffer: &[u8]) -> (r: Result<T, String>)
    requires
        dynamic_size_parse_defined::<T>(buffer@),
    ensures
        r is Ok <==> dynamic_size_accepts::<T>(buffer@.len()),
        r matches Ok(v) ==> v@ == T::spec_from_buffer(buffer@),
        r matches Err(m) ==> m@ == dynamic_size_error::<T>(),
{
    proof {
        T::lemma_constants();
    }
    if buffer.len() < T::MIN_BUFFER_SIZE {
        return Err(size_error(T::EVENT_NAME, T::MIN_BUFFER_SIZE, true));
    }
    Ok(T::from_buffer(buffer))
}

/// `parse_dynamic_size_event::<T>`, on every buffer: `None` where it would
/// read past the end of `buffer`.
pub fn try_parse_dynamic_size_event<T: DynamicSizeEvent>(buffer: &[u8]) -> (r: Option<
    Result<T, String>,
>)
    ensures
        r is Some <==> dynamic_size_parse_defined::<T>(buffer@),
        r matches Some(res) ==> {
            &&& res is Ok <==> dynamic_size_accepts::<T>(buffer@.len())
            &&& res matches Ok(v) ==> v@ == T::spec_from_buffer(buffer@)
            &&& res matches Err(m) ==> m@ == dynamic_size_error::<T>()
        },
{
    if dynamic_size_parse_is_defined::<T>(buffer) {
        Some(parse_dynamic_size_event::<T>(buffer))
    } else {
        None
    }
}

} // verus!
