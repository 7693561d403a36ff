//! Reading the primitive values of the pgoutput wire format: big-endian
//! integers and NUL-terminated strings.
use vstd::prelude::*;
use vstd::utf8::{decode_utf8, decode_utf8_encode_utf8, encode_utf8, valid_utf8};

verus! {

/// Big-endian unsigned value of the two bytes of `s` that start at `i`.
pub open spec fn be_u16(s: Seq<u8>, i: int) -> u16 {
    (s[i] as int * 0x100 + s[i + 1] as int) as u16
}

/// Big-endian unsigned value of the four bytes of `s` that start at `i`.
pub open spec fn be_u32(s: Seq<u8>, i: int) -> u32 {
    (s[i] as int * 0x1000000 + s[i + 1] as int * 0x10000 + s[i + 2] as int * 0x100 + s[i
        + 3] as int) as u32
}

/// Big-endian unsigned value of the eight bytes of `s` that start at `i`.
pub open spec fn be_u64(s: Seq<u8>, i: int) -> u64 {
    (be_u32(s, i) as int * 0x1_0000_0000 + be_u32(s, i + 4) as int) as u64
}

/// The two's complement reading of `be_u16`, as `i16::from_be_bytes` gives it.
pub open spec fn be_i16(s: Seq<u8>, i: int) -> i16 {
    be_u16(s, i) as i16
}

/// The two's complement reading of `be_u32`, as `i32::from_be_bytes` gives it.
pub open spec fn be_i32(s: Seq<u8>, i: int) -> i32 {
    be_u32(s, i) as i32
}

/// The two's complement reading of `be_u64`, as `i64::from_be_bytes` gives it.
pub open spec fn be_i64(s: Seq<u8>, i: int) -> i64 {
    be_u64(s, i) as i64
}

/// The signed reading of the byte at `i`.
pub open spec fn byte_i8(s: Seq<u8>, i: int) -> i8 {
    s[i] as i8
}

pub(crate) fn read_i8(buffer: &[u8], i: usize) -> (r: i8)
    requires
        i < buffer@.len(),
    ensures
        r == byte_i8(buffer@, i as int),
{
    buffer[i] as i8
}

pub(crate) fn read_u16(buffer: &[u8], i: usize) -> (r: u16)
    requires
        i + 2 <= buffer.len(),
    ensures
        r == be_u16(buffer@, i as int),
{
    (buffer[i] as u16) * 0x100 + (buffer[i + 1] as u16)
}

pub(crate) fn read_i16(buffer: &[u8], i: usize) -> (r: i16)
    requires
        i + 2 <= buffer.len(),
    ensures
        r == be_i16(buffer@, i as int),
{
    read_u16(buffer, i) as i16
}

pub(crate) fn read_u32(buffer: &[u8], i: usize) -> (r: u32)
    requires
        i + 4 <= buffer.len(),
    ensures
        r == be_u32(buffer@, i as int),
{
    (buffer[i] as u32) * 0x1000000 + (buffer[i + 1] as u32) * 0x10000 + (buffer[i + 2] as u32)
        * 0x100 + (buffer[i + 3] as u32)
}

pub(crate) fn read_i32(buffer: &[u8], i: usize) -> (r: i32)
    requires
        i + 4 <= buffer.len(),
    ensures
        r == be_i32(buffer@, i as int),
{
    read_u32(buffer, i) as i32
}

pub(crate) fn read_u64(buffer: &[u8], i: usize) -> (r: u64)
    requires
        i + 8 <= buffer.len(),
    ensures
        r == be_u64(buffer@, i as int),
{
    let high = read_u32(buffer, i) as u64;
    let low = read_u32(buffer, i + 4) as u64;
    high * 0x1_0000_0000 + low
}

pub(crate) fn read_i64(buffer: &[u8], i: usize) -> (r: i64)
    requires
        i + 8 <= buffer.len(),
    ensures
        r == be_i64(buffer@, i as int),
{
    read_u64(buffer, i) as i64
}

/// The four bytes of `v`, most significant first, as `u32::to_be_bytes`
/// gives them.
pub open spec fn u32_be_bytes(v: u32) -> Seq<u8> {
    seq![(v >> 24) as u8, ((v >> 16) & 0xff) as u8, ((v >> 8) & 0xff) as u8, (v & 0xff) as u8]
}

/// The four bytes of `v`, as `i32::to_be_bytes` gives them.
pub open spec fn i32_be_bytes(v: i32) -> Seq<u8> {
    u32_be_bytes(v as u32)
}

/// The eight bytes of `v`, as `i64::to_be_bytes` gives them.
pub open spec fn i64_be_bytes(v: i64) -> Seq<u8> {
    u32_be_bytes(((v as u64) >> 32) as u32) + u32_be_bytes(v as u64 as u32)
}

/// The two bytes of `v`, as `i16::to_be_bytes` gives them.
pub open spec fn i16_be_bytes(v: i16) -> Seq<u8> {
    seq![((v as u16) >> 8) as u8, ((v as u16) & 0xff) as u8]
}

/// Two bytes written by `i16_be_bytes` are read back as the same value.
pub proof fn lemma_be_i16_bytes(s: Seq<u8>, i: int, v: i16)
    requires
        0 <= i,
        i + 2 <= s.len(),
        s.subrange(i, i + 2) == i16_be_bytes(v),
    ensures
        be_i16(s, i) == v,
{
    assert(s[i] == s.subrange(i, i + 2)[0]);
    assert(s[i + 1] == s.subrange(i, i + 2)[1]);
    let u = v as u16;
    let b0 = (u >> 8) as u8;
    let b1 = (u & 0xff) as u8;
    assert(b0 as u16 * 0x100 + b1 as u16 == u) by (bit_vector)
        requires
            b0 == (u >> 8) as u8,
            b1 == (u & 0xff) as u8,
    ;
    assert((v as u16) as i16 == v) by (bit_vector);
}

/// A byte written as `f as u8` is read back as `f`.
pub proof fn lemma_byte_i8(s: Seq<u8>, i: int, f: i8)
    requires
        0 <= i < s.len(),
        s[i] == f as u8,
    ensures
        byte_i8(s, i) == f,
{
    assert((f as u8) as i8 == f) by (bit_vector);
}

/// Four bytes written by `u32_be_bytes` are read back as the same value.
pub proof fn lemma_be_u32_bytes(s: Seq<u8>, i: int, v: u32)
    requires
        0 <= i,
        i + 4 <= s.len(),
        s.subrange(i, i + 4) == u32_be_bytes(v),
    ensures
        be_u32(s, i) == v,
{
    assert(s[i] == s.subrange(i, i + 4)[0]);
    assert(s[i + 1] == s.subrange(i, i + 4)[1]);
    assert(s[i + 2] == s.subrange(i, i + 4)[2]);
    assert(s[i + 3] == s.subrange(i, i + 4)[3]);
    let b0 = (v >> 24) as u8;
    let b1 = ((v >> 16) & 0xff) as u8;
    let b2 = ((v >> 8) & 0xff) as u8;
    let b3 = (v & 0xff) as u8;
    assert(b0 as u32 * 0x1000000 + b1 as u32 * 0x10000 + b2 as u32 * 0x100 + b3 as u32 == v)
        by (bit_vector)
        requires
            b0 == (v >> 24) as u8,
            b1 == ((v >> 16) & 0xff) as u8,
            b2 == ((v >> 8) & 0xff) as u8,
            b3 == (v & 0xff) as u8,
    ;
}

/// Four bytes written by `i32_be_bytes` are read back as the same value.
pub proof fn lemma_be_i32_bytes(s: Seq<u8>, i: int, v: i32)
    requires
        0 <= i,
        i + 4 <= s.len(),
        s.subrange(i, i + 4) == i32_be_bytes(v),
    ensures
        be_i32(s, i) == v,
{
    lemma_be_u32_bytes(s, i, v as u32);
    assert((v as u32) as i32 == v) by (bit_vector);
}

/// Eight bytes written by `i64_be_bytes` are read back as the same value.
pub proof fn lemma_be_i64_bytes(s: Seq<u8>, i: int, v: i64)
    requires
        0 <= i,
        i + 8 <= s.len(),
        s.subrange(i, i + 8) == i64_be_bytes(v),
    ensures
        be_i64(s, i) == v,
{
    let hi = ((v as u64) >> 32) as u32;
    let lo = v as u64 as u32;
    assert(s.subrange(i, i + 4) =~= s.subrange(i, i + 8).subrange(0, 4));
    assert(s.subrange(i + 4, i + 8) =~= s.subrange(i, i + 8).subrange(4, 8));
    assert(i64_be_bytes(v).subrange(0, 4) =~= u32_be_bytes(hi));
    assert(i64_be_bytes(v).subrange(4, 8) =~= u32_be_bytes(lo));
    lemma_be_u32_bytes(s, i, hi);
    lemma_be_u32_bytes(s, i + 4, lo);
    assert(((hi as u64) * 0x1_0000_0000 + lo as u64) as i64 == v) by (bit_vector)
        requires
            hi == ((v as u64) >> 32) as u32,
            lo == v as u64 as u32,
    ;
}

/// A string's bytes, its NUL and anything after: the string's text is the
/// text of its bytes.
pub proof fn lemma_c_string_of(text: Seq<u8>, rest: Seq<u8>)
    requires
        forall|j: int| 0 <= j < text.len() ==> text[j] != 0,
    ensures
        c_string_bytes(text + seq![0u8] + rest) == Some(text),
        c_string_text(text + seq![0u8] + rest) == lossy_text(text),
{
    let s = text + seq![0u8] + rest;
    let n = text.len() as int;
    assert(is_first_nul(s, n));
    assert forall|k: int| is_first_nul(s, k) implies k == n by {
        if k < n {
            assert(s[k] == text[k]);
        } else if k > n {
            assert(s[n] == 0);
        }
    }
    assert(s.take(n) =~= text);
}

/// Skipping `i` elements, then `j`, skips `i + j`.
pub proof fn lemma_skip_skip<T>(s: Seq<T>, i: int, j: int)
    requires
        0 <= i <= s.len(),
        0 <= j <= s.len() - i,
    ensures
        s.skip(i).skip(j) == s.skip(i + j),
{
    assert(s.skip(i).skip(j) =~= s.skip(i + j));
}

/// `i` is the position of the first NUL byte of `s`.
pub open spec fn is_first_nul(s: Seq<u8>, i: int) -> bool {
    &&& 0 <= i < s.len()
    &&& s[i] == 0
    &&& forall|j: int| 0 <= j < i ==> s[j] != 0
}

/// The bytes of `s` before its first NUL byte, if `s` holds one.
pub open spec fn c_string_bytes(s: Seq<u8>) -> Option<Seq<u8>> {
    if exists|i: int| is_first_nul(s, i) {
        Some(s.take(choose|i: int| is_first_nul(s, i)))
    } else {
        None
    }
}

/// What `String::from_utf8_lossy` makes of `bytes`: the characters that they
/// encode, each ill-formed part replaced by U+FFFD.
pub uninterp spec fn utf8_lossy(bytes: Seq<u8>) -> Seq<char>;

/// The text that `String::from_utf8_lossy` makes of `bytes`: what they
/// encode where they are well-formed UTF-8, `utf8_lossy` of them otherwise.
pub open spec fn lossy_text(bytes: Seq<u8>) -> Seq<char> {
    if valid_utf8(bytes) {
        decode_utf8(bytes)
    } else {
        utf8_lossy(bytes)
    }
}

/// Where the bytes before the first NUL of `s` are well-formed UTF-8, the
/// string's text is as long in bytes as they are, so the byte that follows
/// it is that NUL.
pub proof fn lemma_c_string_extent(s: Seq<u8>)
    requires
        c_string_bytes(s) is Some,
        valid_utf8(c_string_bytes(s).unwrap()),
        s.len() <= usize::MAX,
    ensures
        is_first_nul(s, text_byte_len(c_string_text(s)) as int),
{
    let i = choose|i: int| is_first_nul(s, i);
    lemma_lossy_text_len(s.take(i));
}

/// The text of the NUL-terminated string at the start of `s`, decoded
/// lossily; empty where `s` holds no NUL byte.
pub open spec fn c_string_text(s: Seq<u8>) -> Seq<char> {
    match c_string_bytes(s) {
        Some(bytes) => lossy_text(bytes),
        None => Seq::empty(),
    }
}

/// Length in bytes of the UTF-8 encoding of `t`, as `str::len` gives it.
pub open spec fn text_byte_len(t: Seq<char>) -> usize {
    encode_utf8(t).len() as usize
}

/// Well-formed UTF-8 is decoded into a text that is as long in bytes as the
/// encoding it came from.
pub proof fn lemma_lossy_text_len(bytes: Seq<u8>)
    requires
        valid_utf8(bytes),
        bytes.len() <= usize::MAX,
    ensures
        lossy_text(bytes) == decode_utf8(bytes),
        text_byte_len(lossy_text(bytes)) == bytes.len(),
{
    decode_utf8_encode_utf8(bytes);
}

/// Calls `String::from_utf8_lossy` on `bytes[start..end]`. The text that it
/// returns is named `utf8_lossy`; of it this states only that well-formed
/// UTF-8 is decoded unchanged. How ill-formed parts are replaced is left to
/// the name.
#[verifier::external_body]
pub(crate) fn lossy_utf8_string(bytes: &[u8], start: usize, end: usize) -> (r: String)
    requires
        start <= end <= bytes@.len(),
    ensures
        r@ == utf8_lossy(bytes@.subrange(start as int, end as int)),
        valid_utf8(bytes@.subrange(start as int, end as int)) ==> r@ == decode_utf8(
            bytes@.subrange(start as int, end as int),
        ),
{
    String::from_utf8_lossy(&bytes[start..end]).into_owned()
}

/// Length in bytes of the UTF-8 encoding of `s`.
pub(crate) fn string_byte_len(s: &String) -> (r: usize)
    ensures
        r == text_byte_len(s@),
{
    s.as_str().len()
}

/// Position, counted from `start`, of the first NUL byte of `buffer[start..]`.
pub(crate) fn find_nul(buffer: &[u8], start: usize) -> (r: Option<usize>)
    requires
        start <= buffer@.len(),
    ensures
        r is Some <==> c_string_bytes(buffer@.skip(start as int)) is Some,
        r matches Some(i) ==> is_first_nul(buffer@.skip(start as int), i as int) && start + i
            < buffer.len(),
{
    let ghost s = buffer@.skip(start as int);
    let mut i = start;
    while i < buffer.len()
        invariant
            start <= i <= buffer@.len(),
            s == buffer@.skip(start as int),
            forall|j: int| 0 <= j < i - start ==> s[j] != 0,
        decreases buffer@.len() - i,
    {
        if buffer[i] == 0 {
            assert(is_first_nul(s, i - start));
            return Some(i - start);
        }
        i = i + 1;
    }
    assert forall|k: int| !is_first_nul(s, k) by {
        if is_first_nul(s, k) {
            assert(s[k] != 0);
        }
    }
    None
}

/// The NUL-terminated string at `buffer[start..]`, decoded lossily; empty
/// where no NUL byte follows `start`.
pub(crate) fn read_c_string(buffer: &[u8], start: usize) -> (r: String)
    requires
        start <= buffer@.len(),
    ensures
        r@ == c_string_text(buffer@.skip(start as int)),
{
    let ghost s = buffer@.skip(start as int);
    match find_nul(buffer, start) {
        Some(i) => {
            assert(forall|k: int| is_first_nul(s, k) ==> k == i) by {
                assert forall|k: int| is_first_nul(s, k) implies k == i by {
                    if k < i {
                        assert(s[k] == 0);
                    } else if k > i {
                        assert(s[i as int] != 0);
                    }
                }
            }
            assert(buffer@.subrange(start as int, start + i) =~= s.take(i as int));
            lossy_utf8_string(buffer, start, start + i)
        },
        None => String::new(),
    }
}

} // verus!
