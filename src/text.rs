use vstd::prelude::*;
use vstd::string::*;
use vstd::utf8::*;

verus! {

/// Relies on `String::push`: appends one character.
#[verifier::external_body]
pub(crate) fn push_char(s: &mut String, c: char)
    ensures
        final(s)@ == old(s)@.push(c),
{
    s.push(c)
}

/// Relies on `std::str::from_utf8`: succeeds exactly on valid UTF-8 and then decodes it.
#[verifier::external_body]
fn from_utf8(v: &[u8]) -> (r: Option<String>)
    ensures
        r is Some <==> valid_utf8(v@),
        r matches Some(s) ==> s@ == decode_utf8(v@),
{
    std::str::from_utf8(v).ok().map(|s| s.to_string())
}

/// The characters of `s`, one by one.
pub fn chars_of(s: &str) -> (r: Vec<char>)
    ensures
        r@ == s@,
{
    let n = s.unicode_len();
    let mut r: Vec<char> = Vec::new();
    let mut i: usize = 0;
    while i < n
        invariant
            n == s@.len(),
            i <= n,
            r@ == s@.take(i as int),
        decreases n - i,
    {
        r.push(s.get_char(i));
        i = i + 1;
        assert(r@ =~= s@.take(i as int));
    }
    assert(r@ =~= s@);
    r
}

/// The string made of the characters `cs`.
pub fn string_of(cs: &[char]) -> (r: String)
    ensures
        r@ == cs@,
{
    let mut r = String::new();
    let mut i: usize = 0;
    while i < cs.len()
        invariant
            i <= cs@.len(),
            r@ == cs@.take(i as int),
        decreases cs@.len() - i,
    {
        push_char(&mut r, cs[i]);
        i = i + 1;
        assert(r@ =~= cs@.take(i as int));
    }
    assert(r@ =~= cs@);
    r
}

/// Each character of `s` truncated to its low byte.
pub open spec fn low_bytes(s: Seq<char>) -> Seq<u8> {
    s.map_values(|c: char| c as u8)
}

/// Each byte read as the character with that code point.
pub open spec fn byte_chars(v: Seq<u8>) -> Seq<char> {
    v.map_values(|b: u8| b as char)
}

/// Converts any string to bytes, one byte per character (its low eight bits).
pub fn str_to_u8_vec(s: &str) -> (r: Vec<u8>)
    ensures
        r@ == low_bytes(s@),
{
    let n = s.unicode_len();
    let mut r: Vec<u8> = Vec::new();
    let mut i: usize = 0;
    while i < n
        invariant
            n == s@.len(),
            i <= n,
            r@ == low_bytes(s@.take(i as int)),
        decreases n - i,
    {
        let c = s.get_char(i);
        r.push(c as u8);
        i = i + 1;
        assert(r@ =~= low_bytes(s@.take(i as int)));
    }
    assert(s@.take(n as int) =~= s@);
    r
}

/// Converts any bytes to a string, one character per byte.
pub fn u8_vec_to_str(v: &[u8]) -> (r: String)
    ensures
        r@ == byte_chars(v@),
{
    let mut r = String::new();
    let mut i: usize = 0;
    while i < v.len()
        invariant
            i <= v@.len(),
            r@ == byte_chars(v@.take(i as int)),
        decreases v@.len() - i,
    {
        push_char(&mut r, v[i] as char);
        i = i + 1;
        assert(r@ =~= byte_chars(v@.take(i as int)));
    }
    assert(v@.take(v@.len() as int) =~= v@);
    r
}

/// Reading bytes as characters and back gives the bytes again.
pub proof fn lemma_byte_chars_round_trip(v: Seq<u8>)
    ensures
        low_bytes(byte_chars(v)) == v,
{
    assert forall|i: int| 0 <= i < v.len() implies low_bytes(byte_chars(v))[i] == v[i] by {
        let b = v[i];
        assert((b as char) as u8 == b);
    }
    assert(low_bytes(byte_chars(v)) =~= v);
}

/// Converts bytes to a string where they are valid UTF-8.
pub fn utf8_vec_to_str(v: &[u8]) -> (r: Result<String, crate::error::ContractError>)
    ensures
        r is Ok <==> valid_utf8(v@),
        r matches Ok(s) ==> s@ == decode_utf8(v@),
        r matches Err(e) ==> e == crate::error::ContractError::MalformedPacket,
{
    match from_utf8(v) {
        Some(s) => Ok(s),
        None => Err(crate::error::ContractError::MalformedPacket),
    }
}

} // verus!
