use vstd::prelude::*;
use vstd::string::*;

use bech32::{u5, Variant};

use crate::error::ContractError;

verus! {

/// The separator between the chain prefix and the body of an address.
pub open spec fn is_first_separator(s: Seq<char>, i: int) -> bool {
    &&& 0 <= i < s.len()
    &&& s[i] == '1'
    &&& forall|j: int| 0 <= j < i ==> s[j] != '1'
}

pub open spec fn has_separator(s: Seq<char>) -> bool {
    exists|i: int| 0 <= i < s.len() && s[i] == '1'
}

/// The position of the first separator of an address that has one.
pub open spec fn separator_index(s: Seq<char>) -> int
    recommends
        has_separator(s),
{
    choose|i: int| is_first_separator(s, i)
}

/// The chain prefix of an address: what stands before its first separator.
pub open spec fn addr_prefix(s: Seq<char>) -> Seq<char> {
    s.take(separator_index(s))
}

/// The body of an address: what stands after its first separator.
pub open spec fn addr_body(s: Seq<char>) -> Seq<char> {
    s.skip(separator_index(s) + 1)
}

pub proof fn lemma_first_separator_unique(s: Seq<char>, i: int)
    requires
        is_first_separator(s, i),
    ensures
        separator_index(s) == i,
{
    let k = separator_index(s);
    assert(is_first_separator(s, k));
    if k < i {
        assert(s[k] != '1');
    } else if i < k {
        assert(s[i] != '1');
    }
}

/// Searches for the first separator of `s`.
pub(crate) fn find_separator(s: &str) -> (r: Option<usize>)
    ensures
        r is None <==> !has_separator(s@),
        r matches Some(i) ==> is_first_separator(s@, i as int),
{
    let n = s.unicode_len();
    let mut i: usize = 0;
    while i < n
        invariant
            n == s@.len(),
            i <= n,
            forall|j: int| 0 <= j < i ==> s@[j] != '1',
        decreases n - i,
    {
        if s.get_char(i) == '1' {
            return Some(i);
        }
        i = i + 1;
    }
    None
}

/// Splits an address at its first separator into chain prefix and body.
pub fn split_address(address: &str) -> (r: (String, String))
    requires
        has_separator(address@),
    ensures
        r.0@ == addr_prefix(address@),
        r.1@ == addr_body(address@),
{
    let i = find_separator(address).unwrap();
    proof {
        lemma_first_separator_unique(address@, i as int);
    }
    let n = address.unicode_len();
    let prefix = address.substring_char(0, i).to_owned();
    let body = address.substring_char(i + 1, n).to_owned();
    (prefix, body)
}

/// A human-readable part that bech32 accepts: 1 to 83 printable ASCII characters, not both
/// lower-case and upper-case letters.
pub open spec fn is_valid_hrp(h: Seq<char>) -> bool {
    &&& 1 <= h.len() <= 83
    &&& forall|i: int| 0 <= i < h.len() ==> 33 <= #[trigger] (h[i] as u32) <= 126
    &&& !((exists|i: int| 0 <= i < h.len() && 97 <= #[trigger] (h[i] as u32) <= 122) && (exists|
        j: int,
    |
        0 <= j < h.len() && 65 <= #[trigger] (h[j] as u32) <= 90))
}

/// The human-readable part (lower-cased) and the 5-bit data, checksum removed, of a bech32 text.
pub uninterp spec fn bech32_decoded(s: Seq<char>) -> Option<(Seq<char>, Seq<u8>)>;

/// The bech32 text (classic checksum) of a human-readable part and 5-bit data.
pub uninterp spec fn bech32_encoded(hrp: Seq<char>, data: Seq<u8>) -> Seq<char>;

/// Relies on `bech32::decode`: the result depends on the text alone, and each data value is
/// a 5-bit `u5`.
#[verifier::external_body]
fn bech32_decode(s: &str) -> (r: Option<(String, Vec<u8>)>)
    ensures
        r is Some <==> bech32_decoded(s@) is Some,
        r matches Some(d) ==> bech32_decoded(s@) == Some((d.0@, d.1@)),
        r matches Some(d) ==> forall|i: int| 0 <= i < d.1@.len() ==> #[trigger] d.1@[i] < 32,
{
    bech32::decode(s).ok().map(|(hrp, data, _)| (hrp, data.iter().map(|x| x.to_u8()).collect()))
}

/// Relies on `bech32::encode` with `Variant::Bech32`: it fails exactly where its `check_hrp`
/// refuses the human-readable part, and the result depends on its arguments alone.
#[verifier::external_body]
fn bech32_encode(hrp: &str, data: &[u8]) -> (r: Option<String>)
    requires
        forall|i: int| 0 <= i < data@.len() ==> #[trigger] data@[i] < 32,
    ensures
        r is Some <==> is_valid_hrp(hrp@),
        r matches Some(a) ==> a@ == bech32_encoded(hrp@, data@),
{
    let data: Result<Vec<u5>, bech32::Error> = data.iter().map(|b| u5::try_from_u8(*b)).collect();
    data.ok().and_then(|d| bech32::encode(hrp, d, Variant::Bech32).ok())
}

/// The address with the same body as `address` under the chain prefix `prefix`.
pub open spec fn reprefixed(address: Seq<char>, prefix: Seq<char>) -> Option<Seq<char>> {
    match bech32_decoded(address) {
        Some((_, data)) => if is_valid_hrp(prefix) {
            Some(bech32_encoded(prefix, data))
        } else {
            None
        },
        None => None,
    }
}

/// Re-encodes a bech32 address under another chain prefix.
pub fn get_addr_by_prefix(address: &str, prefix: &str) -> (r: Result<String, ContractError>)
    ensures
        match reprefixed(address@, prefix@) {
            Some(a) => r matches Ok(s) && s@ == a,
            None => r == Err::<String, ContractError>(ContractError::InvalidAddress),
        },
{
    match bech32_decode(address) {
        Some((_, data)) => match bech32_encode(prefix, data.as_slice()) {
            Some(a) => Ok(a),
            None => Err(ContractError::InvalidAddress),
        },
        None => Err(ContractError::InvalidAddress),
    }
}

} // verus!
