use vstd::prelude::*;
use vstd::string::*;
use vstd::utf8::*;

use aes_gcm_siv::aead::generic_array::GenericArray;
use aes_gcm_siv::aead::{Aead, KeyInit};
use aes_gcm_siv::{Aes256GcmSiv, Nonce};

use crate::decimal::{decimal, decimal_string, lemma_decimal_len, pow10};
use crate::error::ContractError;
use crate::escape::{
    concat_quoted, lemma_concat_quoted_append, lemma_parse_all_concat_quoted, parse_all,
    push_quoted, read_all_quoted,
};
use crate::text::{
    byte_chars, chars_of, lemma_byte_chars_round_trip, low_bytes, str_to_u8_vec, string_of,
    u8_vec_to_str, utf8_vec_to_str,
};
use crate::types::Packet;

verus! {

/// The symmetric key that transceivers share, one byte per character.
pub const ENC_KEY: &'static str = "qqqqqqqqqqqqqqqqqqqqqqqqqqqqqqqq";

/// Length of the shared symmetric key, in bytes.
pub const ENC_KEY_LEN: usize = 32;

/// Length of a nonce, in bytes and in decimal digits.
pub const NONCE_LEN: usize = 12;

/// Length of the authentication tag that the cipher appends, in bytes.
pub const TAG_LEN: usize = 16;

/// The longest plaintext that the cipher accepts, in bytes.
pub const P_MAX: u64 = 68719476736;

/// The ciphertext of `plaintext` under `key` and `nonce`, tag included.
pub uninterp spec fn gcm_siv_sealed(key: Seq<u8>, nonce: Seq<u8>, plaintext: Seq<u8>) -> Seq<u8>;

/// The plaintext of `ciphertext` under `key` and `nonce`, where the tag matches.
pub uninterp spec fn gcm_siv_opened(key: Seq<u8>, nonce: Seq<u8>, ciphertext: Seq<u8>) -> Option<
    Seq<u8>,
>;

/// Relies on `Aead::encrypt` of aes-gcm-siv's `Aes256GcmSiv`, with no associated data: the
/// result depends on key, nonce and plaintext alone, it fails only on a plaintext over `P_MAX`
/// bytes, the ciphertext is the plaintext's length plus a `TAG_LEN`-byte tag, and
/// `Aead::decrypt` under the same key and nonce gives the plaintext back.
#[verifier::external_body]
fn aes_encrypt(key: &[u8], nonce: &[u8], plaintext: &[u8]) -> (r: Option<Vec<u8>>)
    requires
        key@.len() == ENC_KEY_LEN,
        nonce@.len() == NONCE_LEN,
    ensures
        r is Some <==> plaintext@.len() <= P_MAX,
        r matches Some(c) ==> c@ == gcm_siv_sealed(key@, nonce@, plaintext@),
        r matches Some(c) ==> c@.len() == plaintext@.len() + TAG_LEN,
        r matches Some(c) ==> gcm_siv_opened(key@, nonce@, c@) == Some(plaintext@),
{
    let cipher = Aes256GcmSiv::new(GenericArray::from_slice(key));
    cipher.encrypt(Nonce::from_slice(nonce), plaintext).ok()
}

/// Relies on `Aead::decrypt` of aes-gcm-siv's `Aes256GcmSiv`, with no associated data: the
/// result depends on key, nonce and ciphertext alone.
#[verifier::external_body]
fn aes_decrypt(key: &[u8], nonce: &[u8], ciphertext: &[u8]) -> (r: Option<Vec<u8>>)
    requires
        key@.len() == ENC_KEY_LEN,
        nonce@.len() == NONCE_LEN,
    ensures
        r is Some <==> gcm_siv_opened(key@, nonce@, ciphertext@) is Some,
        r matches Some(v) ==> gcm_siv_opened(key@, nonce@, ciphertext@) == Some(v@),
{
    let cipher = Aes256GcmSiv::new(GenericArray::from_slice(key));
    cipher.decrypt(Nonce::from_slice(nonce), ciphertext).ok()
}

/// A symmetric key of `ENC_KEY_LEN` bytes.
#[derive(Debug)]
pub struct Hash {
    bytes: Vec<u8>,
}

impl View for Hash {
    type V = Seq<u8>;

    closed spec fn view(&self) -> Seq<u8> {
        self.bytes@
    }
}

impl Hash {
    #[verifier::type_invariant]
    spec fn wf(&self) -> bool {
        self.bytes@.len() == ENC_KEY_LEN
    }

    /// The key whose bytes are the characters of `hash_str` (each truncated to eight bits).
    pub fn parse(hash_str: &str) -> (r: Result<Hash, ContractError>)
        ensures
            low_bytes(hash_str@).len() == ENC_KEY_LEN ==> (r matches Ok(h) && h@ == low_bytes(
                hash_str@,
            )),
            low_bytes(hash_str@).len() != ENC_KEY_LEN ==> r matches Err(
                ContractError::CustomError { .. },
            ),
    {
        let bytes = str_to_u8_vec(hash_str);
        if bytes.len() == ENC_KEY_LEN {
            Ok(Hash { bytes })
        } else {
            Err(ContractError::CustomError { val: String::from_str("Vector length is not 32") })
        }
    }

    pub fn as_bytes(&self) -> (r: &[u8])
        ensures
            r@ == self@,
            r@.len() == ENC_KEY_LEN,
    {
        proof {
            use_type_invariant(self);
        }
        self.bytes.as_slice()
    }
}

/// The nonce for a timestamp: the first `NONCE_LEN` decimal digits of its nanoseconds.
pub open spec fn nonce_of(nanos: nat) -> Seq<char> {
    decimal(nanos).take(NONCE_LEN as int)
}

/// A timestamp in nanoseconds has a nonce when it has at least `NONCE_LEN` digits.
pub open spec fn has_nonce(nanos: nat) -> bool {
    nanos >= 100_000_000_000
}

proof fn lemma_nonce_bytes(nanos: nat)
    requires
        has_nonce(nanos),
    ensures
        nonce_of(nanos).len() == NONCE_LEN,
        decimal(nanos).len() >= NONCE_LEN,
{
    reveal_with_fuel(pow10, 12);
    assert(pow10(11) == 100_000_000_000);
    lemma_decimal_len(nanos, 11);
}

/// The nonce of a timestamp given in nanoseconds.
pub fn timestamp_to_nonce(nanos: u64) -> (r: String)
    requires
        has_nonce(nanos as nat),
    ensures
        r@ == nonce_of(nanos as nat),
        r@.len() == NONCE_LEN,
{
    proof {
        lemma_nonce_bytes(nanos as nat);
    }
    let digits = decimal_string(nanos as u128);
    digits.as_str().substring_char(0, NONCE_LEN).to_owned()
}

/// The ciphertext of a text, carried as one character per byte.
pub open spec fn encrypted_text(key: Seq<u8>, nonce: Seq<char>, msg: Seq<char>) -> Seq<char> {
    byte_chars(gcm_siv_sealed(key, low_bytes(nonce), encode_utf8(msg)))
}

/// The text that `enc_msg` carries, if it opens under `key` and `nonce` and is UTF-8.
pub open spec fn decrypted_text(key: Seq<u8>, nonce: Seq<char>, enc_msg: Seq<char>) -> Option<
    Seq<char>,
> {
    match gcm_siv_opened(key, low_bytes(nonce), low_bytes(enc_msg)) {
        Some(p) => if valid_utf8(p) {
            Some(decode_utf8(p))
        } else {
            None
        },
        None => None,
    }
}

/// Why `enc_msg` carries no text: it does not open, or what it opens to is not UTF-8.
pub open spec fn decrypt_error(key: Seq<u8>, nonce: Seq<char>, enc_msg: Seq<char>) -> ContractError {
    match gcm_siv_opened(key, low_bytes(nonce), low_bytes(enc_msg)) {
        Some(_) => ContractError::MalformedPacket,
        None => ContractError::DecryptionFailed,
    }
}

/// A text has at least as many UTF-8 bytes as characters.
pub proof fn lemma_utf8_not_shorter(s: Seq<char>)
    ensures
        s.len() <= encode_utf8(s).len(),
    decreases s.len(),
{
    if s.len() > 0 {
        lemma_utf8_not_shorter(s.drop_first());
    }
}

/// Encrypts the UTF-8 bytes of `msg` under the key and the nonce (one byte per character)
/// and carries the ciphertext as one character per byte.
pub fn encrypt(msg: &str, enc_key: &Hash, nonce: &str) -> (r: Result<String, ContractError>)
    requires
        nonce@.len() == NONCE_LEN,
    ensures
        msg.spec_bytes().len() <= P_MAX ==> (r matches Ok(c) && c@ == encrypted_text(
            enc_key@,
            nonce@,
            msg@,
        )),
        r matches Ok(c) ==> decrypted_text(enc_key@, nonce@, c@) == Some(msg@),
        r matches Ok(c) ==> c@.len() == msg.spec_bytes().len() + TAG_LEN,
        r matches Ok(c) ==> c@ != msg@,
        msg.spec_bytes().len() > P_MAX ==> r == Err::<String, ContractError>(
            ContractError::EncryptionFailed,
        ),
{
    let nonce_bytes = str_to_u8_vec(nonce);
    match aes_encrypt(enc_key.as_bytes(), nonce_bytes.as_slice(), msg.as_bytes()) {
        Some(bytes) => {
            proof {
                broadcast use encode_utf8_valid_utf8, encode_utf8_decode_utf8;

                lemma_byte_chars_round_trip(bytes@);
                lemma_utf8_not_shorter(msg@);
            }
            Ok(u8_vec_to_str(bytes.as_slice()))
        },
        None => Err(ContractError::EncryptionFailed),
    }
}

/// Decrypts a ciphertext carried as one character per byte, under the key and the nonce (one
/// byte per character), and reads the plaintext as UTF-8.
pub fn decrypt(enc_msg: &str, enc_key: &Hash, nonce: &str) -> (r: Result<String, ContractError>)
    requires
        nonce@.len() == NONCE_LEN,
    ensures
        match decrypted_text(enc_key@, nonce@, enc_msg@) {
            Some(t) => r matches Ok(s) && s@ == t,
            None => r == Err::<String, ContractError>(decrypt_error(enc_key@, nonce@, enc_msg@)),
        },
{
    let ct = str_to_u8_vec(enc_msg);
    let nonce_bytes = str_to_u8_vec(nonce);
    match aes_decrypt(enc_key.as_bytes(), nonce_bytes.as_slice(), ct.as_slice()) {
        Some(bytes) => {
            utf8_vec_to_str(bytes.as_slice())
        },
        None => Err(ContractError::DecryptionFailed),
    }
}

/// A packet with each string seen as its characters.
pub struct PacketView {
    pub sender: Seq<char>,
    pub recipient: Seq<char>,
    pub hub_collection: Seq<char>,
    pub home_collection: Seq<char>,
    pub token_list: Seq<Seq<char>>,
}

impl View for Packet {
    type V = PacketView;

    open spec fn view(&self) -> PacketView {
        PacketView {
            sender: self.sender@,
            recipient: self.recipient@,
            hub_collection: self.hub_collection@,
            home_collection: self.home_collection@,
            token_list: self.token_list@.map_values(|t: String| t@),
        }
    }
}

/// The fields of a packet in the order in which they are written.
pub open spec fn packet_fields(p: PacketView) -> Seq<Seq<char>> {
    seq![p.sender, p.recipient, p.hub_collection, p.home_collection] + p.token_list
}

/// The canonical text of a packet: each field quoted, one after the other, tokens last.
pub open spec fn packet_text(p: PacketView) -> Seq<char> {
    concat_quoted(packet_fields(p))
}

pub open spec fn packet_of_fields(xs: Seq<Seq<char>>) -> Option<PacketView> {
    if xs.len() >= 4 {
        Some(
            PacketView {
                sender: xs[0],
                recipient: xs[1],
                hub_collection: xs[2],
                home_collection: xs[3],
                token_list: xs.skip(4),
            },
        )
    } else {
        None
    }
}

/// The packet that a canonical text stands for.
pub open spec fn packet_of_text(t: Seq<char>) -> Option<PacketView> {
    match parse_all(t) {
        Some(xs) => packet_of_fields(xs),
        None => None,
    }
}

/// Reading the canonical text of a packet gives the packet back.
pub proof fn lemma_packet_text_round_trip(p: PacketView)
    ensures
        packet_of_text(packet_text(p)) == Some(p),
{
    lemma_parse_all_concat_quoted(packet_fields(p));
    assert(packet_fields(p).skip(4) =~= p.token_list);
}

/// Writes the canonical text of a packet.
pub fn serialize(data: &Packet) -> (r: String)
    ensures
        r@ == packet_text(data@),
{
    let ghost fields = packet_fields(data@);
    let mut out = String::new();
    let s0 = chars_of(data.sender.as_str());
    let s1 = chars_of(data.recipient.as_str());
    let s2 = chars_of(data.hub_collection.as_str());
    let s3 = chars_of(data.home_collection.as_str());
    proof {
        assert(fields.take(0) =~= seq![]);
        assert(concat_quoted(fields.take(0)) =~= seq![]);
    }
    push_quoted(&mut out, s0.as_slice());
    proof {
        lemma_concat_quoted_append(fields.take(0), fields[0]);
        assert(fields.take(0).push(fields[0]) =~= fields.take(1));
    }
    push_quoted(&mut out, s1.as_slice());
    proof {
        lemma_concat_quoted_append(fields.take(1), fields[1]);
        assert(fields.take(1).push(fields[1]) =~= fields.take(2));
    }
    push_quoted(&mut out, s2.as_slice());
    proof {
        lemma_concat_quoted_append(fields.take(2), fields[2]);
        assert(fields.take(2).push(fields[2]) =~= fields.take(3));
    }
    push_quoted(&mut out, s3.as_slice());
    proof {
        lemma_concat_quoted_append(fields.take(3), fields[3]);
        assert(fields.take(3).push(fields[3]) =~= fields.take(4));
    }
    let mut i: usize = 0;
    while i < data.token_list.len()
        invariant
            fields == packet_fields(data@),
            i <= data.token_list@.len(),
            out@ == concat_quoted(fields.take(4 + i)),
        decreases data.token_list@.len() - i,
    {
        let t = chars_of(data.token_list[i].as_str());
        push_quoted(&mut out, t.as_slice());
        proof {
            assert(fields[4 + i] == data.token_list@[i as int]@);
            lemma_concat_quoted_append(fields.take(4 + i), fields[4 + i]);
            assert(fields.take(4 + i).push(fields[4 + i]) =~= fields.take(4 + i + 1));
        }
        i = i + 1;
    }
    assert(fields.take(4 + i) =~= fields);
    out
}

/// Reads a packet from its canonical text.
pub fn deserialize(data: &str) -> (r: Result<Packet, ContractError>)
    ensures
        match packet_of_text(data@) {
            Some(p) => r matches Ok(q) && q@ == p,
            None => r == Err::<Packet, ContractError>(ContractError::MalformedPacket),
        },
{
    let t = chars_of(data);
    let fields = match read_all_quoted(t.as_slice()) {
        Some(f) => f,
        None => {
            return Err(ContractError::MalformedPacket);
        },
    };
    if fields.len() < 4 {
        return Err(ContractError::MalformedPacket);
    }
    let ghost xs = parse_all(data@)->0;
    let sender = string_of(fields[0].as_slice());
    let recipient = string_of(fields[1].as_slice());
    let hub_collection = string_of(fields[2].as_slice());
    let home_collection = string_of(fields[3].as_slice());
    let mut token_list: Vec<String> = Vec::new();
    let mut i: usize = 4;
    while i < fields.len()
        invariant
            4 <= i <= fields@.len(),
            fields@.len() == xs.len(),
            forall|j: int| 0 <= j < xs.len() ==> #[trigger] fields@[j]@ == xs[j],
            token_list@.map_values(|s: String| s@) == xs.subrange(4, i as int),
        decreases fields@.len() - i,
    {
        let s = string_of(fields[i].as_slice());
        assert(s@ == xs[i as int]);
        let ghost before = token_list@;
        token_list.push(s);
        proof {
            assert(token_list@ == before.push(s));
            assert(xs.subrange(4, i + 1) =~= xs.subrange(4, i as int).push(xs[i as int]));
            assert(token_list@.map_values(|s: String| s@) =~= xs.subrange(4, i + 1));
        }
        i = i + 1;
    }
    let p = Packet { sender, recipient, hub_collection, home_collection, token_list };
    assert(p@.token_list =~= xs.skip(4));
    Ok(p)
}

/// The ciphertext that carries `packet` at a timestamp.
pub open spec fn encrypted_packet(key: Seq<u8>, nanos: nat, packet: PacketView) -> Seq<char> {
    encrypted_text(key, nonce_of(nanos), packet_text(packet))
}

/// The packet that `value` carries at a timestamp, if any.
pub open spec fn decrypted_packet(key: Seq<u8>, nanos: nat, value: Seq<char>) -> Option<PacketView> {
    if has_nonce(nanos) {
        match decrypted_text(key, nonce_of(nanos), value) {
            Some(t) => packet_of_text(t),
            None => None,
        }
    } else {
        None
    }
}

/// Why `value` carries no packet at a timestamp.
pub open spec fn packet_error(key: Seq<u8>, nanos: nat, value: Seq<char>) -> ContractError {
    if !has_nonce(nanos) {
        ContractError::InvalidTimestamp
    } else {
        match decrypted_text(key, nonce_of(nanos), value) {
            Some(_) => ContractError::MalformedPacket,
            None => decrypt_error(key, nonce_of(nanos), value),
        }
    }
}

/// An encrypted message together with the timestamp (nanoseconds) that its nonce came from.
#[derive(Debug, Clone, PartialEq, Eq)]
pub struct EncryptedResponse {
    pub value: String,
    pub timestamp: u64,
}

/// Writes `value` canonically and encrypts it under the nonce of `timestamp`.
pub fn serialize_encrypt(enc_key: &Hash, timestamp: u64, value: &Packet) -> (r: Result<
    EncryptedResponse,
    ContractError,
>)
    requires
        has_nonce(timestamp as nat),
    ensures
        encode_utf8(packet_text(value@)).len() <= P_MAX ==> (r matches Ok(e) && e.value@
            == encrypted_packet(enc_key@, timestamp as nat, value@) && e.timestamp == timestamp),
        r matches Ok(e) ==> decrypted_packet(enc_key@, e.timestamp as nat, e.value@) == Some(
            value@,
        ),
        encode_utf8(packet_text(value@)).len() > P_MAX ==> r == Err::<
            EncryptedResponse,
            ContractError,
        >(ContractError::EncryptionFailed),
{
    proof {
        lemma_nonce_bytes(timestamp as nat);
    }
    let nonce = timestamp_to_nonce(timestamp);
    let text = serialize(value);
    let enc = encrypt(text.as_str(), enc_key, nonce.as_str());
    proof {
        lemma_packet_text_round_trip(value@);
    }
    match enc {
        Ok(value) => Ok(EncryptedResponse { value, timestamp }),
        Err(e) => Err(e),
    }
}

/// Decrypts `value` under the nonce of `timestamp` and reads the packet it carries.
pub fn decrypt_deserialize(enc_key: &Hash, timestamp: u64, value: &str) -> (r: Result<
    Packet,
    ContractError,
>)
    ensures
        match decrypted_packet(enc_key@, timestamp as nat, value@) {
            Some(p) => r matches Ok(q) && q@ == p,
            None => r == Err::<Packet, ContractError>(packet_error(enc_key@, timestamp as nat, value@)),
        },
{
    if timestamp < 100_000_000_000 {
        return Err(ContractError::InvalidTimestamp);
    }
    proof {
        lemma_nonce_bytes(timestamp as nat);
    }
    let nonce = timestamp_to_nonce(timestamp);
    let text = decrypt(value, enc_key, nonce.as_str());
    match text {
        Ok(t) => {
            deserialize(t.as_str())
        },
        Err(e) => Err(e),
    }
}

} // verus!
