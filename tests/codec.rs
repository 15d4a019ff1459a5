use snb_transceiver::address::{get_addr_by_prefix, split_address};
use snb_transceiver::codec::{
    decrypt, decrypt_deserialize, deserialize, encrypt, serialize, serialize_encrypt,
    timestamp_to_nonce, ENC_KEY,
};
use snb_transceiver::error::ContractError;
use snb_transceiver::ibc::{get_ibc_transfer_memo, get_ibc_transfer_msg, get_neutron_ibc_transfer_msg};
use snb_transceiver::text::{str_to_u8_vec, u8_vec_to_str, utf8_vec_to_str};
use snb_transceiver::types::Packet;

use bech32::{ToBase32, Variant};

fn packet() -> Packet {
    Packet {
        sender: "neutron1outpost".to_string(),
        recipient: "say \"hi\"\\ now\n⚠️".to_string(),
        hub_collection: "neutron1hubcol".to_string(),
        home_collection: "stars1col".to_string(),
        token_list: vec!["1".to_string(), "".to_string(), "\u{1}\u{1f}".to_string()],
    }
}

#[test]
fn default_ecryption() {
    const MESSAGE: &str = "The secret message #1. Don't share it!⚠️";
    let enc_key = snb_transceiver::codec::Hash::parse(&"\u{1}".repeat(32)).unwrap();
    const NONCE: &str = "unique nonce";

    let encrypted = encrypt(MESSAGE, &enc_key, NONCE).unwrap();
    let decrypted = decrypt(&encrypted, &enc_key, NONCE).unwrap();

    assert_ne!(encrypted, decrypted);
    assert_eq!(MESSAGE, decrypted);
}

#[test]
fn decrypt_with_another_nonce_fails() {
    let enc_key = snb_transceiver::codec::Hash::parse(ENC_KEY).unwrap();
    let encrypted = encrypt("message", &enc_key, "123456789012").unwrap();
    assert_ne!(encrypted, "message");
    assert_eq!(encrypted.chars().count(), "message".len() + 16);
    assert_eq!(decrypt(&encrypted, &enc_key, "123456789013"), Err(ContractError::DecryptionFailed));
}

#[test]
fn hash_parse_needs_32_bytes() {
    assert!(snb_transceiver::codec::Hash::parse("short").is_err());
    let h = snb_transceiver::codec::Hash::parse(ENC_KEY).unwrap();
    assert_eq!(h.as_bytes(), &[b'q'; 32]);
}

#[test]
fn serialize_is_quoted_fields() {
    let p = Packet {
        sender: "a".to_string(),
        recipient: "b\"".to_string(),
        hub_collection: "c\\".to_string(),
        home_collection: "d\n".to_string(),
        token_list: vec!["1".to_string(), "2".to_string()],
    };
    assert_eq!(serialize(&p), "\"a\"\"b\\\"\"\"c\\\\\"\"d\\u000a\"\"1\"\"2\"");
}

#[test]
fn serialize_round_trip() {
    let p = packet();
    assert_eq!(deserialize(&serialize(&p)), Ok(p));
}

#[test]
fn deserialize_refuses_malformed_text() {
    assert_eq!(deserialize("\"a\"\"b\"\"c\""), Err(ContractError::MalformedPacket));
    assert_eq!(deserialize("\"a\"\"b\"\"c\"\"d"), Err(ContractError::MalformedPacket));
    assert_eq!(deserialize("x"), Err(ContractError::MalformedPacket));
    let empty_tokens = deserialize("\"a\"\"b\"\"c\"\"d\"").unwrap();
    assert!(empty_tokens.token_list.is_empty());
}

#[test]
fn packet_round_trip_through_encryption() {
    let enc_key = snb_transceiver::codec::Hash::parse(ENC_KEY).unwrap();
    let t: u64 = 1_700_000_000_123_456_789;
    let p = packet();
    let e = serialize_encrypt(&enc_key, t, &p).unwrap();
    assert_eq!(e.timestamp, t);
    assert_ne!(e.value, serialize(&p));
    assert_eq!(decrypt_deserialize(&enc_key, t, &e.value), Ok(p.clone()));
    assert!(decrypt_deserialize(&enc_key, t + 1_000_000_000, &e.value).is_err());
    assert_eq!(serialize_encrypt(&enc_key, t, &p).unwrap(), e);
}

#[test]
fn nonce_is_first_twelve_digits() {
    assert_eq!(timestamp_to_nonce(1_700_000_000_123_456_789), "170000000012");
    assert_eq!(timestamp_to_nonce(100_000_000_000), "100000000000");
}

#[test]
fn split_address_at_first_separator() {
    assert_eq!(split_address("neutron1abc"), ("neutron".to_string(), "abc".to_string()));
    assert_eq!(split_address("a1b1c"), ("a".to_string(), "b1c".to_string()));
    assert_eq!(split_address("1x"), ("".to_string(), "x".to_string()));
}

#[test]
fn byte_string_conversions() {
    assert_eq!(str_to_u8_vec("aé"), vec![97, 0xe9]);
    assert_eq!(u8_vec_to_str(&[104, 0xff]), "h\u{ff}");
    assert_eq!(str_to_u8_vec(&u8_vec_to_str(&[0, 7, 200])), vec![0, 7, 200]);
    assert_eq!(utf8_vec_to_str("⚠".as_bytes()), Ok("⚠".to_string()));
    assert_eq!(utf8_vec_to_str(&[0xff]), Err(ContractError::MalformedPacket));
}

#[test]
fn address_reprefix() {
    let data = b"some account".to_base32();
    let neutron = bech32::encode("neutron", data.clone(), Variant::Bech32).unwrap();
    let stars = bech32::encode("stars", data, Variant::Bech32).unwrap();
    assert_ne!(neutron, stars);
    assert_eq!(get_addr_by_prefix(&neutron, "stars"), Ok(stars.clone()));
    assert_eq!(get_addr_by_prefix(&stars, "neutron"), Ok(neutron));
    assert_eq!(get_addr_by_prefix("neutron1notbech32", "stars"), Err(ContractError::InvalidAddress));
    assert_eq!(get_addr_by_prefix(&stars, ""), Err(ContractError::InvalidAddress));
    assert_eq!(get_addr_by_prefix(&stars, "Ab"), Err(ContractError::InvalidAddress));
}

#[test]
fn ibc_transfer_msg_bytes() {
    let m = get_ibc_transfer_msg("channel-0", "a", 1, "s", "r", 5, "m");
    assert_eq!(m.type_url, "/ibc.applications.transfer.v1.MsgTransfer");
    let mut expected: Vec<u8> = vec![0x0a, 8];
    expected.extend_from_slice(b"transfer");
    expected.extend_from_slice(&[0x12, 9]);
    expected.extend_from_slice(b"channel-0");
    expected.extend_from_slice(&[0x1a, 6, 0x0a, 1, b'a', 0x12, 1, b'1']);
    expected.extend_from_slice(&[0x22, 1, b's', 0x2a, 1, b'r', 0x38, 5, 0x42, 1, b'm']);
    assert_eq!(m.value, expected);
}

#[test]
fn neutron_transfer_msg_bytes() {
    let m = get_neutron_ibc_transfer_msg("c", "untrn", 300, "s", "r", 0, "", 7);
    assert_eq!(m.type_url, "/neutron.transfer.MsgTransfer");
    let mut expected: Vec<u8> = vec![0x0a, 8];
    expected.extend_from_slice(b"transfer");
    expected.extend_from_slice(&[0x12, 1, b'c']);
    expected.extend_from_slice(&[0x1a, 12, 0x0a, 5]);
    expected.extend_from_slice(b"untrn");
    expected.extend_from_slice(&[0x12, 3]);
    expected.extend_from_slice(b"300");
    expected.extend_from_slice(&[0x22, 1, b's', 0x2a, 1, b'r']);
    let coin: Vec<u8> = vec![0x0a, 5, b'u', b'n', b't', b'r', b'n', 0x12, 1, b'7'];
    let mut fee: Vec<u8> = vec![0x12, 10];
    fee.extend_from_slice(&coin);
    fee.extend_from_slice(&[0x1a, 10]);
    fee.extend_from_slice(&coin);
    expected.extend_from_slice(&[0x4a, fee.len() as u8]);
    expected.extend_from_slice(&fee);
    assert_eq!(m.value, expected);
}

#[test]
fn ibc_memo_is_json() {
    assert_eq!(
        get_ibc_transfer_memo("c", "a\"b\u{1}\n\u{1e}\\", 12),
        r#"{"wasm":{"contract":"c","msg":{"accept":{"msg":"a\"b\u0001\n\u001E\\","timestamp":"12"}}}}"#
    );
}
