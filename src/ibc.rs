use vstd::prelude::*;
use vstd::string::*;
use vstd::utf8::*;

use anybuf::Anybuf;

use crate::decimal::{decimal, decimal_string};

verus! {

#[verifier::external_type_specification]
#[verifier::external_body]
pub struct ExAnybuf(anybuf::Anybuf);

/// The protobuf bytes written into a buffer so far.
pub uninterp spec fn anybuf_bytes(b: Anybuf) -> Seq<u8>;

/// Protobuf's variable-length encoding of `n`: seven bits per byte, least significant first.
pub open spec fn varint(n: nat) -> Seq<u8>
    decreases n,
{
    if n < 128 {
        seq![n as u8]
    } else {
        seq![((n % 128) + 128) as u8] + varint(n / 128)
    }
}

/// A length-delimited field; an empty value is left out.
pub open spec fn len_field(field: nat, data: Seq<u8>) -> Seq<u8> {
    if data.len() == 0 {
        seq![]
    } else {
        varint(field * 8 + 2) + varint(data.len()) + data
    }
}

/// A varint field; zero is left out.
pub open spec fn uint64_field(field: nat, value: nat) -> Seq<u8> {
    if value == 0 {
        seq![]
    } else {
        varint(field * 8) + varint(value)
    }
}

/// A repeated message field: one length-delimited entry per message, empty ones included.
pub open spec fn repeated_field(field: nat, msgs: Seq<Seq<u8>>) -> Seq<u8>
    decreases msgs.len(),
{
    if msgs.len() == 0 {
        seq![]
    } else {
        repeated_field(field, msgs.drop_last()) + varint(field * 8 + 2) + varint(
            msgs.last().len(),
        ) + msgs.last()
    }
}

/// The largest field number that protobuf allows.
pub const MAX_FIELD: u32 = 536870911;

/// Relies on `Anybuf::new`: an empty buffer.
#[verifier::external_body]
fn buf_new() -> (r: Anybuf)
    ensures
        anybuf_bytes(r) == Seq::<u8>::empty(),
{
    Anybuf::new()
}

/// Relies on `Anybuf::append_string`: appends the UTF-8 bytes of `data` as field `field`.
#[verifier::external_body]
fn buf_string(b: Anybuf, field: u32, data: &str) -> (r: Anybuf)
    requires
        field <= MAX_FIELD,
    ensures
        anybuf_bytes(r) == anybuf_bytes(b) + len_field(field as nat, encode_utf8(data@)),
{
    b.append_string(field, data)
}

/// Relies on `Anybuf::append_uint64`: appends `value` as field `field`.
#[verifier::external_body]
fn buf_uint64(b: Anybuf, field: u32, value: u64) -> (r: Anybuf)
    requires
        field <= MAX_FIELD,
    ensures
        anybuf_bytes(r) == anybuf_bytes(b) + uint64_field(field as nat, value as nat),
{
    b.append_uint64(field, value)
}

/// Relies on `Anybuf::append_message`: appends the bytes of `m` as field `field`.
#[verifier::external_body]
fn buf_message(b: Anybuf, field: u32, m: &Anybuf) -> (r: Anybuf)
    requires
        field <= MAX_FIELD,
    ensures
        anybuf_bytes(r) == anybuf_bytes(b) + len_field(field as nat, anybuf_bytes(*m)),
{
    b.append_message(field, m)
}

pub open spec fn buffers_bytes(ms: Seq<Anybuf>) -> Seq<Seq<u8>> {
    ms.map_values(|m: Anybuf| anybuf_bytes(m))
}

/// Relies on `Anybuf::append_repeated_message`: appends each of `ms` as field `field`.
#[verifier::external_body]
fn buf_repeated_message(b: Anybuf, field: u32, ms: &[Anybuf]) -> (r: Anybuf)
    requires
        field <= MAX_FIELD,
    ensures
        anybuf_bytes(r) == anybuf_bytes(b) + repeated_field(field as nat, buffers_bytes(ms@)),
{
    b.append_repeated_message(field, ms)
}

/// Relies on `Anybuf::into_vec`: the bytes written.
#[verifier::external_body]
fn buf_into_vec(b: Anybuf) -> (r: Vec<u8>)
    ensures
        r@ == anybuf_bytes(b),
{
    b.into_vec()
}

/// A message for the chain's message router: its protobuf type and bytes.
#[derive(Debug, Clone, PartialEq, Eq)]
pub struct StargateMsg {
    pub type_url: String,
    pub value: Vec<u8>,
}

pub open spec fn ibc_transfer_type_url() -> Seq<char> {
    "/ibc.applications.transfer.v1.MsgTransfer"@
}

pub open spec fn neutron_transfer_type_url() -> Seq<char> {
    "/neutron.transfer.MsgTransfer"@
}

pub open spec fn transfer_port() -> Seq<char> {
    "transfer"@
}

pub open spec fn denom_ntrn() -> Seq<char> {
    "untrn"@
}

/// The protobuf bytes of a coin: denomination and decimal amount.
pub open spec fn coin_bytes(denom: Seq<char>, amount: nat) -> Seq<u8> {
    len_field(1, encode_utf8(denom)) + len_field(2, encode_utf8(decimal(amount)))
}

/// The fields of a transport transfer message that both message kinds share.
pub open spec fn transfer_fields(
    channel: Seq<char>,
    denom: Seq<char>,
    amount: nat,
    sender: Seq<char>,
    receiver: Seq<char>,
    timeout_ns: nat,
    memo: Seq<char>,
) -> Seq<u8> {
    len_field(1, encode_utf8(transfer_port())) + len_field(2, encode_utf8(channel)) + len_field(
        3,
        coin_bytes(denom, amount),
    ) + len_field(4, encode_utf8(sender)) + len_field(5, encode_utf8(receiver)) + uint64_field(
        7,
        timeout_ns,
    ) + len_field(8, encode_utf8(memo))
}

/// The fee part of a Neutron transfer: no receive fee, `fee` untrn each for ack and timeout.
pub open spec fn neutron_fee_bytes(fee: nat) -> Seq<u8> {
    repeated_field(1, seq![]) + repeated_field(2, seq![coin_bytes(denom_ntrn(), fee)])
        + repeated_field(3, seq![coin_bytes(denom_ntrn(), fee)])
}

fn coin_msg(denom: &str, amount: u128) -> (r: Anybuf)
    ensures
        anybuf_bytes(r) == coin_bytes(denom@, amount as nat),
{
    let amount_str = decimal_string(amount);
    let b = buf_string(buf_new(), 1, denom);
    let r = buf_string(b, 2, amount_str.as_str());
    assert(anybuf_bytes(r) =~= coin_bytes(denom@, amount as nat));
    r
}

fn transfer_buf(
    channel: &str,
    denom_in: &str,
    amount_in: u128,
    sender: &str,
    contract_address: &str,
    timeout_timestamp_ns: u64,
    ibc_transfer_memo: &str,
) -> (r: Anybuf)
    ensures
        anybuf_bytes(r) == transfer_fields(
            channel@,
            denom_in@,
            amount_in as nat,
            sender@,
            contract_address@,
            timeout_timestamp_ns as nat,
            ibc_transfer_memo@,
        ),
{
    proof {
        reveal_strlit("transfer");
    }
    let timeout_height = buf_uint64(buf_uint64(buf_new(), 1, 0), 2, 0);
    assert(anybuf_bytes(timeout_height) =~= Seq::<u8>::empty());
    let coin = coin_msg(denom_in, amount_in);
    let b = buf_string(buf_new(), 1, "transfer");
    let b = buf_string(b, 2, channel);
    let b = buf_message(b, 3, &coin);
    let b = buf_string(b, 4, sender);
    let b = buf_string(b, 5, contract_address);
    let b = buf_message(b, 6, &timeout_height);
    let b = buf_uint64(b, 7, timeout_timestamp_ns);
    let b = buf_string(b, 8, ibc_transfer_memo);
    assert(anybuf_bytes(b) =~= transfer_fields(
        channel@,
        denom_in@,
        amount_in as nat,
        sender@,
        contract_address@,
        timeout_timestamp_ns as nat,
        ibc_transfer_memo@,
    ));
    b
}

/// The transport transfer of `amount_in` `denom_in` over `channel` to `contract_address`,
/// carrying `ibc_transfer_memo` for the hook on the receiving chain.
pub fn get_ibc_transfer_msg(
    channel: &str,
    denom_in: &str,
    amount_in: u128,
    sender: &str,
    contract_address: &str,
    timeout_timestamp_ns: u64,
    ibc_transfer_memo: &str,
) -> (r: StargateMsg)
    ensures
        r.type_url@ == ibc_transfer_type_url(),
        r.value@ == transfer_fields(
            channel@,
            denom_in@,
            amount_in as nat,
            sender@,
            contract_address@,
            timeout_timestamp_ns as nat,
            ibc_transfer_memo@,
        ),
{
    let b = transfer_buf(
        channel,
        denom_in,
        amount_in,
        sender,
        contract_address,
        timeout_timestamp_ns,
        ibc_transfer_memo,
    );
    StargateMsg {
        type_url: String::from_str("/ibc.applications.transfer.v1.MsgTransfer"),
        value: buf_into_vec(b),
    }
}

/// As `get_ibc_transfer_msg`, in the Neutron form that also pays `min_ntrn_ibc_fee` untrn for
/// each of the acknowledgement and the timeout.
pub fn get_neutron_ibc_transfer_msg(
    channel: &str,
    denom_in: &str,
    amount_in: u128,
    sender: &str,
    contract_address: &str,
    timeout_timestamp_ns: u64,
    ibc_transfer_memo: &str,
    min_ntrn_ibc_fee: u128,
) -> (r: StargateMsg)
    ensures
        r.type_url@ == neutron_transfer_type_url(),
        r.value@ == transfer_fields(
            channel@,
            denom_in@,
            amount_in as nat,
            sender@,
            contract_address@,
            timeout_timestamp_ns as nat,
            ibc_transfer_memo@,
        ) + len_field(9, neutron_fee_bytes(min_ntrn_ibc_fee as nat)),
{
    let recv_fee: Vec<Anybuf> = Vec::new();
    let mut ack_fee: Vec<Anybuf> = Vec::new();
    ack_fee.push(coin_msg("untrn", min_ntrn_ibc_fee));
    let mut timeout_fee: Vec<Anybuf> = Vec::new();
    timeout_fee.push(coin_msg("untrn", min_ntrn_ibc_fee));
    let fee = buf_repeated_message(buf_new(), 1, recv_fee.as_slice());
    let fee = buf_repeated_message(fee, 2, ack_fee.as_slice());
    let fee = buf_repeated_message(fee, 3, timeout_fee.as_slice());
    assert(buffers_bytes(recv_fee@) =~= seq![]);
    assert(buffers_bytes(ack_fee@) =~= seq![coin_bytes(denom_ntrn(), min_ntrn_ibc_fee as nat)]);
    assert(buffers_bytes(timeout_fee@) =~= seq![
        coin_bytes(denom_ntrn(), min_ntrn_ibc_fee as nat),
    ]);
    assert(anybuf_bytes(fee) =~= neutron_fee_bytes(min_ntrn_ibc_fee as nat));
    let b = transfer_buf(
        channel,
        denom_in,
        amount_in,
        sender,
        contract_address,
        timeout_timestamp_ns,
        ibc_transfer_memo,
    );
    let b = buf_message(b, 9, &fee);
    StargateMsg {
        type_url: String::from_str("/neutron.transfer.MsgTransfer"),
        value: buf_into_vec(b),
    }
}

/// The JSON string literal of a text, quotes included, as the chain's JSON serializer writes it.
pub uninterp spec fn json_quoted(s: Seq<char>) -> Seq<char>;

/// Relies on `cosmwasm_std::to_json_string` on a `&str`: serde-json-wasm's `serialize_str`
/// writes the quoted, escaped literal and never fails; the result depends on the text alone.
#[verifier::external_body]
fn json_string(s: &str) -> (r: String)
    ensures
        r@ == json_quoted(s@),
{
    cosmwasm_std::to_json_string(s).unwrap_or_default()
}

/// The memo that asks the hook on the receiving chain to call `accept` of `contract_address`
/// with `msg` and `timestamp` (nanoseconds).
pub open spec fn transfer_memo(contract_address: Seq<char>, msg: Seq<char>, timestamp: nat) -> Seq<
    char,
> {
    "{\"wasm\":{\"contract\":"@ + json_quoted(contract_address)
        + ",\"msg\":{\"accept\":{\"msg\":"@ + json_quoted(msg) + ",\"timestamp\":\""@
        + decimal(timestamp) + "\"}}}}"@
}

/// Renders the JSON memo for the transport hook of the receiving chain: the `wasm` memo of an
/// `accept` call, the timestamp written as a decimal string.
pub fn get_ibc_transfer_memo(contract_address: &str, msg: &str, timestamp: u64) -> (r: String)
    ensures
        r@ == transfer_memo(contract_address@, msg@, timestamp as nat),
{
    let contract_json = json_string(contract_address);
    let msg_json = json_string(msg);
    let mut r = String::from_str("{\"wasm\":{\"contract\":");
    r.append(contract_json.as_str());
    r.append(",\"msg\":{\"accept\":{\"msg\":");
    r.append(msg_json.as_str());
    r.append(",\"timestamp\":\"");
    let ts = decimal_string(timestamp as u128);
    r.append(ts.as_str());
    r.append("\"}}}}");
    r
}

} // verus!
