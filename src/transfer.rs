use vstd::prelude::*;
use vstd::string::*;
use vstd::utf8::*;

use crate::address::{addr_prefix, get_addr_by_prefix, has_separator, reprefixed};
use crate::codec::{
    decrypt_deserialize, decrypted_packet, encrypted_packet, has_nonce, packet_error, packet_text,
    serialize_encrypt, PacketView, P_MAX,
};
use crate::error::ContractError;
use crate::ibc::{
    denom_ntrn, get_ibc_transfer_memo, get_ibc_transfer_msg, get_neutron_ibc_transfer_msg,
    len_field, neutron_fee_bytes, neutron_transfer_type_url, ibc_transfer_type_url,
    transfer_fields, transfer_memo,
};
use crate::registry::{
    channel_by_prefix, collection_by_hub, find_channel, find_collection_by_hub, find_outpost,
    outpost_on_chain,
};
use crate::topology::{
    get_transmission_info, has_sep, opt_view, prefix_of, strings_view, transmission_info,
    TransmissionInfoView,
};
use crate::types::{
    Channel, Collection, Config, Packet, TransceiverType, TransferAdminState,
    TransmissionDescription, TransmissionInfo, TransmissionMode, TransmissionRoute,
    TransmissionStage,
};

verus! {

/// An amount of a native asset attached to a call.
#[derive(Debug, Clone, PartialEq, Eq)]
pub struct Coin {
    pub denom: String,
    pub amount: u128,
}

/// Everything a transceiver keeps between calls: its configuration, the pause gate, a pending
/// admin handover, the retranslation outpost, the outposts seen (on the hub), the collection
/// pairings and the channel table.
#[derive(Debug)]
pub struct State {
    pub config: Config,
    pub is_paused: bool,
    pub transfer_admin_state: Option<TransferAdminState>,
    pub retranslation_outpost: Option<String>,
    pub outposts: Vec<String>,
    pub collections: Vec<Collection>,
    pub channels: Vec<Channel>,
}

/// A command to another contract or to the chain that a call asks to be carried out.
#[derive(Debug, Clone, PartialEq, Eq)]
pub enum Action {
    /// move `token_id` of `collection` to `recipient`
    TransferNft { collection: String, recipient: String, token_id: String },
    /// let `operator` move every token of `collection` that this transceiver holds
    ApproveAll { collection: String, operator: String },
    /// have the mint contract burn `token_list` of `collection`
    Burn { minter: String, collection: String, token_list: Vec<String> },
    /// have the mint contract mint `token_list` of `collection` to `recipient`
    Mint { minter: String, collection: String, token_list: Vec<String>, recipient: String },
    /// call `accept` of the transceiver `contract` on this chain
    Accept { contract: String, msg: String, timestamp: u64 },
    /// a transport transfer message, as protobuf bytes
    Stargate { type_url: String, value: Vec<u8> },
}

/// An action with each string seen as its characters.
pub enum ActionView {
    TransferNft { collection: Seq<char>, recipient: Seq<char>, token_id: Seq<char> },
    ApproveAll { collection: Seq<char>, operator: Seq<char> },
    Burn { minter: Seq<char>, collection: Seq<char>, token_list: Seq<Seq<char>> },
    Mint {
        minter: Seq<char>,
        collection: Seq<char>,
        token_list: Seq<Seq<char>>,
        recipient: Seq<char>,
    },
    Accept { contract: Seq<char>, msg: Seq<char>, timestamp: u64 },
    Stargate { type_url: Seq<char>, value: Seq<u8> },
}

impl View for Action {
    type V = ActionView;

    open spec fn view(&self) -> ActionView {
        match self {
            Action::TransferNft { collection, recipient, token_id } => ActionView::TransferNft {
                collection: collection@,
                recipient: recipient@,
                token_id: token_id@,
            },
            Action::ApproveAll { collection, operator } => ActionView::ApproveAll {
                collection: collection@,
                operator: operator@,
            },
            Action::Burn { minter, collection, token_list } => ActionView::Burn {
                minter: minter@,
                collection: collection@,
                token_list: strings_view(token_list@),
            },
            Action::Mint { minter, collection, token_list, recipient } => ActionView::Mint {
                minter: minter@,
                collection: collection@,
                token_list: strings_view(token_list@),
                recipient: recipient@,
            },
            Action::Accept { contract, msg, timestamp } => ActionView::Accept {
                contract: contract@,
                msg: msg@,
                timestamp: *timestamp,
            },
            Action::Stargate { type_url, value } => ActionView::Stargate {
                type_url: type_url@,
                value: value@,
            },
        }
    }
}

pub open spec fn actions_view(v: Seq<Action>) -> Seq<ActionView> {
    v.map_values(|a: Action| a@)
}

pub open spec fn has_duplicates(s: Seq<Seq<char>>) -> bool {
    exists|i: int, j: int| 0 <= i < j < s.len() && s[i] == s[j]
}

/// The error that a token list of a send meets, if any.
pub open spec fn token_list_error(token_limit: u8, tokens: Seq<Seq<char>>) -> Option<
    ContractError,
> {
    if has_duplicates(tokens) {
        Some(ContractError::NftDuplication)
    } else if tokens.len() == 0 {
        Some(ContractError::EmptyTokenList)
    } else if tokens.len() > token_limit {
        Some(ContractError::ExceededTokenLimit)
    } else {
        None
    }
}

/// Whether `s` is among `v`.
pub(crate) fn contains_string(v: &[String], s: &String) -> (r: bool)
    ensures
        r == strings_view(v@).contains(s@),
{
    let mut i: usize = 0;
    while i < v.len()
        invariant
            i <= v@.len(),
            forall|j: int| 0 <= j < i ==> v@[j]@ != s@,
        decreases v@.len() - i,
    {
        if v[i] == *s {
            assert(strings_view(v@)[i as int] == s@);
            return true;
        }
        i = i + 1;
    }
    assert forall|j: int| 0 <= j < strings_view(v@).len() implies strings_view(v@)[j] != s@ by {
        assert(v@[j]@ != s@);
    }
    false
}

fn has_duplicate_strings(v: &[String]) -> (r: bool)
    ensures
        r == has_duplicates(strings_view(v@)),
{
    let ghost sv = strings_view(v@);
    let mut j: usize = 0;
    while j < v.len()
        invariant
            j <= v@.len(),
            sv == strings_view(v@),
            forall|a: int, b: int| 0 <= a < b < j ==> sv[a] != sv[b],
        decreases v@.len() - j,
    {
        let mut i: usize = 0;
        while i < j
            invariant
                i <= j < v@.len(),
                sv == strings_view(v@),
                forall|a: int, b: int| 0 <= a < b < j ==> sv[a] != sv[b],
                forall|a: int| 0 <= a < i ==> sv[a] != sv[j as int],
            decreases j - i,
        {
            if v[i] == v[j] {
                assert(sv[i as int] == sv[j as int]);
                return true;
            }
            i = i + 1;
        }
        j = j + 1;
    }
    false
}

/// Validates the token list of a send: no duplicates, not empty, within the configured limit.
pub fn check_token_list(config: &Config, token_list: &[String]) -> (r: Result<(), ContractError>)
    ensures
        match token_list_error(config.token_limit, strings_view(token_list@)) {
            Some(e) => r == Err::<(), ContractError>(e),
            None => r is Ok,
        },
{
    if has_duplicate_strings(token_list) {
        return Err(ContractError::NftDuplication);
    }
    if token_list.len() == 0 {
        return Err(ContractError::EmptyTokenList);
    }
    if token_list.len() > config.token_limit as usize {
        return Err(ContractError::ExceededTokenLimit);
    }
    Ok(())
}

/// The native amount a send must carry: one unit, plus the relay fee where the hub sends to
/// another chain.
pub open spec fn required_amount(config: Config, description: TransmissionDescription) -> int {
    if description.mode == TransmissionMode::Interchain && config.transceiver_type
        == TransceiverType::Hub {
        1 + config.min_ntrn_ibc_fee
    } else {
        1
    }
}

/// The amount that a send forwards, or why the attached coin does not fit.
pub open spec fn checked_amount(
    config: Config,
    coin: Coin,
    description: TransmissionDescription,
) -> Result<u128, ContractError> {
    if description.mode == TransmissionMode::Interchain && config.transceiver_type
        == TransceiverType::Hub && coin.denom@ != denom_ntrn() {
        Err(ContractError::WrongAssetType)
    } else if coin.amount as int != required_amount(config, description) {
        Err(ContractError::WrongFundsCombination)
    } else {
        Ok(1)
    }
}

/// Checks the coin attached to a send against the route and returns the amount to forward.
pub fn get_checked_amount_in(
    config: &Config,
    asset: &Coin,
    transmission_description: &TransmissionDescription,
) -> (r: Result<u128, ContractError>)
    ensures
        r == checked_amount(*config, *asset, *transmission_description),
{
    proof {
        reveal_strlit("untrn");
    }
    let amount_in: u128 = 1;
    if transmission_description.mode.is_interchain() && config.transceiver_type.is_hub() {
        let ntrn = String::from_str("untrn");
        if asset.denom != ntrn {
            return Err(ContractError::WrongAssetType);
        }
        if config.min_ntrn_ibc_fee == u128::MAX || asset.amount != amount_in
            + config.min_ntrn_ibc_fee {
            return Err(ContractError::WrongFundsCombination);
        }
    } else if asset.amount != amount_in {
        return Err(ContractError::WrongFundsCombination);
    }
    Ok(amount_in)
}

/// Token-moving calls are refused while the transceiver is paused.
pub fn check_pause_state(state: &State) -> (r: Result<(), ContractError>)
    ensures
        state.is_paused ==> r == Err::<(), ContractError>(ContractError::ContractIsPaused),
        !state.is_paused ==> r is Ok,
{
    if state.is_paused {
        return Err(ContractError::ContractIsPaused);
    }
    Ok(())
}

/// The one coin attached to a call that must carry exactly one.
pub fn check_single_coin(funds: &[Coin]) -> (r: Result<Coin, ContractError>)
    ensures
        funds@.len() == 1 ==> r == Ok::<Coin, ContractError>(funds@[0]),
        funds@.len() != 1 ==> r == Err::<Coin, ContractError>(
            ContractError::WrongFundsCombination,
        ),
{
    if funds.len() != 1 {
        return Err(ContractError::WrongFundsCombination);
    }
    Ok(Coin { denom: funds[0].denom.clone(), amount: funds[0].amount })
}

/// How many tokens one ownership query asks for.
pub const TOKENS_PAGE_LIMIT: u32 = 100;

/// How many ownership queries one check makes at most.
pub const TOKENS_QUERY_LIMIT: u32 = 50;

/// The next page to ask the collection for, after `done` pages of which the last was `page`:
/// another page follows only a full one, and only while the query limit is not reached. The
/// result is the token to start after.
pub fn next_tokens_query(page: &[String], done: u32) -> (r: Option<Option<String>>)
    ensures
        r is Some <==> (done == 0 || (page@.len() == TOKENS_PAGE_LIMIT && done
            < TOKENS_QUERY_LIMIT)),
        done == 0 ==> r == Some(None::<String>),
        done > 0 && r is Some ==> (r matches Some(Some(s)) && s == page@.last()),
{
    if done == 0 {
        return Some(None);
    }
    if page.len() == TOKENS_PAGE_LIMIT as usize && done < TOKENS_QUERY_LIMIT {
        Some(Some(page[page.len() - 1].clone()))
    } else {
        None
    }
}

/// Whether every one of `tokens` is among `owned`.
pub open spec fn all_owned(tokens: Seq<Seq<char>>, owned: Seq<Seq<char>>) -> bool {
    forall|i: int| 0 <= i < tokens.len() ==> owned.contains(#[trigger] tokens[i])
}

/// Checks that the holder owns every token of `token_id_list`, given the tokens it owns.
pub fn check_tokens_holder(owned: &[String], token_id_list: &[String]) -> (r: Result<
    (),
    ContractError,
>)
    ensures
        all_owned(strings_view(token_id_list@), strings_view(owned@)) ==> r is Ok,
        !all_owned(strings_view(token_id_list@), strings_view(owned@)) ==> r == Err::<
            (),
            ContractError,
        >(ContractError::NftIsNotFound),
{
    let mut i: usize = 0;
    while i < token_id_list.len()
        invariant
            i <= token_id_list@.len(),
            forall|j: int|
                0 <= j < i ==> strings_view(owned@).contains(
                    #[trigger] strings_view(token_id_list@)[j],
                ),
        decreases token_id_list@.len() - i,
    {
        if !contains_string(owned, &token_id_list[i]) {
            assert(!strings_view(owned@).contains(strings_view(token_id_list@)[i as int]));
            return Err(ContractError::NftIsNotFound);
        }
        i = i + 1;
    }
    Ok(())
}

/// The transport channel and the receiving transceiver of a short interchain transfer.
pub open spec fn channel_and_transceiver(
    is_hub_sender: bool,
    hub_address: Seq<char>,
    home_collection: Seq<char>,
    outposts: Seq<Seq<char>>,
    channels: Seq<Channel>,
) -> Result<(Seq<char>, Seq<char>), ContractError> {
    if !has_separator(home_collection) {
        Err(ContractError::InvalidAddress)
    } else {
        match channel_by_prefix(channels, addr_prefix(home_collection)) {
            None => Err(ContractError::ChannelIsNotFound),
            Some(ch) => if is_hub_sender {
                match outpost_on_chain(outposts, addr_prefix(home_collection)) {
                    Some(o) => Ok((ch.from_hub@, o)),
                    None => Err(ContractError::OutpostIsNotFound),
                }
            } else {
                Ok((ch.to_hub@, hub_address))
            },
        }
    }
}

/// Returns the transport channel and the receiving transceiver for a short interchain
/// transfer of a token of `home_collection`.
pub fn get_channel_and_transceiver(
    contract_address: &str,
    hub_address: &str,
    home_collection: &str,
    outpost_list: &[String],
    channel_list: &[Channel],
) -> (r: Result<(String, String), ContractError>)
    ensures
        match channel_and_transceiver(
            contract_address@ == hub_address@,
            hub_address@,
            home_collection@,
            strings_view(outpost_list@),
            channel_list@,
        ) {
            Ok((c, t)) => r matches Ok((a, b)) && a@ == c && b@ == t,
            Err(e) => r == Err::<(String, String), ContractError>(e),
        },
{
    let contract = contract_address.to_owned();
    let hub = hub_address.to_owned();
    let is_hub_sender = contract == hub;
    if !has_sep(home_collection) {
        return Err(ContractError::InvalidAddress);
    }
    let home_prefix = prefix_of(home_collection);
    let channel = match find_channel(channel_list, &home_prefix) {
        Some(c) => c,
        None => {
            return Err(ContractError::ChannelIsNotFound);
        },
    };
    if is_hub_sender {
        match find_outpost(outpost_list, &home_prefix) {
            Some(o) => Ok((channel.from_hub, o)),
            None => Err(ContractError::OutpostIsNotFound),
        }
    } else {
        Ok((channel.to_hub, hub))
    }
}

/// How long a transport transfer may take before it times out, in nanoseconds.
pub const IBC_TIMEOUT_NS: u64 = 600_000_000_000;

/// A block time (nanoseconds) at which a send can be encrypted and given a timeout.
pub open spec fn valid_send_time(now: u64) -> bool {
    has_nonce(now as nat) && now <= u64::MAX - IBC_TIMEOUT_NS
}

pub fn clone_strings(v: &[String]) -> (r: Vec<String>)
    ensures
        r@ == v@,
{
    let mut r: Vec<String> = Vec::new();
    let mut i: usize = 0;
    while i < v.len()
        invariant
            i <= v@.len(),
            r@ == v@.take(i as int),
        decreases v@.len() - i,
    {
        r.push(v[i].clone());
        i = i + 1;
        assert(r@ =~= v@.take(i as int));
    }
    assert(v@.take(i as int) =~= v@);
    r
}

/// Who receives the tokens of a send: the sender itself where a target is given, else the
/// sender's address re-encoded for the chain of the other side's collection.
pub open spec fn send_recipient(
    is_hub: bool,
    c: Collection,
    sender: Seq<char>,
    target: Option<Seq<char>>,
) -> Result<Seq<char>, ContractError> {
    match target {
        Some(_) => Ok(sender),
        None => {
            let other = if is_hub {
                c.home_collection@
            } else {
                c.hub_collection@
            };
            if !has_separator(other) {
                Err(ContractError::InvalidAddress)
            } else {
                match reprefixed(sender, addr_prefix(other)) {
                    Some(a) => Ok(a),
                    None => Err(ContractError::InvalidAddress),
                }
            }
        },
    }
}

fn get_send_recipient(is_hub: bool, c: &Collection, sender: &str, target: &Option<String>) -> (r:
    Result<String, ContractError>)
    ensures
        match send_recipient(is_hub, *c, sender@, opt_view(*target)) {
            Ok(a) => r matches Ok(s) && s@ == a,
            Err(e) => r == Err::<String, ContractError>(e),
        },
{
    match target {
        Some(_) => Ok(sender.to_owned()),
        None => {
            let other = if is_hub {
                &c.home_collection
            } else {
                &c.hub_collection
            };
            if !has_sep(other.as_str()) {
                return Err(ContractError::InvalidAddress);
            }
            let prefix = prefix_of(other.as_str());
            get_addr_by_prefix(sender, prefix.as_str())
        },
    }
}

/// One transfer of each token of `tokens` in `collection` to `recipient`.
pub open spec fn transfer_actions(
    collection: Seq<char>,
    recipient: Seq<char>,
    tokens: Seq<Seq<char>>,
) -> Seq<ActionView> {
    Seq::new(
        tokens.len(),
        |i: int| ActionView::TransferNft { collection, recipient, token_id: tokens[i] },
    )
}

fn push_transfers(out: &mut Vec<Action>, collection: &String, recipient: &String, tokens: &[String])
    ensures
        actions_view(final(out)@) == actions_view(old(out)@) + transfer_actions(
            collection@,
            recipient@,
            strings_view(tokens@),
        ),
{
    let ghost start = actions_view(out@);
    let mut i: usize = 0;
    while i < tokens.len()
        invariant
            i <= tokens@.len(),
            actions_view(out@) == start + transfer_actions(
                collection@,
                recipient@,
                strings_view(tokens@.take(i as int)),
            ),
        decreases tokens@.len() - i,
    {
        let ghost before = out@;
        let a = Action::TransferNft {
            collection: collection.clone(),
            recipient: recipient.clone(),
            token_id: tokens[i].clone(),
        };
        out.push(a);
        proof {
            assert(out@ == before.push(a));
            assert(actions_view(out@) =~= actions_view(before).push(a@));
            let prev = transfer_actions(collection@, recipient@, strings_view(tokens@.take(i as int)));
            let next = transfer_actions(
                collection@,
                recipient@,
                strings_view(tokens@.take(i + 1)),
            );
            assert(next =~= prev.push(a@));
        }
        i = i + 1;
    }
    assert(tokens@.take(i as int) =~= tokens@);
}

/// The custody commands of a send: every token moves to the transceiver; on the hub the mint
/// contract is then approved and burns them.
pub open spec fn custody_actions(
    is_hub: bool,
    minter: Seq<char>,
    collection: Seq<char>,
    transceiver: Seq<char>,
    tokens: Seq<Seq<char>>,
) -> Seq<ActionView> {
    transfer_actions(collection, transceiver, tokens) + if is_hub {
        seq![
            ActionView::ApproveAll { collection, operator: minter },
            ActionView::Burn { minter, collection, token_list: tokens },
        ]
    } else {
        seq![]
    }
}

/// The transport transfer message of the hub (with relay fee) or of an outpost.
pub open spec fn transfer_message(
    is_hub: bool,
    channel: Seq<char>,
    denom: Seq<char>,
    amount: nat,
    sender: Seq<char>,
    receiver: Seq<char>,
    timeout_ns: nat,
    memo: Seq<char>,
    fee: nat,
) -> ActionView {
    if is_hub {
        ActionView::Stargate {
            type_url: neutron_transfer_type_url(),
            value: transfer_fields(channel, denom, amount, sender, receiver, timeout_ns, memo)
                + len_field(9, neutron_fee_bytes(fee)),
        }
    } else {
        ActionView::Stargate {
            type_url: ibc_transfer_type_url(),
            value: transfer_fields(channel, denom, amount, sender, receiver, timeout_ns, memo),
        }
    }
}

fn make_transfer_message(
    is_hub: bool,
    channel: &str,
    denom: &str,
    amount: u128,
    sender: &str,
    receiver: &str,
    now: u64,
    value: &str,
    timestamp: u64,
    fee: u128,
) -> (r: Action)
    requires
        now <= u64::MAX - IBC_TIMEOUT_NS,
    ensures
        r@ == transfer_message(
            is_hub,
            channel@,
            denom@,
            amount as nat,
            sender@,
            receiver@,
            (now + IBC_TIMEOUT_NS) as nat,
            transfer_memo(receiver@, value@, timestamp as nat),
            fee as nat,
        ),
{
    let memo = get_ibc_transfer_memo(receiver, value, timestamp);
    let timeout = now + IBC_TIMEOUT_NS;
    let m = if is_hub {
        get_neutron_ibc_transfer_msg(channel, denom, amount, sender, receiver, timeout, memo.as_str(), fee)
    } else {
        get_ibc_transfer_msg(channel, denom, amount, sender, receiver, timeout, memo.as_str())
    };
    Action::Stargate { type_url: m.type_url, value: m.value }
}

/// How a send delivers its encrypted packet `value`: a direct `accept` call on this chain, or a
/// transport transfer whose memo calls `accept` on the receiving chain. A long route goes
/// through the retranslation outpost, whose chain prefixes must differ as the route demands.
pub open spec fn send_dispatch(
    config: Config,
    retranslation: Option<Seq<char>>,
    outposts: Seq<Seq<char>>,
    channels: Seq<Channel>,
    info: TransmissionInfoView,
    home_collection: Seq<char>,
    value: Seq<char>,
    now: u64,
    denom: Seq<char>,
    amount_in: nat,
) -> Result<ActionView, ContractError> {
    let is_hub = config.transceiver_type == TransceiverType::Hub;
    let p = info.prefix;
    let timeout = (now + IBC_TIMEOUT_NS) as nat;
    if info.description.mode == TransmissionMode::Local {
        if info.description.route == TransmissionRoute::Short {
            if p.hub != p.home_outpost {
                Err(ContractError::TransceiversAreNotLocal)
            } else {
                Ok(ActionView::Accept { contract: info.target, msg: value, timestamp: now })
            }
        } else {
            match (p.retranslation_outpost, retranslation) {
                (Some(rp), Some(r)) => if p.hub != rp || rp != p.home_outpost {
                    Err(ContractError::TransceiversAreNotLocal)
                } else {
                    Ok(ActionView::Accept { contract: r, msg: value, timestamp: now })
                },
                _ => Err(ContractError::TransceiversAreNotLocal),
            }
        }
    } else {
        if info.description.route == TransmissionRoute::Short {
            if p.hub == p.home_outpost {
                Err(ContractError::TransceiversAreNotInterchain)
            } else {
                match channel_and_transceiver(
                    info.transceiver == config.hub_address@,
                    config.hub_address@,
                    home_collection,
                    outposts,
                    channels,
                ) {
                    Err(e) => Err(e),
                    Ok((ch, t)) => Ok(
                        transfer_message(
                            is_hub,
                            ch,
                            denom,
                            amount_in,
                            info.transceiver,
                            t,
                            timeout,
                            transfer_memo(t, value, now as nat),
                            config.min_ntrn_ibc_fee as nat,
                        ),
                    ),
                }
            }
        } else {
            match (p.retranslation_outpost, retranslation) {
                (Some(rp), Some(r)) => if p.hub == rp || rp == p.home_outpost || p.home_outpost
                    == p.hub {
                    Err(ContractError::TransceiversAreNotInterchain)
                } else {
                    match channel_by_prefix(channels, rp) {
                        None => Err(ContractError::ChannelIsNotFound),
                        Some(ch) => Ok(
                            transfer_message(
                                is_hub,
                                if is_hub {
                                    ch.from_hub@
                                } else {
                                    ch.to_hub@
                                },
                                denom,
                                amount_in,
                                info.transceiver,
                                r,
                                timeout,
                                transfer_memo(r, value, now as nat),
                                config.min_ntrn_ibc_fee as nat,
                            ),
                        ),
                    }
                },
                _ => Err(ContractError::TransceiversAreNotInterchain),
            }
        }
    }
}

fn dispatch_send(
    state: &State,
    info: &TransmissionInfo,
    home_collection: &String,
    value: &String,
    now: u64,
    denom: &String,
    amount_in: u128,
) -> (r: Result<Action, ContractError>)
    requires
        now <= u64::MAX - IBC_TIMEOUT_NS,
        info@.prefix.retranslation_outpost is Some <==> state.retranslation_outpost is Some,
    ensures
        match send_dispatch(
            state.config,
            opt_view(state.retranslation_outpost),
            strings_view(state.outposts@),
            state.channels@,
            info@,
            home_collection@,
            value@,
            now,
            denom@,
            amount_in as nat,
        ) {
            Ok(a) => r matches Ok(b) && b@ == a,
            Err(e) => r == Err::<Action, ContractError>(e),
        },
{
    let is_hub = state.config.transceiver_type.is_hub();
    let p = &info.prefix;
    if info.description.mode.is_local() {
        if info.description.route.is_short() {
            if p.hub != p.home_outpost {
                return Err(ContractError::TransceiversAreNotLocal);
            }
            Ok(Action::Accept { contract: info.target.clone(), msg: value.clone(), timestamp: now })
        } else {
            match (&p.retranslation_outpost, &state.retranslation_outpost) {
                (Some(rp), Some(r)) => {
                    if p.hub != *rp || *rp != p.home_outpost {
                        return Err(ContractError::TransceiversAreNotLocal);
                    }
                    Ok(Action::Accept { contract: r.clone(), msg: value.clone(), timestamp: now })
                },
                _ => Err(ContractError::TransceiversAreNotLocal),
            }
        }
    } else {
        if info.description.route.is_short() {
            if p.hub == p.home_outpost {
                return Err(ContractError::TransceiversAreNotInterchain);
            }
            match get_channel_and_transceiver(
                info.transceiver.as_str(),
                state.config.hub_address.as_str(),
                home_collection.as_str(),
                state.outposts.as_slice(),
                state.channels.as_slice(),
            ) {
                Ok((ch, t)) => Ok(
                    make_transfer_message(
                        is_hub,
                        ch.as_str(),
                        denom.as_str(),
                        amount_in,
                        info.transceiver.as_str(),
                        t.as_str(),
                        now,
                        value.as_str(),
                        now,
                        state.config.min_ntrn_ibc_fee,
                    ),
                ),
                Err(e) => Err(e),
            }
        } else {
            match (&p.retranslation_outpost, &state.retranslation_outpost) {
                (Some(rp), Some(r)) => {
                    if p.hub == *rp || *rp == p.home_outpost || p.home_outpost == p.hub {
                        return Err(ContractError::TransceiversAreNotInterchain);
                    }
                    match find_channel(state.channels.as_slice(), rp) {
                        Some(ch) => {
                            let channel = if is_hub {
                                ch.from_hub
                            } else {
                                ch.to_hub
                            };
                            Ok(
                                make_transfer_message(
                                    is_hub,
                                    channel.as_str(),
                                    denom.as_str(),
                                    amount_in,
                                    info.transceiver.as_str(),
                                    r.as_str(),
                                    now,
                                    value.as_str(),
                                    now,
                                    state.config.min_ntrn_ibc_fee,
                                ),
                            )
                        },
                        None => Err(ContractError::ChannelIsNotFound),
                    }
                },
                _ => Err(ContractError::TransceiversAreNotInterchain),
            }
        }
    }
}

/// The collection whose tokens a send takes: the home collection on an outpost, the mirrored
/// one on the hub.
pub open spec fn holder_collection(is_hub: bool, c: Collection) -> Seq<char> {
    if is_hub {
        c.hub_collection@
    } else {
        c.home_collection@
    }
}

/// The collection in which the ownership of the tokens of a send must be checked.
pub fn send_holder_collection(state: &State, hub_collection: &String) -> (r: Result<
    String,
    ContractError,
>)
    ensures
        match collection_by_hub(state.collections@, hub_collection@) {
            Some(c) => r matches Ok(s) && s@ == holder_collection(
                state.config.transceiver_type == TransceiverType::Hub,
                c,
            ),
            None => r == Err::<String, ContractError>(ContractError::CollectionIsNotFound),
        },
{
    match find_collection_by_hub(state.collections.as_slice(), hub_collection) {
        Some(c) => if state.config.transceiver_type.is_hub() {
            Ok(c.hub_collection)
        } else {
            Ok(c.home_collection)
        },
        None => Err(ContractError::CollectionIsNotFound),
    }
}

/// What a send asks for once its request is checked: the caller must own every token, then the
/// packet is built, encrypted and dispatched after the custody commands.
pub open spec fn send_delivery(
    st: State,
    sender: Seq<char>,
    contract: Seq<char>,
    now: u64,
    key: Seq<u8>,
    c: Collection,
    info: TransmissionInfoView,
    coin: Coin,
    amount_in: u128,
    tokens: Seq<Seq<char>>,
    target: Option<Seq<char>>,
    owned: Seq<Seq<char>>,
) -> Result<Seq<ActionView>, ContractError> {
    let is_hub = st.config.transceiver_type == TransceiverType::Hub;
    if !all_owned(tokens, owned) {
        Err(ContractError::NftIsNotFound)
    } else {
        match send_recipient(is_hub, c, sender, target) {
            Err(e) => Err(e),
            Ok(recipient) => if !valid_send_time(now) {
                Err(ContractError::InvalidTimestamp)
            } else {
                let p = PacketView {
                    sender: contract,
                    recipient,
                    hub_collection: c.hub_collection@,
                    home_collection: c.home_collection@,
                    token_list: tokens,
                };
                if encode_utf8(packet_text(p)).len() > P_MAX {
                    Err(ContractError::EncryptionFailed)
                } else {
                    match send_dispatch(
                        st.config,
                        opt_view(st.retranslation_outpost),
                        strings_view(st.outposts@),
                        st.channels@,
                        info,
                        c.home_collection@,
                        encrypted_packet(key, now as nat, p),
                        now,
                        coin.denom@,
                        amount_in as nat,
                    ) {
                        Err(e) => Err(e),
                        Ok(a) => Ok(
                            custody_actions(
                                is_hub,
                                st.config.nft_minter@,
                                holder_collection(is_hub, c),
                                contract,
                                tokens,
                            ).push(a),
                        ),
                    }
                }
            },
        }
    }
}

/// What a send asks for, given that the caller owns `owned` of the holder collection: the
/// commands to carry out, or the first check that fails. The checks come in this order: the
/// pause gate, the token list, the collection, the route (a second-stage route is refused),
/// the attached coin, then ownership.
pub open spec fn send_outcome(
    st: State,
    sender: Seq<char>,
    funds: Seq<Coin>,
    contract: Seq<char>,
    now: u64,
    key: Seq<u8>,
    hub_collection: Seq<char>,
    tokens: Seq<Seq<char>>,
    target: Option<Seq<char>>,
    owned: Seq<Seq<char>>,
) -> Result<Seq<ActionView>, ContractError> {
    if st.is_paused {
        Err(ContractError::ContractIsPaused)
    } else if token_list_error(st.config.token_limit, tokens) is Some {
        Err(token_list_error(st.config.token_limit, tokens)->0)
    } else {
        match collection_by_hub(st.collections@, hub_collection) {
            None => Err(ContractError::CollectionIsNotFound),
            Some(c) => match transmission_info(
                st.config.transceiver_type == TransceiverType::Hub,
                st.config.hub_address@,
                opt_view(st.retranslation_outpost),
                target,
                c.home_collection@,
                strings_view(st.outposts@),
                contract,
                contract,
            ) {
                Err(e) => Err(e),
                Ok(info) => if info.description.stage == TransmissionStage::Second {
                    Err(ContractError::WrongMessageType)
                } else if funds.len() != 1 {
                    Err(ContractError::WrongFundsCombination)
                } else {
                    match checked_amount(st.config, funds[0], info.description) {
                        Err(e) => Err(e),
                        Ok(amount_in) => send_delivery(
                            st,
                            sender,
                            contract,
                            now,
                            key,
                            c,
                            info,
                            funds[0],
                            amount_in,
                            tokens,
                            target,
                            owned,
                        ),
                    }
                },
            },
        }
    }
}

/// Sends `token_list` of the pairing of `hub_collection` towards the other side: checks the
/// request, takes the tokens into custody (burning them on the hub) and delivers the
/// encrypted packet. `owned_tokens` are the caller's tokens in the holder collection, `now`
/// the block time in nanoseconds.
pub fn try_send(
    state: &State,
    sender: &str,
    funds: &[Coin],
    contract_address: &str,
    now: u64,
    enc_key: &crate::codec::Hash,
    hub_collection: &String,
    token_list: &[String],
    target: &Option<String>,
    owned_tokens: &[String],
) -> (r: Result<Vec<Action>, ContractError>)
    ensures
        match send_outcome(
            *state,
            sender@,
            funds@,
            contract_address@,
            now,
            enc_key@,
            hub_collection@,
            strings_view(token_list@),
            opt_view(*target),
            strings_view(owned_tokens@),
        ) {
            Ok(acts) => r matches Ok(v) && actions_view(v@) == acts,
            Err(e) => r == Err::<Vec<Action>, ContractError>(e),
        },
{
    let is_hub = state.config.transceiver_type.is_hub();
    match check_pause_state(state) {
        Ok(()) => {},
        Err(e) => {
            return Err(e);
        },
    }
    match check_token_list(&state.config, token_list) {
        Ok(()) => {},
        Err(e) => {
            return Err(e);
        },
    }
    let c = match find_collection_by_hub(state.collections.as_slice(), hub_collection) {
        Some(c) => c,
        None => {
            return Err(ContractError::CollectionIsNotFound);
        },
    };
    let info = match get_transmission_info(
        &state.config,
        &state.retranslation_outpost,
        target,
        c.home_collection.as_str(),
        state.outposts.as_slice(),
        contract_address,
        contract_address,
    ) {
        Ok(i) => i,
        Err(e) => {
            return Err(e);
        },
    };
    if info.description.stage.is_second() {
        return Err(ContractError::WrongMessageType);
    }
    let coin = match check_single_coin(funds) {
        Ok(c) => c,
        Err(e) => {
            return Err(e);
        },
    };
    let amount_in = match get_checked_amount_in(&state.config, &coin, &info.description) {
        Ok(a) => a,
        Err(e) => {
            return Err(e);
        },
    };
    let collection_address = if is_hub {
        c.hub_collection.clone()
    } else {
        c.home_collection.clone()
    };
    match check_tokens_holder(owned_tokens, token_list) {
        Ok(()) => {},
        Err(e) => {
            return Err(e);
        },
    }
    let recipient = match get_send_recipient(is_hub, &c, sender, target) {
        Ok(a) => a,
        Err(e) => {
            return Err(e);
        },
    };
    if now < 100_000_000_000 || now > u64::MAX - IBC_TIMEOUT_NS {
        return Err(ContractError::InvalidTimestamp);
    }
    let packet = Packet {
        sender: info.transceiver.clone(),
        recipient,
        hub_collection: c.hub_collection.clone(),
        home_collection: c.home_collection.clone(),
        token_list: clone_strings(token_list),
    };
    let encrypted = match serialize_encrypt(enc_key, now, &packet) {
        Ok(e) => e,
        Err(e) => {
            return Err(e);
        },
    };
    let dispatch = match dispatch_send(
        state,
        &info,
        &c.home_collection,
        &encrypted.value,
        now,
        &coin.denom,
        amount_in,
    ) {
        Ok(a) => a,
        Err(e) => {
            return Err(e);
        },
    };
    let mut actions: Vec<Action> = Vec::new();
    push_transfers(&mut actions, &collection_address, &info.transceiver, token_list);
    if is_hub {
        actions.push(
            Action::ApproveAll {
                collection: collection_address.clone(),
                operator: state.config.nft_minter.clone(),
            },
        );
        actions.push(
            Action::Burn {
                minter: state.config.nft_minter.clone(),
                collection: collection_address.clone(),
                token_list: clone_strings(token_list),
            },
        );
    }
    actions.push(dispatch);
    proof {
        let cv = custody_actions(
            is_hub,
            state.config.nft_minter@,
            collection_address@,
            contract_address@,
            strings_view(token_list@),
        );
        assert(actions_view(actions@) =~= cv.push(dispatch@));
    }
    Ok(actions)
}

/// The outposts after `sender` was seen: appended the first time only.
pub open spec fn outposts_with(outposts: Seq<Seq<char>>, sender: Seq<char>) -> Seq<Seq<char>> {
    if outposts.contains(sender) {
        outposts
    } else {
        outposts.push(sender)
    }
}

/// Two states that differ at most in their list of outposts.
pub open spec fn same_but_outposts(a: State, b: State) -> bool {
    &&& a.config == b.config
    &&& a.is_paused == b.is_paused
    &&& a.transfer_admin_state == b.transfer_admin_state
    &&& a.retranslation_outpost == b.retranslation_outpost
    &&& a.collections == b.collections
    &&& a.channels == b.channels
}

fn relay_channel(state: &State, info: &TransmissionInfo) -> (r: Result<String, ContractError>)
    requires
        has_separator(info.target@),
    ensures
        match channel_by_prefix(state.channels@, addr_prefix(info.target@)) {
            None => r == Err::<String, ContractError>(ContractError::ChannelIsNotFound),
            Some(ch) => r matches Ok(s) && s@ == if info.target@ == info.hub@ {
                ch.to_hub@
            } else {
                ch.from_hub@
            },
        },
{
    let prefix = prefix_of(info.target.as_str());
    match find_channel(state.channels.as_slice(), &prefix) {
        Some(ch) => if info.target == info.hub {
            Ok(ch.to_hub)
        } else {
            Ok(ch.from_hub)
        },
        None => Err(ContractError::ChannelIsNotFound),
    }
}

/// The relay of a second-stage packet by the retranslation outpost.
pub open spec fn relay_outcome(
    st: State,
    info: TransmissionInfoView,
    contract: Seq<char>,
    funds: Seq<Coin>,
    now: u64,
    msg: Seq<char>,
    timestamp: u64,
) -> Result<Seq<ActionView>, ContractError> {
    if info.description.mode == TransmissionMode::Local {
        Ok(seq![ActionView::Accept { contract: info.target, msg, timestamp }])
    } else if funds.len() != 1 {
        Err(ContractError::WrongFundsCombination)
    } else if now > u64::MAX - IBC_TIMEOUT_NS {
        Err(ContractError::InvalidTimestamp)
    } else {
        match channel_by_prefix(st.channels@, addr_prefix(info.target)) {
            None => Err(ContractError::ChannelIsNotFound),
            Some(ch) => Ok(
                seq![
                    transfer_message(
                        st.config.transceiver_type == TransceiverType::Hub,
                        if info.target == info.hub {
                            ch.to_hub@
                        } else {
                            ch.from_hub@
                        },
                        funds[0].denom@,
                        funds[0].amount as nat,
                        contract,
                        info.target,
                        (now + IBC_TIMEOUT_NS) as nat,
                        transfer_memo(info.target, msg, timestamp as nat),
                        st.config.min_ntrn_ibc_fee as nat,
                    ),
                ],
            ),
        }
    }
}

#[verifier::rlimit(60)]
fn relay_packet(
    state: &State,
    info: &TransmissionInfo,
    contract_address: &str,
    funds: &[Coin],
    now: u64,
    msg: &str,
    timestamp: u64,
) -> (r: Result<Vec<Action>, ContractError>)
    requires
        has_separator(info.target@),
    ensures
        match relay_outcome(*state, info@, contract_address@, funds@, now, msg@, timestamp) {
            Ok(acts) => r matches Ok(v) && actions_view(v@) == acts,
            Err(e) => r == Err::<Vec<Action>, ContractError>(e),
        },
{
    let mut actions: Vec<Action> = Vec::new();
    if info.description.mode.is_local() {
        let a = Action::Accept { contract: info.target.clone(), msg: msg.to_owned(), timestamp };
        actions.push(a);
        proof {
            assert(actions_view(actions@) =~= seq![a@]);
        }
        return Ok(actions);
    }
    let coin = match check_single_coin(funds) {
        Ok(c) => c,
        Err(e) => {
            return Err(e);
        },
    };
    if now > u64::MAX - IBC_TIMEOUT_NS {
        return Err(ContractError::InvalidTimestamp);
    }
    let channel = match relay_channel(state, info) {
        Ok(c) => c,
        Err(e) => {
            return Err(e);
        },
    };
    let a = make_transfer_message(
        state.config.transceiver_type.is_hub(),
        channel.as_str(),
        coin.denom.as_str(),
        coin.amount,
        contract_address,
        info.target.as_str(),
        now,
        msg,
        timestamp,
        state.config.min_ntrn_ibc_fee,
    );
    actions.push(a);
    proof {
        assert(actions_view(actions@) =~= seq![a@]);
    }
    Ok(actions)
}

/// Finishes a first-stage packet: the hub records the sender as an outpost and mints,
/// an outpost releases the tokens from custody.
pub open spec fn finish_outcome(st: State, p: PacketView) -> Seq<ActionView> {
    if st.config.transceiver_type == TransceiverType::Hub {
        seq![
            ActionView::Mint {
                minter: st.config.nft_minter@,
                collection: p.hub_collection,
                token_list: p.token_list,
                recipient: p.recipient,
            },
        ]
    } else {
        transfer_actions(p.home_collection, p.recipient, p.token_list)
    }
}

fn finish_packet(state: &mut State, packet: &Packet) -> (r: Vec<Action>)
    ensures
        actions_view(r@) == finish_outcome(*old(state), packet@),
        same_but_outposts(*final(state), *old(state)),
        strings_view(final(state).outposts@) == if old(state).config.transceiver_type
            == TransceiverType::Hub {
            outposts_with(strings_view(old(state).outposts@), packet@.sender)
        } else {
            strings_view(old(state).outposts@)
        },
{
    let mut actions: Vec<Action> = Vec::new();
    if state.config.transceiver_type.is_hub() {
        let seen = contains_string(state.outposts.as_slice(), &packet.sender);
        if !seen {
            let ghost before = state.outposts@;
            state.outposts.push(packet.sender.clone());
            proof {
                assert(strings_view(state.outposts@) =~= strings_view(before).push(
                    packet@.sender,
                ));
            }
        }
        let token_list = clone_strings(packet.token_list.as_slice());
        let a = Action::Mint {
            minter: state.config.nft_minter.clone(),
            collection: packet.hub_collection.clone(),
            token_list,
            recipient: packet.recipient.clone(),
        };
        actions.push(a);
        proof {
            assert(actions_view(actions@) =~= seq![a@]);
        }
    } else {
        push_transfers(
            &mut actions,
            &packet.home_collection,
            &packet.recipient,
            packet.token_list.as_slice(),
        );
        proof {
            assert(actions_view(actions@) =~= transfer_actions(
                packet@.home_collection,
                packet@.recipient,
                packet@.token_list,
            ));
        }
    }
    actions
}

/// What an accepted packet asks for, once decrypted.
pub open spec fn accept_outcome(
    st: State,
    contract: Seq<char>,
    funds: Seq<Coin>,
    now: u64,
    p: PacketView,
    msg: Seq<char>,
    timestamp: u64,
) -> Result<Seq<ActionView>, ContractError> {
    match transmission_info(
        st.config.transceiver_type == TransceiverType::Hub,
        st.config.hub_address@,
        opt_view(st.retranslation_outpost),
        None,
        p.home_collection,
        strings_view(st.outposts@),
        contract,
        p.sender,
    ) {
        Err(e) => Err(e),
        Ok(info) => if info.description.stage == TransmissionStage::Second {
            relay_outcome(st, info, contract, funds, now, msg, timestamp)
        } else {
            Ok(finish_outcome(st, p))
        },
    }
}

/// Whether an accepted packet is final here, on the hub: its sender is then a known outpost.
pub open spec fn registers_sender(st: State, contract: Seq<char>, p: PacketView) -> bool {
    &&& st.config.transceiver_type == TransceiverType::Hub
    &&& transmission_info(
        true,
        st.config.hub_address@,
        opt_view(st.retranslation_outpost),
        None,
        p.home_collection,
        strings_view(st.outposts@),
        contract,
        p.sender,
    ) matches Ok(info) && info.description.stage == TransmissionStage::First
}

fn accept_packet(
    state: &mut State,
    contract_address: &str,
    funds: &[Coin],
    now: u64,
    packet: &Packet,
    msg: &str,
    timestamp: u64,
) -> (r: Result<Vec<Action>, ContractError>)
    ensures
        match accept_outcome(*old(state), contract_address@, funds@, now, packet@, msg@, timestamp) {
            Ok(acts) => r matches Ok(v) && actions_view(v@) == acts,
            Err(e) => r == Err::<Vec<Action>, ContractError>(e),
        },
        r is Err ==> *final(state) == *old(state),
        r is Ok ==> same_but_outposts(*final(state), *old(state)),
        r is Ok ==> strings_view(final(state).outposts@) == if registers_sender(
            *old(state),
            contract_address@,
            packet@,
        ) {
            outposts_with(strings_view(old(state).outposts@), packet@.sender)
        } else {
            strings_view(old(state).outposts@)
        },
{
    let info = match get_transmission_info(
        &state.config,
        &state.retranslation_outpost,
        &None,
        packet.home_collection.as_str(),
        state.outposts.as_slice(),
        contract_address,
        packet.sender.as_str(),
    ) {
        Ok(i) => i,
        Err(e) => {
            return Err(e);
        },
    };
    if info.description.stage.is_second() {
        return relay_packet(state, &info, contract_address, funds, now, msg, timestamp);
    }
    Ok(finish_packet(state, packet))
}

/// Accepts an encrypted packet from a peer transceiver or from the transport hook, unless the
/// transceiver is paused. `now` is the block time in nanoseconds, `timestamp` the one the
/// packet was encrypted at.
pub fn try_accept(
    state: &mut State,
    contract_address: &str,
    funds: &[Coin],
    now: u64,
    enc_key: &crate::codec::Hash,
    msg: &str,
    timestamp: u64,
) -> (r: Result<Vec<Action>, ContractError>)
    ensures
        old(state).is_paused ==> r == Err::<Vec<Action>, ContractError>(
            ContractError::ContractIsPaused,
        ),
        !old(state).is_paused && decrypted_packet(enc_key@, timestamp as nat, msg@) is None ==> r
            == Err::<Vec<Action>, ContractError>(packet_error(enc_key@, timestamp as nat, msg@)),
        r is Err ==> *final(state) == *old(state),
        r is Ok ==> same_but_outposts(*final(state), *old(state)),
        match decrypted_packet(enc_key@, timestamp as nat, msg@) {
            Some(p) => !old(state).is_paused ==> match accept_outcome(
                *old(state),
                contract_address@,
                funds@,
                now,
                p,
                msg@,
                timestamp,
            ) {
                Ok(acts) => r matches Ok(v) && actions_view(v@) == acts,
                Err(e) => r == Err::<Vec<Action>, ContractError>(e),
            },
            None => true,
        },
        match decrypted_packet(enc_key@, timestamp as nat, msg@) {
            Some(p) => r is Ok ==> strings_view(final(state).outposts@) == if registers_sender(
                *old(state),
                contract_address@,
                p,
            ) {
                outposts_with(strings_view(old(state).outposts@), p.sender)
            } else {
                strings_view(old(state).outposts@)
            },
            None => true,
        },
{
    match check_pause_state(state) {
        Ok(()) => {},
        Err(e) => {
            return Err(e);
        },
    }
    let packet = match decrypt_deserialize(enc_key, timestamp, msg) {
        Ok(p) => p,
        Err(e) => {
            return Err(e);
        },
    };
    accept_packet(state, contract_address, funds, now, &packet, msg, timestamp)
}

} // verus!
