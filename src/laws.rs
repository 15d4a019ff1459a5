use vstd::prelude::*;

use vstd::utf8::encode_utf8;

use crate::admin::admin_check;
use crate::codec::{encrypted_packet, packet_text, PacketView, P_MAX};
use crate::error::ContractError;
use crate::registry::collection_by_hub;
use crate::topology::{opt_view, strings_view, transmission_info, PrefixView, TransmissionInfoView};
use crate::transfer::{
    all_owned, has_duplicates, send_dispatch, send_outcome, token_list_error, transfer_actions,
    valid_send_time, ActionView, Coin, State,
};
use crate::types::{
    Channel, Collection, Config, TransceiverType, TransmissionMode, TransmissionRoute,
    TransmissionStage,
};

verus! {

/// A send of an empty token list, or of one that names a token twice, issues no command: unless
/// the transceiver is paused, it fails with `NftDuplication` or `EmptyTokenList`, whatever the
/// collection, target, funds and ownership are.
pub proof fn lemma_invalid_token_list_refused(
    st: State,
    sender: Seq<char>,
    funds: Seq<Coin>,
    contract: Seq<char>,
    now: u64,
    key: Seq<u8>,
    hub_collection: Seq<char>,
    tokens: Seq<Seq<char>>,
    target: Option<Seq<char>>,
    owned: Seq<Seq<char>>,
)
    requires
        has_duplicates(tokens) || tokens.len() == 0,
    ensures
        !st.is_paused ==> send_outcome(
            st,
            sender,
            funds,
            contract,
            now,
            key,
            hub_collection,
            tokens,
            target,
            owned,
        ) == Err::<Seq<ActionView>, ContractError>(
            if has_duplicates(tokens) {
                ContractError::NftDuplication
            } else {
                ContractError::EmptyTokenList
            },
        ),
        st.is_paused ==> send_outcome(
            st,
            sender,
            funds,
            contract,
            now,
            key,
            hub_collection,
            tokens,
            target,
            owned,
        ) == Err::<Seq<ActionView>, ContractError>(ContractError::ContractIsPaused),
{
}

/// An interchain transfer on the long route goes out only where the prefixes of hub, home
/// outpost and retranslation outpost are pairwise distinct; otherwise it is refused with
/// `TransceiversAreNotInterchain`, never sent on the short route instead.
pub proof fn lemma_long_route_guard(
    config: Config,
    retranslation: Option<Seq<char>>,
    outposts: Seq<Seq<char>>,
    channels: Seq<Channel>,
    info: TransmissionInfoView,
    home_collection: Seq<char>,
    value: Seq<char>,
    now: u64,
    denom: Seq<char>,
    amount_in: nat,
)
    requires
        info.description.mode == TransmissionMode::Interchain,
        info.description.route == TransmissionRoute::Long,
        !(info.prefix.retranslation_outpost matches Some(rp) && info.prefix.hub != rp && rp
            != info.prefix.home_outpost && info.prefix.home_outpost != info.prefix.hub),
    ensures
        send_dispatch(
            config,
            retranslation,
            outposts,
            channels,
            info,
            home_collection,
            value,
            now,
            denom,
            amount_in,
        ) == Err::<ActionView, ContractError>(
            ContractError::TransceiversAreNotInterchain,
        ),
{
}

/// While paused, a send is refused with `ContractIsPaused`, and the checks of the admin calls
/// are the same as when not paused.
pub proof fn lemma_pause_gate(
    st: State,
    sender: Seq<char>,
    funds: Seq<Coin>,
    contract: Seq<char>,
    now: u64,
    key: Seq<u8>,
    hub_collection: Seq<char>,
    tokens: Seq<Seq<char>>,
    target: Option<Seq<char>>,
    owned: Seq<Seq<char>>,
)
    requires
        st.is_paused,
    ensures
        send_outcome(
            st,
            sender,
            funds,
            contract,
            now,
            key,
            hub_collection,
            tokens,
            target,
            owned,
        ) == Err::<Seq<ActionView>, ContractError>(
            ContractError::ContractIsPaused,
        ),
        admin_check(st, sender, funds) == admin_check(
            State { is_paused: false, ..st },
            sender,
            funds,
        ),
{
}

/// Whether the prefixes of hub, home outpost and retranslation outpost of a route are pairwise
/// distinct.
pub open spec fn prefixes_distinct(p: PrefixView) -> bool {
    p.retranslation_outpost matches Some(rp) && p.hub != rp && rp != p.home_outpost
        && p.home_outpost != p.hub
}

/// A send that resolves to an interchain long route whose prefixes are not pairwise distinct
/// issues no command at all, neither custody nor transfer.
pub proof fn lemma_long_route_send_refused(
    st: State,
    sender: Seq<char>,
    funds: Seq<Coin>,
    contract: Seq<char>,
    now: u64,
    key: Seq<u8>,
    hub_collection: Seq<char>,
    tokens: Seq<Seq<char>>,
    target: Option<Seq<char>>,
    owned: Seq<Seq<char>>,
    c: Collection,
    info: TransmissionInfoView,
)
    requires
        collection_by_hub(st.collections@, hub_collection) == Some(c),
        transmission_info(
            st.config.transceiver_type == TransceiverType::Hub,
            st.config.hub_address@,
            opt_view(st.retranslation_outpost),
            target,
            c.home_collection@,
            strings_view(st.outposts@),
            contract,
            contract,
        ) == Ok::<TransmissionInfoView, ContractError>(info),
        info.description.mode == TransmissionMode::Interchain,
        info.description.route == TransmissionRoute::Long,
        !prefixes_distinct(info.prefix),
    ensures
        send_outcome(
            st,
            sender,
            funds,
            contract,
            now,
            key,
            hub_collection,
            tokens,
            target,
            owned,
        ) is Err,
{
}

/// A local short send from an outpost to the hub: once every check passes, the tokens move
/// into the outpost's custody one by one and the encrypted packet goes to the hub's `accept`.
pub proof fn lemma_outpost_local_send(
    st: State,
    sender: Seq<char>,
    funds: Seq<Coin>,
    contract: Seq<char>,
    now: u64,
    key: Seq<u8>,
    hub_collection: Seq<char>,
    tokens: Seq<Seq<char>>,
    owned: Seq<Seq<char>>,
    c: Collection,
    info: TransmissionInfoView,
)
    requires
        st.config.transceiver_type == TransceiverType::Outpost,
        !st.is_paused,
        token_list_error(st.config.token_limit, tokens) is None,
        collection_by_hub(st.collections@, hub_collection) == Some(c),
        transmission_info(
            false,
            st.config.hub_address@,
            opt_view(st.retranslation_outpost),
            Some(st.config.hub_address@),
            c.home_collection@,
            strings_view(st.outposts@),
            contract,
            contract,
        ) == Ok::<TransmissionInfoView, ContractError>(info),
        info.description.mode == TransmissionMode::Local,
        info.description.stage == TransmissionStage::First,
        info.prefix.hub == info.prefix.home_outpost,
        funds.len() == 1,
        funds[0].amount == 1,
        all_owned(tokens, owned),
        valid_send_time(now),
        encode_utf8(
            packet_text(
                PacketView {
                    sender: contract,
                    recipient: sender,
                    hub_collection: c.hub_collection@,
                    home_collection: c.home_collection@,
                    token_list: tokens,
                },
            ),
        ).len() <= P_MAX,
    ensures
        send_outcome(
            st,
            sender,
            funds,
            contract,
            now,
            key,
            hub_collection,
            tokens,
            Some(st.config.hub_address@),
            owned,
        ) == Ok::<Seq<ActionView>, ContractError>(
            transfer_actions(c.home_collection@, contract, tokens).push(
                ActionView::Accept {
                    contract: st.config.hub_address@,
                    msg: encrypted_packet(
                        key,
                        now as nat,
                        PacketView {
                            sender: contract,
                            recipient: sender,
                            hub_collection: c.hub_collection@,
                            home_collection: c.home_collection@,
                            token_list: tokens,
                        },
                    ),
                    timestamp: now,
                },
            ),
        ),
{
    assert(info.target == st.config.hub_address@);
    assert(info.description.route == TransmissionRoute::Short);
    assert(transfer_actions(c.home_collection@, contract, tokens) + seq![]
        =~= transfer_actions(c.home_collection@, contract, tokens));
}

} // verus!
