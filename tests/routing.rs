use bech32::{ToBase32, Variant};

use snb_transceiver::admin::{
    query_collection, try_accept_admin_role, try_add_collection, try_instantiate,
    try_remove_collection, try_set_channel, try_set_retranslation_outpost, try_update_config,
    InstantiateMsg,
};
use snb_transceiver::codec::ENC_KEY;
use snb_transceiver::error::ContractError;
use snb_transceiver::ibc::{get_ibc_transfer_memo, get_ibc_transfer_msg, get_neutron_ibc_transfer_msg};
use snb_transceiver::topology::get_transmission_info;
use snb_transceiver::transfer::{
    check_token_list, get_channel_and_transceiver, get_checked_amount_in, next_tokens_query,
    try_send, Action, Coin, State,
};
use snb_transceiver::types::{
    Channel, Collection, Config, TransceiverType, TransmissionDescription, TransmissionDirection,
    TransmissionMode, TransmissionRoute, TransmissionStage,
};

const NOW: u64 = 1_700_000_000_000_000_000;

fn s(x: &str) -> String {
    x.to_string()
}

fn addr(prefix: &str, name: &str) -> String {
    bech32::encode(prefix, name.as_bytes().to_base32(), Variant::Bech32).unwrap()
}

fn config(kind: TransceiverType, hub: &str) -> Config {
    Config {
        admin: s("neutron1admin"),
        nft_minter: s("neutron1minter"),
        hub_address: s(hub),
        transceiver_type: kind,
        token_limit: 10,
        min_ntrn_ibc_fee: 100,
    }
}

fn state(kind: TransceiverType, hub: &str, retranslation: Option<&str>, outposts: &[&str], home: &str) -> State {
    State {
        config: config(kind, hub),
        is_paused: false,
        transfer_admin_state: None,
        retranslation_outpost: retranslation.map(s),
        outposts: outposts.iter().map(|x| s(x)).collect(),
        collections: vec![Collection { home_collection: s(home), hub_collection: s("neutron1hubcol") }],
        channels: vec![Channel::new("stars", "channel-18", "channel-191")],
    }
}

fn key() -> snb_transceiver::codec::Hash {
    snb_transceiver::codec::Hash::parse(ENC_KEY).unwrap()
}

#[test]
fn resolver_takes_sender_as_home_outpost_when_unknown() {
    let c = config(TransceiverType::Hub, "neutron1hub");
    let outposts = vec![s("osmo1other")];
    let info = get_transmission_info(&c, &None, &None, "stars1col", &outposts, "neutron1hub", "stars1sender").unwrap();
    assert_eq!(info.home_outpost, "stars1sender");
    assert_eq!(info.target, "stars1sender");
    assert_eq!(
        info.description,
        TransmissionDescription {
            mode: TransmissionMode::Interchain,
            direction: TransmissionDirection::FromHub,
            stage: TransmissionStage::First,
            route: TransmissionRoute::Short,
        }
    );
    assert_eq!(info.prefix.hub, "neutron");
    assert_eq!(info.prefix.home_outpost, "stars");
    let outposts = vec![s("osmo1other"), s("stars1known"), s("stars1later")];
    let info = get_transmission_info(&c, &None, &None, "stars1col", &outposts, "neutron1hub", "stars1sender").unwrap();
    assert_eq!(info.home_outpost, "stars1known");
}

#[test]
fn resolver_refuses_foreign_target() {
    let c = config(TransceiverType::Outpost, "neutron1hub");
    let r = get_transmission_info(&c, &None, &Some(s("neutron1stranger")), "stars1col", &[], "stars1out", "stars1out");
    assert_eq!(r, Err(ContractError::WrongTargetAddress));
    let r = get_transmission_info(&c, &Some(s("osmo1retr")), &Some(s("osmo1retr")), "stars1col", &[], "stars1out", "stars1out");
    assert_eq!(r.unwrap().description.route, TransmissionRoute::Long);
    let r = get_transmission_info(&c, &None, &None, "nocollection", &[], "stars1out", "stars1out");
    assert_eq!(r, Err(ContractError::InvalidAddress));
}

#[test]
fn resolver_marks_second_stage_at_retranslation_outpost() {
    let c = config(TransceiverType::Outpost, "neutron1hub");
    let info = get_transmission_info(&c, &Some(s("osmo1retr")), &None, "stars1col", &[], "osmo1retr", "stars1out").unwrap();
    assert_eq!(info.description.stage, TransmissionStage::Second);
    assert_eq!(info.description.direction, TransmissionDirection::ToHub);
    assert_eq!(info.target, "neutron1hub");
}

#[test]
fn token_list_checks() {
    let c = config(TransceiverType::Hub, "neutron1hub");
    assert_eq!(check_token_list(&c, &[s("1"), s("2"), s("1")]), Err(ContractError::NftDuplication));
    assert_eq!(check_token_list(&c, &[]), Err(ContractError::EmptyTokenList));
    let many: Vec<String> = (0..11).map(|i| i.to_string()).collect();
    assert_eq!(check_token_list(&c, &many), Err(ContractError::ExceededTokenLimit));
    assert_eq!(check_token_list(&c, &many[..10]), Ok(()));
}

#[test]
fn amount_checks() {
    let mut c = config(TransceiverType::Hub, "neutron1hub");
    let local = TransmissionDescription {
        mode: TransmissionMode::Local,
        direction: TransmissionDirection::FromHub,
        stage: TransmissionStage::First,
        route: TransmissionRoute::Short,
    };
    let remote = TransmissionDescription { mode: TransmissionMode::Interchain, ..local };
    let coin = |d: &str, a: u128| Coin { denom: s(d), amount: a };
    assert_eq!(get_checked_amount_in(&c, &coin("ustars", 1), &local), Ok(1));
    assert_eq!(get_checked_amount_in(&c, &coin("ustars", 2), &local), Err(ContractError::WrongFundsCombination));
    assert_eq!(get_checked_amount_in(&c, &coin("ustars", 101), &remote), Err(ContractError::WrongAssetType));
    assert_eq!(get_checked_amount_in(&c, &coin("untrn", 101), &remote), Ok(1));
    assert_eq!(get_checked_amount_in(&c, &coin("untrn", 1), &remote), Err(ContractError::WrongFundsCombination));
    c.min_ntrn_ibc_fee = u128::MAX;
    assert_eq!(get_checked_amount_in(&c, &coin("untrn", u128::MAX), &remote), Err(ContractError::WrongFundsCombination));
    let o = config(TransceiverType::Outpost, "neutron1hub");
    assert_eq!(get_checked_amount_in(&o, &coin("ustars", 1), &remote), Ok(1));
}

#[test]
fn ownership_pages() {
    assert_eq!(next_tokens_query(&[], 0), Some(None));
    let full: Vec<String> = (0..100).map(|i| format!("{:03}", i)).collect();
    assert_eq!(next_tokens_query(&full, 1), Some(Some(s("099"))));
    assert_eq!(next_tokens_query(&full[..99], 1), None);
    assert_eq!(next_tokens_query(&full, 50), None);
}

#[test]
fn channel_and_transceiver_lookup() {
    let channels = vec![Channel::new("stars", "channel-18", "channel-191")];
    let outposts = vec![s("osmo1x"), s("stars1out")];
    assert_eq!(
        get_channel_and_transceiver("neutron1hub", "neutron1hub", "stars1col", &outposts, &channels),
        Ok((s("channel-18"), s("stars1out")))
    );
    assert_eq!(
        get_channel_and_transceiver("stars1out", "neutron1hub", "stars1col", &outposts, &channels),
        Ok((s("channel-191"), s("neutron1hub")))
    );
    assert_eq!(
        get_channel_and_transceiver("neutron1hub", "neutron1hub", "stars1col", &[], &channels),
        Err(ContractError::OutpostIsNotFound)
    );
    assert_eq!(
        get_channel_and_transceiver("neutron1hub", "neutron1hub", "osmo1col", &outposts, &channels),
        Err(ContractError::ChannelIsNotFound)
    );
}

#[test]
fn interchain_short_send_from_outpost() {
    let st = state(TransceiverType::Outpost, "neutron1hub", None, &[], "stars1col");
    let tokens = vec![s("7")];
    let funds = vec![Coin { denom: s("ustars"), amount: 1 }];
    let actions = try_send(&st, "stars1alice", &funds, "stars1out", NOW, &key(), &s("neutron1hubcol"), &tokens, &Some(s("neutron1hub")), &tokens).unwrap();
    assert_eq!(actions.len(), 2);
    assert_eq!(actions[0], Action::TransferNft { collection: s("stars1col"), recipient: s("stars1out"), token_id: s("7") });
    let Action::Stargate { type_url, value } = &actions[1] else { panic!("expected a transfer") };
    assert_eq!(type_url, "/ibc.applications.transfer.v1.MsgTransfer");
    let enc = snb_transceiver::codec::serialize_encrypt(
        &key(),
        NOW,
        &snb_transceiver::types::Packet {
            sender: s("stars1out"),
            recipient: s("stars1alice"),
            hub_collection: s("neutron1hubcol"),
            home_collection: s("stars1col"),
            token_list: tokens.clone(),
        },
    )
    .unwrap();
    let memo = get_ibc_transfer_memo("neutron1hub", &enc.value, NOW);
    let expected = get_ibc_transfer_msg("channel-191", "ustars", 1, "stars1out", "neutron1hub", NOW + 600_000_000_000, &memo);
    assert_eq!(*value, expected.value);
}

#[test]
fn long_route_needs_distinct_prefixes() {
    let tokens = vec![s("7")];
    let funds = vec![Coin { denom: s("untrn"), amount: 101 }];
    let st = state(TransceiverType::Hub, "neutron1hub", Some("cosmos1retr"), &[], "neutron1col");
    let r = try_send(&st, "neutron1alice", &funds, "neutron1hub", NOW, &key(), &s("neutron1hubcol"), &tokens, &Some(s("cosmos1retr")), &tokens);
    assert_eq!(r, Err(ContractError::TransceiversAreNotInterchain));

    let mut st = state(TransceiverType::Hub, "neutron1hub", Some("cosmos1retr"), &["stars1out"], "stars1col");
    let r = try_send(&st, "neutron1alice", &funds, "neutron1hub", NOW, &key(), &s("neutron1hubcol"), &tokens, &Some(s("cosmos1retr")), &tokens);
    assert_eq!(r, Err(ContractError::ChannelIsNotFound));
    st.channels.push(Channel::new("cosmos", "channel-1", "channel-569"));
    let actions = try_send(&st, "neutron1alice", &funds, "neutron1hub", NOW, &key(), &s("neutron1hubcol"), &tokens, &Some(s("cosmos1retr")), &tokens).unwrap();
    assert_eq!(actions.len(), 4);
    assert_eq!(actions[1], Action::ApproveAll { collection: s("neutron1hubcol"), operator: s("neutron1minter") });
    assert_eq!(actions[2], Action::Burn { minter: s("neutron1minter"), collection: s("neutron1hubcol"), token_list: tokens.clone() });
    let Action::Stargate { type_url, .. } = &actions[3] else { panic!("expected a transfer") };
    assert_eq!(type_url, "/neutron.transfer.MsgTransfer");
    let plain = get_neutron_ibc_transfer_msg("channel-1", "untrn", 1, "neutron1hub", "cosmos1retr", 1, "m", 100);
    assert_eq!(plain.type_url, *type_url);

    let st = state(TransceiverType::Hub, "neutron1hub", Some("neutron1retr"), &["stars1out"], "stars1col");
    let funds = vec![Coin { denom: s("ustars"), amount: 1 }];
    let r = try_send(&st, "neutron1alice", &funds, "neutron1hub", NOW, &key(), &s("neutron1hubcol"), &tokens, &Some(s("neutron1retr")), &tokens);
    assert_eq!(r, Err(ContractError::TransceiversAreNotLocal));
}

#[test]
fn send_is_refused_at_the_retranslation_outpost() {
    let st = state(TransceiverType::Outpost, "neutron1hub", Some("osmo1retr"), &[], "stars1col");
    let tokens = vec![s("7")];
    let funds = vec![Coin { denom: s("uosmo"), amount: 1 }];
    let r = try_send(&st, "osmo1alice", &funds, "osmo1retr", NOW, &key(), &s("neutron1hubcol"), &tokens, &None, &tokens);
    assert_eq!(r, Err(ContractError::WrongMessageType));
}

fn admin_state() -> (State, String, String) {
    let admin = addr("neutron", "admin");
    let contract = addr("neutron", "outpost");
    let st = try_instantiate(
        &contract,
        &admin,
        InstantiateMsg {
            nft_minter: None,
            hub_address: Some(addr("neutron", "hub")),
            transceiver_type: TransceiverType::Outpost,
            token_limit: None,
            min_ntrn_ibc_fee: None,
            is_retranslation_outpost: false,
        },
    )
    .unwrap();
    (st, admin, contract)
}

#[test]
fn instantiate_defaults() {
    let (st, admin, _) = admin_state();
    assert_eq!(st.config.admin, admin);
    assert_eq!(st.config.token_limit, 10);
    assert_eq!(st.config.min_ntrn_ibc_fee, 100_000);
    assert_eq!(st.channels, vec![Channel::new("stars", "channel-18", "channel-191")]);
    let r = try_instantiate(
        "neutron1hub",
        &admin,
        InstantiateMsg {
            nft_minter: None,
            hub_address: None,
            transceiver_type: TransceiverType::Hub,
            token_limit: Some(3),
            min_ntrn_ibc_fee: Some(5),
            is_retranslation_outpost: true,
        },
    );
    assert_eq!(r.err(), Some(ContractError::HubIsNotRetranslator));
}

#[test]
fn admin_handover() {
    let (mut st, admin, contract) = admin_state();
    let next = addr("neutron", "next");
    let t0: u64 = 1_000;
    try_update_config(&mut st, &admin, &[], t0, &contract, Some(next.clone()), None, None, None, None).unwrap();
    assert_eq!(st.transfer_admin_state.as_ref().unwrap().deadline, t0 + 604_800);
    let stranger = addr("neutron", "stranger");
    assert_eq!(try_accept_admin_role(&mut st, &stranger, &[], t0 + 1), Err(ContractError::Unauthorized));
    assert_eq!(try_accept_admin_role(&mut st, &next, &[], t0 + 604_800), Err(ContractError::TransferAdminDeadline));
    assert_eq!(st.config.admin, admin);
    try_accept_admin_role(&mut st, &next, &[], t0 + 10).unwrap();
    assert_eq!(st.config.admin, next);
    assert_eq!(st.transfer_admin_state.as_ref().unwrap().deadline, t0 + 10);
    assert_eq!(try_accept_admin_role(&mut st, &next, &[], t0 + 11), Err(ContractError::TransferAdminDeadline));
}

#[test]
fn update_config_checks() {
    let (mut st, admin, contract) = admin_state();
    assert_eq!(try_update_config(&mut st, &admin, &[], 0, &contract, None, None, None, None, None), Err(ContractError::NoParameters));
    let other = addr("neutron", "other");
    assert_eq!(try_update_config(&mut st, &other, &[], 0, &contract, None, None, None, Some(3), None), Err(ContractError::Unauthorized));
    st.outposts.push(addr("neutron", "known"));
    assert_eq!(
        try_update_config(&mut st, &admin, &[], 0, &contract, None, None, Some(addr("neutron", "known")), None, None),
        Err(ContractError::HubIsNotOutpost)
    );
    assert_eq!(
        try_update_config(&mut st, &admin, &[], 0, &contract, None, Some(s("notbech32")), None, Some(3), None),
        Err(ContractError::InvalidAddress)
    );
    assert_eq!(st.config.token_limit, 10);
    try_update_config(&mut st, &admin, &[], 0, &contract, None, Some(addr("stars", "minter")), None, Some(3), Some(9)).unwrap();
    assert_eq!(st.config.token_limit, 3);
    assert_eq!(st.config.min_ntrn_ibc_fee, 9);
    assert_eq!(st.config.nft_minter, addr("stars", "minter"));
    st.config.transceiver_type = TransceiverType::Hub;
    assert_eq!(
        try_update_config(&mut st, &admin, &[], 0, &contract, None, None, Some(addr("neutron", "h")), None, None),
        Err(ContractError::WrongActionType)
    );
}

#[test]
fn retranslation_outpost_checks() {
    let (mut st, admin, contract) = admin_state();
    let hub = addr("neutron", "hub");
    assert_eq!(try_set_retranslation_outpost(&mut st, &admin, &[], &contract, hub.clone()), Err(ContractError::HubIsNotRetranslator));
    st.outposts.push(addr("neutron", "known"));
    assert_eq!(
        try_set_retranslation_outpost(&mut st, &admin, &[], &contract, addr("neutron", "known")),
        Err(ContractError::HomeOutpostIsNotRetranslator)
    );
    let retr = addr("neutron", "retr");
    try_set_retranslation_outpost(&mut st, &admin, &[], &contract, retr.clone()).unwrap();
    assert_eq!(st.retranslation_outpost, Some(retr.clone()));
    assert_eq!(
        try_update_config(&mut st, &admin, &[], 0, &contract, None, None, Some(retr), None, None),
        Err(ContractError::HubIsNotRetranslator)
    );
}

#[test]
fn collection_registry() {
    let (mut st, admin, contract) = admin_state();
    let hub_col = addr("neutron", "hubcol");
    let home_col = addr("stars", "col");
    try_add_collection(&mut st, &admin, &[], &contract, hub_col.clone(), home_col.clone()).unwrap();
    assert_eq!(
        try_add_collection(&mut st, &admin, &[], &contract, hub_col.clone(), addr("stars", "x")),
        Err(ContractError::CollectionDuplication)
    );
    assert_eq!(
        try_add_collection(&mut st, &admin, &[], &contract, s("bad"), addr("stars", "y")),
        Err(ContractError::InvalidAddress)
    );
    let funds = vec![Coin { denom: s("untrn"), amount: 1 }];
    assert_eq!(
        try_add_collection(&mut st, &admin, &funds, &contract, addr("neutron", "a"), addr("stars", "b")),
        Err(ContractError::WrongFundsCombination)
    );
    let expected = Collection { home_collection: home_col.clone(), hub_collection: hub_col.clone() };
    assert_eq!(query_collection(&st, &Some(hub_col.clone()), &None), Ok(expected.clone()));
    assert_eq!(query_collection(&st, &None, &Some(home_col)), Ok(expected));
    assert_eq!(query_collection(&st, &None, &None), Err(ContractError::NoParameters));
    try_remove_collection(&mut st, &admin, &[], &hub_col).unwrap();
    assert!(st.collections.is_empty());
    assert_eq!(query_collection(&st, &Some(hub_col), &None), Err(ContractError::CollectionIsNotFound));
}

#[test]
fn channel_entries_replace_by_prefix() {
    let (mut st, admin, _) = admin_state();
    try_set_channel(&mut st, &admin, &[], "osmo", "channel-1", "channel-2").unwrap();
    try_set_channel(&mut st, &admin, &[], "stars", "channel-3", "channel-4").unwrap();
    assert_eq!(st.channels, vec![Channel::new("osmo", "channel-1", "channel-2"), Channel::new("stars", "channel-3", "channel-4")]);
    assert_eq!(try_set_channel(&mut st, &addr("neutron", "x"), &[], "a", "b", "c"), Err(ContractError::Unauthorized));
}

#[test]
fn retranslation_outpost_relays_to_the_hub() {
    let tokens = vec![s("7")];
    let out = state(TransceiverType::Outpost, "neutron1hub", Some("neutron1retr"), &[], "neutron1col");
    let funds = vec![Coin { denom: s("untrn"), amount: 1 }];
    let actions = try_send(&out, "neutron1alice", &funds, "neutron1out", NOW, &key(), &s("neutron1hubcol"), &tokens, &Some(s("neutron1retr")), &tokens).unwrap();
    let Action::Accept { contract, msg, timestamp } = actions[1].clone() else { panic!("expected a local call") };
    assert_eq!(contract, "neutron1retr");

    let mut retr = state(TransceiverType::Outpost, "neutron1hub", Some("neutron1retr"), &[], "neutron1col");
    let relayed = snb_transceiver::transfer::try_accept(&mut retr, "neutron1retr", &[], NOW, &key(), &msg, timestamp).unwrap();
    assert_eq!(relayed, vec![Action::Accept { contract: s("neutron1hub"), msg: msg.clone(), timestamp }]);

    let mut hub = state(TransceiverType::Hub, "neutron1hub", Some("neutron1retr"), &[], "neutron1col");
    let minted = snb_transceiver::transfer::try_accept(&mut hub, "neutron1hub", &[], NOW, &key(), &msg, timestamp).unwrap();
    assert_eq!(
        minted,
        vec![Action::Mint {
            minter: s("neutron1minter"),
            collection: s("neutron1hubcol"),
            token_list: tokens,
            recipient: s("neutron1alice"),
        }]
    );
    assert_eq!(hub.outposts, vec![s("neutron1out")]);
}

#[test]
fn retranslation_outpost_relays_over_transport() {
    let tokens = vec![s("7")];
    let out = state(TransceiverType::Outpost, "neutron1hub", Some("osmo1retr"), &[], "stars1col");
    let enc = snb_transceiver::codec::serialize_encrypt(
        &key(),
        NOW,
        &snb_transceiver::types::Packet {
            sender: s("stars1out"),
            recipient: s("stars1alice"),
            hub_collection: s("neutron1hubcol"),
            home_collection: s("stars1col"),
            token_list: tokens,
        },
    )
    .unwrap();
    let mut retr = State { channels: vec![Channel::new("neutron", "channel-5", "channel-6")], ..out };
    let r = snb_transceiver::transfer::try_accept(&mut retr, "osmo1retr", &[], NOW, &key(), &enc.value, NOW);
    assert_eq!(r, Err(ContractError::WrongFundsCombination));
    let funds = vec![Coin { denom: s("ibc/stars"), amount: 1 }];
    let relayed = snb_transceiver::transfer::try_accept(&mut retr, "osmo1retr", &funds, NOW + 5, &key(), &enc.value, NOW).unwrap();
    let memo = get_ibc_transfer_memo("neutron1hub", &enc.value, NOW);
    let expected = get_ibc_transfer_msg("channel-6", "ibc/stars", 1, "osmo1retr", "neutron1hub", NOW + 5 + 600_000_000_000, &memo);
    assert_eq!(relayed, vec![Action::Stargate { type_url: expected.type_url, value: expected.value }]);
    assert!(retr.outposts.is_empty());
}

#[test]
fn send_checks_come_in_order() {
    let st = state(TransceiverType::Outpost, "neutron1hub", Some("osmo1retr"), &[], "stars1col");
    let one = vec![Coin { denom: s("ustars"), amount: 1 }];
    let tokens = vec![s("7")];
    let r = try_send(&st, "stars1alice", &one, "stars1out", NOW, &key(), &s("neutron1unknown"), &[], &None, &[]);
    assert_eq!(r, Err(ContractError::EmptyTokenList));
    let r = try_send(&st, "stars1alice", &[], "stars1out", NOW, &key(), &s("neutron1hubcol"), &tokens, &Some(s("neutron1stranger")), &tokens);
    assert_eq!(r, Err(ContractError::WrongTargetAddress));
    let r = try_send(&st, "osmo1alice", &[], "osmo1retr", NOW, &key(), &s("neutron1hubcol"), &tokens, &None, &tokens);
    assert_eq!(r, Err(ContractError::WrongMessageType));
    let r = try_send(&st, "stars1alice", &[], "stars1out", NOW, &key(), &s("neutron1hubcol"), &tokens, &None, &[]);
    assert_eq!(r, Err(ContractError::WrongFundsCombination));
}
