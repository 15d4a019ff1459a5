use std::collections::BTreeMap;

use bech32::{ToBase32, Variant};

use snb_transceiver::admin::{try_add_collection, try_instantiate, InstantiateMsg};
use snb_transceiver::codec::ENC_KEY;
use snb_transceiver::error::ContractError;
use snb_transceiver::transfer::{send_holder_collection, try_accept, try_send, Action, Coin, State};
use snb_transceiver::types::TransceiverType;

const NOW: u64 = 1_700_000_000_000_000_000;

fn addr(name: &str) -> String {
    bech32::encode("neutron", name.as_bytes().to_base32(), Variant::Bech32).unwrap()
}

fn key() -> snb_transceiver::codec::Hash {
    snb_transceiver::codec::Hash::parse(ENC_KEY).unwrap()
}

fn stars(amount: u128) -> Vec<Coin> {
    vec![Coin { denom: "ustars".to_string(), amount }]
}

/// A chain with two transceivers and NFT collections kept as an owner table.
struct Chain {
    hub: State,
    outpost: State,
    owners: BTreeMap<(String, String), String>,
}

impl Chain {
    fn new() -> Chain {
        let admin = addr("admin");
        let hub = try_instantiate(
            &addr("hub"),
            &admin,
            InstantiateMsg {
                nft_minter: Some(addr("minter")),
                hub_address: None,
                transceiver_type: TransceiverType::Hub,
                token_limit: None,
                min_ntrn_ibc_fee: None,
                is_retranslation_outpost: false,
            },
        )
        .unwrap();
        let outpost = try_instantiate(
            &addr("outpost"),
            &admin,
            InstantiateMsg {
                nft_minter: None,
                hub_address: Some(addr("hub")),
                transceiver_type: TransceiverType::Outpost,
                token_limit: None,
                min_ntrn_ibc_fee: None,
                is_retranslation_outpost: false,
            },
        )
        .unwrap();
        let mut owners = BTreeMap::new();
        for (owner, token) in [("alice", "1"), ("alice", "2"), ("alice", "3"), ("bob", "4"), ("bob", "5"), ("bob", "6")] {
            owners.insert((addr("gopniks"), token.to_string()), addr(owner));
        }
        let mut chain = Chain { hub, outpost, owners };
        for contract in ["hub", "outpost"] {
            let state = if contract == "hub" { &mut chain.hub } else { &mut chain.outpost };
            try_add_collection(state, &admin, &[], &addr(contract), addr("hub_gopniks"), addr("gopniks")).unwrap();
        }
        chain
    }

    fn tokens(&self, owner: &str, collection: &str) -> Vec<String> {
        let mut r: Vec<String> = self
            .owners
            .iter()
            .filter(|((c, _), o)| *c == addr(collection) && **o == addr(owner))
            .map(|((_, t), _)| t.clone())
            .collect();
        r.sort();
        r
    }

    fn run(&mut self, actor: &str, actions: Vec<Action>) {
        for a in actions {
            match a {
                Action::TransferNft { collection, recipient, token_id } => {
                    let k = (collection, token_id);
                    assert!(self.owners.contains_key(&k));
                    self.owners.insert(k, recipient);
                }
                Action::ApproveAll { .. } => {}
                Action::Burn { collection, token_list, .. } => {
                    for t in token_list {
                        let owner = self.owners.remove(&(collection.clone(), t)).unwrap();
                        assert_eq!(owner, addr(actor));
                    }
                }
                Action::Mint { collection, token_list, recipient, .. } => {
                    for t in token_list {
                        assert!(self.owners.insert((collection.clone(), t), recipient.clone()).is_none());
                    }
                }
                Action::Accept { contract, msg, timestamp } => {
                    let (name, state) = if contract == addr("hub") {
                        ("hub", &mut self.hub)
                    } else {
                        ("outpost", &mut self.outpost)
                    };
                    let next = try_accept(state, &contract, &[], NOW, &key(), &msg, timestamp).unwrap();
                    self.run(name, next);
                }
                Action::Stargate { .. } => panic!("no transport on one chain"),
            }
        }
    }

    fn send(&mut self, user: &str, from: &str, tokens: &[&str], target: &str) -> Result<(), ContractError> {
        let state = if from == "hub" { &self.hub } else { &self.outpost };
        let holder = send_holder_collection(state, &addr("hub_gopniks"))?;
        let owned: Vec<String> = self
            .owners
            .iter()
            .filter(|((c, _), o)| *c == holder && **o == addr(user))
            .map(|((_, t), _)| t.clone())
            .collect();
        let token_list: Vec<String> = tokens.iter().map(|t| t.to_string()).collect();
        let actions = try_send(
            state,
            &addr(user),
            &stars(1),
            &addr(from),
            NOW,
            &key(),
            &addr("hub_gopniks"),
            &token_list,
            &Some(addr(target)),
            &owned,
        )?;
        self.run(from, actions);
        Ok(())
    }
}

fn to_string_vec(v: &[&str]) -> Vec<String> {
    v.iter().map(|x| x.to_string()).collect()
}

#[test]
fn local_transfer() {
    let mut p = Chain::new();

    assert_eq!(p.tokens("alice", "gopniks"), to_string_vec(&["1", "2", "3"]));
    assert_eq!(p.tokens("alice", "hub_gopniks"), to_string_vec(&[]));

    p.send("alice", "outpost", &["1", "2"], "hub").unwrap();

    assert_eq!(p.tokens("alice", "gopniks"), to_string_vec(&["3"]));
    assert_eq!(p.tokens("alice", "hub_gopniks"), to_string_vec(&["1", "2"]));
    assert_eq!(p.tokens("outpost", "gopniks"), to_string_vec(&["1", "2"]));
    assert_eq!(p.hub.outposts, vec![addr("outpost")]);

    p.send("alice", "hub", &["1", "2"], "outpost").unwrap();

    assert_eq!(p.tokens("alice", "gopniks"), to_string_vec(&["1", "2", "3"]));
    assert_eq!(p.tokens("alice", "hub_gopniks"), to_string_vec(&[]));
}

#[test]
fn short_local_transfer_between_users() {
    let mut p = Chain::new();

    p.send("alice", "outpost", &["1", "2"], "hub").unwrap();

    assert_eq!(p.tokens("alice", "gopniks"), to_string_vec(&["3"]));
    assert_eq!(p.tokens("alice", "hub_gopniks"), to_string_vec(&["1", "2"]));

    for token_id in ["1", "2"] {
        p.owners.insert((addr("hub_gopniks"), token_id.to_string()), addr("bob"));
    }

    assert_eq!(p.tokens("bob", "gopniks"), to_string_vec(&["4", "5", "6"]));
    assert_eq!(p.tokens("bob", "hub_gopniks"), to_string_vec(&["1", "2"]));

    p.send("bob", "hub", &["1", "2"], "outpost").unwrap();

    assert_eq!(p.tokens("bob", "gopniks"), to_string_vec(&["1", "2", "4", "5", "6"]));
    assert_eq!(p.tokens("bob", "hub_gopniks"), to_string_vec(&[]));
}

#[test]
fn send_refuses_bad_token_lists_without_commands() {
    let mut p = Chain::new();
    assert_eq!(p.send("alice", "outpost", &["1", "1"], "hub"), Err(ContractError::NftDuplication));
    assert_eq!(p.send("alice", "outpost", &[], "hub"), Err(ContractError::EmptyTokenList));
    assert_eq!(p.send("alice", "outpost", &["4"], "hub"), Err(ContractError::NftIsNotFound));
    assert_eq!(p.tokens("alice", "gopniks"), to_string_vec(&["1", "2", "3"]));
    assert_eq!(p.tokens("outpost", "gopniks"), to_string_vec(&[]));
}

#[test]
fn send_refuses_too_many_tokens() {
    let mut p = Chain::new();
    p.outpost.config.token_limit = 1;
    assert_eq!(p.send("alice", "outpost", &["1", "2"], "hub"), Err(ContractError::ExceededTokenLimit));
}

#[test]
fn send_refuses_foreign_target() {
    let mut p = Chain::new();
    assert_eq!(p.send("alice", "outpost", &["1"], "stranger"), Err(ContractError::WrongTargetAddress));
}

#[test]
fn send_refuses_wrong_funds() {
    let p = Chain::new();
    let owned = to_string_vec(&["1"]);
    let r = try_send(
        &p.outpost,
        &addr("alice"),
        &stars(2),
        &addr("outpost"),
        NOW,
        &key(),
        &addr("hub_gopniks"),
        &owned,
        &Some(addr("hub")),
        &owned,
    );
    assert_eq!(r, Err(ContractError::WrongFundsCombination));
    let r = try_send(
        &p.outpost,
        &addr("alice"),
        &[],
        &addr("outpost"),
        NOW,
        &key(),
        &addr("hub_gopniks"),
        &owned,
        &Some(addr("hub")),
        &owned,
    );
    assert_eq!(r, Err(ContractError::WrongFundsCombination));
}

#[test]
fn send_refuses_unknown_collection() {
    let p = Chain::new();
    let owned = to_string_vec(&["1"]);
    let r = try_send(
        &p.outpost,
        &addr("alice"),
        &stars(1),
        &addr("outpost"),
        NOW,
        &key(),
        &addr("other"),
        &owned,
        &None,
        &owned,
    );
    assert_eq!(r, Err(ContractError::CollectionIsNotFound));
}

#[test]
fn pause_gate() {
    let mut p = Chain::new();
    let admin = addr("admin");
    snb_transceiver::admin::try_pause(&mut p.outpost, &admin, &[]).unwrap();
    assert_eq!(p.send("alice", "outpost", &["1"], "hub"), Err(ContractError::ContractIsPaused));
    snb_transceiver::admin::try_pause(&mut p.hub, &admin, &[]).unwrap();
    let r = try_accept(&mut p.hub, &addr("hub"), &[], NOW, &key(), "anything", NOW);
    assert_eq!(r, Err(ContractError::ContractIsPaused));
    assert_eq!(
        snb_transceiver::admin::try_pause(&mut p.outpost, &addr("alice"), &[]),
        Err(ContractError::Unauthorized)
    );
    snb_transceiver::admin::try_unpause(&mut p.outpost, &admin, &[]).unwrap();
    snb_transceiver::admin::try_unpause(&mut p.hub, &admin, &[]).unwrap();
    p.send("alice", "outpost", &["1"], "hub").unwrap();
    assert_eq!(p.tokens("alice", "hub_gopniks"), to_string_vec(&["1"]));
}

#[test]
fn accept_refuses_tampered_message() {
    let mut p = Chain::new();
    let r = try_accept(&mut p.hub, &addr("hub"), &[], NOW, &key(), "not a ciphertext", NOW);
    assert!(r.is_err());
    assert!(p.hub.outposts.is_empty());
    let r = try_accept(&mut p.hub, &addr("hub"), &[], NOW, &key(), "x", 5);
    assert_eq!(r, Err(ContractError::InvalidTimestamp));
}
