use vstd::prelude::*;
use vstd::string::*;

use crate::address::{addr_prefix, get_addr_by_prefix, has_separator, reprefixed};
use crate::error::ContractError;
use crate::registry::{collection_by_home, collection_by_hub, find_collection_by_home, find_collection_by_hub};
use crate::topology::{has_sep, opt_view, prefix_of, strings_view};
use crate::transfer::{contains_string, Coin, State};
use crate::types::{Channel, Collection, Config, TransceiverType, TransferAdminState};

verus! {

/// How long a pending admin handover stays open, in seconds (seven days).
pub const TRANSFER_ADMIN_TIMEOUT: u64 = 604800;

/// An address given to an admin call, re-encoded for the chain of this transceiver.
pub open spec fn local_address(contract: Seq<char>, address: Seq<char>) -> Option<Seq<char>> {
    if has_separator(contract) {
        reprefixed(address, addr_prefix(contract))
    } else {
        None
    }
}

/// Checks that `address` can be read as an address of the chain of `contract_address`.
pub fn validate_any_address(contract_address: &str, address: &str) -> (r: Result<
    String,
    ContractError,
>)
    ensures
        match local_address(contract_address@, address@) {
            Some(a) => r matches Ok(s) && s@ == a,
            None => r == Err::<String, ContractError>(ContractError::InvalidAddress),
        },
{
    if !has_sep(contract_address) {
        return Err(ContractError::InvalidAddress);
    }
    let prefix = prefix_of(contract_address);
    get_addr_by_prefix(address, prefix.as_str())
}

/// The checks that every admin call makes first: no funds attached, called by the admin.
pub open spec fn admin_check(st: State, sender: Seq<char>, funds: Seq<Coin>) -> Option<
    ContractError,
> {
    if funds.len() != 0 {
        Some(ContractError::WrongFundsCombination)
    } else if sender != st.config.admin@ {
        Some(ContractError::Unauthorized)
    } else {
        None
    }
}

fn check_admin(state: &State, sender: &String, funds: &[Coin]) -> (r: Result<(), ContractError>)
    ensures
        match admin_check(*state, sender@, funds@) {
            Some(e) => r == Err::<(), ContractError>(e),
            None => r is Ok,
        },
{
    if funds.len() != 0 {
        return Err(ContractError::WrongFundsCombination);
    }
    if *sender != state.config.admin {
        return Err(ContractError::Unauthorized);
    }
    Ok(())
}

/// Completes a pending admin handover: only the named new admin may call, and only strictly
/// before the deadline (`now` in seconds). The deadline is then closed at `now`.
pub fn try_accept_admin_role(state: &mut State, sender: &String, funds: &[Coin], now: u64) -> (r:
    Result<(), ContractError>)
    ensures
        funds@.len() != 0 ==> r == Err::<(), ContractError>(ContractError::WrongFundsCombination),
        funds@.len() == 0 && old(state).transfer_admin_state is None ==> r == Err::<
            (),
            ContractError,
        >(ContractError::Unauthorized),
        funds@.len() == 0 && (old(state).transfer_admin_state matches Some(t) && sender@
            != t.new_admin@) ==> r == Err::<(), ContractError>(ContractError::Unauthorized),
        funds@.len() == 0 && (old(state).transfer_admin_state matches Some(t) && sender@
            == t.new_admin@ && now >= t.deadline) ==> r == Err::<(), ContractError>(
            ContractError::TransferAdminDeadline,
        ),
        r is Err ==> *final(state) == *old(state),
        r is Ok <==> (funds@.len() == 0 && (old(state).transfer_admin_state matches Some(t)
            && sender@ == t.new_admin@ && now < t.deadline)),
        r is Ok ==> final(state).config == (Config { admin: *sender, ..old(state).config }),
        r is Ok ==> final(state).transfer_admin_state == Some(
            TransferAdminState { deadline: now, ..old(state).transfer_admin_state->0 },
        ),
        r is Ok ==> final(state).is_paused == old(state).is_paused,
        r is Ok ==> final(state).retranslation_outpost == old(state).retranslation_outpost,
        r is Ok ==> final(state).outposts == old(state).outposts,
        r is Ok ==> final(state).collections == old(state).collections,
        r is Ok ==> final(state).channels == old(state).channels,
{
    if funds.len() != 0 {
        return Err(ContractError::WrongFundsCombination);
    }
    let (deadline, new_admin) = match &state.transfer_admin_state {
        Some(t) => {
            if *sender != t.new_admin {
                return Err(ContractError::Unauthorized);
            }
            (t.deadline, t.new_admin.clone())
        },
        None => {
            return Err(ContractError::Unauthorized);
        },
    };
    if now >= deadline {
        return Err(ContractError::TransferAdminDeadline);
    }
    state.config.admin = sender.clone();
    state.transfer_admin_state = Some(TransferAdminState { new_admin, deadline: now });
    Ok(())
}

/// Pauses the transceiver: sends and accepts are refused until it is unpaused.
pub fn try_pause(state: &mut State, sender: &String, funds: &[Coin]) -> (r: Result<
    (),
    ContractError,
>)
    ensures
        match admin_check(*old(state), sender@, funds@) {
            Some(e) => r == Err::<(), ContractError>(e) && *final(state) == *old(state),
            None => r is Ok && *final(state) == (State { is_paused: true, ..*old(state) }),
        },
{
    match check_admin(state, sender, funds) {
        Ok(()) => {},
        Err(e) => {
            return Err(e);
        },
    }
    state.is_paused = true;
    Ok(())
}

/// Lifts a pause.
pub fn try_unpause(state: &mut State, sender: &String, funds: &[Coin]) -> (r: Result<
    (),
    ContractError,
>)
    ensures
        match admin_check(*old(state), sender@, funds@) {
            Some(e) => r == Err::<(), ContractError>(e) && *final(state) == *old(state),
            None => r is Ok && *final(state) == (State { is_paused: false, ..*old(state) }),
        },
{
    match check_admin(state, sender, funds) {
        Ok(()) => {},
        Err(e) => {
            return Err(e);
        },
    }
    state.is_paused = false;
    Ok(())
}

/// What an update of the configuration leads to: the new state, or the first check that fails.
pub open spec fn update_config_outcome(
    st: State,
    sender: Seq<char>,
    funds: Seq<Coin>,
    now: u64,
    contract: Seq<char>,
    admin: Option<String>,
    nft_minter: Option<String>,
    hub_address: Option<String>,
    token_limit: Option<u8>,
    min_ntrn_ibc_fee: Option<u128>,
) -> Result<State, ContractError> {
    match admin_check(st, sender, funds) {
        Some(e) => Err(e),
        None => if admin matches Some(x) && local_address(contract, x@) != Some(x@) {
            Err(ContractError::InvalidAddress)
        } else if nft_minter matches Some(x) && local_address(contract, x@) is None {
            Err(ContractError::InvalidAddress)
        } else if hub_address is Some && st.config.transceiver_type == TransceiverType::Hub {
            Err(ContractError::WrongActionType)
        } else if hub_address matches Some(x) && strings_view(st.outposts@).contains(x@) {
            Err(ContractError::HubIsNotOutpost)
        } else if hub_address matches Some(x) && st.retranslation_outpost matches Some(r) && r@
            == x@ {
            Err(ContractError::HubIsNotRetranslator)
        } else if admin is None && nft_minter is None && hub_address is None && token_limit is None
            && min_ntrn_ibc_fee is None {
            Err(ContractError::NoParameters)
        } else {
            Ok(
                State {
                    config: Config {
                        nft_minter: match nft_minter {
                            Some(x) => x,
                            None => st.config.nft_minter,
                        },
                        hub_address: match hub_address {
                            Some(x) => x,
                            None => st.config.hub_address,
                        },
                        token_limit: match token_limit {
                            Some(x) => x,
                            None => st.config.token_limit,
                        },
                        min_ntrn_ibc_fee: match min_ntrn_ibc_fee {
                            Some(x) => x,
                            None => st.config.min_ntrn_ibc_fee,
                        },
                        ..st.config
                    },
                    transfer_admin_state: match admin {
                        Some(x) => Some(
                            TransferAdminState {
                                new_admin: x,
                                deadline: (now + TRANSFER_ADMIN_TIMEOUT) as u64,
                            },
                        ),
                        None => st.transfer_admin_state,
                    },
                    ..st
                },
            )
        },
    }
}

/// Updates the configuration. A new admin is only proposed: it takes over by accepting within
/// `TRANSFER_ADMIN_TIMEOUT` seconds of `now`. The hub address of an outpost must be neither a
/// known outpost nor the retranslation outpost.
pub fn try_update_config(
    state: &mut State,
    sender: &String,
    funds: &[Coin],
    now: u64,
    contract_address: &str,
    admin: Option<String>,
    nft_minter: Option<String>,
    hub_address: Option<String>,
    token_limit: Option<u8>,
    min_ntrn_ibc_fee: Option<u128>,
) -> (r: Result<(), ContractError>)
    requires
        now <= u64::MAX - TRANSFER_ADMIN_TIMEOUT,
    ensures
        match update_config_outcome(
            *old(state),
            sender@,
            funds@,
            now,
            contract_address@,
            admin,
            nft_minter,
            hub_address,
            token_limit,
            min_ntrn_ibc_fee,
        ) {
            Ok(s) => r is Ok && *final(state) == s,
            Err(e) => r == Err::<(), ContractError>(e) && *final(state) == *old(state),
        },
{
    match check_admin(state, sender, funds) {
        Ok(()) => {},
        Err(e) => {
            return Err(e);
        },
    }
    if let Some(x) = &admin {
        match validate_any_address(contract_address, x.as_str()) {
            Ok(v) => {
                if v != *x {
                    return Err(ContractError::InvalidAddress);
                }
            },
            Err(e) => {
                return Err(e);
            },
        }
    }
    if let Some(x) = &nft_minter {
        match validate_any_address(contract_address, x.as_str()) {
            Ok(_) => {},
            Err(e) => {
                return Err(e);
            },
        }
    }
    if let Some(x) = &hub_address {
        if state.config.transceiver_type.is_hub() {
            return Err(ContractError::WrongActionType);
        }
        if contains_string(state.outposts.as_slice(), x) {
            return Err(ContractError::HubIsNotOutpost);
        }
        if let Some(r) = &state.retranslation_outpost {
            if *r == *x {
                return Err(ContractError::HubIsNotRetranslator);
            }
        }
    }
    if admin.is_none() && nft_minter.is_none() && hub_address.is_none() && token_limit.is_none()
        && min_ntrn_ibc_fee.is_none() {
        return Err(ContractError::NoParameters);
    }
    if let Some(x) = admin {
        state.transfer_admin_state = Some(
            TransferAdminState { new_admin: x, deadline: now + TRANSFER_ADMIN_TIMEOUT },
        );
    }
    if let Some(x) = nft_minter {
        state.config.nft_minter = x;
    }
    if let Some(x) = hub_address {
        state.config.hub_address = x;
    }
    if let Some(x) = token_limit {
        state.config.token_limit = x;
    }
    if let Some(x) = min_ntrn_ibc_fee {
        state.config.min_ntrn_ibc_fee = x;
    }
    Ok(())
}

/// No two pairings share a hub-side collection or a home collection.
pub open spec fn collections_unique(cs: Seq<Collection>) -> bool {
    forall|i: int, j: int|
        0 <= i < j < cs.len() ==> cs[i].hub_collection@ != cs[j].hub_collection@
            && cs[i].home_collection@ != cs[j].home_collection@
}

/// Whether a pairing shares either side with `hub` / `home`.
pub open spec fn clashes(cs: Seq<Collection>, hub: Seq<char>, home: Seq<char>) -> bool {
    exists|i: int|
        0 <= i < cs.len() && (cs[i].hub_collection@ == hub || cs[i].home_collection@ == home)
}

fn find_clash(cs: &[Collection], hub: &String, home: &String) -> (r: bool)
    ensures
        r == clashes(cs@, hub@, home@),
{
    let mut i: usize = 0;
    while i < cs.len()
        invariant
            i <= cs@.len(),
            forall|j: int|
                0 <= j < i ==> !(cs@[j].hub_collection@ == hub@ || cs@[j].home_collection@
                    == home@),
        decreases cs@.len() - i,
    {
        if cs[i].hub_collection == *hub || cs[i].home_collection == *home {
            return true;
        }
        i = i + 1;
    }
    false
}

/// Registers a pairing of a home collection with its hub-side mirror.
pub fn try_add_collection(
    state: &mut State,
    sender: &String,
    funds: &[Coin],
    contract_address: &str,
    hub_collection: String,
    home_collection: String,
) -> (r: Result<(), ContractError>)
    ensures
        admin_check(*old(state), sender@, funds@) matches Some(e) ==> r == Err::<
            (),
            ContractError,
        >(e),
        admin_check(*old(state), sender@, funds@) is None && clashes(
            old(state).collections@,
            hub_collection@,
            home_collection@,
        ) ==> r == Err::<(), ContractError>(ContractError::CollectionDuplication),
        admin_check(*old(state), sender@, funds@) is None && !clashes(
            old(state).collections@,
            hub_collection@,
            home_collection@,
        ) && (local_address(contract_address@, hub_collection@) is None || local_address(
            contract_address@,
            home_collection@,
        ) is None) ==> r == Err::<(), ContractError>(ContractError::InvalidAddress),
        r is Ok <==> (admin_check(*old(state), sender@, funds@) is None && !clashes(
            old(state).collections@,
            hub_collection@,
            home_collection@,
        ) && local_address(contract_address@, hub_collection@) is Some && local_address(
            contract_address@,
            home_collection@,
        ) is Some),
        r is Err ==> *final(state) == *old(state),
        r is Ok ==> *final(state) == (State {
            collections: final(state).collections,
            ..*old(state)
        }),
        r is Ok ==> final(state).collections@ == old(state).collections@.push(
            Collection { home_collection, hub_collection },
        ),
        r is Ok ==> (collections_unique(old(state).collections@) ==> collections_unique(
            final(state).collections@,
        )),
{
    match check_admin(state, sender, funds) {
        Ok(()) => {},
        Err(e) => {
            return Err(e);
        },
    }
    if find_clash(state.collections.as_slice(), &hub_collection, &home_collection) {
        return Err(ContractError::CollectionDuplication);
    }
    match validate_any_address(contract_address, hub_collection.as_str()) {
        Ok(_) => {},
        Err(e) => {
            return Err(e);
        },
    }
    match validate_any_address(contract_address, home_collection.as_str()) {
        Ok(_) => {},
        Err(e) => {
            return Err(e);
        },
    }
    let ghost before = state.collections@;
    state.collections.push(Collection { home_collection, hub_collection });
    proof {
        assert forall|i: int, j: int|
            collections_unique(before) && 0 <= i < j < state.collections@.len() implies state.collections@[i].hub_collection@
            != state.collections@[j].hub_collection@ && state.collections@[i].home_collection@
            != state.collections@[j].home_collection@ by {
            if j == before.len() {
                assert(!(before[i].hub_collection@ == hub_collection@
                    || before[i].home_collection@ == home_collection@));
            }
        }
    }
    Ok(())
}

/// The pairings except those whose hub-side collection is `hub`.
pub open spec fn without_hub(cs: Seq<Collection>, hub: Seq<char>) -> Seq<Collection>
    decreases cs.len(),
{
    if cs.len() == 0 {
        seq![]
    } else if cs.last().hub_collection@ == hub {
        without_hub(cs.drop_last(), hub)
    } else {
        without_hub(cs.drop_last(), hub).push(cs.last())
    }
}

/// Removes the pairing of a hub-side collection.
pub fn try_remove_collection(
    state: &mut State,
    sender: &String,
    funds: &[Coin],
    hub_collection: &String,
) -> (r: Result<(), ContractError>)
    ensures
        match admin_check(*old(state), sender@, funds@) {
            Some(e) => r == Err::<(), ContractError>(e) && *final(state) == *old(state),
            None => r is Ok && *final(state) == (State {
                collections: final(state).collections,
                ..*old(state)
            }) && final(state).collections@ == without_hub(
                old(state).collections@,
                hub_collection@,
            ),
        },
{
    match check_admin(state, sender, funds) {
        Ok(()) => {},
        Err(e) => {
            return Err(e);
        },
    }
    let mut kept: Vec<Collection> = Vec::new();
    let mut i: usize = 0;
    while i < state.collections.len()
        invariant
            i <= state.collections@.len(),
            kept@ == without_hub(state.collections@.take(i as int), hub_collection@),
        decreases state.collections@.len() - i,
    {
        let c = &state.collections[i];
        proof {
            assert(state.collections@.take(i + 1).drop_last() =~= state.collections@.take(
                i as int,
            ));
        }
        if c.hub_collection != *hub_collection {
            kept.push(
                Collection {
                    home_collection: c.home_collection.clone(),
                    hub_collection: c.hub_collection.clone(),
                },
            );
        }
        i = i + 1;
    }
    assert(state.collections@.take(i as int) =~= state.collections@);
    state.collections = kept;
    Ok(())
}

/// Designates the retranslation outpost, which must be neither the hub nor a known outpost.
pub fn try_set_retranslation_outpost(
    state: &mut State,
    sender: &String,
    funds: &[Coin],
    contract_address: &str,
    address: String,
) -> (r: Result<(), ContractError>)
    ensures
        funds@.len() != 0 ==> r == Err::<(), ContractError>(ContractError::WrongFundsCombination),
        funds@.len() == 0 && local_address(contract_address@, address@) is None ==> r == Err::<
            (),
            ContractError,
        >(ContractError::InvalidAddress),
        funds@.len() == 0 && local_address(contract_address@, address@) is Some && sender@
            != old(state).config.admin@ ==> r == Err::<(), ContractError>(
            ContractError::Unauthorized,
        ),
        admin_check(*old(state), sender@, funds@) is None && local_address(
            contract_address@,
            address@,
        ) is Some && address@ == old(state).config.hub_address@ ==> r == Err::<(), ContractError>(
            ContractError::HubIsNotRetranslator,
        ),
        admin_check(*old(state), sender@, funds@) is None && local_address(
            contract_address@,
            address@,
        ) is Some && address@ != old(state).config.hub_address@ && strings_view(
            old(state).outposts@,
        ).contains(address@) ==> r == Err::<(), ContractError>(
            ContractError::HomeOutpostIsNotRetranslator,
        ),
        r is Err ==> *final(state) == *old(state),
        r is Ok ==> *final(state) == (State {
            retranslation_outpost: Some(address),
            ..*old(state)
        }),
        r is Ok <==> (admin_check(*old(state), sender@, funds@) is None && local_address(
            contract_address@,
            address@,
        ) is Some && address@ != old(state).config.hub_address@ && !strings_view(
            old(state).outposts@,
        ).contains(address@)),
{
    if funds.len() != 0 {
        return Err(ContractError::WrongFundsCombination);
    }
    match validate_any_address(contract_address, address.as_str()) {
        Ok(_) => {},
        Err(e) => {
            return Err(e);
        },
    }
    if *sender != state.config.admin {
        return Err(ContractError::Unauthorized);
    }
    if address == state.config.hub_address {
        return Err(ContractError::HubIsNotRetranslator);
    }
    if contains_string(state.outposts.as_slice(), &address) {
        return Err(ContractError::HomeOutpostIsNotRetranslator);
    }
    state.retranslation_outpost = Some(address);
    Ok(())
}

/// The channel entries except the one of `prefix`.
pub open spec fn without_prefix(chs: Seq<Channel>, prefix: Seq<char>) -> Seq<Channel>
    decreases chs.len(),
{
    if chs.len() == 0 {
        seq![]
    } else if chs.last().prefix@ == prefix {
        without_prefix(chs.drop_last(), prefix)
    } else {
        without_prefix(chs.drop_last(), prefix).push(chs.last())
    }
}

/// Sets the channels between the chain of `prefix` and the hub, replacing any earlier entry.
pub fn try_set_channel(
    state: &mut State,
    sender: &String,
    funds: &[Coin],
    prefix: &str,
    from_hub: &str,
    to_hub: &str,
) -> (r: Result<(), ContractError>)
    ensures
        match admin_check(*old(state), sender@, funds@) {
            Some(e) => r == Err::<(), ContractError>(e) && *final(state) == *old(state),
            None => r is Ok && *final(state) == (State {
                channels: final(state).channels,
                ..*old(state)
            }) && final(state).channels@.len() == without_prefix(
                old(state).channels@,
                prefix@,
            ).len() + 1 && final(state).channels@.drop_last() == without_prefix(
                old(state).channels@,
                prefix@,
            ) && final(state).channels@.last().prefix@ == prefix@
                && final(state).channels@.last().from_hub@ == from_hub@
                && final(state).channels@.last().to_hub@ == to_hub@,
        },
{
    match check_admin(state, sender, funds) {
        Ok(()) => {},
        Err(e) => {
            return Err(e);
        },
    }
    let key = prefix.to_owned();
    let mut kept: Vec<Channel> = Vec::new();
    let mut i: usize = 0;
    while i < state.channels.len()
        invariant
            i <= state.channels@.len(),
            key@ == prefix@,
            kept@ == without_prefix(state.channels@.take(i as int), prefix@),
        decreases state.channels@.len() - i,
    {
        let c = &state.channels[i];
        proof {
            assert(state.channels@.take(i + 1).drop_last() =~= state.channels@.take(i as int));
        }
        if c.prefix != key {
            kept.push(
                Channel {
                    prefix: c.prefix.clone(),
                    from_hub: c.from_hub.clone(),
                    to_hub: c.to_hub.clone(),
                },
            );
        }
        i = i + 1;
    }
    assert(state.channels@.take(i as int) =~= state.channels@);
    let ghost without = kept@;
    kept.push(Channel::new(prefix, from_hub, to_hub));
    assert(kept@.drop_last() =~= without);
    state.channels = kept;
    Ok(())
}

/// Looks up a pairing by its hub-side collection, or else by its home collection.
pub fn query_collection(
    state: &State,
    hub_collection: &Option<String>,
    home_collection: &Option<String>,
) -> (r: Result<Collection, ContractError>)
    ensures
        match (*hub_collection, *home_collection) {
            (Some(h), _) => match collection_by_hub(state.collections@, h@) {
                Some(c) => r == Ok::<Collection, ContractError>(c),
                None => r == Err::<Collection, ContractError>(ContractError::CollectionIsNotFound),
            },
            (None, Some(h)) => match collection_by_home(state.collections@, h@) {
                Some(c) => r == Ok::<Collection, ContractError>(c),
                None => r == Err::<Collection, ContractError>(ContractError::CollectionIsNotFound),
            },
            (None, None) => r == Err::<Collection, ContractError>(ContractError::NoParameters),
        },
{
    if let Some(h) = hub_collection {
        return match find_collection_by_hub(state.collections.as_slice(), h) {
            Some(c) => Ok(c),
            None => Err(ContractError::CollectionIsNotFound),
        };
    }
    if let Some(h) = home_collection {
        return match find_collection_by_home(state.collections.as_slice(), h) {
            Some(c) => Ok(c),
            None => Err(ContractError::CollectionIsNotFound),
        };
    }
    Err(ContractError::NoParameters)
}

/// Default number of tokens one send may carry.
pub const TOKEN_LIMIT: u8 = 10;

/// Default relay fee of the hub, in untrn.
pub const MIN_NTRN_IBC_FEE: u128 = 100_000;

/// The parameters a transceiver is created with.
#[derive(Debug, Clone, PartialEq, Eq)]
pub struct InstantiateMsg {
    pub nft_minter: Option<String>,
    pub hub_address: Option<String>,
    pub transceiver_type: TransceiverType,
    pub token_limit: Option<u8>,
    pub min_ntrn_ibc_fee: Option<u128>,
    pub is_retranslation_outpost: bool,
}

pub open spec fn stargaze_prefix() -> Seq<char> {
    "stars"@
}

pub open spec fn channel_neutron_stargaze() -> Seq<char> {
    "channel-18"@
}

pub open spec fn channel_stargaze_neutron() -> Seq<char> {
    "channel-191"@
}

pub open spec fn or_empty(o: Option<String>) -> Seq<char> {
    match o {
        Some(s) => s@,
        None => Seq::empty(),
    }
}

/// Creates the state of a new transceiver at `contract_address`, administered by `sender`. A
/// hub is its own hub address and cannot be the retranslation outpost; the channel table
/// starts with the Stargaze entry.
pub fn try_instantiate(contract_address: &str, sender: &String, msg: InstantiateMsg) -> (r: Result<
    State,
    ContractError,
>)
    ensures
        msg.transceiver_type == TransceiverType::Hub && msg.is_retranslation_outpost ==> r == Err::<
            State,
            ContractError,
        >(ContractError::HubIsNotRetranslator),
        !(msg.transceiver_type == TransceiverType::Hub && msg.is_retranslation_outpost) ==> (r
            matches Ok(st) && {
            &&& st.config.admin == *sender
            &&& st.config.nft_minter@ == or_empty(msg.nft_minter)
            &&& st.config.hub_address@ == if msg.transceiver_type == TransceiverType::Hub {
                contract_address@
            } else {
                or_empty(msg.hub_address)
            }
            &&& st.config.transceiver_type == msg.transceiver_type
            &&& st.config.token_limit == match msg.token_limit {
                Some(x) => x,
                None => TOKEN_LIMIT,
            }
            &&& st.config.min_ntrn_ibc_fee == match msg.min_ntrn_ibc_fee {
                Some(x) => x,
                None => MIN_NTRN_IBC_FEE,
            }
            &&& !st.is_paused
            &&& st.transfer_admin_state is None
            &&& opt_view(st.retranslation_outpost) == if msg.is_retranslation_outpost {
                Some(contract_address@)
            } else {
                None
            }
            &&& st.outposts@.len() == 0
            &&& st.collections@.len() == 0
            &&& st.channels@.len() == 1
            &&& st.channels@[0].prefix@ == stargaze_prefix()
            &&& st.channels@[0].from_hub@ == channel_neutron_stargaze()
            &&& st.channels@[0].to_hub@ == channel_stargaze_neutron()
        }),
{
    let is_hub = msg.transceiver_type.is_hub();
    if is_hub && msg.is_retranslation_outpost {
        return Err(ContractError::HubIsNotRetranslator);
    }
    let hub_address = if is_hub {
        contract_address.to_owned()
    } else {
        match msg.hub_address {
            Some(h) => h,
            None => String::new(),
        }
    };
    let retranslation_outpost = if msg.is_retranslation_outpost {
        Some(contract_address.to_owned())
    } else {
        None
    };
    let nft_minter = match msg.nft_minter {
        Some(m) => m,
        None => String::new(),
    };
    let token_limit = match msg.token_limit {
        Some(x) => x,
        None => TOKEN_LIMIT,
    };
    let min_ntrn_ibc_fee = match msg.min_ntrn_ibc_fee {
        Some(x) => x,
        None => MIN_NTRN_IBC_FEE,
    };
    let mut channels: Vec<Channel> = Vec::new();
    channels.push(Channel::new("stars", "channel-18", "channel-191"));
    Ok(
        State {
            config: Config {
                admin: sender.clone(),
                nft_minter,
                hub_address,
                transceiver_type: msg.transceiver_type,
                token_limit,
                min_ntrn_ibc_fee,
            },
            is_paused: false,
            transfer_admin_state: None,
            retranslation_outpost,
            outposts: Vec::new(),
            collections: Vec::new(),
            channels,
        },
    )
}

/// The configuration.
pub fn query_config(state: &State) -> (r: Config)
    ensures
        r == state.config,
{
    Config {
        admin: state.config.admin.clone(),
        nft_minter: state.config.nft_minter.clone(),
        hub_address: state.config.hub_address.clone(),
        transceiver_type: state.config.transceiver_type,
        token_limit: state.config.token_limit,
        min_ntrn_ibc_fee: state.config.min_ntrn_ibc_fee,
    }
}

/// Whether the transceiver is paused.
pub fn query_pause_state(state: &State) -> (r: bool)
    ensures
        r == state.is_paused,
{
    state.is_paused
}

/// The retranslation outpost, if one is designated.
pub fn query_retranslation_outpost(state: &State) -> (r: Option<String>)
    ensures
        r == state.retranslation_outpost,
{
    match &state.retranslation_outpost {
        Some(x) => Some(x.clone()),
        None => None,
    }
}

/// The outposts the hub has accepted packets from, in the order first seen.
pub fn query_outposts(state: &State) -> (r: Vec<String>)
    ensures
        r@ == state.outposts@,
{
    crate::transfer::clone_strings(state.outposts.as_slice())
}

/// The registered collection pairings.
pub fn query_collection_list(state: &State) -> (r: Vec<Collection>)
    ensures
        r@ == state.collections@,
{
    let mut r: Vec<Collection> = Vec::new();
    let mut i: usize = 0;
    while i < state.collections.len()
        invariant
            i <= state.collections@.len(),
            r@ == state.collections@.take(i as int),
        decreases state.collections@.len() - i,
    {
        let c = &state.collections[i];
        r.push(
            Collection {
                home_collection: c.home_collection.clone(),
                hub_collection: c.hub_collection.clone(),
            },
        );
        i = i + 1;
        assert(r@ =~= state.collections@.take(i as int));
    }
    assert(state.collections@.take(i as int) =~= state.collections@);
    r
}

/// The channel entries.
pub fn query_channel_list(state: &State) -> (r: Vec<Channel>)
    ensures
        r@ == state.channels@,
{
    let mut r: Vec<Channel> = Vec::new();
    let mut i: usize = 0;
    while i < state.channels.len()
        invariant
            i <= state.channels@.len(),
            r@ == state.channels@.take(i as int),
        decreases state.channels@.len() - i,
    {
        let c = &state.channels[i];
        r.push(
            Channel {
                prefix: c.prefix.clone(),
                from_hub: c.from_hub.clone(),
                to_hub: c.to_hub.clone(),
            },
        );
        i = i + 1;
        assert(r@ =~= state.channels@.take(i as int));
    }
    assert(state.channels@.take(i as int) =~= state.channels@);
    r
}

} // verus!
