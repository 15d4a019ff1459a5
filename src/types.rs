use vstd::prelude::*;

verus! {

/// Whether sender and target of a transmission live on one chain.
#[derive(Debug, Clone, Copy, PartialEq, Eq, Structural)]
pub enum TransmissionMode {
    Local,
    Interchain,
}

impl TransmissionMode {
    pub fn is_local(&self) -> (r: bool)
        ensures
            r == (*self == TransmissionMode::Local),
    {
        matches!(self, TransmissionMode::Local)
    }

    pub fn is_interchain(&self) -> (r: bool)
        ensures
            r == (*self == TransmissionMode::Interchain),
    {
        matches!(self, TransmissionMode::Interchain)
    }
}

/// Which side of a transmission keeps the authoritative custody record.
#[derive(Debug, Clone, Copy, PartialEq, Eq, Structural)]
pub enum TransmissionDirection {
    FromHub,
    ToHub,
}

impl TransmissionDirection {
    pub fn is_from_hub(&self) -> (r: bool)
        ensures
            r == (*self == TransmissionDirection::FromHub),
    {
        matches!(self, TransmissionDirection::FromHub)
    }

    pub fn is_to_hub(&self) -> (r: bool)
        ensures
            r == (*self == TransmissionDirection::ToHub),
    {
        matches!(self, TransmissionDirection::ToHub)
    }
}

/// `Second` marks a message that a retranslation outpost relays one hop further.
#[derive(Debug, Clone, Copy, PartialEq, Eq, Structural)]
pub enum TransmissionStage {
    First,
    Second,
}

impl TransmissionStage {
    pub fn is_first(&self) -> (r: bool)
        ensures
            r == (*self == TransmissionStage::First),
    {
        matches!(self, TransmissionStage::First)
    }

    pub fn is_second(&self) -> (r: bool)
        ensures
            r == (*self == TransmissionStage::Second),
    {
        matches!(self, TransmissionStage::Second)
    }
}

/// `Short` goes straight between hub and home outpost, `Long` through the retranslation outpost.
#[derive(Debug, Clone, Copy, PartialEq, Eq, Structural)]
pub enum TransmissionRoute {
    Short,
    Long,
}

impl TransmissionRoute {
    pub fn is_short(&self) -> (r: bool)
        ensures
            r == (*self == TransmissionRoute::Short),
    {
        matches!(self, TransmissionRoute::Short)
    }

    pub fn is_long(&self) -> (r: bool)
        ensures
            r == (*self == TransmissionRoute::Long),
    {
        matches!(self, TransmissionRoute::Long)
    }
}

/// The role of a transceiver in its network: one hub, any number of outposts.
#[derive(Debug, Clone, Copy, PartialEq, Eq, Structural)]
pub enum TransceiverType {
    Hub,
    Outpost,
}

impl TransceiverType {
    pub fn is_hub(&self) -> (r: bool)
        ensures
            r == (*self == TransceiverType::Hub),
    {
        matches!(self, TransceiverType::Hub)
    }

    pub fn is_outpost(&self) -> (r: bool)
        ensures
            r == (*self == TransceiverType::Outpost),
    {
        matches!(self, TransceiverType::Outpost)
    }
}

/// The routing decision for one request.
#[derive(Debug, Clone, Copy, PartialEq, Eq, Structural)]
pub struct TransmissionDescription {
    pub mode: TransmissionMode,
    pub direction: TransmissionDirection,
    pub stage: TransmissionStage,
    pub route: TransmissionRoute,
}

/// The chain prefixes of the parties of a transmission.
#[derive(Debug, Clone, PartialEq, Eq)]
pub struct Prefix {
    pub hub: String,
    pub home_outpost: String,
    pub retranslation_outpost: Option<String>,
}

/// The routing decision together with the addresses it was made from.
#[derive(Debug, Clone, PartialEq, Eq)]
pub struct TransmissionInfo {
    pub description: TransmissionDescription,
    pub prefix: Prefix,
    pub home_outpost: String,
    pub hub: String,
    pub transceiver: String,
    pub target: String,
}

/// An NFT collection on its home chain paired with its mirror on the hub chain.
#[derive(Debug, Clone, PartialEq, Eq)]
pub struct Collection {
    pub home_collection: String,
    pub hub_collection: String,
}

/// The static configuration of a transceiver.
#[derive(Debug, Clone, PartialEq, Eq)]
pub struct Config {
    pub admin: String,
    pub nft_minter: String,
    pub hub_address: String,
    pub transceiver_type: TransceiverType,
    pub token_limit: u8,
    pub min_ntrn_ibc_fee: u128,
}

/// A pending admin handover: `new_admin` may accept it strictly before `deadline` (seconds).
#[derive(Debug, Clone, PartialEq, Eq)]
pub struct TransferAdminState {
    pub new_admin: String,
    pub deadline: u64,
}

/// The payload of one transfer between transceivers.
#[derive(Debug, Clone, PartialEq, Eq)]
pub struct Packet {
    /// hub or home outpost
    pub sender: String,
    /// NFT owner
    pub recipient: String,
    pub hub_collection: String,
    pub home_collection: String,
    pub token_list: Vec<String>,
}

/// The transport channels that join the chain of `prefix` with the hub chain.
#[derive(Debug, Clone, PartialEq, Eq)]
pub struct Channel {
    pub prefix: String,
    pub from_hub: String,
    pub to_hub: String,
}

impl Channel {
    pub fn new(prefix: &str, from_hub: &str, to_hub: &str) -> (r: Self)
        ensures
            r.prefix@ == prefix@,
            r.from_hub@ == from_hub@,
            r.to_hub@ == to_hub@,
    {
        Channel {
            prefix: prefix.to_owned(),
            from_hub: from_hub.to_owned(),
            to_hub: to_hub.to_owned(),
        }
    }
}

/// A memo for the transport layer's hook on the receiving chain.
#[derive(Debug, Clone, PartialEq, Eq)]
pub enum IbcMemo<M> {
    Forward { channel: String, port: String, receiver: String, retries: u8, timeout: u64 },
    Wasm { contract: String, msg: M },
}

/// The message a contract migration is called with.
#[derive(Debug, Clone, PartialEq, Eq)]
pub struct MigrateMsg {
    pub version: String,
}

/// The read-only requests a transceiver answers.
#[derive(Debug, Clone, PartialEq, Eq)]
pub enum QueryMsg {
    Config,
    PauseState,
    RetranslationOutpost,
    Outposts,
    Collection { hub_collection: Option<String>, home_collection: Option<String> },
    CollectionList,
    ChannelList,
}

/// The timeout height of a packet reported by the transport layer.
#[derive(Debug, Clone, Copy, PartialEq, Eq, Structural)]
pub struct RequestPacketTimeoutHeight {
    pub revision_number: Option<u64>,
    pub revision_height: Option<u64>,
}

/// A height on a remote chain.
#[derive(Debug, Clone, Copy, PartialEq, Eq, Structural, Default)]
pub struct Height {
    /// the revision that the client is currently on
    pub revision_number: u64,
    /// the height of the remote chain
    pub revision_height: u64,
}

} // verus!
