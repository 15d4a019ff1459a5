use vstd::prelude::*;

verus! {

/// Every way in which a call of the transceiver can be refused.
#[derive(Debug, Clone, PartialEq, Eq)]
pub enum ContractError {
    CustomError { val: String },
    Unauthorized,
    NoParameters,
    TransferAdminDeadline,
    ExceededTokenLimit,
    NftIsNotFound,
    NftDuplication,
    EmptyTokenList,
    CollectionDuplication,
    CollectionIsNotFound,
    WrongAssetType,
    WrongMessageType,
    WrongActionType,
    WrongFundsCombination,
    ContractIsPaused,
    OutpostIsNotFound,
    ChannelIsNotFound,
    WrongTargetAddress,
    TransceiversAreNotLocal,
    TransceiversAreNotInterchain,
    HubIsNotOutpost,
    HubIsNotRetranslator,
    HomeOutpostIsNotRetranslator,
    InvalidAddress,
    InvalidTimestamp,
    EncryptionFailed,
    DecryptionFailed,
    MalformedPacket,
}

} // verus!
