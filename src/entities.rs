//! Lifecycle and protocol enumerations shared by rows and responses.

use vstd::prelude::*;

verus! {

/// Lifecycle of a block as seen by the indexer.
#[derive(Clone, Copy, Debug, PartialEq, Eq, Structural)]
pub enum BlockState {
    Pending,
    Indexing,
    Confirmed,
    Finalized,
    Dropped,
}

impl Default for BlockState {
    fn default() -> (r: Self)
        ensures
            r == BlockState::Pending,
    {
        BlockState::Pending
    }
}

/// Whether a token family is fungible.
#[derive(Clone, Copy, Debug, PartialEq, Eq, Structural)]
pub enum ClassType {
    Fungible,
    NonFungible,
}

impl Default for ClassType {
    fn default() -> (r: Self)
        ensures
            r == ClassType::Fungible,
    {
        ClassType::Fungible
    }
}

/// Deployment state of a token contract.
#[derive(Clone, Copy, Debug, PartialEq, Eq, Structural)]
pub enum ContractState {
    Pending,
    Deploying,
    Deployed,
}

impl Default for ContractState {
    fn default() -> (r: Self)
        ensures
            r == ContractState::Pending,
    {
        ContractState::Pending
    }
}

/// Token protocol of a contract.
#[derive(Clone, Copy, Debug, PartialEq, Eq, Structural)]
pub enum ContractType {
    Erc20,
    Erc721,
    Eos20,
    Eos420,
}

impl Default for ContractType {
    fn default() -> (r: Self)
        ensures
            r == ContractType::Erc20,
    {
        ContractType::Erc20
    }
}

/// The fungibility that a protocol implies.
pub open spec fn class_of(p: ContractType) -> ClassType {
    match p {
        ContractType::Erc20 | ContractType::Eos20 => ClassType::Fungible,
        ContractType::Erc721 | ContractType::Eos420 => ClassType::NonFungible,
    }
}

impl From<ContractType> for ClassType {
    fn from(val: ContractType) -> (r: ClassType) {
        match val {
            ContractType::Erc20 | ContractType::Eos20 => ClassType::Fungible,
            ContractType::Erc721 | ContractType::Eos420 => ClassType::NonFungible,
        }
    }
}

impl vstd::std_specs::convert::FromSpecImpl<ContractType> for ClassType {
    open spec fn obeys_from_spec() -> bool {
        true
    }

    open spec fn from_spec(v: ContractType) -> ClassType {
        class_of(v)
    }
}

/// Whether a protocol tracks balances (as opposed to individual instances).
pub fn is_fungible(p: ContractType) -> (r: bool)
    ensures
        r == (class_of(p) == ClassType::Fungible),
{
    match p {
        ContractType::Erc20 | ContractType::Eos20 => true,
        ContractType::Erc721 | ContractType::Eos420 => false,
    }
}

/// Why an extrinsic was rejected.
#[derive(Clone, Copy, Debug, PartialEq, Eq, Structural)]
pub enum DropReason {
    Unknown,
    ContextMissing,
    ContextMalformed,
    TransactionDropped,
    TransactionMalformed,
    ProtocolMismatch,
    OperationInvalid,
    OperationUnsupported,
    FeeInsufficient,
    FeeArrearage,
    ExtrinsicConflicted,
    BalanceInsufficient,
    SupplyExceeded,
}

impl Default for DropReason {
    fn default() -> (r: Self)
        ensures
            r == DropReason::Unknown,
    {
        DropReason::Unknown
    }
}

/// Kind of token-protocol operation.
#[derive(Clone, Copy, Debug, PartialEq, Eq, Structural)]
pub enum ExtrinsicOperation {
    Deploy,
    Mint,
    Transfer,
    Stake,
    Burn,
}

impl Default for ExtrinsicOperation {
    fn default() -> (r: Self)
        ensures
            r == ExtrinsicOperation::Mint,
    {
        ExtrinsicOperation::Mint
    }
}

/// Why an asset instance is locked.
#[derive(Clone, Copy, Debug, PartialEq, Eq, Structural)]
pub enum LockReason {
    Rollup,
    User,
}

impl Default for LockReason {
    fn default() -> (r: Self)
        ensures
            r == LockReason::User,
    {
        LockReason::User
    }
}

/// A block reference, by height or by hash.
#[derive(Clone, Debug, Hash)]
pub enum NumberOrHash {
    Number(i64),
    Hash(String),
}

impl Default for NumberOrHash {
    fn default() -> (r: Self)
        ensures
            r == NumberOrHash::Number(1),
    {
        NumberOrHash::Number(1)
    }
}

impl From<i64> for NumberOrHash {
    fn from(value: i64) -> (r: NumberOrHash) {
        NumberOrHash::Number(value)
    }
}

impl vstd::std_specs::convert::FromSpecImpl<i64> for NumberOrHash {
    open spec fn obeys_from_spec() -> bool {
        true
    }

    open spec fn from_spec(v: i64) -> NumberOrHash {
        NumberOrHash::Number(v)
    }
}

} // verus!
