//! Response objects that the API layer serializes field for field.
//!
//! Times are Unix timestamps in whole seconds.

use vstd::prelude::*;
use crate::amount::AmountValue;
use crate::entities::{
    BlockState, ClassType, ContractState, ContractType, DropReason, ExtrinsicOperation,
};

verus! {

#[derive(Clone, Debug, Default)]
pub struct BlockResponse {
    pub chain_id: String,
    pub number: i64,
    pub hash: String,
    pub state: BlockState,
    pub transaction_count: Option<i64>,
    pub extrinsic_count: Option<i64>,
    pub finalized: bool,
    pub finalized_at: Option<i64>,
}

/// A transaction's placement: its block when it has one, else its chain.
#[derive(Clone, Debug)]
pub enum BlockOrChainId {
    Block(BlockResponse),
    ChainId(String),
}

#[derive(Clone, Debug)]
pub struct TransactionResponse {
    pub block: BlockOrChainId,
    pub index: Option<i64>,
    pub hash: String,
    pub from_address: String,
    pub to_address: String,
    pub value: Option<AmountValue>,
}

#[derive(Clone, Debug)]
pub struct ContractResponse {
    pub chain_id: String,
    pub id: String,
    pub class_type: ClassType,
    pub protocol: ContractType,
    pub name: String,
    pub symbol: String,
    pub description: Option<String>,
    pub cover_image_uri: Option<String>,
    pub decimals: Option<i32>,
    pub max_supply: Option<AmountValue>,
    pub mint_limit: Option<AmountValue>,
    pub state: Option<ContractState>,
    pub not_before: Option<i64>,
    pub deployed_at: Option<i64>,
    pub tx_hash: Option<String>,
    pub owner: Option<String>,
    pub to_address: Option<String>,
    pub fee: Option<AmountValue>,
    pub supply: Option<AmountValue>,
    pub holder_count: Option<AmountValue>,
}

#[derive(Clone, Debug)]
pub struct AssetResponse {
    pub contract: ContractResponse,
    pub tx_hash: Option<String>,
    pub amount: Option<AmountValue>,
    pub identifier: Option<String>,
    pub locked: Option<bool>,
}

#[derive(Clone, Debug)]
pub struct ExtrinsicResponse {
    pub transaction: TransactionResponse,
    pub contract: ContractResponse,
    pub index: i64,
    pub from_address: String,
    pub to_address: String,
    pub operation: ExtrinsicOperation,
    pub state: BlockState,
    pub drop_reason: Option<DropReason>,
    pub amount: Option<AmountValue>,
    pub identifier: Option<String>,
}


#[derive(Clone, Debug, Default)]
pub struct AssetFindRequest {
    pub chain_id: Option<String>,
    pub address: Option<String>,
    pub asset_id: Option<Vec<String>>,
}

#[derive(Clone, Debug, Default)]
pub struct ContractFindRequest {
    pub chain_id: Option<String>,
    pub class_type: Option<Vec<ClassType>>,
    pub protocol: Option<Vec<ContractType>>,
}

#[derive(Clone, Debug, Default)]
pub struct ContractDeployRequest {
    pub protocol: Option<ContractType>,
    pub chain_id: Option<String>,
    pub name: Option<String>,
    pub address: Option<String>,
}

#[derive(Clone, Debug, Default)]
pub struct ExtrinsicFindRequest {
    pub chain_id: String,
    pub block: Option<String>,
    pub tx_hash: Option<String>,
    pub asset_id: Option<Vec<String>>,
    pub address: Option<Vec<String>>,
}

#[derive(Clone, Debug, Default)]
pub struct TransactionFindRequest {
    pub chain_id: String,
    pub block: Option<String>,
    pub address: Option<Vec<String>>,
}


impl BlockResponse {
    pub fn chain_id(&self) -> (r: &str)
        ensures
            r@ == self.chain_id@,
    {
        self.chain_id.as_str()
    }

    pub fn number(&self) -> (r: i64)
        ensures
            r == self.number,
    {
        self.number
    }

    pub fn hash(&self) -> (r: &str)
        ensures
            r@ == self.hash@,
    {
        self.hash.as_str()
    }

    pub fn state(&self) -> (r: BlockState)
        ensures
            r == self.state,
    {
        self.state
    }

    /// The transaction count, 0 when unknown.
    pub fn transaction_count(&self) -> (r: i64)
        ensures
            r == match self.transaction_count {
                Some(c) => c,
                None => 0,
            },
    {
        match self.transaction_count {
            Some(c) => c,
            None => 0,
        }
    }

    /// The extrinsic count, 0 when unknown.
    pub fn extrinsic_count(&self) -> (r: i64)
        ensures
            r == match self.extrinsic_count {
                Some(c) => c,
                None => 0,
            },
    {
        match self.extrinsic_count {
            Some(c) => c,
            None => 0,
        }
    }

    pub fn finalized(&self) -> (r: bool)
        ensures
            r == self.finalized,
    {
        self.finalized
    }

    pub fn finalized_at(&self) -> (r: Option<i64>)
        ensures
            r == self.finalized_at,
    {
        self.finalized_at
    }
}

/// The block of a placement, if it is one.
pub open spec fn placed_block(p: BlockOrChainId) -> Option<BlockResponse> {
    match p {
        BlockOrChainId::Block(b) => Some(b),
        BlockOrChainId::ChainId(_) => None,
    }
}

/// The chain of a placement.
pub open spec fn placed_chain(p: BlockOrChainId) -> Seq<char> {
    match p {
        BlockOrChainId::Block(b) => b.chain_id@,
        BlockOrChainId::ChainId(c) => c@,
    }
}

impl TransactionResponse {
    pub fn block(&self) -> (r: Option<&BlockResponse>)
        ensures
            r is Some <==> placed_block(self.block) is Some,
            r matches Some(b) ==> *b == placed_block(self.block).unwrap(),
    {
        match &self.block {
            BlockOrChainId::Block(b) => Some(b),
            BlockOrChainId::ChainId(_) => None,
        }
    }

    pub fn block_number(&self) -> (r: Option<i64>)
        ensures
            r is Some <==> placed_block(self.block) is Some,
            r matches Some(n) ==> n == placed_block(self.block).unwrap().number,
    {
        match &self.block {
            BlockOrChainId::Block(b) => Some(b.number),
            BlockOrChainId::ChainId(_) => None,
        }
    }

    pub fn block_hash(&self) -> (r: Option<&str>)
        ensures
            r is Some <==> placed_block(self.block) is Some,
            r matches Some(h) ==> h@ == placed_block(self.block).unwrap().hash@,
    {
        match &self.block {
            BlockOrChainId::Block(b) => Some(b.hash.as_str()),
            BlockOrChainId::ChainId(_) => None,
        }
    }

    /// The block's state; `Pending` without a block.
    pub fn block_state(&self) -> (r: BlockState)
        ensures
            r == match placed_block(self.block) {
                Some(b) => b.state,
                None => BlockState::Pending,
            },
    {
        match &self.block {
            BlockOrChainId::Block(b) => b.state,
            BlockOrChainId::ChainId(_) => BlockState::Pending,
        }
    }

    pub fn block_finalized(&self) -> (r: Option<bool>)
        ensures
            r is Some <==> placed_block(self.block) is Some,
            r matches Some(f) ==> f == placed_block(self.block).unwrap().finalized,
    {
        match &self.block {
            BlockOrChainId::Block(b) => Some(b.finalized),
            BlockOrChainId::ChainId(_) => None,
        }
    }

    pub fn block_finalized_at(&self) -> (r: Option<i64>)
        ensures
            placed_block(self.block) is None ==> r is None,
            placed_block(self.block) matches Some(b) ==> r == b.finalized_at,
    {
        match &self.block {
            BlockOrChainId::Block(b) => b.finalized_at,
            BlockOrChainId::ChainId(_) => None,
        }
    }

    /// The chain, from the block when there is one.
    pub fn chain_id(&self) -> (r: &str)
        ensures
            r@ == placed_chain(self.block),
    {
        match &self.block {
            BlockOrChainId::Block(b) => b.chain_id.as_str(),
            BlockOrChainId::ChainId(c) => c.as_str(),
        }
    }

    pub fn index(&self) -> (r: Option<i64>)
        ensures
            r == self.index,
    {
        self.index
    }

    pub fn hash(&self) -> (r: &str)
        ensures
            r@ == self.hash@,
    {
        self.hash.as_str()
    }

    pub fn from_address(&self) -> (r: &str)
        ensures
            r@ == self.from_address@,
    {
        self.from_address.as_str()
    }

    pub fn to_address(&self) -> (r: &str)
        ensures
            r@ == self.to_address@,
    {
        self.to_address.as_str()
    }

    pub fn value(&self) -> (r: Option<&AmountValue>)
        ensures
            r is Some <==> self.value is Some,
            r matches Some(v) ==> *v == self.value.unwrap(),
    {
        self.value.as_ref()
    }
}

impl ContractResponse {
    pub fn chain_id(&self) -> (r: &str)
        ensures
            r@ == self.chain_id@,
    {
        self.chain_id.as_str()
    }

    pub fn id(&self) -> (r: &str)
        ensures
            r@ == self.id@,
    {
        self.id.as_str()
    }

    pub fn name(&self) -> (r: &str)
        ensures
            r@ == self.name@,
    {
        self.name.as_str()
    }

    pub fn symbol(&self) -> (r: &str)
        ensures
            r@ == self.symbol@,
    {
        self.symbol.as_str()
    }

    pub fn class_type(&self) -> (r: ClassType)
        ensures
            r == self.class_type,
    {
        self.class_type
    }

    pub fn protocol(&self) -> (r: ContractType)
        ensures
            r == self.protocol,
    {
        self.protocol
    }

    pub fn decimals(&self) -> (r: Option<i32>)
        ensures
            r == self.decimals,
    {
        self.decimals
    }

    pub fn max_supply(&self) -> (r: Option<&AmountValue>)
        ensures
            r is Some <==> self.max_supply is Some,
            r matches Some(v) ==> *v == self.max_supply.unwrap(),
    {
        self.max_supply.as_ref()
    }

    pub fn mint_limit(&self) -> (r: Option<&AmountValue>)
        ensures
            r is Some <==> self.mint_limit is Some,
            r matches Some(v) ==> *v == self.mint_limit.unwrap(),
    {
        self.mint_limit.as_ref()
    }

    /// The deployment state; `Pending` when unknown.
    pub fn state(&self) -> (r: ContractState)
        ensures
            r == match self.state {
                Some(s) => s,
                None => ContractState::Pending,
            },
    {
        match self.state {
            Some(s) => s,
            None => ContractState::Pending,
        }
    }

    pub fn deployed_at(&self) -> (r: Option<i64>)
        ensures
            r == self.deployed_at,
    {
        self.deployed_at
    }
}

impl AssetResponse {
    pub fn contract(&self) -> (r: &ContractResponse)
        ensures
            *r == self.contract,
    {
        &self.contract
    }

    pub fn chain_id(&self) -> (r: &str)
        ensures
            r@ == self.contract.chain_id@,
    {
        self.contract.chain_id()
    }

    pub fn asset_id(&self) -> (r: &str)
        ensures
            r@ == self.contract.id@,
    {
        self.contract.id()
    }

    pub fn name(&self) -> (r: &str)
        ensures
            r@ == self.contract.name@,
    {
        self.contract.name()
    }

    pub fn symbol(&self) -> (r: &str)
        ensures
            r@ == self.contract.symbol@,
    {
        self.contract.symbol()
    }

    pub fn class_type(&self) -> (r: ClassType)
        ensures
            r == self.contract.class_type,
    {
        self.contract.class_type
    }

    pub fn protocol(&self) -> (r: ContractType)
        ensures
            r == self.contract.protocol,
    {
        self.contract.protocol
    }

    pub fn decimals(&self) -> (r: Option<i32>)
        ensures
            r == self.contract.decimals,
    {
        self.contract.decimals
    }

    pub fn amount(&self) -> (r: Option<&AmountValue>)
        ensures
            r is Some <==> self.amount is Some,
            r matches Some(v) ==> *v == self.amount.unwrap(),
    {
        self.amount.as_ref()
    }

    pub fn identifier(&self) -> (r: Option<&str>)
        ensures
            r is Some <==> self.identifier is Some,
            r matches Some(v) ==> v@ == self.identifier.unwrap()@,
    {
        match &self.identifier {
            Some(s) => Some(s.as_str()),
            None => None,
        }
    }
}

impl ExtrinsicResponse {
    pub fn transaction(&self) -> (r: &TransactionResponse)
        ensures
            *r == self.transaction,
    {
        &self.transaction
    }

    pub fn chain_id(&self) -> (r: &str)
        ensures
            r@ == placed_chain(self.transaction.block),
    {
        self.transaction.chain_id()
    }

    pub fn block_number(&self) -> (r: Option<i64>)
        ensures
            r is Some <==> placed_block(self.transaction.block) is Some,
            r matches Some(n) ==> n == placed_block(self.transaction.block).unwrap().number,
    {
        self.transaction.block_number()
    }

    pub fn block_hash(&self) -> (r: Option<&str>)
        ensures
            r is Some <==> placed_block(self.transaction.block) is Some,
            r matches Some(h) ==> h@ == placed_block(self.transaction.block).unwrap().hash@,
    {
        self.transaction.block_hash()
    }

    pub fn tx_index(&self) -> (r: Option<i64>)
        ensures
            r == self.transaction.index,
    {
        self.transaction.index
    }

    pub fn tx_hash(&self) -> (r: &str)
        ensures
            r@ == self.transaction.hash@,
    {
        self.transaction.hash()
    }

    pub fn block_state(&self) -> (r: BlockState)
        ensures
            r == match placed_block(self.transaction.block) {
                Some(b) => b.state,
                None => BlockState::Pending,
            },
    {
        self.transaction.block_state()
    }

    pub fn block_finalized(&self) -> (r: Option<bool>)
        ensures
            r is Some <==> placed_block(self.transaction.block) is Some,
            r matches Some(f) ==> f == placed_block(self.transaction.block).unwrap().finalized,
    {
        self.transaction.block_finalized()
    }

    pub fn block_finalized_at(&self) -> (r: Option<i64>)
        ensures
            placed_block(self.transaction.block) is None ==> r is None,
            placed_block(self.transaction.block) matches Some(b) ==> r == b.finalized_at,
    {
        self.transaction.block_finalized_at()
    }

    pub fn contract(&self) -> (r: &ContractResponse)
        ensures
            *r == self.contract,
    {
        &self.contract
    }

    pub fn asset_id(&self) -> (r: &str)
        ensures
            r@ == self.contract.id@,
    {
        self.contract.id()
    }

    pub fn name(&self) -> (r: &str)
        ensures
            r@ == self.contract.name@,
    {
        self.contract.name()
    }

    pub fn symbol(&self) -> (r: &str)
        ensures
            r@ == self.contract.symbol@,
    {
        self.contract.symbol()
    }

    pub fn class_type(&self) -> (r: ClassType)
        ensures
            r == self.contract.class_type,
    {
        self.contract.class_type
    }

    pub fn amount(&self) -> (r: Option<&AmountValue>)
        ensures
            r is Some <==> self.amount is Some,
            r matches Some(v) ==> *v == self.amount.unwrap(),
    {
        self.amount.as_ref()
    }

    pub fn protocol(&self) -> (r: ContractType)
        ensures
            r == self.contract.protocol,
    {
        self.contract.protocol
    }

    pub fn decimals(&self) -> (r: Option<i32>)
        ensures
            r == self.contract.decimals,
    {
        self.contract.decimals
    }

    pub fn index(&self) -> (r: i64)
        ensures
            r == self.index,
    {
        self.index
    }

    pub fn from_address(&self) -> (r: &str)
        ensures
            r@ == self.from_address@,
    {
        self.from_address.as_str()
    }

    pub fn to_address(&self) -> (r: &str)
        ensures
            r@ == self.to_address@,
    {
        self.to_address.as_str()
    }

    pub fn identifier(&self) -> (r: Option<&str>)
        ensures
            r is Some <==> self.identifier is Some,
            r matches Some(v) ==> v@ == self.identifier.unwrap()@,
    {
        match &self.identifier {
            Some(s) => Some(s.as_str()),
            None => None,
        }
    }
}

} // verus!
