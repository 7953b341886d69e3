//! Stored rows as the storage layer hands them over.
//!
//! Times are Unix timestamps in whole seconds.

use vstd::prelude::*;
use crate::entities::{
    BlockState, ClassType, ContractState, ContractType, DropReason, ExtrinsicOperation, LockReason,
};

verus! {

#[derive(Clone, Debug)]
pub struct BlockRow {
    pub id: i64,
    pub chain_id: String,
    pub block_number: i64,
    pub block_hash: String,
    pub parent_hash: String,
    pub transaction_count: Option<i64>,
    pub extrinsic_count: Option<i64>,
    pub state: BlockState,
    pub finalized_at: Option<i64>,
}

#[derive(Clone, Debug)]
pub struct TransactionRow {
    pub id: i64,
    pub chain_id: String,
    pub block_number: Option<i64>,
    pub block_hash: Option<String>,
    pub tx_index: Option<i64>,
    pub tx_hash: String,
    pub from_address: String,
    pub to_address: Option<String>,
    pub value: String,
    pub state: BlockState,
}

#[derive(Clone, Debug)]
pub struct ExtrinsicRow {
    pub id: i64,
    pub chain_id: String,
    pub tx_hash: String,
    pub index: i64,
    pub asset_id: String,
    pub protocol: ContractType,
    pub operation: ExtrinsicOperation,
    pub from_address: String,
    pub to_address: String,
    pub value: String,
    pub state: BlockState,
    pub drop_reason: Option<DropReason>,
}

#[derive(Clone, Debug)]
pub struct ClassRow {
    pub id: i64,
    pub name: String,
    pub symbol: String,
    pub description: String,
    pub cover_image_uri: String,
    pub class_type: ClassType,
}

#[derive(Clone, Debug)]
pub struct ContractRow {
    pub id: i64,
    pub chain_id: String,
    pub asset_id: String,
    pub class_id: i64,
    pub protocol: ContractType,
    pub address: String,
    pub owner: Option<String>,
    pub decimals: Option<i32>,
    pub max_supply: Option<String>,
    pub mint_limit: Option<String>,
    pub not_before: Option<i64>,
    pub deployed_at: Option<i64>,
    pub tx_hash: Option<String>,
    pub state: ContractState,
}

#[derive(Clone, Debug)]
pub struct AssetRow {
    pub id: i64,
    pub chain_id: String,
    pub asset_id: String,
    pub contract_id: i64,
    pub address: String,
    pub value: String,
    pub tx_hash: Option<String>,
}

#[derive(Clone, Debug)]
pub struct LockedAssetRow {
    pub id: i64,
    pub chain_id: String,
    pub asset_id: String,
    pub contract_id: i64,
    pub value: String,
    pub delegate: String,
    pub nonce: i64,
    pub reason: LockReason,
    pub expires_at: Option<i64>,
}

/// Rows that carry the identifier their storage order is kept by.
pub trait EntityId {
    spec fn spec_id(&self) -> i64;

    fn id(&self) -> (r: i64)
        ensures
            r == self.spec_id(),
    ;
}

impl EntityId for AssetRow {
    open spec fn spec_id(&self) -> i64 {
        self.id
    }

    fn id(&self) -> (r: i64) {
        self.id
    }
}

impl EntityId for ClassRow {
    open spec fn spec_id(&self) -> i64 {
        self.id
    }

    fn id(&self) -> (r: i64) {
        self.id
    }
}

impl EntityId for ContractRow {
    open spec fn spec_id(&self) -> i64 {
        self.id
    }

    fn id(&self) -> (r: i64) {
        self.id
    }
}

impl EntityId for ExtrinsicRow {
    open spec fn spec_id(&self) -> i64 {
        self.id
    }

    fn id(&self) -> (r: i64) {
        self.id
    }
}

impl EntityId for TransactionRow {
    open spec fn spec_id(&self) -> i64 {
        self.id
    }

    fn id(&self) -> (r: i64) {
        self.id
    }
}

} // verus!
