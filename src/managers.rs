//! Composition of stored rows into response objects.
//!
//! Each `dump_*` function takes the row being rendered together with what the
//! storage lookups for its parents returned (`None` for a parent that could
//! not be resolved) and builds the response only once every required parent
//! is there: a missing parent yields no response at all, never a partial one.

use vstd::prelude::*;
use vstd::arithmetic::power::pow;
use crate::amount::{float_scale, integer_shift, scale_amount, AmountValue};
use crate::entities::{is_fungible, class_of, ClassType, ContractType};
use crate::rows::{AssetRow, BlockRow, ClassRow, ContractRow, ExtrinsicRow, TransactionRow};
use crate::uint256::{is_number_string, number_string_value, Uint256};
use crate::v1::{
    placed_chain, AssetResponse, BlockOrChainId, BlockResponse, ContractResponse, ExtrinsicResponse,
    TransactionResponse,
};

verus! {

/// The fee for deploying a token contract: 30 * 10^18 (`0x1A055690D9DB80000`).
pub open spec fn deploy_fee_value() -> nat {
    30_000_000_000_000_000_000
}

/// A stored amount string read leniently: its value, or zero when it is no number.
pub open spec fn lenient_value(s: Seq<char>) -> nat {
    if is_number_string(s) {
        number_string_value(s)
    } else {
        0
    }
}

/// How a raw value is shown: scaled when the contract has decimals, as an
/// opaque identifier otherwise.
pub open spec fn renders_value(
    value: Seq<char>,
    decimals: Option<i32>,
    amount: Option<AmountValue>,
    identifier: Option<String>,
) -> bool {
    match decimals {
        Some(d) => {
            &&& identifier is None
            &&& amount matches Some(AmountValue::Scaled(a))
            &&& a.quotient@ == lenient_value(value) / (pow(10, integer_shift(d)) as nat)
            &&& a.scale == float_scale(d)
        },
        None => {
            &&& amount is None
            &&& identifier matches Some(s)
            &&& s@ == value
        },
    }
}

/// A wide amount field holding `v`.
pub open spec fn holds_wide(a: Option<AmountValue>, v: nat) -> bool {
    a matches Some(AmountValue::U256(x)) && x@ == v
}

pub fn deploy_fee() -> (r: Uint256)
    ensures
        r@ == deploy_fee_value(),
{
    Uint256::from_u64(3_000_000_000_000_000_000).mul(&Uint256::from_u64(10))
}

fn copy_opt_string(o: &Option<String>) -> (r: Option<String>)
    ensures
        r == *o,
{
    match o {
        Some(s) => Some(s.clone()),
        None => None,
    }
}

fn lenient_amount(s: &String) -> (r: Uint256)
    ensures
        r@ == lenient_value(s@),
{
    Uint256::from_str_or_zero(s.as_str())
}

/// The amount or identifier that a raw value renders to.
pub fn render_value(value: &String, decimals: Option<i32>) -> (r: (Option<AmountValue>, Option<String>))
    ensures
        renders_value(value@, decimals, r.0, r.1),
{
    match decimals {
        Some(d) => {
            let raw = lenient_amount(value);
            (Some(AmountValue::Scaled(scale_amount(&raw, d))), None)
        },
        None => (None, Some(value.clone())),
    }
}

/// Balance rows exist only for fungible protocols.
pub fn balance_lookup_allowed(protocol: ContractType) -> (r: bool)
    ensures
        r == (class_of(protocol) == ClassType::Fungible),
{
    is_fungible(protocol)
}

/// Instance (and lock) rows exist only for non-fungible protocols.
pub fn instance_lookup_allowed(protocol: ContractType) -> (r: bool)
    ensures
        r == (class_of(protocol) == ClassType::NonFungible),
{
    !is_fungible(protocol)
}

pub fn dump_block(block: &BlockRow) -> (r: BlockResponse)
    ensures
        r.chain_id == block.chain_id,
        r.number == block.block_number,
        r.hash == block.block_hash,
        r.state == block.state,
        r.transaction_count is None,
        r.extrinsic_count is None,
        r.finalized == block.finalized_at is Some,
        r.finalized_at == block.finalized_at,
{
    BlockResponse {
        chain_id: block.chain_id.clone(),
        number: block.block_number,
        hash: block.block_hash.clone(),
        state: block.state,
        transaction_count: None,
        extrinsic_count: None,
        finalized: block.finalized_at.is_some(),
        finalized_at: block.finalized_at,
    }
}

/// Whether a rendered block is the one a transaction names: same chain,
/// same hash.
pub open spec fn block_matches(tx: TransactionRow, b: BlockResponse) -> bool {
    tx.block_hash matches Some(h) && b.hash@ == h@ && b.chain_id@ == tx.chain_id@
}

/// Whether a rendered contract is the rendering of `contract`.
pub open spec fn renders_contract(m: ContractResponse, contract: ContractRow) -> bool {
    m.chain_id@ == contract.chain_id@ && m.id@ == contract.asset_id@
}

/// Renders a transaction. `block` is the rendered block found by the
/// transaction's block hash; it is only consulted when there is such a hash,
/// and a block of another hash or chain counts as not found.
pub fn dump_transaction(tx: &TransactionRow, block: Option<BlockResponse>) -> (r: Option<TransactionResponse>)
    ensures
        r is Some <==> (tx.block_hash is None || (block is Some && block_matches(*tx, block.unwrap()))),
        r matches Some(t) ==> {
            &&& tx.block_hash is None ==> t.block == BlockOrChainId::ChainId(tx.chain_id)
            &&& tx.block_hash is Some ==> t.block == BlockOrChainId::Block(block.unwrap())
            &&& t.index == tx.tx_index
            &&& t.hash == tx.tx_hash
            &&& t.from_address == tx.from_address
            &&& tx.to_address matches Some(a) ==> t.to_address == a
            &&& tx.to_address is None ==> t.to_address@.len() == 0
            &&& t.value is None
        },
{
    let placement = match &tx.block_hash {
        None => BlockOrChainId::ChainId(tx.chain_id.clone()),
        Some(h) => match block {
            Some(b) => {
                if !(b.hash == *h && b.chain_id == tx.chain_id) {
                    return None;
                }
                BlockOrChainId::Block(b)
            },
            None => {
                return None;
            },
        },
    };
    let to_address = match &tx.to_address {
        Some(a) => a.clone(),
        None => String::new(),
    };
    Some(
        TransactionResponse {
            block: placement,
            index: tx.tx_index,
            hash: tx.tx_hash.clone(),
            from_address: tx.from_address.clone(),
            to_address,
            value: None,
        },
    )
}

/// The costlier figures of a contract, computed only for detail views.
#[derive(Clone, Debug)]
pub struct ContractStats {
    /// Number of the contract's asset rows; `None` when it could not be had.
    pub asset_rows: Option<u64>,
    /// Number of distinct holding addresses.
    pub holder_count: u64,
}

/// The supply of a contract from the count of its asset rows: none for a
/// fungible protocol, whose supply is not tracked here.
pub fn contract_supply(protocol: ContractType, asset_rows: Option<u64>) -> (r: Option<Uint256>)
    ensures
        class_of(protocol) == ClassType::Fungible ==> r is None,
        class_of(protocol) == ClassType::NonFungible ==> (r is Some <==> asset_rows is Some),
        r matches Some(v) ==> v@ == asset_rows.unwrap(),
{
    if is_fungible(protocol) {
        None
    } else {
        match asset_rows {
            Some(n) => Some(Uint256::from_u64(n)),
            None => None,
        }
    }
}

/// Renders a contract joined with its class (a class of another id counts as
/// not found); `stats` adds the derived figures.
pub fn dump_contract(contract: &ContractRow, class: Option<ClassRow>, stats: Option<ContractStats>) -> (r: Option<ContractResponse>)
    ensures
        r is Some <==> (class is Some && class.unwrap().id == contract.class_id),
        r matches Some(c) ==> {
            let k = class.unwrap();
            &&& c.chain_id == contract.chain_id
            &&& c.id == contract.asset_id
            &&& c.class_type == k.class_type
            &&& c.protocol == contract.protocol
            &&& c.name == k.name
            &&& c.symbol == k.symbol
            &&& c.description == Some(k.description)
            &&& c.cover_image_uri == Some(k.cover_image_uri)
            &&& c.state == Some(contract.state)
            &&& c.to_address == Some(contract.address)
            &&& holds_wide(c.fee, deploy_fee_value())
            &&& c.owner == contract.owner
            &&& c.decimals == contract.decimals
            &&& contract.max_supply is None ==> c.max_supply is None
            &&& contract.max_supply matches Some(m) ==> holds_wide(c.max_supply, lenient_value(m@))
            &&& contract.mint_limit is None ==> c.mint_limit is None
            &&& contract.mint_limit matches Some(m) ==> holds_wide(c.mint_limit, lenient_value(m@))
            &&& c.not_before == contract.not_before
            &&& c.deployed_at == contract.deployed_at
            &&& c.tx_hash == contract.tx_hash
            &&& stats is None ==> c.supply is None && c.holder_count is None
            &&& stats matches Some(s) ==> {
                &&& class_of(contract.protocol) == ClassType::Fungible ==> c.supply is None
                &&& class_of(contract.protocol) == ClassType::NonFungible && s.asset_rows is None ==> c.supply is None
                &&& class_of(contract.protocol) == ClassType::NonFungible && s.asset_rows is Some
                    ==> holds_wide(c.supply, s.asset_rows.unwrap() as nat)
                &&& c.holder_count == Some(AmountValue::U64(s.holder_count))
            }
        },
{
    let k = match class {
        Some(k) => k,
        None => {
            return None;
        },
    };
    if k.id != contract.class_id {
        return None;
    }
    let max_supply = match &contract.max_supply {
        Some(m) => Some(AmountValue::U256(lenient_amount(m))),
        None => None,
    };
    let mint_limit = match &contract.mint_limit {
        Some(m) => Some(AmountValue::U256(lenient_amount(m))),
        None => None,
    };
    let (supply, holder_count) = match stats {
        Some(s) => {
            let supply = match contract_supply(contract.protocol, s.asset_rows) {
                Some(v) => Some(AmountValue::U256(v)),
                None => None,
            };
            (supply, Some(AmountValue::U64(s.holder_count)))
        },
        None => (None, None),
    };
    Some(
        ContractResponse {
            chain_id: contract.chain_id.clone(),
            id: contract.asset_id.clone(),
            class_type: k.class_type,
            protocol: contract.protocol,
            name: k.name,
            symbol: k.symbol,
            description: Some(k.description),
            cover_image_uri: Some(k.cover_image_uri),
            decimals: contract.decimals,
            max_supply,
            mint_limit,
            state: Some(contract.state),
            not_before: contract.not_before,
            deployed_at: contract.deployed_at,
            tx_hash: copy_opt_string(&contract.tx_hash),
            owner: copy_opt_string(&contract.owner),
            to_address: Some(contract.address.clone()),
            fee: Some(AmountValue::U256(deploy_fee())),
            supply,
            holder_count,
        },
    )
}

/// Whether rendering an asset in detail asks whether it is locked: only
/// non-fungible instances can be.
pub fn needs_lock_check(protocol: ContractType, include_derived: bool) -> (r: bool)
    ensures
        r == (include_derived && class_of(protocol) == ClassType::NonFungible),
{
    include_derived && !is_fungible(protocol)
}

/// Whether a rendered contract is the rendering of `contract`.
fn check_rendering(m: &ContractResponse, contract: &ContractRow) -> (r: bool)
    ensures
        r == renders_contract(*m, *contract),
{
    m.chain_id == contract.chain_id && m.id == contract.asset_id
}

/// Renders a balance or instance row. `contract` is the row's contract and
/// `metadata` that contract rendered; a contract of another id, or a rendering
/// of another contract, counts as not found. `lock_found` tells whether a lock
/// row exists, and is read only when `needs_lock_check` holds.
pub fn dump_asset(
    asset: &AssetRow,
    contract: Option<ContractRow>,
    metadata: Option<ContractResponse>,
    include_derived: bool,
    lock_found: bool,
) -> (r: Option<AssetResponse>)
    ensures
        r is Some <==> (contract is Some && metadata is Some && contract.unwrap().id == asset.contract_id
            && renders_contract(metadata.unwrap(), contract.unwrap())),
        r matches Some(a) ==> {
            let c = contract.unwrap();
            &&& a.contract == metadata.unwrap()
            &&& a.tx_hash == asset.tx_hash
            &&& renders_value(asset.value@, c.decimals, a.amount, a.identifier)
            &&& a.locked == if include_derived && class_of(c.protocol) == ClassType::NonFungible {
                Some(lock_found)
            } else {
                None
            }
        },
{
    let c = match contract {
        Some(c) => c,
        None => {
            return None;
        },
    };
    let m = match metadata {
        Some(m) => m,
        None => {
            return None;
        },
    };
    if c.id != asset.contract_id || !check_rendering(&m, &c) {
        return None;
    }
    let (amount, identifier) = render_value(&asset.value, c.decimals);
    let locked = if needs_lock_check(c.protocol, include_derived) {
        Some(lock_found)
    } else {
        None
    };
    Some(AssetResponse { contract: m, tx_hash: copy_opt_string(&asset.tx_hash), amount, identifier, locked })
}

/// Whether the parents handed to `dump_extrinsic` are the extrinsic's own:
/// the contract of its chain and asset, that contract's rendering, and the
/// rendering of its transaction on its chain.
pub open spec fn extrinsic_joins(
    extrinsic: ExtrinsicRow,
    contract: ContractRow,
    metadata: ContractResponse,
    transaction: TransactionResponse,
) -> bool {
    &&& contract.chain_id@ == extrinsic.chain_id@
    &&& contract.asset_id@ == extrinsic.asset_id@
    &&& renders_contract(metadata, contract)
    &&& transaction.hash@ == extrinsic.tx_hash@
    &&& placed_chain(transaction.block) == extrinsic.chain_id@
}

fn placement_chain(b: &BlockOrChainId) -> (r: &String)
    ensures
        r@ == placed_chain(*b),
{
    match b {
        BlockOrChainId::Block(block) => &block.chain_id,
        BlockOrChainId::ChainId(c) => c,
    }
}

/// Renders an extrinsic joined with its contract and its transaction.
/// `contract` is the contract found by chain and asset identifier, `metadata`
/// that contract rendered, and `transaction` the rendered transaction found
/// by chain and hash; parents that are missing or that are not the
/// extrinsic's own give no rendering.
pub fn dump_extrinsic(
    extrinsic: &ExtrinsicRow,
    contract: Option<ContractRow>,
    metadata: Option<ContractResponse>,
    transaction: Option<TransactionResponse>,
) -> (r: Option<ExtrinsicResponse>)
    ensures
        r is Some <==> (contract is Some && metadata is Some && transaction is Some
            && extrinsic_joins(*extrinsic, contract.unwrap(), metadata.unwrap(), transaction.unwrap())),
        r matches Some(e) ==> {
            &&& e.transaction == transaction.unwrap()
            &&& e.contract == metadata.unwrap()
            &&& e.index == extrinsic.index
            &&& e.from_address == extrinsic.from_address
            &&& e.to_address == extrinsic.to_address
            &&& e.operation == extrinsic.operation
            &&& e.state == extrinsic.state
            &&& e.drop_reason == extrinsic.drop_reason
            &&& renders_value(extrinsic.value@, contract.unwrap().decimals, e.amount, e.identifier)
        },
{
    let c = match contract {
        Some(c) => c,
        None => {
            return None;
        },
    };
    let m = match metadata {
        Some(m) => m,
        None => {
            return None;
        },
    };
    let t = match transaction {
        Some(t) => t,
        None => {
            return None;
        },
    };
    let joined = c.chain_id == extrinsic.chain_id && c.asset_id == extrinsic.asset_id
        && check_rendering(&m, &c) && t.hash == extrinsic.tx_hash
        && *placement_chain(&t.block) == extrinsic.chain_id;
    if !joined {
        return None;
    }
    let (amount, identifier) = render_value(&extrinsic.value, c.decimals);
    Some(
        ExtrinsicResponse {
            transaction: t,
            contract: m,
            index: extrinsic.index,
            from_address: extrinsic.from_address.clone(),
            to_address: extrinsic.to_address.clone(),
            operation: extrinsic.operation,
            state: extrinsic.state,
            drop_reason: extrinsic.drop_reason,
            amount,
            identifier,
        },
    )
}

} // verus!
