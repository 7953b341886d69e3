use eos420::amount::AmountValue;
use eos420::entities::{BlockState, ClassType, ContractState, ContractType, ExtrinsicOperation};
use eos420::managers::{
    balance_lookup_allowed, contract_supply, deploy_fee, dump_asset, dump_block, dump_contract,
    dump_extrinsic, dump_transaction, instance_lookup_allowed, needs_lock_check, ContractStats,
};
use eos420::rows::{AssetRow, BlockRow, ClassRow, ContractRow, ExtrinsicRow, TransactionRow};
use eos420::uint256::Uint256;
use eos420::v1::BlockOrChainId;

fn contract(decimals: Option<i32>, protocol: ContractType) -> ContractRow {
    ContractRow {
        id: 5,
        chain_id: "eos".to_string(),
        asset_id: "tkn".to_string(),
        class_id: 9,
        protocol,
        address: "deployer".to_string(),
        owner: Some("alice".to_string()),
        decimals,
        max_supply: Some("0x64".to_string()),
        mint_limit: Some("bogus".to_string()),
        not_before: None,
        deployed_at: Some(1700000000),
        tx_hash: None,
        state: ContractState::Deployed,
    }
}

fn class() -> ClassRow {
    ClassRow {
        id: 9,
        name: "Token".to_string(),
        symbol: "TKN".to_string(),
        description: "a token".to_string(),
        cover_image_uri: "ipfs://x".to_string(),
        class_type: ClassType::Fungible,
    }
}

fn block() -> BlockRow {
    BlockRow {
        id: 1,
        chain_id: "eos".to_string(),
        block_number: 77,
        block_hash: "bh".to_string(),
        parent_hash: "ph".to_string(),
        transaction_count: Some(3),
        extrinsic_count: Some(1),
        state: BlockState::Finalized,
        finalized_at: Some(1700000100),
    }
}

fn tx(block_hash: Option<&str>) -> TransactionRow {
    TransactionRow {
        id: 2,
        chain_id: "eos".to_string(),
        block_number: Some(77),
        block_hash: block_hash.map(|s| s.to_string()),
        tx_index: Some(4),
        tx_hash: "th".to_string(),
        from_address: "alice".to_string(),
        to_address: None,
        value: "0".to_string(),
        state: BlockState::Finalized,
    }
}

fn extrinsic(value: &str) -> ExtrinsicRow {
    ExtrinsicRow {
        id: 3,
        chain_id: "eos".to_string(),
        tx_hash: "th".to_string(),
        index: 0,
        asset_id: "tkn".to_string(),
        protocol: ContractType::Eos20,
        operation: ExtrinsicOperation::Transfer,
        from_address: "alice".to_string(),
        to_address: "bob".to_string(),
        value: value.to_string(),
        state: BlockState::Confirmed,
        drop_reason: None,
    }
}

#[test]
fn block_dump_marks_finalized() {
    let b = dump_block(&block());
    assert_eq!((b.number, b.hash.as_str(), b.finalized, b.finalized_at), (77, "bh", true, Some(1700000100)));
    let mut row = block();
    row.finalized_at = None;
    assert!(!dump_block(&row).finalized);
}

#[test]
fn transaction_without_block_hash_renders_chain_id() {
    let t = dump_transaction(&tx(None), None).unwrap();
    assert!(matches!(&t.block, BlockOrChainId::ChainId(c) if c == "eos"));
    assert_eq!(t.index, Some(4));
    assert_eq!(t.to_address, "");
}

#[test]
fn transaction_with_unresolved_block_is_absent() {
    assert!(dump_transaction(&tx(Some("bh")), None).is_none());
    let t = dump_transaction(&tx(Some("bh")), Some(dump_block(&block()))).unwrap();
    assert!(matches!(&t.block, BlockOrChainId::Block(b) if b.number == 77));
}

#[test]
fn contract_dump_joins_class_and_fee() {
    assert!(dump_contract(&contract(Some(8), ContractType::Eos20), None, None).is_none());
    let c = dump_contract(&contract(Some(8), ContractType::Eos20), Some(class()), None).unwrap();
    assert_eq!(c.name, "Token");
    assert_eq!(c.id, "tkn");
    assert_eq!(c.state, Some(ContractState::Deployed));
    assert_eq!(c.to_address.as_deref(), Some("deployer"));
    match &c.fee {
        Some(AmountValue::U256(v)) => assert_eq!(v.to_lower_hex(), "0x1a055690d9db80000"),
        _ => panic!("fee missing"),
    }
    match &c.max_supply {
        Some(AmountValue::U256(v)) => assert_eq!(v.to_string(), "100"),
        _ => panic!("max supply missing"),
    }
    match &c.mint_limit {
        Some(AmountValue::U256(v)) => assert!(v.is_zero()),
        _ => panic!("mint limit missing"),
    }
    assert!(c.supply.is_none() && c.holder_count.is_none());
}

#[test]
fn contract_dump_with_stats() {
    let stats = ContractStats { asset_rows: Some(12), holder_count: 4 };
    let c = dump_contract(&contract(None, ContractType::Eos420), Some(class()), Some(stats)).unwrap();
    match &c.supply {
        Some(AmountValue::U256(v)) => assert_eq!(v.to_string(), "12"),
        _ => panic!("supply missing"),
    }
    assert!(matches!(c.holder_count, Some(AmountValue::U64(4))));
    let fungible = ContractStats { asset_rows: Some(12), holder_count: 1 };
    let c = dump_contract(&contract(None, ContractType::Erc20), Some(class()), Some(fungible)).unwrap();
    assert!(c.supply.is_none());
    assert!(matches!(c.holder_count, Some(AmountValue::U64(1))));
    let failed = ContractStats { asset_rows: None, holder_count: 0 };
    let c = dump_contract(&contract(None, ContractType::Eos420), Some(class()), Some(failed)).unwrap();
    assert!(c.supply.is_none());
    assert!(contract_supply(ContractType::Erc20, Some(3)).is_none());
    assert_eq!(contract_supply(ContractType::Erc721, Some(3)).unwrap().to_string(), "3");
    assert_eq!(deploy_fee().to_string(), "30000000000000000000");
}

#[test]
fn extrinsic_dump_needs_contract_and_transaction() {
    let row = extrinsic("123456789");
    let c = contract(Some(8), ContractType::Eos20);
    let meta = || dump_contract(&c, Some(class()), None);
    let t = || dump_transaction(&tx(None), None);
    assert!(dump_extrinsic(&row, None, meta(), t()).is_none());
    assert!(dump_extrinsic(&row, Some(c.clone()), None, t()).is_none());
    assert!(dump_extrinsic(&row, Some(c.clone()), meta(), None).is_none());
    let e = dump_extrinsic(&row, Some(c.clone()), meta(), t()).unwrap();
    assert_eq!(e.to_address, "bob");
    assert!(e.identifier.is_none());
    match &e.amount {
        Some(AmountValue::Scaled(a)) => {
            assert_eq!(a.quotient.to_string(), "1234567");
            assert_eq!(a.scale, 6);
        }
        _ => panic!("amount missing"),
    }
}

#[test]
fn extrinsic_without_decimals_shows_identifier() {
    let c = contract(None, ContractType::Eos420);
    let e = dump_extrinsic(
        &extrinsic("0xabc"),
        Some(c.clone()),
        dump_contract(&c, Some(class()), None),
        dump_transaction(&tx(None), None),
    )
    .unwrap();
    assert!(e.amount.is_none());
    assert_eq!(e.identifier.as_deref(), Some("0xabc"));
}

#[test]
fn asset_dump_lock_flag() {
    let row = AssetRow {
        id: 8,
        chain_id: "eos".to_string(),
        asset_id: "tkn".to_string(),
        contract_id: 5,
        address: "alice".to_string(),
        value: "17".to_string(),
        tx_hash: Some("th".to_string()),
    };
    let nft = contract(None, ContractType::Eos420);
    let meta = dump_contract(&nft, Some(class()), None);
    let a = dump_asset(&row, Some(nft.clone()), meta.clone(), true, true).unwrap();
    assert_eq!(a.locked, Some(true));
    assert_eq!(a.identifier.as_deref(), Some("17"));
    let a = dump_asset(&row, Some(nft.clone()), meta.clone(), false, true).unwrap();
    assert_eq!(a.locked, None);
    let ft = contract(Some(2), ContractType::Eos20);
    let a = dump_asset(&row, Some(ft.clone()), dump_contract(&ft, Some(class()), None), true, true).unwrap();
    assert_eq!(a.locked, None);
    assert!(dump_asset(&row, None, meta, true, true).is_none());
    let _ = Uint256::zero();
}

#[test]
fn lookups_follow_fungibility() {
    assert!(balance_lookup_allowed(ContractType::Erc20));
    assert!(balance_lookup_allowed(ContractType::Eos20));
    assert!(!balance_lookup_allowed(ContractType::Erc721));
    assert!(instance_lookup_allowed(ContractType::Eos420));
    assert!(!instance_lookup_allowed(ContractType::Eos20));
    assert!(needs_lock_check(ContractType::Erc721, true));
    assert!(!needs_lock_check(ContractType::Erc721, false));
    assert_eq!(ClassType::from(ContractType::Erc721), ClassType::NonFungible);
}

#[test]
fn mismatched_parents_are_not_joined() {
    let mut other_class = class();
    other_class.id = 10;
    assert!(dump_contract(&contract(None, ContractType::Eos20), Some(other_class), None).is_none());

    let other_block = BlockRow { block_hash: "other".to_string(), ..block() };
    assert!(dump_transaction(&tx(Some("bh")), Some(dump_block(&other_block))).is_none());
    let other_chain = BlockRow { chain_id: "btc".to_string(), ..block() };
    assert!(dump_transaction(&tx(Some("bh")), Some(dump_block(&other_chain))).is_none());

    let row = extrinsic("5");
    let c = contract(Some(0), ContractType::Eos20);
    let meta = dump_contract(&c, Some(class()), None);
    let mut other_tx = tx(None);
    other_tx.tx_hash = "zz".to_string();
    assert!(dump_extrinsic(&row, Some(c.clone()), meta.clone(), dump_transaction(&other_tx, None)).is_none());
    let mut other_contract = c.clone();
    other_contract.asset_id = "other".to_string();
    let other_meta = dump_contract(&other_contract, Some(class()), None);
    assert!(dump_extrinsic(&row, Some(c.clone()), other_meta.clone(), dump_transaction(&tx(None), None)).is_none());
    assert!(dump_extrinsic(&row, Some(other_contract.clone()), other_meta, dump_transaction(&tx(None), None)).is_none());
    assert!(dump_extrinsic(&row, Some(c.clone()), meta.clone(), dump_transaction(&tx(None), None)).is_some());

    let asset = AssetRow {
        id: 8,
        chain_id: "eos".to_string(),
        asset_id: "tkn".to_string(),
        contract_id: 6,
        address: "alice".to_string(),
        value: "17".to_string(),
        tx_hash: None,
    };
    assert!(dump_asset(&asset, Some(c.clone()), meta.clone(), false, false).is_none());
    let asset = AssetRow { contract_id: 5, ..asset };
    assert!(dump_asset(&asset, Some(c.clone()), meta, false, false).is_some());
}
