use eos420::entities::{BlockState, ContractState};
use eos420::v1::{BlockOrChainId, BlockResponse, TransactionResponse};

fn block() -> BlockResponse {
    BlockResponse {
        chain_id: "eos".to_string(),
        number: 9,
        hash: "bh".to_string(),
        state: BlockState::Confirmed,
        transaction_count: None,
        extrinsic_count: Some(2),
        finalized: false,
        finalized_at: None,
    }
}

#[test]
fn transaction_placement_getters() {
    let placed = TransactionResponse {
        block: BlockOrChainId::Block(block()),
        index: Some(1),
        hash: "th".to_string(),
        from_address: "a".to_string(),
        to_address: "b".to_string(),
        value: None,
    };
    assert_eq!(placed.chain_id(), "eos");
    assert_eq!(placed.block_number(), Some(9));
    assert_eq!(placed.block_hash(), Some("bh"));
    assert_eq!(placed.block_state(), BlockState::Confirmed);
    assert_eq!(placed.block_finalized(), Some(false));
    let bare = TransactionResponse { block: BlockOrChainId::ChainId("btc".to_string()), ..placed.clone() };
    assert_eq!(bare.chain_id(), "btc");
    assert!(bare.block().is_none());
    assert_eq!(bare.block_state(), BlockState::Pending);
    assert_eq!(bare.block_hash(), None);
}

#[test]
fn block_counts_default_to_zero() {
    let b = block();
    assert_eq!(b.transaction_count(), 0);
    assert_eq!(b.extrinsic_count(), 2);
    assert_eq!(ContractState::default(), ContractState::Pending);
}
