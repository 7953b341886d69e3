use eos420::entities::{BlockState, ClassType, ContractType};
use eos420::handlers::{
    bucket_of, bucket_states, deploy_plan, deploy_target, is_listed_state, require_param, DeployError,
    StatusBucket, DEPLOY_ADDRESS,
};
use eos420::amount::AmountValue;
use eos420::v1::ContractDeployRequest;

#[test]
fn mandatory_parameters() {
    assert_eq!(require_param(&Some("eos".to_string()), "chain_id").unwrap(), "eos");
    let e = require_param(&None, "chain_id").unwrap_err();
    assert_eq!(e.error, "invalid_request");
    assert_eq!(e.error_description.as_deref(), Some("Missing mandatory parameter `chain_id`"));
}

#[test]
fn deploy_request_needs_chain_and_name() {
    let mut req = ContractDeployRequest::default();
    assert_eq!(deploy_target(&req), Err(DeployError::MissingChainId));
    req.chain_id = Some("eos".to_string());
    assert_eq!(deploy_target(&req), Err(DeployError::MissingName));
    req.name = Some("ordi".to_string());
    assert_eq!(deploy_target(&req), Ok(("eos".to_string(), "ordi".to_string())));
    let e = DeployError::MissingName.to_response();
    assert_eq!(e.error_description.as_deref(), Some("Missing mandatory parameter `name`"));
    assert_eq!(DeployError::NameTaken.to_response().error, "conflict");
}

#[test]
fn deploy_plan_shape() {
    assert!(matches!(
        deploy_plan("eos".to_string(), "ordi".to_string(), None, true),
        Err(DeployError::NameTaken)
    ));
    let c = deploy_plan("eos".to_string(), "ordi".to_string(), Some(ContractType::Eos420), false).unwrap();
    assert_eq!((c.name.as_str(), c.symbol.as_str(), c.id.as_str()), ("ordi", "ordi", ""));
    assert_eq!(c.protocol, ContractType::Eos420);
    assert_eq!(c.class_type, ClassType::NonFungible);
    assert_eq!(c.to_address.as_deref(), Some(DEPLOY_ADDRESS));
    match &c.fee {
        Some(AmountValue::U256(v)) => assert_eq!(v.to_upper_hex(), "0x1A055690D9DB80000"),
        _ => panic!("fee missing"),
    }
    let d = deploy_plan("eos".to_string(), "x".to_string(), None, false).unwrap();
    assert_eq!((d.protocol, d.class_type), (ContractType::Erc20, ClassType::Fungible));
}

#[test]
fn status_buckets_partition_states() {
    assert_eq!(bucket_of(BlockState::Indexing), StatusBucket::Pending);
    assert_eq!(bucket_of(BlockState::Confirmed), StatusBucket::Pending);
    assert_eq!(bucket_of(BlockState::Finalized), StatusBucket::Finalized);
    assert_eq!(bucket_of(BlockState::Dropped), StatusBucket::Dropped);
    assert_eq!(bucket_states(StatusBucket::Pending), vec![BlockState::Pending, BlockState::Indexing, BlockState::Confirmed]);
    assert_eq!(bucket_states(StatusBucket::Dropped), vec![BlockState::Dropped]);
    assert!(is_listed_state(BlockState::Finalized));
    assert!(!is_listed_state(BlockState::Pending));
}
