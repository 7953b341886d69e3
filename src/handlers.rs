//! Request decisions of the API endpoints, apart from their storage calls.

use vstd::prelude::*;
use crate::amount::AmountValue;
use crate::entities::{class_of, BlockState, ClassType, ContractType};
use crate::managers::{deploy_fee, deploy_fee_value, holds_wide};
use crate::status::ErrorResponse;
use crate::v1::{ContractDeployRequest, ContractResponse};

verus! {

/// Address that token deployments are sent to.
pub const DEPLOY_ADDRESS: &'static str = "AeDB27Cc7AEe4Dc74c02CfCc80F71ffF7a3Dfe36";

/// Most holders listed for a contract.
pub const HOLDER_LIMIT: u64 = 20;

/// The description of a rejected request that lacks parameter `name`.
pub open spec fn missing_param_text(name: Seq<char>) -> Seq<char> {
    "Missing mandatory parameter `"@ + name + "`"@
}

/// The value of a mandatory parameter, or the `invalid_request` error that
/// names it.
pub fn require_param(value: &Option<String>, name: &str) -> (r: Result<String, ErrorResponse>)
    ensures
        value is Some <==> r is Ok,
        r matches Ok(v) ==> v == value.unwrap(),
        r matches Err(e) ==> (e.error_description matches Some(d) && d@ == missing_param_text(name@) && e.error@ == "invalid_request"@),
{
    match value {
        Some(v) => Ok(v.clone()),
        None => {
            let mut text = String::from_str("Missing mandatory parameter `");
            text.append(name);
            text.append("`");
            Err(ErrorResponse::invalid_request().with_error_description(text.as_str()))
        },
    }
}

/// Why a deployment request is refused.
#[derive(Clone, Copy, Debug, PartialEq, Eq, Structural)]
pub enum DeployError {
    MissingChainId,
    MissingName,
    NameTaken,
}

/// The chain and the token name that a deployment request names.
pub fn deploy_target(request: &ContractDeployRequest) -> (r: Result<(String, String), DeployError>)
    ensures
        request.chain_id is None ==> r == Err::<(String, String), DeployError>(DeployError::MissingChainId),
        request.chain_id is Some && request.name is None ==> r == Err::<(String, String), DeployError>(DeployError::MissingName),
        request.chain_id is Some && request.name is Some ==> r == Ok::<(String, String), DeployError>((request.chain_id.unwrap(), request.name.unwrap())),
{
    let chain_id = match &request.chain_id {
        Some(c) => c.clone(),
        None => {
            return Err(DeployError::MissingChainId);
        },
    };
    let name = match &request.name {
        Some(n) => n.clone(),
        None => {
            return Err(DeployError::MissingName);
        },
    };
    Ok((chain_id, name))
}

/// The contract that a deployment would create, unless the name is taken on
/// that chain: named and symbolized by `name`, typed by `protocol` when given,
/// addressed to the deployment address and charged the deployment fee.
pub fn deploy_plan(chain_id: String, name: String, protocol: Option<ContractType>, name_taken: bool) -> (r: Result<ContractResponse, DeployError>)
    ensures
        name_taken <==> r is Err,
        r matches Err(e) ==> e == DeployError::NameTaken,
        r matches Ok(c) ==> {
            &&& c.chain_id == chain_id
            &&& c.name == name
            &&& c.symbol == name
            &&& c.id@.len() == 0
            &&& protocol matches Some(p) ==> c.protocol == p && c.class_type == class_of(p)
            &&& protocol is None ==> c.protocol == ContractType::Erc20 && c.class_type == ClassType::Fungible
            &&& c.to_address matches Some(a) && a@ == DEPLOY_ADDRESS@
            &&& holds_wide(c.fee, deploy_fee_value())
            &&& c.state is None
            &&& c.supply is None
            &&& c.holder_count is None
        },
{
    if name_taken {
        return Err(DeployError::NameTaken);
    }
    let (class_type, protocol) = match protocol {
        Some(p) => (ClassType::from(p), p),
        None => (ClassType::Fungible, ContractType::Erc20),
    };
    let symbol = name.clone();
    Ok(
        ContractResponse {
            chain_id,
            id: String::new(),
            class_type,
            protocol,
            name,
            symbol,
            description: None,
            cover_image_uri: None,
            decimals: None,
            max_supply: None,
            mint_limit: None,
            state: None,
            not_before: None,
            deployed_at: None,
            tx_hash: None,
            owner: None,
            to_address: Some(DEPLOY_ADDRESS.to_owned()),
            fee: Some(AmountValue::U256(deploy_fee())),
            supply: None,
            holder_count: None,
        },
    )
}

impl DeployError {
    /// The error response sent for this refusal.
    pub fn to_response(&self) -> (r: ErrorResponse)
        ensures
            *self == DeployError::NameTaken ==> r.error@ == "conflict"@,
            *self == DeployError::MissingChainId ==> (r.error_description matches Some(d) && d@ == missing_param_text("chain_id"@) && r.error@ == "invalid_request"@),
            *self == DeployError::MissingName ==> (r.error_description matches Some(d) && d@ == missing_param_text("name"@) && r.error@ == "invalid_request"@),
    {
        match self {
            DeployError::NameTaken => ErrorResponse::conflict().with_error_description("Token name already taken"),
            DeployError::MissingChainId => match require_param(&None, "chain_id") {
                Err(e) => e,
                Ok(_) => ErrorResponse::invalid_request(),
            },
            DeployError::MissingName => match require_param(&None, "name") {
                Err(e) => e,
                Ok(_) => ErrorResponse::invalid_request(),
            },
        }
    }
}

/// How the status endpoint counts an extrinsic.
#[derive(Clone, Copy, Debug, PartialEq, Eq, Structural)]
pub enum StatusBucket {
    Pending,
    Finalized,
    Dropped,
}

pub open spec fn bucket_of_spec(s: BlockState) -> StatusBucket {
    match s {
        BlockState::Pending | BlockState::Indexing | BlockState::Confirmed => StatusBucket::Pending,
        BlockState::Finalized => StatusBucket::Finalized,
        BlockState::Dropped => StatusBucket::Dropped,
    }
}

/// Not yet settled states count as pending.
pub fn bucket_of(s: BlockState) -> (r: StatusBucket)
    ensures
        r == bucket_of_spec(s),
{
    match s {
        BlockState::Pending | BlockState::Indexing | BlockState::Confirmed => StatusBucket::Pending,
        BlockState::Finalized => StatusBucket::Finalized,
        BlockState::Dropped => StatusBucket::Dropped,
    }
}

/// The states that a bucket gathers, for a storage filter.
pub fn bucket_states(b: StatusBucket) -> (r: Vec<BlockState>)
    ensures
        forall|s: BlockState| r@.contains(s) <==> bucket_of_spec(s) == b,
{
    let r = match b {
        StatusBucket::Pending => vec![BlockState::Pending, BlockState::Indexing, BlockState::Confirmed],
        StatusBucket::Finalized => vec![BlockState::Finalized],
        StatusBucket::Dropped => vec![BlockState::Dropped],
    };
    assert forall|s: BlockState| r@.contains(s) <==> bucket_of_spec(s) == b by {
        if bucket_of_spec(s) == b {
            match s {
                BlockState::Pending => assert(r@[0] == s),
                BlockState::Indexing => assert(r@[1] == s),
                BlockState::Confirmed => assert(r@[2] == s),
                BlockState::Finalized => assert(r@[0] == s),
                BlockState::Dropped => assert(r@[0] == s),
            }
        }
    }
    r
}

/// Extrinsic listings show only settled operations.
pub fn is_listed_state(s: BlockState) -> (r: bool)
    ensures
        r == (s == BlockState::Finalized || s == BlockState::Dropped),
{
    match s {
        BlockState::Finalized | BlockState::Dropped => true,
        _ => false,
    }
}

} // verus!
