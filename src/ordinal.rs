//! The inscription payload of a token-protocol operation.

use vstd::prelude::*;
use crate::entities::{ContractType, ExtrinsicOperation};

verus! {

#[derive(Clone, Debug, Default)]
pub struct Ordinal {
    pub protocol: ContractType,
    pub tick: String,
    pub name: Option<String>,
    pub operation: ExtrinsicOperation,
    pub operand: Option<SingleOrBatch>,
    pub max_supply: Option<String>,
    pub mint_limit: Option<String>,
    pub uri: Option<String>,
    pub not_before: Option<String>,
    pub period: Option<String>,
    pub expires_at: Option<String>,
    pub a: Option<A>,
    pub proof: Option<Proof>,
}

impl Ordinal {
    /// A payload for `operation` on the token `tick`, with nothing else set.
    pub fn builder(protocol: ContractType, tick: String, operation: ExtrinsicOperation) -> (r: Ordinal)
        ensures
            r.protocol == protocol,
            r.tick == tick,
            r.operation == operation,
            r.name is None,
            r.operand is None,
            r.max_supply is None,
            r.mint_limit is None,
    {
        Ordinal {
            protocol,
            tick,
            name: None,
            operation,
            operand: None,
            max_supply: None,
            mint_limit: None,
            uri: None,
            not_before: None,
            period: None,
            expires_at: None,
            a: None,
            proof: None,
        }
    }
}

#[derive(Clone, Debug, Default)]
pub struct Operand {
    pub id: Option<String>,
    pub amount: Option<String>,
    pub to: Option<String>,
}

/// One operand, or a batch of them.
#[derive(Clone, Debug)]
pub enum SingleOrBatch {
    Batch(Vec<Operand>),
    Single(Operand),
}

/// A pair of byte strings, hex-encoded on the wire.
#[derive(Clone, Debug, Default)]
pub struct A(pub Vec<u8>, pub Vec<u8>);

/// A proof as byte strings, hex-encoded on the wire.
#[derive(Clone, Debug)]
pub struct Proof(pub [Vec<u8>; 2], pub [[Vec<u8>; 2]; 2], pub [Vec<u8>; 2]);

} // verus!
