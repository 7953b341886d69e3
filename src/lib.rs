//! Read-model layer of a token-indexing API: exact wide integers for amounts,
//! identifier allocation, and the composition of stored rows into response
//! objects.
//!
//! - `uint256`: unsigned integers with exact arithmetic, radix parsing and
//!   formatting, and fixed 32-byte encodings.
//! - `amount`: display scaling of raw amounts.
//! - `id`: 64-bit identifiers stamped with a machine identifier.
//! - `entities`, `rows`, `v1`: enumerations, stored rows and responses.
//! - `managers`: rendering rows into responses once their parents resolve.
//! - `holders`: ranking a contract's holders.
//! - `handlers`: request checks and decisions of the endpoints.
//! - `pagination`, `setting`, `status`, `ordinal`, `prefix`: paging, settings,
//!   envelopes, inscription payloads and flattened key names.

pub mod entities;
pub mod uint256;
pub mod amount;
pub mod id;
pub mod rows;
pub mod v1;
pub mod managers;
pub mod holders;
pub mod pagination;
pub mod setting;
pub mod status;
pub mod ordinal;
pub mod prefix;
pub mod handlers;
