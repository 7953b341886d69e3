use eos420::pagination::{PaginationRequest, PaginationResponse};
use eos420::prefix::{starts_with, WithPrefix, WithPrefixOption};
use eos420::setting::{CoreSetting, DatabaseSetting, Setting};
use eos420::status::{ErrorResponse, StatusResponse};

#[test]
fn page_size_defaults_and_caps() {
    let r: PaginationRequest<u8> = PaginationRequest::builder(0);
    assert_eq!(r.size(), 10);
    assert_eq!(r.page(), 0);
    let r = r.with_size(500).with_page(3);
    assert_eq!(r.size(), 100);
    assert_eq!(r.page(), 3);
    assert_eq!(r.offset(), Some(300));
    let big: PaginationRequest<u8> = PaginationRequest::builder(0).with_size(50).with_page(u64::MAX);
    assert_eq!(big.offset(), None);
}

#[test]
fn paged_response_metadata() {
    let req: PaginationRequest<u8> = PaginationRequest::builder(1).with_size(5).with_page(2);
    let mut resp: PaginationResponse<u8, u32> = PaginationResponse::builder();
    resp.append(9);
    let resp = resp.with_request(req, 42);
    assert_eq!((resp.size, resp.page, resp.total, resp.query), (5, 2, 42, Some(1)));
    assert_eq!(resp.data, vec![9]);
}

#[test]
fn setting_defaults() {
    let s = Setting::default();
    assert_eq!(s.core_setting().log(), "info");
    assert_eq!(s.core_setting().workers(), 2);
    assert_eq!(s.core_setting().blocking_threads(), 512);
    assert_eq!(s.core_setting().machine_id(), 0xFFFF);
    assert_eq!(s.core_setting().bind().api(), "0.0.0.0:8080");
    assert_eq!(s.database().uri(), DatabaseSetting::default().uri());
    let mut c = CoreSetting::default();
    c.machine_id = Some(3);
    assert_eq!(c.machine_id(), 3);
}

#[test]
fn error_and_status_envelopes() {
    let e = ErrorResponse::not_found().with_error_description("no such block");
    assert_eq!(e.error, "not_found");
    assert_eq!(e.error_description.as_deref(), Some("no such block"));
    let s = StatusResponse::builder(1, 2, 3);
    assert_eq!((s.pending, s.finalized, s.dropped), (1, 2, 3));
}

#[test]
fn prefixed_keys() {
    let p = WithPrefix { prefix: "block_".to_string(), ignored_prefixes: vec!["chain_".to_string()] };
    assert_eq!(p.serialize_key("number"), "block_number");
    assert_eq!(p.serialize_key("chain_id"), "chain_id");
    assert_eq!(p.deserialize_key("block_hash"), Some("hash".to_string()));
    assert_eq!(p.deserialize_key("chain_id"), Some("chain_id".to_string()));
    assert_eq!(p.deserialize_key("index"), None);
    let o = WithPrefixOption { prefix: "tx_".to_string(), ignored_prefixes: vec![] };
    assert_eq!(o.first_key("tx_hash"), Some("hash".to_string()));
    assert_eq!(o.first_key("ab"), None);
    assert!(starts_with("block_number", "block_"));
    assert!(!starts_with("blo", "block_"));
}
