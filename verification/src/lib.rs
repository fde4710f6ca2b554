//! A single-endpoint order-totalling service, verified.
//!
//! The service receives an order, asks an external rate-lookup service for
//! the sales-tax rate of the order's shipping zip code, and answers with the
//! order augmented by a computed total.  This crate holds everything the
//! service decides: routing by method and path, translation of decoder
//! failures into human-readable messages, interpretation of the rate
//! service's reply, and the fixed-header response builder.  The surrounding
//! binary only moves bytes: it listens, reads bodies, performs the outbound
//! call and the floating-point arithmetic, and renders whatever response
//! this library hands it.

pub mod decode;
pub mod order;
pub mod response;
pub mod router;
pub mod strutil;
pub mod tax;

pub use decode::decode_failure_response;
pub use decode::error_envelope;
pub use decode::sanitize_error_text;
pub use order::Order;
pub use response::Header;
pub use response::HttpResponse;
pub use response::not_found_response;
pub use response::plain_response;
pub use response::response_build;
pub use router::Route;
pub use router::RouteAction;
pub use router::dispatch;
pub use router::route_of;
pub use strutil::str_eq;
pub use tax::RateReply;
pub use tax::RateStep;
pub use tax::TotalOutcome;
pub use tax::finish_compute;
pub use tax::internal_error_response;
pub use tax::interpret_rate_reply;
pub use tax::rate_failure_response;
