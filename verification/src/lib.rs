//! A unified in-app purchase abstraction layer.
//!
//! One platform-agnostic purchase API is presented to the application while
//! the actual purchase work is done by a native store backend on mobile
//! targets, or refused outright on targets without a store. The library
//! defines the shared data model, the closed error taxonomy with its
//! mapping from native status codes, the dispatcher that routes each
//! operation to the configured backend, the reference semantics that every
//! store backend must satisfy, and the validation of asynchronous purchase
//! update events.

mod decimal;
mod dispatch;
mod ingest;
mod models;
mod query;
mod store;
mod taxonomy;

pub use decimal::i32_to_decimal;
pub use decimal::u64_to_decimal;
pub use dispatch::BackendConfig;
pub use dispatch::Dispatcher;
pub use dispatch::NativeCall;
pub use dispatch::accept_query_response;
pub use dispatch::resolve_auto_consume;
pub use ingest::accept_error_event;
pub use ingest::accept_purchase_update;
pub use ingest::ingest_purchase_updates;
pub use models::IAPError;
pub use models::ProductDetails;
pub use models::ProductDetailsResponse;
pub use models::PurchaseDetails;
pub use models::PurchaseParam;
pub use models::PurchaseStatus;
pub use models::PurchaseVerificationData;
pub use query::partition_query;
pub use store::PendingFlow;
pub use store::PurchaseRecord;
pub use store::StoreModel;
pub use taxonomy::Error;
pub use taxonomy::ItemNotOwned;
