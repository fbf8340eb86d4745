//! The error taxonomy: the closed set of error kinds surfaced by every
//! operation of the abstraction layer, the mapping table from native
//! status codes, and the rendering of each kind as a wire error payload.

use vstd::prelude::*;
use vstd::string::StringExecFns;

use crate::decimal::decimal_of_int;
use crate::decimal::i32_to_decimal;
use crate::models::IAPError;

verus! {

/// A normalized failure of a purchase operation. The set of kinds is closed:
/// every native failure lands on exactly one of them.
#[derive(Debug)]
pub enum Error {
    /// Local input/output failure around a billing operation.
    Io(String),
    /// The transport to the native backend failed.
    TransportError(String),
    /// The running platform has no store backend at all.
    PlatformNotSupported,
    /// The billing client could not be initialized.
    BillingClientInitError(String),
    /// A catalog query failed as a whole.
    ProductQueryError(String),
    /// A purchase flow failed.
    PurchaseError(String),
    /// A consumable entitlement could not be consumed.
    ConsumptionError(String),
    /// Restoring prior purchases failed.
    RestoreError(String),
    /// A purchase token or receipt was rejected.
    InvalidPurchaseToken(String),
    /// A network failure during a billing operation.
    NetworkError(String),
    /// The user cancelled the purchase flow.
    UserCancelled,
    /// The item is already owned by the store account.
    ItemAlreadyOwned,
    /// The item is not owned by the store account.
    ItemNotOwned(String),
    /// The billing service connection was lost.
    ServiceDisconnected,
    /// The native store lacks the requested capability.
    FeatureNotSupported(String),
    /// Any other native failure, carried with its raw code.
    InternalError(String),
}

/// Whether a string names an entry of the error taxonomy.
pub open spec fn is_taxonomy_key(s: Seq<char>) -> bool {
    ||| s == "Io"@
    ||| s == "TransportError"@
    ||| s == "PlatformNotSupported"@
    ||| s == "BillingClientInitError"@
    ||| s == "ProductQueryError"@
    ||| s == "PurchaseError"@
    ||| s == "ConsumptionError"@
    ||| s == "RestoreError"@
    ||| s == "InvalidPurchaseToken"@
    ||| s == "NetworkError"@
    ||| s == "UserCancelled"@
    ||| s == "ItemAlreadyOwned"@
    ||| s == "ItemNotOwned"@
    ||| s == "ServiceDisconnected"@
    ||| s == "FeatureNotSupported"@
    ||| s == "InternalError"@
}

/// Decides whether a string names an entry of the error taxonomy.
pub fn taxonomy_has_key(code: &String) -> (r: bool)
    ensures
        r == is_taxonomy_key(code@),
{
    crate::models::string_eq_lit(code, "Io")
        || crate::models::string_eq_lit(code, "TransportError")
        || crate::models::string_eq_lit(code, "PlatformNotSupported")
        || crate::models::string_eq_lit(code, "BillingClientInitError")
        || crate::models::string_eq_lit(code, "ProductQueryError")
        || crate::models::string_eq_lit(code, "PurchaseError")
        || crate::models::string_eq_lit(code, "ConsumptionError")
        || crate::models::string_eq_lit(code, "RestoreError")
        || crate::models::string_eq_lit(code, "InvalidPurchaseToken")
        || crate::models::string_eq_lit(code, "NetworkError")
        || crate::models::string_eq_lit(code, "UserCancelled")
        || crate::models::string_eq_lit(code, "ItemAlreadyOwned")
        || crate::models::string_eq_lit(code, "ItemNotOwned")
        || crate::models::string_eq_lit(code, "ServiceDisconnected")
        || crate::models::string_eq_lit(code, "FeatureNotSupported")
        || crate::models::string_eq_lit(code, "InternalError")
}

/// The taxonomy key of an error kind.
pub open spec fn spec_code(e: Error) -> Seq<char> {
    match e {
        Error::Io(_) => "Io"@,
        Error::TransportError(_) => "TransportError"@,
        Error::PlatformNotSupported => "PlatformNotSupported"@,
        Error::BillingClientInitError(_) => "BillingClientInitError"@,
        Error::ProductQueryError(_) => "ProductQueryError"@,
        Error::PurchaseError(_) => "PurchaseError"@,
        Error::ConsumptionError(_) => "ConsumptionError"@,
        Error::RestoreError(_) => "RestoreError"@,
        Error::InvalidPurchaseToken(_) => "InvalidPurchaseToken"@,
        Error::NetworkError(_) => "NetworkError"@,
        Error::UserCancelled => "UserCancelled"@,
        Error::ItemAlreadyOwned => "ItemAlreadyOwned"@,
        Error::ItemNotOwned(_) => "ItemNotOwned"@,
        Error::ServiceDisconnected => "ServiceDisconnected"@,
        Error::FeatureNotSupported(_) => "FeatureNotSupported"@,
        Error::InternalError(_) => "InternalError"@,
    }
}

/// The human-readable message of an error kind.
pub open spec fn spec_message(e: Error) -> Seq<char> {
    match e {
        Error::Io(m) => m@,
        Error::TransportError(m) => m@,
        Error::PlatformNotSupported => "In-app purchases are not supported on this platform"@,
        Error::BillingClientInitError(m) => "Failed to initialize billing client: "@ + m@,
        Error::ProductQueryError(m) => "Product details query failed: "@ + m@,
        Error::PurchaseError(m) => "Purchase flow failed: "@ + m@,
        Error::ConsumptionError(m) => "Failed to consume purchase: "@ + m@,
        Error::RestoreError(m) => "Purchase restoration failed: "@ + m@,
        Error::InvalidPurchaseToken(m) => "Invalid purchase token or receipt: "@ + m@,
        Error::NetworkError(m) => "Network error during billing operation: "@ + m@,
        Error::UserCancelled => "User cancelled the purchase"@,
        Error::ItemAlreadyOwned => "Item already owned"@,
        Error::ItemNotOwned(m) => "Item not owned: "@ + m@,
        Error::ServiceDisconnected => "Service disconnected"@,
        Error::FeatureNotSupported(m) => "Feature not supported: "@ + m@,
        Error::InternalError(m) => "Internal billing error: "@ + m@,
    }
}

/// The message carried in an optional native message, or the given default.
pub open spec fn message_or(m: Option<String>, d: Seq<char>) -> Seq<char> {
    match m {
        Some(s) => s@,
        None => d,
    }
}

/// The payload of an unmapped native status code: the raw code rendered in
/// decimal, followed by the native message where one came. The code itself
/// is present in every case.
pub open spec fn unmapped_message(code: int, message: Option<String>) -> Seq<char> {
    match message {
        Some(s) => "Unknown error code: "@ + decimal_of_int(code) + ": "@ + s@,
        None => "Unknown error code: "@ + decimal_of_int(code),
    }
}

/// Returns the carried message, or the given default.
fn unwrap_or_lit(m: Option<String>, d: &str) -> (r: String)
    ensures
        r@ == message_or(m, d@),
{
    match m {
        Some(s) => s,
        None => d.to_owned(),
    }
}

impl Error {
    /// The taxonomy key of this error.
    pub fn code(&self) -> (r: String)
        ensures
            r@ == spec_code(*self),
    {
        let key: &str = match self {
            Error::Io(_) => "Io",
            Error::TransportError(_) => "TransportError",
            Error::PlatformNotSupported => "PlatformNotSupported",
            Error::BillingClientInitError(_) => "BillingClientInitError",
            Error::ProductQueryError(_) => "ProductQueryError",
            Error::PurchaseError(_) => "PurchaseError",
            Error::ConsumptionError(_) => "ConsumptionError",
            Error::RestoreError(_) => "RestoreError",
            Error::InvalidPurchaseToken(_) => "InvalidPurchaseToken",
            Error::NetworkError(_) => "NetworkError",
            Error::UserCancelled => "UserCancelled",
            Error::ItemAlreadyOwned => "ItemAlreadyOwned",
            Error::ItemNotOwned(_) => "ItemNotOwned",
            Error::ServiceDisconnected => "ServiceDisconnected",
            Error::FeatureNotSupported(_) => "FeatureNotSupported",
            Error::InternalError(_) => "InternalError",
        };
        key.to_owned()
    }

    /// The human-readable message of this error.
    pub fn message(&self) -> (r: String)
        ensures
            r@ == spec_message(*self),
    {
        match self {
            Error::Io(m) => m.clone(),
            Error::TransportError(m) => m.clone(),
            Error::PlatformNotSupported => {
                String::from_str("In-app purchases are not supported on this platform")
            },
            Error::BillingClientInitError(m) => {
                String::from_str("Failed to initialize billing client: ").concat(m.as_str())
            },
            Error::ProductQueryError(m) => {
                String::from_str("Product details query failed: ").concat(m.as_str())
            },
            Error::PurchaseError(m) => {
                String::from_str("Purchase flow failed: ").concat(m.as_str())
            },
            Error::ConsumptionError(m) => {
                String::from_str("Failed to consume purchase: ").concat(m.as_str())
            },
            Error::RestoreError(m) => {
                String::from_str("Purchase restoration failed: ").concat(m.as_str())
            },
            Error::InvalidPurchaseToken(m) => {
                String::from_str("Invalid purchase token or receipt: ").concat(m.as_str())
            },
            Error::NetworkError(m) => {
                String::from_str("Network error during billing operation: ").concat(m.as_str())
            },
            Error::UserCancelled => String::from_str("User cancelled the purchase"),
            Error::ItemAlreadyOwned => String::from_str("Item already owned"),
            Error::ItemNotOwned(m) => {
                String::from_str("Item not owned: ").concat(m.as_str())
            },
            Error::ServiceDisconnected => String::from_str("Service disconnected"),
            Error::FeatureNotSupported(m) => {
                String::from_str("Feature not supported: ").concat(m.as_str())
            },
            Error::InternalError(m) => {
                String::from_str("Internal billing error: ").concat(m.as_str())
            },
        }
    }

    /// Renders this error as a wire error payload. The payload is well
    /// formed: its code is always a taxonomy key.
    pub fn to_iap_error(&self) -> (r: IAPError)
        ensures
            r@.code == spec_code(*self),
            r@.message == spec_message(*self),
            r@.details is None,
            r@.wf(),
    {
        IAPError { code: self.code(), message: self.message(), details: None }
    }

    /// Translates a native status code into the taxonomy.
    ///
    /// Every code has a defined mapping; a code outside the known table maps
    /// to an internal error whose message carries the raw code, so that the
    /// mapping never fails and never loses the original code.
    pub fn from_response_code(code: i32, message: Option<String>) -> (r: Error)
        ensures
            code == 1 ==> r is UserCancelled,
            code == 2 ==> r is ServiceDisconnected,
            code == 3 ==> (r matches Error::BillingClientInitError(m)
                && m@ == message_or(message, "Billing unavailable"@)),
            code == 4 ==> r is ItemAlreadyOwned,
            code == 5 ==> (r matches Error::ItemNotOwned(m)
                && m@ == message_or(message, "Item not owned"@)),
            code == 6 ==> (r matches Error::NetworkError(m)
                && m@ == message_or(message, "Network error"@)),
            code == 7 ==> (r matches Error::FeatureNotSupported(m)
                && m@ == message_or(message, "Feature not supported"@)),
            !(1 <= code <= 7) ==> (r matches Error::InternalError(m)
                && m@ == unmapped_message(code as int, message)),
    {
        match code {
            1 => Error::UserCancelled,
            2 => Error::ServiceDisconnected,
            3 => Error::BillingClientInitError(unwrap_or_lit(message, "Billing unavailable")),
            4 => Error::ItemAlreadyOwned,
            5 => Error::ItemNotOwned(unwrap_or_lit(message, "Item not owned")),
            6 => Error::NetworkError(unwrap_or_lit(message, "Network error")),
            7 => Error::FeatureNotSupported(unwrap_or_lit(message, "Feature not supported")),
            _ => {
                let rendered = String::from_str("Unknown error code: ").concat(
                    i32_to_decimal(code).as_str(),
                );
                let m = match message {
                    Some(s) => rendered.concat(": ").concat(s.as_str()),
                    None => rendered,
                };
                Error::InternalError(m)
            },
        }
    }
}

/// Every error of the taxonomy renders a code that the taxonomy itself
/// recognizes: a wire error payload built from a normalized error always
/// satisfies the data-model invariant on error payloads.
pub proof fn lemma_code_is_taxonomy_key(e: Error)
    ensures
        is_taxonomy_key(spec_code(e)),
{
}

/// The failure payload of an item that is not owned, as reported on its own
/// by a native backend.
#[derive(Debug)]
pub struct ItemNotOwned(pub String);

impl ItemNotOwned {
    /// The human-readable message of this payload.
    pub fn message(&self) -> (r: String)
        ensures
            r@ == "Item not owned: "@ + self.0@,
    {
        String::from_str("Item not owned: ").concat(self.0.as_str())
    }
}

} // verus!
