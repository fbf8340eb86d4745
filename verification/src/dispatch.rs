//! The backend selector and dispatcher: one of two configurations is chosen
//! at process start and never changes. Under the native configuration each
//! operation is routed to the native store as a string-keyed invocation;
//! under the unsupported configuration every operation fails at once with
//! the distinguished platform error and no native call is ever produced.

use vstd::prelude::*;
use vstd::string::StringExecFns;

use crate::models::ProductDetailsResponse;
use crate::models::PurchaseDetails;
use crate::models::PurchaseParam;
use crate::taxonomy::Error;

verus! {

/// The backend configuration fixed at process start.
#[derive(Clone, Copy, Debug, PartialEq, Eq, Structural)]
pub enum BackendConfig {
    /// A real platform billing service backs the abstraction.
    Native,
    /// No store backend exists on this platform.
    Unsupported,
}

/// One invocation of the native backend, as routed by the dispatcher: the
/// operation together with its payload.
pub enum NativeCall {
    /// Prepare the backend's connection to its store service.
    Initialize,
    /// Probe whether a billing connection is usable.
    IsAvailable,
    /// Look up catalog entries for the given identifiers.
    QueryProductDetails { product_ids: Vec<String> },
    /// Start a one-time purchase flow.
    BuyNonConsumable { param: PurchaseParam },
    /// Start a repeatable purchase flow.
    BuyConsumable { param: PurchaseParam, auto_consume: bool },
    /// Acknowledge a transaction to the store.
    CompletePurchase { purchase: PurchaseDetails },
    /// Re-deliver prior entitlements for the store account.
    RestorePurchases { application_user_name: Option<String> },
    /// Read the storefront's region code.
    CountryCode,
}

/// The string key under which the native backend exposes each operation.
pub open spec fn spec_invocation_name(c: NativeCall) -> Seq<char> {
    match c {
        NativeCall::Initialize => "initialize"@,
        NativeCall::IsAvailable => "is_available"@,
        NativeCall::QueryProductDetails { .. } => "query_product_details"@,
        NativeCall::BuyNonConsumable { .. } => "buy_non_consumable"@,
        NativeCall::BuyConsumable { .. } => "buy_consumable"@,
        NativeCall::CompletePurchase { .. } => "complete_purchase"@,
        NativeCall::RestorePurchases { .. } => "restore_purchases"@,
        NativeCall::CountryCode => "country_code"@,
    }
}

impl NativeCall {
    /// The string key under which the native backend exposes this
    /// operation.
    pub fn invocation_name(&self) -> (r: String)
        ensures
            r@ == spec_invocation_name(*self),
    {
        let key: &str = match self {
            NativeCall::Initialize => "initialize",
            NativeCall::IsAvailable => "is_available",
            NativeCall::QueryProductDetails { .. } => "query_product_details",
            NativeCall::BuyNonConsumable { .. } => "buy_non_consumable",
            NativeCall::BuyConsumable { .. } => "buy_consumable",
            NativeCall::CompletePurchase { .. } => "complete_purchase",
            NativeCall::RestorePurchases { .. } => "restore_purchases",
            NativeCall::CountryCode => "country_code",
        };
        key.to_owned()
    }
}

/// The automatic-consumption choice after an application left it unstated:
/// no automatic consumption.
pub open spec fn spec_auto_consume_or_default(choice: Option<bool>) -> bool {
    match choice {
        Some(b) => b,
        None => false,
    }
}

/// Resolves the application's optional automatic-consumption flag for a
/// consumable purchase. The default is explicit and fixed: a caller that
/// states no choice gets no automatic consumption.
pub fn resolve_auto_consume(choice: Option<bool>) -> (r: bool)
    ensures
        r == spec_auto_consume_or_default(choice),
{
    match choice {
        Some(b) => b,
        None => false,
    }
}

/// Routes every purchase operation to the configured backend. The
/// configuration is chosen once, at construction, and the dispatcher is
/// read-only afterwards.
pub struct Dispatcher {
    /// The configuration fixed at construction.
    pub config: BackendConfig,
}

impl Dispatcher {
    /// Builds a dispatcher over the given backend configuration.
    pub fn new(config: BackendConfig) -> (r: Dispatcher)
        ensures
            r.config == config,
    {
        Dispatcher { config }
    }

    /// Routes one operation: under the unsupported configuration the
    /// distinguished platform error comes back at once and no native call
    /// is produced; under the native configuration the call goes through
    /// unchanged.
    pub fn route(&self, call: NativeCall) -> (r: Result<NativeCall, Error>)
        ensures
            self.config is Unsupported ==> r == Err::<NativeCall, Error>(
                Error::PlatformNotSupported,
            ),
            self.config is Native ==> r == Ok::<NativeCall, Error>(call),
    {
        match self.config {
            BackendConfig::Unsupported => Err(Error::PlatformNotSupported),
            BackendConfig::Native => Ok(call),
        }
    }

    /// Prepare the backend's connection to its store service.
    pub fn initialize(&self) -> (r: Result<NativeCall, Error>)
        ensures
            self.config is Unsupported ==> r == Err::<NativeCall, Error>(
                Error::PlatformNotSupported,
            ),
            self.config is Native ==> r == Ok::<NativeCall, Error>(NativeCall::Initialize),
    {
        self.route(NativeCall::Initialize)
    }

    /// Probe whether a billing connection is usable.
    pub fn is_available(&self) -> (r: Result<NativeCall, Error>)
        ensures
            self.config is Unsupported ==> r == Err::<NativeCall, Error>(
                Error::PlatformNotSupported,
            ),
            self.config is Native ==> r == Ok::<NativeCall, Error>(NativeCall::IsAvailable),
    {
        self.route(NativeCall::IsAvailable)
    }

    /// Look up catalog entries for the given identifiers.
    pub fn query_product_details(&self, product_ids: Vec<String>) -> (r: Result<
        NativeCall,
        Error,
    >)
        ensures
            self.config is Unsupported ==> r == Err::<NativeCall, Error>(
                Error::PlatformNotSupported,
            ),
            self.config is Native ==> r == Ok::<NativeCall, Error>(
                NativeCall::QueryProductDetails { product_ids },
            ),
    {
        self.route(NativeCall::QueryProductDetails { product_ids })
    }

    /// Start a one-time purchase flow.
    pub fn buy_non_consumable(&self, param: PurchaseParam) -> (r: Result<NativeCall, Error>)
        ensures
            self.config is Unsupported ==> r == Err::<NativeCall, Error>(
                Error::PlatformNotSupported,
            ),
            self.config is Native ==> r == Ok::<NativeCall, Error>(
                NativeCall::BuyNonConsumable { param },
            ),
    {
        self.route(NativeCall::BuyNonConsumable { param })
    }

    /// Start a repeatable purchase flow. Whether the entitlement is consumed
    /// at once is an explicit choice of the caller; an application that
    /// leaves it unstated goes through [`resolve_auto_consume`] first.
    pub fn buy_consumable(&self, param: PurchaseParam, auto_consume: bool) -> (r: Result<
        NativeCall,
        Error,
    >)
        ensures
            self.config is Unsupported ==> r == Err::<NativeCall, Error>(
                Error::PlatformNotSupported,
            ),
            self.config is Native ==> r == Ok::<NativeCall, Error>(
                NativeCall::BuyConsumable { param, auto_consume },
            ),
    {
        self.route(NativeCall::BuyConsumable { param, auto_consume })
    }

    /// Acknowledge a transaction to the store.
    pub fn complete_purchase(&self, purchase: PurchaseDetails) -> (r: Result<NativeCall, Error>)
        ensures
            self.config is Unsupported ==> r == Err::<NativeCall, Error>(
                Error::PlatformNotSupported,
            ),
            self.config is Native ==> r == Ok::<NativeCall, Error>(
                NativeCall::CompletePurchase { purchase },
            ),
    {
        self.route(NativeCall::CompletePurchase { purchase })
    }

    /// Re-deliver prior entitlements for the store account.
    pub fn restore_purchases(&self, application_user_name: Option<String>) -> (r: Result<
        NativeCall,
        Error,
    >)
        ensures
            self.config is Unsupported ==> r == Err::<NativeCall, Error>(
                Error::PlatformNotSupported,
            ),
            self.config is Native ==> r == Ok::<NativeCall, Error>(
                NativeCall::RestorePurchases { application_user_name },
            ),
    {
        self.route(NativeCall::RestorePurchases { application_user_name })
    }

    /// Read the storefront's region code.
    pub fn country_code(&self) -> (r: Result<NativeCall, Error>)
        ensures
            self.config is Unsupported ==> r == Err::<NativeCall, Error>(
                Error::PlatformNotSupported,
            ),
            self.config is Native ==> r == Ok::<NativeCall, Error>(NativeCall::CountryCode),
    {
        self.route(NativeCall::CountryCode)
    }
}

/// Admits a decoded catalog-query response into the data model: a response
/// that satisfies the model invariant passes through unchanged; any other
/// decodes to a query error, exactly as a transport-level failure of the
/// whole request would.
pub fn accept_query_response(response: ProductDetailsResponse) -> (r: Result<
    ProductDetailsResponse,
    Error,
>)
    ensures
        response@.wf() ==> r == Ok::<ProductDetailsResponse, Error>(response),
        !response@.wf() ==> (r matches Err(e) && e matches Error::ProductQueryError(m) && m@
            == "malformed product details response"@),
{
    if response.well_formed() {
        Ok(response)
    } else {
        Err(Error::ProductQueryError(String::from_str("malformed product details response")))
    }
}

} // verus!
