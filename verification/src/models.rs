//! The shared data model: the value types exchanged across the purchase
//! abstraction boundary, their mathematical views, and the well-formedness
//! invariants that every value crossing the boundary must satisfy.

use vstd::prelude::*;

verus! {

/// The views of a sequence of strings.
pub open spec fn string_views(s: Seq<String>) -> Seq<Seq<char>> {
    s.map_values(|x: String| x@)
}

/// The view of an optional string.
pub open spec fn option_view(o: Option<String>) -> Option<Seq<char>> {
    match o {
        Some(s) => Some(s@),
        None => None,
    }
}

/// The views of a sequence of transaction records.
pub open spec fn purchase_views(s: Seq<PurchaseDetails>) -> Seq<PurchaseDetailsView> {
    s.map_values(|p: PurchaseDetails| p@)
}

/// The views of a sequence of catalog items.
pub open spec fn product_views(s: Seq<ProductDetails>) -> Seq<ProductDetailsView> {
    s.map_values(|p: ProductDetails| p@)
}

/// An ASCII upper-case letter.
pub open spec fn is_upper_ascii(c: char) -> bool {
    'A' <= c && c <= 'Z'
}

/// The shape of an ISO 4217 currency code: exactly three upper-case ASCII
/// letters.
pub open spec fn is_currency_code(s: Seq<char>) -> bool {
    s.len() == 3 && (forall|i: int| 0 <= i < s.len() ==> is_upper_ascii(#[trigger] s[i]))
}

/// Decides whether a string has the shape of an ISO 4217 currency code.
pub fn check_currency_code(s: &str) -> (r: bool)
    ensures
        r == is_currency_code(s@),
{
    let mut it = s.chars();
    let c0 = it.next();
    let c1 = it.next();
    let c2 = it.next();
    let c3 = it.next();
    match (c0, c1, c2, c3) {
        (Some(a), Some(b), Some(c), None) => {
            proof {
                assert(s@.len() == 3);
                assert(s@[0] == a && s@[1] == b && s@[2] == c);
            }
            ('A' <= a && a <= 'Z') && ('A' <= b && b <= 'Z') && ('A' <= c && c <= 'Z')
        },
        _ => false,
    }
}

/// Decides whether a string equals a given literal, at the level of views.
pub(crate) fn string_eq_lit(s: &String, lit: &str) -> (r: bool)
    ensures
        r == (s@ == lit@),
{
    let other: String = lit.to_owned();
    *s == other
}

/// Decides whether some element of a vector of strings has the given view.
pub fn vec_contains_string(v: &Vec<String>, s: &String) -> (r: bool)
    ensures
        r == (exists|j: int| #![auto] 0 <= j < v@.len() && v@[j]@ == s@),
{
    let mut i: usize = 0;
    while i < v.len()
        invariant
            i <= v@.len(),
            forall|j: int| #![auto] 0 <= j < i ==> v@[j]@ != s@,
        decreases v@.len() - i,
    {
        if v[i] == *s {
            return true;
        }
        i += 1;
    }
    false
}

/// A store-catalog item. The raw numeric price is carried in millionths of a
/// currency unit, so it is non-negative by construction.
pub struct ProductDetails {
    /// Unique identifier of the product.
    pub id: String,
    /// Localized title of the product.
    pub title: String,
    /// Localized description of the product.
    pub description: String,
    /// Localized price of the product, formatted with its currency symbol.
    pub price: String,
    /// Raw numerical value of the price, in millionths of a currency unit.
    pub raw_price_micros: u64,
    /// ISO 4217 currency code, such as "USD".
    pub currency_code: String,
    /// Currency symbol, such as "$".
    pub currency_symbol: String,
}

/// The mathematical view of a [`ProductDetails`] value.
pub ghost struct ProductDetailsView {
    pub id: Seq<char>,
    pub title: Seq<char>,
    pub description: Seq<char>,
    pub price: Seq<char>,
    pub raw_price_micros: nat,
    pub currency_code: Seq<char>,
    pub currency_symbol: Seq<char>,
}

impl View for ProductDetails {
    type V = ProductDetailsView;

    open spec fn view(&self) -> ProductDetailsView {
        ProductDetailsView {
            id: self.id@,
            title: self.title@,
            description: self.description@,
            price: self.price@,
            raw_price_micros: self.raw_price_micros as nat,
            currency_code: self.currency_code@,
            currency_symbol: self.currency_symbol@,
        }
    }
}

impl ProductDetailsView {
    /// The invariant of a catalog item: a non-empty identifier and a
    /// currency code of ISO 4217 shape. The raw price is non-negative by
    /// its type.
    pub open spec fn wf(&self) -> bool {
        self.id.len() > 0 && is_currency_code(self.currency_code)
    }
}

impl Clone for ProductDetails {
    fn clone(&self) -> (r: Self)
        ensures
            r == *self,
    {
        ProductDetails {
            id: self.id.clone(),
            title: self.title.clone(),
            description: self.description.clone(),
            price: self.price.clone(),
            raw_price_micros: self.raw_price_micros,
            currency_code: self.currency_code.clone(),
            currency_symbol: self.currency_symbol.clone(),
        }
    }
}

impl ProductDetails {
    /// Decides the catalog-item invariant.
    pub fn well_formed(&self) -> (r: bool)
        ensures
            r == self@.wf(),
    {
        !self.id.as_str().is_empty() && check_currency_code(self.currency_code.as_str())
    }
}

/// Evidence needed for server-side receipt validation. Both blobs are opaque
/// to this layer and are never parsed here.
pub struct PurchaseVerificationData {
    /// Platform-specific local verification data.
    pub local_verification_data: String,
    /// Platform-specific server verification data.
    pub server_verification_data: String,
    /// Source platform: "apple" or "google".
    pub source: String,
}

/// The mathematical view of a [`PurchaseVerificationData`] value.
pub ghost struct PurchaseVerificationDataView {
    pub local_verification_data: Seq<char>,
    pub server_verification_data: Seq<char>,
    pub source: Seq<char>,
}

impl View for PurchaseVerificationData {
    type V = PurchaseVerificationDataView;

    open spec fn view(&self) -> PurchaseVerificationDataView {
        PurchaseVerificationDataView {
            local_verification_data: self.local_verification_data@,
            server_verification_data: self.server_verification_data@,
            source: self.source@,
        }
    }
}

impl PurchaseVerificationDataView {
    /// The invariant: the source platform tag is one of the two store
    /// platforms.
    pub open spec fn wf(&self) -> bool {
        self.source == "apple"@ || self.source == "google"@
    }
}

impl Clone for PurchaseVerificationData {
    fn clone(&self) -> (r: Self)
        ensures
            r == *self,
    {
        PurchaseVerificationData {
            local_verification_data: self.local_verification_data.clone(),
            server_verification_data: self.server_verification_data.clone(),
            source: self.source.clone(),
        }
    }
}

impl PurchaseVerificationData {
    /// Decides the verification-data invariant.
    pub fn well_formed(&self) -> (r: bool)
        ensures
            r == self@.wf(),
    {
        string_eq_lit(&self.source, "apple") || string_eq_lit(&self.source, "google")
    }
}

/// Lifecycle stage of a purchase transaction.
#[derive(Clone, Copy, Debug, PartialEq, Eq, Structural)]
pub enum PurchaseStatus {
    /// Purchase is in progress.
    Pending,
    /// Purchase completed successfully.
    Purchased,
    /// Purchase encountered an error.
    Error,
    /// Purchase was restored from the store.
    Restored,
    /// Purchase was canceled by the user.
    Canceled,
}

impl PurchaseStatus {
    /// Whether the stage is terminal: every stage except a purchase still in
    /// progress.
    pub open spec fn spec_is_terminal(&self) -> bool {
        !(self is Pending)
    }

    /// Decides whether the stage is terminal.
    pub fn is_terminal(&self) -> (r: bool)
        ensures
            r == self.spec_is_terminal(),
    {
        match self {
            PurchaseStatus::Pending => false,
            _ => true,
        }
    }
}

/// A normalized failure payload, as surfaced to the application and as
/// received from a native backend.
pub struct IAPError {
    /// Error code: a key of the error taxonomy.
    pub code: String,
    /// Human-readable error message.
    pub message: String,
    /// Additional structured details, carried as opaque text.
    pub details: Option<String>,
}

/// The mathematical view of an [`IAPError`] value.
pub ghost struct IAPErrorView {
    pub code: Seq<char>,
    pub message: Seq<char>,
    pub details: Option<Seq<char>>,
}

impl View for IAPError {
    type V = IAPErrorView;

    open spec fn view(&self) -> IAPErrorView {
        IAPErrorView {
            code: self.code@,
            message: self.message@,
            details: match self.details {
                Some(d) => Some(d@),
                None => None,
            },
        }
    }
}

impl IAPErrorView {
    /// The invariant: the code names an entry of the error taxonomy.
    pub open spec fn wf(&self) -> bool {
        crate::taxonomy::is_taxonomy_key(self.code)
    }
}

impl Clone for IAPError {
    fn clone(&self) -> (r: Self)
        ensures
            r == *self,
    {
        IAPError {
            code: self.code.clone(),
            message: self.message.clone(),
            details: match &self.details {
                Some(d) => Some(d.clone()),
                None => None,
            },
        }
    }
}

impl IAPError {
    /// Decides the error-payload invariant.
    pub fn well_formed(&self) -> (r: bool)
        ensures
            r == self@.wf(),
    {
        crate::taxonomy::taxonomy_has_key(&self.code)
    }
}

/// A single transaction record.
pub struct PurchaseDetails {
    /// Unique identifier of the purchase, where the store assigned one.
    pub purchase_id: Option<String>,
    /// Identifier of the purchased product.
    pub product_id: String,
    /// Verification data for server-side validation.
    pub verification_data: PurchaseVerificationData,
    /// ISO datetime text of the transaction, where known.
    pub transaction_date: Option<String>,
    /// Current status of the purchase.
    pub status: PurchaseStatus,
    /// Error information, present whenever the status reports an error.
    pub error: Option<IAPError>,
    /// Whether the purchase still needs to be completed.
    pub pending_complete_purchase: bool,
}

/// The mathematical view of a [`PurchaseDetails`] value.
pub ghost struct PurchaseDetailsView {
    pub purchase_id: Option<Seq<char>>,
    pub product_id: Seq<char>,
    pub verification_data: PurchaseVerificationDataView,
    pub transaction_date: Option<Seq<char>>,
    pub status: PurchaseStatus,
    pub error: Option<IAPErrorView>,
    pub pending_complete_purchase: bool,
}

impl View for PurchaseDetails {
    type V = PurchaseDetailsView;

    open spec fn view(&self) -> PurchaseDetailsView {
        PurchaseDetailsView {
            purchase_id: option_view(self.purchase_id),
            product_id: self.product_id@,
            verification_data: self.verification_data@,
            transaction_date: option_view(self.transaction_date),
            status: self.status,
            error: match self.error {
                Some(e) => Some(e@),
                None => None,
            },
            pending_complete_purchase: self.pending_complete_purchase,
        }
    }
}

impl PurchaseDetailsView {
    /// The invariant of a transaction record: an error status carries an
    /// error payload; completion can only be pending for a purchased or
    /// restored transaction; the nested values are themselves well formed.
    pub open spec fn wf(&self) -> bool {
        &&& (self.status is Error ==> self.error is Some)
        &&& (self.pending_complete_purchase ==> (self.status is Purchased
            || self.status is Restored))
        &&& self.verification_data.wf()
        &&& match self.error {
            Some(e) => e.wf(),
            None => true,
        }
    }
}

impl Clone for PurchaseDetails {
    fn clone(&self) -> (r: Self)
        ensures
            r == *self,
    {
        PurchaseDetails {
            purchase_id: match &self.purchase_id {
                Some(p) => Some(p.clone()),
                None => None,
            },
            product_id: self.product_id.clone(),
            verification_data: self.verification_data.clone(),
            transaction_date: match &self.transaction_date {
                Some(d) => Some(d.clone()),
                None => None,
            },
            status: self.status,
            error: match &self.error {
                Some(e) => Some(e.clone()),
                None => None,
            },
            pending_complete_purchase: self.pending_complete_purchase,
        }
    }
}

impl PurchaseDetails {
    /// Decides the transaction-record invariant.
    pub fn well_formed(&self) -> (r: bool)
        ensures
            r == self@.wf(),
    {
        let status_ok = match self.status {
            PurchaseStatus::Error => match &self.error {
                Some(_) => true,
                None => false,
            },
            _ => true,
        };
        let pending_ok = if self.pending_complete_purchase {
            match self.status {
                PurchaseStatus::Purchased => true,
                PurchaseStatus::Restored => true,
                _ => false,
            }
        } else {
            true
        };
        let error_ok = match &self.error {
            Some(e) => e.well_formed(),
            None => true,
        };
        status_ok && pending_ok && self.verification_data.well_formed() && error_ok
    }
}

/// Input to initiate a purchase.
pub struct PurchaseParam {
    /// Product details of the item to purchase.
    pub product_details: ProductDetails,
    /// Application-scoped user identifier, where the application has one.
    pub application_user_name: Option<String>,
}

/// The mathematical view of a [`PurchaseParam`] value.
pub ghost struct PurchaseParamView {
    pub product_details: ProductDetailsView,
    pub application_user_name: Option<Seq<char>>,
}

impl View for PurchaseParam {
    type V = PurchaseParamView;

    open spec fn view(&self) -> PurchaseParamView {
        PurchaseParamView {
            product_details: self.product_details@,
            application_user_name: match self.application_user_name {
                Some(u) => Some(u@),
                None => None,
            },
        }
    }
}

impl PurchaseParamView {
    /// The invariant: the item to purchase is itself a well-formed catalog
    /// item. Whether its identifier names a known product is decided by the
    /// backend at purchase time.
    pub open spec fn wf(&self) -> bool {
        self.product_details.wf()
    }
}

impl Clone for PurchaseParam {
    fn clone(&self) -> (r: Self)
        ensures
            r == *self,
    {
        PurchaseParam {
            product_details: self.product_details.clone(),
            application_user_name: match &self.application_user_name {
                Some(u) => Some(u.clone()),
                None => None,
            },
        }
    }
}

impl PurchaseParam {
    /// Decides the purchase-parameter invariant.
    pub fn well_formed(&self) -> (r: bool)
        ensures
            r == self@.wf(),
    {
        self.product_details.well_formed()
    }
}

/// Result of a catalog query: the found products, the requested identifiers
/// that are missing, and an optional partial-failure error.
pub struct ProductDetailsResponse {
    /// Catalog entries found for the requested identifiers.
    pub product_details: Vec<ProductDetails>,
    /// Requested identifiers with no catalog entry.
    pub not_found_ids: Vec<String>,
    /// Error information, where the query partially failed.
    pub error: Option<IAPError>,
}

/// The mathematical view of a [`ProductDetailsResponse`] value.
pub ghost struct ProductDetailsResponseView {
    pub product_details: Seq<ProductDetailsView>,
    pub not_found_ids: Seq<Seq<char>>,
    pub error: Option<IAPErrorView>,
}

impl View for ProductDetailsResponse {
    type V = ProductDetailsResponseView;

    open spec fn view(&self) -> ProductDetailsResponseView {
        ProductDetailsResponseView {
            product_details: product_views(self.product_details@),
            not_found_ids: string_views(self.not_found_ids@),
            error: match self.error {
                Some(e) => Some(e@),
                None => None,
            },
        }
    }
}

impl ProductDetailsResponseView {
    /// The identifiers of the found products, in response order.
    pub open spec fn found_ids(&self) -> Seq<Seq<char>> {
        self.product_details.map_values(|p: ProductDetailsView| p.id)
    }

    /// The invariant of a catalog-query result: no identifier is reported
    /// both as found and as missing, every found product is well formed, and
    /// a partial-failure error, where present, is well formed.
    pub open spec fn wf(&self) -> bool {
        &&& (forall|i: int, j: int|
            0 <= i < self.product_details.len() && 0 <= j < self.not_found_ids.len()
                ==> #[trigger] self.product_details[i].id != #[trigger] self.not_found_ids[j])
        &&& (forall|i: int|
            0 <= i < self.product_details.len() ==> (#[trigger] self.product_details[i]).wf())
        &&& match self.error {
            Some(e) => e.wf(),
            None => true,
        }
    }
}

impl ProductDetailsResponse {
    /// Decides the catalog-query-result invariant.
    pub fn well_formed(&self) -> (r: bool)
        ensures
            r == self@.wf(),
    {
        let mut i: usize = 0;
        while i < self.product_details.len()
            invariant
                i <= self.product_details.len(),
                forall|k: int| 0 <= k < i ==> (#[trigger] self@.product_details[k]).wf(),
                forall|k: int, l: int|
                    0 <= k < i && 0 <= l < self@.not_found_ids.len()
                        ==> #[trigger] self@.product_details[k].id
                            != #[trigger] self@.not_found_ids[l],
            decreases self.product_details.len() - i,
        {
            if !self.product_details[i].well_formed() {
                proof {
                    assert(self@.product_details[i as int] == self.product_details@[i as int]@);
                }
                return false;
            }
            if vec_contains_string(&self.not_found_ids, &self.product_details[i].id) {
                proof {
                    let j = choose|j: int|
                        0 <= j < self.not_found_ids@.len() && #[trigger] self.not_found_ids@[j]@
                            == self.product_details@[i as int].id@;
                    assert(self@.not_found_ids[j] == self.not_found_ids@[j]@);
                    assert(self@.product_details[i as int].id
                        == self.product_details@[i as int]@.id);
                }
                return false;
            }
            i += 1;
        }
        match &self.error {
            Some(e) => e.well_formed(),
            None => true,
        }
    }
}

} // verus!
