//! Reference semantics of a store backend: an executable model of the
//! catalog, the purchase flows in flight and the transaction records of the
//! store account. Every native backend is expected to behave like this
//! model; the laws proved here — idempotent completion, automatic
//! consumption leaving nothing pending, restoration of an empty account
//! delivering nothing — are the backend contract made precise.

use vstd::prelude::*;
use vstd::string::StringExecFns;

use crate::models::ProductDetails;
use crate::models::ProductDetailsResponse;
use crate::models::ProductDetailsView;
use crate::models::PurchaseDetails;
use crate::models::PurchaseDetailsView;
use crate::models::PurchaseParam;
use crate::models::PurchaseStatus;
use crate::models::PurchaseVerificationData;
use crate::models::PurchaseVerificationDataView;
use crate::models::option_view;
use crate::models::product_views;
use crate::models::purchase_views;
use crate::models::string_views;
use crate::query::catalog_has;
use crate::query::catalog_products_wf;
use crate::query::found_id_list;
use crate::query::found_product_list;
use crate::query::missing_id_list;
use crate::query::partition_query;
use crate::taxonomy::Error;

verus! {

/// A purchase flow that was launched and has not yet been settled by the
/// store.
pub struct PendingFlow {
    /// Identifier of the product being bought.
    pub product_id: String,
    /// Whether the flow buys a consumable product.
    pub consumable: bool,
    /// Whether the entitlement is to be consumed at once on success.
    pub auto_consume: bool,
}

/// The mathematical view of a [`PendingFlow`] value.
pub ghost struct PendingFlowView {
    pub product_id: Seq<char>,
    pub consumable: bool,
    pub auto_consume: bool,
}

impl View for PendingFlow {
    type V = PendingFlowView;

    open spec fn view(&self) -> PendingFlowView {
        PendingFlowView {
            product_id: self.product_id@,
            consumable: self.consumable,
            auto_consume: self.auto_consume,
        }
    }
}

/// A settled transaction of the store account.
pub struct PurchaseRecord {
    /// Identifier the store assigned to the transaction.
    pub purchase_id: String,
    /// Identifier of the purchased product.
    pub product_id: String,
    /// Verification data issued with the transaction.
    pub verification_data: PurchaseVerificationData,
    /// ISO datetime text of the transaction, where known.
    pub transaction_date: Option<String>,
    /// Status of the transaction: purchased or restored.
    pub status: PurchaseStatus,
    /// Whether the transaction still awaits acknowledgment.
    pub pending_complete_purchase: bool,
    /// Whether the entitlement has been consumed.
    pub consumed: bool,
}

/// The mathematical view of a [`PurchaseRecord`] value.
pub ghost struct PurchaseRecordView {
    pub purchase_id: Seq<char>,
    pub product_id: Seq<char>,
    pub verification_data: PurchaseVerificationDataView,
    pub transaction_date: Option<Seq<char>>,
    pub status: PurchaseStatus,
    pub pending_complete_purchase: bool,
    pub consumed: bool,
}

impl View for PurchaseRecord {
    type V = PurchaseRecordView;

    open spec fn view(&self) -> PurchaseRecordView {
        PurchaseRecordView {
            purchase_id: self.purchase_id@,
            product_id: self.product_id@,
            verification_data: self.verification_data@,
            transaction_date: option_view(self.transaction_date),
            status: self.status,
            pending_complete_purchase: self.pending_complete_purchase,
            consumed: self.consumed,
        }
    }
}

impl Clone for PurchaseRecord {
    fn clone(&self) -> (r: Self)
        ensures
            r == *self,
    {
        PurchaseRecord {
            purchase_id: self.purchase_id.clone(),
            product_id: self.product_id.clone(),
            verification_data: self.verification_data.clone(),
            transaction_date: self.transaction_date.clone(),
            status: self.status,
            pending_complete_purchase: self.pending_complete_purchase,
            consumed: self.consumed,
        }
    }
}

impl PurchaseRecordView {
    /// The invariant of a settled transaction: only purchased or restored
    /// transactions are recorded, a transaction awaiting acknowledgment has
    /// not been consumed, and its verification data is well formed.
    pub open spec fn wf(&self) -> bool {
        &&& (self.status is Purchased || self.status is Restored)
        &&& (self.pending_complete_purchase ==> !self.consumed)
        &&& self.verification_data.wf()
    }
}

/// The views of a sequence of pending flows.
pub open spec fn flow_views(s: Seq<PendingFlow>) -> Seq<PendingFlowView> {
    s.map_values(|f: PendingFlow| f@)
}

/// The views of a sequence of purchase records.
pub open spec fn record_views(s: Seq<PurchaseRecord>) -> Seq<PurchaseRecordView> {
    s.map_values(|r: PurchaseRecord| r@)
}

/// Whether the account holds a record of the given transaction.
pub open spec fn has_record(rs: Seq<PurchaseRecordView>, pid: Seq<char>) -> bool {
    exists|i: int| 0 <= i < rs.len() && (#[trigger] rs[i]).purchase_id == pid
}

/// One record after an acknowledgment of the given transaction: matching
/// records are no longer pending, everything else is untouched.
pub open spec fn acknowledge(r: PurchaseRecordView, pid: Seq<char>) -> PurchaseRecordView {
    if r.purchase_id == pid {
        PurchaseRecordView { pending_complete_purchase: false, ..r }
    } else {
        r
    }
}

/// The account's records after an acknowledgment of the given transaction.
pub open spec fn complete_records(rs: Seq<PurchaseRecordView>, pid: Seq<char>) -> Seq<
    PurchaseRecordView,
> {
    rs.map_values(|r: PurchaseRecordView| acknowledge(r, pid))
}

/// Whether a record is a currently owned entitlement.
pub open spec fn record_is_owned(r: PurchaseRecordView) -> bool {
    (r.status is Purchased || r.status is Restored) && !r.consumed
}

/// Whether the account currently owns an entitlement to the given product.
pub open spec fn owns_product(rs: Seq<PurchaseRecordView>, product_id: Seq<char>) -> bool {
    exists|i: int|
        0 <= i < rs.len() && record_is_owned(#[trigger] rs[i]) && rs[i].product_id == product_id
}

/// The records still awaiting acknowledgment.
pub open spec fn pending_records(rs: Seq<PurchaseRecordView>) -> Seq<PurchaseRecordView> {
    rs.filter(|r: PurchaseRecordView| r.pending_complete_purchase)
}

/// The record created when the store settles the oldest flow in flight.
pub open spec fn settled_record(
    f: PendingFlowView,
    pid: Seq<char>,
    vd: PurchaseVerificationDataView,
    date: Option<Seq<char>>,
) -> PurchaseRecordView {
    PurchaseRecordView {
        purchase_id: pid,
        product_id: f.product_id,
        verification_data: vd,
        transaction_date: date,
        status: PurchaseStatus::Purchased,
        pending_complete_purchase: !(f.consumable && f.auto_consume),
        consumed: f.consumable && f.auto_consume,
    }
}

/// The update event announcing a record with the given status.
pub open spec fn purchase_event_of(r: PurchaseRecordView, status: PurchaseStatus)
    -> PurchaseDetailsView {
    PurchaseDetailsView {
        purchase_id: Some(r.purchase_id),
        product_id: r.product_id,
        verification_data: r.verification_data,
        transaction_date: r.transaction_date,
        status: status,
        error: None,
        pending_complete_purchase: r.pending_complete_purchase,
    }
}

/// The update events delivered by a restoration: one restored-status event
/// for each owned entitlement, in record order.
pub open spec fn restore_events(rs: Seq<PurchaseRecordView>) -> Seq<PurchaseDetailsView> {
    rs.filter(|r: PurchaseRecordView| record_is_owned(r)).map_values(
        |r: PurchaseRecordView| purchase_event_of(r, PurchaseStatus::Restored),
    )
}

/// The state of the store model: the catalog, the storefront region, the
/// flows in flight and the settled records of the account.
pub struct StoreModel {
    /// The store catalog.
    pub catalog: Vec<ProductDetails>,
    /// The storefront's region code.
    pub country: String,
    /// Whether the billing connection has been established.
    pub initialized: bool,
    /// Purchase flows launched and not yet settled, oldest first.
    pub in_flight: Vec<PendingFlow>,
    /// Settled transactions of the store account.
    pub records: Vec<PurchaseRecord>,
}

/// The mathematical view of a [`StoreModel`] value.
pub ghost struct StoreModelView {
    pub catalog: Seq<ProductDetailsView>,
    pub country: Seq<char>,
    pub initialized: bool,
    pub in_flight: Seq<PendingFlowView>,
    pub records: Seq<PurchaseRecordView>,
}

impl View for StoreModel {
    type V = StoreModelView;

    open spec fn view(&self) -> StoreModelView {
        StoreModelView {
            catalog: product_views(self.catalog@),
            country: self.country@,
            initialized: self.initialized,
            in_flight: flow_views(self.in_flight@),
            records: record_views(self.records@),
        }
    }
}

impl StoreModelView {
    /// The invariant of the store model: catalog identifiers are unique and
    /// every catalog item is well formed; transaction identifiers are
    /// unique and every record is well formed.
    pub open spec fn wf(&self) -> bool {
        &&& (forall|i: int, j: int|
            0 <= i < j < self.catalog.len() ==> (#[trigger] self.catalog[i]).id
                != (#[trigger] self.catalog[j]).id)
        &&& (forall|i: int| 0 <= i < self.catalog.len() ==> (#[trigger] self.catalog[i]).wf())
        &&& (forall|i: int, j: int|
            0 <= i < j < self.records.len() ==> (#[trigger] self.records[i]).purchase_id
                != (#[trigger] self.records[j]).purchase_id)
        &&& (forall|i: int| 0 <= i < self.records.len() ==> (#[trigger] self.records[i]).wf())
    }
}

/// Decides whether the catalog holds a product with the given identifier.
fn catalog_contains(catalog: &Vec<ProductDetails>, id: &String) -> (r: bool)
    ensures
        r == catalog_has(product_views(catalog@), id@),
{
    let mut k: usize = 0;
    while k < catalog.len()
        invariant
            k <= catalog@.len(),
            forall|j: int| 0 <= j < k ==> (#[trigger] product_views(catalog@)[j]).id != id@,
        decreases catalog@.len() - k,
    {
        if catalog[k].id == *id {
            proof {
                assert((product_views(catalog@)[k as int]).id == id@);
            }
            return true;
        }
        k += 1;
    }
    false
}

/// Decides whether the account holds a record of the given transaction.
fn record_exists(records: &Vec<PurchaseRecord>, pid: &String) -> (r: bool)
    ensures
        r == has_record(record_views(records@), pid@),
{
    let mut k: usize = 0;
    while k < records.len()
        invariant
            k <= records@.len(),
            forall|j: int|
                0 <= j < k ==> (#[trigger] record_views(records@)[j]).purchase_id != pid@,
        decreases records@.len() - k,
    {
        if records[k].purchase_id == *pid {
            proof {
                assert((record_views(records@)[k as int]).purchase_id == pid@);
            }
            return true;
        }
        k += 1;
    }
    false
}

/// Decides whether the account currently owns an entitlement to the given
/// product.
fn owns_product_exec(records: &Vec<PurchaseRecord>, product_id: &String) -> (r: bool)
    ensures
        r == owns_product(record_views(records@), product_id@),
{
    let mut k: usize = 0;
    while k < records.len()
        invariant
            k <= records@.len(),
            forall|j: int|
                0 <= j < k ==> !(record_is_owned(#[trigger] record_views(records@)[j])
                    && record_views(records@)[j].product_id == product_id@),
        decreases records@.len() - k,
    {
        let rec = &records[k];
        let owned = match rec.status {
            PurchaseStatus::Purchased => !rec.consumed,
            PurchaseStatus::Restored => !rec.consumed,
            _ => false,
        };
        if owned && rec.product_id == *product_id {
            proof {
                assert(record_is_owned(record_views(records@)[k as int]));
                assert((record_views(records@)[k as int]).product_id == product_id@);
            }
            return true;
        }
        k += 1;
    }
    false
}

impl StoreModel {
    /// Builds a store over the given catalog and storefront region, with no
    /// flow in flight and no settled transaction.
    pub fn new(catalog: Vec<ProductDetails>, country: String) -> (r: StoreModel)
        ensures
            r@.catalog == product_views(catalog@),
            r@.country == country@,
            !r@.initialized,
            r@.in_flight == Seq::<PendingFlowView>::empty(),
            r@.records == Seq::<PurchaseRecordView>::empty(),
    {
        let r = StoreModel {
            catalog,
            country,
            initialized: false,
            in_flight: Vec::new(),
            records: Vec::new(),
        };
        proof {
            assert(r@.in_flight =~= Seq::<PendingFlowView>::empty());
            assert(r@.records =~= Seq::<PurchaseRecordView>::empty());
        }
        r
    }

    /// Establishes the billing connection. Repeating the call is harmless:
    /// the resulting state does not depend on how often it succeeded.
    pub fn initialize(&mut self) -> (r: Result<(), Error>)
        ensures
            r == Ok::<(), Error>(()),
            final(self)@ == (StoreModelView { initialized: true, ..old(self)@ }),
    {
        self.initialized = true;
        Ok(())
    }

    /// A billing connection is always usable on the model store.
    pub fn is_available(&self) -> (r: Result<bool, Error>)
        ensures
            r == Ok::<bool, Error>(true),
    {
        Ok(true)
    }

    /// Answers a catalog query: the requested identifiers are partitioned
    /// into found products and missing identifiers; missing identifiers are
    /// never an error.
    pub fn query_product_details(&self, product_ids: &Vec<String>) -> (r: Result<
        ProductDetailsResponse,
        Error,
    >)
        ensures
            r matches Ok(resp) && resp@.product_details == found_product_list(
                string_views(product_ids@),
                self@.catalog,
            ) && resp@.found_ids() == found_id_list(string_views(product_ids@), self@.catalog)
                && resp@.not_found_ids == missing_id_list(string_views(product_ids@), self@.catalog)
                && resp@.error is None,
            self@.wf() ==> (r matches Ok(resp) && resp@.wf()),
    {
        let response = partition_query(product_ids, &self.catalog);
        proof {
            if self@.wf() {
                assert(catalog_products_wf(self@.catalog));
            }
        }
        Ok(response)
    }

    /// Launches a one-time purchase flow: the product must be in the
    /// catalog and must not already be owned; on success the flow joins the
    /// queue awaiting settlement by the store.
    pub fn buy_non_consumable(&mut self, param: &PurchaseParam) -> (r: Result<bool, Error>)
        ensures
            !catalog_has(old(self)@.catalog, param@.product_details.id) ==> ((r matches Err(e)
                && e matches Error::PurchaseError(m) && m@ == "unknown product: "@
                + param@.product_details.id) && final(self)@ == old(self)@),
            catalog_has(old(self)@.catalog, param@.product_details.id) && owns_product(
                old(self)@.records,
                param@.product_details.id,
            ) ==> (r == Err::<bool, Error>(Error::ItemAlreadyOwned) && final(self)@ == old(self)@),
            catalog_has(old(self)@.catalog, param@.product_details.id) && !owns_product(
                old(self)@.records,
                param@.product_details.id,
            ) ==> (r == Ok::<bool, Error>(true) && final(self)@ == (StoreModelView {
                in_flight: old(self)@.in_flight.push(
                    PendingFlowView {
                        product_id: param@.product_details.id,
                        consumable: false,
                        auto_consume: false,
                    },
                ),
                ..old(self)@
            })),
    {
        let id = &param.product_details.id;
        if !catalog_contains(&self.catalog, id) {
            return Err(Error::PurchaseError(
                String::from_str("unknown product: ").concat(id.as_str()),
            ));
        }
        if owns_product_exec(&self.records, id) {
            return Err(Error::ItemAlreadyOwned);
        }
        self.in_flight.push(
            PendingFlow { product_id: id.clone(), consumable: false, auto_consume: false },
        );
        proof {
            assert(flow_views(self.in_flight@) =~= flow_views(old(self).in_flight@).push(
                PendingFlowView {
                    product_id: param@.product_details.id,
                    consumable: false,
                    auto_consume: false,
                },
            ));
        }
        Ok(true)
    }

    /// Launches a repeatable purchase flow: the product must be in the
    /// catalog; whether the entitlement is consumed at once on success is
    /// the caller's explicit choice.
    pub fn buy_consumable(&mut self, param: &PurchaseParam, auto_consume: bool) -> (r: Result<
        bool,
        Error,
    >)
        ensures
            !catalog_has(old(self)@.catalog, param@.product_details.id) ==> ((r matches Err(e)
                && e matches Error::PurchaseError(m) && m@ == "unknown product: "@
                + param@.product_details.id) && final(self)@ == old(self)@),
            catalog_has(old(self)@.catalog, param@.product_details.id) ==> (r == Ok::<bool, Error>(
                true,
            ) && final(self)@ == (StoreModelView {
                in_flight: old(self)@.in_flight.push(
                    PendingFlowView {
                        product_id: param@.product_details.id,
                        consumable: true,
                        auto_consume: auto_consume,
                    },
                ),
                ..old(self)@
            })),
    {
        let id = &param.product_details.id;
        if !catalog_contains(&self.catalog, id) {
            return Err(Error::PurchaseError(
                String::from_str("unknown product: ").concat(id.as_str()),
            ));
        }
        self.in_flight.push(
            PendingFlow { product_id: id.clone(), consumable: true, auto_consume },
        );
        proof {
            assert(flow_views(self.in_flight@) =~= flow_views(old(self).in_flight@).push(
                PendingFlowView {
                    product_id: param@.product_details.id,
                    consumable: true,
                    auto_consume: auto_consume,
                },
            ));
        }
        Ok(true)
    }

    /// Settles the oldest flow in flight under a fresh transaction
    /// identifier, records the transaction, and returns the asynchronous
    /// update event announcing it. A flow that asked for automatic
    /// consumption is recorded already consumed and acknowledged, so
    /// nothing further awaits completion.
    pub fn settle_purchase(
        &mut self,
        purchase_id: String,
        verification_data: PurchaseVerificationData,
        transaction_date: Option<String>,
    ) -> (r: Result<PurchaseDetails, Error>)
        ensures
            old(self)@.in_flight.len() == 0 ==> ((r matches Err(e) && e
                matches Error::InternalError(m) && m@ == "no purchase flow in flight"@)
                && final(self)@ == old(self)@),
            old(self)@.in_flight.len() > 0 && has_record(old(self)@.records, purchase_id@) ==> ((
            r matches Err(e) && e matches Error::InvalidPurchaseToken(m) && m@ == purchase_id@)
                && final(self)@ == old(self)@),
            old(self)@.in_flight.len() > 0 && !has_record(old(self)@.records, purchase_id@)
                && !verification_data@.wf() ==> ((r matches Err(e) && e
                matches Error::PurchaseError(m) && m@ == "malformed verification data"@)
                && final(self)@ == old(self)@),
            old(self)@.in_flight.len() > 0 && !has_record(old(self)@.records, purchase_id@)
                && verification_data@.wf() ==> ({
                let rec = settled_record(
                    old(self)@.in_flight[0],
                    purchase_id@,
                    verification_data@,
                    option_view(transaction_date),
                );
                &&& final(self)@ == (StoreModelView {
                    in_flight: old(self)@.in_flight.drop_first(),
                    records: old(self)@.records.push(rec),
                    ..old(self)@
                })
                &&& (r matches Ok(ev) && ev@ == purchase_event_of(rec, PurchaseStatus::Purchased))
                &&& (old(self)@.wf() ==> final(self)@.wf())
            }),
    {
        if self.in_flight.len() == 0 {
            return Err(Error::InternalError(String::from_str("no purchase flow in flight")));
        }
        if record_exists(&self.records, &purchase_id) {
            return Err(Error::InvalidPurchaseToken(purchase_id));
        }
        if !verification_data.well_formed() {
            return Err(Error::PurchaseError(String::from_str("malformed verification data")));
        }
        let flow = self.in_flight.remove(0);
        let auto = flow.consumable && flow.auto_consume;
        let record = PurchaseRecord {
            purchase_id: purchase_id.clone(),
            product_id: flow.product_id,
            verification_data: verification_data.clone(),
            transaction_date: transaction_date.clone(),
            status: PurchaseStatus::Purchased,
            pending_complete_purchase: !auto,
            consumed: auto,
        };
        let event = PurchaseDetails {
            purchase_id: Some(purchase_id),
            product_id: record.product_id.clone(),
            verification_data,
            transaction_date,
            status: PurchaseStatus::Purchased,
            error: None,
            pending_complete_purchase: !auto,
        };
        self.records.push(record);
        proof {
            let rec = settled_record(
                old(self)@.in_flight[0],
                purchase_id@,
                verification_data@,
                option_view(transaction_date),
            );
            assert(flow_views(self.in_flight@) =~= flow_views(old(self).in_flight@).drop_first());
            assert(record_views(self.records@) =~= record_views(old(self).records@).push(rec));
            if old(self)@.wf() {
                assert forall|i: int, j: int|
                    0 <= i < j < self@.records.len() implies (#[trigger] self@.records[i]).purchase_id
                        != (#[trigger] self@.records[j]).purchase_id by {
                    if j == self@.records.len() - 1 {
                        assert(!has_record(old(self)@.records, purchase_id@));
                        assert(old(self)@.records[i].purchase_id != purchase_id@);
                    }
                }
            }
        }
        Ok(event)
    }

    /// Acknowledges a transaction to the store. Acknowledgment is
    /// idempotent: once a transaction has been completed, completing it
    /// again succeeds and changes nothing.
    pub fn complete_purchase(&mut self, purchase: &PurchaseDetails) -> (r: Result<(), Error>)
        ensures
            match purchase@.purchase_id {
                None => (r matches Err(e) && e matches Error::InvalidPurchaseToken(m) && m@
                    == "missing purchase id"@) && final(self)@ == old(self)@,
                Some(pid) => if has_record(old(self)@.records, pid) {
                    &&& r == Ok::<(), Error>(())
                    &&& final(self)@ == (StoreModelView {
                        records: complete_records(old(self)@.records, pid),
                        ..old(self)@
                    })
                    &&& (old(self)@.wf() ==> final(self)@.wf())
                } else {
                    (r matches Err(e) && e matches Error::InvalidPurchaseToken(m) && m@ == pid)
                        && final(self)@ == old(self)@
                },
            },
    {
        let pid = match &purchase.purchase_id {
            Some(p) => p,
            None => {
                return Err(Error::InvalidPurchaseToken(String::from_str("missing purchase id")));
            },
        };
        if !record_exists(&self.records, pid) {
            return Err(Error::InvalidPurchaseToken(pid.clone()));
        }
        let ghost rs = record_views(self.records@);
        let mut updated: Vec<PurchaseRecord> = Vec::new();
        let mut k: usize = 0;
        proof {
            assert(rs.take(0) =~= Seq::<PurchaseRecordView>::empty());
            assert(record_views(updated@) =~= complete_records(rs.take(0), pid@));
        }
        while k < self.records.len()
            invariant
                k <= self.records@.len(),
                rs == record_views(self.records@),
                record_views(updated@) == complete_records(rs.take(k as int), pid@),
            decreases self.records@.len() - k,
        {
            let rec = &self.records[k];
            let upd = if rec.purchase_id == *pid {
                PurchaseRecord {
                    purchase_id: rec.purchase_id.clone(),
                    product_id: rec.product_id.clone(),
                    verification_data: rec.verification_data.clone(),
                    transaction_date: rec.transaction_date.clone(),
                    status: rec.status,
                    pending_complete_purchase: false,
                    consumed: rec.consumed,
                }
            } else {
                rec.clone()
            };
            proof {
                assert(upd@ == acknowledge(rs[k as int], pid@));
            }
            updated.push(upd);
            proof {
                assert(record_views(updated@) =~= complete_records(rs.take(k as int), pid@).push(
                    acknowledge(rs[k as int], pid@),
                ));
                assert(complete_records(rs.take(k + 1), pid@) =~= complete_records(
                    rs.take(k as int),
                    pid@,
                ).push(acknowledge(rs[k as int], pid@)));
            }
            k += 1;
        }
        proof {
            assert(rs.take(self.records@.len() as int) =~= rs);
        }
        self.records = updated;
        proof {
            assert(record_views(self.records@) =~= complete_records(
                record_views(old(self).records@),
                pid@,
            ));
            if old(self)@.wf() {
                assert forall|i: int| 0 <= i < self@.records.len() implies (
                #[trigger] self@.records[i]).wf() by {
                    assert(self@.records[i] == acknowledge(old(self)@.records[i], pid@));
                    assert(old(self)@.records[i].wf());
                }
            }
        }
        Ok(())
    }

    /// Restores the account's entitlements: one restored-status update
    /// event is delivered for each owned entitlement, in record order, and
    /// none when the account owns nothing. Restoration itself always
    /// succeeds and changes no state.
    pub fn restore_purchases(&self, application_user_name: Option<String>) -> (r: Result<
        Vec<PurchaseDetails>,
        Error,
    >)
        ensures
            r matches Ok(events) && purchase_views(events@) == restore_events(self@.records),
    {
        let _ = application_user_name;
        let ghost rs = record_views(self.records@);
        let mut events: Vec<PurchaseDetails> = Vec::new();
        let mut k: usize = 0;
        proof {
            reveal(Seq::filter);
            assert(rs.take(0) =~= Seq::<PurchaseRecordView>::empty());
            assert(purchase_views(events@) =~= restore_events(rs.take(0)));
        }
        while k < self.records.len()
            invariant
                k <= self.records@.len(),
                rs == record_views(self.records@),
                purchase_views(events@) == restore_events(rs.take(k as int)),
            decreases self.records@.len() - k,
        {
            proof {
                reveal(Seq::filter);
                assert(rs.take(k + 1).drop_last() =~= rs.take(k as int));
                assert(rs.take(k + 1).last() == rs[k as int]);
            }
            let rec = &self.records[k];
            let owned = match rec.status {
                PurchaseStatus::Purchased => !rec.consumed,
                PurchaseStatus::Restored => !rec.consumed,
                _ => false,
            };
            if owned {
                events.push(
                    PurchaseDetails {
                        purchase_id: Some(rec.purchase_id.clone()),
                        product_id: rec.product_id.clone(),
                        verification_data: rec.verification_data.clone(),
                        transaction_date: rec.transaction_date.clone(),
                        status: PurchaseStatus::Restored,
                        error: None,
                        pending_complete_purchase: rec.pending_complete_purchase,
                    },
                );
                proof {
                    assert(purchase_views(events@) =~= restore_events(rs.take(k as int)).push(
                        purchase_event_of(rs[k as int], PurchaseStatus::Restored),
                    ));
                    assert(restore_events(rs.take(k + 1)) =~= restore_events(
                        rs.take(k as int),
                    ).push(purchase_event_of(rs[k as int], PurchaseStatus::Restored)));
                }
            } else {
                proof {
                    assert(restore_events(rs.take(k + 1)) =~= restore_events(rs.take(k as int)));
                }
            }
            k += 1;
        }
        proof {
            assert(rs.take(self.records@.len() as int) =~= rs);
        }
        Ok(events)
    }

    /// Reads the storefront's region code.
    pub fn country_code(&self) -> (r: Result<String, Error>)
        ensures
            r matches Ok(c) && c@ == self@.country,
    {
        Ok(self.country.clone())
    }
}

/// Law: acknowledgment is idempotent. Completing a transaction a second
/// time finds the record still there and leaves every record exactly as the
/// first completion left it.
pub proof fn lemma_complete_purchase_idempotent(rs: Seq<PurchaseRecordView>, pid: Seq<char>)
    ensures
        complete_records(complete_records(rs, pid), pid) == complete_records(rs, pid),
        has_record(complete_records(rs, pid), pid) == has_record(rs, pid),
{
    assert(complete_records(complete_records(rs, pid), pid) =~= complete_records(rs, pid));
    if has_record(rs, pid) {
        let i = choose|i: int| 0 <= i < rs.len() && (#[trigger] rs[i]).purchase_id == pid;
        assert(complete_records(rs, pid)[i].purchase_id == pid);
    }
    if has_record(complete_records(rs, pid), pid) {
        let i = choose|i: int|
            0 <= i < complete_records(rs, pid).len() && (#[trigger] complete_records(rs, pid)[i])
                .purchase_id == pid;
        assert(rs[i].purchase_id == pid);
    }
}

/// Law: a settled flow that asked for automatic consumption awaits no
/// completion, and settling it leaves the set of records awaiting
/// acknowledgment exactly as it was.
pub proof fn lemma_auto_consume_leaves_no_pending(
    rs: Seq<PurchaseRecordView>,
    f: PendingFlowView,
    pid: Seq<char>,
    vd: PurchaseVerificationDataView,
    date: Option<Seq<char>>,
)
    requires
        f.consumable,
        f.auto_consume,
    ensures
        !settled_record(f, pid, vd, date).pending_complete_purchase,
        pending_records(rs.push(settled_record(f, pid, vd, date))) == pending_records(rs),
{
    reveal(Seq::filter);
    let rec = settled_record(f, pid, vd, date);
    assert(rs.push(rec).drop_last() =~= rs);
    assert(rs.push(rec).last() == rec);
}

/// Law: restoring an account with no purchase records delivers no update
/// events.
pub proof fn lemma_restore_empty(rs: Seq<PurchaseRecordView>)
    requires
        rs.len() == 0,
    ensures
        restore_events(rs).len() == 0,
{
    reveal(Seq::filter);
    assert(rs.filter(|r: PurchaseRecordView| record_is_owned(r)) =~= Seq::<
        PurchaseRecordView,
    >::empty());
}

} // verus!
