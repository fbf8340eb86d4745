use iap::BackendConfig;
use iap::Dispatcher;
use iap::Error;
use iap::IAPError;
use iap::ItemNotOwned;
use iap::NativeCall;
use iap::ProductDetails;
use iap::ProductDetailsResponse;
use iap::PurchaseDetails;
use iap::PurchaseParam;
use iap::PurchaseStatus;
use iap::PurchaseVerificationData;
use iap::StoreModel;
use iap::accept_error_event;
use iap::accept_purchase_update;
use iap::accept_query_response;
use iap::i32_to_decimal;
use iap::ingest_purchase_updates;
use iap::partition_query;
use iap::u64_to_decimal;

fn product(id: &str) -> ProductDetails {
    ProductDetails {
        id: id.to_string(),
        title: format!("Title of {id}"),
        description: format!("Description of {id}"),
        price: "$1.99".to_string(),
        raw_price_micros: 1_990_000,
        currency_code: "USD".to_string(),
        currency_symbol: "$".to_string(),
    }
}

fn verification() -> PurchaseVerificationData {
    PurchaseVerificationData {
        local_verification_data: "local-blob".to_string(),
        server_verification_data: "server-blob".to_string(),
        source: "google".to_string(),
    }
}

fn param(id: &str) -> PurchaseParam {
    PurchaseParam { product_details: product(id), application_user_name: None }
}

fn store_with(ids: &[&str]) -> StoreModel {
    let catalog: Vec<ProductDetails> = ids.iter().map(|id| product(id)).collect();
    StoreModel::new(catalog, "US".to_string())
}

fn purchased_event(pid: &str, product_id: &str, pending: bool) -> PurchaseDetails {
    PurchaseDetails {
        purchase_id: Some(pid.to_string()),
        product_id: product_id.to_string(),
        verification_data: verification(),
        transaction_date: Some("2024-05-01T00:00:00Z".to_string()),
        status: PurchaseStatus::Purchased,
        error: None,
        pending_complete_purchase: pending,
    }
}

#[test]
fn decimal_rendering() {
    assert_eq!(u64_to_decimal(0), "0");
    assert_eq!(u64_to_decimal(7), "7");
    assert_eq!(u64_to_decimal(12345), "12345");
    assert_eq!(u64_to_decimal(u64::MAX), "18446744073709551615");
    assert_eq!(i32_to_decimal(-42), "-42");
    assert_eq!(i32_to_decimal(42), "42");
    assert_eq!(i32_to_decimal(i32::MIN), "-2147483648");
}

#[test]
fn product_well_formedness() {
    assert!(product("p1").well_formed());
    let mut empty_id = product("p1");
    empty_id.id = String::new();
    assert!(!empty_id.well_formed());
    let mut bad_currency = product("p1");
    bad_currency.currency_code = "usd".to_string();
    assert!(!bad_currency.well_formed());
    let mut long_currency = product("p1");
    long_currency.currency_code = "USDX".to_string();
    assert!(!long_currency.well_formed());
}

#[test]
fn verification_source_must_be_a_store_platform() {
    assert!(verification().well_formed());
    let mut apple = verification();
    apple.source = "apple".to_string();
    assert!(apple.well_formed());
    let mut other = verification();
    other.source = "amazon".to_string();
    assert!(!other.well_formed());
}

#[test]
fn purchase_details_invariant() {
    let good = purchased_event("t1", "p1", true);
    assert!(good.well_formed());

    let mut error_without_payload = purchased_event("t1", "p1", false);
    error_without_payload.status = PurchaseStatus::Error;
    assert!(!error_without_payload.well_formed());

    let mut pending_while_canceled = purchased_event("t1", "p1", true);
    pending_while_canceled.status = PurchaseStatus::Canceled;
    assert!(!pending_while_canceled.well_formed());

    assert!(PurchaseStatus::Purchased.is_terminal());
    assert!(!PurchaseStatus::Pending.is_terminal());
}

// Querying ["p1","p2"] where only p1 exists yields exactly p1 as found,
// "p2" as missing, and no error.
#[test]
fn query_scenario_one_found_one_missing() {
    let store = store_with(&["p1"]);
    let requested = vec!["p1".to_string(), "p2".to_string()];
    let response = store.query_product_details(&requested).unwrap();
    assert_eq!(response.product_details.len(), 1);
    assert_eq!(response.product_details[0].id, "p1");
    assert_eq!(response.not_found_ids, vec!["p2".to_string()]);
    assert!(response.error.is_none());
}

// The found and missing lists are disjoint, both drawn from the request;
// duplicate requests are answered once.
#[test]
fn query_partition_disjoint_and_duplicates_dropped() {
    let catalog = vec![product("a"), product("c")];
    let requested = vec![
        "a".to_string(),
        "b".to_string(),
        "a".to_string(),
        "c".to_string(),
        "b".to_string(),
    ];
    let response = partition_query(&requested, &catalog);
    let found: Vec<&str> = response.product_details.iter().map(|p| p.id.as_str()).collect();
    assert_eq!(found, vec!["a", "c"]);
    assert_eq!(response.not_found_ids, vec!["b".to_string()]);
    for p in &response.product_details {
        assert!(!response.not_found_ids.contains(&p.id));
        assert!(requested.contains(&p.id));
    }
    for id in &response.not_found_ids {
        assert!(requested.contains(id));
    }
    assert!(response.error.is_none());
}

#[test]
fn query_of_empty_request_is_empty() {
    let store = store_with(&["p1"]);
    let response = store.query_product_details(&Vec::new()).unwrap();
    assert!(response.product_details.is_empty());
    assert!(response.not_found_ids.is_empty());
    assert!(response.error.is_none());
}

// Every native status code is mapped; the table matches the store's
// billing responses and unknown codes keep the raw code.
#[test]
fn native_code_mapping_table() {
    assert!(matches!(Error::from_response_code(1, None), Error::UserCancelled));
    assert!(matches!(Error::from_response_code(2, None), Error::ServiceDisconnected));
    match Error::from_response_code(3, None) {
        Error::BillingClientInitError(m) => assert_eq!(m, "Billing unavailable"),
        _ => panic!("code 3 must map to a billing-client error"),
    }
    assert!(matches!(Error::from_response_code(4, None), Error::ItemAlreadyOwned));
    match Error::from_response_code(5, None) {
        Error::ItemNotOwned(m) => assert_eq!(m, "Item not owned"),
        _ => panic!("code 5 must map to an item-not-owned error"),
    }
    match Error::from_response_code(6, Some("socket closed".to_string())) {
        Error::NetworkError(m) => assert_eq!(m, "socket closed"),
        _ => panic!("code 6 must map to a network error"),
    }
    match Error::from_response_code(7, None) {
        Error::FeatureNotSupported(m) => assert_eq!(m, "Feature not supported"),
        _ => panic!("code 7 must map to a feature-not-supported error"),
    }
}

#[test]
fn unmapped_native_codes_keep_the_raw_code() {
    match Error::from_response_code(0, None) {
        Error::InternalError(m) => assert_eq!(m, "Unknown error code: 0"),
        _ => panic!("code 0 must map to an internal error"),
    }
    match Error::from_response_code(42, None) {
        Error::InternalError(m) => assert_eq!(m, "Unknown error code: 42"),
        _ => panic!("unknown codes must map to an internal error"),
    }
    match Error::from_response_code(-3, None) {
        Error::InternalError(m) => assert_eq!(m, "Unknown error code: -3"),
        _ => panic!("negative codes must map to an internal error"),
    }
    // The raw code is kept even when the native side sent a message.
    match Error::from_response_code(8, Some("native detail".to_string())) {
        Error::InternalError(m) => assert_eq!(m, "Unknown error code: 8: native detail"),
        _ => panic!("unknown codes must map to an internal error"),
    }
    match Error::from_response_code(-3, Some("went sideways".to_string())) {
        Error::InternalError(m) => assert_eq!(m, "Unknown error code: -3: went sideways"),
        _ => panic!("negative codes must map to an internal error"),
    }
}

#[test]
fn omitted_auto_consume_resolves_to_false() {
    assert_eq!(iap::resolve_auto_consume(None), false);
    assert_eq!(iap::resolve_auto_consume(Some(false)), false);
    assert_eq!(iap::resolve_auto_consume(Some(true)), true);
}

#[test]
fn error_messages_match_the_taxonomy() {
    assert_eq!(
        Error::PlatformNotSupported.message(),
        "In-app purchases are not supported on this platform"
    );
    assert_eq!(Error::UserCancelled.message(), "User cancelled the purchase");
    assert_eq!(Error::ItemAlreadyOwned.message(), "Item already owned");
    assert_eq!(Error::ServiceDisconnected.message(), "Service disconnected");
    assert_eq!(
        Error::PurchaseError("flow broke".to_string()).message(),
        "Purchase flow failed: flow broke"
    );
    assert_eq!(
        Error::BillingClientInitError("no client".to_string()).message(),
        "Failed to initialize billing client: no client"
    );
    assert_eq!(
        Error::InvalidPurchaseToken("bad token".to_string()).message(),
        "Invalid purchase token or receipt: bad token"
    );
    assert_eq!(
        Error::InternalError("oops".to_string()).message(),
        "Internal billing error: oops"
    );
    assert_eq!(ItemNotOwned("sku9".to_string()).message(), "Item not owned: sku9");
}

#[test]
fn every_error_renders_a_taxonomy_payload() {
    let errors = vec![
        Error::Io("disk".to_string()),
        Error::TransportError("bridge".to_string()),
        Error::PlatformNotSupported,
        Error::BillingClientInitError("x".to_string()),
        Error::ProductQueryError("x".to_string()),
        Error::PurchaseError("x".to_string()),
        Error::ConsumptionError("x".to_string()),
        Error::RestoreError("x".to_string()),
        Error::InvalidPurchaseToken("x".to_string()),
        Error::NetworkError("x".to_string()),
        Error::UserCancelled,
        Error::ItemAlreadyOwned,
        Error::ItemNotOwned("x".to_string()),
        Error::ServiceDisconnected,
        Error::FeatureNotSupported("x".to_string()),
        Error::InternalError("x".to_string()),
    ];
    for e in &errors {
        let payload = e.to_iap_error();
        assert!(payload.well_formed());
        assert_eq!(payload.code, e.code());
        assert_eq!(payload.message, e.message());
        assert!(payload.details.is_none());
    }
}

// On the unsupported configuration every one of the eight operations
// fails with the platform error and produces no native call.
#[test]
fn unsupported_platform_short_circuits_every_operation() {
    let d = Dispatcher::new(BackendConfig::Unsupported);
    assert!(matches!(d.initialize(), Err(Error::PlatformNotSupported)));
    assert!(matches!(d.is_available(), Err(Error::PlatformNotSupported)));
    assert!(matches!(
        d.query_product_details(vec!["p1".to_string()]),
        Err(Error::PlatformNotSupported)
    ));
    assert!(matches!(d.buy_non_consumable(param("p1")), Err(Error::PlatformNotSupported)));
    assert!(matches!(d.buy_consumable(param("p1"), false), Err(Error::PlatformNotSupported)));
    assert!(matches!(
        d.complete_purchase(purchased_event("t1", "p1", true)),
        Err(Error::PlatformNotSupported)
    ));
    assert!(matches!(d.restore_purchases(None), Err(Error::PlatformNotSupported)));
    assert!(matches!(d.country_code(), Err(Error::PlatformNotSupported)));
}

#[test]
fn native_configuration_routes_every_operation() {
    let d = Dispatcher::new(BackendConfig::Native);
    let call = d.initialize().unwrap();
    assert_eq!(call.invocation_name(), "initialize");
    assert_eq!(d.is_available().unwrap().invocation_name(), "is_available");
    let call = d.query_product_details(vec!["p1".to_string()]).unwrap();
    assert_eq!(call.invocation_name(), "query_product_details");
    match call {
        NativeCall::QueryProductDetails { product_ids } => {
            assert_eq!(product_ids, vec!["p1".to_string()]);
        }
        _ => panic!("query must route to the query invocation"),
    }
    assert_eq!(d.buy_non_consumable(param("p1")).unwrap().invocation_name(), "buy_non_consumable");
    assert_eq!(
        d.buy_consumable(param("p1"), true).unwrap().invocation_name(),
        "buy_consumable"
    );
    assert_eq!(
        d.complete_purchase(purchased_event("t1", "p1", true)).unwrap().invocation_name(),
        "complete_purchase"
    );
    assert_eq!(
        d.restore_purchases(Some("user".to_string())).unwrap().invocation_name(),
        "restore_purchases"
    );
    assert_eq!(d.country_code().unwrap().invocation_name(), "country_code");
}

// Completing a purchase twice is idempotent: the second call succeeds and
// changes nothing.
#[test]
fn complete_purchase_twice_is_idempotent() {
    let mut store = store_with(&["p1"]);
    assert_eq!(store.buy_non_consumable(&param("p1")).unwrap(), true);
    let event = store
        .settle_purchase("t1".to_string(), verification(), None)
        .unwrap();
    assert_eq!(event.status, PurchaseStatus::Purchased);
    assert!(event.pending_complete_purchase);

    store.complete_purchase(&event).unwrap();
    assert!(!store.records[0].pending_complete_purchase);
    let after_first: Vec<(String, bool, bool)> = store
        .records
        .iter()
        .map(|r| (r.purchase_id.clone(), r.pending_complete_purchase, r.consumed))
        .collect();

    store.complete_purchase(&event).unwrap();
    let after_second: Vec<(String, bool, bool)> = store
        .records
        .iter()
        .map(|r| (r.purchase_id.clone(), r.pending_complete_purchase, r.consumed))
        .collect();
    assert_eq!(after_first, after_second);
}

// An auto-consumed consumable leaves no completable entitlement pending.
#[test]
fn auto_consume_leaves_nothing_pending() {
    let mut store = store_with(&["coins"]);
    assert_eq!(store.buy_consumable(&param("coins"), true).unwrap(), true);
    let event = store
        .settle_purchase("t1".to_string(), verification(), None)
        .unwrap();
    assert!(!event.pending_complete_purchase);
    assert!(store.records.iter().all(|r| !r.pending_complete_purchase));
    assert!(store.records[0].consumed);

    // Without automatic consumption the entitlement awaits completion.
    assert_eq!(store.buy_consumable(&param("coins"), false).unwrap(), true);
    let event = store
        .settle_purchase("t2".to_string(), verification(), None)
        .unwrap();
    assert!(event.pending_complete_purchase);
}

// A launched non-consumable purchase surfaces asynchronously as a
// purchased, pending event; after completion, completing again succeeds
// with no further state change.
#[test]
fn purchase_lifecycle_scenario() {
    let mut store = store_with(&["p1"]);
    assert_eq!(store.buy_non_consumable(&param("p1")).unwrap(), true);

    let event = store
        .settle_purchase("txn-1".to_string(), verification(), Some("2024-05-01".to_string()))
        .unwrap();
    assert_eq!(event.status, PurchaseStatus::Purchased);
    assert_eq!(event.purchase_id.as_deref(), Some("txn-1"));
    assert_eq!(event.product_id, "p1");
    assert!(event.pending_complete_purchase);
    assert!(accept_purchase_update(event.clone()).is_some());

    store.complete_purchase(&event).unwrap();
    assert!(!store.records[0].pending_complete_purchase);

    let snapshot: Vec<(String, bool)> = store
        .records
        .iter()
        .map(|r| (r.purchase_id.clone(), r.pending_complete_purchase))
        .collect();
    store.complete_purchase(&event).unwrap();
    let unchanged: Vec<(String, bool)> = store
        .records
        .iter()
        .map(|r| (r.purchase_id.clone(), r.pending_complete_purchase))
        .collect();
    assert_eq!(snapshot, unchanged);
}

// Restoring with no account purchases succeeds and delivers zero events.
#[test]
fn restore_with_no_purchases_delivers_nothing() {
    let store = store_with(&["p1"]);
    let events = store.restore_purchases(None).unwrap();
    assert!(events.is_empty());
}

#[test]
fn restore_redelivers_owned_entitlements() {
    let mut store = store_with(&["p1"]);
    store.buy_non_consumable(&param("p1")).unwrap();
    let event = store
        .settle_purchase("t1".to_string(), verification(), None)
        .unwrap();
    store.complete_purchase(&event).unwrap();

    let events = store.restore_purchases(Some("user".to_string())).unwrap();
    assert_eq!(events.len(), 1);
    assert_eq!(events[0].status, PurchaseStatus::Restored);
    assert_eq!(events[0].product_id, "p1");
    assert_eq!(events[0].purchase_id.as_deref(), Some("t1"));
}

#[test]
fn store_rejects_bad_purchases() {
    let mut store = store_with(&["p1"]);

    assert!(matches!(store.buy_non_consumable(&param("ghost")), Err(Error::PurchaseError(_))));
    assert!(matches!(store.buy_consumable(&param("ghost"), true), Err(Error::PurchaseError(_))));

    assert!(matches!(
        store.settle_purchase("t0".to_string(), verification(), None),
        Err(Error::InternalError(_))
    ));

    store.buy_non_consumable(&param("p1")).unwrap();
    let event = store
        .settle_purchase("t1".to_string(), verification(), None)
        .unwrap();

    // Owning p1 makes a second non-consumable purchase fail.
    assert!(matches!(store.buy_non_consumable(&param("p1")), Err(Error::ItemAlreadyOwned)));

    // A duplicate transaction identifier is rejected.
    store.buy_consumable(&param("p1"), false).unwrap();
    assert!(matches!(
        store.settle_purchase("t1".to_string(), verification(), None),
        Err(Error::InvalidPurchaseToken(_))
    ));

    // Malformed verification data is rejected.
    let mut bad = verification();
    bad.source = "amazon".to_string();
    assert!(matches!(
        store.settle_purchase("t2".to_string(), bad, None),
        Err(Error::PurchaseError(_))
    ));

    // Completing without or with an unknown identifier is rejected.
    let mut no_id = event.clone();
    no_id.purchase_id = None;
    assert!(matches!(store.complete_purchase(&no_id), Err(Error::InvalidPurchaseToken(_))));
    let mut unknown = event.clone();
    unknown.purchase_id = Some("missing".to_string());
    assert!(matches!(store.complete_purchase(&unknown), Err(Error::InvalidPurchaseToken(_))));
}

#[test]
fn store_probes_and_locale() {
    let mut store = store_with(&[]);
    assert_eq!(store.is_available().unwrap(), true);
    store.initialize().unwrap();
    store.initialize().unwrap();
    assert!(store.initialized);
    assert_eq!(store.country_code().unwrap(), "US");
}

#[test]
fn ingestion_keeps_well_formed_events_and_drops_the_rest() {
    let good = purchased_event("t1", "p1", true);
    let mut bad = purchased_event("t2", "p2", false);
    bad.status = PurchaseStatus::Error;  // an error status without a payload
    let mut wrong_source = purchased_event("t3", "p3", false);
    wrong_source.verification_data.source = "amazon".to_string();

    let (kept, dropped) = ingest_purchase_updates(vec![good, bad, wrong_source]);
    assert_eq!(kept.len(), 1);
    assert_eq!(dropped, 2);
    assert_eq!(kept[0].purchase_id.as_deref(), Some("t1"));

    let rejected = accept_purchase_update(purchased_event("t4", "p4", false));
    assert!(rejected.is_some());
}

#[test]
fn error_events_outside_the_taxonomy_are_dropped() {
    let good = IAPError {
        code: "UserCancelled".to_string(),
        message: "User cancelled the purchase".to_string(),
        details: None,
    };
    assert!(accept_error_event(good).is_some());
    let bad = IAPError {
        code: "SomethingElse".to_string(),
        message: "mystery".to_string(),
        details: None,
    };
    assert!(accept_error_event(bad).is_none());
}

#[test]
fn malformed_query_responses_are_rejected() {
    let good = ProductDetailsResponse {
        product_details: vec![product("p1")],
        not_found_ids: vec!["p2".to_string()],
        error: None,
    };
    assert!(accept_query_response(good).is_ok());

    let overlapping = ProductDetailsResponse {
        product_details: vec![product("p1")],
        not_found_ids: vec!["p1".to_string()],
        error: None,
    };
    assert!(matches!(accept_query_response(overlapping), Err(Error::ProductQueryError(_))));
}
