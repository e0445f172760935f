use listing_export::client::{build_envelope, build_page_body, check_acknowledgement, classify_status, ApiError};
use listing_export::flattener::{FlatRow, TradingDataProcessor};
use listing_export::logger::Logger;
use listing_export::node::Node;
use listing_export::normalize::{map_key, normalize};

fn s(x: &str) -> Node {
    Node::Scalar(x.to_string())
}

fn pair(k: &str, v: Node) -> (String, Node) {
    (k.to_string(), v)
}

#[test]
fn node_get_finds_first_match() {
    let n = Node::Obj(vec![pair("a", s("1")), pair("b", s("2")), pair("a", s("3"))]);
    assert_eq!(n.get("a").unwrap().scalar_text(), "1");
    assert_eq!(n.get("b").unwrap().scalar_text(), "2");
    assert!(n.get("c").is_none());
    assert!(Node::Null.get("a").is_none());
}

#[test]
fn node_take_hands_value_out() {
    let n = Node::Obj(vec![pair("a", s("1"))]);
    assert_eq!(n.take("a").unwrap().scalar_text(), "1");
    let n = Node::Obj(vec![pair("a", s("1"))]);
    assert!(n.take("b").is_none());
}

#[test]
fn flatten_full_record() {
    let item = Node::Obj(vec![
        pair("ItemID", s("12345")),
        pair("SKU", s("SKU-1")),
        pair("Title", s("A hat")),
        pair("PrimaryCategory", Node::Obj(vec![pair("CategoryName", s("Hats"))])),
        pair("StartPrice", Node::Obj(vec![pair("_", s("5.00"))])),
        pair(
            "SellingStatus",
            Node::Obj(vec![
                pair(
                    "CurrentPrice",
                    Node::Obj(vec![pair("_", s("7.50")), pair("currencyID", s("USD"))]),
                ),
                pair("QuantitySold", s("3")),
                pair("ListingStatus", s("Active")),
            ]),
        ),
        pair("Quantity", s("10")),
        pair(
            "ListingDetails",
            Node::Obj(vec![
                pair("StartTime", s("2024-01-01T00:00:00Z")),
                pair("EndTime", s("2024-02-01T00:00:00Z")),
                pair("ViewItemURL", s("https://example.test/item/12345")),
            ]),
        ),
        pair("Seller", Node::Obj(vec![pair("UserID", s("seller1"))])),
        pair("PaymentMethods", s("COD")),
    ]);
    let p = TradingDataProcessor::new(Logger::new());
    let row = p.process_item(&item);
    assert_eq!(row.item_id, "12345");
    assert_eq!(row.sku, "SKU-1");
    assert_eq!(row.title, "A hat");
    assert_eq!(row.category_name, "Hats");
    assert_eq!(row.start_price, "5.00");
    assert_eq!(row.current_price, "7.50");
    assert_eq!(row.currency, "USD");
    assert_eq!(row.quantity, "10");
    assert_eq!(row.quantity_sold, "3");
    assert_eq!(row.listing_status, "Active");
    assert_eq!(row.start_time, "2024-01-01T00:00:00Z");
    assert_eq!(row.end_time, "2024-02-01T00:00:00Z");
    assert_eq!(row.view_item_url, "https://example.test/item/12345");
    assert_eq!(row.seller_id, "seller1");
    assert_eq!(row.payment_methods, "COD");
}

#[test]
fn flatten_is_total_on_partial_records() {
    let p = TradingDataProcessor::new(Logger::new());
    for item in [
        Node::Null,
        s("just a scalar"),
        Node::Arr(vec![s("x")]),
        Node::Obj(vec![]),
        Node::Obj(vec![pair("Title", s("only a title"))]),
        Node::Obj(vec![pair("SellingStatus", s("not an object"))]),
        Node::Obj(vec![pair("SellingStatus", Node::Obj(vec![pair("CurrentPrice", s("bare"))]))]),
    ] {
        let row = p.process_item(&item);
        // Every key is present with a value; missing paths are empty strings.
        assert_eq!(row.values().len(), 15);
        assert_eq!(FlatRow::headers().len(), 15);
        assert_eq!(row.item_id, "");
        assert_eq!(row.current_price, "");
    }
    let row = p.process_item(&Node::Obj(vec![pair("Title", s("only a title"))]));
    assert_eq!(row.title, "only a title");
    assert_eq!(row.payment_methods, "");
}

#[test]
fn flatten_non_scalar_leaf_is_empty() {
    let p = TradingDataProcessor::new(Logger::new());
    let item = Node::Obj(vec![pair("ItemID", Node::Obj(vec![pair("x", s("1"))]))]);
    let row = p.process_item(&item);
    assert_eq!(row.item_id, "");
}

#[test]
fn payment_methods_bare_string() {
    let p = TradingDataProcessor::new(Logger::new());
    let pm = s("COD");
    assert_eq!(p.extract_payment_methods(Some(&pm)), "COD");
}

#[test]
fn payment_methods_collection() {
    let p = TradingDataProcessor::new(Logger::new());
    let pm = Node::Arr(vec![s("PayPal"), s("COD")]);
    assert_eq!(p.extract_payment_methods(Some(&pm)), "PayPal, COD");
}

#[test]
fn payment_methods_wrapped_collection() {
    let p = TradingDataProcessor::new(Logger::new());
    let pm = Node::Obj(vec![pair("Payment", Node::Arr(vec![s("Cash")]))]);
    assert_eq!(p.extract_payment_methods(Some(&pm)), "Cash");
}

#[test]
fn payment_methods_wrapped_string() {
    let p = TradingDataProcessor::new(Logger::new());
    let pm = Node::Obj(vec![pair("Payment", s("Cheque"))]);
    assert_eq!(p.extract_payment_methods(Some(&pm)), "Cheque");
}

#[test]
fn payment_methods_empty_object() {
    let p = TradingDataProcessor::new(Logger::new());
    let pm = Node::Obj(vec![]);
    assert_eq!(p.extract_payment_methods(Some(&pm)), "");
    assert_eq!(p.extract_payment_methods(None), "");
}

#[test]
fn payment_methods_skips_non_strings() {
    let p = TradingDataProcessor::new(Logger::new());
    let pm = Node::Arr(vec![s("PayPal"), Node::Null, s("COD")]);
    assert_eq!(p.extract_payment_methods(Some(&pm)), "PayPal, COD");
}

#[test]
fn acknowledgement_failure_is_application_error() {
    let tree = Node::Obj(vec![
        pair("Ack", s("Failure")),
        pair("Errors", Node::Obj(vec![pair("ShortMessage", s("bad request"))])),
    ]);
    match check_acknowledgement(tree) {
        Err(ApiError::Application(Some(errs))) => {
            assert_eq!(errs.get("ShortMessage").unwrap().scalar_text(), "bad request");
        }
        _ => panic!("expected an application error carrying the details"),
    }
}

#[test]
fn acknowledgement_partial_failure_is_application_error() {
    let tree = Node::Obj(vec![pair("Ack", s("PartialFailure"))]);
    assert!(matches!(check_acknowledgement(tree), Err(ApiError::Application(None))));
}

#[test]
fn acknowledgement_success_passes_through() {
    let tree = Node::Obj(vec![pair("Ack", s("Success")), pair("x", s("1"))]);
    let out = check_acknowledgement(tree).unwrap();
    assert_eq!(out.get("x").unwrap().scalar_text(), "1");
}

#[test]
fn acknowledgement_is_case_sensitive() {
    let tree = Node::Obj(vec![pair("Ack", s("failure"))]);
    assert!(check_acknowledgement(tree).is_ok());
}

#[test]
fn status_classification() {
    assert!(classify_status(200).is_ok());
    assert!(classify_status(299).is_ok());
    assert!(matches!(classify_status(199), Err(ApiError::Protocol(199))));
    assert!(matches!(classify_status(404), Err(ApiError::Protocol(404))));
    assert!(matches!(classify_status(500), Err(ApiError::Protocol(500))));
}

#[test]
fn envelope_is_exact() {
    let got = build_envelope("GetMyeBaySelling", "1291", "<Body/>");
    assert_eq!(
        got,
        "<?xml version=\"1.0\" encoding=\"utf-8\"?><GetMyeBaySellingRequest xmlns=\"urn:ebay:apis:eBLBaseComponents\"><Version>1291</Version><Body/></GetMyeBaySellingRequest>"
    );
}

#[test]
fn page_body_is_exact() {
    let got = build_page_body("ActiveList", 200, 3);
    assert_eq!(
        got,
        "<ActiveList><Include>true</Include><Sort>TimeLeft</Sort><Pagination><EntriesPerPage>200</EntriesPerPage><PageNumber>3</PageNumber></Pagination></ActiveList>"
    );
    let got = build_page_body("ActiveList", 100, 10);
    assert!(got.contains("<EntriesPerPage>100</EntriesPerPage>"));
    assert!(got.contains("<PageNumber>10</PageNumber>"));
}

#[test]
fn logger_counts() {
    let mut log = Logger::new();
    assert_eq!(log.get_stats(), (0, 0));
    log.increment_request();
    log.increment_request();
    log.info("starting");
    log.warn("odd");
    log.error("broken");
    assert_eq!(log.get_stats(), (2, 1));
    assert_eq!(log.entries.len(), 3);
    assert_eq!(log.entries[2].1, "broken");
}

#[test]
fn normalized_key_mapping() {
    assert_eq!(map_key("$text".to_string()), "_");
    assert_eq!(map_key("@currencyID".to_string()), "currencyID");
    assert_eq!(map_key("Title".to_string()), "Title");
    assert_eq!(map_key("".to_string()), "");
}

#[test]
fn normalize_collapses_text_only_elements() {
    let raw = Node::Obj(vec![(
        "Ack".to_string(),
        Node::Obj(vec![("$text".to_string(), Node::Scalar("Success".to_string()))]),
    )]);
    let n = normalize(raw);
    assert_eq!(n.get("Ack").unwrap().scalar_text(), "Success");
}
