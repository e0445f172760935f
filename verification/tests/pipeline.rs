use listing_export::client::{decode_and_check, decode_json_response, ApiError};
use listing_export::fetcher::{extract_items, extract_listings, fetch_from_pages, has_more, page_step};
use listing_export::flattener::TradingDataProcessor;
use listing_export::logger::Logger;
use listing_export::node::Node;
use listing_export::rate_limiter::RateLimiter;
use listing_export::sink::{ExcelExporter, SinkError};

fn s(x: &str) -> Node {
    Node::Scalar(x.to_string())
}

fn pair(k: &str, v: Node) -> (String, Node) {
    (k.to_string(), v)
}

fn page(items: Vec<Node>, more: Option<&str>) -> Node {
    let mut container = vec![pair("ItemArray", Node::Obj(vec![pair("Item", Node::Arr(items))]))];
    if let Some(m) = more {
        container.push(pair("HasMoreItems", s(m)));
    }
    Node::Obj(vec![pair("ActiveList", Node::Obj(container))])
}

fn items(lo: usize, n: usize) -> Vec<Node> {
    (lo..lo + n).map(|i| Node::Obj(vec![pair("ItemID", s(&format!("i{}", i)))])).collect()
}

#[test]
fn fetch_stops_on_empty_page() {
    let pages = vec![
        page(items(0, 5), Some("true")),
        page(items(5, 5), Some("true")),
        page(vec![], None),
    ];
    let (all, calls) = fetch_from_pages(pages, "ActiveList");
    assert_eq!(calls, 3);
    assert_eq!(all.len(), 10);
    for (k, item) in all.iter().enumerate() {
        assert_eq!(item.get("ItemID").unwrap().scalar_text(), format!("i{}", k));
    }
}

#[test]
fn fetch_stops_on_flag() {
    let pages = vec![page(items(0, 3), Some("false"))];
    let (all, calls) = fetch_from_pages(pages, "ActiveList");
    assert_eq!(calls, 1);
    assert_eq!(all.len(), 3);
}

#[test]
fn fetch_stops_on_missing_flag() {
    let pages = vec![page(items(0, 2), None), page(items(2, 2), Some("true"))];
    let (all, calls) = fetch_from_pages(pages, "ActiveList");
    assert_eq!(calls, 1);
    assert_eq!(all.len(), 2);
}

#[test]
fn fetch_flag_is_case_sensitive() {
    let pages = vec![page(items(0, 2), Some("True"))];
    let (all, calls) = fetch_from_pages(pages, "ActiveList");
    assert_eq!(calls, 1);
    assert_eq!(all.len(), 2);
}

#[test]
fn single_item_collapse_yields_one_element() {
    let container = Node::Obj(vec![pair(
        "ItemArray",
        Node::Obj(vec![pair("Item", Node::Obj(vec![pair("ItemID", s("X"))]))]),
    )]);
    let got = extract_items(container);
    assert_eq!(got.len(), 1);
    assert_eq!(got[0].get("ItemID").unwrap().scalar_text(), "X");
}

#[test]
fn missing_item_array_yields_nothing() {
    assert_eq!(extract_items(Node::Obj(vec![])).len(), 0);
    assert_eq!(extract_items(Node::Null).len(), 0);
    let container = Node::Obj(vec![pair("ItemArray", Node::Obj(vec![]))]);
    assert_eq!(extract_items(container).len(), 0);
}

#[test]
fn page_step_decides() {
    let out = page_step(page(items(0, 2), Some("true")), "ActiveList");
    assert_eq!(out.items.len(), 2);
    assert!(out.proceed);
    let out = page_step(page(items(0, 2), Some("false")), "ActiveList");
    assert!(!out.proceed);
    let out = page_step(page(vec![], Some("true")), "ActiveList");
    assert_eq!(out.items.len(), 0);
    assert!(!out.proceed);
    let out = page_step(Node::Null, "ActiveList");
    assert_eq!(out.items.len(), 0);
    assert!(!out.proceed);
}

#[test]
fn has_more_reads_the_flag() {
    let c = Node::Obj(vec![pair("HasMoreItems", s("true"))]);
    assert!(has_more(&c));
    let c = Node::Obj(vec![pair("HasMoreItems", s("false"))]);
    assert!(!has_more(&c));
    assert!(!has_more(&Node::Null));
}

#[test]
fn limiter_grants_at_most_limit_per_window() {
    let mut lim = RateLimiter::new(2);
    assert!(lim.try_acquire(0));
    assert!(lim.try_acquire(0));
    assert!(!lim.try_acquire(0));
    assert!(!lim.try_acquire(999));
    // The first two grants leave the trailing window at 1000 ms.
    assert!(lim.try_acquire(1000));
    assert!(lim.try_acquire(1500));
    assert!(!lim.try_acquire(1500));
    assert!(lim.pending() <= 2);
}

#[test]
fn limiter_with_zero_limit_never_grants() {
    let mut lim = RateLimiter::new(0);
    assert!(!lim.try_acquire(0));
    assert!(!lim.try_acquire(5000));
}

#[test]
fn decode_xml_failure_ack_is_application_error() {
    let xml = "<GetMyeBaySellingResponse><Ack>Failure</Ack>\
               <Errors><ShortMessage>bad token</ShortMessage></Errors>\
               </GetMyeBaySellingResponse>";
    match decode_and_check(xml) {
        Err(ApiError::Application(Some(_))) => {}
        other => panic!("expected an application error, got {:?}", other),
    }
}

#[test]
fn decode_xml_success_yields_items() {
    let xml = "<GetMyeBaySellingResponse><Ack>Success</Ack>\
               <ActiveList><ItemArray>\
               <Item><ItemID>123</ItemID><Title>Hat</Title>\
               <SellingStatus><CurrentPrice currencyID=\"USD\">19.99</CurrentPrice>\
               </SellingStatus></Item>\
               </ItemArray><HasMoreItems>false</HasMoreItems></ActiveList>\
               </GetMyeBaySellingResponse>";
    let tree = decode_and_check(xml).unwrap();
    let out = page_step(tree, "ActiveList");
    assert_eq!(out.items.len(), 1);
    assert!(!out.proceed);
    let p = TradingDataProcessor::new(Logger::new());
    let rows = p.process_seller_listings(&out.items);
    assert_eq!(rows.len(), 1);
    assert_eq!(rows[0].item_id, "123");
    assert_eq!(rows[0].title, "Hat");
    // An element's own text lands under `_`; attributes keep bare names.
    assert_eq!(rows[0].current_price, "19.99");
    assert_eq!(rows[0].currency, "USD");
}

#[test]
fn decode_xml_garbage_is_decode_error() {
    assert!(matches!(decode_and_check("<unclosed"), Err(ApiError::Decode(_))));
}

#[test]
fn decode_json_listings() {
    let json = "{\"listings\":[{\"listingId\":\"1\"},{\"listingId\":\"2\"}]}";
    let tree = decode_json_response(json).unwrap();
    let got = extract_listings(tree);
    assert_eq!(got.len(), 2);
    assert_eq!(got[0].get("listingId").unwrap().scalar_text(), "1");
}

#[test]
fn export_empty_dataset_fails() {
    let exporter = ExcelExporter::new(Logger::new());
    let rows = Vec::new();
    assert!(matches!(exporter.prepare_export(&rows), Err(SinkError::EmptyDataset)));
}

#[test]
fn export_reports_record_count() {
    let p = TradingDataProcessor::new(Logger::new());
    let records = vec![
        Node::Obj(vec![pair("ItemID", s("1")), pair("Title", s("One"))]),
        Node::Obj(vec![pair("ItemID", s("2")), pair("Title", s("Two"))]),
        Node::Obj(vec![pair("ItemID", s("3")), pair("Title", s("Three"))]),
    ];
    let rows = p.process_seller_listings(&records);
    let exporter = ExcelExporter::new(Logger::new());
    let plan = exporter.prepare_export(&rows).unwrap();
    assert_eq!(plan.record_count, 3);
    assert_eq!(plan.rows.len(), 3);
    assert_eq!(plan.headers.len(), 15);
    assert_eq!(plan.headers[0], "Item ID");
    assert_eq!(plan.headers[14], "Payment Methods");
    assert_eq!(plan.rows[0][0], "1");
    assert_eq!(plan.rows[2][2], "Three");
    // Every row shares the header row's width.
    for row in &plan.rows {
        assert_eq!(row.len(), plan.headers.len());
    }
}
