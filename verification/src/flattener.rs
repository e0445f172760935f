//! Flattening of one nested listing record into a flat row of named
//! string fields.
//!
//! Every record yields a row with the same fixed key set: a field whose
//! source path is missing, or whose final node is not a scalar, resolves
//! to the empty string, never to an error.

use vstd::prelude::*;

use crate::logger::Logger;
use crate::node::Node;

verus! {

/// A flattened listing: a fixed set of named string fields, always all
/// present, in the fixed column order that `FlatRow::headers` gives.
pub struct FlatRow {
    pub item_id: String,
    pub sku: String,
    pub title: String,
    pub category_name: String,
    pub start_price: String,
    pub current_price: String,
    pub currency: String,
    pub quantity: String,
    pub quantity_sold: String,
    pub listing_status: String,
    pub start_time: String,
    pub end_time: String,
    pub view_item_url: String,
    pub seller_id: String,
    pub payment_methods: String,
}

/// The fixed column names, in column order.
pub open spec fn spec_headers() -> Seq<Seq<char>> {
    seq![
        "Item ID"@,
        "SKU"@,
        "Title"@,
        "Category Name"@,
        "Start Price"@,
        "Current Price"@,
        "Currency"@,
        "Quantity"@,
        "Quantity Sold"@,
        "Listing Status"@,
        "Start Time"@,
        "End Time"@,
        "View Item URL"@,
        "Seller ID"@,
        "Payment Methods"@,
    ]
}

/// The row's field values, in the same order as `spec_headers`.
pub open spec fn spec_row_values(r: FlatRow) -> Seq<Seq<char>> {
    seq![
        r.item_id@,
        r.sku@,
        r.title@,
        r.category_name@,
        r.start_price@,
        r.current_price@,
        r.currency@,
        r.quantity@,
        r.quantity_sold@,
        r.listing_status@,
        r.start_time@,
        r.end_time@,
        r.view_item_url@,
        r.seller_id@,
        r.payment_methods@,
    ]
}

impl FlatRow {
    /// The fixed column names, in column order.
    pub fn headers() -> (r: Vec<String>)
        ensures
            r.deep_view() == spec_headers(),
    {
        let mut v: Vec<String> = Vec::new();
        v.push(String::from_str("Item ID"));
        v.push(String::from_str("SKU"));
        v.push(String::from_str("Title"));
        v.push(String::from_str("Category Name"));
        v.push(String::from_str("Start Price"));
        v.push(String::from_str("Current Price"));
        v.push(String::from_str("Currency"));
        v.push(String::from_str("Quantity"));
        v.push(String::from_str("Quantity Sold"));
        v.push(String::from_str("Listing Status"));
        v.push(String::from_str("Start Time"));
        v.push(String::from_str("End Time"));
        v.push(String::from_str("View Item URL"));
        v.push(String::from_str("Seller ID"));
        v.push(String::from_str("Payment Methods"));
        proof {
            assert(v.deep_view() =~~= spec_headers());
        }
        v
    }

    /// The field values, in the same order as `headers`.
    pub fn values(&self) -> (r: Vec<String>)
        ensures
            r.deep_view() == spec_row_values(*self),
    {
        let mut v: Vec<String> = Vec::new();
        v.push(self.item_id.clone());
        v.push(self.sku.clone());
        v.push(self.title.clone());
        v.push(self.category_name.clone());
        v.push(self.start_price.clone());
        v.push(self.current_price.clone());
        v.push(self.currency.clone());
        v.push(self.quantity.clone());
        v.push(self.quantity_sold.clone());
        v.push(self.listing_status.clone());
        v.push(self.start_time.clone());
        v.push(self.end_time.clone());
        v.push(self.view_item_url.clone());
        v.push(self.seller_id.clone());
        v.push(self.payment_methods.clone());
        proof {
            assert(v.deep_view() =~~= spec_row_values(*self));
        }
        v
    }
}

/// The scalar text at `key` under `n`: empty for a missing key or a
/// non-scalar value.
pub open spec fn spec_str1(n: Node, key: Seq<char>) -> Seq<char> {
    match n.spec_get(key) {
        Some(c) => c.spec_scalar(),
        None => Seq::empty(),
    }
}

/// The scalar text at the two-segment path `k1.k2` under `n`.
pub open spec fn spec_str2(n: Node, k1: Seq<char>, k2: Seq<char>) -> Seq<char> {
    match n.spec_get(k1) {
        Some(c) => spec_str1(c, k2),
        None => Seq::empty(),
    }
}

/// The scalar text at the three-segment path `k1.k2.k3` under `n`.
pub open spec fn spec_str3(n: Node, k1: Seq<char>, k2: Seq<char>, k3: Seq<char>) -> Seq<char> {
    match n.spec_get(k1) {
        Some(c) => spec_str2(c, k2, k3),
        None => Seq::empty(),
    }
}

/// Resolves a one-segment path to its scalar text, or the empty string.
pub fn get_str(n: &Node, key: &str) -> (r: String)
    ensures
        r@ == spec_str1(*n, key@),
{
    match n.get(key) {
        Some(c) => c.scalar_text(),
        None => String::new(),
    }
}

/// Resolves a two-segment path to its scalar text, or the empty string.
pub fn get_str2(n: &Node, k1: &str, k2: &str) -> (r: String)
    ensures
        r@ == spec_str2(*n, k1@, k2@),
{
    match n.get(k1) {
        Some(c) => get_str(c, k2),
        None => String::new(),
    }
}

/// Resolves a three-segment path to its scalar text, or the empty string.
pub fn get_str3(n: &Node, k1: &str, k2: &str, k3: &str) -> (r: String)
    ensures
        r@ == spec_str3(*n, k1@, k2@, k3@),
{
    match n.get(k1) {
        Some(c) => get_str2(c, k2, k3),
        None => String::new(),
    }
}

/// Whether some element of `s` at index `lo` or later is a scalar.
pub open spec fn has_scalar_in(s: Seq<Node>, lo: int) -> bool {
    exists|k: int| lo <= k < s.len() && (#[trigger] s[k]) is Scalar
}

/// The scalar elements of `s` from index `lo` on, joined with `", "`;
/// non-scalar elements are skipped and contribute no separator.
pub open spec fn spec_join_from(s: Seq<Node>, lo: int) -> Seq<char>
    decreases s.len() - lo,
{
    if lo < 0 || lo >= s.len() {
        Seq::empty()
    } else {
        match s[lo] {
            Node::Scalar(t) => {
                if has_scalar_in(s, lo + 1) {
                    t@ + ", "@ + spec_join_from(s, lo + 1)
                } else {
                    t@
                }
            },
            _ => spec_join_from(s, lo + 1),
        }
    }
}

proof fn lemma_join_none(s: Seq<Node>, lo: int)
    requires
        !has_scalar_in(s, lo),
    ensures
        spec_join_from(s, lo) == Seq::<char>::empty(),
    decreases s.len() - lo,
{
    if 0 <= lo < s.len() {
        lemma_join_none(s, lo + 1);
    }
}

/// Joins the scalar elements of `a` with `", "`, skipping the rest.
#[verifier::loop_isolation(false)]
pub fn join_scalars(a: &Vec<Node>) -> (r: String)
    ensures
        r@ == spec_join_from(a@, 0),
{
    let mut out = String::new();
    let mut first: bool = true;
    let mut i: usize = 0;
    while i < a.len()
        invariant
            0 <= i <= a@.len(),
            first <==> (forall|k: int| 0 <= k < i ==> !((#[trigger] a@[k]) is Scalar)),
            first ==> out@ == Seq::<char>::empty(),
            spec_join_from(a@, 0) == out@ + (if !first && has_scalar_in(a@, i as int) {
                ", "@
            } else {
                Seq::<char>::empty()
            }) + spec_join_from(a@, i as int),
        decreases a@.len() - i,
    {
        match &a[i] {
            Node::Scalar(t) => {
                proof {
                    assert(has_scalar_in(a@, i as int));
                }
                let ghost out0 = out@;
                let ghost was_first = first;
                if !first {
                    out.append(", ");
                }
                out.append(t.as_str());
                first = false;
                proof {
                    if !has_scalar_in(a@, i + 1) {
                        lemma_join_none(a@, i + 1);
                    }
                    assert(spec_join_from(a@, 0) == out@ + (if has_scalar_in(a@, i + 1) {
                        ", "@
                    } else {
                        Seq::<char>::empty()
                    }) + spec_join_from(a@, i + 1)) by {
                        assert(out@ =~= out0 + (if !was_first {
                            ", "@
                        } else {
                            Seq::<char>::empty()
                        }) + t@);
                        assert(out0 + (if !was_first {
                            ", "@
                        } else {
                            Seq::<char>::empty()
                        }) + (if has_scalar_in(a@, i + 1) {
                            t@ + ", "@ + spec_join_from(a@, i + 1)
                        } else {
                            t@
                        }) =~= out@ + (if has_scalar_in(a@, i + 1) {
                            ", "@
                        } else {
                            Seq::<char>::empty()
                        }) + spec_join_from(a@, i + 1));
                    }
                }
            },
            _ => {
                proof {
                    assert(spec_join_from(a@, i as int) == spec_join_from(a@, i + 1));
                    assert(has_scalar_in(a@, i as int) == has_scalar_in(a@, i + 1));
                }
            },
        }
        i = i + 1;
    }
    out
}

/// Turns nested listing records into flat rows; a pure, total transform.
pub struct TradingDataProcessor {
    /// The run's metrics and message log.
    pub logger: Logger,
}

impl TradingDataProcessor {
    /// A processor that reports through `logger`.
    pub fn new(logger: Logger) -> (r: Self)
        ensures
            r.logger == logger,
    {
        TradingDataProcessor { logger }
    }

    /// Flattens every record, in order; one row per record, always.
    pub fn process_seller_listings(&self, items: &Vec<Node>) -> (r: Vec<FlatRow>)
        ensures
            r@.len() == items@.len(),
            forall|i: int| 0 <= i < items@.len() ==> row_matches(#[trigger] r@[i], items@[i]),
    {
        let mut rows: Vec<FlatRow> = Vec::new();
        let mut i: usize = 0;
        while i < items.len()
            invariant
                0 <= i <= items@.len(),
                rows@.len() == i,
                forall|j: int| 0 <= j < i ==> row_matches(#[trigger] rows@[j], items@[j]),
            decreases items@.len() - i,
        {
            let row = self.process_item(&items[i]);
            rows.push(row);
            i = i + 1;
        }
        rows
    }

    /// Flattens one record into a row holding every fixed field; missing
    /// or non-scalar paths give the empty string.
    pub fn process_item(&self, item: &Node) -> (r: FlatRow)
        ensures
            row_matches(r, *item),
    {
        FlatRow {
            item_id: get_str(item, "ItemID"),
            sku: get_str(item, "SKU"),
            title: get_str(item, "Title"),
            category_name: get_str2(item, "PrimaryCategory", "CategoryName"),
            start_price: get_str2(item, "StartPrice", "_"),
            current_price: get_str3(item, "SellingStatus", "CurrentPrice", "_"),
            currency: get_str3(item, "SellingStatus", "CurrentPrice", "currencyID"),
            quantity: get_str(item, "Quantity"),
            quantity_sold: get_str2(item, "SellingStatus", "QuantitySold"),
            listing_status: get_str2(item, "SellingStatus", "ListingStatus"),
            start_time: get_str2(item, "ListingDetails", "StartTime"),
            end_time: get_str2(item, "ListingDetails", "EndTime"),
            view_item_url: get_str2(item, "ListingDetails", "ViewItemURL"),
            seller_id: get_str2(item, "Seller", "UserID"),
            payment_methods: self.extract_payment_methods(item.get("PaymentMethods")),
        }
    }

    /// Resolves the variably shaped payment-methods value: a bare string
    /// is used as is; a collection's string elements are joined with
    /// `", "`; an object's known `Payment` sub-key is resolved the same
    /// way; anything else gives the empty string.
    pub fn extract_payment_methods(&self, pm: Option<&Node>) -> (r: String)
        ensures
            r@ == (match pm {
                Some(n) => spec_payment_methods(*n),
                None => Seq::<char>::empty(),
            }),
    {
        match pm {
            None => String::new(),
            Some(n) => match n {
                Node::Scalar(t) => t.clone(),
                Node::Arr(a) => join_scalars(a),
                Node::Obj(_) => match n.get("Payment") {
                    Some(inner) => match inner {
                        Node::Arr(a) => join_scalars(a),
                        Node::Scalar(t) => t.clone(),
                        _ => String::new(),
                    },
                    None => String::new(),
                },
                Node::Null => String::new(),
            },
        }
    }
}

/// The flattened form of the variably shaped payment-methods value.
pub open spec fn spec_payment_methods(n: Node) -> Seq<char> {
    match n {
        Node::Scalar(t) => t@,
        Node::Arr(a) => spec_join_from(a@, 0),
        Node::Obj(_) => match n.spec_get("Payment"@) {
            Some(Node::Arr(a)) => spec_join_from(a@, 0),
            Some(Node::Scalar(t)) => t@,
            _ => Seq::empty(),
        },
        Node::Null => Seq::empty(),
    }
}

/// Whether `row` is the flattening of `item`: every fixed field carries
/// the scalar text of its source path, with the payment-methods field
/// resolved by `spec_payment_methods`.
pub open spec fn row_matches(row: FlatRow, item: Node) -> bool {
    &&& row.item_id@ == spec_str1(item, "ItemID"@)
    &&& row.sku@ == spec_str1(item, "SKU"@)
    &&& row.title@ == spec_str1(item, "Title"@)
    &&& row.category_name@ == spec_str2(item, "PrimaryCategory"@, "CategoryName"@)
    &&& row.start_price@ == spec_str2(item, "StartPrice"@, "_"@)
    &&& row.current_price@ == spec_str3(item, "SellingStatus"@, "CurrentPrice"@, "_"@)
    &&& row.currency@ == spec_str3(item, "SellingStatus"@, "CurrentPrice"@, "currencyID"@)
    &&& row.quantity@ == spec_str1(item, "Quantity"@)
    &&& row.quantity_sold@ == spec_str2(item, "SellingStatus"@, "QuantitySold"@)
    &&& row.listing_status@ == spec_str2(item, "SellingStatus"@, "ListingStatus"@)
    &&& row.start_time@ == spec_str2(item, "ListingDetails"@, "StartTime"@)
    &&& row.end_time@ == spec_str2(item, "ListingDetails"@, "EndTime"@)
    &&& row.view_item_url@ == spec_str2(item, "ListingDetails"@, "ViewItemURL"@)
    &&& row.seller_id@ == spec_str2(item, "Seller"@, "UserID"@)
    &&& row.payment_methods@ == (match item.spec_get("PaymentMethods"@) {
        Some(n) => spec_payment_methods(n),
        None => Seq::<char>::empty(),
    })
}

} // verus!
