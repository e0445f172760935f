//! Building and interpreting one marketplace API call.
//!
//! A call wraps the caller's body fragment in a fixed XML envelope and,
//! once the transport has answered, decodes the body into a `Node` tree
//! and inspects its acknowledgement field. The transport round trip
//! itself is the caller's; everything around it is here.

use vstd::prelude::*;

use crate::node::Node;
use crate::node::str_eq;

verus! {

/// The protocol version sent in every envelope and header.
pub const TRADING_API_VERSION: &'static str = "1291";

/// How a call failed.
#[derive(Debug)]
pub enum ApiError {
    /// The network or HTTP transport failed; the transport's words.
    Transport(String),
    /// The server answered with a non-success HTTP status.
    Protocol(u16),
    /// The response body could not be decoded; the decoder's words.
    Decode(String),
    /// The response decoded but its acknowledgement field denotes
    /// failure; carries the error-detail substructure, if present.
    Application(Option<Node>),
}

/// Whether an HTTP status denotes success.
pub open spec fn spec_status_ok(status: u16) -> bool {
    200 <= status < 300
}

/// Classifies the transport's HTTP status: success passes, anything
/// else is a protocol error carrying the status.
pub fn classify_status(status: u16) -> (r: Result<(), ApiError>)
    ensures
        r is Ok <==> spec_status_ok(status),
        !spec_status_ok(status) ==> r == Err::<(), ApiError>(ApiError::Protocol(status)),
{
    if 200 <= status && status < 300 {
        Ok(())
    } else {
        Err(ApiError::Protocol(status))
    }
}

/// The fixed request envelope around one operation's body fragment.
pub open spec fn spec_envelope(call: Seq<char>, version: Seq<char>, body: Seq<char>) -> Seq<char> {
    "<?xml version=\"1.0\" encoding=\"utf-8\"?><"@ + call
        + "Request xmlns=\"urn:ebay:apis:eBLBaseComponents\"><Version>"@ + version + "</Version>"@
        + body + "</"@ + call + "Request>"@
}

/// Wraps `body` in the fixed envelope for the operation `call_name`.
pub fn build_envelope(call_name: &str, version: &str, body: &str) -> (r: String)
    ensures
        r@ == spec_envelope(call_name@, version@, body@),
{
    let mut out = String::from_str("<?xml version=\"1.0\" encoding=\"utf-8\"?><");
    out.append(call_name);
    out.append("Request xmlns=\"urn:ebay:apis:eBLBaseComponents\"><Version>");
    out.append(version);
    out.append("</Version>");
    out.append(body);
    out.append("</");
    out.append(call_name);
    out.append("Request>");
    out
}

/// The decimal digit `d` as a character.
pub open spec fn spec_digit(d: nat) -> char {
    ((d + 48) as u8) as char
}

/// The decimal rendering of `n`, most significant digit first.
pub open spec fn spec_decimal(n: nat) -> Seq<char>
    decreases n,
{
    if n < 10 {
        seq![spec_digit(n)]
    } else {
        spec_decimal(n / 10).push(spec_digit(n % 10))
    }
}

/// One decimal digit as a string.
fn digit_str(d: u64) -> (r: String)
    requires
        d < 10,
    ensures
        r@ == seq![spec_digit(d as nat)],
{
    let r = match d {
        0 => String::from_str("0"),
        1 => String::from_str("1"),
        2 => String::from_str("2"),
        3 => String::from_str("3"),
        4 => String::from_str("4"),
        5 => String::from_str("5"),
        6 => String::from_str("6"),
        7 => String::from_str("7"),
        8 => String::from_str("8"),
        _ => String::from_str("9"),
    };
    proof {
        reveal_strlit("0");
        reveal_strlit("1");
        reveal_strlit("2");
        reveal_strlit("3");
        reveal_strlit("4");
        reveal_strlit("5");
        reveal_strlit("6");
        reveal_strlit("7");
        reveal_strlit("8");
        reveal_strlit("9");
        assert(r@ =~= seq![spec_digit(d as nat)]);
    }
    r
}

/// The decimal digits of `n`, most significant first, with no sign and
/// no padding.
pub fn u64_to_decimal(n: u64) -> (r: String)
    ensures
        r@ == spec_decimal(n as nat),
    decreases n,
{
    if n < 10 {
        digit_str(n)
    } else {
        proof {
            assert(n / 10 < n) by (nonlinear_arith)
                requires
                    n >= 10,
            ;
        }
        let mut prefix = u64_to_decimal(n / 10);
        let last = digit_str(n % 10);
        prefix.append(last.as_str());
        proof {
            assert(prefix@ =~= spec_decimal((n / 10) as nat).push(spec_digit((n % 10) as nat)));
        }
        prefix
    }
}

/// The body fragment that requests one page of a listing category:
/// sorted by time remaining, with the given page size and page number.
pub open spec fn spec_page_body(list_type: Seq<char>, entries_per_page: nat, page: nat) -> Seq<
    char,
> {
    "<"@ + list_type + "><Include>true</Include><Sort>TimeLeft</Sort><Pagination><EntriesPerPage>"@
        + spec_decimal(entries_per_page) + "</EntriesPerPage><PageNumber>"@ + spec_decimal(page)
        + "</PageNumber></Pagination></"@ + list_type + ">"@
}

/// Builds the pagination body fragment for one page request.
pub fn build_page_body(list_type: &str, entries_per_page: u64, page: u64) -> (r: String)
    ensures
        r@ == spec_page_body(list_type@, entries_per_page as nat, page as nat),
{
    let mut out = String::from_str("<");
    out.append(list_type);
    out.append("><Include>true</Include><Sort>TimeLeft</Sort><Pagination><EntriesPerPage>");
    let epp = u64_to_decimal(entries_per_page);
    out.append(epp.as_str());
    out.append("</EntriesPerPage><PageNumber>");
    let pg = u64_to_decimal(page);
    out.append(pg.as_str());
    out.append("</PageNumber></Pagination></");
    out.append(list_type);
    out.append(">");
    out
}

/// Declares serde_json's dynamically shaped value so the decoders can
/// hand it between the trusted calls; it stays opaque here.
#[verifier::external_type_specification]
#[verifier::external_body]
pub struct ExValue(serde_json::Value);

/// The tree that the XML decoder yields for a document, still in the
/// decoder's raw shape, or `None` for a document it rejects; a function
/// of the document text alone.
pub uninterp spec fn xml_decode_of(s: Seq<char>) -> Option<Node>;

/// The tree that the JSON parser yields for a document, or `None` for
/// one it rejects; a function of the document text alone.
pub uninterp spec fn json_decode_of(s: Seq<char>) -> Option<Node>;

/// Relies on serde_json::Value's shape alone: maps each variant to the
/// matching `Node` variant, field by field — strings, booleans and
/// numbers to their text, arrays and objects element by element, an
/// object's fields in its map's iteration order.
#[verifier::external_body]
fn node_from_value(v: &serde_json::Value) -> Node {
    match v {
        serde_json::Value::Null => Node::Null,
        serde_json::Value::Bool(b) => Node::Scalar(b.to_string()),
        serde_json::Value::Number(n) => Node::Scalar(n.to_string()),
        serde_json::Value::String(s) => Node::Scalar(s.clone()),
        serde_json::Value::Array(a) => Node::Arr(a.iter().map(|x| node_from_value(x)).collect()),
        serde_json::Value::Object(m) => Node::Obj(
            m.iter().map(|(k, x)| (k.clone(), node_from_value(x))).collect(),
        ),
    }
}

/// Relies on quick_xml's serde deserializer: it decodes one XML
/// document, deterministically in the text alone, and rejects a
/// malformed one with an error; the result is converted to a `Node`.
#[verifier::external_body]
fn parse_xml(s: &str) -> (r: Result<Node, String>)
    ensures
        r is Ok <==> xml_decode_of(s@) is Some,
        r matches Ok(t) ==> xml_decode_of(s@) == Some(t),
{
    match quick_xml::de::from_str::<serde_json::Value>(s) {
        Ok(v) => Ok(node_from_value(&v)),
        Err(e) => Err(e.to_string()),
    }
}

/// Relies on serde_json's parser: it decodes one JSON document,
/// deterministically in the text alone, and rejects a malformed one
/// with an error; the result is converted to a `Node`.
#[verifier::external_body]
fn parse_json(s: &str) -> (r: Result<Node, String>)
    ensures
        r is Ok <==> json_decode_of(s@) is Some,
        r matches Ok(t) ==> json_decode_of(s@) == Some(t),
{
    match serde_json::from_str::<serde_json::Value>(s) {
        Ok(v) => Ok(node_from_value(&v)),
        Err(e) => Err(e.to_string()),
    }
}

/// Decodes an XML response body into a `Node` tree in the common
/// normalized shape: exactly the bodies the decoder accepts decode, and
/// the result is the normalization of what it yielded; a body it
/// rejects becomes a decode error carrying the decoder's words.
pub fn decode_xml_response(body: &str) -> (r: Result<Node, ApiError>)
    ensures
        r is Ok <==> xml_decode_of(body@) is Some,
        r matches Ok(t) ==> (xml_decode_of(body@) matches Some(raw)
            && crate::normalize::is_normal_of(raw, t)),
        r matches Err(e) ==> e is Decode,
{
    match parse_xml(body) {
        Ok(raw) => Ok(crate::normalize::normalize(raw)),
        Err(msg) => Err(ApiError::Decode(msg)),
    }
}

/// Decodes a JSON response body into a `Node` tree: exactly the bodies
/// the parser accepts decode, to exactly the tree it yielded; a body it
/// rejects becomes a decode error carrying the parser's words.
pub fn decode_json_response(body: &str) -> (r: Result<Node, ApiError>)
    ensures
        r is Ok <==> json_decode_of(body@) is Some,
        r matches Ok(t) ==> json_decode_of(body@) == Some(t),
        r matches Err(e) ==> e is Decode,
{
    match parse_json(body) {
        Ok(t) => Ok(t),
        Err(msg) => Err(ApiError::Decode(msg)),
    }
}

/// Whether the decoded payload's acknowledgement field denotes failure
/// or partial failure.
pub open spec fn spec_ack_failure(tree: Node) -> bool {
    match tree.spec_get("Ack"@) {
        Some(Node::Scalar(s)) => s@ == "Failure"@ || s@ == "PartialFailure"@,
        _ => false,
    }
}

/// Whether the tree's acknowledgement field denotes failure.
pub fn is_failure_ack(tree: &Node) -> (r: bool)
    ensures
        r == spec_ack_failure(*tree),
{
    match tree.get("Ack") {
        Some(flag) => match flag {
            Node::Scalar(s) => str_eq(s.as_str(), "Failure") || str_eq(
                s.as_str(),
                "PartialFailure",
            ),
            _ => false,
        },
        None => false,
    }
}

/// Inspects a well-formed response: a payload whose acknowledgement
/// field denotes failure or partial failure becomes an application
/// error carrying whatever error-detail substructure is present —
/// whatever the HTTP status was; any other payload passes unchanged.
pub fn check_acknowledgement(tree: Node) -> (r: Result<Node, ApiError>)
    ensures
        spec_ack_failure(tree) ==> r == Err::<Node, ApiError>(
            ApiError::Application(tree.spec_get("Errors"@)),
        ),
        !spec_ack_failure(tree) ==> r == Ok::<Node, ApiError>(tree),
{
    if is_failure_ack(&tree) {
        let errs = tree.take("Errors");
        Err(ApiError::Application(errs))
    } else {
        Ok(tree)
    }
}

/// Decodes an XML response body and inspects its acknowledgement: what
/// a call returns once the transport has answered with success. Exactly
/// the bodies the decoder rejects give a decode error; a body that
/// decodes to a payload without a failing acknowledgement is owed
/// success, and a tree this hands out never carries one.
pub fn decode_and_check(body: &str) -> (r: Result<Node, ApiError>)
    ensures
        xml_decode_of(body@) is None <==> (r matches Err(e) && e is Decode),
        r matches Ok(t) ==> (xml_decode_of(body@) matches Some(raw)
            && crate::normalize::is_normal_of(raw, t) && !spec_ack_failure(t)),
        r matches Err(e) ==> (e is Decode || e is Application),
        (xml_decode_of(body@) matches Some(raw) && (forall|t: Node|
            crate::normalize::is_normal_of(raw, t) ==> !spec_ack_failure(t))) ==> r is Ok,
{
    match decode_xml_response(body) {
        Ok(t) => check_acknowledgement(t),
        Err(e) => Err(e),
    }
}

} // verus!
