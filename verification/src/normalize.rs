//! Normalizing a freshly decoded tree into the common shape.
//!
//! The XML decoder wraps an element's own text under a `$text` key and
//! prefixes attribute names with `@`. The common tree shape that the
//! flattener's paths walk uses `_` for a node's own text and bare
//! attribute names, and collapses an element that holds nothing but
//! text into a bare scalar. This pass rewrites one shape into the other.

use vstd::prelude::*;

use crate::node::Node;
use crate::node::str_eq;

verus! {

/// The normalized form of one field name: the decoder's text key
/// becomes `_`; an attribute name loses its `@` prefix; anything else
/// is kept.
pub open spec fn spec_key(k: Seq<char>) -> Seq<char> {
    if k == "$text"@ {
        "_"@
    } else if k.len() > 0 && k[0] == '@' {
        k.skip(1)
    } else {
        k
    }
}

/// Whether `b` is the normalized form of `a`: scalars and nulls are
/// kept; an object holding nothing but a scalar text value collapses to
/// that scalar; every other object keeps its fields in order, each name
/// normalized and each value normalized recursively; arrays are
/// normalized element by element.
pub open spec fn is_normal_of(a: Node, b: Node) -> bool
    decreases a,
{
    match a {
        Node::Null => b is Null,
        Node::Scalar(s) => match b {
            Node::Scalar(t) => t@ == s@,
            _ => false,
        },
        Node::Arr(xs) => match b {
            Node::Arr(ys) => ys@.len() == xs@.len() && (forall|i: int|
                0 <= i < xs@.len() ==> is_normal_of(#[trigger] xs@[i], ys@[i])),
            _ => false,
        },
        Node::Obj(fields) => {
            if fields@.len() == 1 && fields@[0].0@ == "$text"@ && fields@[0].1 is Scalar {
                match b {
                    Node::Scalar(t) => t@ == fields@[0].1->Scalar_0@,
                    _ => false,
                }
            } else {
                match b {
                    Node::Obj(g) => g@.len() == fields@.len() && (forall|i: int|
                        0 <= i < fields@.len() ==> (#[trigger] g@[i]).0@ == spec_key(
                            fields@[i].0@,
                        ) && is_normal_of(fields@[i].1, g@[i].1)),
                    _ => false,
                }
            }
        },
    }
}

/// Normalizes one field name.
pub fn map_key(k: String) -> (r: String)
    ensures
        r@ == spec_key(k@),
{
    if str_eq(k.as_str(), "$text") {
        return String::from_str("_");
    }
    let n = k.as_str().unicode_len();
    if n > 0 && k.as_str().get_char(0) == '@' {
        let rest = k.as_str().substring_char(1, n);
        let out = String::from_str(rest);
        proof {
            assert(out@ =~= k@.skip(1));
        }
        out
    } else {
        k
    }
}

/// Rewrites a freshly decoded tree into the common normalized shape.
#[verifier::loop_isolation(false)]
pub fn normalize(n: Node) -> (r: Node)
    ensures
        is_normal_of(n, r),
    decreases n,
{
    match n {
        Node::Null => Node::Null,
        Node::Scalar(s) => Node::Scalar(s),
        Node::Arr(mut xs) => {
            let ghost xs0 = xs@;
            let mut ys: Vec<Node> = Vec::new();
            let mut i: usize = 0;
            let total = xs.len();
            while i < total
                invariant
                    0 <= i <= total,
                    xs@ == xs0.subrange(i as int, total as int),
                    ys@.len() == i,
                    forall|j: int| 0 <= j < i ==> is_normal_of(#[trigger] xs0[j], ys@[j]),
                decreases total - i,
            {
                let x = xs.remove(0);
                proof {
                    assert(x == xs0[i as int]);
                    assert(xs@ =~= xs0.subrange(i + 1, total as int));
                    assert(decreases_to!(n => x));
                }
                let y = normalize(x);
                ys.push(y);
                i = i + 1;
            }
            Node::Arr(ys)
        },
        Node::Obj(mut fields) => {
            let ghost fs0 = fields@;
            if fields.len() == 1 && str_eq(fields[0].0.as_str(), "$text") && (matches!(
                &fields[0].1,
                Node::Scalar(_),
            )) {
                let pair = fields.remove(0);
                match pair.1 {
                    Node::Scalar(t) => Node::Scalar(t),
                    _ => Node::Null,
                }
            } else {
                let mut g: Vec<(String, Node)> = Vec::new();
                let mut i: usize = 0;
                let total = fields.len();
                while i < total
                    invariant
                        0 <= i <= total,
                        fields@ == fs0.subrange(i as int, total as int),
                        g@.len() == i,
                        forall|j: int|
                            0 <= j < i ==> (#[trigger] g@[j]).0@ == spec_key(fs0[j].0@)
                                && is_normal_of(fs0[j].1, g@[j].1),
                    decreases total - i,
                {
                    let pair = fields.remove(0);
                    proof {
                        assert(pair == fs0[i as int]);
                        assert(fields@ =~= fs0.subrange(i + 1, total as int));
                        assert(decreases_to!(n => pair.1));
                    }
                    let key = map_key(pair.0);
                    let val = normalize(pair.1);
                    g.push((key, val));
                    i = i + 1;
                }
                Node::Obj(g)
            }
        },
    }
}

} // verus!
