//! The semi-structured tree that a decoded API response is held in.
//!
//! Responses arrive as XML or JSON and are decoded into one common shape:
//! a tree of objects, arrays and scalar text values, with no fixed schema.

use vstd::prelude::*;

verus! {

/// One node of a decoded API response tree.
#[derive(Debug)]
pub enum Node {
    /// An absent or empty value.
    Null,
    /// A scalar text value.
    Scalar(String),
    /// An ordered collection of child nodes.
    Arr(Vec<Node>),
    /// An object: a list of named fields; lookup takes the first match.
    Obj(Vec<(String, Node)>),
}

impl Node {
    /// The field bound to `key` from `lo` onward in an object's field list:
    /// the first pair whose name matches, or `None`.
    pub open spec fn spec_get_from(fields: Seq<(String, Node)>, key: Seq<char>, lo: int) -> Option<
        Node,
    >
        decreases fields.len() - lo,
    {
        if lo < 0 || lo >= fields.len() {
            None
        } else if fields[lo].0@ == key {
            Some(fields[lo].1)
        } else {
            Self::spec_get_from(fields, key, lo + 1)
        }
    }

    /// The value bound to `key`: the first matching field of an object node,
    /// `None` for a missing key or a non-object node.
    pub open spec fn spec_get(self, key: Seq<char>) -> Option<Node> {
        match self {
            Node::Obj(fields) => Self::spec_get_from(fields@, key, 0),
            _ => None,
        }
    }

    /// Looks `key` up in this node, borrowing the bound value.
    #[verifier::loop_isolation(false)]
    pub fn get<'a>(&'a self, key: &str) -> (r: Option<&'a Node>)
        ensures
            match r {
                Some(n) => self.spec_get(key@) == Some(*n),
                None => self.spec_get(key@) is None,
            },
    {
        match self {
            Node::Obj(fields) => {
                let mut i: usize = 0;
                while i < fields.len()
                    invariant
                        0 <= i <= fields@.len(),
                        Self::spec_get_from(fields@, key@, 0) == Self::spec_get_from(
                            fields@,
                            key@,
                            i as int,
                        ),
                    decreases fields@.len() - i,
                {
                    if str_eq(fields[i].0.as_str(), key) {
                        assert(Self::spec_get_from(fields@, key@, i as int) == Some(
                            fields@[i as int].1,
                        ));
                        return Some(&fields[i].1);
                    }
                    assert(Self::spec_get_from(fields@, key@, i as int) == Self::spec_get_from(
                        fields@,
                        key@,
                        i + 1,
                    ));
                    i = i + 1;
                }
                None
            },
            _ => None,
        }
    }

    /// Looks `key` up in this node, consuming it and handing the bound value out.
    #[verifier::loop_isolation(false)]
    pub fn take(self, key: &str) -> (r: Option<Node>)
        ensures
            r == self.spec_get(key@),
    {
        let ghost orig = self;
        match self {
            Node::Obj(mut fields) => {
                let ghost fields0 = fields@;
                let mut i: usize = 0;
                while i < fields.len()
                    invariant
                        0 <= i <= fields@.len(),
                        fields@ == fields0,
                        orig == Node::Obj(fields),
                        Self::spec_get_from(fields@, key@, 0) == Self::spec_get_from(
                            fields@,
                            key@,
                            i as int,
                        ),
                    decreases fields@.len() - i,
                {
                    if str_eq(fields[i].0.as_str(), key) {
                        assert(Self::spec_get_from(fields@, key@, i as int) == Some(
                            fields@[i as int].1,
                        ));
                        let pair = fields.remove(i);
                        return Some(pair.1);
                    }
                    assert(Self::spec_get_from(fields@, key@, i as int) == Self::spec_get_from(
                        fields@,
                        key@,
                        i + 1,
                    ));
                    i = i + 1;
                }
                None
            },
            _ => None,
        }
    }

    /// The scalar text of this node, or the empty string for any other shape.
    pub open spec fn spec_scalar(self) -> Seq<char> {
        match self {
            Node::Scalar(s) => s@,
            _ => Seq::empty(),
        }
    }

    /// The scalar text of this node, empty for any other shape.
    pub fn scalar_text(&self) -> (r: String)
        ensures
            r@ == self.spec_scalar(),
    {
        match self {
            Node::Scalar(s) => s.clone(),
            _ => String::new(),
        }
    }
}

/// Relies on str's `PartialEq`: two string slices are equal exactly when
/// their character sequences are.
#[verifier::external_body]
pub(crate) fn str_eq(a: &str, b: &str) -> (r: bool)
    ensures
        r == (a@ == b@),
{
    a == b
}

} // verus!
