//! The metadata tree that the remote backend reports, and the search of its
//! keys for a title.

use vstd::prelude::*;

use crate::text::{contains, contains_text, is_blank, is_blank_text, trim, trimmed};

verus! {

broadcast use vstd::std_specs::vec::group_vec_axioms;

/// A node of a metadata tree.
#[derive(Debug)]
pub enum MetaNode {
    Null,
    /// A number or a boolean, as its JSON text.
    Scalar(String),
    /// A string.
    Text(String),
    Array(Vec<MetaNode>),
    /// Key and value pairs, in the tree's own key order.
    Object(Vec<(String, MetaNode)>),
}

/// The key searched for a title.
pub const TITLE_KEY: &'static str = "title";

impl MetaNode {
    /// The text form of a scalar node (not of `Null`).
    pub open spec fn scalar_text(&self) -> Option<Seq<char>> {
        match self {
            MetaNode::Scalar(s) => Some(s@),
            MetaNode::Text(s) => Some(s@),
            _ => None,
        }
    }

    /// A scalar whose text form is not blank.
    pub open spec fn is_filled_scalar(&self) -> bool {
        self.scalar_text() is Some && !is_blank(self.scalar_text()->0)
    }

    /// A string node whose text is not blank.
    pub open spec fn is_filled_text(&self) -> bool {
        self is Text && self.is_filled_scalar()
    }

    pub open spec fn child_count(&self) -> nat {
        match self {
            MetaNode::Array(items) => items@.len(),
            MetaNode::Object(entries) => entries@.len(),
            _ => 0,
        }
    }
}

/// The matches of the search for `key` among the first `k` children of `n`,
/// depth first. A key that contains `key` yields its value where that is a
/// filled scalar, and otherwise every filled string below it ("hunt" mode); in
/// hunt mode every filled string is taken. Taken texts are trimmed.
pub open spec fn found_upto(n: MetaNode, k: nat, key: Seq<char>, hunt: bool) -> Seq<Seq<char>>
    decreases n, k,
{
    if k == 0 || k > n.child_count() {
        Seq::empty()
    } else {
        match n {
            MetaNode::Object(entries) => {
                let name = entries[k - 1].0;
                let v = entries[k - 1].1;
                let here = if contains(name@, key) {
                    if v.is_filled_scalar() {
                        seq![trim(v.scalar_text()->0)]
                    } else {
                        found_upto(v, v.child_count(), key, true)
                    }
                } else if hunt && v.is_filled_text() {
                    seq![trim(v.scalar_text()->0)]
                } else {
                    found_upto(v, v.child_count(), key, hunt)
                };
                found_upto(n, (k - 1) as nat, key, hunt) + here
            },
            MetaNode::Array(items) => {
                let v = items[k - 1];
                let here = if hunt && v.is_filled_text() {
                    seq![trim(v.scalar_text()->0)]
                } else {
                    found_upto(v, v.child_count(), key, hunt)
                };
                found_upto(n, (k - 1) as nat, key, hunt) + here
            },
            _ => Seq::empty(),
        }
    }
}

/// All matches of the search for `key` in the tree `n`, in depth-first order.
pub open spec fn found(n: MetaNode, key: Seq<char>, hunt: bool) -> Seq<Seq<char>> {
    found_upto(n, n.child_count(), key, hunt)
}

/// The title that a metadata tree gives: the first match for "title", or the
/// empty text.
pub open spec fn meta_title(n: MetaNode) -> Seq<char> {
    let f = found(n, TITLE_KEY@, false);
    if f.len() > 0 {
        f[0]
    } else {
        Seq::empty()
    }
}

/// The trimmed text of a scalar node.
fn scalar_trimmed(v: &MetaNode) -> (r: String)
    requires
        v.scalar_text() is Some,
    ensures
        r@ == trim(v.scalar_text()->0),
{
    match v {
        MetaNode::Scalar(s) => trimmed(s.as_str()),
        MetaNode::Text(s) => trimmed(s.as_str()),
        _ => String::new(),
    }
}

/// Whether `v` is a scalar with a text that is not blank.
fn filled_scalar(v: &MetaNode) -> (r: bool)
    ensures
        r == v.is_filled_scalar(),
{
    match v {
        MetaNode::Scalar(s) => !is_blank_text(s.as_str()),
        MetaNode::Text(s) => !is_blank_text(s.as_str()),
        _ => false,
    }
}

/// Whether `v` is a string with a text that is not blank.
fn filled_text(v: &MetaNode) -> (r: bool)
    ensures
        r == v.is_filled_text(),
{
    match v {
        MetaNode::Text(s) => !is_blank_text(s.as_str()),
        _ => false,
    }
}

/// Searches the tree `node` for keys that contain `search`; see `found`.
pub fn searchkey(node: &MetaNode, search: &str, hunt: bool) -> (r: Vec<String>)
    ensures
        r.deep_view() == found(*node, search@, hunt),
    decreases node,
{
    let mut out: Vec<String> = Vec::new();
    match node {
        MetaNode::Object(entries) => {
            let mut i: usize = 0;
            while i < entries.len()
                invariant
                    *node == MetaNode::Object(*entries),
                    i <= entries.len(),
                    out.deep_view() == found_upto(*node, i as nat, search@, hunt),
                decreases entries.len() - i,
            {
                let name = &entries[i].0;
                let v = &entries[i].1;
                let mut here: Vec<String> = if contains_text(name.as_str(), search) {
                    if filled_scalar(v) {
                        vec![scalar_trimmed(v)]
                    } else {
                        searchkey(v, search, true)
                    }
                } else if hunt && filled_text(v) {
                    vec![scalar_trimmed(v)]
                } else {
                    searchkey(v, search, hunt)
                };
                let ghost before = out@;
                let ghost added = here@;
                out.append(&mut here);
                assert(out.deep_view() =~= before.map_values(|s: String| s@) + added.map_values(
                    |s: String| s@,
                ));
                i = i + 1;
            }
        },
        MetaNode::Array(items) => {
            let mut i: usize = 0;
            while i < items.len()
                invariant
                    *node == MetaNode::Array(*items),
                    i <= items.len(),
                    out.deep_view() == found_upto(*node, i as nat, search@, hunt),
                decreases items.len() - i,
            {
                let v = &items[i];
                let mut here: Vec<String> = if hunt && filled_text(v) {
                    vec![scalar_trimmed(v)]
                } else {
                    searchkey(v, search, hunt)
                };
                let ghost before = out@;
                let ghost added = here@;
                out.append(&mut here);
                assert(out.deep_view() =~= before.map_values(|s: String| s@) + added.map_values(
                    |s: String| s@,
                ));
                i = i + 1;
            }
        },
        _ => {},
    }
    out
}

} // verus!
