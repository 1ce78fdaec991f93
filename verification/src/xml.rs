//! A flat model of a parsed XML document and the queries that locate the
//! parts of an EPUB's metadata the viewer needs.
//!
//! The nodes stand in document order, as the parser numbers them: node 0 is
//! the document itself, and each node knows the number of its parent.

use crate::text::same_text;
use vstd::prelude::*;

verus! {

/// An attribute by its local name.
pub struct XmlAttribute {
    pub name: String,
    pub value: String,
}

/// One node of a parsed document. Nodes that are not elements have an empty
/// name and no attributes.
pub struct XmlNode {
    pub is_element: bool,
    pub name: String,
    pub attributes: Vec<XmlAttribute>,
    pub parent: Option<usize>,
}

/// The model of a node.
pub struct XmlNodeView {
    pub is_element: bool,
    pub name: Seq<char>,
    pub attributes: Seq<(Seq<char>, Seq<char>)>,
    pub parent: Option<usize>,
}

impl View for XmlNode {
    type V = XmlNodeView;

    open spec fn view(&self) -> XmlNodeView {
        XmlNodeView {
            is_element: self.is_element,
            name: self.name@,
            attributes: self.attributes@.map_values(|a: XmlAttribute| (a.name@, a.value@)),
            parent: self.parent,
        }
    }
}

/// The model of a whole document.
pub open spec fn nodes_view(nodes: Seq<XmlNode>) -> Seq<XmlNodeView> {
    nodes.map_values(|n: XmlNode| n@)
}

/// What parsing `text` gives: `None` where the text is not well-formed XML,
/// else its nodes in document order.
pub uninterp spec fn xml_document(text: Seq<char>) -> Option<Seq<XmlNodeView>>;

/// Calls `roxmltree::Document::parse` and lists the document's nodes in
/// document order (`Document::descendants`), each with its kind, its tag's
/// local name, its attributes' local names and values, and the number of its
/// parent. The result depends on the text alone.
#[verifier::external_body]
pub(crate) fn parse_xml(text: &str) -> (r: Option<Vec<XmlNode>>)
    ensures
        match r {
            Some(v) => xml_document(text@) == Some(nodes_view(v@)),
            None => xml_document(text@) is None,
        },
{
    let doc = roxmltree::Document::parse(text).ok()?;
    Some(doc.descendants().map(|n| XmlNode {
        is_element: n.is_element(),
        name: n.tag_name().name().to_string(),
        attributes: n.attributes().map(|a| XmlAttribute { name: a.name().to_string(), value: a.value().to_string() }).collect(),
        parent: n.parent().map(|p| p.id().get_usize()),
    }).collect())
}

/// The value of the first attribute of `n` whose local name is `key`.
pub open spec fn attribute_of(n: XmlNodeView, key: Seq<char>) -> Option<Seq<char>> {
    attribute_from(n.attributes, key, 0)
}

/// The value of the first attribute at or after `i` whose name is `key`.
pub open spec fn attribute_from(attrs: Seq<(Seq<char>, Seq<char>)>, key: Seq<char>, i: int) -> Option<Seq<char>>
    decreases attrs.len() - i,
{
    if i < 0 || i >= attrs.len() {
        None
    } else if attrs[i].0 == key {
        Some(attrs[i].1)
    } else {
        attribute_from(attrs, key, i + 1)
    }
}

/// The value of the first attribute of `node` named `key`.
pub fn attribute<'a>(node: &'a XmlNode, key: &str) -> (r: Option<&'a str>)
    ensures
        match r {
            Some(v) => attribute_of(node@, key@) == Some(v@),
            None => attribute_of(node@, key@) is None,
        },
{
    let ghost attrs = node@.attributes;
    let mut i: usize = 0;
    while i < node.attributes.len()
        invariant
            i <= node.attributes@.len(),
            attrs == node@.attributes,
            attribute_of(node@, key@) == attribute_from(attrs, key@, i as int),
        decreases node.attributes@.len() - i,
    {
        let a = &node.attributes[i];
        assert(attrs[i as int] == (a.name@, a.value@));
        if same_text(a.name.as_str(), key) {
            return Some(a.value.as_str());
        }
        i = i + 1;
    }
    None
}

/// A conjunction of conditions on a node.
pub struct NodeFilter {
    /// The node's parent must be this node.
    pub parent: Option<usize>,
    /// The node must be an element.
    pub element: bool,
    /// The node must be an element with this local name.
    pub name: Option<String>,
    /// The node must have an attribute with this name.
    pub has_attribute: Option<String>,
    /// The node's attribute with the first name must have the second as value.
    pub attribute_equals: Option<(String, String)>,
}

/// The model of a filter.
pub struct NodeFilterView {
    pub parent: Option<usize>,
    pub element: bool,
    pub name: Option<Seq<char>>,
    pub has_attribute: Option<Seq<char>>,
    pub attribute_equals: Option<(Seq<char>, Seq<char>)>,
}

impl View for NodeFilter {
    type V = NodeFilterView;

    open spec fn view(&self) -> NodeFilterView {
        NodeFilterView {
            parent: self.parent,
            element: self.element,
            name: match self.name {
                Some(s) => Some(s@),
                None => None,
            },
            has_attribute: match self.has_attribute {
                Some(s) => Some(s@),
                None => None,
            },
            attribute_equals: match self.attribute_equals {
                Some((k, v)) => Some((k@, v@)),
                None => None,
            },
        }
    }
}

/// Whether `n` meets every condition of `f`.
pub open spec fn accepts(f: NodeFilterView, n: XmlNodeView) -> bool {
    &&& (f.parent matches Some(p) ==> n.parent == Some(p))
    &&& (f.element ==> n.is_element)
    &&& (f.name matches Some(name) ==> n.is_element && n.name == name)
    &&& (f.has_attribute matches Some(k) ==> attribute_of(n, k) is Some)
    &&& (f.attribute_equals matches Some((k, v)) ==> attribute_of(n, k) == Some(v))
}

/// The first node in `from..end` that `f` accepts.
pub open spec fn first_accepted(nodes: Seq<XmlNodeView>, f: NodeFilterView, from: int, end: int) -> Option<int>
    decreases end - from,
{
    if from < 0 || from >= end || from >= nodes.len() {
        None
    } else if accepts(f, nodes[from]) {
        Some(from)
    } else {
        first_accepted(nodes, f, from + 1, end)
    }
}

/// Whether `f` accepts `node`.
pub fn node_accepted(f: &NodeFilter, node: &XmlNode) -> (r: bool)
    ensures
        r == accepts(f@, node@),
{
    if let Some(p) = f.parent {
        match node.parent {
            Some(q) => {
                if p != q {
                    return false;
                }
            },
            None => {
                return false;
            },
        }
    }
    if f.element && !node.is_element {
        return false;
    }
    if let Some(name) = &f.name {
        if !node.is_element || !same_text(node.name.as_str(), name.as_str()) {
            return false;
        }
    }
    if let Some(k) = &f.has_attribute {
        if attribute(node, k.as_str()).is_none() {
            return false;
        }
    }
    if let Some((k, v)) = &f.attribute_equals {
        match attribute(node, k.as_str()) {
            Some(found) => {
                if !same_text(found, v.as_str()) {
                    return false;
                }
            },
            None => {
                return false;
            },
        }
    }
    true
}

/// The first node in `from..end` that `f` accepts.
pub fn find_node(nodes: &Vec<XmlNode>, f: &NodeFilter, from: usize, end: usize) -> (r: Option<usize>)
    requires
        end <= nodes@.len(),
    ensures
        match r {
            Some(i) => first_accepted(nodes_view(nodes@), f@, from as int, end as int) == Some(i as int),
            None => first_accepted(nodes_view(nodes@), f@, from as int, end as int) is None,
        },
        r matches Some(i) ==> from <= i < end && accepts(f@, nodes@[i as int]@),
{
    let ghost all = nodes_view(nodes@);
    let mut i = from;
    while i < end
        invariant
            from <= i,
            end <= nodes@.len(),
            all == nodes_view(nodes@),
            first_accepted(all, f@, from as int, end as int) == first_accepted(all, f@, i as int, end as int),
        decreases end - i,
    {
        assert(all[i as int] == nodes@[i as int]@);
        if node_accepted(f, &nodes[i]) {
            return Some(i);
        }
        i = i + 1;
    }
    None
}

} // verus!
