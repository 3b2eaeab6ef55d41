//! A parsed XML document as a flat list of nodes in document order, and
//! lookups of elements by their bare local name.
use vstd::prelude::*;

verus! {

/// One node of a parsed document. Nodes are listed in document order, so the
/// subtree of the node at index `i` is the range `i .. i + subtree_len`.
pub struct XmlNode {
    /// Whether the node is an element (rather than text, a comment, ...).
    pub is_element: bool,
    /// The element's local name, without any namespace prefix.
    pub name: String,
    /// The element's own text (its first child, when that is text).
    pub text: Option<String>,
    /// The element's attributes as (local name, value), in source order.
    pub attributes: Vec<(String, String)>,
    /// The number of nodes in the subtree rooted here, this one included.
    pub subtree_len: usize,
}

/// The mathematical view of an [`XmlNode`].
pub struct NodeView {
    pub is_element: bool,
    pub name: Seq<char>,
    pub text: Option<Seq<char>>,
    pub attributes: Seq<(Seq<char>, Seq<char>)>,
    pub subtree_len: nat,
}

impl View for XmlNode {
    type V = NodeView;

    open spec fn view(&self) -> NodeView {
        NodeView {
            is_element: self.is_element,
            name: self.name@,
            text: self.text.deep_view(),
            attributes: self.attributes.deep_view(),
            subtree_len: self.subtree_len as nat,
        }
    }
}

/// The views of a list of nodes.
pub open spec fn nodes_view(v: Seq<XmlNode>) -> Seq<NodeView> {
    v.map_values(|n: XmlNode| n@)
}

/// The nodes of the document that `xml` holds, in document order, or the
/// parser's error text where `xml` is not a well-formed document.
pub uninterp spec fn parsed_document(xml: Seq<char>) -> Result<Seq<NodeView>, Seq<char>>;

/// The nodes of the document that `xml` holds, or `None` where it holds none.
pub open spec fn document_nodes(xml: Seq<char>) -> Option<Seq<NodeView>> {
    match parsed_document(xml) {
        Ok(nodes) => Some(nodes),
        Err(_) => None,
    }
}

/// Relies on `roxmltree::Document::parse`, walked with `descendants` from the
/// root: the result depends on the text alone, and each node is read through
/// `is_element`, `tag_name().name()`, `text`, `attributes` and the length of
/// its own `descendants`; a refused text gives the error's `Display` text.
#[verifier::external_body]
pub(crate) fn parse_nodes(xml: &str) -> (r: Result<Vec<XmlNode>, String>)
    ensures
        match r {
            Ok(v) => parsed_document(xml@) == Ok::<Seq<NodeView>, Seq<char>>(nodes_view(v@)),
            Err(e) => parsed_document(xml@) == Err::<Seq<NodeView>, Seq<char>>(e@),
        },
{
    match roxmltree::Document::parse(xml) {
        Ok(doc) => Ok(doc.descendants().map(|n| XmlNode {
            is_element: n.is_element(),
            name: n.tag_name().name().to_string(),
            text: n.text().map(|t| t.to_string()),
            attributes: n.attributes().map(|a| (a.name().to_string(), a.value().to_string())).collect(),
            subtree_len: n.descendants().len(),
        }).collect()),
        Err(e) => Err(e.to_string()),
    }
}

/// Whether `n` is an element with local name `name`.
pub open spec fn is_tag(n: NodeView, name: Seq<char>) -> bool {
    n.is_element && n.name == name
}

/// The index one past the subtree of node `i`, kept within the list.
pub open spec fn subtree_end(nodes: Seq<NodeView>, i: int) -> int {
    if i + nodes[i].subtree_len < nodes.len() {
        i + nodes[i].subtree_len
    } else {
        nodes.len() as int
    }
}

/// The first element named `name` among the nodes at indices `lo .. hi`.
pub open spec fn find_tag(nodes: Seq<NodeView>, name: Seq<char>, lo: int, hi: int) -> Option<int>
    decreases hi - lo,
{
    if lo < 0 || lo >= hi || lo >= nodes.len() {
        None
    } else if is_tag(nodes[lo], name) {
        Some(lo)
    } else {
        find_tag(nodes, name, lo + 1, hi)
    }
}

/// The text of the first element named `name` in `lo .. hi`: `None` where
/// there is no such element or it has no text.
pub open spec fn required_text(nodes: Seq<NodeView>, name: Seq<char>, lo: int, hi: int) -> Option<
    Seq<char>,
> {
    match find_tag(nodes, name, lo, hi) {
        Some(i) => nodes[i].text,
        None => None,
    }
}

/// An optional field: `Some(t)` where the first element named `name` in
/// `lo .. hi` has text `t`, and `None` where there is no such element or it
/// has no text.
pub open spec fn optional_text(nodes: Seq<NodeView>, name: Seq<char>, lo: int, hi: int) -> Option<
    Seq<char>,
> {
    match find_tag(nodes, name, lo, hi) {
        Some(i) => nodes[i].text,
        None => None,
    }
}

/// The value of the first attribute of `attrs` with local name `name`.
pub open spec fn attribute_value(attrs: Seq<(Seq<char>, Seq<char>)>, name: Seq<char>) -> Option<
    Seq<char>,
>
    decreases attrs.len(),
{
    if attrs.len() == 0 {
        None
    } else if attrs[0].0 == name {
        Some(attrs[0].1)
    } else {
        attribute_value(attrs.drop_first(), name)
    }
}

/// The first element named `name` among the nodes at indices `lo .. hi`.
pub fn find_tag_in(nodes: &Vec<XmlNode>, name: &str, lo: usize, hi: usize) -> (r: Option<usize>)
    ensures
        match r {
            Some(i) => find_tag(nodes_view(nodes@), name@, lo as int, hi as int) == Some(i as int)
                && i < nodes@.len(),
            None => find_tag(nodes_view(nodes@), name@, lo as int, hi as int) is None,
        },
{
    let ghost view = nodes_view(nodes@);
    let wanted = String::from_str(name);
    let mut i: usize = lo;
    while i < hi && i < nodes.len()
        invariant
            lo <= i,
            view == nodes_view(nodes@),
            wanted@ == name@,
            find_tag(view, name@, lo as int, hi as int) == find_tag(view, name@, i as int, hi as int),
        decreases hi - i,
    {
        let node = &nodes[i];
        assert(view[i as int] == node@);
        if node.is_element && node.name == wanted {
            return Some(i);
        }
        i = i + 1;
    }
    None
}

/// The index one past the subtree of node `i`, kept within the list.
pub fn subtree_end_of(nodes: &Vec<XmlNode>, i: usize) -> (r: usize)
    requires
        i < nodes@.len(),
    ensures
        r == subtree_end(nodes_view(nodes@), i as int),
        i <= r <= nodes@.len(),
{
    let len = nodes[i].subtree_len;
    assert(nodes_view(nodes@)[i as int] == nodes@[i as int]@);
    if len < nodes.len() - i {
        i + len
    } else {
        nodes.len()
    }
}

/// The value of the first attribute of `attrs` with local name `name`.
pub fn attribute_of(attrs: &Vec<(String, String)>, name: &str) -> (r: Option<String>)
    ensures
        r.deep_view() == attribute_value(attrs.deep_view(), name@),
{
    let wanted = String::from_str(name);
    let ghost view = attrs.deep_view();
    let mut i: usize = 0;
    assert(view.subrange(0, view.len() as int) =~= view);
    while i < attrs.len()
        invariant
            i <= attrs@.len(),
            view.len() == attrs@.len(),
            view == attrs.deep_view(),
            wanted@ == name@,
            attribute_value(view, name@) == attribute_value(view.subrange(i as int, view.len() as int), name@),
        decreases attrs@.len() - i,
    {
        let ghost rest = view.subrange(i as int, view.len() as int);
        assert(rest.drop_first() =~= view.subrange(i + 1, view.len() as int));
        if attrs[i].0 == wanted {
            return Some(attrs[i].1.clone());
        }
        i = i + 1;
    }
    None
}

} // verus!
