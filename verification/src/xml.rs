//! A flat, document-ordered view of an XML document, read through roxmltree,
//! and the searches that the ONVIF request handling performs on it.
use vstd::prelude::*;

verus! {

/// One attribute: its namespace URI (if any), its local name and its value.
pub type XmlAttributeData = (Option<Seq<char>>, Seq<char>, Seq<char>);

/// One node of a document, as roxmltree reports it:
/// (is an element, local tag name, text, index of the parent node,
///  number of nodes of its subtree counting itself, attributes).
pub type XmlNodeData = (bool, Seq<char>, Option<Seq<char>>, Option<usize>, usize, Seq<XmlAttributeData>);

#[verifier::external_type_specification]
#[verifier::external_body]
pub struct ExDocument<'input>(roxmltree::Document<'input>);

/// The nodes of a parsed roxmltree document, in document order: entry `i` is
/// the node whose id is `i` (the root is entry 0). roxmltree stores the nodes
/// of a subtree contiguously, so the descendants of node `i` (itself
/// included) are the entries `i .. i + subtree length`.
pub uninterp spec fn xml_document_nodes(doc: roxmltree::Document<'_>) -> Seq<XmlNodeData>;

/// What `roxmltree::Document::parse` makes of a text: `None` where it refuses
/// the text, otherwise the nodes of the document it builds.
pub uninterp spec fn xml_parse(text: Seq<char>) -> Option<Seq<XmlNodeData>>;

// ---------------------------------------------------------------------------
// Accessors of the tuple model
// ---------------------------------------------------------------------------

pub open spec fn xml_is_element(n: XmlNodeData) -> bool {
    n.0
}

pub open spec fn xml_name(n: XmlNodeData) -> Seq<char> {
    n.1
}

pub open spec fn xml_text(n: XmlNodeData) -> Option<Seq<char>> {
    n.2
}

pub open spec fn xml_parent(n: XmlNodeData) -> Option<usize> {
    n.3
}

pub open spec fn xml_subtree_len(n: XmlNodeData) -> usize {
    n.4
}

pub open spec fn xml_attributes(n: XmlNodeData) -> Seq<XmlAttributeData> {
    n.5
}

// ---------------------------------------------------------------------------
// Trusted access to roxmltree
// ---------------------------------------------------------------------------

/// Calls `roxmltree::Document::parse`; the result is `xml_parse` of the text.
#[verifier::external_body]
fn parse_document(text: &str) -> (res: Option<roxmltree::Document<'_>>)
    ensures
        match res {
            Some(doc) => xml_parse(text@) == Some(xml_document_nodes(doc)),
            None => xml_parse(text@) is None,
        },
{
    roxmltree::Document::parse(text).ok()
}

/// `Document::descendants().len()`: the number of nodes of the document.
#[verifier::external_body]
fn document_len(doc: &roxmltree::Document<'_>) -> (n: usize)
    ensures
        n == xml_document_nodes(*doc).len(),
{
    doc.descendants().len()
}

/// `Node::is_element` of the node with id `i`.
#[verifier::external_body]
fn node_is_element(doc: &roxmltree::Document<'_>, i: usize) -> (b: bool)
    requires
        i < xml_document_nodes(*doc).len(),
    ensures
        b == xml_is_element(xml_document_nodes(*doc)[i as int]),
{
    doc.get_node(roxmltree::NodeId::from(i)).unwrap().is_element()
}

/// `Node::tag_name().name()` of the node with id `i` (empty for a non-element).
#[verifier::external_body]
fn node_local_name(doc: &roxmltree::Document<'_>, i: usize) -> (s: String)
    requires
        i < xml_document_nodes(*doc).len(),
    ensures
        s@ == xml_name(xml_document_nodes(*doc)[i as int]),
{
    doc.get_node(roxmltree::NodeId::from(i)).unwrap().tag_name().name().to_string()
}

/// `Node::text` of the node with id `i`.
#[verifier::external_body]
fn node_text(doc: &roxmltree::Document<'_>, i: usize) -> (t: Option<String>)
    requires
        i < xml_document_nodes(*doc).len(),
    ensures
        t.deep_view() == xml_text(xml_document_nodes(*doc)[i as int]),
{
    doc.get_node(roxmltree::NodeId::from(i)).unwrap().text().map(String::from)
}

/// `Node::parent` of the node with id `i`, given by the parent's id.
#[verifier::external_body]
fn node_parent(doc: &roxmltree::Document<'_>, i: usize) -> (p: Option<usize>)
    requires
        i < xml_document_nodes(*doc).len(),
    ensures
        p == xml_parent(xml_document_nodes(*doc)[i as int]),
{
    doc.get_node(roxmltree::NodeId::from(i)).unwrap().parent().map(|n| n.id().get_usize())
}

/// `Node::descendants().len()` of the node with id `i`.
#[verifier::external_body]
fn node_subtree_len(doc: &roxmltree::Document<'_>, i: usize) -> (n: usize)
    requires
        i < xml_document_nodes(*doc).len(),
    ensures
        n == xml_subtree_len(xml_document_nodes(*doc)[i as int]),
{
    doc.get_node(roxmltree::NodeId::from(i)).unwrap().descendants().len()
}

/// `Node::attributes().len()` of the node with id `i`.
#[verifier::external_body]
fn node_attribute_count(doc: &roxmltree::Document<'_>, i: usize) -> (n: usize)
    requires
        i < xml_document_nodes(*doc).len(),
    ensures
        n == xml_attributes(xml_document_nodes(*doc)[i as int]).len(),
{
    doc.get_node(roxmltree::NodeId::from(i)).unwrap().attributes().len()
}

/// `Attribute::namespace` of attribute `k` of the node with id `i`.
#[verifier::external_body]
fn attribute_namespace(doc: &roxmltree::Document<'_>, i: usize, k: usize) -> (ns: Option<String>)
    requires
        i < xml_document_nodes(*doc).len(),
        k < xml_attributes(xml_document_nodes(*doc)[i as int]).len(),
    ensures
        ns.deep_view() == xml_attributes(xml_document_nodes(*doc)[i as int])[k as int].0,
{
    doc.get_node(roxmltree::NodeId::from(i)).unwrap().attributes().nth(k).unwrap().namespace().map(
        String::from,
    )
}

/// `Attribute::name` (the local name) of attribute `k` of the node with id `i`.
#[verifier::external_body]
fn attribute_local_name(doc: &roxmltree::Document<'_>, i: usize, k: usize) -> (s: String)
    requires
        i < xml_document_nodes(*doc).len(),
        k < xml_attributes(xml_document_nodes(*doc)[i as int]).len(),
    ensures
        s@ == xml_attributes(xml_document_nodes(*doc)[i as int])[k as int].1,
{
    doc.get_node(roxmltree::NodeId::from(i)).unwrap().attributes().nth(k).unwrap().name().to_string()
}

/// `Attribute::value` of attribute `k` of the node with id `i`.
#[verifier::external_body]
fn attribute_value(doc: &roxmltree::Document<'_>, i: usize, k: usize) -> (s: String)
    requires
        i < xml_document_nodes(*doc).len(),
        k < xml_attributes(xml_document_nodes(*doc)[i as int]).len(),
    ensures
        s@ == xml_attributes(xml_document_nodes(*doc)[i as int])[k as int].2,
{
    doc.get_node(roxmltree::NodeId::from(i)).unwrap().attributes().nth(k).unwrap().value().to_string()
}

// ---------------------------------------------------------------------------
// The library's own copy of a document
// ---------------------------------------------------------------------------

pub struct XmlAttribute {
    pub namespace: Option<String>,
    pub name: String,
    pub value: String,
}

impl View for XmlAttribute {
    type V = XmlAttributeData;

    open spec fn view(&self) -> XmlAttributeData {
        (self.namespace.deep_view(), self.name@, self.value@)
    }
}

pub struct XmlNode {
    pub is_element: bool,
    pub name: String,
    pub text: Option<String>,
    pub parent: Option<usize>,
    pub subtree_len: usize,
    pub attributes: Vec<XmlAttribute>,
}

impl View for XmlNode {
    type V = XmlNodeData;

    open spec fn view(&self) -> XmlNodeData {
        (
            self.is_element,
            self.name@,
            self.text.deep_view(),
            self.parent,
            self.subtree_len,
            self.attributes@.map_values(|a: XmlAttribute| a@),
        )
    }
}

/// The nodes of a document in document order (see `xml_document_nodes`).
pub struct XmlTree {
    pub nodes: Vec<XmlNode>,
}

impl View for XmlTree {
    type V = Seq<XmlNodeData>;

    open spec fn view(&self) -> Seq<XmlNodeData> {
        self.nodes@.map_values(|n: XmlNode| n@)
    }
}

fn copy_attributes(doc: &roxmltree::Document<'_>, i: usize) -> (attrs: Vec<XmlAttribute>)
    requires
        i < xml_document_nodes(*doc).len(),
    ensures
        attrs@.map_values(|a: XmlAttribute| a@) == xml_attributes(xml_document_nodes(*doc)[i as int]),
{
    let ghost want = xml_attributes(xml_document_nodes(*doc)[i as int]);
    let count = node_attribute_count(doc, i);
    let mut attrs: Vec<XmlAttribute> = Vec::new();
    let mut k: usize = 0;
    while k < count
        invariant
            i < xml_document_nodes(*doc).len(),
            want == xml_attributes(xml_document_nodes(*doc)[i as int]),
            count == want.len(),
            k <= count,
            attrs.len() == k,
            forall|m: int| 0 <= m < k ==> (#[trigger] attrs@[m])@ == want[m],
        decreases count - k,
    {
        let namespace = attribute_namespace(doc, i, k);
        let name = attribute_local_name(doc, i, k);
        let value = attribute_value(doc, i, k);
        attrs.push(XmlAttribute { namespace, name, value });
        k = k + 1;
    }
    assert(attrs@.map_values(|a: XmlAttribute| a@) =~= want);
    attrs
}

impl XmlTree {
    /// Copies every node of a roxmltree document, in document order.
    pub fn from_document(doc: &roxmltree::Document<'_>) -> (tree: XmlTree)
        ensures
            tree@ == xml_document_nodes(*doc),
    {
        let ghost want = xml_document_nodes(*doc);
        let count = document_len(doc);
        let mut nodes: Vec<XmlNode> = Vec::new();
        let mut i: usize = 0;
        while i < count
            invariant
                want == xml_document_nodes(*doc),
                count == want.len(),
                i <= count,
                nodes.len() == i,
                forall|m: int| 0 <= m < i ==> (#[trigger] nodes@[m])@ == want[m],
            decreases count - i,
        {
            let is_element = node_is_element(doc, i);
            let name = node_local_name(doc, i);
            let text = node_text(doc, i);
            let parent = node_parent(doc, i);
            let subtree_len = node_subtree_len(doc, i);
            let attributes = copy_attributes(doc, i);
            let node = XmlNode { is_element, name, text, parent, subtree_len, attributes };
            assert(node@ =~= want[i as int]);
            nodes.push(node);
            i = i + 1;
        }
        let tree = XmlTree { nodes };
        assert(tree@ =~= want);
        tree
    }
}

/// Parses a text with roxmltree and copies the document; `None` where
/// roxmltree refuses the text.
pub fn parse_xml(text: &str) -> (res: Option<XmlTree>)
    ensures
        match res {
            Some(tree) => xml_parse(text@) == Some(tree@),
            None => xml_parse(text@) is None,
        },
{
    match parse_document(text) {
        Some(doc) => Some(XmlTree::from_document(&doc)),
        None => None,
    }
}

// ---------------------------------------------------------------------------
// Searches, in the order of roxmltree's iterators
// ---------------------------------------------------------------------------

/// The first index `j` with `lo <= j < hi` at which `pred` holds.
pub open spec fn first_index(lo: int, hi: int, pred: spec_fn(int) -> bool) -> Option<int>
    decreases hi - lo,
{
    if lo >= hi {
        None
    } else if pred(lo) {
        Some(lo)
    } else {
        first_index(lo + 1, hi, pred)
    }
}

/// One past the last descendant of node `i`, kept within the node list.
pub open spec fn subtree_end(nodes: Seq<XmlNodeData>, i: int) -> int {
    if i + xml_subtree_len(nodes[i]) <= nodes.len() {
        i + xml_subtree_len(nodes[i])
    } else {
        nodes.len() as int
    }
}

/// `Node::has_tag_name(name)` for a name without namespace.
pub open spec fn has_tag_name(nodes: Seq<XmlNodeData>, j: int, name: Seq<char>) -> bool {
    xml_is_element(nodes[j]) && xml_name(nodes[j]) == name
}

pub open spec fn tag_name_pred(nodes: Seq<XmlNodeData>, name: Seq<char>) -> spec_fn(int) -> bool {
    |j: int| has_tag_name(nodes, j, name)
}

/// An element whose parent is `parent`.
pub open spec fn element_child_pred(nodes: Seq<XmlNodeData>, parent: int) -> spec_fn(int) -> bool {
    |j: int| xml_is_element(nodes[j]) && xml_parent(nodes[j]) == Some(parent as usize)
}

/// `start.descendants().find(|n| n.has_tag_name(name))`: the first node, in
/// document order, of the subtree of `start` (itself included) that is an
/// element with that local name.
pub open spec fn find_descendant(nodes: Seq<XmlNodeData>, start: int, name: Seq<char>) -> Option<int> {
    if 0 <= start < nodes.len() {
        first_index(start, subtree_end(nodes, start), tag_name_pred(nodes, name))
    } else {
        None
    }
}

/// `parent.children().find(|n| n.is_element())`: the first element, in
/// document order, among the nodes of the subtree of `parent` whose parent
/// it is.
pub open spec fn first_element_child(nodes: Seq<XmlNodeData>, parent: int) -> Option<int> {
    if 0 <= parent < nodes.len() {
        first_index(parent + 1, subtree_end(nodes, parent), element_child_pred(nodes, parent))
    } else {
        None
    }
}

/// `node.text().unwrap_or_default()`.
pub open spec fn text_or_empty(nodes: Seq<XmlNodeData>, i: int) -> Seq<char> {
    match xml_text(nodes[i]) {
        Some(t) => t,
        None => Seq::empty(),
    }
}

pub open spec fn attribute_pred(attrs: Seq<XmlAttributeData>, name: Seq<char>) -> spec_fn(int) -> bool {
    |k: int| attrs[k].0 is None && attrs[k].1 == name
}

/// `node.attribute(name)` for a name without namespace: the value of the first
/// attribute that has no namespace and that local name.
pub open spec fn attribute_named(attrs: Seq<XmlAttributeData>, name: Seq<char>) -> Option<Seq<char>> {
    match first_index(0, attrs.len() as int, attribute_pred(attrs, name)) {
        Some(k) => Some(attrs[k].2),
        None => None,
    }
}

/// `node.attribute(name).unwrap_or_default()`.
pub open spec fn attribute_or_empty(nodes: Seq<XmlNodeData>, i: int, name: Seq<char>) -> Seq<char> {
    match attribute_named(xml_attributes(nodes[i]), name) {
        Some(v) => v,
        None => Seq::empty(),
    }
}

/// What `first_index` returns: the least index in range where the predicate
/// holds, or `None` where it holds nowhere in range.
pub proof fn lemma_first_index(lo: int, hi: int, pred: spec_fn(int) -> bool)
    ensures
        match first_index(lo, hi, pred) {
            Some(j) => lo <= j < hi && pred(j) && forall|k: int| lo <= k < j ==> !#[trigger] pred(k),
            None => forall|k: int| lo <= k < hi ==> !#[trigger] pred(k),
        },
    decreases hi - lo,
{
    if lo < hi && !pred(lo) {
        lemma_first_index(lo + 1, hi, pred);
    }
}

/// `find_descendant` gives the first node of the subtree of `start`, in
/// document order, that is an element with the name, and `None` only where
/// no node of that subtree is.
pub proof fn law_find_descendant_first_match(nodes: Seq<XmlNodeData>, start: int, name: Seq<char>)
    requires
        0 <= start < nodes.len(),
    ensures
        match find_descendant(nodes, start, name) {
            Some(j) => start <= j < subtree_end(nodes, start) && has_tag_name(nodes, j, name)
                && forall|k: int| start <= k < j ==> !#[trigger] has_tag_name(nodes, k, name),
            None => forall|k: int|
                start <= k < subtree_end(nodes, start) ==> !#[trigger] has_tag_name(nodes, k, name),
        },
{
    let pred = tag_name_pred(nodes, name);
    lemma_first_index(start, subtree_end(nodes, start), pred);
    assert(forall|k: int| #[trigger] has_tag_name(nodes, k, name) == pred(k));
}

/// `first_element_child` gives the first element of the subtree of `parent`,
/// in document order, whose parent it is, and `None` only where there is no
/// such element.
pub proof fn law_first_element_child_first_match(nodes: Seq<XmlNodeData>, parent: int)
    requires
        0 <= parent < nodes.len(),
    ensures
        match first_element_child(nodes, parent) {
            Some(j) => parent < j < subtree_end(nodes, parent) && xml_is_element(nodes[j])
                && xml_parent(nodes[j]) == Some(parent as usize) && forall|k: int|
                parent < k < j ==> !#[trigger] element_child_pred(nodes, parent)(k),
            None => forall|k: int|
                parent < k < subtree_end(nodes, parent) ==> !#[trigger] element_child_pred(
                    nodes,
                    parent,
                )(k),
        },
{
    lemma_first_index(parent + 1, subtree_end(nodes, parent), element_child_pred(nodes, parent));
}

/// `j` is, in document order, the first node among `start` and its
/// descendants that is an element with the local name `name`.
pub open spec fn is_first_named(nodes: Seq<XmlNodeData>, start: int, name: Seq<char>, j: int) -> bool {
    &&& 0 <= start < nodes.len()
    &&& start <= j < subtree_end(nodes, start)
    &&& xml_is_element(nodes[j])
    &&& xml_name(nodes[j]) == name
    &&& forall|k: int|
        start <= k < j ==> !(xml_is_element(#[trigger] nodes[k]) && xml_name(nodes[k]) == name)
}

/// `c` is, in document order, the first element among the descendants of
/// `parent` whose parent is `parent`.
pub open spec fn is_first_element_child(nodes: Seq<XmlNodeData>, parent: int, c: int) -> bool {
    &&& 0 <= parent < nodes.len()
    &&& parent < c < subtree_end(nodes, parent)
    &&& xml_is_element(nodes[c])
    &&& xml_parent(nodes[c]) == Some(parent as usize)
    &&& forall|k: int|
        parent < k < c ==> !(xml_is_element(#[trigger] nodes[k]) && xml_parent(nodes[k]) == Some(
            parent as usize,
        ))
}

/// The text of an element as `text().unwrap_or_default()` gives it.
pub open spec fn whole_text(n: XmlNodeData) -> Seq<char> {
    match xml_text(n) {
        Some(t) => t,
        None => Seq::empty(),
    }
}

/// `find_descendant` finds exactly the first element with the name in the
/// subtree, in document order, whatever comes before it.
pub proof fn law_find_descendant_finds_first_named(nodes: Seq<XmlNodeData>, start: int, name: Seq<char>, j: int)
    requires
        is_first_named(nodes, start, name, j),
    ensures
        find_descendant(nodes, start, name) == Some(j),
{
    law_find_descendant_first_match(nodes, start, name);
    match find_descendant(nodes, start, name) {
        Some(m) => {
            if m < j {
                assert(!(xml_is_element(nodes[m]) && xml_name(nodes[m]) == name));
            }
            if j < m {
                assert(!has_tag_name(nodes, j, name));
            }
        },
        None => {
            assert(!has_tag_name(nodes, j, name));
        },
    }
}

/// `find_descendant` finds nothing where no element of the subtree has the
/// name.
pub proof fn law_find_descendant_finds_nothing(nodes: Seq<XmlNodeData>, start: int, name: Seq<char>)
    requires
        0 <= start < nodes.len(),
        forall|k: int|
            start <= k < subtree_end(nodes, start) ==> !(xml_is_element(#[trigger] nodes[k])
                && xml_name(nodes[k]) == name),
    ensures
        find_descendant(nodes, start, name) is None,
{
    law_find_descendant_first_match(nodes, start, name);
    if let Some(m) = find_descendant(nodes, start, name) {
        assert(!(xml_is_element(nodes[m]) && xml_name(nodes[m]) == name));
    }
}

/// `first_element_child` finds exactly the first element child, in document
/// order, skipping text and other nodes.
pub proof fn law_first_element_child_finds_first(nodes: Seq<XmlNodeData>, parent: int, c: int)
    requires
        is_first_element_child(nodes, parent, c),
    ensures
        first_element_child(nodes, parent) == Some(c),
{
    law_first_element_child_first_match(nodes, parent);
    match first_element_child(nodes, parent) {
        Some(m) => {
            if m < c {
                assert(!(xml_is_element(nodes[m]) && xml_parent(nodes[m]) == Some(parent as usize)));
            }
            if c < m {
                assert(!element_child_pred(nodes, parent)(c));
            }
        },
        None => {
            assert(!element_child_pred(nodes, parent)(c));
        },
    }
}

/// `text_or_empty` is the whole text of the node.
pub proof fn law_text_or_empty_is_whole_text(nodes: Seq<XmlNodeData>, i: int)
    ensures
        text_or_empty(nodes, i) == whole_text(nodes[i]),
{
}

/// `k` is the first attribute with no namespace and the local name `name`.
pub open spec fn is_first_plain_attribute(attrs: Seq<XmlAttributeData>, name: Seq<char>, k: int) -> bool {
    &&& 0 <= k < attrs.len()
    &&& attrs[k].0 is None
    &&& attrs[k].1 == name
    &&& forall|m: int| 0 <= m < k ==> !((#[trigger] attrs[m]).0 is None && attrs[m].1 == name)
}

/// `attribute_or_empty` gives the whole value of the first attribute without
/// namespace that has the name, and the empty text where there is none.
pub proof fn law_attribute_or_empty_first_plain(nodes: Seq<XmlNodeData>, i: int, name: Seq<char>)
    ensures
        forall|k: int|
            is_first_plain_attribute(xml_attributes(nodes[i]), name, k) ==> attribute_or_empty(
                nodes,
                i,
                name,
            ) == (#[trigger] xml_attributes(nodes[i])[k]).2,
        (forall|m: int|
            0 <= m < xml_attributes(nodes[i]).len() ==> !((#[trigger] xml_attributes(nodes[i])[m]).0 is None
                && xml_attributes(nodes[i])[m].1 == name)) ==> attribute_or_empty(nodes, i, name)
            == Seq::<char>::empty(),
{
    let attrs = xml_attributes(nodes[i]);
    let pred = attribute_pred(attrs, name);
    lemma_first_index(0, attrs.len() as int, pred);
    assert forall|k: int| is_first_plain_attribute(attrs, name, k) implies attribute_or_empty(
        nodes,
        i,
        name,
    ) == (#[trigger] xml_attributes(nodes[i])[k]).2 by {
        match first_index(0, attrs.len() as int, pred) {
            Some(m) => {
                if m < k {
                    assert(!(attrs[m].0 is None && attrs[m].1 == name));
                }
                if k < m {
                    assert(!pred(k));
                }
            },
            None => {
                assert(!pred(k));
            },
        }
    }
    if forall|m: int|
        0 <= m < attrs.len() ==> !((#[trigger] attrs[m]).0 is None && attrs[m].1 == name) {
        if let Some(m) = first_index(0, attrs.len() as int, pred) {
            assert(!(attrs[m].0 is None && attrs[m].1 == name));
        }
    }
}

impl XmlTree {
    fn subtree_end_of(&self, i: usize) -> (end: usize)
        requires
            i < self@.len(),
        ensures
            end == subtree_end(self@, i as int),
    {
        let len = self.nodes.len();
        let size = self.nodes[i].subtree_len;
        if size <= len - i {
            i + size
        } else {
            len
        }
    }

    /// The first node of the subtree of `start` (itself included), in document
    /// order, that is an element named `name`.
    pub fn find_descendant(&self, start: usize, name: &String) -> (res: Option<usize>)
        ensures
            match res {
                Some(j) => j < self@.len() && find_descendant(self@, start as int, name@) == Some(
                    j as int,
                ),
                None => find_descendant(self@, start as int, name@) is None,
            },
    {
        let len = self.nodes.len();
        if start >= len {
            return None;
        }
        let end = self.subtree_end_of(start);
        let ghost pred = tag_name_pred(self@, name@);
        let mut j = start;
        while j < end
            invariant
                len == self@.len(),
                start <= j <= end <= len,
                end == subtree_end(self@, start as int),
                pred == tag_name_pred(self@, name@),
                first_index(start as int, end as int, pred) == first_index(j as int, end as int, pred),
            decreases end - j,
        {
            if self.nodes[j].is_element && self.nodes[j].name == *name {
                assert(pred(j as int));
                return Some(j);
            }
            assert(!pred(j as int));
            j = j + 1;
        }
        None
    }

    /// The first element, in document order, whose parent is `parent`.
    pub fn first_element_child(&self, parent: usize) -> (res: Option<usize>)
        ensures
            match res {
                Some(j) => j < self@.len() && first_element_child(self@, parent as int) == Some(
                    j as int,
                ),
                None => first_element_child(self@, parent as int) is None,
            },
    {
        let len = self.nodes.len();
        if parent >= len {
            return None;
        }
        let end = self.subtree_end_of(parent);
        let ghost pred = element_child_pred(self@, parent as int);
        let mut j = parent + 1;
        if j > end {
            return None;
        }
        while j < end
            invariant
                len == self@.len(),
                parent < j <= end <= len,
                end == subtree_end(self@, parent as int),
                pred == element_child_pred(self@, parent as int),
                first_index(parent + 1, end as int, pred) == first_index(j as int, end as int, pred),
            decreases end - j,
        {
            if self.nodes[j].is_element && self.nodes[j].parent == Some(parent) {
                assert(pred(j as int));
                return Some(j);
            }
            assert(!pred(j as int));
            j = j + 1;
        }
        None
    }

    /// The local tag name of node `i`.
    pub fn name_of(&self, i: usize) -> (s: String)
        requires
            i < self@.len(),
        ensures
            s@ == xml_name(self@[i as int]),
    {
        self.nodes[i].name.clone()
    }

    /// The text of node `i`, or the empty text where it has none.
    pub fn text_or_empty(&self, i: usize) -> (s: String)
        requires
            i < self@.len(),
        ensures
            s@ == text_or_empty(self@, i as int),
    {
        match &self.nodes[i].text {
            Some(t) => t.clone(),
            None => String::new(),
        }
    }

    /// The value of the attribute of node `i` that has no namespace and the
    /// local name `name`, or the empty text where there is none.
    pub fn attribute_or_empty(&self, i: usize, name: &String) -> (s: String)
        requires
            i < self@.len(),
        ensures
            s@ == attribute_or_empty(self@, i as int, name@),
    {
        let attrs = &self.nodes[i].attributes;
        let ghost data = xml_attributes(self@[i as int]);
        let ghost pred = attribute_pred(data, name@);
        assert(attrs@.map_values(|a: XmlAttribute| a@) == data);
        let mut k: usize = 0;
        while k < attrs.len()
            invariant
                k <= attrs.len(),
                i < self@.len(),
                data == xml_attributes(self@[i as int]),
                data.len() == attrs.len(),
                forall|m: int| 0 <= m < attrs.len() ==> (#[trigger] attrs@[m])@ == data[m],
                pred == attribute_pred(data, name@),
                first_index(0, data.len() as int, pred) == first_index(k as int, data.len() as int, pred),
            decreases attrs.len() - k,
        {
            let a = &attrs[k];
            assert(a@ == data[k as int]);
            if a.namespace.is_none() && a.name == *name {
                assert(pred(k as int));
                return a.value.clone();
            }
            assert(!pred(k as int));
            k = k + 1;
        }
        String::new()
    }
}

} // verus!
