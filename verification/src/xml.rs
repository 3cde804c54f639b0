//! The XML documents a host answers with, as a flat list of nodes in document order.
use vstd::prelude::*;

use crate::network::{ApiError, ApiErrorView};
use crate::text::{parse_u32, spec_parse_unsigned, spec_parse_i32, parse_i32};
use vstd::utf8::encode_utf8;

verus! {

/// The attribute that carries a host's status code.
pub const STATUS_CODE: &'static str = "status_code";
/// The attribute that carries a host's status message.
pub const STATUS_MESSAGE: &'static str = "status_message";
/// The element that holds a host's answer.
pub const ROOT: &'static str = "root";

#[verifier::external_type_specification]
#[verifier::external_body]
pub struct ExXmlError(roxmltree::Error);

/// An attribute of an element.
#[derive(Debug, Clone)]
pub struct XmlAttribute {
    pub namespace: Option<String>,
    pub name: String,
    pub value: String,
}

/// The characters of an attribute.
pub struct XmlAttributeView {
    pub namespace: Option<Seq<char>>,
    pub name: Seq<char>,
    pub value: Seq<char>,
}

impl View for XmlAttribute {
    type V = XmlAttributeView;

    open spec fn view(&self) -> XmlAttributeView {
        XmlAttributeView {
            namespace: self.namespace.deep_view(),
            name: self.name@,
            value: self.value@,
        }
    }
}

/// A node of a document. `parent` is the position of the parent node in the list, `name`
/// the local tag name (empty for anything but an element) and `text` the text of the node:
/// for an element, that of its first child when that child is text.
#[derive(Debug, Clone)]
pub struct XmlNode {
    pub parent: Option<usize>,
    pub name: String,
    pub text: Option<String>,
    pub attributes: Vec<XmlAttribute>,
}

/// The characters of a node.
pub struct XmlNodeView {
    pub parent: Option<usize>,
    pub name: Seq<char>,
    pub text: Option<Seq<char>>,
    pub attributes: Seq<XmlAttributeView>,
}

impl View for XmlNode {
    type V = XmlNodeView;

    open spec fn view(&self) -> XmlNodeView {
        XmlNodeView {
            parent: self.parent,
            name: self.name@,
            text: self.text.deep_view(),
            attributes: self.attributes@.map_values(|a: XmlAttribute| a@),
        }
    }
}

/// The nodes of a document by their views.
pub open spec fn nodes_view(nodes: Seq<XmlNode>) -> Seq<XmlNodeView> {
    nodes.map_values(|n: XmlNode| n@)
}

/// The nodes of the document `text`, in document order starting with the document node,
/// as `roxmltree` reads it; `None` when it is no well-formed XML.
pub uninterp spec fn spec_parse_xml(text: Seq<char>) -> Option<Seq<XmlNodeView>>;

/// `roxmltree::Document::parse`, then every node of the document in document order. A node's
/// position in the list is its `NodeId`, so `parent` holds the position of the parent.
/// Trusted to fail exactly when `spec_parse_xml` finds no document.
#[verifier::external_body]
fn parse_xml(text: &str) -> (res: Result<Vec<XmlNode>, roxmltree::Error>)
    ensures
        res is Ok <==> spec_parse_xml(text@) is Some,
        res matches Ok(nodes) ==> spec_parse_xml(text@) == Some(nodes_view(nodes@)),
{
    let doc = roxmltree::Document::parse(text)?;
    Ok(doc.descendants().map(|n| XmlNode {
        parent: n.parent().map(|p| p.id().get_usize()),
        name: n.tag_name().name().to_string(),
        text: n.text().map(|t| t.to_string()),
        attributes: n.attributes().map(|a| XmlAttribute {
            namespace: a.namespace().map(|s| s.to_string()),
            name: a.name().to_string(),
            value: a.value().to_string(),
        }).collect(),
    }).collect())
}

/// Reads a document into its nodes.
pub fn parse_document<E>(text: &str) -> (res: Result<Vec<XmlNode>, ApiError<E>>)
    ensures
        res is Ok <==> spec_parse_xml(text@) is Some,
        res matches Ok(nodes) ==> spec_parse_xml(text@) == Some(nodes_view(nodes@)),
        res matches Err(e) ==> e == ApiError::<E>::ParseXmlError,
{
    match parse_xml(text) {
        Ok(nodes) => Ok(nodes),
        Err(_) => Err(ApiError::ParseXmlError),
    }
}

/// Node `i` is a child of node `parent` with the tag name `name`.
pub open spec fn is_child_named(nodes: Seq<XmlNodeView>, parent: int, name: Seq<char>, i: int) -> bool {
    &&& 0 <= i < nodes.len()
    &&& nodes[i].parent matches Some(p) && p == parent
    &&& nodes[i].name == name
}

/// The first node from position `from` on that is a child of `parent` named `name`.
pub open spec fn find_child_from(nodes: Seq<XmlNodeView>, parent: int, name: Seq<char>, from: int) -> Option<int>
    decreases nodes.len() - from,
{
    if from < 0 || from >= nodes.len() {
        None
    } else if is_child_named(nodes, parent, name, from) {
        Some(from)
    } else {
        find_child_from(nodes, parent, name, from + 1)
    }
}

/// The first child of `parent` named `name`.
pub open spec fn find_child(nodes: Seq<XmlNodeView>, parent: int, name: Seq<char>) -> Option<int> {
    find_child_from(nodes, parent, name, 0)
}

proof fn lemma_find_child_from(nodes: Seq<XmlNodeView>, parent: int, name: Seq<char>, from: int)
    requires
        0 <= from,
    ensures
        find_child_from(nodes, parent, name, from) matches Some(i) ==> from <= i && is_child_named(
            nodes,
            parent,
            name,
            i,
        ),
    decreases nodes.len() - from,
{
    if from < nodes.len() && !is_child_named(nodes, parent, name, from) {
        lemma_find_child_from(nodes, parent, name, from + 1);
    }
}

/// The position of the first child of node `parent` whose tag name is `name`.
pub fn find_child_node(nodes: &Vec<XmlNode>, parent: usize, name: &str) -> (res: Option<usize>)
    ensures
        match find_child(nodes_view(nodes@), parent as int, name@) {
            Some(i) => (res matches Some(r) && r == i) && 0 <= i < nodes@.len() && is_child_named(
                nodes_view(nodes@),
                parent as int,
                name@,
                i,
            ),
            None => res is None,
        },
{
    let target = name.to_owned();
    let ghost view = nodes_view(nodes@);
    proof { lemma_find_child_from(view, parent as int, name@, 0); }
    let mut i: usize = 0;
    while i < nodes.len()
        invariant
            i <= nodes@.len(),
            view == nodes_view(nodes@),
            target@ == name@,
            find_child(view, parent as int, name@) == find_child_from(view, parent as int, name@, i as int),
        decreases nodes@.len() - i,
    {
        let node = &nodes[i];
        assert(view[i as int] == node@);
        let same_parent = match node.parent {
            Some(p) => p == parent,
            None => false,
        };
        if same_parent && node.name == target {
            proof { lemma_find_child_from(view, parent as int, name@, i as int); }
            return Some(i);
        }
        i = i + 1;
    }
    None
}

/// The text of the first child of `parent` named `name`.
pub open spec fn spec_child_text<E>(nodes: Seq<XmlNodeView>, parent: int, name: &'static str) -> Result<Seq<char>, ApiErrorView<E>> {
    match find_child(nodes, parent, name@) {
        None => Err(ApiErrorView::DetailNotFound(name)),
        Some(i) => match nodes[i].text {
            None => Err(ApiErrorView::XmlTextNotFound(name)),
            Some(t) => Ok(t),
        },
    }
}

/// A result with the error and the string taken by their views.
pub open spec fn text_result<E>(r: Result<String, ApiError<E>>) -> Result<Seq<char>, ApiErrorView<E>> {
    match r {
        Ok(s) => Ok(s@),
        Err(e) => Err(e@),
    }
}

/// The text of the first child of `parent` named `name`.
pub fn xml_child_text<E>(nodes: &Vec<XmlNode>, parent: usize, name: &'static str) -> (res: Result<String, ApiError<E>>)
    ensures
        text_result(res) == spec_child_text::<E>(nodes_view(nodes@), parent as int, name),
{
    match find_child_node(nodes, parent, name) {
        None => Err(ApiError::DetailNotFound(name)),
        Some(i) => {
            assert(nodes_view(nodes@)[i as int] == nodes@[i as int]@);
            assert(find_child(nodes_view(nodes@), parent as int, name@) == Some(i as int));
            match &nodes[i].text {
                None => Err(ApiError::XmlTextNotFound(name)),
                Some(t) => {
                    assert(nodes_view(nodes@)[i as int].text == Some(t@));
                    let r = t.clone();
                    assert(r@ == t@);
                    Ok(r)
                },
            }
        },
    }
}

/// The value of the first attribute from position `from` on without namespace named `name`.
pub open spec fn find_attribute_from(attrs: Seq<XmlAttributeView>, name: Seq<char>, from: int) -> Option<Seq<char>>
    decreases attrs.len() - from,
{
    if from < 0 || from >= attrs.len() {
        None
    } else if attrs[from].namespace is None && attrs[from].name == name {
        Some(attrs[from].value)
    } else {
        find_attribute_from(attrs, name, from + 1)
    }
}

/// The value of the attribute without namespace named `name`.
pub open spec fn find_attribute(attrs: Seq<XmlAttributeView>, name: Seq<char>) -> Option<Seq<char>> {
    find_attribute_from(attrs, name, 0)
}

/// The value of the attribute of `node` without namespace named `name`.
pub fn xml_attribute(node: &XmlNode, name: &str) -> (res: Option<String>)
    ensures
        res.deep_view() == find_attribute(node@.attributes, name@),
{
    let target = name.to_owned();
    let ghost attrs = node@.attributes;
    let mut i: usize = 0;
    while i < node.attributes.len()
        invariant
            i <= node.attributes@.len(),
            attrs == node.attributes@.map_values(|a: XmlAttribute| a@),
            target@ == name@,
            find_attribute(attrs, name@) == find_attribute_from(attrs, name@, i as int),
        decreases node.attributes@.len() - i,
    {
        let a = &node.attributes[i];
        assert(attrs[i as int] == a@);
        if a.namespace.is_none() && a.name == target {
            return Some(a.value.clone());
        }
        i = i + 1;
    }
    None
}

/// Where the element `root` lies in a host's answer, or why the answer is refused: the
/// document node's first child `root` must carry the decimal `status_code` 200; any other code
/// is refused with the answer's `status_message`.
pub open spec fn spec_root_node<E>(nodes: Seq<XmlNodeView>) -> Result<int, ApiErrorView<E>> {
    match find_child(nodes, 0, ROOT@) {
        None => Err(ApiErrorView::XmlRootNotFound),
        Some(r) => match find_attribute(nodes[r].attributes, STATUS_CODE@) {
            None => Err(ApiErrorView::DetailNotFound(STATUS_CODE)),
            Some(code) => match spec_parse_unsigned(encode_utf8(code), u32::MAX as int) {
                Err(kind) => Err(ApiErrorView::ParseIntError(crate::text::ParseIntError { kind })),
                Ok(c) => if c != 200 {
                    Err(
                        ApiErrorView::InvalidXmlStatusCode {
                            message: find_attribute(nodes[r].attributes, STATUS_MESSAGE@),
                        },
                    )
                } else {
                    Ok(r)
                },
            },
        },
    }
}

/// A position with the error taken by its view.
pub open spec fn index_result<E>(r: Result<usize, ApiError<E>>) -> Result<int, ApiErrorView<E>> {
    match r {
        Ok(i) => Ok(i as int),
        Err(e) => Err(e@),
    }
}

/// The element `root` of a host's answer, refused when its `status_code` is not 200.
pub fn xml_root_node<E>(nodes: &Vec<XmlNode>) -> (res: Result<usize, ApiError<E>>)
    ensures
        index_result(res) == spec_root_node::<E>(nodes_view(nodes@)),
        res matches Ok(r) ==> r < nodes@.len(),
{
    let r = match find_child_node(nodes, 0, ROOT) {
        None => return Err(ApiError::XmlRootNotFound),
        Some(r) => r,
    };
    assert(nodes_view(nodes@)[r as int] == nodes@[r as int]@);
    let code = match xml_attribute(&nodes[r], STATUS_CODE) {
        None => return Err(ApiError::DetailNotFound(STATUS_CODE)),
        Some(code) => code,
    };
    let status_code = match parse_u32(code.as_str()) {
        Err(e) => return Err(ApiError::ParseIntError(e)),
        Ok(c) => c,
    };
    if status_code != 200 {
        let message = xml_attribute(&nodes[r], STATUS_MESSAGE);
        return Err(ApiError::InvalidXmlStatusCode { message });
    }
    Ok(r)
}

/// `Paired` when the text of the child `name` reads as the integer 1.
pub open spec fn spec_child_paired<E>(nodes: Seq<XmlNodeView>, parent: int, name: &'static str) -> Result<crate::network::PairStatus, ApiErrorView<E>> {
    match spec_child_text::<E>(nodes, parent, name) {
        Err(e) => Err(e),
        Ok(t) => match spec_parse_i32(encode_utf8(t)) {
            Err(kind) => Err(ApiErrorView::ParseIntError(crate::text::ParseIntError { kind })),
            Ok(v) => Ok(
                if v == 1 {
                    crate::network::PairStatus::Paired
                } else {
                    crate::network::PairStatus::NotPaired
                },
            ),
        },
    }
}

/// A pair status with the error taken by its view.
pub open spec fn paired_result<E>(r: Result<crate::network::PairStatus, ApiError<E>>) -> Result<crate::network::PairStatus, ApiErrorView<E>> {
    match r {
        Ok(p) => Ok(p),
        Err(e) => Err(e@),
    }
}

/// Whether the host reports the client as paired in the child `name`.
pub fn xml_child_paired<E>(nodes: &Vec<XmlNode>, parent: usize, name: &'static str) -> (res: Result<crate::network::PairStatus, ApiError<E>>)
    ensures
        paired_result(res) == spec_child_paired::<E>(nodes_view(nodes@), parent as int, name),
{
    let text = match xml_child_text::<E>(nodes, parent, name) {
        Ok(t) => t,
        Err(e) => return Err(e),
    };
    match parse_i32(text.as_str()) {
        Err(e) => Err(ApiError::ParseIntError(e)),
        Ok(v) => Ok(
            if v == 1 {
                crate::network::PairStatus::Paired
            } else {
                crate::network::PairStatus::NotPaired
            },
        ),
    }
}

} // verus!
