//! The header description's document tree. An outside XML reader parses the
//! description text; the tree is handed over as this crate's own node type,
//! holding exactly what the interpretation reads, and everything read from
//! it is interpreted by verified code.

use vstd::prelude::*;
use crate::text::str_eq;

verus! {

/// One node of a parsed description document, in document order.
pub struct XmlElement {
    /// Whether the node is an element, as opposed to text, a comment or a
    /// processing instruction.
    pub is_element: bool,
    /// The element's local tag name; empty for non-element nodes.
    pub tag: String,
    /// The value of the node's `name` attribute, where it has one.
    pub name_attribute: Option<String>,
    /// The value of the node's `key` attribute, where it has one.
    pub key_attribute: Option<String>,
    /// The node's text: the content of its first child, where that child
    /// is a text node.
    pub text: Option<String>,
    /// The node's children, elements and non-elements alike.
    pub children: Vec<XmlElement>,
}

/// The outside XML reader's node type, declared opaquely so the
/// conversion below can take it; nothing of the crate's logic reads it
/// directly.
#[verifier::external_type_specification]
#[verifier::external_body]
pub struct ExXmlNode<'a, 'input: 'a>(roxmltree::Node<'a, 'input>);

/// Relies on roxmltree::Node's read accessors — is_element, tag_name,
/// attribute and text — to copy the fields this crate's logic reads into
/// one childless node of the crate's own type.
#[verifier::external_body]
fn node_shell(node: &roxmltree::Node<'_, '_>) -> XmlElement {
    XmlElement {
        is_element: node.is_element(),
        tag: node.tag_name().name().to_string(),
        name_attribute: node.attribute("name").map(str::to_string),
        key_attribute: node.attribute("key").map(str::to_string),
        text: node.text().map(str::to_string),
        children: Vec::new(),
    }
}

/// Relies on roxmltree::Node::children: walks the tree with an explicit
/// work stack — no recursion — assembling each node from its converted
/// children. A document nested deeper than 4096 elements is refused
/// rather than converted, so no input can exhaust the call stack, here
/// or when the tree is later dropped; the session constructors cap the
/// description's markup well below this before parsing at all.
#[verifier::external_body]
fn convert_node(node: roxmltree::Node<'_, '_>) -> Option<XmlElement> {
    let mut stack = vec![(node_shell(&node), node.children())];
    loop {
        match (stack.last_mut().unwrap().1.next(), stack.len()) {
            (Some(_), 4096) => return None,
            (Some(child), _) => stack.push((node_shell(&child), child.children())),
            (None, 1) => return Some(stack.pop().unwrap().0),
            (None, _) => {
                let (done, _) = stack.pop().unwrap();
                stack.last_mut().unwrap().0.children.push(done);
            },
        }
    }
}

/// The document tree the outside XML reader yields for the given text, or
/// nothing where the text is not a well-formed document or nests its
/// elements beyond the reader's fixed depth bound. The outcome depends on
/// the text alone.
pub uninterp spec fn spec_xml_document(text: Seq<char>) -> Option<XmlElement>;

/// Relies on roxmltree::Document::parse to read the description text as an
/// XML document; the result is the document's root node, or the parse or
/// depth failure's text. What the tree means is decided by this crate's
/// verified interpretation alone.
#[verifier::external_body]
pub(crate) fn parse_xml_document(text: &str) -> (r: Result<XmlElement, String>)
    ensures
        r.is_ok() == spec_xml_document(text@) is Some,
        r matches Ok(root) ==> spec_xml_document(text@) == Option::Some(root),
{
    match roxmltree::Document::parse(text) {
        Ok(document) => match convert_node(document.root()) {
            Some(root) => Ok(root),
            None => Err("the description is nested too deeply".to_string()),
        },
        Err(error) => Err(format!("{}", error)),
    }
}

/// Whether a node is an element tagged `node` whose `name` attribute is
/// `name`.
pub open spec fn spec_node_named(e: XmlElement, name: Seq<char>) -> bool {
    &&& e.is_element
    &&& e.tag@ == "node"@
    &&& match e.name_attribute {
        Option::Some(s) => s@ == name,
        Option::None => false,
    }
}

/// Whether a node is an element tagged `attr` whose `key` attribute is
/// `key`.
pub open spec fn spec_attr_keyed(e: XmlElement, key: Seq<char>) -> bool {
    &&& e.is_element
    &&& e.tag@ == "attr"@
    &&& match e.key_attribute {
        Option::Some(s) => s@ == key,
        Option::None => false,
    }
}

/// The first child that is an element tagged `node` with the given `name`
/// attribute.
pub open spec fn spec_find_node_named(s: Seq<XmlElement>, name: Seq<char>) -> Option<XmlElement>
    decreases s.len(),
{
    if s.len() == 0 {
        Option::None
    } else if spec_node_named(s[0], name) {
        Option::Some(s[0])
    } else {
        spec_find_node_named(s.drop_first(), name)
    }
}

/// The first child that is an element tagged `attr` with the given `key`
/// attribute.
pub open spec fn spec_find_attr_keyed(s: Seq<XmlElement>, key: Seq<char>) -> Option<XmlElement>
    decreases s.len(),
{
    if s.len() == 0 {
        Option::None
    } else if spec_attr_keyed(s[0], key) {
        Option::Some(s[0])
    } else {
        spec_find_attr_keyed(s.drop_first(), key)
    }
}

fn is_node_named(e: &XmlElement, name: &str) -> (r: bool)
    ensures
        r == spec_node_named(*e, name@),
{
    if !e.is_element {
        return false;
    }
    if !str_eq(e.tag.as_str(), "node") {
        return false;
    }
    match &e.name_attribute {
        Option::Some(s) => str_eq(s.as_str(), name),
        Option::None => false,
    }
}

fn is_attr_keyed(e: &XmlElement, key: &str) -> (r: bool)
    ensures
        r == spec_attr_keyed(*e, key@),
{
    if !e.is_element {
        return false;
    }
    if !str_eq(e.tag.as_str(), "attr") {
        return false;
    }
    match &e.key_attribute {
        Option::Some(s) => str_eq(s.as_str(), key),
        Option::None => false,
    }
}

/// Finds the first element child tagged `node` whose `name` attribute is
/// `name`.
pub fn find_node_named<'a>(children: &'a Vec<XmlElement>, name: &str) -> (r: Option<
    &'a XmlElement,
>)
    ensures
        match r {
            Option::Some(e) => spec_find_node_named(children@, name@) == Option::Some(*e),
            Option::None => spec_find_node_named(children@, name@) is None,
        },
{
    let n = children.len();
    let mut i: usize = 0;
    proof {
        assert(children@.skip(0) =~= children@);
    }
    while i < n
        invariant
            i <= n,
            n == children@.len(),
            spec_find_node_named(children@, name@) == spec_find_node_named(
                children@.skip(i as int),
                name@,
            ),
        decreases n - i,
    {
        proof {
            assert(children@.skip(i as int)[0] == children@[i as int]);
            assert(children@.skip(i as int).drop_first() =~= children@.skip(i + 1));
        }
        let e = &children[i];
        if is_node_named(e, name) {
            return Option::Some(e);
        }
        i += 1;
    }
    proof {
        assert(children@.skip(n as int) =~= Seq::<XmlElement>::empty());
    }
    Option::None
}

/// Finds the first element child tagged `attr` whose `key` attribute is
/// `key`.
pub fn find_attr_keyed<'a>(children: &'a Vec<XmlElement>, key: &str) -> (r: Option<
    &'a XmlElement,
>)
    ensures
        match r {
            Option::Some(e) => spec_find_attr_keyed(children@, key@) == Option::Some(*e),
            Option::None => spec_find_attr_keyed(children@, key@) is None,
        },
{
    let n = children.len();
    let mut i: usize = 0;
    proof {
        assert(children@.skip(0) =~= children@);
    }
    while i < n
        invariant
            i <= n,
            n == children@.len(),
            spec_find_attr_keyed(children@, key@) == spec_find_attr_keyed(
                children@.skip(i as int),
                key@,
            ),
        decreases n - i,
    {
        proof {
            assert(children@.skip(i as int)[0] == children@[i as int]);
            assert(children@.skip(i as int).drop_first() =~= children@.skip(i + 1));
        }
        let e = &children[i];
        if is_attr_keyed(e, key) {
            return Option::Some(e);
        }
        i += 1;
    }
    proof {
        assert(children@.skip(n as int) =~= Seq::<XmlElement>::empty());
    }
    Option::None
}

} // verus!
