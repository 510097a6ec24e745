//! Interpretation of the header description: the document tree names the
//! logical streams, and this module turns it into the stream registry — a
//! map from stream id to declared stream — or into the exact failure the
//! description deserves.

use std::collections::HashMap;
use vstd::prelude::*;
use crate::error::ParseError;
use crate::stream::{
    spec_content_of_identifier, spec_supported_identifier, Stream, StreamContent,
};
use crate::text::{parse_u16, parse_u32, spec_parse_u16, spec_parse_u32};
use crate::xml::{
    find_attr_keyed, find_node_named, spec_find_attr_keyed, spec_find_node_named, XmlElement,
};

verus! {

/// Every way a description can be rejected, in the order the
/// interpretation finds them.
#[derive(Copy, Clone, PartialEq, Eq, Structural, Debug)]
pub enum DescriptionIssue {
    /// The document has no node at all under its root.
    NoDvNode,
    /// The first node under the root is not an element tagged `dv`.
    WrongDvTag,
    /// No `node` element named `outInfo` under the `dv` element.
    NoOutputNode,
    /// A stream node without a `name` attribute.
    MissingStreamId,
    /// A stream node whose `name` attribute is not a decimal 32-bit id.
    BadStreamId,
    /// A stream node without a `typeIdentifier` attribute child.
    MissingTypeIdentifier,
    /// A `typeIdentifier` attribute without text.
    EmptyTypeIdentifier,
    /// A type code outside the supported set.
    UnsupportedType,
    /// An image-shaped stream without an `info` child node.
    MissingInfoNode,
    /// An `info` node without a `sizeX` attribute child.
    MissingSizeX,
    /// A `sizeX` attribute without text.
    EmptySizeX,
    /// A `sizeX` attribute whose text is not a decimal 16-bit size.
    BadSizeX,
    /// An `info` node without a `sizeY` attribute child.
    MissingSizeY,
    /// A `sizeY` attribute without text.
    EmptySizeY,
    /// A `sizeY` attribute whose text is not a decimal 16-bit size.
    BadSizeY,
    /// Two stream nodes declaring the same id.
    DuplicateStreamId,
    /// A description that declares no stream at all.
    NoStreams,
}

/// What one stream node declares: its id and stream, or the issue that
/// rejects it. The dimensions come from the `info` child for the
/// image-shaped kinds and are zero for the others, whose `info` node is
/// never looked for.
pub open spec fn spec_stream_of_node(node: XmlElement) -> Result<(u32, Stream), DescriptionIssue> {
    match node.name_attribute {
        Option::None => Err(DescriptionIssue::MissingStreamId),
        Option::Some(id_text) => match spec_parse_u32(id_text@) {
            Option::None => Err(DescriptionIssue::BadStreamId),
            Option::Some(id) => match spec_find_attr_keyed(node.children@, "typeIdentifier"@) {
                Option::None => Err(DescriptionIssue::MissingTypeIdentifier),
                Option::Some(attr) => match attr.text {
                    Option::None => Err(DescriptionIssue::EmptyTypeIdentifier),
                    Option::Some(identifier) => if !spec_supported_identifier(identifier@) {
                        Err(DescriptionIssue::UnsupportedType)
                    } else {
                        let content = spec_content_of_identifier(identifier@);
                        if content is Events || content is Frame {
                            spec_sized_stream(node, id, content)
                        } else {
                            Ok((id, Stream { content, width: 0, height: 0 }))
                        }
                    },
                },
            },
        },
    }
}

/// The dimensions an image-shaped stream node declares in its `info`
/// child, or the issue that rejects it.
pub open spec fn spec_sized_stream(node: XmlElement, id: u32, content: StreamContent) -> Result<
    (u32, Stream),
    DescriptionIssue,
> {
    match spec_find_node_named(node.children@, "info"@) {
        Option::None => Err(DescriptionIssue::MissingInfoNode),
        Option::Some(info) => match spec_find_attr_keyed(info.children@, "sizeX"@) {
            Option::None => Err(DescriptionIssue::MissingSizeX),
            Option::Some(size_x) => match size_x.text {
                Option::None => Err(DescriptionIssue::EmptySizeX),
                Option::Some(text_x) => match spec_parse_u16(text_x@) {
                    Option::None => Err(DescriptionIssue::BadSizeX),
                    Option::Some(width) => match spec_find_attr_keyed(info.children@, "sizeY"@) {
                        Option::None => Err(DescriptionIssue::MissingSizeY),
                        Option::Some(size_y) => match size_y.text {
                            Option::None => Err(DescriptionIssue::EmptySizeY),
                            Option::Some(text_y) => match spec_parse_u16(text_y@) {
                                Option::None => Err(DescriptionIssue::BadSizeY),
                                Option::Some(height) => Ok(
                                    (id, Stream { content, width, height }),
                                ),
                            },
                        },
                    },
                },
            },
        },
    }
}

/// Whether a child takes part in the registry: only element children
/// tagged `node` declare streams; everything else is passed over.
pub open spec fn spec_is_stream_node(e: XmlElement) -> bool {
    e.is_element && e.tag@ == "node"@
}

/// The registry the stream nodes from index `i` on build over `acc`:
/// each stream node's declaration is inserted in document order, a
/// node-level issue or a duplicate id rejecting the whole description at
/// the first offence.
pub open spec fn spec_fold_streams(
    nodes: Seq<XmlElement>,
    i: int,
    acc: Map<u32, Stream>,
) -> Result<Map<u32, Stream>, DescriptionIssue>
    decreases nodes.len() - i,
{
    if i < 0 || i >= nodes.len() {
        Ok(acc)
    } else if !spec_is_stream_node(nodes[i]) {
        spec_fold_streams(nodes, i + 1, acc)
    } else {
        match spec_stream_of_node(nodes[i]) {
            Err(issue) => Err(issue),
            Ok((id, stream)) => if acc.contains_key(id) {
                Err(DescriptionIssue::DuplicateStreamId)
            } else {
                spec_fold_streams(nodes, i + 1, acc.insert(id, stream))
            },
        }
    }
}

/// The registry a whole description document builds: the root's first
/// node must be the `dv` element, the `outInfo` node under it holds the
/// stream nodes, and a description declaring no stream is rejected.
pub open spec fn spec_build_registry(root: XmlElement) -> Result<
    Map<u32, Stream>,
    DescriptionIssue,
> {
    if root.children@.len() == 0 {
        Err(DescriptionIssue::NoDvNode)
    } else {
        let dv = root.children@[0];
        if !(dv.is_element && dv.tag@ == "dv"@) {
            Err(DescriptionIssue::WrongDvTag)
        } else {
            match spec_find_node_named(dv.children@, "outInfo"@) {
                Option::None => Err(DescriptionIssue::NoOutputNode),
                Option::Some(output) => match spec_fold_streams(
                    output.children@,
                    0,
                    Map::empty(),
                ) {
                    Err(issue) => Err(issue),
                    Ok(registry) => if registry.len() == 0 {
                        Err(DescriptionIssue::NoStreams)
                    } else {
                        Ok(registry)
                    },
                },
            }
        }
    }
}

/// A stream of a kind that carries no image always has zero width and
/// height.
pub open spec fn spec_zero_sized_unless_image(s: Stream) -> bool {
    (s.content is Imus || s.content is Triggers) ==> (s.width == 0 && s.height == 0)
}

/// Folding stream nodes keeps every registered stream of a non-image
/// kind at width and height zero: those kinds never read an `info`
/// node, present or absent.
pub proof fn lemma_fold_plain_kinds_zero_sized(
    nodes: Seq<XmlElement>,
    i: int,
    acc: Map<u32, Stream>,
    m: Map<u32, Stream>,
)
    requires
        spec_fold_streams(nodes, i, acc) == Ok::<Map<u32, Stream>, DescriptionIssue>(m),
        forall|id: u32| acc.contains_key(id) ==> spec_zero_sized_unless_image(#[trigger] acc[id]),
    ensures
        forall|id: u32| m.contains_key(id) ==> spec_zero_sized_unless_image(#[trigger] m[id]),
    decreases nodes.len() - i,
{
    if i < 0 || i >= nodes.len() {
    } else if !spec_is_stream_node(nodes[i]) {
        lemma_fold_plain_kinds_zero_sized(nodes, i + 1, acc, m);
    } else {
        match spec_stream_of_node(nodes[i]) {
            Err(_) => (),
            Ok((id, stream)) => {
                assert(spec_zero_sized_unless_image(stream));
                lemma_fold_plain_kinds_zero_sized(nodes, i + 1, acc.insert(id, stream), m);
            },
        }
    }
}

/// Every stream a description's registry holds for a non-image kind has
/// zero width and height, whatever the description's nodes hold.
pub proof fn lemma_registry_plain_kinds_zero_sized(root: XmlElement, m: Map<u32, Stream>)
    requires
        spec_build_registry(root) == Ok::<Map<u32, Stream>, DescriptionIssue>(m),
    ensures
        forall|id: u32| m.contains_key(id) ==> spec_zero_sized_unless_image(#[trigger] m[id]),
{
    let dv = root.children@[0];
    let output = spec_find_node_named(dv.children@, "outInfo"@).unwrap();
    lemma_fold_plain_kinds_zero_sized(output.children@, 0, Map::empty(), m);
}

/// A description whose `dv` element has no `outInfo` node is always
/// rejected with the missing-output-node issue.
pub proof fn lemma_missing_output_node_rejected(root: XmlElement)
    requires
        root.children@.len() > 0,
        root.children@[0].is_element,
        root.children@[0].tag@ == "dv"@,
        spec_find_node_named(root.children@[0].children@, "outInfo"@) is None,
    ensures
        spec_build_registry(root) == Err::<Map<u32, Stream>, DescriptionIssue>(
            DescriptionIssue::NoOutputNode,
        ),
{
}

/// A stream node whose type code is outside the supported set is always
/// rejected with the unsupported-type issue, whatever id it declares.
pub proof fn lemma_unsupported_type_rejected(node: XmlElement)
    requires
        node.name_attribute matches Some(t) && spec_parse_u32(t@) is Some,
        spec_find_attr_keyed(node.children@, "typeIdentifier"@) matches Some(a) && a.text
            matches Some(identifier)
            && !crate::stream::spec_supported_identifier(identifier@),
    ensures
        spec_stream_of_node(node) == Err::<(u32, Stream), DescriptionIssue>(
            DescriptionIssue::UnsupportedType,
        ),
{
}

/// A stream node declaring an id the registry already holds rejects the
/// whole description with the duplicate-id issue.
pub proof fn lemma_duplicate_id_rejected(nodes: Seq<XmlElement>, i: int, acc: Map<u32, Stream>)
    requires
        0 <= i < nodes.len(),
        spec_is_stream_node(nodes[i]),
        spec_stream_of_node(nodes[i]) matches Ok(p) && acc.contains_key(p.0),
    ensures
        spec_fold_streams(nodes, i, acc) == Err::<Map<u32, Stream>, DescriptionIssue>(
            DescriptionIssue::DuplicateStreamId,
        ),
{
}

/// A description that declares no stream at all — its stream-node fold
/// yields an empty registry — is always rejected with the no-streams
/// issue.
pub proof fn lemma_no_streams_rejected(root: XmlElement, m: Map<u32, Stream>)
    requires
        root.children@.len() > 0,
        root.children@[0].is_element,
        root.children@[0].tag@ == "dv"@,
        spec_find_node_named(root.children@[0].children@, "outInfo"@) matches Some(output)
            && spec_fold_streams(output.children@, 0, Map::empty()) == Ok::<
            Map<u32, Stream>,
            DescriptionIssue,
        >(m),
        m.len() == 0,
    ensures
        spec_build_registry(root) == Err::<Map<u32, Stream>, DescriptionIssue>(
            DescriptionIssue::NoStreams,
        ),
{
}

fn stream_of_node(node: &XmlElement) -> (r: Result<(u32, Stream), DescriptionIssue>)
    ensures
        r == spec_stream_of_node(*node),
{
    let id_text = match &node.name_attribute {
        Option::None => {
            return Err(DescriptionIssue::MissingStreamId);
        },
        Option::Some(s) => s,
    };
    let id = match parse_u32(id_text.as_str()) {
        Option::None => {
            return Err(DescriptionIssue::BadStreamId);
        },
        Option::Some(id) => id,
    };
    let attr = match find_attr_keyed(&node.children, "typeIdentifier") {
        Option::None => {
            return Err(DescriptionIssue::MissingTypeIdentifier);
        },
        Option::Some(attr) => attr,
    };
    let identifier = match &attr.text {
        Option::None => {
            return Err(DescriptionIssue::EmptyTypeIdentifier);
        },
        Option::Some(s) => s,
    };
    let content = match StreamContent::from(identifier.as_str()) {
        Err(_) => {
            return Err(DescriptionIssue::UnsupportedType);
        },
        Ok(content) => content,
    };
    match content {
        StreamContent::Events | StreamContent::Frame => sized_stream(node, id, content),
        StreamContent::Imus | StreamContent::Triggers => Ok(
            (id, Stream { content, width: 0, height: 0 }),
        ),
    }
}

fn sized_stream(node: &XmlElement, id: u32, content: StreamContent) -> (r: Result<
    (u32, Stream),
    DescriptionIssue,
>)
    ensures
        r == spec_sized_stream(*node, id, content),
{
    let info = match find_node_named(&node.children, "info") {
        Option::None => {
            return Err(DescriptionIssue::MissingInfoNode);
        },
        Option::Some(info) => info,
    };
    let size_x = match find_attr_keyed(&info.children, "sizeX") {
        Option::None => {
            return Err(DescriptionIssue::MissingSizeX);
        },
        Option::Some(a) => a,
    };
    let text_x = match &size_x.text {
        Option::None => {
            return Err(DescriptionIssue::EmptySizeX);
        },
        Option::Some(s) => s,
    };
    let width = match parse_u16(text_x.as_str()) {
        Option::None => {
            return Err(DescriptionIssue::BadSizeX);
        },
        Option::Some(w) => w,
    };
    let size_y = match find_attr_keyed(&info.children, "sizeY") {
        Option::None => {
            return Err(DescriptionIssue::MissingSizeY);
        },
        Option::Some(a) => a,
    };
    let text_y = match &size_y.text {
        Option::None => {
            return Err(DescriptionIssue::EmptySizeY);
        },
        Option::Some(s) => s,
    };
    let height = match parse_u16(text_y.as_str()) {
        Option::None => {
            return Err(DescriptionIssue::BadSizeY);
        },
        Option::Some(h) => h,
    };
    Ok((id, Stream { content, width, height }))
}

fn is_stream_node(e: &XmlElement) -> (r: bool)
    ensures
        r == spec_is_stream_node(*e),
{
    e.is_element && crate::text::str_eq(e.tag.as_str(), "node")
}

/// Builds the stream registry a description document declares, or
/// reports the first issue that rejects it.
pub fn build_registry(root: &XmlElement) -> (r: Result<HashMap<u32, Stream>, DescriptionIssue>)
    ensures
        r.is_ok() == spec_build_registry(*root).is_ok(),
        r matches Ok(m) ==> spec_build_registry(*root) == Ok::<_, DescriptionIssue>(m@),
        r matches Err(issue) ==> spec_build_registry(*root) == Err::<Map<u32, Stream>, _>(issue),
{
    if root.children.len() == 0 {
        return Err(DescriptionIssue::NoDvNode);
    }
    let dv = &root.children[0];
    if !(dv.is_element && crate::text::str_eq(dv.tag.as_str(), "dv")) {
        return Err(DescriptionIssue::WrongDvTag);
    }
    let output = match find_node_named(&dv.children, "outInfo") {
        Option::None => {
            return Err(DescriptionIssue::NoOutputNode);
        },
        Option::Some(output) => output,
    };
    let nodes = &output.children;
    let n = nodes.len();
    let mut registry: HashMap<u32, Stream> = HashMap::new();
    let mut i: usize = 0;
    while i < n
        invariant
            i <= n,
            n == nodes@.len(),
            root.children@.len() > 0,
            root.children@[0].is_element,
            root.children@[0].tag@ == "dv"@,
            spec_find_node_named(root.children@[0].children@, "outInfo"@) == Option::Some(
                *output,
            ),
            nodes@ == output.children@,
            vstd::std_specs::hash::obeys_key_model::<u32>(),
            vstd::std_specs::hash::builds_valid_hashers::<std::hash::RandomState>(),
            spec_fold_streams(nodes@, 0, Map::empty()) == spec_fold_streams(
                nodes@,
                i as int,
                registry@,
            ),
        decreases n - i,
    {
        let node = &nodes[i];
        if is_stream_node(node) {
            match stream_of_node(node) {
                Err(issue) => {
                    return Err(issue);
                },
                Ok((id, stream)) => {
                    if registry.contains_key(&id) {
                        return Err(DescriptionIssue::DuplicateStreamId);
                    }
                    registry.insert(id, stream);
                },
            }
        }
        i += 1;
    }
    if registry.len() == 0 {
        return Err(DescriptionIssue::NoStreams);
    }
    Ok(registry)
}

/// The failure value each description issue surfaces as, message and all.
pub fn issue_error(issue: DescriptionIssue) -> (e: ParseError)
    ensures
        spec_issue_error_matches(issue, e),
{
    match issue {
        DescriptionIssue::NoDvNode => ParseError::General(
            "the description has no dv node".to_owned(),
        ),
        DescriptionIssue::WrongDvTag => ParseError::General("unexpected dv node tag".to_owned()),
        DescriptionIssue::NoOutputNode => ParseError::General(
            "the description has no output node".to_owned(),
        ),
        DescriptionIssue::MissingStreamId => ParseError::General(
            "missing stream node id".to_owned(),
        ),
        DescriptionIssue::BadStreamId => ParseError::ParseInt(
            "invalid stream node id".to_owned(),
        ),
        DescriptionIssue::MissingTypeIdentifier => ParseError::General(
            "missing stream node type identifier".to_owned(),
        ),
        DescriptionIssue::EmptyTypeIdentifier => ParseError::General(
            "empty stream node type identifier".to_owned(),
        ),
        DescriptionIssue::UnsupportedType => ParseError::UnsupportedStreamType(
            "unsupported stream type".to_owned(),
        ),
        DescriptionIssue::MissingInfoNode => ParseError::General("missing info node".to_owned()),
        DescriptionIssue::MissingSizeX => ParseError::General(
            "missing sizeX attribute".to_owned(),
        ),
        DescriptionIssue::EmptySizeX => ParseError::General("empty sizeX attribute".to_owned()),
        DescriptionIssue::BadSizeX => ParseError::ParseInt("invalid sizeX attribute".to_owned()),
        DescriptionIssue::MissingSizeY => ParseError::General(
            "missing sizeY attribute".to_owned(),
        ),
        DescriptionIssue::EmptySizeY => ParseError::General("empty sizeY attribute".to_owned()),
        DescriptionIssue::BadSizeY => ParseError::ParseInt("invalid sizeY attribute".to_owned()),
        DescriptionIssue::DuplicateStreamId => ParseError::General(
            "duplicated stream id".to_owned(),
        ),
        DescriptionIssue::NoStreams => ParseError::General(
            "no stream found in the description".to_owned(),
        ),
    }
}

/// Whether `e` is the exact failure value, message included, that the
/// issue maps to.
pub open spec fn spec_issue_error_matches(issue: DescriptionIssue, e: ParseError) -> bool {
    match issue {
        DescriptionIssue::NoDvNode => e matches ParseError::General(m) && m@
            == "the description has no dv node"@,
        DescriptionIssue::WrongDvTag => e matches ParseError::General(m) && m@
            == "unexpected dv node tag"@,
        DescriptionIssue::NoOutputNode => e matches ParseError::General(m) && m@
            == "the description has no output node"@,
        DescriptionIssue::MissingStreamId => e matches ParseError::General(m) && m@
            == "missing stream node id"@,
        DescriptionIssue::BadStreamId => e matches ParseError::ParseInt(m) && m@
            == "invalid stream node id"@,
        DescriptionIssue::MissingTypeIdentifier => e matches ParseError::General(m) && m@
            == "missing stream node type identifier"@,
        DescriptionIssue::EmptyTypeIdentifier => e matches ParseError::General(m) && m@
            == "empty stream node type identifier"@,
        DescriptionIssue::UnsupportedType => e matches ParseError::UnsupportedStreamType(m) && m@
            == "unsupported stream type"@,
        DescriptionIssue::MissingInfoNode => e matches ParseError::General(m) && m@
            == "missing info node"@,
        DescriptionIssue::MissingSizeX => e matches ParseError::General(m) && m@
            == "missing sizeX attribute"@,
        DescriptionIssue::EmptySizeX => e matches ParseError::General(m) && m@
            == "empty sizeX attribute"@,
        DescriptionIssue::BadSizeX => e matches ParseError::ParseInt(m) && m@
            == "invalid sizeX attribute"@,
        DescriptionIssue::MissingSizeY => e matches ParseError::General(m) && m@
            == "missing sizeY attribute"@,
        DescriptionIssue::EmptySizeY => e matches ParseError::General(m) && m@
            == "empty sizeY attribute"@,
        DescriptionIssue::BadSizeY => e matches ParseError::ParseInt(m) && m@
            == "invalid sizeY attribute"@,
        DescriptionIssue::DuplicateStreamId => e matches ParseError::General(m) && m@
            == "duplicated stream id"@,
        DescriptionIssue::NoStreams => e matches ParseError::General(m) && m@
            == "no stream found in the description"@,
    }
}

} // verus!
