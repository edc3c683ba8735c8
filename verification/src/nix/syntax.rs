//! The syntax tree of a Nix expression, as the parser hands it out.

use vstd::prelude::*;
use rnix::ast::Root;
use rnix::Parse;
use rnix::SyntaxKind;
use rnix::SyntaxNode;

verus! {

#[verifier::external_type_specification]
#[verifier::external_body]
#[verifier::reject_recursive_types(T)]
pub struct ExParse<T>(Parse<T>);

#[verifier::external_type_specification]
#[verifier::external_body]
pub struct ExRoot(Root);

/// A node of a parsed Nix expression.
#[verifier::external_body]
pub struct NixNode {
    node: SyntaxNode,
}

/// The kinds of node that the flake reader tells apart.
#[derive(Clone, Copy, Debug, PartialEq, Eq, Structural)]
pub enum NodeKind {
    /// `a.b.c`, the left side of a binding.
    AttrPath,
    /// `a.b = value;`
    AttrPathValue,
    /// `{ ... }`
    AttrSet,
    /// An identifier.
    Ident,
    /// `[ ... ]`
    List,
    /// A path such as `./configuration.nix`.
    Path,
    /// A string literal.
    Str,
    /// Any other kind of node.
    Other,
}

/// What the parser makes of a source text.
pub uninterp spec fn parse_of(source: Seq<char>) -> Parse<Root>;

/// The messages of the errors met while parsing, in order.
pub uninterp spec fn errors_of(parse: Parse<Root>) -> Seq<Seq<char>>;

/// The root of the tree that was parsed.
pub uninterp spec fn root_of(parse: Parse<Root>) -> NixNode;

/// The kind of a node.
pub uninterp spec fn kind_of(node: NixNode) -> NodeKind;

/// The child nodes of a node, in source order.
pub uninterp spec fn children_of(node: NixNode) -> Seq<NixNode>;

/// The node itself and all nodes below it, in preorder.
pub uninterp spec fn descendants_of(node: NixNode) -> Seq<NixNode>;

/// The source text that a node covers.
pub uninterp spec fn text_of(node: NixNode) -> Seq<char>;

/// `Root::parse` of rnix: parses a source text. The parser always hands
/// out a tree; what it could not make sense of is reported beside it.
pub assume_specification[ Root::parse ](s: &str) -> (parse: Parse<Root>)
    ensures
        parse == parse_of(s@),
;

/// `Parse::errors` of rnix: the errors met while parsing, each as the
/// message that it displays.
#[verifier::external_body]
pub(crate) fn parse_errors(parse: &Parse<Root>) -> (errors: Vec<String>)
    ensures
        errors.deep_view() == errors_of(*parse),
{
    parse.errors().iter().map(|error| error.to_string()).collect()
}

/// `Parse::syntax` of rnix: the root node of the tree that was parsed.
#[verifier::external_body]
pub(crate) fn parse_root(parse: &Parse<Root>) -> (root: NixNode)
    ensures
        root == root_of(*parse),
{
    NixNode { node: parse.syntax() }
}

/// `SyntaxNode::kind` of rowan: the kind of the node, of which the reader
/// tells seven apart.
#[verifier::external_body]
pub(crate) fn node_kind(node: &NixNode) -> (kind: NodeKind)
    ensures
        kind == kind_of(*node),
{
    match node.node.kind() {
        SyntaxKind::NODE_ATTRPATH => NodeKind::AttrPath,
        SyntaxKind::NODE_ATTRPATH_VALUE => NodeKind::AttrPathValue,
        SyntaxKind::NODE_ATTR_SET => NodeKind::AttrSet,
        SyntaxKind::NODE_IDENT => NodeKind::Ident,
        SyntaxKind::NODE_LIST => NodeKind::List,
        SyntaxKind::NODE_PATH => NodeKind::Path,
        SyntaxKind::NODE_STRING => NodeKind::Str,
        _ => NodeKind::Other,
    }
}

/// `SyntaxNode::children` of rowan: the child nodes, in source order.
#[verifier::external_body]
pub(crate) fn node_children(node: &NixNode) -> (children: Vec<NixNode>)
    ensures
        children@ == children_of(*node),
{
    node.node.children().map(|node| NixNode { node }).collect()
}

/// `SyntaxNode::descendants` of rowan: the node itself and all nodes below
/// it, in preorder.
#[verifier::external_body]
pub(crate) fn node_descendants(node: &NixNode) -> (nodes: Vec<NixNode>)
    ensures
        nodes@ == descendants_of(*node),
{
    node.node.descendants().map(|node| NixNode { node }).collect()
}

/// `SyntaxNode::text` of rowan: the source text that the node covers.
#[verifier::external_body]
pub(crate) fn node_text(node: &NixNode) -> (text: String)
    ensures
        text@ == text_of(*node),
{
    node.node.text().to_string()
}

} // verus!
