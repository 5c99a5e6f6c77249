//! The way from script text to statements: the Bash grammar of tree-sitter
//! parses the text, and the top-level nodes of its tree are read into plain
//! values.
//!
//! Which tree the grammar gives for a text is taken as it comes, under the
//! name `bash_tree`. Of the tree no more is claimed than that one text gives
//! one tree, and that one node gives one answer each time it is asked for
//! its kind, its place or its children. On that, what is read from a text is
//! stated exactly: each token holds the piece of the text that its node
//! spans, and a tree that does not fit the text is turned down.

use vstd::prelude::*;
use vstd::string::StringExecFns;
use vstd::utf8::encode_utf8;
use crate::command::Statement;
use crate::command::StatementView;
use crate::command::Token;
use crate::command::TokenView;
use crate::range::lsp_range;
use crate::range::to_lsp;
use crate::range::Point;
use crate::range::SourceRange;
use crate::text::is_piece;
use crate::text::piece_of;
use crate::text::slice_text;

verus! {

/// `tree_sitter::Tree`, the syntax tree of a text.
#[verifier::external_type_specification]
#[verifier::external_body]
pub struct ExTree(tree_sitter::Tree);

/// `tree_sitter::Node`, one node of a syntax tree.
#[verifier::external_type_specification]
#[verifier::external_body]
pub struct ExNode<'a>(tree_sitter::Node<'a>);

/// Why a text gave no statements.
#[derive(Clone, Copy, Debug, PartialEq, Eq, Structural)]
pub enum SyntaxError {
    /// The parser did not take the Bash grammar.
    Grammar,
    /// The parser gave no tree, or a tree that does not fit the text.
    Script,
}

/// What a new `tree_sitter::Parser` that is given the grammar of
/// `tree_sitter_bash::language` returns from `tree_sitter::Parser::parse` for
/// `text`: the tree, or why there is none.
pub uninterp spec fn bash_tree(text: Seq<char>) -> Result<tree_sitter::Tree, SyntaxError>;

/// What `tree_sitter::Tree::root_node` returns for `tree`.
pub uninterp spec fn tree_root(tree: tree_sitter::Tree) -> tree_sitter::Node<'static>;

/// What `tree_sitter::Node::kind` returns for `node`.
pub uninterp spec fn node_kind(node: tree_sitter::Node) -> Seq<char>;

/// What `tree_sitter::Node::start_byte` returns for `node`.
pub uninterp spec fn node_start_byte(node: tree_sitter::Node) -> usize;

/// What `tree_sitter::Node::end_byte` returns for `node`.
pub uninterp spec fn node_end_byte(node: tree_sitter::Node) -> usize;

/// What `tree_sitter::Node::range` returns for `node`, without the byte
/// offsets.
pub uninterp spec fn node_range(node: tree_sitter::Node) -> SourceRange;

/// What `tree_sitter::Node::children` hands out for `node`, in order.
pub uninterp spec fn node_children(node: tree_sitter::Node) -> Seq<tree_sitter::Node>;

/// What `tree_sitter::Node::child_by_field_name` returns for `node` and
/// `field`.
pub uninterp spec fn node_child_by_field_name(node: tree_sitter::Node, field: Seq<char>) -> Option<
    tree_sitter::Node,
>;

/// What `tree_sitter::Node::children_by_field_name` hands out for `node` and
/// `field`, in order.
pub uninterp spec fn node_children_by_field_name(node: tree_sitter::Node, field: Seq<char>) -> Seq<
    tree_sitter::Node,
>;

/// `tree_sitter::Tree::root_node`: the node that spans the whole tree. The
/// claim is that it is the same node at every call on one tree.
pub assume_specification<'a>[ tree_sitter::Tree::root_node ](tree: &'a tree_sitter::Tree) -> (root:
    tree_sitter::Node<'a>)
    ensures
        root == tree_root(*tree),
;

/// `tree_sitter::Node::kind`: the name that the grammar gives the node. The
/// claim is that it is the same name at every call on one node.
pub assume_specification<'tree>[ tree_sitter::Node::<'tree>::kind ](
    node: &tree_sitter::Node<'tree>,
) -> (kind: &'static str)
    ensures
        kind@ == node_kind(*node),
;

/// `tree_sitter::Node::start_byte`: where the node begins, in bytes. The
/// claim is that it is the same place at every call on one node.
pub assume_specification<'tree>[ tree_sitter::Node::<'tree>::start_byte ](
    node: &tree_sitter::Node<'tree>,
) -> (at: usize)
    ensures
        at == node_start_byte(*node),
;

/// `tree_sitter::Node::end_byte`: where the node ends, in bytes. The claim is
/// that it is the same place at every call on one node.
pub assume_specification<'tree>[ tree_sitter::Node::<'tree>::end_byte ](
    node: &tree_sitter::Node<'tree>,
) -> (at: usize)
    ensures
        at == node_end_byte(*node),
;

/// `tree_sitter::Parser::parse`, on the whole text and with no earlier tree,
/// by a parser from `tree_sitter::Parser::new` to which
/// `tree_sitter::Parser::set_language` has given the grammar of
/// `tree_sitter_bash::language`. A refused grammar and a missing tree are
/// told apart as the two errors. The claim is that one text gives one
/// outcome: a new parser has neither timeout nor cancellation flag, so
/// nothing but the grammar and the text decides.
#[verifier::external_body]
fn parse_bash(text: &str) -> (r: Result<tree_sitter::Tree, SyntaxError>)
    ensures
        r == bash_tree(text@),
{
    let mut parser = tree_sitter::Parser::new();
    match parser.set_language(tree_sitter_bash::language()) {
        Ok(()) => match parser.parse(text, None) {
            Some(tree) => Ok(tree),
            None => Err(SyntaxError::Script),
        },
        Err(_) => Err(SyntaxError::Grammar),
    }
}

/// `tree_sitter::Node::children`, with a cursor from `tree_sitter::Node::walk`:
/// the node's children in order. The claim is that they are the same nodes
/// at every call on one node.
#[verifier::external_body]
fn children<'tree>(node: &tree_sitter::Node<'tree>) -> (found: Vec<tree_sitter::Node<'tree>>)
    ensures
        found@ == node_children(*node),
{
    let mut cursor = node.walk();
    node.children(&mut cursor).collect()
}

/// `tree_sitter::Node::child_by_field_name`: the first child under the field
/// `field`. The claim is that it is the same at every call on one node and
/// one field.
#[verifier::external_body]
fn child_by_field_name<'tree>(node: &tree_sitter::Node<'tree>, field: &str) -> (found: Option<
    tree_sitter::Node<'tree>,
>)
    ensures
        found == node_child_by_field_name(*node, field@),
{
    node.child_by_field_name(field)
}

/// `tree_sitter::Node::children_by_field_name`, with a cursor from
/// `tree_sitter::Node::walk`: the children under the field `field`, in order.
/// The claim is that they are the same nodes at every call on one node and
/// one field.
#[verifier::external_body]
fn children_by_field_name<'tree>(node: &tree_sitter::Node<'tree>, field: &str) -> (found: Vec<
    tree_sitter::Node<'tree>,
>)
    ensures
        found@ == node_children_by_field_name(*node, field@),
{
    let mut cursor = node.walk();
    node.children_by_field_name(field, &mut cursor).collect()
}

/// `tree_sitter::Node::range`, without its byte offsets. The claims are that
/// it is the same range at every call on one node, and that every row and
/// column fits in 32 bits: the parser keeps each in a `u32`, which `range`
/// widens.
#[verifier::external_body]
fn range_of(node: &tree_sitter::Node) -> (range: SourceRange)
    ensures
        range == node_range(*node),
        range.fits(),
{
    let found = node.range();
    SourceRange {
        start: Point { row: found.start_point.row, column: found.start_point.column },
        end: Point { row: found.end_point.row, column: found.end_point.column },
    }
}

/// The field of a statement under which its name stands, as the grammar
/// names it.
pub const NAME_FIELD: &'static str = "name";

/// The field of a statement under which its arguments stand, as the grammar
/// names it.
pub const ARGUMENT_FIELD: &'static str = "argument";

/// The text of every token of `statements` is cut out of `script`.
pub open spec fn all_within(statements: Seq<StatementView>, script: Seq<char>) -> bool {
    forall|i: int| 0 <= i < statements.len() ==> (#[trigger] statements[i]).within(script)
}

/// The token that `node` gives in `text`: its kind, the text that its bytes
/// spell and its place. There is none where the node's bytes are no piece of
/// the text.
pub open spec fn node_token(node: tree_sitter::Node, text: Seq<char>) -> Option<TokenView> {
    if is_piece(encode_utf8(text), node_start_byte(node) as int, node_end_byte(node) as int) {
        Some(
            TokenView {
                kind: node_kind(node),
                text: piece_of(text, node_start_byte(node) as int, node_end_byte(node) as int),
                range: lsp_range(node_range(node)),
            },
        )
    } else {
        None
    }
}

/// The tokens that `nodes` give in `text`, in order; none where one of the
/// nodes gives no token.
pub open spec fn nodes_tokens(nodes: Seq<tree_sitter::Node>, text: Seq<char>) -> Option<
    Seq<TokenView>,
> {
    if forall|i: int| 0 <= i < nodes.len() ==> (#[trigger] node_token(nodes[i], text)) is Some {
        Some(Seq::new(nodes.len(), |i: int| node_token(nodes[i], text)->0))
    } else {
        None
    }
}

/// The statement that `node` gives in `text`: its kind, the token of the
/// child under its field `name` where it has one, and the tokens of the
/// children under its field `argument`. There is none where one of these
/// children gives no token.
pub open spec fn node_statement(node: tree_sitter::Node, text: Seq<char>) -> Option<StatementView> {
    let name = node_child_by_field_name(node, NAME_FIELD@);
    let arguments = nodes_tokens(node_children_by_field_name(node, ARGUMENT_FIELD@), text);
    if name matches Some(child) && node_token(child, text) is None {
        None
    } else if arguments is None {
        None
    } else {
        Some(
            StatementView {
                kind: node_kind(node),
                name: match name {
                    Some(child) => node_token(child, text),
                    None => None,
                },
                arguments: arguments->0,
            },
        )
    }
}

/// The statements that `nodes` give in `text`, in order; none where one of
/// the nodes gives no statement.
pub open spec fn nodes_statements(nodes: Seq<tree_sitter::Node>, text: Seq<char>) -> Option<
    Seq<StatementView>,
> {
    if forall|i: int| 0 <= i < nodes.len() ==> (#[trigger] node_statement(nodes[i], text)) is Some {
        Some(Seq::new(nodes.len(), |i: int| node_statement(nodes[i], text)->0))
    } else {
        None
    }
}

/// The statements that `tree` gives in `text`: those of the children of its
/// root.
pub open spec fn tree_statements(tree: tree_sitter::Tree, text: Seq<char>) -> Option<
    Seq<StatementView>,
> {
    nodes_statements(node_children(tree_root(tree)), text)
}

/// Reads one node as a token: its kind, the text it spans and its place.
/// There is no token where the node's span is no piece of `text`.
fn read_token(node: &tree_sitter::Node, text: &str) -> (token: Option<Token>)
    ensures
        token.deep_view() == node_token(*node, text@),
        token matches Some(t) ==> t@.within(text@),
{
    match slice_text(text, node.start_byte(), node.end_byte()) {
        Some(piece) => Some(
            Token {
                kind: String::from_str(node.kind()),
                text: String::from_str(piece),
                range: to_lsp(range_of(node)),
            },
        ),
        None => None,
    }
}

/// Reads the tokens of `nodes`, in order; none where one of them cannot be
/// read.
fn read_tokens(nodes: &Vec<tree_sitter::Node>, text: &str) -> (tokens: Option<Vec<Token>>)
    ensures
        tokens.deep_view() == nodes_tokens(nodes@, text@),
        tokens matches Some(found) ==> forall|k: int|
            0 <= k < found.len() ==> (#[trigger] found.deep_view()[k]).within(text@),
{
    let mut tokens: Vec<Token> = Vec::new();
    let mut i: usize = 0;
    while i < nodes.len()
        invariant
            i <= nodes.len(),
            tokens.len() == i,
            forall|k: int|
                0 <= k < i ==> (#[trigger] node_token(nodes@[k], text@)) == Some(
                    tokens.deep_view()[k],
                ),
            forall|k: int|
                0 <= k < tokens.len() ==> (#[trigger] tokens.deep_view()[k]).within(text@),
        decreases nodes.len() - i,
    {
        match read_token(&nodes[i], text) {
            Some(token) => {
                let ghost before = tokens.deep_view();
                tokens.push(token);
                assert(tokens.deep_view() =~= before.push(token@));
            },
            None => {
                assert(node_token(nodes@[i as int], text@) is None);
                return None;
            },
        }
        i = i + 1;
    }
    assert(tokens.deep_view() =~= nodes_tokens(nodes@, text@)->0);
    Some(tokens)
}

/// Reads one top-level node as a statement: its kind, the child under its
/// field `name` and the children under its field `argument`.
fn read_statement(node: &tree_sitter::Node, text: &str) -> (statement: Option<Statement>)
    ensures
        statement.deep_view() == node_statement(*node, text@),
        statement matches Some(s) ==> s@.within(text@),
{
    let name = match child_by_field_name(node, NAME_FIELD) {
        Some(child) => match read_token(&child, text) {
            Some(token) => Some(token),
            None => {
                return None;
            },
        },
        None => None,
    };
    match read_tokens(&children_by_field_name(node, ARGUMENT_FIELD), text) {
        Some(arguments) => Some(Statement { kind: String::from_str(node.kind()), name, arguments }),
        None => None,
    }
}

/// Reads the children of the root of `tree` as statements, in document
/// order; none where one of them cannot be read in `text`.
pub fn read_tree(tree: &tree_sitter::Tree, text: &str) -> (statements: Option<Vec<Statement>>)
    ensures
        statements.deep_view() == tree_statements(*tree, text@),
        statements matches Some(found) ==> all_within(found.deep_view(), text@),
{
    let root = tree.root_node();
    let nodes = children(&root);
    let mut statements: Vec<Statement> = Vec::new();
    let mut i: usize = 0;
    while i < nodes.len()
        invariant
            i <= nodes.len(),
            statements.len() == i,
            nodes@ == node_children(tree_root(*tree)),
            forall|k: int|
                0 <= k < i ==> (#[trigger] node_statement(nodes@[k], text@)) == Some(
                    statements.deep_view()[k],
                ),
            all_within(statements.deep_view(), text@),
        decreases nodes.len() - i,
    {
        match read_statement(&nodes[i], text) {
            Some(statement) => {
                let ghost before = statements.deep_view();
                statements.push(statement);
                assert(statements.deep_view() =~= before.push(statement@));
            },
            None => {
                assert(node_statement(nodes@[i as int], text@) is None);
                return None;
            },
        }
        i = i + 1;
    }
    assert(statements.deep_view() =~= nodes_statements(nodes@, text@)->0);
    Some(statements)
}

/// What reading `text` comes to: the statements that the tree of the text
/// gives, or why there are none.
pub open spec fn reading_of(text: Seq<char>) -> Result<Seq<StatementView>, SyntaxError> {
    match bash_tree(text) {
        Err(error) => Err(error),
        Ok(tree) => match tree_statements(tree, text) {
            Some(statements) => Ok(statements),
            None => Err(SyntaxError::Script),
        },
    }
}

/// A reading, with its statements taken by their views.
pub open spec fn reading_view(r: Result<Vec<Statement>, SyntaxError>) -> Result<
    Seq<StatementView>,
    SyntaxError,
> {
    match r {
        Ok(statements) => Ok(statements.deep_view()),
        Err(error) => Err(error),
    }
}

/// Parses `text` as a Bash script and reads the children of the root of its
/// tree as statements, in document order.
pub fn read_statements(text: &str) -> (r: Result<Vec<Statement>, SyntaxError>)
    ensures
        reading_view(r) == reading_of(text@),
        r matches Ok(statements) ==> all_within(statements.deep_view(), text@),
{
    match parse_bash(text) {
        Ok(tree) => match read_tree(&tree, text) {
            Some(statements) => Ok(statements),
            None => Err(SyntaxError::Script),
        },
        Err(error) => Err(error),
    }
}

} // verus!
