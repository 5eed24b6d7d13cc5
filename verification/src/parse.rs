//! The parse layer: runs the grammar engine and flattens its tree.
//!
//! Everything the grammar engine returns is read through small trusted
//! wrappers; the flattening itself is verified and establishes the
//! `SynTree` well-formedness that the extractors rely on (byte ranges
//! ordered and within the source, parent indices pointing backwards,
//! positions clamped).

use vstd::prelude::*;
use crate::lang::{FileId, Lang, SemanticsError, SourceFile};
use crate::syntree::{node_wf, SynNode, SynTree, MAX_POS};

verus! {

#[verifier::external_type_specification]
#[verifier::external_body]
pub struct ExTsParser(tree_sitter::Parser);

#[verifier::external_type_specification]
#[verifier::external_body]
pub struct ExTsTree(tree_sitter::Tree);

#[verifier::external_type_specification]
#[verifier::external_body]
pub struct ExTsNode<'a>(tree_sitter::Node<'a>);

#[verifier::external_type_specification]
#[verifier::external_body]
pub struct ExTsLanguage(tree_sitter::Language);

/// Relies on `std::str::from_utf8`: it succeeds exactly on valid UTF-8.
#[verifier::external_body]
fn utf8_ok(v: &[u8]) -> (r: bool)
    ensures
        r == vstd::utf8::valid_utf8(v@),
{
    std::str::from_utf8(v).is_ok()
}

/// Relies on `tree_sitter::Language::new` over the Python grammar constant.
#[verifier::external_body]
fn ts_lang_python() -> tree_sitter::Language {
    tree_sitter::Language::new(tree_sitter_python::LANGUAGE)
}

/// Relies on `tree_sitter::Language::new` over the Go grammar constant.
#[verifier::external_body]
fn ts_lang_go() -> tree_sitter::Language {
    tree_sitter::Language::new(tree_sitter_go::LANGUAGE)
}

/// Relies on `tree_sitter::Language::new` over the Rust grammar constant.
#[verifier::external_body]
fn ts_lang_rust() -> tree_sitter::Language {
    tree_sitter::Language::new(tree_sitter_rust::LANGUAGE)
}

/// Relies on `tree_sitter::Language::new` over the TypeScript grammar constant.
#[verifier::external_body]
fn ts_lang_typescript() -> tree_sitter::Language {
    tree_sitter::Language::new(tree_sitter_typescript::LANGUAGE_TYPESCRIPT)
}

/// Relies on `tree_sitter::Parser::new`.
#[verifier::external_body]
fn ts_parser_new() -> tree_sitter::Parser {
    tree_sitter::Parser::new()
}

/// Relies on `tree_sitter::Parser::set_language`; true on success.
#[verifier::external_body]
fn ts_parser_set_language(p: &mut tree_sitter::Parser, l: &tree_sitter::Language) -> bool {
    p.set_language(l).is_ok()
}

/// Relies on `tree_sitter::Parser::parse` over the source bytes.
#[verifier::external_body]
fn ts_parser_parse(p: &mut tree_sitter::Parser, src: &[u8]) -> Option<tree_sitter::Tree> {
    p.parse(src, None)
}

/// Relies on `tree_sitter::Tree::root_node`.
#[verifier::external_body]
fn ts_tree_root<'t>(t: &'t tree_sitter::Tree) -> tree_sitter::Node<'t> {
    t.root_node()
}

/// Relies on `tree_sitter::Node::kind`; the kind string as bytes.
#[verifier::external_body]
fn ts_node_kind(n: &tree_sitter::Node) -> Vec<u8> {
    n.kind().as_bytes().to_vec()
}

/// Relies on `tree_sitter::Node::start_byte`.
#[verifier::external_body]
fn ts_node_start_byte(n: &tree_sitter::Node) -> usize {
    n.start_byte()
}

/// Relies on `tree_sitter::Node::end_byte`.
#[verifier::external_body]
fn ts_node_end_byte(n: &tree_sitter::Node) -> usize {
    n.end_byte()
}

/// Relies on `tree_sitter::Node::start_position`; the 0-based row.
#[verifier::external_body]
fn ts_node_row(n: &tree_sitter::Node) -> usize {
    n.start_position().row
}

/// Relies on `tree_sitter::Node::start_position`; the 0-based column.
#[verifier::external_body]
fn ts_node_col(n: &tree_sitter::Node) -> usize {
    n.start_position().column
}

/// Relies on `tree_sitter::Node::is_named`.
#[verifier::external_body]
fn ts_node_is_named(n: &tree_sitter::Node) -> bool {
    n.is_named()
}

/// Relies on `tree_sitter::Node::child_count`, a `u32` widened to `usize`.
#[verifier::external_body]
fn ts_node_child_count(n: &tree_sitter::Node) -> (r: usize)
    ensures
        r <= 0xffff_ffffusize,
{
    n.child_count() as usize
}

/// Relies on `tree_sitter::Node::child`.
#[verifier::external_body]
fn ts_node_child<'t>(n: &tree_sitter::Node<'t>, i: usize) -> Option<tree_sitter::Node<'t>>
    requires
        i <= 0xffff_ffffusize,
{
    n.child(i as u32)
}

/// Relies on `tree_sitter::Node::field_name_for_child`; the field name as bytes.
#[verifier::external_body]
fn ts_node_field_for_child(n: &tree_sitter::Node, i: usize) -> Option<Vec<u8>>
    requires
        i <= 0xffff_ffffusize,
{
    match n.field_name_for_child(i as u32) {
        Some(s) => Some(s.as_bytes().to_vec()),
        None => None,
    }
}

/// Result of running a grammar over one file: identity plus the flattened
/// well-formed syntax tree.
#[derive(Clone, Debug)]
pub struct ParsedFile {
    pub file_id: FileId,
    pub path: Vec<u8>,
    pub language: Lang,
    pub tree: SynTree,
}

impl ParsedFile {
    /// The tree is well-formed.
    pub open spec fn wf(self) -> bool {
        self.tree.wf()
    }
}

/// Depth budget for flattening; subtrees deeper than this are skipped.
pub const MAX_DEPTH: u32 = 4096;

/// Flattens `node` and its subtree onto the end of `nodes`, in pre-order,
/// clamping byte ranges to the source length and positions to `MAX_POS`.
fn build_subtree(
    nodes: &mut Vec<SynNode>,
    src_len: usize,
    node: &tree_sitter::Node,
    parent: usize,
    field: Option<Vec<u8>>,
    fuel: u32,
)
    requires
        old(nodes)@.len() == 0 ==> parent == 0,
        old(nodes)@.len() > 0 ==> parent < old(nodes)@.len(),
        forall|j: int|
            0 <= j < old(nodes)@.len() ==> node_wf(
                #[trigger] old(nodes)@[j],
                j,
                src_len as int,
            ),
    ensures
        final(nodes)@.len() > old(nodes)@.len(),
        forall|j: int| 0 <= j < old(nodes)@.len() ==> final(nodes)@[j] == old(nodes)@[j],
        forall|j: int|
            0 <= j < final(nodes)@.len() ==> node_wf(#[trigger] final(nodes)@[j], j, src_len as int),
    decreases fuel,
{
    let idx: usize = nodes.len();
    let kind = ts_node_kind(node);
    let sb_raw = ts_node_start_byte(node);
    let eb_raw = ts_node_end_byte(node);
    let sb: usize = if sb_raw > src_len {
        src_len
    } else {
        sb_raw
    };
    let eb0: usize = if eb_raw > src_len {
        src_len
    } else {
        eb_raw
    };
    let eb: usize = if eb0 < sb {
        sb
    } else {
        eb0
    };
    let row_raw = ts_node_row(node);
    let col_raw = ts_node_col(node);
    let row: usize = if row_raw > MAX_POS {
        MAX_POS
    } else {
        row_raw
    };
    let col: usize = if col_raw > MAX_POS {
        MAX_POS
    } else {
        col_raw
    };
    let is_named = ts_node_is_named(node);
    nodes.push(SynNode { kind, field, parent, start_byte: sb, end_byte: eb, row, col, is_named });
    if fuel == 0 {
        return ;
    }
    let cc = ts_node_child_count(node);
    let mut i: usize = 0;
    while i < cc
        invariant
            cc <= 0xffff_ffffusize,
            fuel >= 1,
            i <= cc,
            idx < nodes@.len(),
            forall|j: int| 0 <= j < old(nodes)@.len() ==> nodes@[j] == old(nodes)@[j],
            old(nodes)@.len() < nodes@.len(),
            forall|j: int|
                0 <= j < nodes@.len() ==> node_wf(#[trigger] nodes@[j], j, src_len as int),
        decreases cc - i,
    {
        let c = ts_node_child(node, i);
        match c {
            Some(child) => {
                let fname = ts_node_field_for_child(node, i);
                build_subtree(nodes, src_len, &child, idx, fname, fuel - 1);
            },
            None => {},
        }
        i = i + 1;
    }
}

/// Runs the grammar for `tag` over `source` and flattens the result.
fn parse_file_generic(file_id: FileId, source: &SourceFile, tag: Lang) -> (r: Result<
    ParsedFile,
    SemanticsError,
>)
    ensures
        match r {
            Ok(p) => p.wf() && p.file_id == file_id && p.path@ == source.path@ && p.language == tag
                && p.tree.source@ == source.content@ && p.tree.nodes@.len() > 0,
            Err(e) => true,
        },
        (match r {
            Err(SemanticsError::InvalidSource(_, _)) => true,
            _ => false,
        }) <==> !vstd::utf8::valid_utf8(source.content@),
        match r {
            Err(e) => e matches SemanticsError::InvalidSource(_, _) || e
                matches SemanticsError::ParseFailed(_, _),
            Ok(p) => true,
        },
{
    if !utf8_ok(source.content.as_slice()) {
        return Err(
            SemanticsError::InvalidSource(
                crate::bytes::bytes_to_vec(source.path.as_slice()),
                crate::bytes::lit_to_vec("content is not valid UTF-8"),
            ),
        );
    }
    let ts_lang = match tag {
        Lang::Python => ts_lang_python(),
        Lang::Go => ts_lang_go(),
        Lang::Rust => ts_lang_rust(),
        Lang::Typescript => ts_lang_typescript(),
        Lang::Javascript => ts_lang_typescript(),
    };
    let mut parser = ts_parser_new();
    if !ts_parser_set_language(&mut parser, &ts_lang) {
        return Err(
            SemanticsError::ParseFailed(
                crate::bytes::bytes_to_vec(source.path.as_slice()),
                crate::bytes::lit_to_vec("grammar could not be loaded"),
            ),
        );
    }
    let tree_opt = ts_parser_parse(&mut parser, source.content.as_slice());
    match tree_opt {
        None => Err(
            SemanticsError::ParseFailed(
                crate::bytes::bytes_to_vec(source.path.as_slice()),
                crate::bytes::lit_to_vec("grammar rejected the input"),
            ),
        ),
        Some(ts_tree) => {
            let root = ts_tree_root(&ts_tree);
            let mut nodes: Vec<SynNode> = Vec::new();
            build_subtree(&mut nodes, source.content.len(), &root, 0, None, MAX_DEPTH);
            let syn = SynTree { nodes, source: crate::bytes::bytes_to_vec(source.content.as_slice()) };
            Ok(
                ParsedFile {
                    file_id,
                    path: crate::bytes::bytes_to_vec(source.path.as_slice()),
                    language: tag,
                    tree: syn,
                },
            )
        },
    }
}

/// Parses a Python file.
pub fn parse_python_file(file_id: FileId, source: &SourceFile) -> (r: Result<
    ParsedFile,
    SemanticsError,
>)
    ensures
        match r {
            Ok(p) => p.wf() && p.file_id == file_id && p.path@ == source.path@ && p.language
                == Lang::Python && p.tree.source@ == source.content@ && p.tree.nodes@.len() > 0,
            Err(e) => true,
        },
        (match r {
            Err(SemanticsError::InvalidSource(_, _)) => true,
            _ => false,
        }) <==> !vstd::utf8::valid_utf8(source.content@),
        match r {
            Err(e) => e matches SemanticsError::InvalidSource(_, _) || e
                matches SemanticsError::ParseFailed(_, _),
            Ok(p) => true,
        },
{
    parse_file_generic(file_id, source, Lang::Python)
}

/// Parses a Go file.
pub fn parse_go_file(file_id: FileId, source: &SourceFile) -> (r: Result<
    ParsedFile,
    SemanticsError,
>)
    ensures
        match r {
            Ok(p) => p.wf() && p.file_id == file_id && p.path@ == source.path@ && p.language
                == Lang::Go && p.tree.source@ == source.content@ && p.tree.nodes@.len() > 0,
            Err(e) => true,
        },
        (match r {
            Err(SemanticsError::InvalidSource(_, _)) => true,
            _ => false,
        }) <==> !vstd::utf8::valid_utf8(source.content@),
        match r {
            Err(e) => e matches SemanticsError::InvalidSource(_, _) || e
                matches SemanticsError::ParseFailed(_, _),
            Ok(p) => true,
        },
{
    parse_file_generic(file_id, source, Lang::Go)
}

/// Parses a Rust file.
pub fn parse_rust_file(file_id: FileId, source: &SourceFile) -> (r: Result<
    ParsedFile,
    SemanticsError,
>)
    ensures
        match r {
            Ok(p) => p.wf() && p.file_id == file_id && p.path@ == source.path@ && p.language
                == Lang::Rust && p.tree.source@ == source.content@ && p.tree.nodes@.len() > 0,
            Err(e) => true,
        },
        (match r {
            Err(SemanticsError::InvalidSource(_, _)) => true,
            _ => false,
        }) <==> !vstd::utf8::valid_utf8(source.content@),
        match r {
            Err(e) => e matches SemanticsError::InvalidSource(_, _) || e
                matches SemanticsError::ParseFailed(_, _),
            Ok(p) => true,
        },
{
    parse_file_generic(file_id, source, Lang::Rust)
}

/// Parses a TypeScript file.
pub fn parse_typescript_file(file_id: FileId, source: &SourceFile) -> (r: Result<
    ParsedFile,
    SemanticsError,
>)
    ensures
        match r {
            Ok(p) => p.wf() && p.file_id == file_id && p.path@ == source.path@ && p.language
                == Lang::Typescript && p.tree.source@ == source.content@ && p.tree.nodes@.len()
                > 0,
            Err(e) => true,
        },
        (match r {
            Err(SemanticsError::InvalidSource(_, _)) => true,
            _ => false,
        }) <==> !vstd::utf8::valid_utf8(source.content@),
        match r {
            Err(e) => e matches SemanticsError::InvalidSource(_, _) || e
                matches SemanticsError::ParseFailed(_, _),
            Ok(p) => true,
        },
{
    parse_file_generic(file_id, source, Lang::Typescript)
}

} // verus!
