//! TypeScript and JavaScript semantics: the per-language record and its
//! extractor.

use vstd::prelude::*;
use crate::bytes::{contains_lit, starts_with_lit};
use crate::golang::strip_quotes;
use crate::lang::{FileId, SemanticsError};
use crate::parse::ParsedFile;
use crate::syntree::{loc_wf, AstLocation, SynTree};

verus! {

/// One TypeScript import declaration.
#[derive(Clone, Debug)]
pub struct TsImport {
    pub module: Vec<u8>,
    pub default_import: Option<Vec<u8>>,
    pub namespace_import: Option<Vec<u8>>,
    pub named_imports: Vec<Vec<u8>>,
    pub is_type_only: bool,
    pub location: AstLocation,
}

/// A TypeScript formal parameter.
#[derive(Clone, Debug)]
pub struct TsParam {
    pub name: Vec<u8>,
    pub type_annotation: Option<Vec<u8>>,
    pub default_value: Option<Vec<u8>>,
    pub is_rest: bool,
}

/// A TypeScript function, including arrow functions bound to a name.
#[derive(Clone, Debug)]
pub struct TsFunction {
    pub name: Vec<u8>,
    pub is_exported: bool,
    pub is_generator: bool,
    pub is_async: bool,
    pub params: Vec<TsParam>,
    pub return_type: Option<Vec<u8>>,
    pub has_try_catch: bool,
    pub location: AstLocation,
    pub start_byte: usize,
    pub end_byte: usize,
}

/// A TypeScript class method.
#[derive(Clone, Debug)]
pub struct TsMethod {
    pub name: Vec<u8>,
    pub is_private: bool,
    pub is_protected: bool,
    pub is_async: bool,
    pub params: Vec<TsParam>,
    pub return_type: Option<Vec<u8>>,
    pub decorators: Vec<Vec<u8>>,
    pub location: AstLocation,
    pub start_byte: usize,
    pub end_byte: usize,
}

/// A TypeScript class and its methods.
#[derive(Clone, Debug)]
pub struct TsClass {
    pub name: Vec<u8>,
    pub methods: Vec<TsMethod>,
}

/// A TypeScript call site; line and column are 1-based.
#[derive(Clone, Debug)]
pub struct TsCallSite {
    pub callee_expr: Vec<u8>,
    pub line: usize,
    pub column: usize,
    pub start_byte: usize,
    pub end_byte: usize,
}

/// The TypeScript HTTP client library behind a call.
#[derive(Clone, Copy, Debug, PartialEq, Eq, Structural)]
pub enum TsHttpClientKind {
    Fetch,
    Axios,
    Got,
    NodeHttp,
    NodeFetch,
    Undici,
    Ky,
    Superagent,
    Unknown,
}

/// One HTTP client call in TypeScript code.
#[derive(Clone, Debug)]
pub struct TsHttpCallSite {
    pub client_kind: TsHttpClientKind,
    pub method: Vec<u8>,
    pub url: Option<Vec<u8>>,
    pub has_timeout: bool,
    pub location: AstLocation,
    pub function_name: Option<Vec<u8>>,
    pub in_async_context: bool,
    pub start_byte: usize,
    pub end_byte: usize,
}

/// What a TypeScript concurrency operation does.
#[derive(Clone, Copy, Debug, PartialEq, Eq, Structural)]
pub enum TsAsyncOperationType {
    PromiseConstructor,
    Await,
    PromiseCombinator,
    PromiseChain,
    Timeout,
    Cancellation,
    AsyncFunction,
    AsyncArrow,
    Unknown,
}

/// One asynchronous operation in TypeScript code.
#[derive(Clone, Debug)]
pub struct TsAsyncOperation {
    pub operation_type: TsAsyncOperationType,
    pub has_error_handling: bool,
    pub has_timeout: bool,
    pub timeout_millis: Option<u64>,
    pub has_cancellation: bool,
    pub operation_text: Vec<u8>,
    pub location: AstLocation,
    pub enclosing_function: Option<Vec<u8>>,
    pub start_byte: usize,
    pub end_byte: usize,
}

/// One database operation in TypeScript code; libraries and operations are
/// carried as raw tags and classified at the normalization boundary.
#[derive(Clone, Debug)]
pub struct TsDbOperation {
    pub library: Vec<u8>,
    pub operation_type: Vec<u8>,
    pub has_timeout: bool,
    pub timeout_millis: Option<u64>,
    pub in_transaction: bool,
    pub eager_loading: Option<crate::common::EagerLoadingStrategy>,
    pub in_loop: bool,
    pub in_iteration: bool,
    pub model_name: Option<Vec<u8>>,
    pub relationship_field: Option<Vec<u8>>,
    pub operation_text: Vec<u8>,
    pub location: crate::common::CommonLocation,
    pub enclosing_function: Option<Vec<u8>>,
    pub start_byte: usize,
    pub end_byte: usize,
}

/// All semantic facts extracted from one TypeScript file.
#[derive(Clone, Debug)]
pub struct TsFileSemantics {
    pub file_id: FileId,
    pub path: Vec<u8>,
    pub imports: Vec<TsImport>,
    pub functions: Vec<TsFunction>,
    pub classes: Vec<TsClass>,
    pub calls: Vec<TsCallSite>,
    pub http_calls: Vec<TsHttpCallSite>,
    pub db_operations: Vec<TsDbOperation>,
    pub async_operations: Vec<TsAsyncOperation>,
}

/// Well-formedness of one TypeScript import record.
pub open spec fn ts_import_wf(i: TsImport) -> bool {
    &&& loc_wf(i.location)
    &&& i.module@.len() > 0
    &&& !(i.namespace_import.is_some() && i.named_imports@.len() > 0)
}

/// Well-formedness of one TypeScript function record.
pub open spec fn ts_fun_wf(f: TsFunction) -> bool {
    &&& loc_wf(f.location)
    &&& f.start_byte <= f.end_byte
}

/// Well-formedness of one TypeScript method record.
pub open spec fn ts_method_wf(m: TsMethod) -> bool {
    &&& loc_wf(m.location)
    &&& m.start_byte <= m.end_byte
}

/// Well-formedness of one TypeScript call site.
pub open spec fn ts_call_wf(c: TsCallSite) -> bool {
    &&& 1 <= c.line <= crate::syntree::MAX_POS + 1
    &&& 1 <= c.column <= crate::syntree::MAX_POS + 1
    &&& c.start_byte <= c.end_byte
}

/// Well-formedness of one TypeScript HTTP call site.
pub open spec fn ts_http_wf(h: TsHttpCallSite) -> bool {
    &&& loc_wf(h.location)
    &&& h.start_byte <= h.end_byte
}

/// Well-formedness of one TypeScript async operation.
pub open spec fn ts_async_wf(a: TsAsyncOperation) -> bool {
    &&& loc_wf(a.location)
    &&& a.start_byte <= a.end_byte
}

impl TsFileSemantics {
    /// Every record of the file is well-formed.
    pub open spec fn wf(self) -> bool {
        &&& forall|j: int| 0 <= j < self.imports@.len() ==> ts_import_wf(#[trigger] self.imports@[j])
        &&& forall|j: int|
            0 <= j < self.functions@.len() ==> ts_fun_wf(#[trigger] self.functions@[j])
        &&& forall|j: int|
            0 <= j < self.classes@.len() ==> forall|k: int|
                0 <= k < (#[trigger] self.classes@[j]).methods@.len() ==> ts_method_wf(
                    #[trigger] self.classes@[j].methods@[k],
                )
        &&& forall|j: int| 0 <= j < self.calls@.len() ==> ts_call_wf(#[trigger] self.calls@[j])
        &&& forall|j: int|
            0 <= j < self.http_calls@.len() ==> ts_http_wf(#[trigger] self.http_calls@[j])
        &&& forall|j: int|
            0 <= j < self.async_operations@.len() ==> ts_async_wf(
                #[trigger] self.async_operations@[j],
            )
    }
}

/// The name and async flag of the function-like construct enclosing node
/// `i`: the nearest function declaration, generator or method, or an arrow
/// function (named through its variable declarator).
pub open spec fn ts_encl_spec(t: SynTree, i: int) -> (Option<Seq<u8>>, bool)
    decreases i
        when 0 <= i < t.nodes@.len()
{
    if i <= 0 || i >= t.nodes@.len() {
        (None, false)
    } else {
        let p = t.nodes@[i].parent as int;
        if p >= i {
            (None, false)
        } else if t.kind_of(p) == crate::bytes::lit_bytes("function_declaration") || t.kind_of(p)
            == crate::bytes::lit_bytes("generator_function_declaration") || t.kind_of(p)
            == crate::bytes::lit_bytes("method_definition") {
            (
                match crate::syntree::child_by_field(t, p, crate::bytes::lit_bytes("name")) {
                    Some(nm) => Some(t.text_of(nm)),
                    None => None,
                },
                crate::bytes::has_prefix(t.text_of(p), crate::bytes::lit_bytes("async")),
            )
        } else if t.kind_of(p) == crate::bytes::lit_bytes("arrow_function") {
            let pp = t.nodes@[p].parent as int;
            if t.kind_of(pp) == crate::bytes::lit_bytes("variable_declarator") {
                (
                    match crate::syntree::child_by_field(t, pp, crate::bytes::lit_bytes("name")) {
                        Some(nm) => Some(t.text_of(nm)),
                        None => None,
                    },
                    crate::bytes::has_prefix(t.text_of(p), crate::bytes::lit_bytes("async")),
                )
            } else {
                (None, crate::bytes::has_prefix(t.text_of(p), crate::bytes::lit_bytes("async")))
            }
        } else {
            ts_encl_spec(t, p)
        }
    }
}

/// The name and async flag of the function-like construct enclosing `i`.
fn ts_enclosing_function(t: &SynTree, i: usize) -> (r: (Option<Vec<u8>>, bool))
    requires
        t.wf(),
        i < t.nodes@.len(),
    ensures
        match (r.0, ts_encl_spec(*t, i as int).0) {
            (Some(a), Some(b)) => a@ == b,
            (None, None) => true,
            _ => false,
        },
        r.1 == ts_encl_spec(*t, i as int).1,
{
    let mut cur: usize = i;
    while cur > 0
        invariant
            t.wf(),
            cur < t.nodes@.len(),
            ts_encl_spec(*t, i as int) == ts_encl_spec(*t, cur as int),
        decreases cur,
    {
        proof {
            assert(crate::syntree::node_wf(
                t.nodes@[cur as int],
                cur as int,
                t.source@.len() as int,
            ));
        }
        let p = t.parent_of(cur);
        if t.kind_is(p, "function_declaration") || t.kind_is(p, "generator_function_declaration")
            || t.kind_is(p, "method_definition") {
            let is_async = starts_with_lit(t.text(p).as_slice(), "async");
            return match t.child_by_field(p, "name") {
                Some(nm) => (Some(t.text(nm)), is_async),
                None => (None, is_async),
            };
        }
        if t.kind_is(p, "arrow_function") {
            let is_async = starts_with_lit(t.text(p).as_slice(), "async");
            let pp = t.parent_of(p);
            if t.kind_is(pp, "variable_declarator") {
                return match t.child_by_field(pp, "name") {
                    Some(nm) => (Some(t.text(nm)), is_async),
                    None => (None, is_async),
                };
            }
            return (None, is_async);
        }
        cur = p;
    }
    (None, false)
}

/// Extracts the parameters of the function-like node `i`.
fn ts_scan_params(t: &SynTree, i: usize) -> (r: Vec<TsParam>)
    requires
        t.wf(),
        i < t.nodes@.len(),
    ensures
        r@.map_values(|p: TsParam| ts_param_view(p)) == ts_params_of(*t, i as int),
{
    let n = t.len();
    let mut out: Vec<TsParam> = Vec::new();
    match t.child_by_field(i, "parameters") {
        Some(ps) => {
            let mut j: usize = ps + 1;
            while j < n
                invariant
                    t.wf(),
                    n == t.nodes@.len(),
                    j <= n,
                    ps < n,
                    ps + 1 <= j,
                    out@.map_values(|p: TsParam| ts_param_view(p)) + ts_params_texts(
                        *t,
                        ps as int,
                        j as int,
                    ) =~= ts_params_texts(*t, ps as int, ps + 1),
                decreases n - j,
            {
                if t.parent_of(j) == ps && (t.kind_is(j, "required_parameter") || t.kind_is(
                    j,
                    "optional_parameter",
                )) {
                    match t.child_by_field(j, "pattern") {
                        Some(pat) => {
                            let is_rest = t.kind_is(pat, "rest_pattern");
                            let ty = match t.child_by_field(j, "type") {
                                Some(tn) => Some(t.text(tn)),
                                None => None,
                            };
                            let dv = match t.child_by_field(j, "value") {
                                Some(vn) => Some(t.text(vn)),
                                None => None,
                            };
                            let ghost pprev = out@;
                            out.push(
                                TsParam {
                                    name: t.text(pat),
                                    type_annotation: ty,
                                    default_value: dv,
                                    is_rest,
                                },
                            );
                            proof {
                                assert(out@.map_values(|p: TsParam| ts_param_view(p))
                                    =~= pprev.map_values(|p: TsParam| ts_param_view(p)) + seq![
                                    ts_param_view(out@.last()),
                                ]);
                            }
                        },
                        None => {},
                    }
                }
                j = j + 1;
            }
            proof {
                assert(ts_params_texts(*t, ps as int, n as int) =~= Seq::<
                    (Seq<u8>, Option<Seq<u8>>, Option<Seq<u8>>, bool),
                >::empty());
                assert(out@.map_values(|p: TsParam| ts_param_view(p)) =~= ts_params_texts(
                    *t,
                    ps as int,
                    ps + 1,
                ));
            }
        },
        None => {
            proof {
                assert(out@.map_values(|p: TsParam| ts_param_view(p)) =~= Seq::<
                    (Seq<u8>, Option<Seq<u8>>, Option<Seq<u8>>, bool),
                >::empty());
            }
        },
    }
    out
}

/// Whether node `i` sits directly under an `export` statement, one or two
/// levels up.
fn ts_is_exported(t: &SynTree, i: usize) -> (r: bool)
    requires
        t.wf(),
        i < t.nodes@.len(),
    ensures
        r == ts_exported_spec(*t, i as int),
{
    proof {
        assert(crate::syntree::node_wf(t.nodes@[i as int], i as int, t.source@.len() as int));
    }
    let p = t.parent_of(i);
    proof {
        assert(crate::syntree::node_wf(t.nodes@[p as int], p as int, t.source@.len() as int));
    }
    let pp = t.parent_of(p);
    t.kind_is(p, "export_statement") || t.kind_is(pp, "export_statement")
}

/// The exact shape of one extracted TypeScript call site at node `i`.
pub open spec fn ts_call_site_rel(t: SynTree, i: int, site: TsCallSite) -> bool {
    let f = crate::syntree::child_by_field(t, i, crate::bytes::lit_bytes("function")).unwrap();
    &&& site.callee_expr@ == t.text_of(f)
    &&& site.line == t.nodes@[i].row + 1
    &&& site.column == t.nodes@[i].col + 1
    &&& site.start_byte == t.nodes@[i].start_byte
    &&& site.end_byte == t.nodes@[i].end_byte
}

/// The call sites extracted from the first `n` nodes of a TypeScript tree,
/// in document order, following the extractor's branch order on node kinds.
pub open spec fn ts_calls_scan(t: SynTree, n: int, out: Seq<TsCallSite>) -> bool
    decreases n
        when 0 <= n <= t.nodes@.len()
{
    if n == 0 {
        out.len() == 0
    } else {
        let i = n - 1;
        if t.kind_of(i) == crate::bytes::lit_bytes("import_statement") || t.kind_of(i)
            == crate::bytes::lit_bytes("function_declaration") || t.kind_of(i)
            == crate::bytes::lit_bytes("generator_function_declaration") || t.kind_of(i)
            == crate::bytes::lit_bytes("variable_declarator") || t.kind_of(i)
            == crate::bytes::lit_bytes("class_declaration") {
            ts_calls_scan(t, i, out)
        } else if t.kind_of(i) == crate::bytes::lit_bytes("call_expression")
            && crate::syntree::child_by_field(
            t,
            i,
            crate::bytes::lit_bytes("function"),
        ).is_some() {
            out.len() > 0 && ts_calls_scan(t, i, out.drop_last()) && ts_call_site_rel(
                t,
                i,
                out.last(),
            )
        } else {
            ts_calls_scan(t, i, out)
        }
    }
}

/// The receiver text of the member expression `f`, or empty without one.
pub open spec fn ts_member_object(t: SynTree, f: int) -> Seq<u8> {
    match crate::syntree::child_by_field(t, f, crate::bytes::lit_bytes("object")) {
        Some(o) => t.text_of(o),
        None => Seq::empty(),
    }
}

/// The property text of the member expression `f`, or empty without one.
pub open spec fn ts_member_prop(t: SynTree, f: int) -> Seq<u8> {
    match crate::syntree::child_by_field(t, f, crate::bytes::lit_bytes("property")) {
        Some(p) => t.text_of(p),
        None => Seq::empty(),
    }
}

/// The HTTP client library a TypeScript receiver names, if any.
pub open spec fn ts_client_spec(obj: Seq<u8>) -> Option<TsHttpClientKind> {
    if obj == crate::bytes::lit_bytes("axios") {
        Some(TsHttpClientKind::Axios)
    } else if obj == crate::bytes::lit_bytes("got") {
        Some(TsHttpClientKind::Got)
    } else if obj == crate::bytes::lit_bytes("ky") {
        Some(TsHttpClientKind::Ky)
    } else if obj == crate::bytes::lit_bytes("superagent") {
        Some(TsHttpClientKind::Superagent)
    } else {
        None
    }
}

/// The first string argument of the call at node `i`, unquoted, if any.
pub open spec fn ts_url_spec(t: SynTree, i: int) -> Option<Seq<u8>> {
    match crate::syntree::child_by_field(t, i, crate::bytes::lit_bytes("arguments")) {
        Some(a) => match crate::syntree::child_by_kind(t, a, crate::bytes::lit_bytes("string")) {
            Some(s) => Some(crate::golang::strip_quotes_spec(t.text_of(s))),
            None => None,
        },
        None => None,
    }
}

/// Fields shared by every emitted TypeScript HTTP site at call node `i`.
pub open spec fn ts_http_common_rel(t: SynTree, i: int, site: TsHttpCallSite) -> bool {
    &&& (match (site.url, ts_url_spec(t, i)) {
        (Some(a), Some(b)) => a@ == b,
        (None, None) => true,
        _ => false,
    })
    &&& site.has_timeout == crate::bytes::contains_seq(
        t.text_of(i),
        crate::bytes::lit_bytes("timeout"),
    )
    &&& (match (site.function_name, ts_encl_spec(t, i).0) {
        (Some(a), Some(b)) => a@ == b,
        (None, None) => true,
        _ => false,
    })
    &&& site.in_async_context == ts_encl_spec(t, i).1
    &&& site.location.start_line == t.nodes@[i].row
    &&& site.location.start_col == t.nodes@[i].col
    &&& site.start_byte == t.nodes@[i].start_byte
    &&& site.end_byte == t.nodes@[i].end_byte
}

/// The exact shape of the site emitted for a plain `fetch` call.
pub open spec fn ts_fetch_rel(t: SynTree, i: int, site: TsHttpCallSite) -> bool {
    &&& ts_http_common_rel(t, i, site)
    &&& site.client_kind == TsHttpClientKind::Fetch
    &&& site.method@ == crate::bytes::lit_bytes("fetch")
}

/// The exact shape of the site emitted for a client method call.
pub open spec fn ts_member_http_rel(t: SynTree, i: int, site: TsHttpCallSite) -> bool {
    let f = crate::syntree::child_by_field(t, i, crate::bytes::lit_bytes("function")).unwrap();
    &&& ts_http_common_rel(t, i, site)
    &&& site.client_kind == ts_client_spec(ts_member_object(t, f)).unwrap()
    &&& site.method@ == ts_member_prop(t, f)
}

/// The HTTP sites emitted from the first `n` nodes by the framework pass,
/// following its branch order on node kinds.
pub open spec fn ts_http_scan(t: SynTree, n: int, out: Seq<TsHttpCallSite>) -> bool
    decreases n
        when 0 <= n <= t.nodes@.len()
{
    if n == 0 {
        out.len() == 0
    } else {
        let i = n - 1;
        if t.kind_of(i) == crate::bytes::lit_bytes("await_expression") || t.kind_of(i)
            == crate::bytes::lit_bytes("new_expression") {
            ts_http_scan(t, i, out)
        } else if t.kind_of(i) == crate::bytes::lit_bytes("call_expression")
            && crate::syntree::child_by_field(t, i, crate::bytes::lit_bytes("function")).is_some() {
            let f = crate::syntree::child_by_field(t, i, crate::bytes::lit_bytes("function")).unwrap();
            if t.kind_of(f) == crate::bytes::lit_bytes("identifier") {
                if t.text_of(f) == crate::bytes::lit_bytes("fetch") {
                    out.len() > 0 && ts_http_scan(t, i, out.drop_last()) && ts_fetch_rel(
                        t,
                        i,
                        out.last(),
                    )
                } else {
                    ts_http_scan(t, i, out)
                }
            } else if t.kind_of(f) == crate::bytes::lit_bytes("member_expression") {
                if ts_client_spec(ts_member_object(t, f)).is_some() {
                    out.len() > 0 && ts_http_scan(t, i, out.drop_last()) && ts_member_http_rel(
                        t,
                        i,
                        out.last(),
                    )
                } else {
                    ts_http_scan(t, i, out)
                }
            } else {
                ts_http_scan(t, i, out)
            }
        } else {
            ts_http_scan(t, i, out)
        }
    }
}

/// Fields shared by every emitted TypeScript async record at node `i`.
pub open spec fn ts_async_common_rel(t: SynTree, i: int, op: TsAsyncOperation) -> bool {
    &&& !op.has_error_handling
    &&& op.timeout_millis.is_none()
    &&& !op.has_cancellation
    &&& op.operation_text@ == t.text_of(i)
    &&& (match (op.enclosing_function, ts_encl_spec(t, i).0) {
        (Some(a), Some(b)) => a@ == b,
        (None, None) => true,
        _ => false,
    })
    &&& op.location.start_line == t.nodes@[i].row
    &&& op.location.start_col == t.nodes@[i].col
    &&& op.start_byte == t.nodes@[i].start_byte
    &&& op.end_byte == t.nodes@[i].end_byte
}

/// The async operations emitted from the first `n` nodes by the framework
/// pass: awaits, Promise constructors, timer calls, Promise combinators
/// and `.then` chains, following its branch order.
pub open spec fn ts_async_scan(t: SynTree, n: int, out: Seq<TsAsyncOperation>) -> bool
    decreases n
        when 0 <= n <= t.nodes@.len()
{
    if n == 0 {
        out.len() == 0
    } else {
        let i = n - 1;
        if t.kind_of(i) == crate::bytes::lit_bytes("await_expression") {
            out.len() > 0 && ts_async_scan(t, i, out.drop_last()) && ts_async_common_rel(
                t,
                i,
                out.last(),
            ) && out.last().operation_type == TsAsyncOperationType::Await && !out.last().has_timeout
        } else if t.kind_of(i) == crate::bytes::lit_bytes("new_expression") {
            match crate::syntree::child_by_field(t, i, crate::bytes::lit_bytes("constructor")) {
                Some(c) => if t.text_of(c) == crate::bytes::lit_bytes("Promise") {
                    out.len() > 0 && ts_async_scan(t, i, out.drop_last()) && ts_async_common_rel(
                        t,
                        i,
                        out.last(),
                    ) && out.last().operation_type == TsAsyncOperationType::PromiseConstructor
                        && !out.last().has_timeout
                } else {
                    ts_async_scan(t, i, out)
                },
                None => ts_async_scan(t, i, out),
            }
        } else if t.kind_of(i) == crate::bytes::lit_bytes("call_expression")
            && crate::syntree::child_by_field(t, i, crate::bytes::lit_bytes("function")).is_some() {
            let f = crate::syntree::child_by_field(t, i, crate::bytes::lit_bytes("function")).unwrap();
            if t.kind_of(f) == crate::bytes::lit_bytes("identifier") {
                if t.text_of(f) == crate::bytes::lit_bytes("fetch") {
                    ts_async_scan(t, i, out)
                } else if t.text_of(f) == crate::bytes::lit_bytes("setTimeout") {
                    out.len() > 0 && ts_async_scan(t, i, out.drop_last()) && ts_async_common_rel(
                        t,
                        i,
                        out.last(),
                    ) && out.last().operation_type == TsAsyncOperationType::Timeout
                        && out.last().has_timeout
                } else {
                    ts_async_scan(t, i, out)
                }
            } else if t.kind_of(f) == crate::bytes::lit_bytes("member_expression") {
                if ts_client_spec(ts_member_object(t, f)).is_some() {
                    ts_async_scan(t, i, out)
                } else if ts_member_object(t, f) == crate::bytes::lit_bytes("Promise") {
                    if ts_member_prop(t, f) == crate::bytes::lit_bytes("all") || ts_member_prop(
                        t,
                        f,
                    ) == crate::bytes::lit_bytes("race") || ts_member_prop(t, f)
                        == crate::bytes::lit_bytes("allSettled") {
                        out.len() > 0 && ts_async_scan(t, i, out.drop_last())
                            && ts_async_common_rel(t, i, out.last()) && out.last().operation_type
                            == TsAsyncOperationType::PromiseCombinator && !out.last().has_timeout
                    } else {
                        ts_async_scan(t, i, out)
                    }
                } else if ts_member_prop(t, f) == crate::bytes::lit_bytes("then") {
                    out.len() > 0 && ts_async_scan(t, i, out.drop_last()) && ts_async_common_rel(
                        t,
                        i,
                        out.last(),
                    ) && out.last().operation_type == TsAsyncOperationType::PromiseChain
                        && !out.last().has_timeout
                } else {
                    ts_async_scan(t, i, out)
                }
            } else {
                ts_async_scan(t, i, out)
            }
        } else {
            ts_async_scan(t, i, out)
        }
    }
}

/// Whether node `i` sits directly under an `export` statement, one or two
/// levels up.
pub open spec fn ts_exported_spec(t: SynTree, i: int) -> bool {
    let p = t.nodes@[i].parent as int;
    let pp = t.nodes@[p].parent as int;
    t.kind_of(p) == crate::bytes::lit_bytes("export_statement") || t.kind_of(pp)
        == crate::bytes::lit_bytes("export_statement")
}

/// The parameter view tuples (name, type, default, rest flag) collected
/// from the children of the parameter list node `ps`, at or after `j`.
pub open spec fn ts_params_texts(t: SynTree, ps: int, j: int) -> Seq<
    (Seq<u8>, Option<Seq<u8>>, Option<Seq<u8>>, bool),
>
    decreases t.nodes@.len() - j
        when 0 <= j <= t.nodes@.len()
{
    if j >= t.nodes@.len() {
        Seq::empty()
    } else if t.nodes@[j].parent == ps && j != ps && (t.kind_of(j) == crate::bytes::lit_bytes(
        "required_parameter",
    ) || t.kind_of(j) == crate::bytes::lit_bytes("optional_parameter")) {
        match crate::syntree::child_by_field(t, j, crate::bytes::lit_bytes("pattern")) {
            Some(pat) => {
                let ty = match crate::syntree::child_by_field(
                    t,
                    j,
                    crate::bytes::lit_bytes("type"),
                ) {
                    Some(tn) => Some(t.text_of(tn)),
                    None => None,
                };
                let dv = match crate::syntree::child_by_field(
                    t,
                    j,
                    crate::bytes::lit_bytes("value"),
                ) {
                    Some(vn) => Some(t.text_of(vn)),
                    None => None,
                };
                seq![
                    (
                        t.text_of(pat),
                        ty,
                        dv,
                        t.kind_of(pat) == crate::bytes::lit_bytes("rest_pattern"),
                    ),
                ] + ts_params_texts(t, ps, j + 1)
            },
            None => ts_params_texts(t, ps, j + 1),
        }
    } else {
        ts_params_texts(t, ps, j + 1)
    }
}

/// The parameter tuples of the function-like node `i`.
pub open spec fn ts_params_of(t: SynTree, i: int) -> Seq<
    (Seq<u8>, Option<Seq<u8>>, Option<Seq<u8>>, bool),
> {
    match crate::syntree::child_by_field(t, i, crate::bytes::lit_bytes("parameters")) {
        Some(ps) => ts_params_texts(t, ps, ps + 1),
        None => Seq::empty(),
    }
}

/// The view tuple of one extracted TypeScript parameter.
pub open spec fn ts_param_view(p: TsParam) -> (Seq<u8>, Option<Seq<u8>>, Option<Seq<u8>>, bool) {
    (
        p.name@,
        match p.type_annotation {
            Some(v) => Some(v@),
            None => None,
        },
        match p.default_value {
            Some(v) => Some(v@),
            None => None,
        },
        p.is_rest,
    )
}

/// The return type read at node `i`, if annotated.
pub open spec fn ts_ret_rel(t: SynTree, i: int, rt: Option<Vec<u8>>) -> bool {
    match (rt, crate::syntree::child_by_field(t, i, crate::bytes::lit_bytes("return_type"))) {
        (Some(a), Some(n)) => a@ == t.text_of(n),
        (None, None) => true,
        _ => false,
    }
}

/// Whether the subtree of node `i` holds a `try` statement.
pub open spec fn ts_has_try_spec(t: SynTree, i: int) -> bool {
    exists|j: int|
        0 <= j < t.nodes@.len() && #[trigger] t.kind_of(j) == crate::bytes::lit_bytes(
            "try_statement",
        ) && crate::syntree::is_anc(t, i, j)
}

/// The exact shape of the record of a function declaration at node `i`.
pub open spec fn ts_fun_decl_rel(t: SynTree, i: int, f: TsFunction) -> bool {
    let nm = crate::syntree::child_by_field(t, i, crate::bytes::lit_bytes("name")).unwrap();
    &&& f.name@ == t.text_of(nm)
    &&& f.is_exported == ts_exported_spec(t, i)
    &&& f.is_generator == (t.kind_of(i) == crate::bytes::lit_bytes(
        "generator_function_declaration",
    ))
    &&& f.is_async == crate::bytes::has_prefix(t.text_of(i), crate::bytes::lit_bytes("async"))
    &&& f.params@.map_values(|p: TsParam| ts_param_view(p)) == ts_params_of(t, i)
    &&& ts_ret_rel(t, i, f.return_type)
    &&& f.has_try_catch == ts_has_try_spec(t, i)
    &&& f.location.start_line == t.nodes@[i].row
    &&& f.location.start_col == t.nodes@[i].col
    &&& f.start_byte == t.nodes@[i].start_byte
    &&& f.end_byte == t.nodes@[i].end_byte
}

/// The exact shape of the record of an arrow function bound at the
/// variable declarator node `i` with value node `v`.
pub open spec fn ts_arrow_rel(t: SynTree, i: int, f: TsFunction) -> bool {
    let nm = crate::syntree::child_by_field(t, i, crate::bytes::lit_bytes("name")).unwrap();
    let v = crate::syntree::child_by_field(t, i, crate::bytes::lit_bytes("value")).unwrap();
    &&& f.name@ == t.text_of(nm)
    &&& f.is_exported == ts_exported_spec(t, t.nodes@[i].parent as int)
    &&& !f.is_generator
    &&& f.is_async == crate::bytes::has_prefix(t.text_of(v), crate::bytes::lit_bytes("async"))
    &&& f.params@.map_values(|p: TsParam| ts_param_view(p)) == ts_params_of(t, v)
    &&& ts_ret_rel(t, v, f.return_type)
    &&& f.has_try_catch == ts_has_try_spec(t, v)
    &&& f.location.start_line == t.nodes@[i].row
    &&& f.location.start_col == t.nodes@[i].col
    &&& f.start_byte == t.nodes@[i].start_byte
    &&& f.end_byte == t.nodes@[i].end_byte
}

/// The accessibility text of the method at node `j`, or empty.
pub open spec fn ts_acc_spec(t: SynTree, j: int) -> Seq<u8> {
    match crate::syntree::child_by_kind(t, j, crate::bytes::lit_bytes("accessibility_modifier")) {
        Some(am) => t.text_of(am),
        None => Seq::empty(),
    }
}

/// The exact shape of the method record extracted at node `j`.
pub open spec fn ts_method_rec_rel(t: SynTree, j: int, m: TsMethod) -> bool {
    let nm = crate::syntree::child_by_field(t, j, crate::bytes::lit_bytes("name")).unwrap();
    &&& m.name@ == t.text_of(nm)
    &&& m.is_private == (ts_acc_spec(t, j) == crate::bytes::lit_bytes("private"))
    &&& m.is_protected == (ts_acc_spec(t, j) == crate::bytes::lit_bytes("protected"))
    &&& m.is_async == crate::bytes::has_prefix(t.text_of(j), crate::bytes::lit_bytes("async"))
    &&& m.params@.map_values(|p: TsParam| ts_param_view(p)) == ts_params_of(t, j)
    &&& ts_ret_rel(t, j, m.return_type)
    &&& m.decorators@.len() == 0
    &&& m.location.start_line == t.nodes@[j].row
    &&& m.location.start_col == t.nodes@[j].col
    &&& m.start_byte == t.nodes@[j].start_byte
    &&& m.end_byte == t.nodes@[j].end_byte
}

/// The methods of the class at node `i`, collected from the nodes below
/// the exclusive bound `m` whose nearest class ancestor is `i`.
pub open spec fn ts_class_methods_upto(t: SynTree, i: int, m: int, out: Seq<TsMethod>) -> bool
    decreases m
        when 0 <= i && 0 <= m <= t.nodes@.len()
{
    if m <= i + 1 {
        out.len() == 0
    } else if t.kind_of(m - 1) == crate::bytes::lit_bytes("method_definition")
        && crate::syntree::nearest_anc_kind(t, m - 1, crate::bytes::lit_bytes("class_declaration"))
        == Some(i) && crate::syntree::child_by_field(
        t,
        m - 1,
        crate::bytes::lit_bytes("name"),
    ).is_some() {
        out.len() > 0 && ts_class_methods_upto(t, i, m - 1, out.drop_last()) && ts_method_rec_rel(
            t,
            m - 1,
            out.last(),
        )
    } else {
        ts_class_methods_upto(t, i, m - 1, out)
    }
}

/// The exact shape of the class record extracted at node `i`.
pub open spec fn ts_class_rel(t: SynTree, i: int, c: TsClass) -> bool {
    &&& (match crate::syntree::child_by_field(t, i, crate::bytes::lit_bytes("name")) {
        Some(nm) => c.name@ == t.text_of(nm),
        None => c.name@.len() == 0,
    })
    &&& ts_class_methods_upto(t, i, t.nodes@.len() as int, c.methods@)
}

/// The exact shape of the import record extracted at node `i`.
pub open spec fn ts_import_rel(t: SynTree, i: int, imp: TsImport) -> bool {
    let src = crate::syntree::child_by_field(t, i, crate::bytes::lit_bytes("source")).unwrap();
    &&& imp.module@ == crate::golang::strip_quotes_spec(t.text_of(src))
    &&& (match crate::syntree::child_by_kind(t, i, crate::bytes::lit_bytes("import_clause")) {
        Some(cl) => {
            &&& (match (imp.default_import, crate::syntree::child_by_kind(
                t,
                cl,
                crate::bytes::lit_bytes("identifier"),
            )) {
                (Some(a), Some(d)) => a@ == t.text_of(d),
                (None, None) => true,
                _ => false,
            })
            &&& (match crate::syntree::child_by_kind(
                t,
                cl,
                crate::bytes::lit_bytes("namespace_import"),
            ) {
                Some(ns) => match (imp.namespace_import, crate::syntree::child_by_kind(
                    t,
                    ns,
                    crate::bytes::lit_bytes("identifier"),
                )) {
                    (Some(a), Some(id)) => a@ == t.text_of(id),
                    (None, None) => true,
                    _ => false,
                },
                None => imp.namespace_import.is_none(),
            })
            &&& (if imp.namespace_import.is_none() {
                match crate::syntree::child_by_kind(
                    t,
                    cl,
                    crate::bytes::lit_bytes("named_imports"),
                ) {
                    Some(ni) => imp.named_imports@.map_values(|v: Vec<u8>| v@)
                        == ts_named_imports_texts(t, ni, ni + 1),
                    None => imp.named_imports@.len() == 0,
                }
            } else {
                imp.named_imports@.len() == 0
            })
        },
        None => imp.default_import.is_none() && imp.namespace_import.is_none()
            && imp.named_imports@.len() == 0,
    })
    &&& imp.is_type_only == crate::bytes::has_prefix(
        t.text_of(i),
        crate::bytes::lit_bytes("import type"),
    )
    &&& imp.location.start_line == t.nodes@[i].row
    &&& imp.location.start_col == t.nodes@[i].col
}

/// The names brought in by the import specifiers under the named-imports
/// node `ni`, at or after index `j`.
pub open spec fn ts_named_imports_texts(t: SynTree, ni: int, j: int) -> Seq<Seq<u8>>
    decreases t.nodes@.len() - j
        when 0 <= j <= t.nodes@.len()
{
    if j >= t.nodes@.len() {
        Seq::empty()
    } else if t.nodes@[j].parent == ni && j != ni && t.kind_of(j) == crate::bytes::lit_bytes(
        "import_specifier",
    ) {
        match crate::syntree::child_by_field(t, j, crate::bytes::lit_bytes("name")) {
            Some(nm) => seq![t.text_of(nm)] + ts_named_imports_texts(t, ni, j + 1),
            None => ts_named_imports_texts(t, ni, j + 1),
        }
    } else {
        ts_named_imports_texts(t, ni, j + 1)
    }
}

/// The import records extracted from the first `n` nodes, following the
/// extractor's branch order on node kinds.
pub open spec fn ts_imports_scan(t: SynTree, n: int, out: Seq<TsImport>) -> bool
    decreases n
        when 0 <= n <= t.nodes@.len()
{
    if n == 0 {
        out.len() == 0
    } else {
        let i = n - 1;
        if t.kind_of(i) == crate::bytes::lit_bytes("import_statement") {
            if crate::syntree::child_by_field(t, i, crate::bytes::lit_bytes("source")).is_some()
                && crate::golang::strip_quotes_spec(
                t.text_of(
                    crate::syntree::child_by_field(
                        t,
                        i,
                        crate::bytes::lit_bytes("source"),
                    ).unwrap(),
                ),
            ).len() > 0 {
                out.len() > 0 && ts_imports_scan(t, i, out.drop_last()) && ts_import_rel(
                    t,
                    i,
                    out.last(),
                )
            } else {
                ts_imports_scan(t, i, out)
            }
        } else {
            ts_imports_scan(t, i, out)
        }
    }
}

/// The function records extracted from the first `n` nodes: declarations,
/// generators, and arrow functions bound to a name.
pub open spec fn ts_functions_scan(t: SynTree, n: int, out: Seq<TsFunction>) -> bool
    decreases n
        when 0 <= n <= t.nodes@.len()
{
    if n == 0 {
        out.len() == 0
    } else {
        let i = n - 1;
        if t.kind_of(i) == crate::bytes::lit_bytes("import_statement") {
            ts_functions_scan(t, i, out)
        } else if t.kind_of(i) == crate::bytes::lit_bytes("function_declaration") || t.kind_of(i)
            == crate::bytes::lit_bytes("generator_function_declaration") {
            if crate::syntree::child_by_field(t, i, crate::bytes::lit_bytes("name")).is_some() {
                out.len() > 0 && ts_functions_scan(t, i, out.drop_last()) && ts_fun_decl_rel(
                    t,
                    i,
                    out.last(),
                )
            } else {
                ts_functions_scan(t, i, out)
            }
        } else if t.kind_of(i) == crate::bytes::lit_bytes("variable_declarator") {
            if crate::syntree::child_by_field(t, i, crate::bytes::lit_bytes("name")).is_some()
                && crate::syntree::child_by_field(t, i, crate::bytes::lit_bytes("value")).is_some()
                && t.kind_of(
                crate::syntree::child_by_field(t, i, crate::bytes::lit_bytes("value")).unwrap(),
            ) == crate::bytes::lit_bytes("arrow_function") {
                out.len() > 0 && ts_functions_scan(t, i, out.drop_last()) && ts_arrow_rel(
                    t,
                    i,
                    out.last(),
                )
            } else {
                ts_functions_scan(t, i, out)
            }
        } else {
            ts_functions_scan(t, i, out)
        }
    }
}

/// The class records extracted from the first `n` nodes.
pub open spec fn ts_classes_scan(t: SynTree, n: int, out: Seq<TsClass>) -> bool
    decreases n
        when 0 <= n <= t.nodes@.len()
{
    if n == 0 {
        out.len() == 0
    } else {
        let i = n - 1;
        if t.kind_of(i) == crate::bytes::lit_bytes("import_statement") || t.kind_of(i)
            == crate::bytes::lit_bytes("function_declaration") || t.kind_of(i)
            == crate::bytes::lit_bytes("generator_function_declaration") || t.kind_of(i)
            == crate::bytes::lit_bytes("variable_declarator") {
            ts_classes_scan(t, i, out)
        } else if t.kind_of(i) == crate::bytes::lit_bytes("class_declaration") {
            out.len() > 0 && ts_classes_scan(t, i, out.drop_last()) && ts_class_rel(
                t,
                i,
                out.last(),
            )
        } else {
            ts_classes_scan(t, i, out)
        }
    }
}

impl TsFileSemantics {
    /// Walks a parsed TypeScript file and extracts imports, functions,
    /// classes with their methods, and call sites.  Framework facts are
    /// left empty for the second pass.
    pub fn from_parsed(parsed: &ParsedFile) -> (r: TsFileSemantics)
        requires
            parsed.wf(),
        ensures
            r.wf(),
            r.file_id == parsed.file_id,
            r.path@ == parsed.path@,
            r.http_calls@.len() == 0,
            r.db_operations@.len() == 0,
            r.async_operations@.len() == 0,
            ts_calls_scan(parsed.tree, parsed.tree.nodes@.len() as int, r.calls@),
            ts_imports_scan(parsed.tree, parsed.tree.nodes@.len() as int, r.imports@),
            ts_functions_scan(parsed.tree, parsed.tree.nodes@.len() as int, r.functions@),
            ts_classes_scan(parsed.tree, parsed.tree.nodes@.len() as int, r.classes@),
            ts_structural_post(*parsed, r),
    {
        let t = &parsed.tree;
        let n = t.len();
        let mut imports: Vec<TsImport> = Vec::new();
        let mut functions: Vec<TsFunction> = Vec::new();
        let mut classes: Vec<TsClass> = Vec::new();
        let mut calls: Vec<TsCallSite> = Vec::new();
        let mut i: usize = 0;
        while i < n
            invariant
                t.wf(),
                n == t.nodes@.len(),
                i <= n,
                forall|j: int| 0 <= j < imports@.len() ==> ts_import_wf(#[trigger] imports@[j]),
                forall|j: int| 0 <= j < functions@.len() ==> ts_fun_wf(#[trigger] functions@[j]),
                forall|j: int|
                    0 <= j < classes@.len() ==> forall|k: int|
                        0 <= k < (#[trigger] classes@[j]).methods@.len() ==> ts_method_wf(
                            #[trigger] classes@[j].methods@[k],
                        ),
                forall|j: int| 0 <= j < calls@.len() ==> ts_call_wf(#[trigger] calls@[j]),
                ts_calls_scan(*t, i as int, calls@),
                ts_imports_scan(*t, i as int, imports@),
                ts_functions_scan(*t, i as int, functions@),
                ts_classes_scan(*t, i as int, classes@),
            decreases n - i,
        {
            proof {
                assert(crate::syntree::node_wf(
                    t.nodes@[i as int],
                    i as int,
                    t.source@.len() as int,
                ));
            }
            if t.kind_is(i, "import_statement") {
                match t.child_by_field(i, "source") {
                    Some(src) => {
                        let raw = t.text(src);
                        let module = strip_quotes(raw.as_slice());
                        let mut default_import: Option<Vec<u8>> = None;
                        let mut namespace_import: Option<Vec<u8>> = None;
                        let mut named: Vec<Vec<u8>> = Vec::new();
                        match t.child_by_kind(i, "import_clause") {
                            Some(cl) => {
                                match t.child_by_kind(cl, "identifier") {
                                    Some(d) => {
                                        default_import = Some(t.text(d));
                                    },
                                    None => {},
                                }
                                match t.child_by_kind(cl, "namespace_import") {
                                    Some(ns) => {
                                        match t.child_by_kind(ns, "identifier") {
                                            Some(id) => {
                                                namespace_import = Some(t.text(id));
                                            },
                                            None => {},
                                        }
                                    },
                                    None => {},
                                }
                                match if namespace_import.is_none() {
                                    t.child_by_kind(cl, "named_imports")
                                } else {
                                    None
                                } {
                                    Some(ni) => {
                                        let mut j: usize = ni + 1;
                                        while j < n
                                            invariant
                                                t.wf(),
                                                n == t.nodes@.len(),
                                                j <= n,
                                                ni < n,
                                                ni + 1 <= j,
                                                named@.map_values(|v: Vec<u8>| v@)
                                                    + ts_named_imports_texts(
                                                    *t,
                                                    ni as int,
                                                    j as int,
                                                ) =~= ts_named_imports_texts(
                                                    *t,
                                                    ni as int,
                                                    ni + 1,
                                                ),
                                            decreases n - j,
                                        {
                                            if t.parent_of(j) == ni && t.kind_is(
                                                j,
                                                "import_specifier",
                                            ) {
                                                match t.child_by_field(j, "name") {
                                                    Some(nm) => {
                                                        let ghost pnames = named@;
                                                        named.push(t.text(nm));
                                                        proof {
                                                            assert(named@.map_values(
                                                                |v: Vec<u8>| v@,
                                                            ) =~= pnames.map_values(
                                                                |v: Vec<u8>| v@,
                                                            ) + seq![t.text_of(nm as int)]);
                                                        }
                                                    },
                                                    None => {},
                                                }
                                            }
                                            j = j + 1;
                                        }
                                        proof {
                                            assert(ts_named_imports_texts(
                                                *t,
                                                ni as int,
                                                n as int,
                                            ) =~= Seq::<Seq<u8>>::empty());
                                            assert(named@.map_values(|v: Vec<u8>| v@)
                                                =~= ts_named_imports_texts(*t, ni as int, ni + 1));
                                        }
                                    },
                                    None => {
                                        proof {
                                            assert(named@.map_values(|v: Vec<u8>| v@) =~= Seq::<
                                                Seq<u8>,
                                            >::empty());
                                        }
                                    },
                                }
                            },
                            None => {},
                        }
                        let is_type_only = starts_with_lit(t.text(i).as_slice(), "import type");
                        if module.len() > 0 {
                            let ghost prev = imports@;
                            imports.push(
                                TsImport {
                                    module,
                                    default_import,
                                    namespace_import,
                                    named_imports: named,
                                    is_type_only,
                                    location: t.loc_at(i),
                                },
                            );
                            proof {
                                assert(imports@.drop_last() =~= prev);
                                assert(ts_import_rel(*t, i as int, imports@.last()));
                            }
                        }
                    },
                    None => {},
                }
            } else if t.kind_is(i, "function_declaration") || t.kind_is(
                i,
                "generator_function_declaration",
            ) {
                match t.child_by_field(i, "name") {
                    Some(nm) => {
                        let ghost prev = functions@;
                        functions.push(
                            TsFunction {
                                name: t.text(nm),
                                is_exported: ts_is_exported(t, i),
                                is_generator: t.kind_is(i, "generator_function_declaration"),
                                is_async: starts_with_lit(t.text(i).as_slice(), "async"),
                                params: ts_scan_params(t, i),
                                return_type: match t.child_by_field(i, "return_type") {
                                    Some(rt) => Some(t.text(rt)),
                                    None => None,
                                },
                                has_try_catch: t.subtree_has_kind(i, "try_statement"),
                                location: t.loc_at(i),
                                start_byte: t.start_of(i),
                                end_byte: t.end_of(i),
                            },
                        );
                        proof {
                            assert(functions@.drop_last() =~= prev);
                            assert(ts_fun_decl_rel(*t, i as int, functions@.last()));
                        }
                    },
                    None => {},
                }
            } else if t.kind_is(i, "variable_declarator") {
                match (t.child_by_field(i, "name"), t.child_by_field(i, "value")) {
                    (Some(nm), Some(v)) => {
                        if t.kind_is(v, "arrow_function") {
                            proof {
                                assert(crate::syntree::node_wf(
                                    t.nodes@[i as int],
                                    i as int,
                                    t.source@.len() as int,
                                ));
                            }
                            let p = t.parent_of(i);
                            let ghost prev = functions@;
                            functions.push(
                                TsFunction {
                                    name: t.text(nm),
                                    is_exported: ts_is_exported(t, p),
                                    is_generator: false,
                                    is_async: starts_with_lit(t.text(v).as_slice(), "async"),
                                    params: ts_scan_params(t, v),
                                    return_type: match t.child_by_field(v, "return_type") {
                                        Some(rt) => Some(t.text(rt)),
                                        None => None,
                                    },
                                    has_try_catch: t.subtree_has_kind(v, "try_statement"),
                                    location: t.loc_at(i),
                                    start_byte: t.start_of(i),
                                    end_byte: t.end_of(i),
                                },
                            );
                            proof {
                                assert(functions@.drop_last() =~= prev);
                                assert(ts_arrow_rel(*t, i as int, functions@.last()));
                            }
                        }
                    },
                    _ => {},
                }
            } else if t.kind_is(i, "class_declaration") {
                let cname = match t.child_by_field(i, "name") {
                    Some(nm) => t.text(nm),
                    None => Vec::new(),
                };
                let mut methods: Vec<TsMethod> = Vec::new();
                let mut j: usize = i + 1;
                while j < n
                    invariant
                        t.wf(),
                        n == t.nodes@.len(),
                        j <= n,
                        i < n,
                        i + 1 <= j,
                        forall|k: int| 0 <= k < methods@.len() ==> ts_method_wf(
                            #[trigger] methods@[k],
                        ),
                        ts_class_methods_upto(*t, i as int, j as int, methods@),
                    decreases n - j,
                {
                    if t.kind_is(j, "method_definition") {
                        match t.nearest_anc(j, "class_declaration") {
                            Some(a) => {
                                if a == i {
                                    match t.child_by_field(j, "name") {
                                        Some(nm) => {
                                            let acc: Vec<u8> = match t.child_by_kind(
                                                j,
                                                "accessibility_modifier",
                                            ) {
                                                Some(am) => t.text(am),
                                                None => Vec::new(),
                                            };
                                            let ghost mprev = methods@;
                                            methods.push(
                                                TsMethod {
                                                    name: t.text(nm),
                                                    is_private: crate::bytes::bytes_eq_str(
                                                        acc.as_slice(),
                                                        "private",
                                                    ),
                                                    is_protected: crate::bytes::bytes_eq_str(
                                                        acc.as_slice(),
                                                        "protected",
                                                    ),
                                                    is_async: starts_with_lit(
                                                        t.text(j).as_slice(),
                                                        "async",
                                                    ),
                                                    params: ts_scan_params(t, j),
                                                    return_type: match t.child_by_field(
                                                        j,
                                                        "return_type",
                                                    ) {
                                                        Some(rt) => Some(t.text(rt)),
                                                        None => None,
                                                    },
                                                    decorators: Vec::new(),
                                                    location: t.loc_at(j),
                                                    start_byte: t.start_of(j),
                                                    end_byte: t.end_of(j),
                                                },
                                            );
                                            proof {
                                                assert(methods@.drop_last() =~= mprev);
                                                assert(ts_method_rec_rel(
                                                    *t,
                                                    j as int,
                                                    methods@.last(),
                                                ));
                                            }
                                        },
                                        None => {},
                                    }
                                }
                            },
                            None => {},
                        }
                    }
                    j = j + 1;
                }
                let ghost cprev = classes@;
                classes.push(TsClass { name: cname, methods });
                proof {
                    assert(classes@.drop_last() =~= cprev);
                    assert(ts_class_rel(*t, i as int, classes@.last()));
                }
            } else if t.kind_is(i, "call_expression") {
                match t.child_by_field(i, "function") {
                    Some(f) => {
                        let loc = t.loc_at(i);
                        let ghost prevcalls = calls@;
                        calls.push(
                            TsCallSite {
                                callee_expr: t.text(f),
                                line: loc.start_line + 1,
                                column: loc.start_col + 1,
                                start_byte: t.start_of(i),
                                end_byte: t.end_of(i),
                            },
                        );
                        proof {
                            assert(calls@.drop_last() =~= prevcalls);
                        }
                    },
                    None => {},
                }
            }
            i = i + 1;
        }
        TsFileSemantics {
            file_id: parsed.file_id,
            path: crate::bytes::bytes_to_vec(parsed.path.as_slice()),
            imports,
            functions,
            classes,
            calls,
            http_calls: Vec::new(),
            db_operations: Vec::new(),
            async_operations: Vec::new(),
        }
    }

    /// Second pass: fills HTTP client calls and asynchronous operations.
    /// The structural facts are left untouched.  This pass cannot fail.
    #[verifier::rlimit(100)]
    pub fn analyze_frameworks(&mut self, parsed: &ParsedFile) -> (r: Result<(), SemanticsError>)
        requires
            parsed.wf(),
            old(self).wf(),
        ensures
            final(self).wf(),
            final(self).imports == old(self).imports,
            final(self).functions == old(self).functions,
            final(self).classes == old(self).classes,
            final(self).calls == old(self).calls,
            final(self).file_id == old(self).file_id,
            final(self).path == old(self).path,
            final(self).db_operations == old(self).db_operations,
            r.is_ok(),
            ts_http_scan(parsed.tree, parsed.tree.nodes@.len() as int, final(self).http_calls@),
            ts_async_scan(
                parsed.tree,
                parsed.tree.nodes@.len() as int,
                final(self).async_operations@,
            ),
    {
        let t = &parsed.tree;
        let n = t.len();
        let mut http: Vec<TsHttpCallSite> = Vec::new();
        let mut asyncs: Vec<TsAsyncOperation> = Vec::new();
        let mut i: usize = 0;
        while i < n
            invariant
                t.wf(),
                n == t.nodes@.len(),
                i <= n,
                forall|j: int| 0 <= j < http@.len() ==> ts_http_wf(#[trigger] http@[j]),
                forall|j: int| 0 <= j < asyncs@.len() ==> ts_async_wf(#[trigger] asyncs@[j]),
                ts_http_scan(*t, i as int, http@),
                ts_async_scan(*t, i as int, asyncs@),
            decreases n - i,
        {
            proof {
                assert(crate::syntree::node_wf(
                    t.nodes@[i as int],
                    i as int,
                    t.source@.len() as int,
                ));
            }
            if t.kind_is(i, "await_expression") {
                let (fname, _) = ts_enclosing_function(t, i);
                let ghost preva = asyncs@;
                asyncs.push(
                    TsAsyncOperation {
                        operation_type: TsAsyncOperationType::Await,
                        has_error_handling: false,
                        has_timeout: false,
                        timeout_millis: None,
                        has_cancellation: false,
                        operation_text: t.text(i),
                        location: t.loc_at(i),
                        enclosing_function: fname,
                        start_byte: t.start_of(i),
                        end_byte: t.end_of(i),
                    },
                );
                proof {
                    assert(asyncs@.drop_last() =~= preva);
                }
            } else if t.kind_is(i, "new_expression") {
                match t.child_by_field(i, "constructor") {
                    Some(c) => {
                        if crate::bytes::bytes_eq_str(t.text(c).as_slice(), "Promise") {
                            let (fname, _) = ts_enclosing_function(t, i);
                            let ghost preva = asyncs@;
                            asyncs.push(
                                TsAsyncOperation {
                                    operation_type: TsAsyncOperationType::PromiseConstructor,
                                    has_error_handling: false,
                                    has_timeout: false,
                                    timeout_millis: None,
                                    has_cancellation: false,
                                    operation_text: t.text(i),
                                    location: t.loc_at(i),
                                    enclosing_function: fname,
                                    start_byte: t.start_of(i),
                                    end_byte: t.end_of(i),
                                },
                            );
                            proof {
                                assert(asyncs@.drop_last() =~= preva);
                            }
                        }
                    },
                    None => {},
                }
            } else if t.kind_is(i, "call_expression") {
                match t.child_by_field(i, "function") {
                    Some(f) => {
                        if t.kind_is(f, "identifier") {
                            let ftxt = t.text(f);
                            if crate::bytes::bytes_eq_str(ftxt.as_slice(), "fetch") {
                                let (fname, in_async) = ts_enclosing_function(t, i);
                                let call_text = t.text(i);
                                let ghost prevh = http@;
                                http.push(
                                    TsHttpCallSite {
                                        client_kind: TsHttpClientKind::Fetch,
                                        method: crate::bytes::lit_to_vec("fetch"),
                                        url: ts_first_string_arg(t, i),
                                        has_timeout: contains_lit(call_text.as_slice(), "timeout"),
                                        location: t.loc_at(i),
                                        function_name: fname,
                                        in_async_context: in_async,
                                        start_byte: t.start_of(i),
                                        end_byte: t.end_of(i),
                                    },
                                );
                                proof {
                                    assert(http@.drop_last() =~= prevh);
                                    assert(ts_fetch_rel(*t, i as int, http@.last()));
                                }
                            } else if crate::bytes::bytes_eq_str(ftxt.as_slice(), "setTimeout") {
                                let (fname, _) = ts_enclosing_function(t, i);
                                let ghost preva = asyncs@;
                                asyncs.push(
                                    TsAsyncOperation {
                                        operation_type: TsAsyncOperationType::Timeout,
                                        has_error_handling: false,
                                        has_timeout: true,
                                        timeout_millis: None,
                                        has_cancellation: false,
                                        operation_text: t.text(i),
                                        location: t.loc_at(i),
                                        enclosing_function: fname,
                                        start_byte: t.start_of(i),
                                        end_byte: t.end_of(i),
                                    },
                                );
                                proof {
                                    assert(asyncs@.drop_last() =~= preva);
                                }
                            }
                        } else if t.kind_is(f, "member_expression") {
                            let obj = match t.child_by_field(f, "object") {
                                Some(o) => t.text(o),
                                None => Vec::new(),
                            };
                            let prop = match t.child_by_field(f, "property") {
                                Some(p) => t.text(p),
                                None => Vec::new(),
                            };
                            let kind_opt: Option<TsHttpClientKind> = if crate::bytes::bytes_eq_str(
                                obj.as_slice(),
                                "axios",
                            ) {
                                Some(TsHttpClientKind::Axios)
                            } else if crate::bytes::bytes_eq_str(obj.as_slice(), "got") {
                                Some(TsHttpClientKind::Got)
                            } else if crate::bytes::bytes_eq_str(obj.as_slice(), "ky") {
                                Some(TsHttpClientKind::Ky)
                            } else if crate::bytes::bytes_eq_str(obj.as_slice(), "superagent") {
                                Some(TsHttpClientKind::Superagent)
                            } else {
                                None
                            };
                            match kind_opt {
                                Some(ck) => {
                                    let (fname, in_async) = ts_enclosing_function(t, i);
                                    let call_text = t.text(i);
                                    let ghost prevh = http@;
                                    http.push(
                                        TsHttpCallSite {
                                            client_kind: ck,
                                            method: prop,
                                            url: ts_first_string_arg(t, i),
                                            has_timeout: contains_lit(
                                                call_text.as_slice(),
                                                "timeout",
                                            ),
                                            location: t.loc_at(i),
                                            function_name: fname,
                                            in_async_context: in_async,
                                            start_byte: t.start_of(i),
                                            end_byte: t.end_of(i),
                                        },
                                    );
                                    proof {
                                        assert(http@.drop_last() =~= prevh);
                                        assert(ts_member_http_rel(*t, i as int, http@.last()));
                                    }
                                },
                                None => {
                                    if crate::bytes::bytes_eq_str(obj.as_slice(), "Promise") {
                                        let comb = crate::bytes::bytes_eq_str(
                                            prop.as_slice(),
                                            "all",
                                        ) || crate::bytes::bytes_eq_str(prop.as_slice(), "race")
                                            || crate::bytes::bytes_eq_str(
                                            prop.as_slice(),
                                            "allSettled",
                                        );
                                        if comb {
                                            let (fname, _) = ts_enclosing_function(t, i);
                                            let ghost preva = asyncs@;
                                            asyncs.push(
                                                TsAsyncOperation {
                                                    operation_type:
                                                        TsAsyncOperationType::PromiseCombinator,
                                                    has_error_handling: false,
                                                    has_timeout: false,
                                                    timeout_millis: None,
                                                    has_cancellation: false,
                                                    operation_text: t.text(i),
                                                    location: t.loc_at(i),
                                                    enclosing_function: fname,
                                                    start_byte: t.start_of(i),
                                                    end_byte: t.end_of(i),
                                                },
                                            );
                                            proof {
                                                assert(asyncs@.drop_last() =~= preva);
                                            }
                                        }
                                    } else if crate::bytes::bytes_eq_str(prop.as_slice(), "then") {
                                        let (fname, _) = ts_enclosing_function(t, i);
                                        let ghost preva = asyncs@;
                                        asyncs.push(
                                            TsAsyncOperation {
                                                operation_type: TsAsyncOperationType::PromiseChain,
                                                has_error_handling: false,
                                                has_timeout: false,
                                                timeout_millis: None,
                                                has_cancellation: false,
                                                operation_text: t.text(i),
                                                location: t.loc_at(i),
                                                enclosing_function: fname,
                                                start_byte: t.start_of(i),
                                                end_byte: t.end_of(i),
                                            },
                                        );
                                        proof {
                                            assert(asyncs@.drop_last() =~= preva);
                                        }
                                    }
                                },
                            }
                        }
                    },
                    None => {},
                }
            }
            i = i + 1;
        }
        self.http_calls = http;
        self.async_operations = asyncs;
        Ok(())
    }
}

/// The first string literal among the arguments of the call at node `i`,
/// without its quotes.
fn ts_first_string_arg(t: &SynTree, i: usize) -> (r: Option<Vec<u8>>)
    requires
        t.wf(),
        i < t.nodes@.len(),
    ensures
        match (r, ts_url_spec(*t, i as int)) {
            (Some(a), Some(b)) => a@ == b,
            (None, None) => true,
            _ => false,
        },
{
    match t.child_by_field(i, "arguments") {
        Some(a) => match t.child_by_kind(a, "string") {
            Some(s) => Some(strip_quotes(t.text(s).as_slice())),
            None => None,
        },
        None => None,
    }
}


/// The structural contract of `from_parsed` for TypeScript: identity
/// copied, the four structural categories pinned by their scan relations,
/// framework categories left empty.
pub open spec fn ts_structural_post(p: ParsedFile, r: TsFileSemantics) -> bool {
    &&& r.file_id == p.file_id
    &&& r.path@ == p.path@
    &&& ts_imports_scan(p.tree, p.tree.nodes@.len() as int, r.imports@)
    &&& ts_functions_scan(p.tree, p.tree.nodes@.len() as int, r.functions@)
    &&& ts_classes_scan(p.tree, p.tree.nodes@.len() as int, r.classes@)
    &&& ts_calls_scan(p.tree, p.tree.nodes@.len() as int, r.calls@)
    &&& r.http_calls@.len() == 0
    &&& r.db_operations@.len() == 0
    &&& r.async_operations@.len() == 0
}

} // verus!

